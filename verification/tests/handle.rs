use bridgeburner::proxy::certs::Identity;
use bridgeburner::proxy::error::ProxyError;
use bridgeburner::proxy::{BindAddr, Ip, ProxyHandle, ProxyState, ServeAction, StopAction};

fn local() -> BindAddr {
    BindAddr { ip: Ip::V4(127, 0, 0, 1), port: 4444 }
}

fn handle() -> ProxyHandle {
    ProxyHandle::new(local(), Identity::certificate_authority().unwrap())
}

#[test]
fn new_handle_is_stopped() {
    let handle = handle();
    assert_eq!(handle.addr(), local());
    assert!(!handle.is_serving());
    assert_eq!(handle.state(), ProxyState::Stopped);
    assert_eq!(handle.ctx().ca.common_name(), "bridgeburner");
}

#[test]
fn serve_asks_for_one_listener() {
    let mut handle = handle();
    match handle.serve() {
        ServeAction::Bind { addr, .. } => assert_eq!(addr, local()),
        _ => panic!("no listener asked for"),
    }
    assert!(handle.is_serving());
    assert_eq!(handle.state(), ProxyState::Serving);
    assert!(matches!(handle.serve(), ServeAction::Nothing));
    assert!(matches!(handle.serve(), ServeAction::Nothing));
    assert!(handle.is_serving());
    assert_eq!(handle.addr(), local());
}

#[test]
fn stop_on_a_new_handle_is_a_no_op() {
    let mut handle = handle();
    assert!(matches!(handle.stop(), StopAction::Nothing));
    assert!(!handle.is_serving());
    assert_eq!(handle.state(), ProxyState::Stopped);
}

#[test]
fn stop_during_accept_fires_the_signal_once() {
    let mut handle = handle();
    let mut shutdown = match handle.serve() {
        ServeAction::Bind { shutdown, .. } => shutdown.into_inner(),
        _ => panic!("no listener asked for"),
    };
    assert!(shutdown.try_recv().is_err());
    assert!(matches!(handle.stop(), StopAction::Shutdown { .. }));
    assert_eq!(shutdown.try_recv(), Ok(()));
    assert!(!handle.is_serving());
    assert_eq!(handle.state(), ProxyState::Stopped);
    assert!(matches!(handle.stop(), StopAction::Nothing));
    assert_eq!(handle.state(), ProxyState::Stopped);
}

#[test]
fn stop_after_the_listener_is_gone_still_stops() {
    let mut handle = handle();
    match handle.serve() {
        ServeAction::Bind { shutdown, .. } => drop(shutdown),
        _ => panic!("no listener asked for"),
    }
    assert!(matches!(handle.stop(), StopAction::Shutdown { .. }));
    assert!(!handle.is_serving());
}

#[test]
fn stopped_handle_serves_again() {
    let mut handle = handle();
    assert!(matches!(handle.serve(), ServeAction::Bind { .. }));
    assert!(matches!(handle.stop(), StopAction::Shutdown { .. }));
    assert!(matches!(handle.serve(), ServeAction::Bind { .. }));
    assert_eq!(handle.state(), ProxyState::Serving);
}

#[test]
fn failed_bind_rolls_back_and_is_surfaced() {
    let mut handle = handle();
    let mut shutdown = match handle.serve() {
        ServeAction::Bind { shutdown, .. } => shutdown.into_inner(),
        _ => panic!("no listener asked for"),
    };
    assert!(handle.on_error(ProxyError::BindError));
    assert!(!handle.is_serving());
    assert_eq!(handle.state(), ProxyState::Error);
    assert!(shutdown.try_recv().is_err());
    assert!(matches!(handle.stop(), StopAction::Nothing));
    assert_eq!(handle.state(), ProxyState::Error);
    assert!(matches!(handle.serve(), ServeAction::Bind { .. }));
    assert_eq!(handle.state(), ProxyState::Serving);
}

#[test]
fn other_failures_leave_the_listener_alone() {
    let mut handle = handle();
    assert!(matches!(handle.serve(), ServeAction::Bind { .. }));
    for error in [
        ProxyError::Unreachable,
        ProxyError::BadRequest,
        ProxyError::CryptoError,
        ProxyError::TlsHandshakeError,
        ProxyError::OriginProtocolError,
        ProxyError::ConnectionDropped,
    ] {
        assert!(!handle.on_error(error));
        assert!(handle.is_serving());
        assert_eq!(handle.state(), ProxyState::Serving);
    }
    assert!(matches!(handle.stop(), StopAction::Shutdown { .. }));
}

#[test]
fn end_of_the_accept_loop_stops_the_handle() {
    let mut handle = handle();
    assert!(matches!(handle.serve(), ServeAction::Bind { .. }));
    handle.accept_ended();
    assert!(!handle.is_serving());
    assert_eq!(handle.state(), ProxyState::Stopped);
    assert!(matches!(handle.stop(), StopAction::Nothing));
    handle.accept_ended();
    assert_eq!(handle.state(), ProxyState::Stopped);
}

#[test]
fn end_of_the_accept_loop_keeps_an_error() {
    let mut handle = handle();
    assert!(matches!(handle.serve(), ServeAction::Bind { .. }));
    assert!(handle.on_error(ProxyError::BindError));
    handle.accept_ended();
    assert_eq!(handle.state(), ProxyState::Error);
}

#[test]
fn two_proxies_share_one_authority() {
    let ca = Identity::certificate_authority().unwrap();
    let mut first = ProxyHandle::new(local(), ca.clone());
    let mut second = ProxyHandle::new(BindAddr { ip: Ip::V6(1), port: 8080 }, ca.clone());
    assert!(matches!(first.serve(), ServeAction::Bind { .. }));
    assert!(!second.is_serving());
    assert!(matches!(second.serve(), ServeAction::Bind { .. }));
    assert!(matches!(first.stop(), StopAction::Shutdown { .. }));
    assert!(second.is_serving());
    assert_eq!(
        first.ctx().ca.cert_ref().to_der().unwrap(),
        second.ctx().ca.cert_ref().to_der().unwrap()
    );
    assert_eq!(second.addr(), BindAddr { ip: Ip::V6(1), port: 8080 });
}

#[test]
fn second_serve_leaves_the_first_channel_in_place() {
    let mut handle = handle();
    let mut shutdown = match handle.serve() {
        ServeAction::Bind { shutdown, .. } => shutdown.into_inner(),
        _ => panic!("no listener asked for"),
    };
    assert!(matches!(handle.serve(), ServeAction::Nothing));
    assert!(shutdown.try_recv().is_err());
    assert!(matches!(handle.stop(), StopAction::Shutdown { .. }));
    assert_eq!(shutdown.try_recv(), Ok(()));
}

#[test]
fn each_serve_after_a_stop_gets_a_channel_of_its_own() {
    let mut handle = handle();
    let mut first = match handle.serve() {
        ServeAction::Bind { shutdown, .. } => shutdown.into_inner(),
        _ => panic!("no listener asked for"),
    };
    assert!(matches!(handle.stop(), StopAction::Shutdown { .. }));
    assert_eq!(first.try_recv(), Ok(()));
    let mut second = match handle.serve() {
        ServeAction::Bind { shutdown, .. } => shutdown.into_inner(),
        _ => panic!("no listener asked for"),
    };
    assert!(second.try_recv().is_err());
    assert!(matches!(handle.stop(), StopAction::Shutdown { .. }));
    assert_eq!(second.try_recv(), Ok(()));
}

#[test]
fn stop_tells_whether_the_listener_heard_the_signal() {
    let mut handle = handle();
    let mut shutdown = match handle.serve() {
        ServeAction::Bind { shutdown, .. } => shutdown.into_inner(),
        _ => panic!("no listener asked for"),
    };
    match handle.stop() {
        StopAction::Shutdown { sent } => assert!(sent.into_inner()),
        StopAction::Nothing => panic!("nothing was stopped"),
    }
    assert_eq!(shutdown.try_recv(), Ok(()));

    match handle.serve() {
        ServeAction::Bind { shutdown, .. } => drop(shutdown),
        _ => panic!("no listener asked for"),
    }
    match handle.stop() {
        StopAction::Shutdown { sent } => assert!(!sent.into_inner()),
        StopAction::Nothing => panic!("nothing was stopped"),
    }
}
