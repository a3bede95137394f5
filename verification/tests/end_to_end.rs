use std::collections::HashMap;
use std::convert::Infallible;
use std::fmt;
use std::future::{poll_fn, Future};
use std::pin::Pin;
use std::sync::{Arc, Mutex};
use std::task::Poll;
use std::time::Duration;

use bridgeburner::proxy::certs::Identity;
use bridgeburner::proxy::client::{Client, OriginAction, OriginEvent};
use bridgeburner::proxy::error::ProxyError;
use bridgeburner::proxy::logs::ProxyLogs;
use bridgeburner::proxy::message::{adapt_frame, Frame, Header, HttpRequest, HttpResponse};
use bridgeburner::proxy::text::authority;
use bridgeburner::proxy::tls::{upgrade_to_tls, TlsAction, TlsEvent, TlsPhase};
use bridgeburner::proxy::uri::Target;
use bridgeburner::proxy::{
    conclude, dispatch_req, forward_http, BindAddr, Dispatch, Forwarded, Ip, ProxyCtx,
    ProxyHandle, ProxyState, ServeAction,
};
use http_body_util::{BodyExt, Full};
use hyper::body::{Bytes, Frame as WireFrame, Incoming};
use hyper::client::conn::http1::{handshake, SendRequest};
use hyper::header::{HeaderName, HeaderValue};
use hyper::server::conn::http1;
use hyper::service::service_fn;
use hyper::{HeaderMap, Request, Response, StatusCode, Uri};
use openssl::nid::Nid;
use openssl::ssl::{SslConnector, SslMethod, SslVerifyMode};
use tokio::io::{AsyncReadExt, AsyncWriteExt, DuplexStream};
use tokio::sync::mpsc::{unbounded_channel, UnboundedReceiver, UnboundedSender};
use tokio_openssl::SslStream;

#[derive(Debug)]
struct Dropped(ProxyError);

impl fmt::Display for Dropped {
    fn fmt(&self, f: &mut fmt::Formatter<'_>) -> fmt::Result {
        f.write_str(&self.0.describe())
    }
}

impl std::error::Error for Dropped {}

/// A network in memory: listeners by address, connections as pipes.
#[derive(Clone, Default)]
struct Net {
    bound: Arc<Mutex<HashMap<String, UnboundedSender<DuplexStream>>>>,
}

impl Net {
    fn bind(&self, addr: &str) -> Option<UnboundedReceiver<DuplexStream>> {
        let mut bound = self.bound.lock().unwrap();
        if bound.get(addr).map_or(false, |listener| !listener.is_closed()) {
            return None;
        }
        let (sender, receiver) = unbounded_channel();
        bound.insert(addr.to_string(), sender);
        Some(receiver)
    }

    fn connect(&self, addr: &str) -> Option<DuplexStream> {
        let bound = self.bound.lock().unwrap();
        let listener = bound.get(addr)?;
        let (near, far) = tokio::io::duplex(1 << 16);
        listener.send(far).ok()?;
        Some(near)
    }

    fn is_bound(&self, addr: &str) -> bool {
        let bound = self.bound.lock().unwrap();
        bound.get(addr).map_or(false, |listener| !listener.is_closed())
    }
}

#[derive(Clone)]
struct Proxy {
    net: Net,
    core: Arc<Mutex<ProxyHandle>>,
    logs: Arc<Mutex<ProxyLogs>>,
}

fn socket_addr(addr: BindAddr) -> String {
    match addr.ip {
        Ip::V4(a, b, c, d) => format!("{}.{}.{}.{}:{}", a, b, c, d, addr.port),
        Ip::V6(bits) => format!("[{:x}]:{}", bits, addr.port),
    }
}

fn target(uri: &Uri) -> Target {
    Target {
        scheme: uri.scheme_str().map(str::to_owned),
        host: uri.host().map(str::to_owned),
        port: uri.port_u16(),
        path_and_query: uri.path_and_query().map(|p| p.as_str().to_owned()),
    }
}

fn headers(map: &HeaderMap) -> Vec<Header> {
    map.iter()
        .map(|(name, value)| Header {
            name: name.as_str().to_owned(),
            value: value.as_bytes().to_vec(),
        })
        .collect()
}

fn plain_frame(frame: WireFrame<Bytes>) -> Frame {
    match frame.into_data() {
        Ok(bytes) => Frame::Data(bytes.to_vec()),
        Err(frame) => match frame.into_trailers() {
            Ok(map) => Frame::Trailers(headers(&map)),
            Err(_) => Frame::Trailers(Vec::new()),
        },
    }
}

fn wire_response(response: HttpResponse) -> Response<Full<Bytes>> {
    let mut out = Response::new(Full::new(Bytes::from(response.body)));
    *out.status_mut() = StatusCode::from_u16(response.status).unwrap();
    for header in response.headers {
        let name = HeaderName::from_bytes(header.name.as_bytes()).unwrap();
        let value = HeaderValue::from_bytes(&header.value).unwrap();
        out.headers_mut().append(name, value);
    }
    out
}

impl Proxy {
    fn new(net: &Net, ca: Identity) -> Self {
        let addr = BindAddr { ip: Ip::V4(127, 0, 0, 1), port: 4444 };
        Proxy {
            net: net.clone(),
            core: Arc::new(Mutex::new(ProxyHandle::new(addr, ca))),
            logs: Arc::new(Mutex::new(ProxyLogs::new())),
        }
    }

    fn state(&self) -> ProxyState {
        self.core.lock().unwrap().state()
    }

    fn is_serving(&self) -> bool {
        self.core.lock().unwrap().is_serving()
    }

    fn stop(&self) {
        let _ = self.core.lock().unwrap().stop();
    }

    async fn serve(&self) -> Result<(), ProxyError> {
        let (action, ctx, client) = {
            let mut core = self.core.lock().unwrap();
            let action = core.serve();
            (action, core.ctx().clone(), *core.client())
        };
        let (addr, shutdown) = match action {
            ServeAction::Nothing => return Ok(()),
            ServeAction::Bind { addr, shutdown } => (addr, shutdown.into_inner()),
        };
        let listener = match self.net.bind(&socket_addr(addr)) {
            Some(listener) => listener,
            None => {
                self.core.lock().unwrap().on_error(ProxyError::BindError);
                return Err(ProxyError::BindError);
            }
        };
        let ctx = Arc::new(ctx);
        let mut shutdown = shutdown;
        let mut accepting =
            Box::pin(accept_loop(listener, self.net.clone(), ctx, client, self.logs.clone()));
        let signalled = poll_fn(|cx| {
            if Pin::new(&mut shutdown).poll(cx).is_ready() {
                Poll::Ready(true)
            } else if accepting.as_mut().poll(cx).is_ready() {
                Poll::Ready(false)
            } else {
                Poll::Pending
            }
        })
        .await;
        drop(accepting);
        if !signalled {
            self.core.lock().unwrap().accept_ended();
        }
        Ok(())
    }
}

async fn accept_loop(
    mut listener: UnboundedReceiver<DuplexStream>,
    net: Net,
    ctx: Arc<ProxyCtx>,
    client: Client,
    logs: Arc<Mutex<ProxyLogs>>,
) {
    loop {
        let stream = match listener.recv().await {
            Some(stream) => stream,
            None => return,
        };
        let net = net.clone();
        let ctx = ctx.clone();
        let logs = logs.clone();
        tokio::spawn(async move {
            let service = service_fn(move |req| {
                dispatch(req, net.clone(), ctx.clone(), client, logs.clone())
            });
            let _ = http1::Builder::new()
                .serve_connection(stream, service)
                .with_upgrades()
                .await;
        });
    }
}

async fn dispatch(
    req: Request<Incoming>,
    net: Net,
    ctx: Arc<ProxyCtx>,
    client: Client,
    logs: Arc<Mutex<ProxyLogs>>,
) -> Result<Response<Full<Bytes>>, Dropped> {
    let uri = target(req.uri());
    let decision = dispatch_req(req.method().as_str(), &uri, &ctx, &client);
    let reply = decision.reply();
    match decision {
        Dispatch::Intercept { identity, remote_addr } => {
            tokio::spawn(async move {
                let _ = intercept(req, net, identity, remote_addr, client, logs).await;
            });
            reply.map(wire_response).ok_or(Dropped(ProxyError::CryptoError))
        }
        Dispatch::Forward(forwarded) => exchange(req, net, forwarded, client, logs).await,
        Dispatch::Fail(error) => reply.map(wire_response).ok_or(Dropped(error)),
    }
}

async fn tunnelled(
    req: Request<Incoming>,
    net: Net,
    remote_addr: String,
    client: Client,
    logs: Arc<Mutex<ProxyLogs>>,
) -> Result<Response<Full<Bytes>>, Dropped> {
    let uri = target(req.uri());
    let forwarded = forward_http(&uri, Some(&remote_addr), &client);
    exchange(req, net, forwarded, client, logs).await
}

async fn intercept(
    req: Request<Incoming>,
    net: Net,
    identity: Identity,
    remote_addr: String,
    client: Client,
    logs: Arc<Mutex<ProxyLogs>>,
) -> Result<(), ProxyError> {
    let mut upgraded = None;
    let mut tls = None;
    let mut phase = TlsPhase::AwaitingUpgrade;
    let mut event = match hyper::upgrade::on(req).await {
        Ok(io) => {
            upgraded = Some(io);
            TlsEvent::Succeeded
        }
        Err(_) => TlsEvent::Failed,
    };
    loop {
        let (next, action) = upgrade_to_tls(phase, event, &identity);
        phase = next;
        event = match action {
            TlsAction::Handshake(session) => {
                match upgraded.take().map(|io| SslStream::new(session.into_inner(), io)) {
                    Some(Ok(mut stream)) => match Pin::new(&mut stream).accept().await {
                        Ok(()) => {
                            tls = Some(stream);
                            TlsEvent::Succeeded
                        }
                        Err(_) => TlsEvent::Failed,
                    },
                    _ => TlsEvent::Failed,
                }
            }
            TlsAction::Serve => match tls.take() {
                Some(stream) => {
                    let service = service_fn(|req| {
                        tunnelled(req, net.clone(), remote_addr.clone(), client, logs.clone())
                    });
                    let served = http1::Builder::new()
                        .serve_connection(stream, service)
                        .with_upgrades()
                        .await;
                    match served {
                        Ok(()) => TlsEvent::Succeeded,
                        Err(_) => TlsEvent::Failed,
                    }
                }
                None => TlsEvent::Failed,
            },
            TlsAction::Finish(result) => return result,
        };
    }
}

async fn exchange(
    req: Request<Incoming>,
    net: Net,
    forwarded: Forwarded,
    client: Client,
    logs: Arc<Mutex<ProxyLogs>>,
) -> Result<Response<Full<Bytes>>, Dropped> {
    let (mut parts, body) = req.into_parts();
    let body = body.map_frame(|frame| WireFrame::data(Bytes::from(adapt_frame(plain_frame(frame)))));
    let body = match body.collect().await {
        Ok(collected) => collected.to_bytes(),
        Err(_) => return Err(Dropped(ProxyError::ConnectionDropped)),
    };
    let record = HttpRequest {
        method: parts.method.as_str().to_owned(),
        uri: parts.uri.to_string(),
        headers: headers(&parts.headers),
        body: body.to_vec(),
    };
    let Forwarded { uri, phase, action } = forwarded;
    if let Some(Ok(rewritten)) = uri.map(|text| text.parse::<Uri>()) {
        parts.uri = rewritten;
    }
    let mut outbound = Some(Request::from_parts(parts, Full::new(body)));
    let mut stream: Option<DuplexStream> = None;
    let mut sender: Option<SendRequest<Full<Bytes>>> = None;
    let mut head: Option<Response<Incoming>> = None;
    let mut phase = phase;
    let mut action = action;
    loop {
        let event = match action {
            OriginAction::Connect { host, port } => match net.connect(&authority(&host, port)) {
                Some(connected) => {
                    stream = Some(connected);
                    OriginEvent::Succeeded
                }
                None => OriginEvent::Failed,
            },
            OriginAction::Handshake => match stream.take() {
                Some(connected) => match handshake::<DuplexStream, Full<Bytes>>(connected).await {
                    Ok((tx, connection)) => {
                        tokio::spawn(async move {
                            let _ = connection.await;
                        });
                        sender = Some(tx);
                        OriginEvent::Succeeded
                    }
                    Err(_) => OriginEvent::Failed,
                },
                None => OriginEvent::Failed,
            },
            OriginAction::Send => match (sender.as_mut(), outbound.take()) {
                (Some(tx), Some(request)) => match tx.send_request(request).await {
                    Ok(response) => {
                        head = Some(response);
                        OriginEvent::Succeeded
                    }
                    Err(_) => OriginEvent::Failed,
                },
                _ => OriginEvent::Failed,
            },
            OriginAction::Collect => match head.take() {
                Some(response) => {
                    let (parts, body) = response.into_parts();
                    match body.collect().await {
                        Ok(collected) => OriginEvent::Response(HttpResponse {
                            status: parts.status.as_u16(),
                            headers: headers(&parts.headers),
                            body: collected.to_bytes().to_vec(),
                        }),
                        Err(_) => OriginEvent::Failed,
                    }
                }
                None => OriginEvent::Failed,
            },
            done @ (OriginAction::Return(_) | OriginAction::Fail(_)) => {
                let answer = conclude(&mut logs.lock().unwrap(), record, done);
                return answer
                    .map(wire_response)
                    .ok_or(Dropped(ProxyError::ConnectionDropped));
            }
        };
        (phase, action) = client.execute(phase, event);
    }
}

const PROXY: &str = "127.0.0.1:4444";

fn within_ten_seconds<F: Future>(work: F) -> F::Output {
    let runtime = tokio::runtime::Builder::new_current_thread()
        .enable_all()
        .build()
        .unwrap();
    runtime.block_on(async move {
        tokio::time::timeout(Duration::from_secs(10), work)
            .await
            .expect("done within ten seconds")
    })
}

async fn until_bound(net: &Net, addr: &str) {
    while !net.is_bound(addr) {
        tokio::time::sleep(Duration::from_millis(1)).await;
    }
}

fn origin(net: &Net, addr: &str, seen: Arc<Mutex<Vec<String>>>) {
    let mut listener = net.bind(addr).expect("a free address");
    tokio::spawn(async move {
        loop {
            let stream = match listener.recv().await {
                Some(stream) => stream,
                None => return,
            };
            let seen = seen.clone();
            tokio::spawn(async move {
                let service = service_fn(move |req: Request<Incoming>| {
                    seen.lock().unwrap().push(req.uri().to_string());
                    async move {
                        let mut response = Response::new(Full::new(Bytes::from_static(b"hi")));
                        response
                            .headers_mut()
                            .insert("x-origin", HeaderValue::from_static("yes"));
                        Ok::<_, Infallible>(response)
                    }
                });
                let _ = http1::Builder::new().serve_connection(stream, service).await;
            });
        }
    });
}

fn start(net: &Net, ca: Identity) -> (Proxy, tokio::task::JoinHandle<Result<(), ProxyError>>) {
    let proxy = Proxy::new(net, ca);
    let serving = tokio::spawn({
        let proxy = proxy.clone();
        async move { proxy.serve().await }
    });
    (proxy, serving)
}

async fn get(sender: &mut SendRequest<Full<Bytes>>, uri: &str) -> (u16, Vec<Header>, Vec<u8>) {
    let request = Request::builder()
        .method("GET")
        .uri(uri)
        .header("host", "origin.local")
        .body(Full::new(Bytes::new()))
        .unwrap();
    let response = sender.send_request(request).await.unwrap();
    let status = response.status().as_u16();
    let (parts, body) = response.into_parts();
    let body = body.collect().await.unwrap().to_bytes().to_vec();
    (status, headers(&parts.headers), body)
}

async fn get_through(net: &Net, uri: &str) -> (u16, Vec<Header>, Vec<u8>) {
    let stream = net.connect(PROXY).expect("a listening proxy");
    let (mut sender, connection) = handshake::<DuplexStream, Full<Bytes>>(stream).await.unwrap();
    tokio::spawn(async move {
        let _ = connection.await;
    });
    get(&mut sender, uri).await
}

async fn connect_through(net: &Net, connect_target: &str) -> (String, DuplexStream) {
    let mut stream = net.connect(PROXY).expect("a listening proxy");
    let request = format!("CONNECT {} HTTP/1.1\r\nHost: {}\r\n\r\n", connect_target, connect_target);
    stream.write_all(request.as_bytes()).await.unwrap();
    let mut head = Vec::new();
    while !head.ends_with(b"\r\n\r\n") {
        let mut byte = [0u8; 1];
        if stream.read(&mut byte).await.unwrap() == 0 {
            break;
        }
        head.push(byte[0]);
    }
    (String::from_utf8(head).unwrap(), stream)
}

async fn tls_over(stream: DuplexStream, trusted: &Identity) -> SslStream<DuplexStream> {
    let mut connector = SslConnector::builder(SslMethod::tls()).unwrap();
    connector.set_verify(SslVerifyMode::PEER);
    connector.cert_store_mut().add_cert(trusted.cert_ref().to_owned()).unwrap();
    let mut configuration = connector.build().configure().unwrap();
    configuration.set_verify_hostname(false);
    let session = configuration.into_ssl("origin.local").unwrap();
    let mut stream = SslStream::new(session, stream).unwrap();
    Pin::new(&mut stream).connect().await.unwrap();
    stream
}

fn has_header(headers: &[Header], name: &str, value: &[u8]) -> bool {
    headers.iter().any(|header| header.name == name && header.value == value)
}

#[test]
fn plain_get_passes_through_a_running_proxy() {
    within_ten_seconds(async {
        let net = Net::default();
        let seen = Arc::new(Mutex::new(Vec::new()));
        origin(&net, "origin.local:80", seen.clone());
        let (proxy, serving) = start(&net, Identity::certificate_authority().unwrap());
        until_bound(&net, PROXY).await;

        let uri = "http://origin.local/hello";
        let (status, headers, body) = get_through(&net, uri).await;
        assert_eq!(status, 200);
        assert_eq!(body, b"hi".to_vec());
        assert!(has_header(&headers, "x-origin", b"yes"));
        assert_eq!(*seen.lock().unwrap(), vec![uri.to_string()]);

        {
            let logs = proxy.logs.lock().unwrap();
            assert_eq!(logs.len(), 1);
            let record = logs.get(0).unwrap();
            assert_eq!(record.request.method, "GET");
            assert_eq!(record.request.uri, uri);
            assert_eq!(record.response.status, 200);
            assert_eq!(record.response.body, b"hi".to_vec());
            assert!(has_header(&record.response.headers, "x-origin", b"yes"));
        }

        proxy.stop();
        assert_eq!(serving.await.unwrap(), Ok(()));
        assert_eq!(proxy.state(), ProxyState::Stopped);
    });
}

#[test]
fn responses_are_journalled_in_the_order_they_complete() {
    within_ten_seconds(async {
        let net = Net::default();
        origin(&net, "origin.local:80", Arc::new(Mutex::new(Vec::new())));
        let (proxy, _serving) = start(&net, Identity::certificate_authority().unwrap());
        until_bound(&net, PROXY).await;

        for uri in ["http://origin.local/a", "http://origin.local/b", "http://origin.local/c"] {
            assert_eq!(get_through(&net, uri).await.0, 200);
        }
        let records = proxy.logs.lock().unwrap().snapshot();
        let uris: Vec<String> = records.iter().map(|r| r.request.uri.clone()).collect();
        assert_eq!(
            uris,
            vec![
                "http://origin.local/a".to_string(),
                "http://origin.local/b".to_string(),
                "http://origin.local/c".to_string(),
            ]
        );
        proxy.stop();
    });
}

#[test]
fn unreachable_origin_is_answered_with_503() {
    within_ten_seconds(async {
        let net = Net::default();
        let (proxy, _serving) = start(&net, Identity::certificate_authority().unwrap());
        until_bound(&net, PROXY).await;

        let (status, _, body) = get_through(&net, "http://10.255.255.1:1/").await;
        assert_eq!(status, 503);
        assert!(body.is_empty());
        assert!(proxy.is_serving());
        {
            let logs = proxy.logs.lock().unwrap();
            assert_eq!(logs.len(), 1);
            assert_eq!(logs.get(0).unwrap().response.status, 503);
        }

        origin(&net, "origin.local:80", Arc::new(Mutex::new(Vec::new())));
        assert_eq!(get_through(&net, "http://origin.local/after").await.0, 200);
        proxy.stop();
    });
}

#[test]
fn malformed_connect_is_answered_with_400() {
    within_ten_seconds(async {
        let net = Net::default();
        let (proxy, _serving) = start(&net, Identity::certificate_authority().unwrap());
        until_bound(&net, PROXY).await;

        let (head, _stream) = connect_through(&net, "http://origin.local/").await;
        assert!(head.starts_with("HTTP/1.1 400"), "answered: {}", head);
        assert!(proxy.is_serving());

        origin(&net, "origin.local:80", Arc::new(Mutex::new(Vec::new())));
        assert_eq!(get_through(&net, "http://origin.local/fine").await.0, 200);
        proxy.stop();
    });
}

#[test]
fn connect_is_intercepted_and_requests_in_the_tunnel_reach_the_origin() {
    within_ten_seconds(async {
        let net = Net::default();
        let seen = Arc::new(Mutex::new(Vec::new()));
        origin(&net, "origin.local:443", seen.clone());
        let ca = Identity::certificate_authority().unwrap();
        let (proxy, _serving) = start(&net, ca.clone());
        until_bound(&net, PROXY).await;

        let (head, stream) = connect_through(&net, "origin.local:443").await;
        assert!(head.starts_with("HTTP/1.1 200"), "answered: {}", head);

        let stream = tls_over(stream, &ca).await;
        let leaf = stream.ssl().peer_certificate().expect("a certificate");
        let names: Vec<String> = leaf
            .subject_name()
            .entries_by_nid(Nid::COMMONNAME)
            .map(|entry| entry.data().as_utf8().unwrap().to_string())
            .collect();
        assert_eq!(names, vec!["origin.local:443".to_string()]);
        let alt_names: Vec<String> = leaf
            .subject_alt_names()
            .expect("alternative names")
            .iter()
            .map(|name| name.dnsname().unwrap().to_string())
            .collect();
        assert_eq!(alt_names, vec!["origin.local:443".to_string()]);
        assert!(leaf.verify(&ca.cert_ref().public_key().unwrap()).unwrap());

        let (mut sender, connection) =
            handshake::<SslStream<DuplexStream>, Full<Bytes>>(stream).await.unwrap();
        tokio::spawn(async move {
            let _ = connection.await;
        });
        let (status, headers, body) = get(&mut sender, "/x").await;
        assert_eq!(status, 200);
        assert_eq!(body, b"hi".to_vec());
        assert!(has_header(&headers, "x-origin", b"yes"));
        assert_eq!(*seen.lock().unwrap(), vec!["https://origin.local:443/x".to_string()]);

        {
            let logs = proxy.logs.lock().unwrap();
            assert_eq!(logs.len(), 1);
            assert_eq!(logs.get(0).unwrap().request.uri, "/x");
            assert_eq!(logs.get(0).unwrap().response.body, b"hi".to_vec());
        }
        proxy.stop();
    });
}

#[test]
fn stop_with_no_connection_releases_the_address() {
    within_ten_seconds(async {
        let net = Net::default();
        let (proxy, serving) = start(&net, Identity::certificate_authority().unwrap());
        until_bound(&net, PROXY).await;
        assert!(proxy.is_serving());
        assert_eq!(proxy.state(), ProxyState::Serving);

        proxy.stop();
        assert_eq!(serving.await.unwrap(), Ok(()));
        assert!(!proxy.is_serving());
        assert_eq!(proxy.state(), ProxyState::Stopped);
        assert!(!net.is_bound(PROXY));
        assert!(net.bind(PROXY).is_some());
        proxy.stop();
        assert_eq!(proxy.state(), ProxyState::Stopped);
    });
}

#[test]
fn serving_twice_binds_one_listener() {
    within_ten_seconds(async {
        let net = Net::default();
        let (proxy, serving) = start(&net, Identity::certificate_authority().unwrap());
        until_bound(&net, PROXY).await;

        assert_eq!(proxy.clone().serve().await, Ok(()));
        assert!(proxy.is_serving());
        assert!(net.is_bound(PROXY));

        proxy.stop();
        assert_eq!(serving.await.unwrap(), Ok(()));
        assert!(!net.is_bound(PROXY));
    });
}

#[test]
fn failed_bind_is_surfaced_and_rolled_back() {
    within_ten_seconds(async {
        let net = Net::default();
        let taken = net.bind(PROXY).expect("a free address");
        let proxy = Proxy::new(&net, Identity::certificate_authority().unwrap());
        assert_eq!(proxy.serve().await, Err(ProxyError::BindError));
        assert!(!proxy.is_serving());
        assert_eq!(proxy.state(), ProxyState::Error);

        drop(taken);
        let serving = tokio::spawn({
            let proxy = proxy.clone();
            async move { proxy.serve().await }
        });
        until_bound(&net, PROXY).await;
        assert_eq!(proxy.state(), ProxyState::Serving);
        proxy.stop();
        assert_eq!(serving.await.unwrap(), Ok(()));
    });
}

#[test]
fn stop_leaves_an_open_tunnel_working() {
    within_ten_seconds(async {
        let net = Net::default();
        let seen = Arc::new(Mutex::new(Vec::new()));
        origin(&net, "origin.local:443", seen.clone());
        let ca = Identity::certificate_authority().unwrap();
        let (proxy, serving) = start(&net, ca.clone());
        until_bound(&net, PROXY).await;

        let (head, stream) = connect_through(&net, "origin.local:443").await;
        assert!(head.starts_with("HTTP/1.1 200"), "answered: {}", head);
        let stream = tls_over(stream, &ca).await;
        let (mut sender, connection) =
            handshake::<SslStream<DuplexStream>, Full<Bytes>>(stream).await.unwrap();
        tokio::spawn(async move {
            let _ = connection.await;
        });
        assert_eq!(get(&mut sender, "/before").await.0, 200);

        proxy.stop();
        assert_eq!(serving.await.unwrap(), Ok(()));
        assert!(!proxy.is_serving());
        assert!(net.connect(PROXY).is_none());

        let (status, _, body) = get(&mut sender, "/after").await;
        assert_eq!(status, 200);
        assert_eq!(body, b"hi".to_vec());
        assert_eq!(proxy.logs.lock().unwrap().len(), 2);
    });
}

#[test]
fn bad_request_on_one_connection_leaves_another_alone() {
    within_ten_seconds(async {
        let net = Net::default();
        origin(&net, "origin.local:80", Arc::new(Mutex::new(Vec::new())));
        let (proxy, _serving) = start(&net, Identity::certificate_authority().unwrap());
        until_bound(&net, PROXY).await;

        let stream = net.connect(PROXY).expect("a listening proxy");
        let (mut good, connection) =
            handshake::<DuplexStream, Full<Bytes>>(stream).await.unwrap();
        tokio::spawn(async move {
            let _ = connection.await;
        });
        assert_eq!(get(&mut good, "http://origin.local/one").await.0, 200);

        let mut bad = net.connect(PROXY).expect("a listening proxy");
        bad.write_all(b"this is no request\r\n\r\n").await.unwrap();
        let (head, _stream) = connect_through(&net, "origin.local").await;
        assert!(head.starts_with("HTTP/1.1 400"), "answered: {}", head);

        let (status, _, body) = get(&mut good, "http://origin.local/two").await;
        assert_eq!(status, 200);
        assert_eq!(body, b"hi".to_vec());
        assert!(proxy.is_serving());
        proxy.stop();
    });
}
