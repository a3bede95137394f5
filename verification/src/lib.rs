//! Core of an intercepting HTTPS proxy: every decision the proxy takes, as
//! functions over plain values whose contracts are proved.
//!
//! The library opens no socket and awaits nothing. An embedding program owns
//! the listener, the connections and the event loop; it reports what happened
//! and carries out what the library answers.

pub mod proxy;
