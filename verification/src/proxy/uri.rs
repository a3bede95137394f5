//! Request targets, taken apart.
//!
//! Parsing is the `http` crate's. The engine reads the parts: whether a
//! scheme, a host, a port and a path are there.

use vstd::prelude::*;
use http::Uri;

verus! {

/// The parts of a request target.
#[derive(Debug, PartialEq, Eq)]
pub struct Target {
    /// The scheme, such as `http`, where the target has one.
    pub scheme: Option<String>,
    /// The host, where the target has an authority.
    pub host: Option<String>,
    /// The port, where the authority names one.
    pub port: Option<u16>,
    /// Path and query, where the target has them.
    pub path_and_query: Option<String>,
}

/// The parts of a request target, as mathematical values.
pub struct TargetView {
    /// The scheme.
    pub scheme: Option<Seq<char>>,
    /// The host.
    pub host: Option<Seq<char>>,
    /// The port.
    pub port: Option<u16>,
    /// Path and query.
    pub path_and_query: Option<Seq<char>>,
}

/// The characters of a string that may be absent.
pub open spec fn text_of(text: Option<String>) -> Option<Seq<char>> {
    match text {
        Some(s) => Some(s@),
        None => None,
    }
}

impl View for Target {
    type V = TargetView;

    open spec fn view(&self) -> TargetView {
        TargetView {
            scheme: text_of(self.scheme),
            host: text_of(self.host),
            port: self.port,
            path_and_query: text_of(self.path_and_query),
        }
    }
}

impl TargetView {
    /// Authority form: a host and a port, and neither scheme nor path. The
    /// one shape of target that `CONNECT` may carry.
    pub open spec fn is_authority_form(self) -> bool {
        &&& self.scheme is None
        &&& self.host is Some
        &&& self.port is Some
        &&& self.path_and_query is None
    }
}

/// What `http::Uri` makes of a text: its parts, or `None` where the text is
/// no URI.
pub uninterp spec fn parsed_target(text: Seq<char>) -> Option<TargetView>;

/// Whether a text begins with `https://`.
pub open spec fn has_https_prefix(text: Seq<char>) -> bool {
    text.len() >= 8 && text.subrange(0, 8) == "https://"@
}

/// `<http::Uri as FromStr>::from_str`, and the accessors `scheme_str`,
/// `host`, `port_u16` and `path_and_query` on what it returns. The parse
/// depends on the text alone; its result is named [`parsed_target`]. One
/// fact is claimed of it: a text that begins with `https://` is a URI only
/// with an authority after that, and then has the scheme `https` and a
/// host.
#[verifier::external_body]
fn parse_uri(text: &str) -> (target: Option<Target>)
    ensures
        target is Some <==> parsed_target(text@) is Some,
        target matches Some(t) ==> parsed_target(text@) == Some(t@),
        target matches Some(t) ==> has_https_prefix(text@) ==> t@.scheme == Some("https"@)
            && t@.host is Some,
{
    match text.parse::<Uri>() {
        Ok(uri) => Some(
            Target {
                scheme: uri.scheme_str().map(|s| s.to_owned()),
                host: uri.host().map(|s| s.to_owned()),
                port: uri.port_u16(),
                path_and_query: uri.path_and_query().map(|p| p.as_str().to_owned()),
            },
        ),
        Err(_) => None,
    }
}

fn clone_text(text: &Option<String>) -> (copy: Option<String>)
    ensures
        copy == *text,
{
    match text {
        Some(s) => Some(s.clone()),
        None => None,
    }
}

impl Clone for Target {
    fn clone(&self) -> (copy: Self)
        ensures
            copy == *self,
    {
        Target {
            scheme: clone_text(&self.scheme),
            host: clone_text(&self.host),
            port: self.port,
            path_and_query: clone_text(&self.path_and_query),
        }
    }
}

impl Target {
    /// Takes a request target apart. `None` where the text is no URI.
    pub fn parse(text: &str) -> (target: Option<Self>)
        ensures
            target is Some <==> parsed_target(text@) is Some,
            target matches Some(t) ==> parsed_target(text@) == Some(t@),
            target matches Some(t) ==> has_https_prefix(text@) ==> t@.scheme == Some("https"@)
                && t@.host is Some,
    {
        parse_uri(text)
    }
}

/// Whether a `CONNECT` target is well formed: authority form, that is a
/// host and a port with neither scheme nor path.
pub fn is_valid_https_upgrade_uri(uri: &Target) -> (valid: bool)
    ensures
        valid == uri@.is_authority_form(),
{
    uri.scheme.is_none() && uri.port.is_some() && uri.host.is_some()
        && uri.path_and_query.is_none()
}

} // verus!
