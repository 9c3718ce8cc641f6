//! Addresses of a service for direct access and for access through the
//! campus proxy, which serves every host under a name of its own.

use vstd::prelude::*;
use vstd::string::*;
use crate::html::opt_text;
use crate::text::{replace_char, replaced};

verus! {

/// How the portal is reached.
#[derive(Debug, Clone, Copy, PartialEq, Eq, Structural)]
pub enum ConnectMode {
    /// Directly, from inside the campus network.
    Intranet,
    /// Through the proxy, from outside.
    Extranet,
}

/// Why a service target could not be made.
#[derive(Debug, Clone, Copy, PartialEq, Eq, Structural)]
pub enum TargetError {
    /// The text is no absolute URL.
    InvalidUrl,
}

/// What the rules read of a parsed URL.
#[derive(Debug)]
pub struct UrlParts {
    /// The URL as it is serialised after parsing.
    pub text: String,
    /// Its scheme, in lower case.
    pub scheme: String,
    /// Its host, if it has one.
    pub host: Option<String>,
}

/// The mathematical value of [`UrlParts`].
pub struct UrlPartsView {
    pub text: Seq<char>,
    pub scheme: Seq<char>,
    pub host: Option<Seq<char>>,
}

impl View for UrlParts {
    type V = UrlPartsView;

    open spec fn view(&self) -> UrlPartsView {
        UrlPartsView { text: self.text@, scheme: self.scheme@, host: opt_text(self.host) }
    }
}

/// The value of optional parts.
pub open spec fn opt_parts_view(parts: Option<UrlParts>) -> Option<UrlPartsView> {
    match parts {
        Some(p) => Some(p@),
        None => None,
    }
}

/// The parts of the URL that `raw` parses to; `None` where it is no absolute
/// URL.
pub uninterp spec fn url_parts(raw: Seq<char>) -> Option<UrlPartsView>;

/// The URL `text` after its scheme was set to `scheme`, its host to `host`
/// and its port removed, each change left out where the URL does not take
/// it; `None` where `text` is no absolute URL.
pub uninterp spec fn rehosted_url(text: Seq<char>, scheme: Seq<char>, host: Seq<char>) -> Option<Seq<char>>;

/// Calls `url::Url::parse` and copies the scheme, the host and the
/// serialisation of the parsed URL. The result is a function of the text
/// alone, named by [`url_parts`]. Believed, not proved.
#[verifier::external_body]
pub(crate) fn parse_url_parts(raw: &str) -> (r: Option<UrlParts>)
    ensures
        opt_parts_view(r) == url_parts(raw@),
{
    match url::Url::parse(raw) {
        Ok(parsed) => Some(UrlParts {
            scheme: parsed.scheme().to_string(),
            host: parsed.host_str().map(|h| h.to_string()),
            text: String::from(parsed),
        }),
        Err(_) => None,
    }
}

/// Calls `url::Url::parse` and, on the parsed URL, `set_scheme`, `set_host`
/// and `set_port(None)`, each of which leaves the URL as it is where it
/// refuses the change. The result is a function of the three texts alone,
/// named by [`rehosted_url`]. Believed, not proved.
#[verifier::external_body]
pub(crate) fn rehost_url(text: &str, scheme: &str, host: &str) -> (r: Option<String>)
    ensures
        opt_text(r) == rehosted_url(text@, scheme@, host@),
{
    match url::Url::parse(text) {
        Ok(mut parsed) => {
            let _ = parsed.set_scheme(scheme);
            let _ = parsed.set_host(Some(host));
            let _ = parsed.set_port(None);
            Some(String::from(parsed))
        },
        Err(_) => None,
    }
}

/// The host, or the empty text where there is none.
pub open spec fn host_or_empty(host: Option<Seq<char>>) -> Seq<char> {
    match host {
        Some(h) => h,
        None => Seq::empty(),
    }
}

/// The name under which the proxy serves a host: the host with its dots
/// turned into hyphens, a mark for the scheme (`-s` for https, `-p` for any
/// other) and the proxy's domain.
pub open spec fn proxy_host_of(host: Seq<char>, scheme: Seq<char>) -> Seq<char> {
    replaced(host, '.', "-"@) + (if scheme == "https"@ {
        "-s"@
    } else {
        "-p"@
    }) + ".otrust.ouc.edu.cn"@
}

/// Builds the name under which the proxy serves a host.
pub fn proxy_host_name(host: &str, scheme: &str) -> (r: String)
    ensures
        r@ == proxy_host_of(host@, scheme@),
{
    let mut name = replace_char(host, '.', "-");
    if scheme.to_owned() == "https".to_owned() {
        name.append("-s");
    } else {
        name.append("-p");
    }
    name.append(".otrust.ouc.edu.cn");
    name
}

/// A service with its address for each way of reaching it.
#[derive(Debug, Clone)]
pub struct ServiceTarget {
    direct_url: String,
    direct_host: String,
    proxy_url: String,
    proxy_host: String,
}

/// The mathematical value of a [`ServiceTarget`].
pub struct ServiceTargetView {
    /// The address for direct access.
    pub direct_url: Seq<char>,
    /// The host of that address, empty where it has none.
    pub direct_host: Seq<char>,
    /// The address through the proxy.
    pub proxy_url: Seq<char>,
    /// The host of that address, empty where it has none.
    pub proxy_host: Seq<char>,
}

impl View for ServiceTarget {
    type V = ServiceTargetView;

    closed spec fn view(&self) -> ServiceTargetView {
        ServiceTargetView {
            direct_url: self.direct_url@,
            direct_host: self.direct_host@,
            proxy_url: self.proxy_url@,
            proxy_host: self.proxy_host@,
        }
    }
}

/// The host of the address `text`, empty where it has none or is no URL.
pub open spec fn host_of_url(text: Seq<char>) -> Seq<char> {
    match url_parts(text) {
        Some(parts) => host_or_empty(parts.host),
        None => Seq::empty(),
    }
}

/// The target that the address `raw` gives, where it gives one.
pub open spec fn target_of(raw: Seq<char>) -> Option<ServiceTargetView> {
    match url_parts(raw) {
        Some(parts) => {
            let host = host_or_empty(parts.host);
            match rehosted_url(parts.text, "https"@, proxy_host_of(host, parts.scheme)) {
                Some(proxied) => Some(
                    ServiceTargetView {
                        direct_url: parts.text,
                        direct_host: host,
                        proxy_url: proxied,
                        proxy_host: host_of_url(proxied),
                    },
                ),
                None => None,
            }
        },
        None => None,
    }
}

/// The address of a target for a way of reaching it.
pub open spec fn url_for(target: ServiceTargetView, mode: ConnectMode) -> Seq<char> {
    match mode {
        ConnectMode::Intranet => target.direct_url,
        ConnectMode::Extranet => target.proxy_url,
    }
}

/// The `Host` header of a target for a way of reaching it.
pub open spec fn host_for(target: ServiceTargetView, mode: ConnectMode) -> Seq<char> {
    match mode {
        ConnectMode::Intranet => target.direct_host,
        ConnectMode::Extranet => target.proxy_host,
    }
}

fn host_text(host: &Option<String>) -> (r: String)
    ensures
        r@ == host_or_empty(opt_text(*host)),
{
    match host {
        Some(h) => h.clone(),
        None => String::new(),
    }
}

impl ServiceTarget {
    /// Makes the target of an address. Fails where the address is no
    /// absolute URL.
    pub fn new(raw_url: &str) -> (r: Result<ServiceTarget, TargetError>)
        ensures
            match target_of(raw_url@) {
                Some(target) => r matches Ok(t) && t@ == target,
                None => r matches Err(e) && e == TargetError::InvalidUrl,
            },
    {
        let parts = match parse_url_parts(raw_url) {
            Some(parts) => parts,
            None => {
                return Err(TargetError::InvalidUrl);
            },
        };
        let direct_host = host_text(&parts.host);
        let proxy_name = proxy_host_name(direct_host.as_str(), parts.scheme.as_str());
        let proxy_url = match rehost_url(parts.text.as_str(), "https", proxy_name.as_str()) {
            Some(proxied) => proxied,
            None => {
                return Err(TargetError::InvalidUrl);
            },
        };
        let proxy_host = match parse_url_parts(proxy_url.as_str()) {
            Some(proxied) => host_text(&proxied.host),
            None => String::new(),
        };
        Ok(ServiceTarget { direct_url: parts.text, direct_host, proxy_url, proxy_host })
    }

    /// The address of the service for a way of reaching it.
    pub fn get_url(&self, mode: ConnectMode) -> (r: String)
        ensures
            r@ == url_for(self@, mode),
    {
        match mode {
            ConnectMode::Intranet => self.direct_url.clone(),
            ConnectMode::Extranet => self.to_otrust_url(),
        }
    }

    /// The `Host` header of the service for a way of reaching it.
    pub fn get_host_header(&self, mode: ConnectMode) -> (r: String)
        ensures
            r@ == host_for(self@, mode),
    {
        match mode {
            ConnectMode::Intranet => self.direct_host.clone(),
            ConnectMode::Extranet => self.proxy_host.clone(),
        }
    }

    /// The address of the service through the proxy.
    pub fn to_otrust_url(&self) -> (r: String)
        ensures
            r@ == self@.proxy_url,
    {
        self.proxy_url.clone()
    }
}

} // verus!
