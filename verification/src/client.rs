//! The settings of the session transport.

use vstd::prelude::*;
use vstd::utf8::encode_utf8;
use crate::constants::{REDIRECT_LIMIT, USER_AGENT};

verus! {

/// Why a transport could not be configured.
#[derive(Debug, Clone, Copy, PartialEq, Eq, Structural)]
pub enum ConfigError {
    /// A header value holds a byte that no header may carry.
    InvalidHeaderValue,
}

/// What a session transport is built from. The transport itself keeps one
/// cookie store for all exchanges made with it.
#[derive(Debug, Clone)]
pub struct ClientConfig {
    /// Sent as `User-Agent` with every request.
    pub user_agent: String,
    /// Sent as `Referer` with every request.
    pub referer: String,
    /// The largest number of redirects followed for one request.
    pub redirect_limit: usize,
}

/// A byte that a header value may carry: visible ASCII, a space or a tab.
pub open spec fn is_header_byte(b: u8) -> bool {
    32 <= b < 127 || b == 9
}

/// Every byte of the text may stand in a header value.
pub open spec fn is_header_text(s: Seq<char>) -> bool {
    forall|i: int| 0 <= i < encode_utf8(s).len() ==> is_header_byte(#[trigger] encode_utf8(s)[i])
}

/// Tells whether a text may be sent as a header value.
pub fn is_valid_header_value(value: &str) -> (r: bool)
    ensures
        r == is_header_text(value@),
{
    let bytes = value.as_bytes();
    let mut i: usize = 0;
    while i < bytes.len()
        invariant
            i <= bytes@.len(),
            bytes@ == encode_utf8(value@),
            forall|k: int| 0 <= k < i ==> is_header_byte(#[trigger] bytes@[k]),
        decreases bytes@.len() - i,
    {
        let b: u8 = bytes[i];
        if !((32 <= b && b < 127) || b == 9) {
            return false;
        }
        i += 1;
    }
    true
}

/// Settles the transport's configuration for a referer: the fixed user agent,
/// the referer as given and the redirect limit. Fails exactly where the
/// referer cannot be a header value.
pub fn create_client(url: &str) -> (r: Result<ClientConfig, ConfigError>)
    ensures
        is_header_text(url@) ==> (r matches Ok(config) && config.user_agent@ == USER_AGENT@ && config.referer@
            == url@ && config.redirect_limit == REDIRECT_LIMIT),
        !is_header_text(url@) ==> r == Err::<ClientConfig, ConfigError>(ConfigError::InvalidHeaderValue),
{
    if !is_valid_header_value(url) {
        return Err(ConfigError::InvalidHeaderValue);
    }
    Ok(ClientConfig { user_agent: USER_AGENT.to_owned(), referer: url.to_owned(), redirect_limit: REDIRECT_LIMIT })
}

} // verus!
