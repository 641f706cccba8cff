//! Connection settings validation. The surrounding process sources four
//! values (host, port, username, password); their absence, or a port that is
//! not a valid decimal number in the 16-bit range above zero, is a fatal
//! configuration error.

use vstd::prelude::*;
use crate::codec::{all_digits, check_digits, dec_value, dec_value_capped};
use crate::errors::ClientError;

verus! {

/// The validated connection settings of one handshake.
pub struct ConnectionSettings {
    pub host: String,
    pub port: u16,
    pub username: String,
    pub password: String,
}

/// Whether a string is a well-formed port numeral: all digits, valued
/// between 1 and 65535.
pub open spec fn is_valid_port(s: Seq<char>) -> bool {
    &&& s.len() > 0
    &&& all_digits(s)
    &&& 1 <= dec_value(s) <= 65535
}

/// Parses a port setting: the port's value exactly when the text is a
/// decimal numeral between 1 and 65535, a configuration error otherwise.
pub fn parse_port(s: &str) -> (r: Result<u16, ClientError>)
    ensures
        match r {
            Ok(p) => is_valid_port(s@) && p == dec_value(s@),
            Err(e) => !is_valid_port(s@) && e == ClientError::Configuration,
        },
{
    let len = s.unicode_len();
    if len == 0 {
        return Err(ClientError::Configuration);
    }
    proof {
        assert(s@.subrange(0, len as int) =~= s@);
    }
    if !check_digits(s, 0, len) {
        return Err(ClientError::Configuration);
    }
    let v = dec_value_capped(s, 0, len);
    if v >= 1 && v <= 65535 {
        Ok(v as u16)
    } else {
        Err(ClientError::Configuration)
    }
}

/// Validates the four connection settings: every one must be present and the
/// port must be a well-formed numeral; the validated settings carry the
/// inputs through unchanged.
pub fn validate_settings(
    host: Option<String>,
    port: Option<String>,
    username: Option<String>,
    password: Option<String>,
) -> (r: Result<ConnectionSettings, ClientError>)
    ensures
        match r {
            Ok(settings) => {
                &&& host matches Some(h) && settings.host@ == h@
                &&& port matches Some(p) && is_valid_port(p@) && settings.port == dec_value(p@)
                &&& username matches Some(u) && settings.username@ == u@
                &&& password matches Some(w) && settings.password@ == w@
            },
            Err(e) => {
                &&& e == ClientError::Configuration
                &&& (host is None || port is None || username is None || password is None || (
                port matches Some(p) && !is_valid_port(p@)))
            },
        },
{
    let host = match host {
        Some(h) => h,
        None => {
            return Err(ClientError::Configuration);
        },
    };
    let port_text = match port {
        Some(p) => p,
        None => {
            return Err(ClientError::Configuration);
        },
    };
    let username = match username {
        Some(u) => u,
        None => {
            return Err(ClientError::Configuration);
        },
    };
    let password = match password {
        Some(w) => w,
        None => {
            return Err(ClientError::Configuration);
        },
    };
    let port = match parse_port(port_text.as_str()) {
        Ok(p) => p,
        Err(e) => {
            return Err(e);
        },
    };
    Ok(ConnectionSettings { host, port, username, password })
}

} // verus!
