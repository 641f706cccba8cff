//! Bearer-token gate decision: whether a request's Authorization header
//! matches the expected token. The HTTP plumbing around it lives outside the
//! library; the decision itself is pure.

use vstd::prelude::*;
use crate::codec::str_eq;
use crate::models::CustomError;

verus! {

/// Witness that a request carried the expected bearer token.
#[derive(Debug)]
pub struct Authorized;

/// Decides whether a request's Authorization header matches the expected
/// token. A matching header authorizes; two well-known bogus header values
/// get a message of their own; any other value, and a missing header, is
/// refused.
pub fn authorize(header: Option<&str>, expected: &str) -> (r: Result<Authorized, CustomError>)
    ensures
        match r {
            Ok(_) => header matches Some(h) && h@ == expected@,
            Err(e) => {
                &&& (match header {
                    Some(h) => h@ != expected@,
                    None => true,
                })
                &&& (match header {
                    Some(h) => if h@ == "not what you think it is"@ || h@
                        == "what you think it is"@ {
                        e.message@ == "nice try"@
                    } else {
                        e.message@ == "who are you"@
                    },
                    None => e.message@ == "who are you"@,
                })
            },
        },
{
    match header {
        Some(h) => {
            if str_eq(h, expected) {
                Ok(Authorized)
            } else if str_eq(h, "not what you think it is") || str_eq(h, "what you think it is") {
                Err(CustomError { message: "nice try".to_owned() })
            } else {
                Err(CustomError { message: "who are you".to_owned() })
            }
        },
        None => Err(CustomError { message: "who are you".to_owned() }),
    }
}

} // verus!
