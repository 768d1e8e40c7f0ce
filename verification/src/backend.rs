//! Interpreting the answers of remote collaborator services.
//!
//! The HTTP exchanges themselves happen outside the core; what is verified
//! here is the decision each client makes over the plain outcome — status
//! code and body — it got back.

use vstd::prelude::*;

use crate::error::Error;
use crate::quest::str_eq;

verus! {

/// One HTTP exchange, as plain values: no response at all, or a status code
/// with the body (`None` when the body could not be read).
pub enum HttpOutcome {
    NoResponse,
    Response { status: u16, body: Option<String> },
}

/// Parses the text form of a boolean.
pub fn parse_bool_text(s: &str) -> (r: Option<bool>)
    ensures
        r == Some(true) <==> s@ == "true"@,
        r == Some(false) <==> s@ == "false"@,
        r is None <==> s@ != "true"@ && s@ != "false"@,
{
    broadcast use vstd::string::group_string_axioms;

    proof {
        reveal_strlit("true");
        reveal_strlit("false");
        assert("true"@.len() == 4);
        assert("false"@.len() == 5);
        assert("true"@ != "false"@);
    }
    if str_eq(s, "true") {
        Some(true)
    } else if str_eq(s, "false") {
        Some(false)
    } else {
        None
    }
}

/// How a remote text resource is read: 200 carries the text, 404 is
/// absence, no response means the server is unreachable, and anything else —
/// an unreadable body included — is an invalid response.
pub fn interpret_text_response(outcome: HttpOutcome) -> (r: Result<Option<String>, Error>)
    ensures
        (match outcome {
            HttpOutcome::NoResponse => r matches Err(e) && e is ServerUnreachable,
            HttpOutcome::Response { status, body } => if status == 200 {
                match body {
                    Some(t) => r matches Ok(o) && o matches Some(s) && s@ == t@,
                    None => r matches Err(e) && e is InvalidResponse,
                }
            } else if status == 404 {
                r matches Ok(o) && o is None
            } else {
                r matches Err(e) && e is InvalidResponse
            },
        }),
{
    match outcome {
        HttpOutcome::NoResponse => Err(Error::ServerUnreachable),
        HttpOutcome::Response { status, body } => {
            if status == 200 {
                match body {
                    Some(t) => Ok(Some(t)),
                    None => Err(Error::InvalidResponse),
                }
            } else if status == 404 {
                Ok(None)
            } else {
                Err(Error::InvalidResponse)
            }
        },
    }
}

/// How a remote verification verdict is read: 200 must carry `true` or
/// `false`, 404 is absence, no response means the server is unreachable, and
/// anything else is an invalid response.
pub fn interpret_bool_response(outcome: HttpOutcome) -> (r: Result<Option<bool>, Error>)
    ensures
        (match outcome {
            HttpOutcome::NoResponse => r matches Err(e) && e is ServerUnreachable,
            HttpOutcome::Response { status, body } => if status == 200 {
                match body {
                    Some(t) => if t@ == "true"@ {
                        r matches Ok(o) && o == Some(true)
                    } else if t@ == "false"@ {
                        r matches Ok(o) && o == Some(false)
                    } else {
                        r matches Err(e) && e is InvalidResponse
                    },
                    None => r matches Err(e) && e is InvalidResponse,
                }
            } else if status == 404 {
                r matches Ok(o) && o is None
            } else {
                r matches Err(e) && e is InvalidResponse
            },
        }),
{
    match outcome {
        HttpOutcome::NoResponse => Err(Error::ServerUnreachable),
        HttpOutcome::Response { status, body } => {
            if status == 200 {
                let t = match body {
                    Some(t) => t,
                    None => {
                        return Err(Error::InvalidResponse);
                    },
                };
                match parse_bool_text(t.as_str()) {
                    Some(b) => Ok(Some(b)),
                    None => Err(Error::InvalidResponse),
                }
            } else if status == 404 {
                Ok(None)
            } else {
                Err(Error::InvalidResponse)
            }
        },
    }
}

/// How a remote yes/no answer is read: 200 must carry `true` or `false`;
/// everything else is an invalid response or an unreachable server.
pub fn interpret_flag_response(outcome: HttpOutcome) -> (r: Result<bool, Error>)
    ensures
        (match outcome {
            HttpOutcome::NoResponse => r matches Err(e) && e is ServerUnreachable,
            HttpOutcome::Response { status, body } => if status == 200 {
                match body {
                    Some(t) => if t@ == "true"@ {
                        r matches Ok(b) && b
                    } else if t@ == "false"@ {
                        r matches Ok(b) && !b
                    } else {
                        r matches Err(e) && e is InvalidResponse
                    },
                    None => r matches Err(e) && e is InvalidResponse,
                }
            } else {
                r matches Err(e) && e is InvalidResponse
            },
        }),
{
    match outcome {
        HttpOutcome::NoResponse => Err(Error::ServerUnreachable),
        HttpOutcome::Response { status, body } => {
            if status == 200 {
                let t = match body {
                    Some(t) => t,
                    None => {
                        return Err(Error::InvalidResponse);
                    },
                };
                match parse_bool_text(t.as_str()) {
                    Some(b) => Ok(b),
                    None => Err(Error::InvalidResponse),
                }
            } else {
                Err(Error::InvalidResponse)
            }
        },
    }
}

/// How a remote registration is read: 201 created, 409 conflict (username
/// taken), anything else invalid; no response means unreachable.
pub fn interpret_signup_response(outcome: HttpOutcome) -> (r: Result<bool, Error>)
    ensures
        (match outcome {
            HttpOutcome::NoResponse => r matches Err(e) && e is ServerUnreachable,
            HttpOutcome::Response { status, body } => if status == 201 {
                r matches Ok(b) && b
            } else if status == 409 {
                r matches Ok(b) && !b
            } else {
                r matches Err(e) && e is InvalidResponse
            },
        }),
{
    match outcome {
        HttpOutcome::NoResponse => Err(Error::ServerUnreachable),
        HttpOutcome::Response { status, .. } => {
            if status == 201 {
                Ok(true)
            } else if status == 409 {
                Ok(false)
            } else {
                Err(Error::InvalidResponse)
            }
        },
    }
}

/// How a remote existence check is read: 200 exists, 404 does not, anything
/// else invalid; no response means unreachable.
pub fn interpret_exists_response(outcome: HttpOutcome) -> (r: Result<bool, Error>)
    ensures
        (match outcome {
            HttpOutcome::NoResponse => r matches Err(e) && e is ServerUnreachable,
            HttpOutcome::Response { status, body } => if status == 200 {
                r matches Ok(b) && b
            } else if status == 404 {
                r matches Ok(b) && !b
            } else {
                r matches Err(e) && e is InvalidResponse
            },
        }),
{
    match outcome {
        HttpOutcome::NoResponse => Err(Error::ServerUnreachable),
        HttpOutcome::Response { status, .. } => {
            if status == 200 {
                Ok(true)
            } else if status == 404 {
                Ok(false)
            } else {
                Err(Error::InvalidResponse)
            }
        },
    }
}

} // verus!
