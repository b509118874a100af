//! The computable parts of the gateway's logging and response
//! decoration: the verbosity-to-level rule, the request log line, and
//! the fixed security headers.

use vstd::prelude::*;

verus! {

/// How much the gateway logs.
#[derive(Clone, Copy, PartialEq, Eq, Structural, Debug)]
pub enum LogLevel {
    Info,
    Debug,
    Trace,
}

/// The level each verbosity count selects: the default is
/// informational, one step adds debugging, anything further traces.
pub fn level_for_verbosity(verbosity: u64) -> (r: LogLevel)
    ensures
        r == if verbosity == 0 {
            LogLevel::Info
        } else if verbosity == 1 {
            LogLevel::Debug
        } else {
            LogLevel::Trace
        },
{
    if verbosity == 0 {
        LogLevel::Info
    } else if verbosity == 1 {
        LogLevel::Debug
    } else {
        LogLevel::Trace
    }
}

/// Formats every request event for the log.
pub struct RocketLogger;

impl RocketLogger {
    /// The log line for one request: the remote address in brackets
    /// (a placeholder when none resolved), then method and target.
    pub fn request_line(remote: Option<&str>, method: &str, target: &str) -> (r: String)
        ensures
            r@ == match remote {
                Some(a) => "["@ + a@ + "] "@ + method@ + " "@ + target@,
                None => "[-.-.-.-] "@ + method@ + " "@ + target@,
            },
    {
        let mut line = String::new();
        match remote {
            Some(a) => {
                line.append("[");
                line.append(a);
                line.append("] ");
            },
            None => {
                line.append("[-.-.-.-] ");
            },
        }
        line.append(method);
        line.append(" ");
        line.append(target);
        proof {
            match remote {
                Some(a) => {
                    assert(line@ =~= "["@ + a@ + "] "@ + method@ + " "@ + target@);
                },
                None => {
                    assert(line@ =~= "[-.-.-.-] "@ + method@ + " "@ + target@);
                },
            }
        }
        line
    }
}

/// Stamps the fixed security headers onto every response.
pub struct ModifyResponseHeaders;

impl ModifyResponseHeaders {
    /// The name of the header the gateway sets.
    pub fn header_name() -> (r: &'static str)
        ensures
            r@ == "Content-Security-Policy"@,
    {
        "Content-Security-Policy"
    }

    /// The fixed content-security policy every response carries.
    pub fn header_value() -> (r: &'static str)
        ensures
            r@
                == "default-src 'none'; script-src 'self'; connect-src 'self'; img-src 'self'; style-src 'self';"@,
    {
        "default-src 'none'; script-src 'self'; connect-src 'self'; img-src 'self'; style-src 'self';"
    }
}

} // verus!
