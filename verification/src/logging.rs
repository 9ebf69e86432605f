//! Request logging: the line written for every answered request.

use std::rc::Rc;
use vstd::prelude::*;
use vstd::string::*;

verus! {

/// The middleware that logs each request once it has been answered.
pub struct LoggingMiddleware;

/// The service produced by [`LoggingMiddleware`] around an inner service.
pub struct LoggingMiddlewareMiddleware<S> {
    pub service: Rc<S>,
}

impl<S> LoggingMiddlewareMiddleware<S> {
    /// Wraps `service`.
    pub fn new(service: S) -> (m: Self)
        ensures
            *m.service == service,
    {
        LoggingMiddlewareMiddleware { service: Rc::new(service) }
    }
}

/// The decimal digits of `n`, most significant first.
pub open spec fn decimal(n: nat) -> Seq<char>
    decreases n,
{
    if n < 10 {
        seq![((48 + n) as u8) as char]
    } else {
        decimal(n / 10) + seq![((48 + n % 10) as u8) as char]
    }
}

fn digit_str(d: u128) -> (s: &'static str)
    requires
        d < 10,
    ensures
        s@ == seq![((48 + d) as u8) as char],
{
    let digits = "0123456789";
    proof {
        reveal_strlit("0123456789");
    }
    let s = digits.substring_char(d as usize, d as usize + 1);
    assert(digits@ == seq!['0', '1', '2', '3', '4', '5', '6', '7', '8', '9']);
    assert(s@ =~= seq![((48 + d) as u8) as char]);
    s
}

/// The decimal digits of `n`, most significant first.
fn decimal_text(n: u128) -> (text: String)
    ensures
        text@ == decimal(n as nat),
    decreases n,
{
    if n < 10 {
        String::from_str(digit_str(n))
    } else {
        let mut text = decimal_text(n / 10);
        text.append(digit_str(n % 10));
        text
    }
}

/// The remote address shown in the log: the client's address, or `unknown`.
pub fn peer_or_unknown(peer: Option<&str>) -> (p: String)
    ensures
        peer matches Some(a) ==> p@ == a@,
        peer is None ==> p@ == "unknown"@,
{
    match peer {
        Some(a) => String::from_str(a),
        None => String::from_str("unknown"),
    }
}

/// The log line `[LOG] {method} {path} from {peer} => {status} ({ms} ms)`.
pub fn log_line(method: &str, path: &str, peer: &str, status: u16, duration_ms: u128) -> (line: String)
    ensures
        line@ == "[LOG] "@ + method@ + " "@ + path@ + " from "@ + peer@ + " => "@ + decimal(
            status as nat,
        ) + " ("@ + decimal(duration_ms as nat) + " ms)"@,
{
    let mut line = String::from_str("[LOG] ");
    line.append(method);
    line.append(" ");
    line.append(path);
    line.append(" from ");
    line.append(peer);
    line.append(" => ");
    let s = decimal_text(status as u128);
    line.append(s.as_str());
    line.append(" (");
    let d = decimal_text(duration_ms);
    line.append(d.as_str());
    line.append(" ms)");
    line
}

} // verus!
