//! Log events emitted by the composed future, and their rendering as
//! human-readable log lines.
//!
//! An event carries the request's method token and path, captured when the
//! request was dispatched; a completion event also carries the elapsed time
//! in milliseconds. Rendering is verified down to the exact character
//! sequence of the line, including the decimal representation of the
//! elapsed time.

use vstd::prelude::*;

verus! {

/// One structured log event produced while a request is driven to
/// completion: `Start` the first time its future is polled, `Complete` when
/// the inner computation reaches a terminal state.
pub enum LogEvent {
    Start { method: String, path: String },
    Complete { method: String, path: String, elapsed_ms: u64 },
}

impl LogEvent {
    /// The method token the event is attributed to.
    pub open spec fn method_of(self) -> Seq<char> {
        match self {
            LogEvent::Start { method, .. } => method@,
            LogEvent::Complete { method, .. } => method@,
        }
    }

    /// The request path the event is attributed to.
    pub open spec fn path_of(self) -> Seq<char> {
        match self {
            LogEvent::Start { path, .. } => path@,
            LogEvent::Complete { path, .. } => path@,
        }
    }
}

/// The character standing for one decimal digit.
pub open spec fn dec_digit(d: nat) -> char {
    if d == 0 {
        '0'
    } else if d == 1 {
        '1'
    } else if d == 2 {
        '2'
    } else if d == 3 {
        '3'
    } else if d == 4 {
        '4'
    } else if d == 5 {
        '5'
    } else if d == 6 {
        '6'
    } else if d == 7 {
        '7'
    } else if d == 8 {
        '8'
    } else {
        '9'
    }
}

/// The usual decimal representation of a number: most significant digit
/// first, no leading zeros (a lone zero for zero itself).
pub open spec fn dec_rep(n: nat) -> Seq<char>
    decreases n,
{
    if n < 10 {
        seq![dec_digit(n)]
    } else {
        dec_rep(n / 10).push(dec_digit(n % 10))
    }
}

fn digit_str(d: u64) -> (r: &'static str)
    requires
        d < 10,
    ensures
        r@ =~= seq![dec_digit(d as nat)],
{
    proof {
        reveal_strlit("0");
        reveal_strlit("1");
        reveal_strlit("2");
        reveal_strlit("3");
        reveal_strlit("4");
        reveal_strlit("5");
        reveal_strlit("6");
        reveal_strlit("7");
        reveal_strlit("8");
        reveal_strlit("9");
    }
    if d == 0 {
        "0"
    } else if d == 1 {
        "1"
    } else if d == 2 {
        "2"
    } else if d == 3 {
        "3"
    } else if d == 4 {
        "4"
    } else if d == 5 {
        "5"
    } else if d == 6 {
        "6"
    } else if d == 7 {
        "7"
    } else if d == 8 {
        "8"
    } else {
        "9"
    }
}

/// Renders a number in decimal, exactly as `dec_rep` describes it.
pub fn format_u64(n: u64) -> (r: String)
    ensures
        r@ == dec_rep(n as nat),
    decreases n,
{
    if n < 10 {
        String::from_str(digit_str(n))
    } else {
        let mut s = format_u64(n / 10);
        s.append(digit_str(n % 10));
        proof {
            assert(s@ =~= dec_rep((n / 10) as nat).push(dec_digit((n % 10) as nat)));
        }
        s
    }
}

/// The line announcing that a request has started being processed.
pub open spec fn start_line(method: Seq<char>, path: Seq<char>) -> Seq<char> {
    "start processing request "@ + method + " "@ + path
}

/// The line announcing that a request reached a terminal state, with the
/// elapsed time since its future was created.
pub open spec fn complete_line(method: Seq<char>, path: Seq<char>, elapsed_ms: u64) -> Seq<char> {
    "complete processing request "@ + method + " "@ + path + " in "@ + dec_rep(
        elapsed_ms as nat,
    ) + "ms"@
}

/// What a given event looks like as a log line.
pub open spec fn line_of(e: LogEvent) -> Seq<char> {
    match e {
        LogEvent::Start { method, path } => start_line(method@, path@),
        LogEvent::Complete { method, path, elapsed_ms } => complete_line(
            method@,
            path@,
            elapsed_ms,
        ),
    }
}

impl LogEvent {
    /// Renders the event as the log line that `line_of` describes.
    pub fn render(&self) -> (r: String)
        ensures
            r@ == line_of(*self),
    {
        match self {
            LogEvent::Start { method, path } => {
                let mut s = String::from_str("start processing request ");
                s.append(method.as_str());
                s.append(" ");
                s.append(path.as_str());
                s
            },
            LogEvent::Complete { method, path, elapsed_ms } => {
                let mut s = String::from_str("complete processing request ");
                s.append(method.as_str());
                s.append(" ");
                s.append(path.as_str());
                s.append(" in ");
                let digits = format_u64(*elapsed_ms);
                s.append(digits.as_str());
                s.append("ms");
                s
            },
        }
    }
}

} // verus!
