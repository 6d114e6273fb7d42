use vstd::prelude::*;

verus! {

/// The text of one log message.
pub type Message = String;

/// What a `Logger` hands to the background batching process.
pub enum LogLevel {
    Info(Message),
    Error(Message),
    Panic(Message),
    Flush,
}

/// The decimal digit `d` (for `d < 10`).
pub open spec fn digit_char(d: nat) -> char {
    (48 + d) as char
}

/// The decimal digits of `n`, without leading zeros.
pub open spec fn decimal_digits(n: nat) -> Seq<char>
    decreases n,
{
    if n < 10 {
        seq![digit_char(n)]
    } else {
        decimal_digits(n / 10).push(digit_char(n % 10))
    }
}

/// The decimal rendering of an integer: a minus sign for negatives, then its
/// digits.
pub open spec fn decimal_text(n: int) -> Seq<char> {
    if n < 0 {
        seq!['-'] + decimal_digits((-n) as nat)
    } else {
        decimal_digits(n as nat)
    }
}

/// Calls `<i64 as ToString>::to_string`, which std documents as the decimal
/// rendering of the number (a leading `-` for negatives, no leading zeros).
#[verifier::external_body]
fn decimal_string(n: i64) -> (text: String)
    ensures
        text@ == decimal_text(n as int),
{
    n.to_string()
}

/// The colored console line for a message received at `timestamp`, if any.
pub open spec fn debug_text(level: LogLevel, timestamp: i64) -> Option<Seq<char>> {
    let stamp = "\x1b[90m["@ + decimal_text(timestamp as int) + "]\x1b[0m "@;
    match level {
        LogLevel::Info(e) => Some(stamp + "\x1b[33mINFO:\x1b[0m "@ + e@),
        LogLevel::Error(e) => Some(stamp + "\x1b[31mERROR:\x1b[0m "@ + e@),
        LogLevel::Panic(e) => Some(stamp + "\x1b[31mPANIC:\x1b[0m "@ + e@),
        LogLevel::Flush => None,
    }
}

impl LogLevel {
    /// The colored line printed to the console for this message when debug
    /// output is on; a flush request prints nothing.
    pub fn debug(&self, timestamp: i64) -> (line: Option<String>)
        ensures
            match line {
                Some(l) => debug_text(*self, timestamp) == Some(l@),
                None => debug_text(*self, timestamp) is None,
            },
    {
        let (label, e): (&str, &String) = match self {
            LogLevel::Info(e) => ("\x1b[33mINFO:\x1b[0m ", e),
            LogLevel::Error(e) => ("\x1b[31mERROR:\x1b[0m ", e),
            LogLevel::Panic(e) => ("\x1b[31mPANIC:\x1b[0m ", e),
            LogLevel::Flush => {
                return None;
            },
        };
        let line = String::from_str("\x1b[90m[")
            .concat(decimal_string(timestamp).as_str())
            .concat("]\x1b[0m ")
            .concat(label)
            .concat(e.as_str());
        Some(line)
    }
}

} // verus!
