//! The start-up configuration and its validation.

use vstd::prelude::*;
use vstd::string::*;

verus! {

/// The port that is listened on where none is given.
pub const DEFAULT_LISTEN_PORT: &'static str = "8080";

/// The log level where none is given.
pub const DEFAULT_LOG_LEVEL: &'static str = "info";

/// How much is logged.
#[derive(Clone, Copy, Debug, PartialEq, Eq, Structural)]
pub enum LogLevel {
    Error,
    Warn,
    Info,
    Debug,
    Trace,
}

/// The address that the scrape endpoint listens on.
#[derive(Clone, Copy, Debug, PartialEq, Eq, Structural)]
pub enum ListenAddr {
    /// An IPv4 address by its four octets.
    V4(u8, u8, u8, u8),
    /// An IPv6 address by its eight segments.
    V6(u16, u16, u16, u16, u16, u16, u16, u16),
}

/// What was given for the listen address.
#[derive(Clone, Copy, Debug, PartialEq, Eq, Structural)]
pub enum AddrArg {
    /// Nothing: the default is taken.
    Absent,
    /// A text that is no IPv4 or IPv6 address.
    Malformed,
    /// This address.
    Parsed(ListenAddr),
}

/// Why a configuration is refused.
#[derive(Clone, Copy, Debug, PartialEq, Eq, Structural)]
pub enum OptionsError {
    InvalidListenAddr,
    InvalidListenPort,
    InvalidLogLevel,
    MissingToken,
    MissingSymbol,
}

/// The validated configuration, fixed for the life of the process.
#[derive(Debug)]
pub struct Options {
    pub listen_addr: ListenAddr,
    pub listen_port: u16,
    pub log_level: LogLevel,
    pub token: String,
    pub symbols: Vec<String>,
}

/// A decimal digit.
pub open spec fn is_digit(c: char) -> bool {
    0x30 <= c as int <= 0x39
}

/// Every character is a decimal digit.
pub open spec fn all_digits(s: Seq<char>) -> bool {
    forall|i: int| 0 <= i < s.len() ==> is_digit(#[trigger] s[i])
}

/// The number that a run of decimal digits spells.
pub open spec fn decimal_value(s: Seq<char>) -> nat
    decreases s.len(),
{
    if s.len() == 0 {
        0
    } else {
        decimal_value(s.drop_last()) * 10 + (s.last() as int - 0x30) as nat
    }
}

/// The text without one leading plus sign.
pub open spec fn unsigned_digits(text: Seq<char>) -> Seq<char> {
    if text.len() > 0 && text[0] == '+' {
        text.skip(1)
    } else {
        text
    }
}

/// The port that a text names: an optional plus sign, then one or more
/// decimal digits that spell a number from 1 to 65535.
pub open spec fn port_of(text: Seq<char>) -> Option<u16> {
    let digits = unsigned_digits(text);
    if digits.len() > 0 && all_digits(digits) && 1 <= decimal_value(digits) <= 65535 {
        Some(decimal_value(digits) as u16)
    } else {
        None
    }
}

/// A prefix of a run of digits spells no more than the whole run.
proof fn lemma_prefix_value(s: Seq<char>, k: int)
    requires
        0 <= k <= s.len(),
        all_digits(s),
    ensures
        decimal_value(s.take(k)) <= decimal_value(s),
    decreases s.len() - k,
{
    if k == s.len() {
        assert(s.take(k) =~= s);
    } else {
        let front = s.drop_last();
        assert(all_digits(front)) by {
            assert forall|i: int| 0 <= i < front.len() implies is_digit(#[trigger] front[i]) by {
                assert(front[i] == s[i]);
            }
        }
        lemma_prefix_value(front, k);
        assert(front.take(k) =~= s.take(k));
        assert(is_digit(s[s.len() - 1]));
    }
}

/// Reads a port number.
pub fn parse_port(text: &str) -> (r: Option<u16>)
    ensures
        r == port_of(text@),
{
    if !text.is_ascii() {
        proof {
            let i = choose|i: int| 0 <= i < text@.len() && !('\0' <= #[trigger] text@[i] <= '\u{7f}');
            let digits = unsigned_digits(text@);
            if text@[0] == '+' {
                assert(i > 0);
                assert(digits[i - 1] == text@[i]);
                assert(!is_digit(digits[i - 1]));
            } else {
                assert(!is_digit(digits[i]));
            }
        }
        return None;
    }
    let n = text.unicode_len();
    let start: usize = if n > 0 && text.get_ascii(0) == 0x2b {
        1
    } else {
        0
    };
    let ghost digits = unsigned_digits(text@);
    assert(digits =~= text@.skip(start as int));
    if start == n {
        return None;
    }
    let mut value: u32 = 0;
    let mut i: usize = start;
    assert(digits.take(0) =~= Seq::<char>::empty());
    while i < n
        invariant
            text.is_ascii(),
            n == text@.len(),
            start <= i <= n,
            start < n,
            digits == unsigned_digits(text@),
            digits == text@.skip(start as int),
            all_digits(digits.take(i - start)),
            value == decimal_value(digits.take(i - start)),
            value <= 65535,
        decreases n - i,
    {
        let b = text.get_ascii(i);
        let ghost k = i - start;
        assert(digits[k] == text@[i as int]);
        if b < 0x30 || b > 0x39 {
            assert(0 <= k < digits.len() && !is_digit(digits[k]));
            return None;
        }
        let digit: u32 = (b - 0x30) as u32;
        proof {
            let next = digits.take(k + 1);
            assert(next.drop_last() =~= digits.take(k));
            assert(next.last() == digits[k]);
            assert(decimal_value(next) == decimal_value(next.drop_last()) * 10 + (next.last() as int
                - 0x30) as nat);
            assert(all_digits(next)) by {
                assert forall|j: int| 0 <= j < next.len() implies is_digit(#[trigger] next[j]) by {
                    if j < k {
                        assert(next[j] == digits.take(k)[j]);
                    }
                }
            }
        }
        value = value * 10 + digit;
        if value > 65535 {
            proof {
                if all_digits(digits) {
                    lemma_prefix_value(digits, k + 1);
                }
            }
            return None;
        }
        i += 1;
    }
    assert(digits.take(i - start) =~= digits);
    if value == 0 {
        None
    } else {
        Some(value as u16)
    }
}

/// A character with the upper-case ASCII letters folded onto the lower-case
/// ones.
pub open spec fn fold_case(c: char) -> int {
    if 0x41 <= c as int <= 0x5a {
        c as int + 0x20
    } else {
        c as int
    }
}

/// Two texts that differ at most in the case of ASCII letters.
pub open spec fn same_ignoring_case(a: Seq<char>, b: Seq<char>) -> bool {
    a.len() == b.len() && forall|i: int| 0 <= i < a.len() ==> fold_case(#[trigger] a[i]) == fold_case(b[i])
}

/// The log level that a text names, in any mix of upper and lower case.
pub open spec fn level_of(text: Seq<char>) -> Option<LogLevel> {
    if same_ignoring_case(text, "error"@) {
        Some(LogLevel::Error)
    } else if same_ignoring_case(text, "warn"@) {
        Some(LogLevel::Warn)
    } else if same_ignoring_case(text, "info"@) {
        Some(LogLevel::Info)
    } else if same_ignoring_case(text, "debug"@) {
        Some(LogLevel::Debug)
    } else if same_ignoring_case(text, "trace"@) {
        Some(LogLevel::Trace)
    } else {
        None
    }
}

/// `log::Level`'s `FromStr`: the level whose name the text is, compared
/// without regard to ASCII case; no level for any other text.
#[verifier::external_body]
fn parse_level(text: &str) -> (r: Option<LogLevel>)
    ensures
        r == level_of(text@),
{
    match text.parse::<log::Level>() {
        Ok(log::Level::Error) => Some(LogLevel::Error),
        Ok(log::Level::Warn) => Some(LogLevel::Warn),
        Ok(log::Level::Info) => Some(LogLevel::Info),
        Ok(log::Level::Debug) => Some(LogLevel::Debug),
        Ok(log::Level::Trace) => Some(LogLevel::Trace),
        Err(_) => None,
    }
}

impl LogLevel {
    /// The level's name in upper case.
    pub open spec fn name(self) -> Seq<char> {
        match self {
            LogLevel::Error => "ERROR"@,
            LogLevel::Warn => "WARN"@,
            LogLevel::Info => "INFO"@,
            LogLevel::Debug => "DEBUG"@,
            LogLevel::Trace => "TRACE"@,
        }
    }

    /// Reads a log level.
    pub fn parse(text: &str) -> (r: Option<LogLevel>)
        ensures
            r == level_of(text@),
    {
        parse_level(text)
    }

    /// The level's name in upper case.
    pub fn as_str(&self) -> (r: &'static str)
        ensures
            r@ == self.name(),
    {
        match self {
            LogLevel::Error => "ERROR",
            LogLevel::Warn => "WARN",
            LogLevel::Info => "INFO",
            LogLevel::Debug => "DEBUG",
            LogLevel::Trace => "TRACE",
        }
    }
}

impl ListenAddr {
    /// The IPv4 address 0.0.0.0, which is listened on where none is given.
    pub open spec fn unspecified() -> ListenAddr {
        ListenAddr::V4(0, 0, 0, 0)
    }
}

impl OptionsError {
    /// What the failure is called.
    pub open spec fn text(self) -> Seq<char> {
        match self {
            OptionsError::InvalidListenAddr => "Invalid listen address"@,
            OptionsError::InvalidListenPort => "Invalid listen port"@,
            OptionsError::InvalidLogLevel => "Invalid log level"@,
            OptionsError::MissingToken => "Missing API token"@,
            OptionsError::MissingSymbol => "Missing stock symbol"@,
        }
    }

    /// What the failure is called.
    pub fn message(&self) -> (r: &'static str)
        ensures
            r@ == self.text(),
    {
        match self {
            OptionsError::InvalidListenAddr => "Invalid listen address",
            OptionsError::InvalidListenPort => "Invalid listen port",
            OptionsError::InvalidLogLevel => "Invalid log level",
            OptionsError::MissingToken => "Missing API token",
            OptionsError::MissingSymbol => "Missing stock symbol",
        }
    }
}

/// The value of an optional text, or the default where it is absent.
pub open spec fn text_or(given: Option<&str>, default: &str) -> Seq<char> {
    match given {
        Some(text) => text@,
        None => default@,
    }
}

/// The configuration that the given values make, or the first rule that they
/// break: the address, the port, the log level, the token, the symbols, in
/// this order.
pub open spec fn validated(
    listen_addr: AddrArg,
    listen_port: Option<&str>,
    log_level: Option<&str>,
    token: Option<String>,
    symbols: Vec<String>,
) -> Result<Options, OptionsError> {
    let port = port_of(text_or(listen_port, DEFAULT_LISTEN_PORT));
    let level = level_of(text_or(log_level, DEFAULT_LOG_LEVEL));
    if listen_addr is Malformed {
        Err(OptionsError::InvalidListenAddr)
    } else if port is None {
        Err(OptionsError::InvalidListenPort)
    } else if level is None {
        Err(OptionsError::InvalidLogLevel)
    } else if token is None {
        Err(OptionsError::MissingToken)
    } else if symbols@.len() == 0 {
        Err(OptionsError::MissingSymbol)
    } else {
        Ok(
            Options {
                listen_addr: match listen_addr {
                    AddrArg::Parsed(addr) => addr,
                    _ => ListenAddr::unspecified(),
                },
                listen_port: port->0,
                log_level: level->0,
                token: token->0,
                symbols,
            },
        )
    }
}

impl Options {
    /// Validates the values given at start-up and freezes them.
    ///
    /// An absent address, port or log level takes its default; the token and
    /// at least one symbol must be given.
    pub fn from_values(
        listen_addr: AddrArg,
        listen_port: Option<&str>,
        log_level: Option<&str>,
        token: Option<String>,
        symbols: Vec<String>,
    ) -> (r: Result<Options, OptionsError>)
        ensures
            r == validated(listen_addr, listen_port, log_level, token, symbols),
    {
        let listen_addr = match listen_addr {
            AddrArg::Parsed(addr) => addr,
            AddrArg::Absent => ListenAddr::V4(0, 0, 0, 0),
            AddrArg::Malformed => { return Err(OptionsError::InvalidListenAddr); },
        };
        let port_text = match listen_port {
            Some(text) => text,
            None => DEFAULT_LISTEN_PORT,
        };
        let listen_port = match parse_port(port_text) {
            Some(port) => port,
            None => { return Err(OptionsError::InvalidListenPort); },
        };
        let level_text = match log_level {
            Some(text) => text,
            None => DEFAULT_LOG_LEVEL,
        };
        let log_level = match LogLevel::parse(level_text) {
            Some(level) => level,
            None => { return Err(OptionsError::InvalidLogLevel); },
        };
        let token = match token {
            Some(token) => token,
            None => { return Err(OptionsError::MissingToken); },
        };
        if symbols.len() == 0 {
            return Err(OptionsError::MissingSymbol);
        }
        Ok(Options { listen_addr, listen_port, log_level, token, symbols })
    }
}

/// Digits spell their number: a run that ends in `last` is ten times the run
/// before it, plus `last`.
proof fn lemma_decimal_push(front: Seq<char>, last: char)
    ensures
        decimal_value(front.push(last)) == decimal_value(front) * 10 + (last as int - 0x30) as nat,
{
    assert(front.push(last).drop_last() =~= front);
}

/// With no port given, 8080 is listened on.
pub proof fn lemma_default_port()
    ensures
        port_of(DEFAULT_LISTEN_PORT@) == Some(8080u16),
{
    reveal_strlit("8080");
    let s = DEFAULT_LISTEN_PORT@;
    let e = Seq::<char>::empty();
    assert(s =~= e.push('8').push('0').push('8').push('0'));
    assert(decimal_value(e) == 0);
    lemma_decimal_push(e, '8');
    lemma_decimal_push(e.push('8'), '0');
    lemma_decimal_push(e.push('8').push('0'), '8');
    lemma_decimal_push(e.push('8').push('0').push('8'), '0');
    assert(unsigned_digits(s) == s);
}

/// With no log level given, the level is `Info`.
pub proof fn lemma_default_level()
    ensures
        level_of(DEFAULT_LOG_LEVEL@) == Some(LogLevel::Info),
{
    reveal_strlit("info");
    reveal_strlit("error");
    reveal_strlit("warn");
    let s = DEFAULT_LOG_LEVEL@;
    assert(fold_case(s[0]) != fold_case("warn"@[0]));
}

} // verus!
