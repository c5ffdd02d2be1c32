//! The proxy's settings, and the choices made from them at start-up.

use std::path::PathBuf;
use vstd::prelude::*;

use crate::error::BurleyError;

verus! {

/// The settings the proxy is started with.
pub struct Cli {
    /// The port of the plain HTTP listener.
    pub http_port: u16,
    /// The port of the HTTPS listener.
    pub https_port: u16,
    /// The PEM file of the TLS certificate chain.
    pub tls_cert: Option<PathBuf>,
    /// The PEM file of the TLS private key.
    pub tls_key: Option<PathBuf>,
    /// Debug logging.
    pub debug: bool,
    /// Tokio console mode in place of logging.
    pub tokio_console: bool,
}

/// The message given when only one of the TLS files is set.
pub open spec fn tls_pair_message() -> Seq<char> {
    "TLS cert and key must be provided together"@
}

/// The TLS files to serve HTTPS with: both when both are set, none when
/// neither is; setting only one is an error.
pub fn tls_files(cli: &Cli) -> (files: Result<Option<(&PathBuf, &PathBuf)>, BurleyError>)
    ensures
        match (cli.tls_cert, cli.tls_key) {
            (Some(cert), Some(key)) => files matches Ok(Some((c, k))) && *c == cert && *k == key,
            (None, None) => files matches Ok(None),
            _ => files matches Err(BurleyError::Other(m)) && m@ == tls_pair_message(),
        },
{
    match (&cli.tls_cert, &cli.tls_key) {
        (Some(cert), Some(key)) => Ok(Some((cert, key))),
        (None, None) => Ok(None),
        _ => Err(BurleyError::Other("TLS cert and key must be provided together".to_string())),
    }
}

/// The character of a decimal digit.
pub open spec fn digit_char(d: nat) -> char {
    ((48 + d) as u32) as char
}

/// The decimal digits of `n`, most significant first, without leading zeros.
pub open spec fn decimal(n: nat) -> Seq<char>
    decreases n,
{
    if n < 10 {
        seq![digit_char(n)]
    } else {
        decimal(n / 10).push(digit_char(n % 10))
    }
}

fn digit_text(d: u16) -> (text: &'static str)
    requires
        d < 10,
    ensures
        text@ == seq![digit_char(d as nat)],
{
    proof {
        reveal_strlit("0");
        reveal_strlit("1");
        reveal_strlit("2");
        reveal_strlit("3");
        reveal_strlit("4");
        reveal_strlit("5");
        reveal_strlit("6");
        reveal_strlit("7");
        reveal_strlit("8");
        reveal_strlit("9");
    }
    match d {
        0 => "0",
        1 => "1",
        2 => "2",
        3 => "3",
        4 => "4",
        5 => "5",
        6 => "6",
        7 => "7",
        8 => "8",
        _ => "9",
    }
}

fn decimal_text(n: u16) -> (text: String)
    ensures
        text@ == decimal(n as nat),
    decreases n,
{
    if n < 10 {
        digit_text(n).to_string()
    } else {
        let head = decimal_text(n / 10);
        head.concat(digit_text(n % 10))
    }
}

/// The address a listener binds to: the loopback address and `port`.
pub fn listen_address(port: u16) -> (address: String)
    ensures
        address@ == "127.0.0.1:"@ + decimal(port as nat),
{
    let host = "127.0.0.1:".to_string();
    let digits = decimal_text(port);
    host.concat(digits.as_str())
}

/// The number a string of decimal digits reads as, most significant first.
pub open spec fn digits_value(digits: Seq<char>) -> int
    decreases digits.len(),
{
    if digits.len() == 0 {
        0
    } else {
        digits_value(digits.drop_last()) * 10 + (digits.last() as int - 48)
    }
}

/// The decimal text of a number consists of ASCII digits, starts with no
/// zero unless it is `0` itself, and reads back as the number.
pub proof fn decimal_reads_back(n: nat)
    ensures
        decimal(n).len() >= 1,
        forall|i: int| 0 <= i < decimal(n).len() ==> '0' <= #[trigger] decimal(n)[i] && decimal(n)[i] <= '9',
        decimal(n).len() > 1 ==> decimal(n)[0] != '0',
        digits_value(decimal(n)) == n,
    decreases n,
{
    if n >= 10 {
        decimal_reads_back(n / 10);
        let d = n % 10;
        assert(digit_char(d) as int == 48 + d);
        let head = decimal(n / 10);
        assert(decimal(n).drop_last() =~= head);
        assert(decimal(n)[0] == head[0]);
        assert forall|i: int| 0 <= i < decimal(n).len() implies '0' <= #[trigger] decimal(n)[i]
            && decimal(n)[i] <= '9' by {
            if i < head.len() {
                assert(decimal(n)[i] == head[i]);
            }
        }
        assert(decimal(n).last() == digit_char(d));
        assert(digits_value(decimal(n)) == digits_value(head) * 10 + d);
        assert(n == (n / 10) * 10 + d);
        if head.len() == 1 {
            assert(n / 10 < 10) by {
                if n / 10 >= 10 {
                    assert(decimal(n / 10) == decimal(n / 10 / 10).push(digit_char((n / 10) % 10)));
                    decimal_reads_back(n / 10 / 10);
                }
            }
            assert(head[0] == digit_char(n / 10));
            assert(digit_char(n / 10) as int == 48 + n / 10);
        }
    } else {
        assert(digit_char(n) as int == 48 + n);
        assert(decimal(n).drop_last() =~= Seq::<char>::empty());
        assert(digits_value(decimal(n)) == digits_value(Seq::<char>::empty()) * 10 + (digit_char(n) as int - 48));
    }
}

/// The level of detail that log lines are kept at.
#[derive(Debug, Clone, Copy, PartialEq, Eq)]
pub enum LogLevel {
    Debug,
    Info,
}

impl LogLevel {
    /// The level's name as a log filter takes it.
    pub fn as_str(&self) -> (name: &'static str)
        ensures
            name@ == match self {
                LogLevel::Debug => "debug"@,
                LogLevel::Info => "info"@,
            },
    {
        match self {
            LogLevel::Debug => "debug",
            LogLevel::Info => "info",
        }
    }
}

/// How logging is set up.
#[derive(Debug, Clone, Copy, PartialEq, Eq)]
pub enum LoggingSetup {
    /// Tokio console in place of log lines; `debug_ignored` says that debug
    /// logging was asked for and cannot be had, which the operator is told.
    Console { debug_ignored: bool },
    /// Formatted log lines at `level`, with each line's target where `with_target`.
    Lines { level: LogLevel, with_target: bool },
}

/// The logging set-up the settings ask for.
pub fn logging_setup(cli: &Cli) -> (setup: LoggingSetup)
    ensures
        setup == (if cli.tokio_console {
            LoggingSetup::Console { debug_ignored: cli.debug }
        } else {
            LoggingSetup::Lines {
                level: if cli.debug { LogLevel::Debug } else { LogLevel::Info },
                with_target: cli.debug,
            }
        }),
{
    if cli.tokio_console {
        LoggingSetup::Console { debug_ignored: cli.debug }
    } else {
        let level = if cli.debug { LogLevel::Debug } else { LogLevel::Info };
        LoggingSetup::Lines { level, with_target: cli.debug }
    }
}

} // verus!
