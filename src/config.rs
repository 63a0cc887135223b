//! Startup configuration: bind port, upstream target and packet-log path.
use vstd::prelude::*;
use vstd::string::StringSliceAdditionalSpecFns;

verus! {

/// Port used when none is given on the command line.
pub const DEFAULT_PORT: u64 = 3000;

/// An ASCII decimal digit.
pub open spec fn is_digit(b: u8) -> bool {
    48 <= b <= 57
}

/// The value of a sequence of decimal digits, most significant first.
pub open spec fn digits_value(s: Seq<u8>) -> nat
    decreases s.len(),
{
    if s.len() == 0 {
        0
    } else {
        digits_value(s.drop_last()) * 10 + (s.last() - 48) as nat
    }
}

/// The digits of a port argument: an optional leading `+` is dropped.
pub open spec fn port_digits(s: Seq<u8>) -> Seq<u8> {
    if s.len() > 0 && s[0] == 43 {
        s.drop_first()
    } else {
        s
    }
}

/// A port argument is an optional `+` followed by one or more decimal digits.
pub open spec fn is_port_text(s: Seq<u8>) -> bool {
    let d = port_digits(s);
    d.len() > 0 && forall|i: int| 0 <= i < d.len() ==> is_digit(#[trigger] d[i])
}

/// The number written by a port argument.
pub open spec fn port_text_value(s: Seq<u8>) -> nat {
    digits_value(port_digits(s))
}

/// Why a port argument was refused.
#[derive(PartialEq, Eq, Structural, Clone, Copy, Debug)]
pub enum PortError {
    /// The text is not an optional `+` followed by decimal digits.
    NotANumber,
    /// The digits denote a number above `u64::MAX`.
    OutOfRange,
}

/// What `parse_port` returns for the UTF-8 bytes of an argument.
pub open spec fn port_result(s: Seq<u8>) -> Result<u64, PortError> {
    if !is_port_text(s) {
        Err(PortError::NotANumber)
    } else if port_text_value(s) > u64::MAX {
        Err(PortError::OutOfRange)
    } else {
        Ok(port_text_value(s) as u64)
    }
}

/// Reads a port number written in decimal, with an optional leading `+`.
pub fn parse_port(text: &str) -> (r: Result<u64, PortError>)
    ensures
        r == port_result(text.spec_bytes()),
{
    let bytes = text.as_bytes();
    let ghost s = bytes@;
    let n = bytes.len();
    let start: usize = if n > 0 && bytes[0] == 43u8 {
        1
    } else {
        0
    };
    let ghost d = port_digits(s);
    assert(d =~= s.subrange(start as int, n as int));
    if start >= n {
        assert(d.len() == 0);
        return Err(PortError::NotANumber);
    }
    let mut i: usize = start;
    while i < n
        invariant
            start <= i <= n,
            n == s.len(),
            bytes@ == s,
            s == text.spec_bytes(),
            d =~= s.subrange(start as int, n as int),
            d == port_digits(s),
            forall|k: int| 0 <= k < i - start ==> is_digit(#[trigger] d[k]),
        decreases n - i,
    {
        let b = bytes[i];
        if b < 48u8 || b > 57u8 {
            assert(!is_digit(d[i - start]));
            return Err(PortError::NotANumber);
        }
        i = i + 1;
    }
    let mut value: u64 = 0;
    let mut overflow = false;
    let mut j: usize = start;
    while j < n
        invariant
            start <= j <= n,
            n == s.len(),
            bytes@ == s,
            s == text.spec_bytes(),
            d =~= s.subrange(start as int, n as int),
            is_port_text(s),
            d == port_digits(s),
            !overflow ==> value as nat == digits_value(d.take(j - start)),
            overflow ==> digits_value(d.take(j - start)) > u64::MAX,
        decreases n - j,
    {
        let ghost k = j - start;
        assert(d.take(k + 1).drop_last() =~= d.take(k));
        assert(d.take(k + 1).last() == d[k]);
        assert(is_digit(d[k]));
        let digit = (bytes[j] - 48u8) as u64;
        if !overflow {
            if value > (u64::MAX - digit) / 10 {
                overflow = true;
                assert(value * 10 + digit > u64::MAX) by (nonlinear_arith)
                    requires
                        value > (u64::MAX - digit) / 10,
                        digit <= 9,
                ;
            } else {
                assert(value * 10 + digit <= u64::MAX) by (nonlinear_arith)
                    requires
                        value <= (u64::MAX - digit) / 10,
                        digit <= 9,
                ;
                value = value * 10 + digit;
            }
        } else {
            let ghost prev = digits_value(d.take(k));
            assert(prev * 10 + digit as nat >= prev) by (nonlinear_arith);
        }
        j = j + 1;
    }
    assert(d.take(n - start) =~= d);
    if overflow {
        Err(PortError::OutOfRange)
    } else {
        Ok(value)
    }
}

/// What `port_from_arg` returns: the default port when no argument is given.
pub open spec fn port_arg_result(arg: Option<&str>) -> Result<u64, PortError> {
    match arg {
        Some(t) => port_result(t.spec_bytes()),
        None => Ok(DEFAULT_PORT),
    }
}

/// The port to bind: the argument when one is given, else the default.
pub fn port_from_arg(arg: Option<&str>) -> (r: Result<u64, PortError>)
    ensures
        r == port_arg_result(arg),
{
    match arg {
        Some(t) => parse_port(t),
        None => Ok(DEFAULT_PORT),
    }
}

/// Whether a configuration records packets to the file named by `arg`: an
/// absent or empty path means no packet log.
pub open spec fn packet_log_matches(arg: Option<&str>, log: Option<String>) -> bool {
    match arg {
        Some(p) => if p@.len() == 0 {
            log is None
        } else {
            log matches Some(q) && q@ == p@
        },
        None => log is None,
    }
}

/// The immutable settings every session reads: where to listen, where to
/// forward, and where (if anywhere) to record forwarded bytes.
pub struct Config {
    pub port: u64,
    pub target: String,
    pub packet_log: Option<String>,
}

impl Config {
    /// Builds the configuration from the raw argument values. An absent or
    /// empty packet-log path means no packet log.
    pub fn from_args(port: Option<&str>, address: &str, packet_log: Option<&str>) -> (r: Result<
        Config,
        PortError,
    >)
        ensures
            r is Ok <==> port_arg_result(port) is Ok,
            r matches Err(e) ==> port_arg_result(port) == Err::<u64, PortError>(e),
            r matches Ok(c) ==> {
                &&& port_arg_result(port) == Ok::<u64, PortError>(c.port)
                &&& c.target@ == address@
                &&& packet_log_matches(packet_log, c.packet_log)
            },
    {
        let port = match port_from_arg(port) {
            Ok(p) => p,
            Err(e) => {
                return Err(e);
            },
        };
        let packet_log = match packet_log {
            Some(p) => if p.is_empty() {
                None
            } else {
                Some(p.to_owned())
            },
            None => None,
        };
        Ok(Config { port, target: address.to_owned(), packet_log })
    }
}

} // verus!
