use vstd::prelude::*;
use vstd::slice::slice_index_get;
use vstd::string::{StringExecFns, StringSliceAdditionalSpecFns};
use vstd::utf8::encode_utf8;
use crate::error::{ClockError, ConfigError, ErrorKind};
use crate::text::{append_natural, decimal_nat};

verus! {

/// The broadcast channel's port where none is configured.
pub const DEFAULT_PORT: u16 = 5555;

/// The time between two ticks, in milliseconds, where none is configured.
pub const DEFAULT_TICK_DURATION: u64 = 1000;

/// The broadcast channel's host where none is configured.
pub open spec fn default_host() -> Seq<char> {
    "127.0.0.1"@
}

/// Whether a byte is a decimal digit.
pub open spec fn is_digit(byte: u8) -> bool {
    0x30 <= byte <= 0x39
}

/// The number that a run of decimal digits stands for, read from the left.
/// The first byte that is no digit, or with which the number grows above
/// `max`, decides the error.
pub open spec fn parse_digits(digits: Seq<u8>, max: int) -> Result<int, ConfigError>
    decreases digits.len(),
{
    if digits.len() == 0 {
        Ok(0)
    } else {
        match parse_digits(digits.drop_last(), max) {
            Err(error) => Err(error),
            Ok(value) => if !is_digit(digits.last()) {
                Err(ConfigError::InvalidDigit)
            } else if value * 10 + (digits.last() - 0x30) > max {
                Err(ConfigError::TooLarge)
            } else {
                Ok(value * 10 + (digits.last() - 0x30))
            },
        }
    }
}

/// The number between 0 and `max` that a text stands for: decimal digits,
/// with or without a plus sign before them.
pub open spec fn parse_number(text: Seq<u8>, max: int) -> Result<int, ConfigError> {
    if text.len() == 0 {
        Err(ConfigError::Empty)
    } else if text.len() == 1 && (text[0] == 0x2B || text[0] == 0x2D) {
        Err(ConfigError::InvalidDigit)
    } else if text[0] == 0x2B {
        parse_digits(text.skip(1), max)
    } else {
        parse_digits(text, max)
    }
}

/// Reads a number between 0 and `max` from its decimal text.
pub fn parse_bounded(text: &str, max: u64) -> (parsed: Result<u64, ConfigError>)
    ensures
        parsed matches Ok(number) ==> parse_number(text.spec_bytes(), max as int) == Ok::<
            int,
            ConfigError,
        >(number as int),
        parsed matches Err(error) ==> parse_number(text.spec_bytes(), max as int) == Err::<
            int,
            ConfigError,
        >(error),
{
    let bytes = text.as_bytes();
    let len = bytes.len();
    if len == 0 {
        return Err(ConfigError::Empty);
    }
    let first = *slice_index_get(bytes, 0);
    if len == 1 && (first == 0x2B || first == 0x2D) {
        return Err(ConfigError::InvalidDigit);
    }
    let start: usize = if first == 0x2B {
        1
    } else {
        0
    };
    let ghost digits = bytes@.skip(start as int);
    assert(bytes@.skip(0) =~= bytes@);
    let mut value: u64 = 0;
    let mut i: usize = start;
    while i < len
        invariant
            start <= i <= len,
            len == bytes@.len(),
            digits == bytes@.skip(start as int),
            parse_number(text.spec_bytes(), max as int) == parse_digits(digits, max as int),
            value <= max,
            parse_digits(digits.take(i - start), max as int) == Ok::<int, ConfigError>(
                value as int,
            ),
        decreases len - i,
    {
        let byte = *slice_index_get(bytes, i);
        proof {
            let read = digits.take(i + 1 - start);
            assert(read.drop_last() =~= digits.take(i - start));
            assert(read.last() == byte);
        }
        if byte < 0x30 || byte > 0x39 {
            proof {
                lemma_parse_prefix(digits, i + 1 - start, max as int);
            }
            return Err(ConfigError::InvalidDigit);
        }
        let digit: u64 = (byte - 0x30) as u64;
        if value as u128 * 10 + digit as u128 > max as u128 {
            proof {
                lemma_parse_prefix(digits, i + 1 - start, max as int);
            }
            return Err(ConfigError::TooLarge);
        }
        value = value * 10 + digit;
        i = i + 1;
    }
    assert(digits.take(len - start) =~= digits);
    Ok(value)
}

/// A text whose beginning cannot be parsed cannot be parsed, and fails as
/// its beginning does.
pub proof fn lemma_parse_prefix(digits: Seq<u8>, n: int, max: int)
    requires
        0 <= n <= digits.len(),
        parse_digits(digits.take(n), max) is Err,
    ensures
        parse_digits(digits, max) == parse_digits(digits.take(n), max),
    decreases digits.len(),
{
    if n < digits.len() {
        assert(digits.drop_last().take(n) =~= digits.take(n));
        lemma_parse_prefix(digits.drop_last(), n, max);
    } else {
        assert(digits.take(n) =~= digits);
    }
}

/// Where the broadcast channel is.
pub struct QueueEnv {
    port: u16,
    host: String,
}

impl QueueEnv {
    /// The channel's port.
    pub closed spec fn spec_port(&self) -> u16 {
        self.port
    }

    /// The channel's host.
    pub closed spec fn spec_host(&self) -> Seq<char> {
        self.host@
    }

    /// The address of the channel: `tcp://`, the host, a colon, the port.
    pub open spec fn spec_endpoint(&self) -> Seq<char> {
        "tcp://"@ + self.spec_host() + ":"@ + decimal_nat(self.spec_port() as nat)
    }

    /// The channel's port.
    pub fn port(&self) -> (port: u16)
        ensures
            port == self.spec_port(),
    {
        self.port
    }

    /// The channel's host.
    pub fn host(&self) -> (host: &str)
        ensures
            host@ == self.spec_host(),
    {
        self.host.as_str()
    }

    /// The address at which the daemon binds and listeners connect.
    pub fn endpoint(&self) -> (address: String)
        ensures
            address@ == self.spec_endpoint(),
    {
        let mut address = String::from_str("tcp://");
        address.append(self.host.as_str());
        address.append(":");
        append_natural(&mut address, self.port as u64);
        address
    }
}

/// The fixed quantities of the service.
pub struct Constants {
    tick_duration: u64,
}

impl Constants {
    /// The time between two ticks, in milliseconds.
    pub closed spec fn spec_tick_duration(&self) -> u64 {
        self.tick_duration
    }

    /// The time between two ticks, in milliseconds.
    pub fn tick_duration(&self) -> (millis: u64)
        ensures
            millis == self.spec_tick_duration(),
    {
        self.tick_duration
    }
}

/// The configuration of the service.
pub struct ClockEnv {
    queue: QueueEnv,
    constants: Constants,
}

/// The number that a setting has: its default where it is not set, else
/// what its text stands for.
pub open spec fn setting(text: Option<String>, default: int, max: int) -> Result<
    int,
    ConfigError,
> {
    match text {
        None => Ok(default),
        Some(text) => parse_number(encode_utf8(text@), max),
    }
}

impl ClockEnv {
    /// Where the broadcast channel is.
    pub closed spec fn spec_queue(&self) -> QueueEnv {
        self.queue
    }

    /// The fixed quantities of the service.
    pub closed spec fn spec_constants(&self) -> Constants {
        self.constants
    }

    /// Whether this is the configuration with the given values.
    pub open spec fn holds(&self, port: int, host: Seq<char>, tick_duration: int) -> bool {
        &&& self.spec_queue().spec_port() == port
        &&& self.spec_queue().spec_host() == host
        &&& self.spec_constants().spec_tick_duration() == tick_duration
    }

    /// The configuration made of the three settings as the environment has
    /// them, `None` standing for one that is not set. A setting that is not
    /// set has its default. The port is looked at first, then the tick
    /// duration: the first that cannot be read decides the error.
    pub fn new(port: Option<String>, host: Option<String>, tick_duration: Option<String>) -> (env:
        Result<ClockEnv, ClockError>)
        ensures
            match setting(port, DEFAULT_PORT as int, u16::MAX as int) {
                Err(error) => env matches Err(e) && e == ClockError(ErrorKind::Config(error)),
                Ok(port_number) => match setting(
                    tick_duration,
                    DEFAULT_TICK_DURATION as int,
                    u64::MAX as int,
                ) {
                    Err(error) => env matches Err(e) && e == ClockError(ErrorKind::Config(error)),
                    Ok(millis) => env matches Ok(made) && made.holds(
                        port_number,
                        match host {
                            Some(name) => name@,
                            None => default_host(),
                        },
                        millis,
                    ),
                },
            },
    {
        let port_number: u16 = match port {
            None => DEFAULT_PORT,
            Some(text) => match parse_bounded(text.as_str(), 0xFFFF) {
                Ok(number) => number as u16,
                Err(error) => {
                    return Err(ClockError(ErrorKind::Config(error)));
                },
            },
        };
        let host_name: String = match host {
            None => String::from_str("127.0.0.1"),
            Some(name) => name,
        };
        let millis: u64 = match tick_duration {
            None => DEFAULT_TICK_DURATION,
            Some(text) => match parse_bounded(text.as_str(), u64::MAX) {
                Ok(number) => number,
                Err(error) => {
                    return Err(ClockError(ErrorKind::Config(error)));
                },
            },
        };
        Ok(
            ClockEnv {
                queue: QueueEnv { port: port_number, host: host_name },
                constants: Constants { tick_duration: millis },
            },
        )
    }

    /// Where the broadcast channel is.
    pub fn queue(&self) -> (queue: &QueueEnv)
        ensures
            *queue == self.spec_queue(),
    {
        &self.queue
    }

    /// The fixed quantities of the service.
    pub fn constants(&self) -> (constants: &Constants)
        ensures
            *constants == self.spec_constants(),
    {
        &self.constants
    }
}

} // verus!
