use vstd::prelude::*;
use vstd::std_specs::convert::FromSpecImpl;

verus! {

/// The error of the sqlite bindings. Nothing is known of what it holds.
#[verifier::external_type_specification]
#[verifier::external_body]
pub struct ExStoreError(sqlite::Error);

/// The error of the ZeroMQ bindings, one variant for each error code. The
/// variants are read from the bindings themselves.
#[verifier::external_type_specification]
pub struct ExTransportError(zmq::Error);

/// The error of the Ctrl+C handler's set-up. Nothing is known of what it
/// holds.
#[verifier::external_type_specification]
#[verifier::external_body]
pub struct ExSignalError(ctrlc::Error);

/// Why a byte buffer could not be read as a message.
#[derive(Debug, Copy, Clone, PartialEq, Eq, Structural)]
pub enum DecodeError {
    /// The buffer holds no byte at all.
    Empty,
    /// The first byte is neither of the two message headers.
    UnknownHeader,
    /// The payload behind the header is shorter than its fixed length.
    TooShort,
}

/// Why a configuration value could not be used.
#[derive(Debug, Copy, Clone, PartialEq, Eq, Structural)]
pub enum ConfigError {
    /// A value that has no default is not set.
    Missing,
    /// The text of a number is empty.
    Empty,
    /// The text of a number holds something else than digits.
    InvalidDigit,
    /// The number is too large for its setting.
    TooLarge,
}

/// What went wrong on the broadcast transport.
#[derive(Debug, Copy, Clone, PartialEq, Eq, Structural)]
pub enum TransportError {
    NoAccess,
    AddressInUse,
    WouldBlock,
    Busy,
    ConnectionRefused,
    NotConnected,
    AddressNotAvailable,
    InvalidInput,
    Interrupted,
    /// Any other failure of the transport.
    Other,
}

/// The classes of failure that the service tells apart.
#[derive(Debug, Copy, Clone, PartialEq, Eq, Structural)]
pub enum ErrorKind {
    /// A configuration value is missing or cannot be parsed.
    Config(ConfigError),
    /// The broadcast transport failed.
    Transport(TransportError),
    /// The alarm table could not be read or written.
    Storage,
    /// A frame could not be decoded.
    Decode(DecodeError),
    /// An alarm without an id was given where a stored alarm is needed.
    UnsavedEntity,
    /// An alarm's hour, minute or second is not a time of day.
    InvalidTime,
    /// The handler of the interrupt signal could not be set up.
    Signal,
}

/// The error of every fallible operation of this library.
#[derive(Debug, Copy, Clone, PartialEq, Eq, Structural)]
pub struct ClockError(pub ErrorKind);

/// The text that describes an error of the given kind.
pub open spec fn message_of(kind: ErrorKind) -> Seq<char> {
    match kind {
        ErrorKind::Config(ConfigError::Missing) => "Env Var Error"@,
        ErrorKind::Config(ConfigError::Empty) => "Parse Int Error: Empty string"@,
        ErrorKind::Config(ConfigError::InvalidDigit) => "Parse Int Error: Invalid digit"@,
        ErrorKind::Config(ConfigError::TooLarge) => "Parse Int Error: Too large"@,
        ErrorKind::Transport(TransportError::NoAccess) => "ZMQ Error: No Access"@,
        ErrorKind::Transport(TransportError::AddressInUse) => "ZMQ Error: Address in use"@,
        ErrorKind::Transport(TransportError::WouldBlock) => "ZMQ Error: Would block"@,
        ErrorKind::Transport(TransportError::Busy) => "ZMQ Error: Resource busy"@,
        ErrorKind::Transport(TransportError::ConnectionRefused) => "ZMQ Error: Connection refused"@,
        ErrorKind::Transport(TransportError::NotConnected) => "ZMQ Error: Not connected"@,
        ErrorKind::Transport(TransportError::AddressNotAvailable) => "ZMQ Error: Address not available"@,
        ErrorKind::Transport(TransportError::InvalidInput) => "ZMQ Error: Invalid input"@,
        ErrorKind::Transport(TransportError::Interrupted) => "ZMQ Error: Interrput"@,
        ErrorKind::Transport(TransportError::Other) => "ZMQ Error"@,
        ErrorKind::Storage => "Database Error"@,
        ErrorKind::Decode(DecodeError::Empty) => "Cannot convert message from empty byte vector"@,
        ErrorKind::Decode(DecodeError::UnknownHeader) => "Unknown message header"@,
        ErrorKind::Decode(DecodeError::TooShort) => "Conversion from slice failed"@,
        ErrorKind::UnsavedEntity => "Impossible to delete an unsaved alarm"@,
        ErrorKind::InvalidTime => "Could not create naive time for alarm"@,
        ErrorKind::Signal => "Unable to setup Ctrl+C handler"@,
    }
}

/// The fault that an error code of the transport stands for.
pub open spec fn fault_of(code: zmq::Error) -> TransportError {
    match code {
        zmq::Error::EACCES => TransportError::NoAccess,
        zmq::Error::EADDRINUSE => TransportError::AddressInUse,
        zmq::Error::EAGAIN => TransportError::WouldBlock,
        zmq::Error::EBUSY => TransportError::Busy,
        zmq::Error::ECONNREFUSED => TransportError::ConnectionRefused,
        zmq::Error::ENOTCONN => TransportError::NotConnected,
        zmq::Error::EADDRNOTAVAIL => TransportError::AddressNotAvailable,
        zmq::Error::EINVAL => TransportError::InvalidInput,
        zmq::Error::EINTR => TransportError::Interrupted,
        _ => TransportError::Other,
    }
}

impl ClockError {
    /// The class of this error.
    pub fn kind(&self) -> (kind: ErrorKind)
        ensures
            kind == self.0,
    {
        self.0
    }

    /// A short description, fit for a log line.
    pub fn message(&self) -> (text: &'static str)
        ensures
            text@ == message_of(self.0),
    {
        match self.0 {
            ErrorKind::Config(ConfigError::Missing) => "Env Var Error",
            ErrorKind::Config(ConfigError::Empty) => "Parse Int Error: Empty string",
            ErrorKind::Config(ConfigError::InvalidDigit) => "Parse Int Error: Invalid digit",
            ErrorKind::Config(ConfigError::TooLarge) => "Parse Int Error: Too large",
            ErrorKind::Transport(TransportError::NoAccess) => "ZMQ Error: No Access",
            ErrorKind::Transport(TransportError::AddressInUse) => "ZMQ Error: Address in use",
            ErrorKind::Transport(TransportError::WouldBlock) => "ZMQ Error: Would block",
            ErrorKind::Transport(TransportError::Busy) => "ZMQ Error: Resource busy",
            ErrorKind::Transport(TransportError::ConnectionRefused) => "ZMQ Error: Connection refused",
            ErrorKind::Transport(TransportError::NotConnected) => "ZMQ Error: Not connected",
            ErrorKind::Transport(TransportError::AddressNotAvailable) => "ZMQ Error: Address not available",
            ErrorKind::Transport(TransportError::InvalidInput) => "ZMQ Error: Invalid input",
            ErrorKind::Transport(TransportError::Interrupted) => "ZMQ Error: Interrput",
            ErrorKind::Transport(TransportError::Other) => "ZMQ Error",
            ErrorKind::Storage => "Database Error",
            ErrorKind::Decode(DecodeError::Empty) => "Cannot convert message from empty byte vector",
            ErrorKind::Decode(DecodeError::UnknownHeader) => "Unknown message header",
            ErrorKind::Decode(DecodeError::TooShort) => "Conversion from slice failed",
            ErrorKind::UnsavedEntity => "Impossible to delete an unsaved alarm",
            ErrorKind::InvalidTime => "Could not create naive time for alarm",
            ErrorKind::Signal => "Unable to setup Ctrl+C handler",
        }
    }

    /// The description as an owned string.
    pub fn to_string(&self) -> (text: String)
        ensures
            text@ == message_of(self.0),
    {
        self.message().to_owned()
    }
}

impl From<zmq::Error> for ClockError {
    fn from(value: zmq::Error) -> (error: ClockError) {
        let fault = match value {
            zmq::Error::EACCES => TransportError::NoAccess,
            zmq::Error::EADDRINUSE => TransportError::AddressInUse,
            zmq::Error::EAGAIN => TransportError::WouldBlock,
            zmq::Error::EBUSY => TransportError::Busy,
            zmq::Error::ECONNREFUSED => TransportError::ConnectionRefused,
            zmq::Error::ENOTCONN => TransportError::NotConnected,
            zmq::Error::EADDRNOTAVAIL => TransportError::AddressNotAvailable,
            zmq::Error::EINVAL => TransportError::InvalidInput,
            zmq::Error::EINTR => TransportError::Interrupted,
            _ => TransportError::Other,
        };
        ClockError(ErrorKind::Transport(fault))
    }
}

impl FromSpecImpl<zmq::Error> for ClockError {
    open spec fn obeys_from_spec() -> bool {
        true
    }

    open spec fn from_spec(value: zmq::Error) -> ClockError {
        ClockError(ErrorKind::Transport(fault_of(value)))
    }
}

impl From<sqlite::Error> for ClockError {
    fn from(value: sqlite::Error) -> (error: ClockError) {
        ClockError(ErrorKind::Storage)
    }
}

impl FromSpecImpl<sqlite::Error> for ClockError {
    open spec fn obeys_from_spec() -> bool {
        true
    }

    open spec fn from_spec(value: sqlite::Error) -> ClockError {
        ClockError(ErrorKind::Storage)
    }
}

impl From<ctrlc::Error> for ClockError {
    fn from(value: ctrlc::Error) -> (error: ClockError) {
        ClockError(ErrorKind::Signal)
    }
}

impl FromSpecImpl<ctrlc::Error> for ClockError {
    open spec fn obeys_from_spec() -> bool {
        true
    }

    open spec fn from_spec(value: ctrlc::Error) -> ClockError {
        ClockError(ErrorKind::Signal)
    }
}

} // verus!
