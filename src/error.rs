//! The client's error type, the conversions into it from each collaborator's
//! failure, and its text.

use vstd::prelude::*;
use vstd::string::to_string_from_display_ensures;

use btleplug::Error as BtError;
use tokio::time::error::Error as TimerError;
use tokio::time::error::Elapsed;
use std::io::Error as IoError;
use std::sync::PoisonError;

verus! {

/// The failures of this client: a message of its own, a failure of the
/// Bluetooth transport kept as it came, or a failure of the timer.
#[derive(Debug)]
pub enum Error {
    ClientError(String),
    BLEError(BtError),
    TimeoutError(TimerError),
}

/// What every fallible operation of the client returns.
pub type Result<T> = core::result::Result<T, Error>;

impl Error {
    /// Whether `s` is the text of this error: the message of a client error,
    /// and the payload's own display text for the two others.
    pub open spec fn renders_as(&self, s: String) -> bool {
        match self {
            Error::ClientError(m) => s@ == m@,
            Error::BLEError(e) => to_string_from_display_ensures::<BtError>(e, s),
            Error::TimeoutError(e) => to_string_from_display_ensures::<TimerError>(e, s),
        }
    }

    /// Whether this is a client error whose message reads `t`.
    pub open spec fn is_client_with(&self, t: Seq<char>) -> bool {
        self matches Error::ClientError(m) && m@ == t
    }

    /// A client error that carries `msg`.
    pub fn client(msg: String) -> (r: Error)
        ensures
            r == Error::ClientError(msg),
    {
        Error::ClientError(msg)
    }

    /// The text of this error. It has no precondition and always returns:
    /// every error, however built, can be shown.
    pub fn to_string(&self) -> (r: String)
        ensures
            self.renders_as(r),
    {
        match self {
            Error::ClientError(m) => m.clone(),
            Error::BLEError(e) => e.to_string(),
            Error::TimeoutError(e) => e.to_string(),
        }
    }
}


/// The fixed message of a failure met on a poisoned lock.
pub open spec fn lock_failure_message() -> Seq<char> {
    "Asynchronous error. Can not recursively lock mutex."@
}

/// The fixed message of a deadline that passed.
pub open spec fn timeout_message() -> Seq<char> {
    "Timeout error"@
}

impl From<BtError> for Error {
    /// A transport failure that keeps the transport's error as it came.
    fn from(e: BtError) -> (r: Error) {
        Error::BLEError(e)
    }
}

impl vstd::std_specs::convert::FromSpecImpl<BtError> for Error {
    open spec fn obeys_from_spec() -> bool {
        true
    }

    open spec fn from_spec(e: BtError) -> Error {
        Error::BLEError(e)
    }
}

impl<'a> From<&'a str> for Error {
    /// A client error whose message is a copy of `e`.
    fn from(e: &'a str) -> (r: Error)
        ensures
            r.is_client_with(e@),
    {
        Error::client(e.to_owned())
    }
}

impl<'a> vstd::std_specs::convert::FromSpecImpl<&'a str> for Error {
    /// The message is a new `String`, which no spec value names: the
    /// conversion's own `ensures` gives its view instead.
    open spec fn obeys_from_spec() -> bool {
        false
    }

    open spec fn from_spec(e: &'a str) -> Error {
        arbitrary()
    }
}

impl From<TimerError> for Error {
    /// A client error whose message is the timer error's display text; the
    /// timer error itself is not kept.
    fn from(e: TimerError) -> (r: Error)
        ensures
            r matches Error::ClientError(m) && to_string_from_display_ensures::<TimerError>(&e, m),
    {
        Error::client(e.to_string())
    }
}

impl vstd::std_specs::convert::FromSpecImpl<TimerError> for Error {
    /// The message is a new `String`, which no spec value names: the
    /// conversion's own `ensures` describes it instead.
    open spec fn obeys_from_spec() -> bool {
        false
    }

    open spec fn from_spec(e: TimerError) -> Error {
        arbitrary()
    }
}

impl From<Elapsed> for Error {
    /// A client error with the fixed timeout message. The signal carries
    /// nothing else worth keeping, so it is routed to a client error, as the
    /// client's callers have always seen it, not to `TimeoutError`.
    fn from(_e: Elapsed) -> (r: Error)
        ensures
            r.is_client_with(timeout_message()),
    {
        Error::client("Timeout error".to_owned())
    }
}

impl vstd::std_specs::convert::FromSpecImpl<Elapsed> for Error {
    /// The message is a new `String`, which no spec value names: the
    /// conversion's own `ensures` describes it instead.
    open spec fn obeys_from_spec() -> bool {
        false
    }

    open spec fn from_spec(e: Elapsed) -> Error {
        arbitrary()
    }
}

impl<T> From<PoisonError<T>> for Error {
    /// A client error with the fixed locking-failure message, whatever the
    /// guard; the guard is dropped, not recovered.
    fn from(_e: PoisonError<T>) -> (r: Error)
        ensures
            r.is_client_with(lock_failure_message()),
    {
        Error::from("Asynchronous error. Can not recursively lock mutex.")
    }
}

impl<T> vstd::std_specs::convert::FromSpecImpl<PoisonError<T>> for Error {
    /// The message is a new `String`, which no spec value names: the
    /// conversion's own `ensures` describes it instead.
    open spec fn obeys_from_spec() -> bool {
        false
    }

    open spec fn from_spec(e: PoisonError<T>) -> Error {
        arbitrary()
    }
}

impl From<IoError> for Error {
    /// A client error whose message is the I/O error's display text.
    fn from(e: IoError) -> (r: Error)
        ensures
            r matches Error::ClientError(m) && to_string_from_display_ensures::<IoError>(&e, m),
    {
        Error::client(e.to_string())
    }
}

impl vstd::std_specs::convert::FromSpecImpl<IoError> for Error {
    /// The message is a new `String`, which no spec value names: the
    /// conversion's own `ensures` describes it instead.
    open spec fn obeys_from_spec() -> bool {
        false
    }

    open spec fn from_spec(e: IoError) -> Error {
        arbitrary()
    }
}

} // verus!
