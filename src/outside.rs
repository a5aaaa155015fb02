//! The failure types of the collaborators, as Verus sees them: opaque values
//! that are carried through and rendered by their own display text.

use vstd::prelude::*;

use btleplug::Error as BtError;
use tokio::time::error::Error as TimerError;
use tokio::time::error::Elapsed;
use std::io::Error as IoError;
use std::sync::PoisonError;

verus! {

/// The Bluetooth transport's error, kept whole inside a transport failure.
#[verifier::external_type_specification]
#[verifier::external_body]
pub struct ExBtError(BtError);

/// The timer's error (shut down, at capacity, duration too long).
#[verifier::external_type_specification]
#[verifier::external_body]
pub struct ExTimerError(TimerError);

/// The signal that a timed wait passed its deadline.
#[verifier::external_type_specification]
#[verifier::external_body]
pub struct ExElapsed(Elapsed);

/// A failure of an input or output operation.
#[verifier::external_type_specification]
#[verifier::external_body]
pub struct ExIoError(IoError);

/// The sign that a lock's previous holder panicked while holding it; `T` is
/// the guard that came with it.
#[verifier::external_type_specification]
#[verifier::external_body]
#[verifier::reject_recursive_types(T)]
pub struct ExPoisonError<T>(PoisonError<T>);

} // verus!
