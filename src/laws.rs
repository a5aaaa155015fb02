//! What holds of every error, whichever way it was built, stated over the
//! conversions' and the rendering's contracts.

use vstd::prelude::*;
use vstd::std_specs::convert::FromSpec;
use vstd::string::to_string_from_display_ensures;

use btleplug::Error as BtError;
use std::io::Error as IoError;

use crate::error::{lock_failure_message, timeout_message, Error};

verus! {

/// A client error renders to exactly its message: `client(m)` renders to `m`,
/// and so does every conversion that yields a client error with a message.
pub proof fn lemma_client_renders_message(r: Error, t: Seq<char>)
    requires
        r.is_client_with(t),
    ensures
        forall|s: String| #[trigger] r.renders_as(s) <==> s@ == t,
{
}

/// A transport error passes through unchanged: the error converted from `e`
/// renders to exactly what `e` renders to on its own.
pub proof fn lemma_transport_passes_through(e: BtError)
    ensures
        forall|s: String|
            #[trigger] <Error as FromSpec<BtError>>::from_spec(e).renders_as(s)
                <==> to_string_from_display_ensures::<BtError>(&e, s),
{
}

/// The error met on a poisoned lock renders to one fixed, non-empty message,
/// whatever the guard it came with.
pub proof fn lemma_lock_failure_renders_fixed(r: Error)
    requires
        r.is_client_with(lock_failure_message()),
    ensures
        lock_failure_message().len() > 0,
        forall|s: String| #[trigger] r.renders_as(s) <==> s@ == lock_failure_message(),
{
    reveal_strlit("Asynchronous error. Can not recursively lock mutex.");
}

/// The error met on a passed deadline renders to exactly "Timeout error".
pub proof fn lemma_timeout_renders_fixed(r: Error)
    requires
        r.is_client_with(timeout_message()),
    ensures
        forall|s: String| #[trigger] r.renders_as(s) <==> s@ == "Timeout error"@,
{
}

/// An I/O failure keeps its own text: whatever the error converted from `e`
/// renders to is the display text of `e`.
pub proof fn lemma_io_text_kept(e: IoError, r: Error, s: String)
    requires
        r matches Error::ClientError(m) && to_string_from_display_ensures::<IoError>(&e, m),
        r.renders_as(s),
    ensures
        exists|t: String| #[trigger] to_string_from_display_ensures::<IoError>(&e, t) && t@ == s@,
{
    let m = r->ClientError_0;
    assert(to_string_from_display_ensures::<IoError>(&e, m) && m@ == s@);
}

} // verus!
