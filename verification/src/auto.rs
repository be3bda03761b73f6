//! The automatic transport: a composition of two underlying transports.
//!
//! A datagram-style primary transport is fast but may return an answer marked
//! truncated when it did not fit in a single packet; a stream-style secondary
//! transport has no such limit. The automatic transport tries the primary
//! first and switches to the secondary exactly when the primary's answer was
//! truncated — the default behaviour of many DNS clients.
//!
//! The sockets themselves are external collaborators, so one `send` call is
//! driven as a small state machine: the caller performs a primary attempt,
//! hands its outcome to [`AutoTransport::after_primary`], and, only when told
//! to fall back, performs a secondary attempt and hands that outcome to
//! [`AutoTransport::after_secondary`]. The decisions are what this module
//! proves: when the fallback happens, and that every outcome and the request
//! pass through unmodified.

use vstd::prelude::*;

use crate::message::Error;
use crate::message::Request;
use crate::message::Response;

verus! {

/// The automatic transport, which sends a DNS request over the primary
/// transport and retries over the secondary transport when the first answer
/// was truncated.
///
/// It owns no network state: only the destination address, shared with both
/// underlying transports a `send` call constructs. Construction performs no
/// I/O, and nothing carries over from one `send` call to the next.
pub struct AutoTransport {
    addr: String,
}

/// What one `send` call does next, once its primary attempt has returned.
pub enum SendStep<'a> {
    /// The primary answer was truncated: perform one secondary attempt,
    /// with this same request, and let it decide the call.
    Fallback(&'a Request),
    /// The call is decided; no further attempt is made.
    Finished(Result<Response, Error>),
}

/// Whether a primary attempt with this outcome forces the fallback: it does
/// if and only if the attempt succeeded and its response was marked truncated.
pub open spec fn fallback_needed(outcome: Result<Response, Error>) -> bool {
    match outcome {
        Ok(response) => response.flags.truncated,
        Err(_) => false,
    }
}

/// The overall result of one `send` call, as a function of that call's two
/// attempt outcomes: the secondary outcome exactly when the primary one
/// forced the fallback, and the primary outcome otherwise.
pub open spec fn auto_outcome(
    primary: Result<Response, Error>,
    secondary: Result<Response, Error>,
) -> Result<Response, Error> {
    if fallback_needed(primary) {
        secondary
    } else {
        primary
    }
}

impl AutoTransport {
    /// The destination address this transport was constructed with.
    pub closed spec fn address_spec(&self) -> Seq<char> {
        self.addr@
    }

    /// Creates a new automatic transport that connects to the given host.
    pub fn new(addr: String) -> (transport: Self)
        ensures
            transport.address_spec() == addr@,
    {
        AutoTransport { addr }
    }

    /// The stored destination address, to which both underlying transports
    /// of a `send` call are bound.
    pub fn address(&self) -> (addr: &String)
        ensures
            addr@ == self.address_spec(),
    {
        &self.addr
    }

    /// Decides a `send` call after its primary attempt has returned.
    ///
    /// A primary failure decides the call with that same error, and a
    /// non-truncated response decides it with that exact response; in
    /// neither case is a secondary transport ever constructed. Only a
    /// truncated response asks for the fallback, which carries the same
    /// request the primary attempt was given.
    pub fn after_primary<'a>(
        &self,
        request: &'a Request,
        outcome: Result<Response, Error>,
    ) -> (step: SendStep<'a>)
        ensures
            fallback_needed(outcome) ==> step == SendStep::Fallback(request),
            !fallback_needed(outcome) ==> step == SendStep::Finished(outcome),
    {
        match outcome {
            Ok(response) => {
                if response.flags.truncated {
                    SendStep::Fallback(request)
                } else {
                    SendStep::Finished(Ok(response))
                }
            }
            Err(error) => SendStep::Finished(Err(error)),
        }
    }

    /// Decides a `send` call after its secondary attempt has returned.
    ///
    /// The secondary outcome is the call's final result, unmodified: a
    /// failure is propagated, and a response is returned even if it, too,
    /// is marked truncated — two attempts are the hard ceiling, and the
    /// truncated primary response was already discarded.
    pub fn after_secondary(&self, outcome: Result<Response, Error>) -> (result: Result<
        Response,
        Error,
    >)
        ensures
            result == outcome,
    {
        outcome
    }
}

/// If the primary transport returns a non-truncated response, the automatic
/// transport's result is exactly that response, and no fallback occurs —
/// whatever a secondary attempt would have returned.
pub proof fn lemma_primary_response_is_final(
    response: Response,
    secondary: Result<Response, Error>,
)
    requires
        !response.flags.truncated,
    ensures
        !fallback_needed(Ok(response)),
        auto_outcome(Ok(response), secondary) == Ok::<Response, Error>(response),
{
}

/// If the primary transport fails, the automatic transport fails with that
/// same error, and no fallback occurs — whatever a secondary attempt would
/// have returned.
pub proof fn lemma_primary_error_is_final(error: Error, secondary: Result<Response, Error>)
    ensures
        !fallback_needed(Err(error)),
        auto_outcome(Err(error), secondary) == Err::<Response, Error>(error),
{
}

/// If the primary transport returns a truncated response, the automatic
/// transport's result is the secondary attempt's outcome, success or error,
/// unmodified.
pub proof fn lemma_truncated_takes_secondary(
    response: Response,
    secondary: Result<Response, Error>,
)
    requires
        response.flags.truncated,
    ensures
        fallback_needed(Ok(response)),
        auto_outcome(Ok(response), secondary) == secondary,
{
}

/// If the primary response was truncated and the secondary attempt then
/// fails, that failure is the final result: the truncated primary response
/// is discarded, never returned.
pub proof fn lemma_truncated_then_secondary_error(response: Response, error: Error)
    requires
        response.flags.truncated,
    ensures
        auto_outcome(Ok(response), Err(error)) == Err::<Response, Error>(error),
{
}

/// Successive `send` calls on one transport are independent: whether a call
/// falls back, and what it returns, are functions of that call's own attempt
/// outcomes alone, so a later call given the same outcomes decides the same
/// way, whatever any earlier call saw.
pub proof fn lemma_calls_independent(
    earlier_primary: Result<Response, Error>,
    earlier_secondary: Result<Response, Error>,
    later_primary: Result<Response, Error>,
    later_secondary: Result<Response, Error>,
)
    requires
        later_primary == earlier_primary,
        later_secondary == earlier_secondary,
    ensures
        fallback_needed(later_primary) == fallback_needed(earlier_primary),
        auto_outcome(later_primary, later_secondary) == auto_outcome(
            earlier_primary,
            earlier_secondary,
        ),
{
}

} // verus!
