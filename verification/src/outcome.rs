//! Normalizing a raw transport reply into the outcome every operation
//! returns: one status-to-outcome rule, shared by the whole library.

use vstd::prelude::*;

use crate::transport::ClientError;
use crate::transport::HttpResponse;

verus! {

/// What one operation call produced: the remote service's raw body, tagged
/// by whether the reported status was success. The body is opaque text on
/// both paths; the library never interprets its structure.
#[derive(Clone, PartialEq, Eq, Debug)]
pub enum Outcome {
    /// The remote status reported success; the body is the raw payload.
    Success(String),
    /// The remote status reported failure; the body is the raw diagnostic
    /// text the service returned.
    Failure(String),
}

/// The mathematical shadow of an `Outcome`: the same tag over the body's
/// character sequence.
pub enum OutcomeModel {
    Success(Seq<char>),
    Failure(Seq<char>),
}

impl View for Outcome {
    type V = OutcomeModel;

    open spec fn view(&self) -> OutcomeModel {
        match self {
            Outcome::Success(body) => OutcomeModel::Success(body@),
            Outcome::Failure(body) => OutcomeModel::Failure(body@),
        }
    }
}

/// The status-to-outcome rule: status 200 is success, any other status is
/// failure, and the body rides along untouched either way.
pub open spec fn normalize_spec(status: u16, body: Seq<char>) -> OutcomeModel {
    if status == 200 {
        OutcomeModel::Success(body)
    } else {
        OutcomeModel::Failure(body)
    }
}

/// What an operation returns for each possible transport reply: a reply
/// with a status is normalized by `normalize_spec`; a transport error is
/// passed through unchanged.
pub open spec fn run_response(reply: Result<(u16, Seq<char>), ClientError>) -> Result<OutcomeModel, ClientError> {
    match reply {
        Ok(p) => Ok(normalize_spec(p.0, p.1)),
        Err(e) => Err(e),
    }
}

/// The model of a finished operation result, for stating the operations'
/// contracts.
pub open spec fn result_model(r: Result<Outcome, ClientError>) -> Result<OutcomeModel, ClientError> {
    match r {
        Ok(outcome) => Ok(outcome@),
        Err(e) => Err(e),
    }
}

/// Classify one raw reply. The body is handed through verbatim on both
/// paths.
pub fn form_response(reply: HttpResponse) -> (outcome: Outcome)
    ensures
        outcome@ == normalize_spec(reply.status, reply.body@),
{
    if reply.status == 200 {
        Outcome::Success(reply.body)
    } else {
        Outcome::Failure(reply.body)
    }
}

/// The status-to-outcome mapping is one rule for every operation: a reply
/// with status 200 yields `Success` carrying the body, a reply with any
/// other status yields `Failure` carrying the body, and a transport error
/// is passed through unchanged.
pub proof fn lemma_uniform_normalization(status: u16, body: Seq<char>, e: ClientError)
    ensures
        status == 200 ==> run_response(Ok((status, body))) == Ok::<OutcomeModel, ClientError>(OutcomeModel::Success(body)),
        status != 200 ==> run_response(Ok((status, body))) == Ok::<OutcomeModel, ClientError>(OutcomeModel::Failure(body)),
        run_response(Err::<(u16, Seq<char>), ClientError>(e)) == Err::<OutcomeModel, ClientError>(e),
{
}

} // verus!
