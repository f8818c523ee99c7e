//! Properties of the session protocol that relate several operations,
//! stated and proved over the handle's mathematical model.

use vstd::prelude::*;

use crate::codes::c_safe;
use crate::codes::code_of;
use crate::codes::error_message;
use crate::codes::lemma_placeholder_message;
use crate::codes::placeholder_message;
use crate::codes::ClientError;
use crate::codes::ShimResult;
use crate::session::negotiated_model;
use crate::session::nonce_spec_model;
use crate::session::no_session_message;
use crate::session::stub_model;
use crate::session::submit_err_model;
use crate::session::submit_invokes_client;
use crate::session::submit_ok_model;
use crate::session::Negotiation;
use crate::session::NonceSpec;
use crate::session::SessionModel;
use crate::session::ShimChallengeResponseSession;

verus! {

/// A failed open never passes for a success: its code is one of the error
/// codes, and the handle it yields is a stub — no client, empty endpoint,
/// nonce and media-type list, and a boundary-safe diagnostic that is
/// non-empty whenever the client's error carried any text at all.
pub proof fn lemma_failed_open_stub(e: ClientError)
    ensures
        code_of(e) != ShimResult::Success,
        !stub_model(e).client_present,
        stub_model(e).session_url.len() == 0,
        stub_model(e).nonce.len() == 0,
        stub_model(e).accept_types.len() == 0,
        stub_model(e).attestation_result.len() == 0,
        c_safe(stub_model(e).message),
        error_message(e).len() > 0 ==> stub_model(e).message.len() > 0,
{
    lemma_placeholder_message();
}

/// A successful open exposes exactly what the negotiation handed back: the
/// handle's endpoint, nonce and media-type list are the negotiated ones,
/// readable for exactly their lengths, and no stale result or diagnostic is
/// carried in.
pub proof fn lemma_successful_open_fields(n: Negotiation)
    ensures
        negotiated_model(n).client_present,
        negotiated_model(n).session_url == n.session_url@,
        negotiated_model(n).nonce == n.nonce@,
        negotiated_model(n).nonce.len() == n.nonce@.len(),
        negotiated_model(n).accept_types.len() == n.accept_types@.len(),
        forall|i: int|
            0 <= i < n.accept_types@.len() ==> negotiated_model(n).accept_types[i]
                == #[trigger] n.accept_types@[i]@,
        negotiated_model(n).attestation_result.len() == 0,
        negotiated_model(n).message.len() == 0,
{
}

/// Reading is idempotent: between one mutating operation and the next the
/// handle is unchanged — exclusive borrowing gives the mutating operations
/// the only access — so any two reads of its fields in that span observe the
/// same model, hence identical byte content.
pub proof fn lemma_reads_idempotent(
    session: &ShimChallengeResponseSession,
    first: SessionModel,
    second: SessionModel,
)
    requires
        first == session@,
        second == session@,
    ensures
        first == second,
{
}

/// Submitting evidence on a stub handle never invokes the client: the
/// decision on a handle without a client is to refuse, and applying the
/// refusal yields `ConfigError` and exactly the fixed diagnostic, whatever
/// the stub held before.
pub proof fn lemma_stub_submit_refused(e: ClientError, refusal: ClientError)
    requires
        code_of(refusal) == ShimResult::ConfigError,
        error_message(refusal) == no_session_message(),
    ensures
        !submit_invokes_client(stub_model(e)),
        submit_err_model(stub_model(e), refusal).0 == ShimResult::ConfigError,
        submit_err_model(stub_model(e), refusal).1.message == no_session_message(),
{
    crate::session::lemma_no_session_message();
}

/// One submission changes one field: a successful outcome stores the
/// attestation result and leaves the diagnostic (and everything else) at its
/// prior value; a failed outcome stores the translated diagnostic and leaves
/// the attestation result (and everything else) at its prior value.
pub proof fn lemma_submit_changes_one_field(s: SessionModel, attestation: Seq<u8>, e: ClientError)
    ensures
        submit_ok_model(s, attestation).0 == ShimResult::Success,
        submit_ok_model(s, attestation).1.attestation_result == attestation,
        submit_ok_model(s, attestation).1.message == s.message,
        submit_ok_model(s, attestation).1.session_url == s.session_url,
        submit_ok_model(s, attestation).1.nonce == s.nonce,
        submit_ok_model(s, attestation).1.accept_types == s.accept_types,
        submit_ok_model(s, attestation).1.client_present == s.client_present,
        submit_err_model(s, e).0 == code_of(e),
        submit_err_model(s, e).0 != ShimResult::Success,
        c_safe(error_message(e)) ==> submit_err_model(s, e).1.message == error_message(e),
        !c_safe(error_message(e)) ==> submit_err_model(s, e).1.message == placeholder_message(),
        submit_err_model(s, e).1.attestation_result == s.attestation_result,
        submit_err_model(s, e).1.session_url == s.session_url,
        submit_err_model(s, e).1.nonce == s.nonce,
        submit_err_model(s, e).1.accept_types == s.accept_types,
        submit_err_model(s, e).1.client_present == s.client_present,
{
}

/// Error translation is uniform: for the same client error, a failed open
/// and a failed submission return the same boundary code and leave the same
/// boundary-safe diagnostic on the handle, whatever the handle held before.
pub proof fn lemma_uniform_translation(s: SessionModel, e: ClientError)
    ensures
        submit_err_model(s, e).0 == code_of(e),
        submit_err_model(s, e).1.message == stub_model(e).message,
{
}

/// Round trip of a caller-supplied nonce: supplying a byte buffer selects
/// the caller-supplied nonce, and when the client echoes that nonce
/// unchanged in the negotiation, the opened handle exposes exactly the bytes
/// the caller supplied.
pub proof fn lemma_nonce_round_trip(nonce_size: usize, bytes: Vec<u8>, n: Negotiation)
    requires
        n.nonce@ == bytes@,
    ensures
        nonce_spec_model(nonce_size, Some(bytes)) == NonceSpec::CallerSupplied(bytes),
        negotiated_model(n).nonce == bytes@,
{
}

} // verus!
