//! The attestation session handle: its owned state, how it is built from a
//! successful negotiation or from a failure, how an evidence submission
//! changes it, and how it is released.

use vstd::prelude::*;
use vstd::string::StrSliceExecFns;
use vstd::string::StringSliceAdditionalSpecFns;

use crate::codes::boundary_message;
use crate::codes::c_safe;
use crate::codes::code_of;
use crate::codes::error_message;
use crate::codes::translate_error;
use crate::codes::ClientError;
use crate::codes::ShimResult;

verus! {

/// The caller's choice of nonce for a new session: either a request for a
/// server-generated nonce of a given size (size zero defers the size choice
/// to the server as well), or a literal nonce value supplied by the caller.
#[derive(Debug)]
pub enum NonceSpec {
    ServerSized(usize),
    CallerSupplied(Vec<u8>),
}

/// The nonce choice that a size and an optional byte buffer select: no
/// buffer requests a server-generated nonce of the given size, a buffer
/// supplies the nonce itself — even when the buffer is empty.
pub open spec fn nonce_spec_model(nonce_size: usize, nonce: Option<Vec<u8>>) -> NonceSpec {
    match nonce {
        Option::None => NonceSpec::ServerSized(nonce_size),
        Option::Some(b) => NonceSpec::CallerSupplied(b),
    }
}

impl NonceSpec {
    /// Build the nonce choice from the boundary's two parameters, where the
    /// absence of a buffer plays the role of a variant discriminant.
    pub fn from_parts(nonce_size: usize, nonce: Option<Vec<u8>>) -> (s: Self)
        ensures
            s == nonce_spec_model(nonce_size, nonce),
    {
        match nonce {
            Option::None => NonceSpec::ServerSized(nonce_size),
            Option::Some(b) => NonceSpec::CallerSupplied(b),
        }
    }
}

/// What a successful session negotiation hands back: the negotiated session
/// endpoint, the nonce in effect (caller-supplied or server-generated), and
/// the evidence media types the server accepts.
pub struct Negotiation {
    pub session_url: Vec<u8>,
    pub nonce: Vec<u8>,
    pub accept_types: Vec<Vec<u8>>,
}

/// A negotiation whose texts can back NUL-terminated strings.
pub open spec fn negotiation_c_safe(n: Negotiation) -> bool {
    &&& c_safe(n.session_url@)
    &&& forall|i: int| 0 <= i < n.accept_types@.len() ==> c_safe(#[trigger] n.accept_types@[i]@)
}

/// The owned state behind one session handle. Foreign callers never see it
/// directly: they see a flat projection of these buffers, rebuilt outside
/// this crate whenever a buffer here is replaced.
pub struct ShimChallengeResponseSession {
    /// Whether the attestation client is attached; absent on a stub handle
    /// built from a failed open. The client object itself lives with the
    /// unverified glue that performs the network calls.
    pub client_present: bool,
    pub session_url: Vec<u8>,
    pub nonce: Vec<u8>,
    pub accept_types: Vec<Vec<u8>>,
    pub attestation_result: Vec<u8>,
    pub message: Vec<u8>,
}

/// The mathematical content of a session handle.
#[verifier::ext_equal]
pub struct SessionModel {
    pub client_present: bool,
    pub session_url: Seq<u8>,
    pub nonce: Seq<u8>,
    pub accept_types: Seq<Seq<u8>>,
    pub attestation_result: Seq<u8>,
    pub message: Seq<u8>,
}

impl View for ShimChallengeResponseSession {
    type V = SessionModel;

    open spec fn view(&self) -> SessionModel {
        SessionModel {
            client_present: self.client_present,
            session_url: self.session_url@,
            nonce: self.nonce@,
            accept_types: self.accept_types.deep_view(),
            attestation_result: self.attestation_result@,
            message: self.message@,
        }
    }
}

impl ShimChallengeResponseSession {
    /// Every text buffer of the session can back a NUL-terminated string.
    pub open spec fn wf(&self) -> bool {
        &&& c_safe(self@.session_url)
        &&& forall|i: int|
            0 <= i < self@.accept_types.len() ==> c_safe(#[trigger] self@.accept_types[i])
        &&& c_safe(self@.attestation_result)
        &&& c_safe(self@.message)
    }
}

/// The handle that a failed open yields: no client, every buffer empty but
/// for the diagnostic carried over from the error.
pub open spec fn stub_model(e: ClientError) -> SessionModel {
    SessionModel {
        client_present: false,
        session_url: Seq::empty(),
        nonce: Seq::empty(),
        accept_types: Seq::empty(),
        attestation_result: Seq::empty(),
        message: boundary_message(error_message(e)),
    }
}

/// The handle that a successful open yields: the client attached, the
/// negotiated fields populated, no attestation result and no diagnostic yet.
pub open spec fn negotiated_model(n: Negotiation) -> SessionModel {
    SessionModel {
        client_present: true,
        session_url: n.session_url@,
        nonce: n.nonce@,
        accept_types: n.accept_types.deep_view(),
        attestation_result: Seq::empty(),
        message: Seq::empty(),
    }
}

/// Build the stub handle for a failed open: the error is translated, its
/// boundary code returned, and the handle carries only the diagnostic. The
/// stub is a fully valid handle: it can be submitted against (which fails
/// cleanly) and released without special cases.
pub fn stub_session_from_error(e: &ClientError) -> (r: (ShimResult, ShimChallengeResponseSession))
    ensures
        r.0 == code_of(*e),
        r.1@ =~= stub_model(*e),
        r.1.wf(),
{
    let (code, text) = translate_error(e);
    let session = ShimChallengeResponseSession {
        client_present: false,
        session_url: Vec::new(),
        nonce: Vec::new(),
        accept_types: Vec::new(),
        attestation_result: Vec::new(),
        message: text,
    };
    (code, session)
}

/// Opener: turn the outcome of driving the client through construction and
/// session negotiation into a handle. A successful negotiation yields a
/// success code and a fully populated handle; a failure at either step
/// yields the translated code and a stub handle that is still valid for
/// submission and release.
pub fn open_challenge_response_session(outcome: Result<Negotiation, ClientError>) -> (r: (
    ShimResult,
    ShimChallengeResponseSession,
))
    requires
        outcome matches Ok(n) ==> negotiation_c_safe(n),
    ensures
        r.1.wf(),
        match outcome {
            Ok(n) => r.0 == ShimResult::Success && r.1@ =~= negotiated_model(n),
            Err(e) => r.0 == code_of(e) && r.1@ =~= stub_model(e),
        },
{
    match outcome {
        Ok(n) => {
            let session = ShimChallengeResponseSession {
                client_present: true,
                session_url: n.session_url,
                nonce: n.nonce,
                accept_types: n.accept_types,
                attestation_result: Vec::new(),
                message: Vec::new(),
            };
            (ShimResult::Success, session)
        },
        Err(e) => stub_session_from_error(&e),
    }
}

/// What the submitter must do with a handle before any external call is
/// made: invoke the client only when one is attached.
#[derive(Clone, Copy, PartialEq, Eq, Structural, Debug)]
pub enum SubmitAction {
    CallClient,
    Refuse,
}

/// Whether submitting evidence on a handle in this state invokes the client.
pub open spec fn submit_invokes_client(s: SessionModel) -> bool {
    s.client_present
}

/// Decide whether an evidence submission may call the client: a handle
/// without a client — the stub of a failed open — is refused before any
/// external call.
pub fn challenge_response_action(session: &ShimChallengeResponseSession) -> (a: SubmitAction)
    ensures
        a == SubmitAction::CallClient <==> submit_invokes_client(session@),
{
    if session.client_present {
        SubmitAction::CallClient
    } else {
        SubmitAction::Refuse
    }
}

/// The fixed diagnostic for an evidence submission on a handle that has no
/// session endpoint.
pub open spec fn no_session_message() -> Seq<u8> {
    "Cannot supply evidence because there is no session endpoint.".spec_bytes()
}

/// The fixed diagnostic is itself boundary-safe and never empty.
pub proof fn lemma_no_session_message()
    ensures
        c_safe(no_session_message()),
        no_session_message().len() > 0,
{
    let text = "Cannot supply evidence because there is no session endpoint.";
    reveal_strlit("Cannot supply evidence because there is no session endpoint.");
    assert(text.is_ascii());
    vstd::string::is_ascii_spec_bytes(text);
}

/// The error with which a submission on a client-less handle is refused.
pub fn no_session_error() -> (e: ClientError)
    ensures
        code_of(e) == ShimResult::ConfigError,
        error_message(e) == no_session_message(),
        c_safe(no_session_message()),
        no_session_message().len() > 0,
{
    let text = "Cannot supply evidence because there is no session endpoint.";
    proof {
        lemma_no_session_message();
    }
    ClientError::ConfigError(text.as_bytes_vec())
}

/// A successful submission stores the attestation result and leaves every
/// other field — the diagnostic included — at its prior value.
pub open spec fn submit_ok_model(s: SessionModel, attestation: Seq<u8>) -> (ShimResult, SessionModel) {
    (ShimResult::Success, SessionModel { attestation_result: attestation, ..s })
}

/// A failed submission stores the translated diagnostic and leaves every
/// other field — the attestation result included — at its prior value.
pub open spec fn submit_err_model(s: SessionModel, e: ClientError) -> (ShimResult, SessionModel) {
    (code_of(e), SessionModel { message: boundary_message(error_message(e)), ..s })
}

/// Submitter: apply the outcome of an evidence submission to the handle in
/// place. The outcome is either the client's attestation result, the
/// client's error, or — when the decision was not to call the client — the
/// refusal error carrying the fixed diagnostic.
pub fn challenge_response(
    session: &mut ShimChallengeResponseSession,
    client_result: Result<Vec<u8>, ClientError>,
) -> (r: ShimResult)
    requires
        old(session).wf(),
        client_result matches Ok(a) ==> c_safe(a@),
    ensures
        final(session).wf(),
        match client_result {
            Ok(a) => {
                &&& r == submit_ok_model(old(session)@, a@).0
                &&& final(session)@ =~= submit_ok_model(old(session)@, a@).1
            },
            Err(e) => {
                &&& r == submit_err_model(old(session)@, e).0
                &&& final(session)@ =~= submit_err_model(old(session)@, e).1
            },
        },
{
    match client_result {
        Ok(attestation) => {
            session.attestation_result = attestation;
            ShimResult::Success
        },
        Err(e) => {
            let (code, text) = translate_error(&e);
            session.message = text;
            code
        },
    }
}

/// Releaser: consume the handle, letting every owned buffer be deallocated.
/// This is the sole destructor of a handle and must be called exactly once;
/// after it, no other operation may see the handle again.
pub fn free_challenge_response_session(session: ShimChallengeResponseSession) {
    let _ = session;
}

} // verus!
