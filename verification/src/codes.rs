//! Boundary result codes, the attestation client's error taxonomy, and the
//! translation of client errors into boundary-safe diagnostics.

use vstd::prelude::*;
use vstd::slice::slice_to_vec;
use vstd::string::StrSliceExecFns;
use vstd::string::StringSliceAdditionalSpecFns;

verus! {

/// Result code handed across the boundary for every operation; a closed,
/// fixed enumeration mirroring the attestation client's error taxonomy.
#[derive(Clone, Copy, PartialEq, Eq, Structural, Debug)]
pub enum ShimResult {
    Success,
    ConfigError,
    ApiError,
    CallbackError,
    NotImplementedError,
}

/// The attestation client's error classification, with each variant carrying
/// the client's diagnostic text as bytes.
#[derive(Debug)]
pub enum ClientError {
    ConfigError(Vec<u8>),
    ApiError(Vec<u8>),
    CallbackError(Vec<u8>),
    NotImplementedError(Vec<u8>),
}

/// A byte buffer is boundary-safe when it holds no NUL byte, so that it can
/// back a NUL-terminated string without truncation.
pub open spec fn c_safe(b: Seq<u8>) -> bool {
    forall|i: int| 0 <= i < b.len() ==> b[i] != 0
}

/// The boundary code that a client error translates to.
pub open spec fn code_of(e: ClientError) -> ShimResult {
    match e {
        ClientError::ConfigError(_) => ShimResult::ConfigError,
        ClientError::ApiError(_) => ShimResult::ApiError,
        ClientError::CallbackError(_) => ShimResult::CallbackError,
        ClientError::NotImplementedError(_) => ShimResult::NotImplementedError,
    }
}

/// The diagnostic text carried by a client error.
pub open spec fn error_message(e: ClientError) -> Seq<u8> {
    match e {
        ClientError::ConfigError(m) => m@,
        ClientError::ApiError(m) => m@,
        ClientError::CallbackError(m) => m@,
        ClientError::NotImplementedError(m) => m@,
    }
}

/// Fixed placeholder substituted for a diagnostic text that cannot be
/// represented at the boundary.
pub open spec fn placeholder_message() -> Seq<u8> {
    "diagnostic message unavailable".spec_bytes()
}

/// What a diagnostic text becomes at the boundary: itself when it is
/// boundary-safe, the fixed placeholder otherwise. Translation never fails.
pub open spec fn boundary_message(m: Seq<u8>) -> Seq<u8> {
    if c_safe(m) {
        m
    } else {
        placeholder_message()
    }
}

/// Decide whether a byte buffer is boundary-safe.
pub fn bytes_c_safe(v: &Vec<u8>) -> (r: bool)
    ensures
        r == c_safe(v@),
{
    let mut i: usize = 0;
    while i < v.len()
        invariant
            i <= v@.len(),
            forall|j: int| 0 <= j < i ==> v@[j] != 0,
        decreases v@.len() - i,
    {
        if v[i] == 0 {
            assert(!c_safe(v@)) by {
                assert(v@[i as int] == 0);
            }
            return false;
        }
        i = i + 1;
    }
    true
}

/// Map a client error to its boundary code and a boundary-safe copy of its
/// diagnostic text; an unrepresentable text is replaced by the fixed
/// placeholder rather than failing.
pub fn translate_error(e: &ClientError) -> (r: (ShimResult, Vec<u8>))
    ensures
        r.0 == code_of(*e),
        r.1@ == boundary_message(error_message(*e)),
        c_safe(r.1@),
{
    let code: ShimResult = match e {
        ClientError::ConfigError(_) => ShimResult::ConfigError,
        ClientError::ApiError(_) => ShimResult::ApiError,
        ClientError::CallbackError(_) => ShimResult::CallbackError,
        ClientError::NotImplementedError(_) => ShimResult::NotImplementedError,
    };
    let msg: &Vec<u8> = match e {
        ClientError::ConfigError(m) => m,
        ClientError::ApiError(m) => m,
        ClientError::CallbackError(m) => m,
        ClientError::NotImplementedError(m) => m,
    };
    let text: Vec<u8> = if bytes_c_safe(msg) {
        slice_to_vec(msg.as_slice())
    } else {
        placeholder_message_bytes()
    };
    (code, text)
}

/// The fixed placeholder is itself boundary-safe and never empty.
pub proof fn lemma_placeholder_message()
    ensures
        c_safe(placeholder_message()),
        placeholder_message().len() > 0,
{
    let text = "diagnostic message unavailable";
    reveal_strlit("diagnostic message unavailable");
    assert(text.is_ascii());
    vstd::string::is_ascii_spec_bytes(text);
}

/// Build the fixed placeholder text.
fn placeholder_message_bytes() -> (v: Vec<u8>)
    ensures
        v@ == placeholder_message(),
        c_safe(v@),
{
    let text = "diagnostic message unavailable";
    proof {
        lemma_placeholder_message();
    }
    text.as_bytes_vec()
}

} // verus!
