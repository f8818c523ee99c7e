//! Core of a foreign-function bridge around an attestation
//! challenge-response client.
//!
//! The bridge presents one attestation session as a handle: an owned session
//! state holding the negotiated endpoint, the nonce in effect, the accepted
//! evidence media types, and the most recent attestation result and
//! diagnostic message. This crate holds the verified session logic — how a
//! handle is built from a session negotiation or from a failure, how an
//! evidence submission changes it, and how client errors translate into
//! boundary codes and boundary-safe diagnostics. The raw-pointer view handed
//! to foreign callers, and the network calls of the attestation client
//! itself, live outside it.

pub mod codes;
pub mod laws;
pub mod session;

pub use codes::ClientError;
pub use codes::ShimResult;
pub use session::Negotiation;
pub use session::NonceSpec;
pub use session::ShimChallengeResponseSession;
pub use session::SubmitAction;
