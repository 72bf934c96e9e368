//! The opening of the peer-negotiation handshake of the media relay: who
//! may start it, and with what.
//!
//! The negotiation itself is the relay's business. What is decided here is
//! whether a request gets that far: it has to be an offer, and it has to
//! come from a client that has a session.

use crate::state::AppState;
use vstd::prelude::*;
use vstd::string::StringExecFns;

verus! {

/// A request to negotiate a media connection.
#[derive(Debug)]
pub struct SdpRequest {
    pub client_id: String,
    /// The session description that the client proposes.
    pub sdp: String,
    /// The kind of description; only an offer opens a negotiation.
    pub sdp_type: String,
}

/// The relay's side of a negotiation.
#[derive(Debug)]
pub struct SdpResponse {
    pub sdp_type: String,
    pub sdp: String,
    pub client_id: String,
}

/// Why a request does not open a negotiation.
#[derive(Copy, Clone, Debug, PartialEq, Eq, Structural)]
pub enum SdpError {
    /// The description is not an offer.
    NotAnOffer,
    /// The client that asks has no session.
    SessionNotFound,
}

/// `text` in lower case, as Unicode defines it.
pub uninterp spec fn lowercase(text: Seq<char>) -> Seq<char>;

/// Lowers `text` with `str::to_lowercase`, which maps each character to its
/// Unicode lower case. The contract names the result.
#[verifier::external_body]
fn to_lowercase(text: &str) -> (lowered: String)
    ensures
        lowered@ == lowercase(text@),
{
    text.to_lowercase()
}

/// The word that marks an offer.
pub open spec fn offer_word() -> Seq<char> {
    seq!['o', 'f', 'f', 'e', 'r']
}

/// Whether `sdp_type` names an offer: it reads `offer`, in any mix of
/// upper and lower case.
pub open spec fn is_offer(sdp_type: Seq<char>) -> bool {
    lowercase(sdp_type) == offer_word()
}

/// The answer to a request whose kind reads `lowered_type` in lower case,
/// from a client that has a session or not. The kind is looked at first.
pub open spec fn offer_answer(lowered_type: Seq<char>, has_session: bool) -> Result<(), SdpError> {
    if lowered_type != offer_word() {
        Err(SdpError::NotAnOffer)
    } else if !has_session {
        Err(SdpError::SessionNotFound)
    } else {
        Ok(())
    }
}

/// Decides whether a request opens a negotiation, given its kind in lower
/// case and whether its client has a session: see [`offer_answer`].
pub fn check_lowered_offer(lowered_type: &String, has_session: bool) -> (answer: Result<
    (),
    SdpError,
>)
    ensures
        answer == offer_answer(lowered_type@, has_session),
{
    proof {
        reveal_strlit("offer");
    }
    let offer = String::from_str("offer");
    assert(offer@ =~= offer_word());
    if !(*lowered_type == offer) {
        Err(SdpError::NotAnOffer)
    } else if !has_session {
        Err(SdpError::SessionNotFound)
    } else {
        Ok(())
    }
}

/// Decides whether `request` opens a negotiation: it has to be an offer,
/// and its client has to have a session. A request that fails on both
/// counts is answered as not an offer.
pub fn check_sdp_offer(state: &AppState, request: &SdpRequest) -> (answer: Result<(), SdpError>)
    requires
        state.wf(),
    ensures
        answer == (if !is_offer(request.sdp_type@) {
            Err::<(), SdpError>(SdpError::NotAnOffer)
        } else if !state@.users.dom().contains(request.client_id@) {
            Err::<(), SdpError>(SdpError::SessionNotFound)
        } else {
            Ok::<(), SdpError>(())
        }),
{
    let lowered = to_lowercase(request.sdp_type.as_str());
    let has_session = state.get_user(request.client_id.as_str()).is_some();
    check_lowered_offer(&lowered, has_session)
}

} // verus!
