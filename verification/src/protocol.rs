//! Plain-value model of the tracker protocol messages the session engine
//! reads and writes.
//!
//! The wire codec (serde-based, outside this crate) produces and consumes
//! the real protocol types; the boundary code converts them one-for-one
//! into these records, which carry exactly the fields the state machine
//! touches.

use vstd::prelude::*;
use vstd::string::StringExecFns;

verus! {

/// A fixed-width, effectively unique peer identifier.
#[derive(Clone, Copy, PartialEq, Eq, Debug)]
pub struct PeerId(pub [u8; 20]);

/// The opaque key of the shared resource (swarm) a peer is interested in.
#[derive(Clone, Copy, PartialEq, Eq, Debug)]
pub struct InfoHash(pub [u8; 20]);

/// Identifies one relayed offer within a swarm.
#[derive(Clone, Copy, PartialEq, Eq, Debug)]
pub struct OfferId(pub [u8; 20]);

/// Liveness event an announce request may declare.
#[derive(Clone, Copy, PartialEq, Eq, Debug)]
pub enum AnnounceEvent {
    Started,
    Stopped,
    Completed,
    Update,
}

/// One offer advertised by an announce request: an offer identifier plus a
/// session-description payload relayed verbatim by the tracker.
#[derive(Clone, PartialEq, Eq, Debug)]
pub struct RtcOffer {
    pub offer_id: OfferId,
    pub sdp: String,
}

/// The session-description payload of an answer, relayed verbatim.
#[derive(Clone, PartialEq, Eq, Debug)]
pub struct RtcAnswer {
    pub sdp: String,
}

/// An announce request, which either advertises fresh offers or answers a
/// previously relayed one (the two roles use disjoint optional fields).
#[derive(Clone, PartialEq, Eq, Debug)]
pub struct AnnounceRequest {
    pub info_hash: InfoHash,
    pub peer_id: PeerId,
    pub event: Option<AnnounceEvent>,
    pub offers: Option<Vec<RtcOffer>>,
    pub answer: Option<RtcAnswer>,
    pub answer_to_peer_id: Option<PeerId>,
    pub answer_offer_id: Option<OfferId>,
}

/// A scrape request; the engine forwards it untouched.
#[derive(Clone, PartialEq, Eq, Debug)]
pub struct ScrapeRequest {
    pub info_hashes: Vec<InfoHash>,
}

/// An outbound (client-to-tracker) message, as handed to the engine by the
/// request generator.
#[derive(Clone, PartialEq, Eq, Debug)]
pub enum InMessage {
    AnnounceRequest(AnnounceRequest),
    ScrapeRequest(ScrapeRequest),
}

/// An offer relayed to this session from some remote peer.
#[derive(Clone, Copy, PartialEq, Eq, Debug)]
pub struct OfferNotice {
    pub info_hash: InfoHash,
    pub peer_id: PeerId,
    pub offer_id: OfferId,
}

/// An error response; the reason is only logged, never interpreted.
#[derive(Clone, PartialEq, Eq, Debug)]
pub struct ErrorResponse {
    pub failure_reason: String,
}

/// An inbound (tracker-to-client) message, after decoding. Payloads the
/// engine never reads are left out of the model.
#[derive(Clone, PartialEq, Eq, Debug)]
pub enum OutMessage {
    Offer(OfferNotice),
    Answer,
    AnnounceResponse,
    ScrapeResponse,
    Error(ErrorResponse),
}

/// The fixed placeholder session description attached to every answer this
/// client sends (it never negotiates a real peer connection).
pub open spec fn placeholder_answer_sdp() -> Seq<char> {
    "abcdefg-abcdefg-abcdefg-abcdefg-abcdefg-abcdefg-abcdefg-abcdefg-abcdefg-abcdefg-abcdefg-abcdefg-abcdefg-abcdefg-abcdefg-"@
}

/// Builds the placeholder answer payload.
pub fn placeholder_answer() -> (r: RtcAnswer)
    ensures
        r.sdp@ == placeholder_answer_sdp(),
{
    RtcAnswer {
        sdp: String::from_str(
            "abcdefg-abcdefg-abcdefg-abcdefg-abcdefg-abcdefg-abcdefg-abcdefg-abcdefg-abcdefg-abcdefg-abcdefg-abcdefg-abcdefg-abcdefg-",
        ),
    }
}

} // verus!
