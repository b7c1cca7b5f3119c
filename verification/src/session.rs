//! The per-connection session engine: the alternating send/receive state
//! machine, the single pending-offer slot, and the bookkeeping done when a
//! session goes live or tears down.
//!
//! The transport itself (connect, TLS, protocol upgrade, frame I/O) is
//! driven outside this crate; the driver hands each decoded read outcome to
//! [`Session::handle_read_event`] and each generated candidate request to
//! [`Session::prepare_request`], and performs the writes itself.

use vstd::prelude::*;

use crate::protocol::{
    placeholder_answer, placeholder_answer_sdp, AnnounceRequest, InMessage, InfoHash, OfferId,
    OutMessage, PeerId,
};
use crate::rng::{fill_peer_id_bytes, rng_from_seed};
use crate::stats::{ResponseKind, Statistics};
use rand::rngs::SmallRng;

verus! {

/// The tuple remembered for the most recent unanswered offer:
/// (swarm, remote peer, offer identifier).
pub type PendingOffer = (InfoHash, PeerId, OfferId);

/// Whether the session survives the step it just took.
#[derive(Clone, Copy, PartialEq, Eq, Debug)]
pub enum SessionStatus {
    Continue,
    Failed,
}

/// What one read of the transport produced, after the boundary code has
/// sorted frames and run the codec.
pub enum ReadEvent {
    /// A text or binary frame that decoded into a protocol message.
    Decoded(OutMessage),
    /// A text or binary frame the codec rejected.
    DecodeFailed,
    /// A frame of some other kind (ping, pong, close, ...).
    UnexpectedFrameKind,
    /// The stream ended cleanly.
    StreamEnded,
    /// The stream failed.
    TransportError,
}

/// The decision a read step yields: whether to keep looping, and which
/// response counter (if any) the event feeds.
pub struct ReadStep {
    pub status: SessionStatus,
    pub counted: Option<ResponseKind>,
}

/// The response counter an event feeds: decode failures and unexpected
/// frame kinds feed none, every decoded message exactly one.
pub open spec fn dispatch_counted(event: ReadEvent) -> Option<ResponseKind> {
    match event {
        ReadEvent::Decoded(m) => match m {
            OutMessage::Offer(_) => Some(ResponseKind::Offer),
            OutMessage::Answer => Some(ResponseKind::Answer),
            OutMessage::AnnounceResponse => Some(ResponseKind::Announce),
            OutMessage::ScrapeResponse => Some(ResponseKind::Scrape),
            OutMessage::Error(_) => Some(ResponseKind::Error),
        },
        _ => None,
    }
}

/// Whether the session survives the event: only the end of the stream and a
/// transport failure are fatal; everything else continues the loop.
pub open spec fn dispatch_status(event: ReadEvent) -> SessionStatus {
    match event {
        ReadEvent::StreamEnded => SessionStatus::Failed,
        ReadEvent::TransportError => SessionStatus::Failed,
        _ => SessionStatus::Continue,
    }
}

/// The pending-offer slot after the event: an offer notice overwrites it
/// unconditionally, every other event leaves it alone.
pub open spec fn dispatch_pending(
    event: ReadEvent,
    pending: Option<PendingOffer>,
) -> Option<PendingOffer> {
    match event {
        ReadEvent::Decoded(m) => match m {
            OutMessage::Offer(o) => Some((o.info_hash, o.peer_id, o.offer_id)),
            _ => pending,
        },
        _ => pending,
    }
}

/// One live session: its identity, its random generator (handed to the
/// request generator outside this crate), and the pending-offer slot.
pub struct Session {
    pub rng: SmallRng,
    pub peer_id: PeerId,
    pub pending_offer: Option<PendingOffer>,
}

impl Session {
    /// A fresh session identity from seed bytes the caller drew (each
    /// session is seeded independently): a generator built from them, a
    /// random peer identifier drawn from it, and an empty pending-offer
    /// slot.
    pub fn new(seed: [u8; 32]) -> (r: Session)
        ensures
            r.pending_offer is None,
    {
        let mut rng = rng_from_seed(seed);
        let peer_id = PeerId(fill_peer_id_bytes(&mut rng));
        Session { rng, peer_id, pending_offer: None }
    }

    /// The flag handed to the request generator: true when no offer is
    /// waiting to be answered.
    pub fn lacks_pending_offer(&self) -> (r: bool)
        ensures
            r == (self.pending_offer is None),
    {
        self.pending_offer.is_none()
    }

    /// The send half of the loop, up to the write itself.
    ///
    /// If an offer is pending and the candidate is announce-shaped, the
    /// candidate is rewritten into an answer to that offer: the pending
    /// offer's swarm, peer and offer identifiers are copied in, the fixed
    /// placeholder payload is attached, and the event and offers fields are
    /// dropped (an answer declares neither). Any other candidate passes
    /// through unchanged. Either way the pending offer survives exactly this
    /// one send step: the slot is empty afterwards.
    pub fn prepare_request(&mut self, candidate: InMessage) -> (r: InMessage)
        ensures
            final(self).pending_offer is None,
            final(self).peer_id == old(self).peer_id,
            final(self).rng == old(self).rng,
            match (old(self).pending_offer, candidate) {
                (Some(p), InMessage::AnnounceRequest(a)) => {
                    &&& r matches InMessage::AnnounceRequest(out)
                    &&& out.info_hash == p.0
                    &&& out.peer_id == a.peer_id
                    &&& out.event is None
                    &&& out.offers is None
                    &&& (out.answer matches Some(ans) && ans.sdp@ == placeholder_answer_sdp())
                    &&& out.answer_to_peer_id == Some(p.1)
                    &&& out.answer_offer_id == Some(p.2)
                },
                (_, c) => r == c,
            },
    {
        let pending = self.pending_offer;
        self.pending_offer = None;
        match candidate {
            InMessage::AnnounceRequest(a) => match pending {
                Some((info_hash, remote_peer_id, offer_id)) => InMessage::AnnounceRequest(
                    AnnounceRequest {
                        info_hash,
                        peer_id: a.peer_id,
                        event: None,
                        offers: None,
                        answer: Some(placeholder_answer()),
                        answer_to_peer_id: Some(remote_peer_id),
                        answer_offer_id: Some(offer_id),
                    },
                ),
                None => InMessage::AnnounceRequest(a),
            },
            other => other,
        }
    }

    /// The receive half of the loop, after the boundary code has read and
    /// decoded one frame: decides whether the session lives on, which
    /// response counter the event feeds, and the new pending-offer slot.
    pub fn handle_read_event(&mut self, event: ReadEvent) -> (r: ReadStep)
        ensures
            final(self).peer_id == old(self).peer_id,
            final(self).rng == old(self).rng,
            r.status == dispatch_status(event),
            r.counted == dispatch_counted(event),
            final(self).pending_offer == dispatch_pending(event, old(self).pending_offer),
    {
        match event {
            ReadEvent::Decoded(m) => match m {
                OutMessage::Offer(o) => {
                    self.pending_offer = Some((o.info_hash, o.peer_id, o.offer_id));
                    ReadStep {
                        status: SessionStatus::Continue,
                        counted: Some(ResponseKind::Offer),
                    }
                },
                OutMessage::Answer => ReadStep {
                    status: SessionStatus::Continue,
                    counted: Some(ResponseKind::Answer),
                },
                OutMessage::AnnounceResponse => ReadStep {
                    status: SessionStatus::Continue,
                    counted: Some(ResponseKind::Announce),
                },
                OutMessage::ScrapeResponse => ReadStep {
                    status: SessionStatus::Continue,
                    counted: Some(ResponseKind::Scrape),
                },
                OutMessage::Error(_) => ReadStep {
                    status: SessionStatus::Continue,
                    counted: Some(ResponseKind::Error),
                },
            },
            ReadEvent::DecodeFailed => ReadStep {
                status: SessionStatus::Continue,
                counted: None,
            },
            ReadEvent::UnexpectedFrameKind => ReadStep {
                status: SessionStatus::Continue,
                counted: None,
            },
            ReadEvent::StreamEnded => ReadStep { status: SessionStatus::Failed, counted: None },
            ReadEvent::TransportError => ReadStep { status: SessionStatus::Failed, counted: None },
        }
    }

    /// One whole receive step against a statistics sink held locally:
    /// dispatches the event and feeds the one counter it names.
    pub fn process_read(&mut self, stats: &mut Statistics, event: ReadEvent) -> (r: SessionStatus)
        requires
            old(stats).responses_offer < usize::MAX,
            old(stats).responses_answer < usize::MAX,
            old(stats).responses_announce < usize::MAX,
            old(stats).responses_scrape < usize::MAX,
            old(stats).responses_error < usize::MAX,
        ensures
            final(self).peer_id == old(self).peer_id,
            final(self).rng == old(self).rng,
            r == dispatch_status(event),
            final(self).pending_offer == dispatch_pending(event, old(self).pending_offer),
            final(stats).connections == old(stats).connections,
            final(stats).requests == old(stats).requests,
            final(stats).responses_offer == old(stats).responses_offer + (
            if dispatch_counted(event) == Some(ResponseKind::Offer) {
                1int
            } else {
                0int
            }),
            final(stats).responses_answer == old(stats).responses_answer + (
            if dispatch_counted(event) == Some(ResponseKind::Answer) {
                1int
            } else {
                0int
            }),
            final(stats).responses_announce == old(stats).responses_announce + (
            if dispatch_counted(event) == Some(ResponseKind::Announce) {
                1int
            } else {
                0int
            }),
            final(stats).responses_scrape == old(stats).responses_scrape + (
            if dispatch_counted(event) == Some(ResponseKind::Scrape) {
                1int
            } else {
                0int
            }),
            final(stats).responses_error == old(stats).responses_error + (
            if dispatch_counted(event) == Some(ResponseKind::Error) {
                1int
            } else {
                0int
            }),
    {
        let step = self.handle_read_event(event);
        match step.counted {
            Some(kind) => stats.record_response(kind),
            None => (),
        }
        step.status
    }
}

/// Bookkeeping for a session that finished its handshake: the worker's
/// active-connection count and the shared connections counter both grow by
/// one. Failed attempts never reach this point.
pub fn register_established(active_connections: &mut usize, stats: &mut Statistics)
    requires
        *old(active_connections) < usize::MAX,
        old(stats).connections < usize::MAX,
    ensures
        *final(active_connections) == *old(active_connections) + 1,
        final(stats).connections == old(stats).connections + 1,
        final(stats).requests == old(stats).requests,
        final(stats).responses_offer == old(stats).responses_offer,
        final(stats).responses_answer == old(stats).responses_answer,
        final(stats).responses_announce == old(stats).responses_announce,
        final(stats).responses_scrape == old(stats).responses_scrape,
        final(stats).responses_error == old(stats).responses_error,
{
    *active_connections = *active_connections + 1;
    stats.record_connection_established();
}

/// Bookkeeping for a live session that failed: both counts shrink by one.
/// Only ever called after a matching establishment, so both are positive.
pub fn register_terminated(active_connections: &mut usize, stats: &mut Statistics)
    requires
        *old(active_connections) >= 1,
        old(stats).connections >= 1,
    ensures
        *final(active_connections) == *old(active_connections) - 1,
        final(stats).connections == old(stats).connections - 1,
        final(stats).requests == old(stats).requests,
        final(stats).responses_offer == old(stats).responses_offer,
        final(stats).responses_answer == old(stats).responses_answer,
        final(stats).responses_announce == old(stats).responses_announce,
        final(stats).responses_scrape == old(stats).responses_scrape,
        final(stats).responses_error == old(stats).responses_error,
{
    *active_connections = *active_connections - 1;
    stats.record_connection_closed();
}

} // verus!
