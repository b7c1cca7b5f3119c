//! The statistics sink's counters, modelled as plain values.
//!
//! The real sink is shared by sessions on every worker and holds one
//! lock-free atomic counter per field; the driver that owns it applies
//! exactly the deltas these methods state. Each recording moves exactly one
//! counter by one; no cross-counter atomicity is needed or promised.

use vstd::prelude::*;

verus! {

/// Which response counter a dispatched inbound message feeds.
#[derive(Clone, Copy, PartialEq, Eq, Debug)]
pub enum ResponseKind {
    Offer,
    Answer,
    Announce,
    Scrape,
    Error,
}

/// The seven counters of the statistics sink.
#[derive(Clone, Copy, PartialEq, Eq, Debug)]
pub struct Statistics {
    pub connections: usize,
    pub requests: usize,
    pub responses_offer: usize,
    pub responses_answer: usize,
    pub responses_announce: usize,
    pub responses_scrape: usize,
    pub responses_error: usize,
}

impl Statistics {
    /// A fresh sink with every counter at zero.
    pub fn new() -> (r: Statistics)
        ensures
            r.connections == 0,
            r.requests == 0,
            r.responses_offer == 0,
            r.responses_answer == 0,
            r.responses_announce == 0,
            r.responses_scrape == 0,
            r.responses_error == 0,
    {
        Statistics {
            connections: 0,
            requests: 0,
            responses_offer: 0,
            responses_answer: 0,
            responses_scrape: 0,
            responses_announce: 0,
            responses_error: 0,
        }
    }

    /// Records one dispatched response: exactly the counter named by `kind`
    /// grows by one, every other counter is untouched.
    pub fn record_response(&mut self, kind: ResponseKind)
        requires
            old(self).responses_offer < usize::MAX,
            old(self).responses_answer < usize::MAX,
            old(self).responses_announce < usize::MAX,
            old(self).responses_scrape < usize::MAX,
            old(self).responses_error < usize::MAX,
        ensures
            final(self).connections == old(self).connections,
            final(self).requests == old(self).requests,
            final(self).responses_offer == old(self).responses_offer + (
            if kind is Offer {
                1int
            } else {
                0int
            }),
            final(self).responses_answer == old(self).responses_answer + (
            if kind is Answer {
                1int
            } else {
                0int
            }),
            final(self).responses_announce == old(self).responses_announce + (
            if kind is Announce {
                1int
            } else {
                0int
            }),
            final(self).responses_scrape == old(self).responses_scrape + (
            if kind is Scrape {
                1int
            } else {
                0int
            }),
            final(self).responses_error == old(self).responses_error + (
            if kind is Error {
                1int
            } else {
                0int
            }),
    {
        match kind {
            ResponseKind::Offer => {
                self.responses_offer = self.responses_offer + 1;
            },
            ResponseKind::Answer => {
                self.responses_answer = self.responses_answer + 1;
            },
            ResponseKind::Announce => {
                self.responses_announce = self.responses_announce + 1;
            },
            ResponseKind::Scrape => {
                self.responses_scrape = self.responses_scrape + 1;
            },
            ResponseKind::Error => {
                self.responses_error = self.responses_error + 1;
            },
        }
    }

    /// Records one successfully written outbound request.
    pub fn record_request_sent(&mut self)
        requires
            old(self).requests < usize::MAX,
        ensures
            final(self).requests == old(self).requests + 1,
            final(self).connections == old(self).connections,
            final(self).responses_offer == old(self).responses_offer,
            final(self).responses_answer == old(self).responses_answer,
            final(self).responses_announce == old(self).responses_announce,
            final(self).responses_scrape == old(self).responses_scrape,
            final(self).responses_error == old(self).responses_error,
    {
        self.requests = self.requests + 1;
    }

    /// Records one session that finished its handshake and went live.
    pub fn record_connection_established(&mut self)
        requires
            old(self).connections < usize::MAX,
        ensures
            final(self).connections == old(self).connections + 1,
            final(self).requests == old(self).requests,
            final(self).responses_offer == old(self).responses_offer,
            final(self).responses_answer == old(self).responses_answer,
            final(self).responses_announce == old(self).responses_announce,
            final(self).responses_scrape == old(self).responses_scrape,
            final(self).responses_error == old(self).responses_error,
    {
        self.connections = self.connections + 1;
    }

    /// Records the teardown of a live session. Only ever called after a
    /// matching establishment, so the counter is positive.
    pub fn record_connection_closed(&mut self)
        requires
            old(self).connections >= 1,
        ensures
            final(self).connections == old(self).connections - 1,
            final(self).requests == old(self).requests,
            final(self).responses_offer == old(self).responses_offer,
            final(self).responses_answer == old(self).responses_answer,
            final(self).responses_announce == old(self).responses_announce,
            final(self).responses_scrape == old(self).responses_scrape,
            final(self).responses_error == old(self).responses_error,
    {
        self.connections = self.connections - 1;
    }
}

} // verus!
