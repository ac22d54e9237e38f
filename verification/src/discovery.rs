//! Endpoint discovery: the worker binds one port of the trusted range and
//! answers a health request on it. Discovery walks every candidate port
//! once per round, sleeps a fixed interval between rounds, and gives up
//! once the elapsed time reaches the timeout.
//!
//! The machine here takes the decisions; the caller carries out each
//! returned command (issue the health request, sleep) and reports what
//! happened.

use vstd::prelude::*;
use crate::json::{json_port_field, port_field};
use crate::ports::{port_in_range, API_PORT_MAX, API_PORT_MIN, CANDIDATE_PORT_COUNT};

verus! {

/// Milliseconds slept between two polling rounds.
pub const POLL_INTERVAL_MS: u64 = 300;

/// Default overall discovery deadline in milliseconds.
pub const DEFAULT_DISCOVERY_TIMEOUT_MS: u64 = 15000;

/// The authoritative port for a health answer read on `polled`: the port
/// the payload claims when that claim lies in the trusted range, else the
/// port that actually answered.
pub open spec fn select_port_spec(polled: u16, claimed: Option<u64>) -> u16 {
    match claimed {
        Some(c) => if API_PORT_MIN as u64 <= c && c <= API_PORT_MAX as u64 {
            c as u16
        } else {
            polled
        },
        None => polled,
    }
}

/// A health payload never moves the result outside the trusted range: an
/// out-of-range claim falls back to the in-range polled port.
pub proof fn lemma_select_port_in_range(polled: u16, claimed: Option<u64>)
    requires
        port_in_range(polled),
    ensures
        port_in_range(select_port_spec(polled, claimed)),
{
}

/// Picks the authoritative port out of a health response body read on
/// `polled`: a `port` field inside the trusted range wins, anything else
/// (no JSON, no field, out-of-range claim) falls back to the polled port.
pub fn select_port(polled: u16, health_body: &[u8]) -> (r: u16)
    ensures
        r == select_port_spec(polled, json_port_field(health_body@)),
        port_in_range(polled) ==> port_in_range(r),
{
    match port_field(health_body) {
        Some(c) => {
            if API_PORT_MIN as u64 <= c && c <= API_PORT_MAX as u64 {
                c as u16
            } else {
                polled
            }
        },
        None => polled,
    }
}

/// What the caller is to do next.
pub enum DiscoveryCommand {
    /// Issue a health request to this port.
    Probe(u16),
    /// Every candidate of this round has been probed: sleep this many
    /// milliseconds, then report the sleep.
    Sleep(u64),
    /// The deadline has passed with no answer: discovery yields nothing.
    GiveUp,
}

/// State of one discovery run. `cursor` counts the candidates already
/// probed in the current round, so a round can only end (and the machine
/// only sleeps) after every candidate port was attempted once.
pub struct Discovery {
    pub timeout_ms: u64,
    pub elapsed_ms: u64,
    pub cursor: u16,
}

impl Discovery {
    pub open spec fn wf(&self) -> bool {
        &&& self.cursor <= CANDIDATE_PORT_COUNT
        &&& self.timeout_ms <= u64::MAX - POLL_INTERVAL_MS
        &&& self.elapsed_ms <= self.timeout_ms + POLL_INTERVAL_MS
    }

    pub fn new(timeout_ms: u64) -> (d: Discovery)
        requires
            timeout_ms <= u64::MAX - POLL_INTERVAL_MS,
        ensures
            d.wf(),
            d.timeout_ms == timeout_ms,
            d.elapsed_ms == 0,
            d.cursor == 0,
    {
        Discovery { timeout_ms, elapsed_ms: 0, cursor: 0 }
    }

    /// The next command. Discovery gives up exactly when the elapsed time
    /// has reached the timeout; a sleep is commanded only once the cursor
    /// has passed every candidate of the round.
    pub fn next_command(&self) -> (c: DiscoveryCommand)
        requires
            self.wf(),
        ensures
            (c matches DiscoveryCommand::GiveUp) <==> self.elapsed_ms >= self.timeout_ms,
            (c matches DiscoveryCommand::Probe(p) ==> p == API_PORT_MIN + self.cursor
                && port_in_range(p) && self.cursor < CANDIDATE_PORT_COUNT),
            (c matches DiscoveryCommand::Sleep(ms) ==> ms == POLL_INTERVAL_MS && self.cursor
                == CANDIDATE_PORT_COUNT && self.elapsed_ms < self.timeout_ms),
    {
        if self.elapsed_ms >= self.timeout_ms {
            DiscoveryCommand::GiveUp
        } else if self.cursor < CANDIDATE_PORT_COUNT {
            DiscoveryCommand::Probe(API_PORT_MIN + self.cursor)
        } else {
            DiscoveryCommand::Sleep(POLL_INTERVAL_MS)
        }
    }

    /// The discovered port for a successful (2xx) health answer at the
    /// current probe: the payload claim when trusted, else the polled port.
    /// The result always lies in the trusted range.
    pub fn accept(&self, health_body: &[u8]) -> (r: u16)
        requires
            self.wf(),
            self.cursor < CANDIDATE_PORT_COUNT,
        ensures
            r == select_port_spec(
                (API_PORT_MIN + self.cursor) as u16,
                json_port_field(health_body@),
            ),
            port_in_range(r),
    {
        select_port(API_PORT_MIN + self.cursor, health_body)
    }

    /// The current probe went unanswered (unreachable, or reachable but
    /// not 2xx): move to the next candidate of the round.
    pub fn record_no_answer(&mut self)
        requires
            old(self).wf(),
            old(self).cursor < CANDIDATE_PORT_COUNT,
        ensures
            final(self).wf(),
            final(self).cursor == old(self).cursor + 1,
            final(self).elapsed_ms == old(self).elapsed_ms,
            final(self).timeout_ms == old(self).timeout_ms,
    {
        self.cursor = self.cursor + 1;
    }

    /// The commanded sleep between rounds was performed: account its
    /// duration and start a fresh round.
    pub fn record_round_slept(&mut self)
        requires
            old(self).wf(),
            old(self).cursor == CANDIDATE_PORT_COUNT,
            old(self).elapsed_ms < old(self).timeout_ms,
        ensures
            final(self).wf(),
            final(self).cursor == 0,
            final(self).elapsed_ms == old(self).elapsed_ms + POLL_INTERVAL_MS,
            final(self).timeout_ms == old(self).timeout_ms,
    {
        self.elapsed_ms = self.elapsed_ms + POLL_INTERVAL_MS;
        self.cursor = 0;
    }
}

} // verus!
