//! The per-request admission gate, run before any routing: consult the
//! blacklist, then the rate counter, and short-circuit banned clients
//! to a fixed response.

use vstd::prelude::*;

use crate::addr::ClientAddr;
use crate::ban::BanStore;
use crate::clock::now_seconds;
use crate::rate::{rate_step, Decision, RateLimiter, RateWindow};

verus! {

/// The outcome of the admission gate for one request.
#[derive(Clone, Copy, PartialEq, Eq, Structural, Debug)]
pub enum Admission {
    /// The request proceeds to normal routing.
    Admitted,
    /// The request is answered with the fixed banned response and
    /// never reaches a route handler.
    Rejected,
}

/// The pipeline's state as mathematics: the banned set and the
/// per-address rate windows.
#[verifier::ext_equal]
pub struct GatewayView {
    pub banned: Set<ClientAddr>,
    pub windows: Map<ClientAddr, RateWindow>,
}

/// How one inbound request transforms the pipeline's state, and whether it
/// is admitted:
/// - a request with no resolvable client address is rejected
///   ("unknown origin" is not trusted) and changes nothing;
/// - a banned address is rejected without touching the rate counter;
/// - otherwise the rate counter records the request, and on
///   escalation the address is banned and the request rejected.
pub open spec fn admit_step(
    v: GatewayView,
    width: u64,
    threshold: u32,
    addr: Option<ClientAddr>,
    now: u64,
) -> (GatewayView, Admission) {
    match addr {
        None => (v, Admission::Rejected),
        Some(a) => {
            if v.banned.contains(a) {
                (v, Admission::Rejected)
            } else {
                let step = rate_step(v.windows, width, threshold, a, now);
                if step.1 == Decision::Escalate {
                    (GatewayView { banned: v.banned.insert(a), windows: step.0 },
                    Admission::Rejected)
                } else {
                    (GatewayView { banned: v.banned, windows: step.0 }, Admission::Admitted)
                }
            }
        },
    }
}

/// The admission pipeline: the blacklist and the rate counter,
/// constructor-injected as one explicitly owned value rather than an
/// implicit singleton, so callers and tests can build isolated
/// instances.
pub struct AdmissionPipeline {
    bans: BanStore,
    rate: RateLimiter,
}

impl View for AdmissionPipeline {
    type V = GatewayView;

    closed spec fn view(&self) -> GatewayView {
        GatewayView { banned: self.bans@, windows: self.rate@ }
    }
}

impl AdmissionPipeline {
    /// The rate limiter's bucket width, in seconds.
    pub closed spec fn width(&self) -> u64 {
        self.rate.width()
    }

    /// The rate limiter's request-count threshold.
    pub closed spec fn threshold(&self) -> u32 {
        self.rate.threshold()
    }

    /// Internal well-formedness of both owned structures.
    pub closed spec fn wf(&self) -> bool {
        self.bans.wf() && self.rate.wf()
    }

    /// A fresh gate: nobody banned, no rate records.
    pub fn new(window_width: u64, threshold: u32) -> (r: AdmissionPipeline)
        requires
            window_width >= 1,
        ensures
            r.wf(),
            r@.banned == Set::<ClientAddr>::empty(),
            r@.windows == Map::<ClientAddr, RateWindow>::empty(),
            r.width() == window_width,
            r.threshold() == threshold,
    {
        AdmissionPipeline { bans: BanStore::new(), rate: RateLimiter::new(window_width, threshold) }
    }

    /// Whether `addr` is currently banned.
    pub fn is_banned(&self, addr: ClientAddr) -> (r: bool)
        ensures
            r == self@.banned.contains(addr),
    {
        self.bans.is_banned(addr)
    }

    /// Bans `addr` (the admin operation). Returns true when newly
    /// banned, false when it was already banned; idempotent either way.
    pub fn ban(&mut self, addr: ClientAddr) -> (r: bool)
        requires
            old(self).wf(),
        ensures
            final(self).wf(),
            final(self).width() == old(self).width(),
            final(self).threshold() == old(self).threshold(),
            final(self)@.banned == old(self)@.banned.insert(addr),
            final(self)@.windows == old(self)@.windows,
            r == !old(self)@.banned.contains(addr),
    {
        self.bans.ban(addr)
    }

    /// Unbans `addr` (the admin operation). Returns true when the
    /// address was banned, false for the no-op on an absent address.
    pub fn unban(&mut self, addr: ClientAddr) -> (r: bool)
        requires
            old(self).wf(),
        ensures
            final(self).wf(),
            final(self).width() == old(self).width(),
            final(self).threshold() == old(self).threshold(),
            final(self)@.banned == old(self)@.banned.remove(addr),
            final(self)@.windows == old(self)@.windows,
            r == old(self)@.banned.contains(addr),
    {
        self.bans.unban(addr)
    }

    /// Runs the admission gate for one request from `addr` observed at
    /// time `now`. The ban check comes before any counting, so a
    /// banned client costs only the cheapest check and is not counted
    /// further.
    pub fn screen(&mut self, addr: Option<ClientAddr>, now: u64) -> (r: Admission)
        requires
            old(self).wf(),
        ensures
            final(self).wf(),
            final(self).width() == old(self).width(),
            final(self).threshold() == old(self).threshold(),
            (final(self)@, r) == admit_step(
                old(self)@,
                old(self).width(),
                old(self).threshold(),
                addr,
                now,
            ),
    {
        let a = match addr {
            None => {
                return Admission::Rejected;
            },
            Some(a) => a,
        };
        if self.bans.is_banned(a) {
            return Admission::Rejected;
        }
        let decision = self.rate.record_and_check(a, now);
        match decision {
            Decision::Escalate => {
                self.bans.ban(a);
                proof {
                    assert(self@ == admit_step(
                        old(self)@,
                        old(self).width(),
                        old(self).threshold(),
                        addr,
                        now,
                    ).0);
                }
                Admission::Rejected
            },
            Decision::Continue => {
                proof {
                    assert(self@ == admit_step(
                        old(self)@,
                        old(self).width(),
                        old(self).threshold(),
                        addr,
                        now,
                    ).0);
                }
                Admission::Admitted
            },
        }
    }

    /// Runs the admission gate against the wall clock, returning the
    /// decision together with the clock reading it was made at.
    pub fn screen_now(&mut self, addr: Option<ClientAddr>) -> (r: (Admission, u64))
        requires
            old(self).wf(),
        ensures
            final(self).wf(),
            final(self).width() == old(self).width(),
            final(self).threshold() == old(self).threshold(),
            (final(self)@, r.0) == admit_step(
                old(self)@,
                old(self).width(),
                old(self).threshold(),
                addr,
                r.1,
            ),
    {
        let now = now_seconds();
        let d = self.screen(addr, now);
        (d, now)
    }
}

/// The fixed body every rejected client is answered with. Nothing
/// beyond the fact of the ban is disclosed.
pub fn banned_message() -> (r: &'static str)
    ensures
        r@ == "You are banned from this site."@,
{
    "You are banned from this site."
}

} // verus!
