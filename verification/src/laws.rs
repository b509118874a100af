//! Laws of the admission gate, stated over its mathematical state and
//! proved once and for all: ban monotonicity, idempotence of the admin
//! operations, the determinism of rate escalation within one bucket,
//! and the reset of the counter at a bucket boundary.

use vstd::prelude::*;

use crate::addr::ClientAddr;
use crate::admission::{admit_step, Admission, GatewayView};
use crate::rate::{bucket_of, RateWindow};

verus! {

/// Everything that can change the pipeline's state: an inbound request
/// through the admission gate, or an admin ban or unban.
pub enum GatewayOp {
    Request(Option<ClientAddr>, u64),
    AdminBan(ClientAddr),
    AdminUnban(ClientAddr),
}

/// The effect of one operation on the pipeline's state.
pub open spec fn apply_op(v: GatewayView, width: u64, threshold: u32, op: GatewayOp) -> GatewayView {
    match op {
        GatewayOp::Request(addr, now) => admit_step(v, width, threshold, addr, now).0,
        GatewayOp::AdminBan(a) => GatewayView { banned: v.banned.insert(a), windows: v.windows },
        GatewayOp::AdminUnban(a) => GatewayView { banned: v.banned.remove(a), windows: v.windows },
    }
}

/// The effect of a sequence of operations, applied in order.
pub open spec fn apply_ops(
    v: GatewayView,
    width: u64,
    threshold: u32,
    ops: Seq<GatewayOp>,
) -> GatewayView
    decreases ops.len(),
{
    if ops.len() == 0 {
        v
    } else {
        apply_ops(apply_op(v, width, threshold, ops[0]), width, threshold, ops.drop_first())
    }
}

/// Ban monotonicity: once an address is banned, it stays banned under
/// any further requests and admin operations until an unban of that
/// very address — no request, escalation or unrelated admin action can
/// lift a ban.
pub proof fn lemma_ban_monotone(
    v: GatewayView,
    width: u64,
    threshold: u32,
    ops: Seq<GatewayOp>,
    a: ClientAddr,
)
    requires
        v.banned.contains(a),
        forall|i: int| 0 <= i < ops.len() ==> ops[i] != GatewayOp::AdminUnban(a),
    ensures
        apply_ops(v, width, threshold, ops).banned.contains(a),
    decreases ops.len(),
{
    if ops.len() > 0 {
        let v1 = apply_op(v, width, threshold, ops[0]);
        match ops[0] {
            GatewayOp::Request(addr, now) => {
                assert(v1.banned.contains(a));
            },
            GatewayOp::AdminBan(b) => {
                assert(v1.banned.contains(a));
            },
            GatewayOp::AdminUnban(b) => {
                assert(b != a);
                assert(v1.banned.contains(a));
            },
        }
        assert(forall|i: int|
            0 <= i < ops.drop_first().len() ==> ops.drop_first()[i] != GatewayOp::AdminUnban(a));
        lemma_ban_monotone(v1, width, threshold, ops.drop_first(), a);
    }
}

/// Idempotence of banning: a second ban of the same address changes
/// nothing, and the address is banned after either.
pub proof fn lemma_ban_idempotent(v: GatewayView, width: u64, threshold: u32, a: ClientAddr)
    ensures
        apply_op(apply_op(v, width, threshold, GatewayOp::AdminBan(a)), width, threshold,
            GatewayOp::AdminBan(a)) == apply_op(v, width, threshold, GatewayOp::AdminBan(a)),
        apply_op(v, width, threshold, GatewayOp::AdminBan(a)).banned.contains(a),
{
    assert(apply_op(apply_op(v, width, threshold, GatewayOp::AdminBan(a)), width, threshold,
        GatewayOp::AdminBan(a)) =~~= apply_op(v, width, threshold, GatewayOp::AdminBan(a)));
}

/// Idempotence of unbanning: an unban of an address that is not banned
/// is a no-op (the exec operation additionally reports it as one, by
/// returning false exactly in this case).
pub proof fn lemma_unban_absent_noop(v: GatewayView, width: u64, threshold: u32, a: ClientAddr)
    requires
        !v.banned.contains(a),
    ensures
        apply_op(v, width, threshold, GatewayOp::AdminUnban(a)) == v,
{
    assert(apply_op(v, width, threshold, GatewayOp::AdminUnban(a)) =~~= v);
}

/// The ban check comes before any counting: a request from a banned
/// address, like one without a resolvable address, is rejected and
/// leaves the whole state — rate records included — untouched.
pub proof fn lemma_banned_not_counted(
    v: GatewayView,
    width: u64,
    threshold: u32,
    addr: Option<ClientAddr>,
    now: u64,
)
    requires
        addr matches Some(a) ==> v.banned.contains(a),
    ensures
        admit_step(v, width, threshold, addr, now) == (v, Admission::Rejected),
{
}

/// The pipeline's state after a run of requests, all from the same
/// address.
pub open spec fn run_requests(
    v: GatewayView,
    width: u64,
    threshold: u32,
    a: ClientAddr,
    nows: Seq<u64>,
) -> GatewayView
    decreases nows.len(),
{
    if nows.len() == 0 {
        v
    } else {
        admit_step(
            run_requests(v, width, threshold, a, nows.drop_last()),
            width,
            threshold,
            Some(a),
            nows.last(),
        ).0
    }
}

/// The count an address that started fresh holds after `n` requests in
/// one bucket: it climbs to the threshold plus one and stays there.
spec fn count_after(n: int, threshold: u32) -> u64 {
    if n > threshold as int {
        (threshold as u64 + 1) as u64
    } else {
        n as u64
    }
}

/// After `n` same-bucket requests from a fresh address: the address's
/// count is `count_after(n, threshold)`, and it is banned exactly when
/// `n` went past the threshold.
proof fn lemma_same_bucket_state(
    v0: GatewayView,
    width: u64,
    threshold: u32,
    a: ClientAddr,
    nows: Seq<u64>,
    b: u64,
    n: int,
)
    requires
        width >= 1,
        threshold >= 1,
        !v0.banned.contains(a),
        !v0.windows.dom().contains(a),
        forall|k: int| 0 <= k < nows.len() ==> bucket_of(#[trigger] nows[k], width) == b,
        0 <= n <= nows.len(),
    ensures
        ({
            let vn = run_requests(v0, width, threshold, a, nows.take(n));
            &&& vn.banned == if n > threshold as int {
                v0.banned.insert(a)
            } else {
                v0.banned
            }
            &&& vn.windows == if n == 0 {
                v0.windows
            } else {
                v0.windows.insert(a, RateWindow { bucket_start: b, count: count_after(n, threshold) })
            }
        }),
    decreases n,
{
    if n == 0 {
        assert(nows.take(0) =~= Seq::<u64>::empty());
    } else {
        lemma_same_bucket_state(v0, width, threshold, a, nows, b, n - 1);
        assert(nows.take(n).drop_last() =~= nows.take(n - 1));
        assert(nows.take(n).last() == nows[n - 1]);
        let prev = run_requests(v0, width, threshold, a, nows.take(n - 1));
        let vn = run_requests(v0, width, threshold, a, nows.take(n));
        assert(vn == admit_step(prev, width, threshold, Some(a), nows[n - 1]).0);
        if n - 1 > threshold as int {
            // Already banned: the request is rejected without touching
            // the counter.
            assert(vn == prev);
        } else if n - 1 == 0 {
            // Fresh record in bucket `b` at count one.
            assert(vn.windows =~= v0.windows.insert(
                a,
                RateWindow { bucket_start: b, count: 1 },
            ));
        } else {
            // Same bucket: the count climbs by one, and going past the
            // threshold escalates to a ban.
            assert(prev.windows[a] == RateWindow {
                bucket_start: b,
                count: count_after(n - 1, threshold),
            });
            assert(vn.windows =~= v0.windows.insert(
                a,
                RateWindow { bucket_start: b, count: count_after(n, threshold) },
            ));
        }
    }
}

/// Rate escalation determinism: from a fresh address, requests within
/// one bucket are admitted exactly while their index is below the
/// threshold, and the run bans the address exactly when it is longer
/// than the threshold — one ban event, never more. (A threshold of
/// zero is excluded: a request in a fresh bucket always resets the
/// count to one and continues, so the very first request is admitted
/// whatever the threshold.)
pub proof fn lemma_rate_escalation(
    v0: GatewayView,
    width: u64,
    threshold: u32,
    a: ClientAddr,
    nows: Seq<u64>,
    b: u64,
)
    requires
        width >= 1,
        threshold >= 1,
        !v0.banned.contains(a),
        !v0.windows.dom().contains(a),
        forall|k: int| 0 <= k < nows.len() ==> bucket_of(#[trigger] nows[k], width) == b,
    ensures
        forall|k: int|
            0 <= k < nows.len() ==> ((admit_step(
                run_requests(v0, width, threshold, a, nows.take(k)),
                width,
                threshold,
                Some(a),
                nows[k],
            ).1 == Admission::Admitted) <==> k < threshold as int),
        run_requests(v0, width, threshold, a, nows).banned == if nows.len() > threshold as int {
            v0.banned.insert(a)
        } else {
            v0.banned
        },
{
    assert forall|k: int| 0 <= k < nows.len() implies ((admit_step(
        run_requests(v0, width, threshold, a, nows.take(k)),
        width,
        threshold,
        Some(a),
        nows[k],
    ).1 == Admission::Admitted) <==> k < threshold as int) by {
        lemma_same_bucket_state(v0, width, threshold, a, nows, b, k);
        let vk = run_requests(v0, width, threshold, a, nows.take(k));
        if k > threshold as int {
            assert(vk.banned.contains(a));
        }
    }
    lemma_same_bucket_state(v0, width, threshold, a, nows, b, nows.len() as int);
    assert(nows.take(nows.len() as int) =~= nows);
}

/// Bucket reset: a request from an address whose record sits in an
/// older bucket is admitted and its count restarts at one — nothing
/// carries over from the previous bucket, whatever the count there
/// was.
pub proof fn lemma_bucket_reset(
    v: GatewayView,
    width: u64,
    threshold: u32,
    a: ClientAddr,
    now: u64,
)
    requires
        width >= 1,
        !v.banned.contains(a),
        v.windows.dom().contains(a),
        v.windows[a].bucket_start != bucket_of(now, width),
    ensures
        admit_step(v, width, threshold, Some(a), now).1 == Admission::Admitted,
        admit_step(v, width, threshold, Some(a), now).0.banned == v.banned,
        admit_step(v, width, threshold, Some(a), now).0.windows == v.windows.insert(
            a,
            RateWindow { bucket_start: bucket_of(now, width), count: 1 },
        ),
{
}

} // verus!
