use vstd::prelude::*;

use crate::message::{Notice, Relay, Role};
use crate::registry::{JoinReply, RegistryModel};

verus! {

/// The registry after every identifier of `ids` has joined, in order, starting empty.
pub open spec fn joined(ids: Seq<u128>) -> RegistryModel
    decreases ids.len(),
{
    if ids.len() == 0 {
        RegistryModel::empty()
    } else {
        joined(ids.drop_last()).join_next(ids.last())
    }
}

/// The arrival position paired with position `i`: 0 with 1, 2 with 3, and so on.
pub open spec fn partner_pos(i: int) -> int {
    if i % 2 == 0 {
        i + 1
    } else {
        i - 1
    }
}

/// Where `ids[i]` is routed once all of `ids` joined: to its partner by arrival
/// order, or to itself when it is the last of an odd number.
pub open spec fn expected_target(ids: Seq<u128>, i: int) -> u128 {
    if partner_pos(i) < ids.len() {
        ids[partner_pos(i)]
    } else {
        ids[i]
    }
}

/// Joins of distinct identifiers pair them off by arrival order: the first with the
/// second, the third with the fourth, and so on, each routed to the other; every
/// identifier that joined is registered; and when their number is odd the last one
/// is the waiting identifier, routed to itself.
pub proof fn lemma_joins_pair_by_arrival(ids: Seq<u128>)
    requires
        ids.no_duplicates(),
    ensures
        joined(ids).wf(),
        forall|k: u128| #[trigger] joined(ids).routes.contains_key(k) <==> ids.contains(k),
        forall|i: int|
            0 <= i < ids.len() ==> #[trigger] joined(ids).routes[ids[i]] == expected_target(ids, i),
        joined(ids).waiting == (if ids.len() % 2 == 1 {
            Some(ids.last())
        } else {
            None::<u128>
        }),
    decreases ids.len(),
{
    if ids.len() == 0 {
        assert(joined(ids).wf());
    } else {
        let n = ids.len() as int;
        let p = ids.drop_last();
        let x = ids.last();
        assert(p.no_duplicates()) by {
            assert forall|i: int, j: int| 0 <= i < p.len() && 0 <= j < p.len() && i != j implies p[i]
                != p[j] by {
                assert(p[i] == ids[i] && p[j] == ids[j]);
            }
        }
        lemma_joins_pair_by_arrival(p);
        let m = joined(p);
        assert(!p.contains(x)) by {
            if p.contains(x) {
                let i = choose|i: int| 0 <= i < p.len() && p[i] == x;
                assert(ids[i] == x && ids[n - 1] == x);
            }
        }
        assert(!m.routes.contains_key(x));
        let r = joined(ids);
        assert(r == m.join_next(x));
        assert forall|k: u128| #[trigger] r.routes.contains_key(k) <==> ids.contains(k) by {
            if ids.contains(k) {
                let i = choose|i: int| 0 <= i < ids.len() && ids[i] == k;
                if i < n - 1 {
                    assert(p[i] == k);
                }
            }
            if p.contains(k) {
                let i = choose|i: int| 0 <= i < p.len() && p[i] == k;
                assert(ids[i] == k);
            }
            assert(ids[n - 1] == x);
        }
        assert forall|i: int| 0 <= i < ids.len() implies #[trigger] r.routes[ids[i]]
            == expected_target(ids, i) by {
            if i < n - 1 {
                assert(ids[i] == p[i]);
                assert(m.routes[p[i]] == expected_target(p, i));
                if partner_pos(i) < n - 1 {
                    assert(ids[partner_pos(i)] == p[partner_pos(i)]);
                }
                if (n - 1) % 2 == 1 {
                    assert(p[n - 2] == ids[n - 2]);
                    if i != n - 2 {
                        assert(ids[i] != ids[n - 2]);
                    }
                }
                assert(ids[i] != x);
            }
        }
    }
}

/// Among joins of distinct identifiers, the one at an odd position completes a
/// pair: it learns `Initiator` and the one just before it is told `Responder`. The
/// one at an even position waits, and no role is handed out.
pub proof fn lemma_roles_by_arrival(ids: Seq<u128>, k: int)
    requires
        ids.no_duplicates(),
        0 <= k < ids.len(),
    ensures
        joined(ids.take(k)).join_reply(ids[k]) == (if k % 2 == 1 {
            JoinReply {
                role: Some(Role::Initiator),
                notice: Some(Notice { to: ids[k - 1], msg: Relay::RoleAssigned(Role::Responder) }),
            }
        } else {
            JoinReply { role: None, notice: None }
        }),
{
    let t = ids.take(k);
    assert(t.no_duplicates()) by {
        assert forall|i: int, j: int| 0 <= i < t.len() && 0 <= j < t.len() && i != j implies t[i]
            != t[j] by {
            assert(t[i] == ids[i] && t[j] == ids[j]);
        }
    }
    lemma_joins_pair_by_arrival(t);
    if k % 2 == 1 {
        assert(t[k - 1] == ids[k - 1]);
        assert(joined(t).routes[t[k - 1]] == expected_target(t, k - 1));
        assert(t.contains(t[k - 1]));
    }
}

/// A payload sent by either side of a pair is delivered to the other side, once
/// and verbatim; a sequence of payloads from one sender yields the deliveries in
/// the same order.
pub proof fn lemma_relay_reaches_partner(
    m: RegistryModel,
    a: u128,
    b: u128,
    payloads: Seq<String>,
)
    requires
        m.paired(a, b),
    ensures
        payloads.map_values(|p: String| m.route_reply(a, p)) == payloads.map_values(
            |p: String| Some(Notice { to: b, msg: Relay::Relayed(p) }),
        ),
        payloads.map_values(|p: String| m.route_reply(b, p)) == payloads.map_values(
            |p: String| Some(Notice { to: a, msg: Relay::Relayed(p) }),
        ),
{
    assert(payloads.map_values(|p: String| m.route_reply(a, p)) =~= payloads.map_values(
        |p: String| Some(Notice { to: b, msg: Relay::Relayed(p) }),
    ));
    assert(payloads.map_values(|p: String| m.route_reply(b, p)) =~= payloads.map_values(
        |p: String| Some(Notice { to: a, msg: Relay::Relayed(p) }),
    ));
}

/// While an identifier waits for a partner, a payload it sends comes back to
/// itself, and to no other identifier.
pub proof fn lemma_waiting_echo(m: RegistryModel, a: u128, payload: String)
    requires
        m.wf(),
        m.waiting == Some(a),
    ensures
        m.route_reply(a, payload) == Some(Notice { to: a, msg: Relay::Relayed(payload) }),
{
}

/// When one side of a pair leaves, the other side gets exactly one `ForceClose`,
/// the leaving identifier is no longer registered, and the rest is untouched.
pub proof fn lemma_paired_teardown(m: RegistryModel, a: u128, b: u128)
    requires
        m.wf(),
        m.paired(a, b),
    ensures
        m.leave_reply(a) == Some(Notice { to: b, msg: Relay::ForceClose }),
        !m.leave_next(a).routes.contains_key(a),
        m.leave_next(a).routes == m.routes.remove(a),
        m.leave_next(a).waiting == m.waiting,
        m.leave_next(a).wf(),
{
    assert(m.waiting != Some(a));
}

/// When the waiting identifier leaves before it is paired, the waiting slot is
/// cleared and the only `ForceClose` goes to that identifier itself.
pub proof fn lemma_waiting_teardown(m: RegistryModel, a: u128)
    requires
        m.wf(),
        m.waiting == Some(a),
    ensures
        m.leave_reply(a) == Some(Notice { to: a, msg: Relay::ForceClose }),
        m.leave_next(a).waiting is None,
        !m.leave_next(a).routes.contains_key(a),
        m.leave_next(a).routes == m.routes.remove(a),
        m.leave_next(a).wf(),
{
}

} // verus!
