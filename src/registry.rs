use std::collections::HashMap;

use vstd::prelude::*;

use crate::message::{Notice, Relay, Role};

verus! {

/// The abstract state of the pairing registry.
///
/// `routes[id]` names the connection that receives what `id` sends: the partner
/// once `id` is paired, `id` itself while it waits for one.
pub struct RegistryModel {
    pub waiting: Option<u128>,
    pub routes: Map<u128, u128>,
}

/// What a `join` hands back: the role the joining connection learns at once, and
/// the notification for the connection it was paired with.
#[derive(Clone, Debug, PartialEq, Eq)]
pub struct JoinReply {
    pub role: Option<Role>,
    pub notice: Option<Notice>,
}

impl RegistryModel {
    pub open spec fn empty() -> RegistryModel {
        RegistryModel { waiting: None, routes: Map::empty() }
    }

    /// The waiting identifier, if any, routes to itself, and it is the only
    /// identifier that does.
    pub open spec fn wf(self) -> bool {
        &&& (self.waiting matches Some(w) ==> self.routes.contains_key(w) && self.routes[w] == w)
        &&& forall|k: u128|
            #[trigger] self.routes.contains_key(k) && self.routes[k] == k ==> self.waiting == Some(k)
    }

    /// `a` and `b` are two distinct identifiers routed to each other.
    pub open spec fn paired(self, a: u128, b: u128) -> bool {
        &&& a != b
        &&& self.routes.contains_key(a) && self.routes[a] == b
        &&& self.routes.contains_key(b) && self.routes[b] == a
    }

    /// The state after `id` joins.
    pub open spec fn join_next(self, id: u128) -> RegistryModel {
        match self.waiting {
            None => RegistryModel { waiting: Some(id), routes: self.routes.insert(id, id) },
            Some(w) => if self.routes.contains_key(w) {
                RegistryModel {
                    waiting: None,
                    routes: self.routes.remove(w).insert(id, self.routes[w]).insert(w, id),
                }
            } else {
                RegistryModel { waiting: None, routes: self.routes.remove(w) }
            },
        }
    }

    /// What `join` of `id` returns: the joiner becomes `Initiator` and the waiting
    /// connection's handle is told `Responder`; nothing when no one was waiting.
    pub open spec fn join_reply(self, id: u128) -> JoinReply {
        match self.waiting {
            Some(w) if self.routes.contains_key(w) => JoinReply {
                role: Some(Role::Initiator),
                notice: Some(Notice { to: self.routes[w], msg: Relay::RoleAssigned(Role::Responder) }),
            },
            _ => JoinReply { role: None, notice: None },
        }
    }

    /// The delivery that a payload sent by `id` turns into.
    pub open spec fn route_reply(self, id: u128, payload: String) -> Option<Notice> {
        if self.routes.contains_key(id) {
            Some(Notice { to: self.routes[id], msg: Relay::Relayed(payload) })
        } else {
            None
        }
    }

    /// The state after `id` leaves.
    pub open spec fn leave_next(self, id: u128) -> RegistryModel {
        RegistryModel {
            waiting: if self.waiting == Some(id) { None } else { self.waiting },
            routes: self.routes.remove(id),
        }
    }

    /// The notification that `id` leaving sends: `ForceClose` to its current target.
    pub open spec fn leave_reply(self, id: u128) -> Option<Notice> {
        if self.routes.contains_key(id) {
            Some(Notice { to: self.routes[id], msg: Relay::ForceClose })
        } else {
            None
        }
    }
}

/// The shared matchmaking state: at most one waiting identifier, and for every
/// active identifier the identifier of the connection that its payloads go to.
pub struct Registry {
    waiting: Option<u128>,
    routes: HashMap<u128, u128>,
}

impl View for Registry {
    type V = RegistryModel;

    closed spec fn view(&self) -> RegistryModel {
        RegistryModel { waiting: self.waiting, routes: self.routes@ }
    }
}

impl Registry {
    pub fn new() -> (r: Registry)
        ensures
            r@ == RegistryModel::empty(),
            r@.wf(),
    {
        broadcast use vstd::std_specs::hash::group_hash_axioms;

        let r = Registry { waiting: None, routes: HashMap::new() };
        assert(r@.routes =~= Map::empty());
        r
    }

    /// Registers `id`: it either waits, routed to itself, or completes a pair with
    /// the waiting identifier, the two then routed to each other.
    pub fn join(&mut self, id: u128) -> (r: JoinReply)
        requires
            old(self)@.wf(),
            !old(self)@.routes.contains_key(id),
        ensures
            final(self)@.wf(),
            final(self)@ == old(self)@.join_next(id),
            r == old(self)@.join_reply(id),
    {
        broadcast use vstd::std_specs::hash::group_hash_axioms;

        match self.waiting {
            None => {
                self.waiting = Some(id);
                self.routes.insert(id, id);
                assert(self@.routes =~= old(self)@.routes.insert(id, id));
                JoinReply { role: None, notice: None }
            },
            Some(w) => {
                self.waiting = None;
                match self.routes.remove(&w) {
                    Some(other) => {
                        self.routes.insert(id, other);
                        self.routes.insert(w, id);
                        JoinReply {
                            role: Some(Role::Initiator),
                            notice: Some(
                                Notice { to: other, msg: Relay::RoleAssigned(Role::Responder) },
                            ),
                        }
                    },
                    None => JoinReply { role: None, notice: None },
                }
            },
        }
    }

    /// Where a payload sent by `id` goes: its current target, or nowhere when `id`
    /// is not registered.
    pub fn route_outgoing(&self, id: u128, payload: String) -> (r: Option<Notice>)
        ensures
            r == self@.route_reply(id, payload),
    {
        broadcast use vstd::std_specs::hash::group_hash_axioms;

        match self.routes.get(&id) {
            Some(to) => Some(Notice { to: *to, msg: Relay::Relayed(payload) }),
            None => None,
        }
    }

    /// Unregisters `id`, clearing the waiting slot if it holds `id`, and returns the
    /// `ForceClose` for the target it was routed to.
    pub fn leave(&mut self, id: u128) -> (r: Option<Notice>)
        requires
            old(self)@.wf(),
        ensures
            final(self)@.wf(),
            final(self)@ == old(self)@.leave_next(id),
            r == old(self)@.leave_reply(id),
    {
        broadcast use vstd::std_specs::hash::group_hash_axioms;

        if self.waiting == Some(id) {
            self.waiting = None;
        }
        match self.routes.remove(&id) {
            Some(to) => Some(Notice { to, msg: Relay::ForceClose }),
            None => None,
        }
    }

    pub fn is_active(&self, id: u128) -> (r: bool)
        ensures
            r == self@.routes.contains_key(id),
    {
        broadcast use vstd::std_specs::hash::group_hash_axioms;

        self.routes.contains_key(&id)
    }

    pub fn waiting(&self) -> (r: Option<u128>)
        ensures
            r == self@.waiting,
    {
        self.waiting
    }

    /// The identifier that payloads sent by `id` are currently forwarded to.
    pub fn target(&self, id: u128) -> (r: Option<u128>)
        ensures
            r == (if self@.routes.contains_key(id) { Some(self@.routes[id]) } else { None }),
    {
        broadcast use vstd::std_specs::hash::group_hash_axioms;

        match self.routes.get(&id) {
            Some(to) => Some(*to),
            None => None,
        }
    }
}

} // verus!
