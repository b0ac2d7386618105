use vstd::prelude::*;

use crate::message::{role_text, role_text_spec, Notice, Relay};
use crate::registry::Registry;

verus! {

/// What a connection does with a notification taken from its inbox.
#[derive(Clone, Debug, PartialEq, Eq)]
pub enum Action {
    /// Send this text frame to the network peer.
    Send(String),
    /// Terminate the connection.
    Close,
    /// Do nothing: a role arrived for a connection that already has one.
    Discard,
}

/// What opening a connection produces: at most one frame for its own peer, and at
/// most one notification for another connection.
#[derive(Clone, Debug, PartialEq, Eq)]
pub struct Opened {
    pub frame: Option<String>,
    pub notice: Option<Notice>,
}

/// One side of a session: its identifier, and whether it has learnt its role.
pub struct Connection {
    id: u128,
    paired: bool,
}

/// `act` is what a connection whose pairing flag is `paired` does with `msg`: a
/// first role becomes its sentinel frame, a repeated one is discarded, a payload
/// is forwarded verbatim, and `ForceClose` closes.
pub open spec fn acts_on(paired: bool, msg: Relay, act: Action) -> bool {
    match msg {
        Relay::RoleAssigned(role) => if paired {
            act == Action::Discard
        } else {
            act matches Action::Send(text) && text@ == role_text_spec(role)
        },
        Relay::Relayed(payload) => act == Action::Send(payload),
        Relay::ForceClose => act == Action::Close,
    }
}

impl Connection {
    pub fn new(id: u128) -> (r: Connection)
        ensures
            r.spec_id() == id,
            !r.spec_paired(),
    {
        Connection { id, paired: false }
    }

    pub fn id(&self) -> (r: u128)
        ensures
            r == self.spec_id(),
    {
        self.id
    }

    pub fn is_paired(&self) -> (r: bool)
        ensures
            r == self.spec_paired(),
    {
        self.paired
    }

    pub closed spec fn spec_id(&self) -> u128 {
        self.id
    }

    pub closed spec fn spec_paired(&self) -> bool {
        self.paired
    }

    /// Joins the registry. When that completes a pair, this connection is the
    /// `Initiator`: it learns so at once and sends its role frame, while the
    /// waiting partner is notified that it is the `Responder`.
    pub fn open(&mut self, reg: &mut Registry) -> (r: Opened)
        requires
            old(reg)@.wf(),
            !old(reg)@.routes.contains_key(old(self).spec_id()),
        ensures
            final(reg)@.wf(),
            final(reg)@ == old(reg)@.join_next(old(self).spec_id()),
            final(self).spec_id() == old(self).spec_id(),
            r.notice == old(reg)@.join_reply(old(self).spec_id()).notice,
            match old(reg)@.join_reply(old(self).spec_id()).role {
                Some(role) => {
                    &&& r.frame matches Some(text) && text@ == role_text_spec(role)
                    &&& final(self).spec_paired()
                },
                None => r.frame is None && final(self).spec_paired() == old(self).spec_paired(),
            },
    {
        let reply = reg.join(self.id);
        let frame = match reply.role {
            Some(role) => {
                self.paired = true;
                Some(role_text(role))
            },
            None => None,
        };
        Opened { frame, notice: reply.notice }
    }

    /// Hands a payload received from the network peer to the registry, which
    /// addresses it to this connection's current target.
    pub fn inbound(&self, reg: &Registry, payload: String) -> (r: Option<Notice>)
        ensures
            r == reg@.route_reply(self.spec_id(), payload),
    {
        reg.route_outgoing(self.id, payload)
    }

    /// Handles one notification from this connection's inbox.
    pub fn on_message(&mut self, msg: Relay) -> (r: Action)
        ensures
            acts_on(old(self).spec_paired(), msg, r),
            final(self).spec_id() == old(self).spec_id(),
            final(self).spec_paired() == (old(self).spec_paired() || msg is RoleAssigned),
    {
        match msg {
            Relay::RoleAssigned(role) => {
                if self.paired {
                    Action::Discard
                } else {
                    self.paired = true;
                    Action::Send(role_text(role))
                }
            },
            Relay::Relayed(payload) => Action::Send(payload),
            Relay::ForceClose => Action::Close,
        }
    }

    /// Leaves the registry when the connection has closed; the target it was
    /// routed to is told to close.
    pub fn close(&self, reg: &mut Registry) -> (r: Option<Notice>)
        requires
            old(reg)@.wf(),
        ensures
            final(reg)@.wf(),
            final(reg)@ == old(reg)@.leave_next(self.spec_id()),
            r == old(reg)@.leave_reply(self.spec_id()),
    {
        reg.leave(self.id)
    }
}

} // verus!
