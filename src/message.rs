use vstd::prelude::*;

verus! {

/// The two roles handed out once per completed pair.
#[derive(Clone, Copy, Debug, PartialEq, Eq, Structural)]
pub enum Role {
    /// The connection that completed the pair (it joined second).
    Initiator,
    /// The connection that was already waiting (it joined first).
    Responder,
}

/// A notification delivered asynchronously into a connection's own inbox.
#[derive(Clone, Debug, PartialEq, Eq)]
pub enum Relay {
    /// The connection has been paired and plays the given role.
    RoleAssigned(Role),
    /// A payload sent by the partner (or by the connection itself while unpaired),
    /// to be forwarded verbatim to the network peer.
    Relayed(String),
    /// The connection is to terminate.
    ForceClose,
}

/// A relay message together with the identifier of the connection that receives it.
#[derive(Clone, Debug, PartialEq, Eq)]
pub struct Notice {
    pub to: u128,
    pub msg: Relay,
}

/// The sentinel text that announces a role to the network peer.
pub open spec fn role_text_spec(role: Role) -> Seq<char> {
    match role {
        Role::Initiator => "black"@,
        Role::Responder => "white"@,
    }
}

/// The frame sent to the network peer once, when its connection learns its role.
pub fn role_text(role: Role) -> (r: String)
    ensures
        r@ == role_text_spec(role),
{
    match role {
        Role::Initiator => "black".to_owned(),
        Role::Responder => "white".to_owned(),
    }
}

} // verus!
