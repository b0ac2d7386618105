use pairing_relay::{role_text, Action, Connection, JoinReply, Notice, Registry, Relay, Role};

fn relayed(to: u128, text: &str) -> Option<Notice> {
    Some(Notice { to, msg: Relay::Relayed(text.to_string()) })
}

#[test]
fn first_join_waits_routed_to_itself() {
    let mut reg = Registry::new();
    let reply = reg.join(7);
    assert_eq!(reply, JoinReply { role: None, notice: None });
    assert_eq!(reg.waiting(), Some(7));
    assert_eq!(reg.target(7), Some(7));
    assert!(reg.is_active(7));
}

#[test]
fn second_join_completes_pair_with_roles() {
    let mut reg = Registry::new();
    reg.join(1);
    let reply = reg.join(2);
    assert_eq!(reply.role, Some(Role::Initiator));
    assert_eq!(
        reply.notice,
        Some(Notice { to: 1, msg: Relay::RoleAssigned(Role::Responder) })
    );
    assert_eq!(reg.waiting(), None);
    assert_eq!(reg.target(1), Some(2));
    assert_eq!(reg.target(2), Some(1));
}

#[test]
fn five_joins_make_two_pairs_and_one_waiting() {
    let mut reg = Registry::new();
    for id in [10u128, 11, 12, 13, 14] {
        reg.join(id);
    }
    assert_eq!(reg.target(10), Some(11));
    assert_eq!(reg.target(11), Some(10));
    assert_eq!(reg.target(12), Some(13));
    assert_eq!(reg.target(13), Some(12));
    assert_eq!(reg.target(14), Some(14));
    assert_eq!(reg.waiting(), Some(14));
}

#[test]
fn roles_follow_arrival_order() {
    let mut reg = Registry::new();
    assert_eq!(reg.join(5).role, None);
    assert_eq!(reg.join(6).role, Some(Role::Initiator));
    assert_eq!(reg.join(7).role, None);
    let reply = reg.join(8);
    assert_eq!(reply.role, Some(Role::Initiator));
    assert_eq!(reply.notice, Some(Notice { to: 7, msg: Relay::RoleAssigned(Role::Responder) }));
}

#[test]
fn paired_payloads_reach_partner_verbatim_in_order() {
    let mut reg = Registry::new();
    reg.join(1);
    reg.join(2);
    assert_eq!(reg.route_outgoing(1, "a b\nc".to_string()), relayed(2, "a b\nc"));
    assert_eq!(reg.route_outgoing(1, "second".to_string()), relayed(2, "second"));
    assert_eq!(reg.route_outgoing(2, "".to_string()), relayed(1, ""));
}

#[test]
fn unpaired_payload_echoes_to_sender() {
    let mut reg = Registry::new();
    reg.join(3);
    assert_eq!(reg.route_outgoing(3, "hello".to_string()), relayed(3, "hello"));
}

#[test]
fn payload_from_unknown_id_is_dropped() {
    let mut reg = Registry::new();
    reg.join(3);
    assert_eq!(reg.route_outgoing(4, "lost".to_string()), None);
}

#[test]
fn paired_leave_force_closes_partner() {
    let mut reg = Registry::new();
    reg.join(1);
    reg.join(2);
    assert_eq!(reg.leave(1), Some(Notice { to: 2, msg: Relay::ForceClose }));
    assert!(!reg.is_active(1));
    assert_eq!(reg.target(2), Some(1));
    assert_eq!(reg.waiting(), None);
}

#[test]
fn waiting_leave_clears_slot_and_closes_only_itself() {
    let mut reg = Registry::new();
    reg.join(9);
    assert_eq!(reg.leave(9), Some(Notice { to: 9, msg: Relay::ForceClose }));
    assert_eq!(reg.waiting(), None);
    assert!(!reg.is_active(9));
    let reply = reg.join(10);
    assert_eq!(reply.role, None);
    assert_eq!(reg.waiting(), Some(10));
}

#[test]
fn leave_of_unknown_id_sends_nothing() {
    let mut reg = Registry::new();
    assert_eq!(reg.leave(42), None);
    assert_eq!(reg.waiting(), None);
}

#[test]
fn role_texts() {
    assert_eq!(role_text(Role::Initiator), "black");
    assert_eq!(role_text(Role::Responder), "white");
}

#[test]
fn connection_handles_inbox_messages() {
    let mut c = Connection::new(4);
    assert_eq!(c.id(), 4);
    assert!(!c.is_paired());
    assert_eq!(c.on_message(Relay::Relayed("x".to_string())), Action::Send("x".to_string()));
    assert_eq!(
        c.on_message(Relay::RoleAssigned(Role::Responder)),
        Action::Send("white".to_string())
    );
    assert!(c.is_paired());
    assert_eq!(c.on_message(Relay::RoleAssigned(Role::Responder)), Action::Discard);
    assert_eq!(c.on_message(Relay::ForceClose), Action::Close);
}

#[test]
fn two_clients_play_a_session() {
    let mut reg = Registry::new();
    let mut x = Connection::new(100);
    let mut y = Connection::new(200);

    let opened = x.open(&mut reg);
    assert_eq!(opened.frame, None);
    assert_eq!(opened.notice, None);
    assert_eq!(reg.waiting(), Some(100));
    assert_eq!(x.inbound(&reg, "early".to_string()), relayed(100, "early"));

    let opened = y.open(&mut reg);
    assert_eq!(opened.frame, Some("black".to_string()));
    assert!(y.is_paired());
    let notice = opened.notice.unwrap();
    assert_eq!(notice, Notice { to: 100, msg: Relay::RoleAssigned(Role::Responder) });
    assert_eq!(x.on_message(notice.msg), Action::Send("white".to_string()));

    let n = y.inbound(&reg, "move1".to_string()).unwrap();
    assert_eq!(n, Notice { to: 100, msg: Relay::Relayed("move1".to_string()) });
    assert_eq!(x.on_message(n.msg), Action::Send("move1".to_string()));

    let n = x.inbound(&reg, "move2".to_string()).unwrap();
    assert_eq!(n, Notice { to: 200, msg: Relay::Relayed("move2".to_string()) });
    assert_eq!(y.on_message(n.msg), Action::Send("move2".to_string()));

    let n = x.close(&mut reg).unwrap();
    assert_eq!(n, Notice { to: 200, msg: Relay::ForceClose });
    assert_eq!(y.on_message(n.msg), Action::Close);
    assert_eq!(y.close(&mut reg), Some(Notice { to: 100, msg: Relay::ForceClose }));
    assert!(!reg.is_active(100));
    assert!(!reg.is_active(200));
    assert_eq!(reg.waiting(), None);
}
