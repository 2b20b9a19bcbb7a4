use module_host::capability::Role;
use module_host::channel::MessageTarget;
use module_host::error::HostError;
use module_host::host::{Call, CallOutput, GuestEvent, Host};
use module_host::world::Platform;

fn msg_host() -> (Host, u64, u64) {
    let mut host = Host::new(Platform::Linux);
    let auth = host.load_module(Role::Authoritative);
    let pres = host.load_module(Role::Presentational);
    (host, auth, pres)
}

fn msg_send(target: MessageTarget, name: &str, payload: &[u8]) -> Call {
    Call::SendMessage { target, name: name.to_string(), payload: payload.to_vec() }
}

#[test]
fn reliable_sends_reach_the_network_in_issue_order() {
    // end to end: a presentational module (the one that talks to the
    // authoritative peer) sends "bonk" reliably; the call returns
    // synchronously and the network collaborator observes exactly one
    // request, in order with a second send issued right after
    let (mut host, _auth, pres) = msg_host();
    host.world.connection = Some(7);
    let r = host.dispatch(
        pres,
        msg_send(MessageTarget::PeerReliable, "bonk", &[0x01, 0x02]),
    );
    assert!(matches!(r, Ok(CallOutput::Unit)));
    let r2 = host.dispatch(
        pres,
        msg_send(MessageTarget::PeerReliable, "bonk2", &[0x03]),
    );
    assert!(matches!(r2, Ok(CallOutput::Unit)));
    assert_eq!(host.channel.reliable.len(), 2);
    assert_eq!(host.channel.reliable[0].origin, pres);
    assert_eq!(host.channel.reliable[0].connection, 7);
    assert_eq!(host.channel.reliable[0].name, "bonk");
    assert_eq!(host.channel.reliable[0].payload, vec![0x01, 0x02]);
    assert_eq!(host.channel.reliable[1].name, "bonk2");
    assert_eq!(host.channel.unreliable.len(), 0);
}

#[test]
fn peer_send_from_the_authoritative_role_is_unsupported() {
    // the authoritative module already is the peer: sending "to the
    // authoritative peer" has no meaning on that role
    let (mut host, auth, _pres) = msg_host();
    host.world.connection = Some(7);
    let r = host.dispatch(auth, msg_send(MessageTarget::PeerReliable, "bonk", &[1]));
    assert_eq!(r.unwrap_err(), HostError::Unsupported);
    let r2 = host.dispatch(auth, msg_send(MessageTarget::PeerUnreliable, "bonk", &[1]));
    assert_eq!(r2.unwrap_err(), HostError::Unsupported);
    assert_eq!(host.channel.reliable.len(), 0);
    assert_eq!(host.channel.unreliable.len(), 0);
}

#[test]
fn peer_send_without_a_connection_is_a_missing_precondition() {
    let (mut host, _auth, pres) = msg_host();
    let r = host.dispatch(pres, msg_send(MessageTarget::PeerReliable, "x", &[]));
    assert_eq!(r.unwrap_err(), HostError::PreconditionMissing);
    let r2 = host.dispatch(pres, msg_send(MessageTarget::PeerUnreliable, "x", &[]));
    assert_eq!(r2.unwrap_err(), HostError::PreconditionMissing);
    assert_eq!(host.channel.reliable.len(), 0);
    assert_eq!(host.channel.unreliable.len(), 0);
}

#[test]
fn unreliable_sends_use_their_own_outbox() {
    let (mut host, _auth, pres) = msg_host();
    host.world.connection = Some(3);
    host.dispatch(pres, msg_send(MessageTarget::PeerUnreliable, "pos", &[9, 9])).unwrap();
    assert_eq!(host.channel.reliable.len(), 0);
    assert_eq!(host.channel.unreliable.len(), 1);
    assert_eq!(host.channel.unreliable[0].name, "pos");
}

#[test]
fn broadcast_reaches_every_other_module() {
    let (mut host, auth, pres) = msg_host();
    let third = host.load_module(Role::Presentational);
    host.dispatch(auth, msg_send(MessageTarget::LocalBroadcast, "hello", &[5])).unwrap();
    assert!(host.deliver_next_local());
    // the sender gets nothing; both other modules get one copy
    let inbox_of = |host: &Host, id: u64| -> Vec<GuestEvent> {
        host.modules
            .iter()
            .find(|m| m.id == id)
            .expect("module loaded")
            .inbox
            .clone()
    };
    assert_eq!(inbox_of(&host, auth).len(), 0);
    for id in [pres, third] {
        let inbox = inbox_of(&host, id);
        assert_eq!(inbox.len(), 1);
        match &inbox[0] {
            GuestEvent::Message { origin, name, payload } => {
                assert_eq!(*origin, auth);
                assert_eq!(name, "hello");
                assert_eq!(payload, &vec![5u8]);
            },
            other => panic!("expected a message, got {other:?}"),
        }
    }
    // the queue is drained
    assert!(!host.deliver_next_local());
}

#[test]
fn directed_message_reaches_its_addressee_alone() {
    let (mut host, auth, pres) = msg_host();
    let third = host.load_module(Role::Presentational);
    host.dispatch(auth, msg_send(MessageTarget::LocalDirected(pres), "psst", &[1])).unwrap();
    assert!(host.deliver_next_local());
    let count = |host: &Host, id: u64| -> usize {
        host.modules.iter().find(|m| m.id == id).unwrap().inbox.len()
    };
    assert_eq!(count(&host, pres), 1);
    assert_eq!(count(&host, auth), 0);
    assert_eq!(count(&host, third), 0);
}

#[test]
fn directed_message_to_an_unloaded_module_is_not_found() {
    let (mut host, auth, _pres) = msg_host();
    let r = host.dispatch(auth, msg_send(MessageTarget::LocalDirected(999), "x", &[]));
    assert_eq!(r.unwrap_err(), HostError::NotFound);
    assert_eq!(host.channel.local_pending.len(), 0);
}

#[test]
fn directed_message_is_dropped_if_addressee_unloads_before_delivery() {
    let (mut host, auth, pres) = msg_host();
    host.dispatch(auth, msg_send(MessageTarget::LocalDirected(pres), "late", &[])).unwrap();
    host.unload_module(pres).unwrap();
    // delivery happens, silently dropping the message
    assert!(host.deliver_next_local());
    assert_eq!(host.modules.iter().map(|m| m.inbox.len()).sum::<usize>(), 0);
}
