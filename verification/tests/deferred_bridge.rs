use module_host::capability::Role;
use module_host::deferred::Outcome;
use module_host::error::HostError;
use module_host::host::{Call, CallOutput, GuestEvent, Host};
use module_host::world::{AudioCommand, Platform};

fn dfr_host() -> (Host, u64) {
    let mut host = Host::new(Platform::Linux);
    let pres = host.load_module(Role::Presentational);
    (host, pres)
}

fn dfr_play(url: &str, uid: u32) -> Call {
    Call::PlayAudio {
        url: url.to_string(),
        looping: false,
        volume_bits: 1.0f32.to_bits(),
        uid,
    }
}

fn dfr_accept(host: &mut Host, module: u64, call: Call) -> u64 {
    match host.dispatch(module, call) {
        Ok(CallOutput::Accepted(op)) => op,
        other => panic!("expected acceptance, got {other:?}"),
    }
}

#[test]
fn play_is_accepted_not_completed() {
    let (mut host, pres) = dfr_host();
    let op = dfr_accept(&mut host, pres, dfr_play("http://assets/a.ogg", 1));
    assert_eq!(op, 0);
    // nothing reached the mixer yet: the operation is merely in flight
    assert_eq!(host.world.audio_commands.len(), 0);
    assert_eq!(host.bridge.pending.len(), 1);
    assert_eq!(host.bridge.queue.len(), 0);
    assert!(!host.apply_next_callback());
}

#[test]
fn callbacks_run_in_completion_order_b_first() {
    let (mut host, pres) = dfr_host();
    let op_a = dfr_accept(&mut host, pres, dfr_play("http://assets/a.ogg", 1));
    let op_b = dfr_accept(&mut host, pres, dfr_play("http://assets/b.ogg", 2));
    // a was issued first but completes second: b's callback runs first
    host.bridge.complete(op_b, Outcome::Success).unwrap();
    host.bridge.complete(op_a, Outcome::Success).unwrap();
    assert!(host.apply_next_callback());
    assert!(host.apply_next_callback());
    assert!(!host.apply_next_callback());
    assert_eq!(host.world.audio_commands.len(), 2);
    match &host.world.audio_commands[0] {
        AudioCommand::Track { url, uid, .. } => {
            assert_eq!(url, "http://assets/b.ogg");
            assert_eq!(*uid, 2);
        },
        other => panic!("expected a track, got {other:?}"),
    }
    match &host.world.audio_commands[1] {
        AudioCommand::Track { url, uid, .. } => {
            assert_eq!(url, "http://assets/a.ogg");
            assert_eq!(*uid, 1);
        },
        other => panic!("expected a track, got {other:?}"),
    }
}

#[test]
fn callbacks_run_in_completion_order_a_first() {
    let (mut host, pres) = dfr_host();
    let op_a = dfr_accept(&mut host, pres, dfr_play("http://assets/a.ogg", 1));
    let op_b = dfr_accept(&mut host, pres, dfr_play("http://assets/b.ogg", 2));
    host.bridge.complete(op_a, Outcome::Success).unwrap();
    host.bridge.complete(op_b, Outcome::Success).unwrap();
    assert!(host.apply_next_callback());
    assert!(host.apply_next_callback());
    assert_eq!(host.world.audio_commands.len(), 2);
    match &host.world.audio_commands[0] {
        AudioCommand::Track { uid, .. } => assert_eq!(*uid, 1),
        other => panic!("expected a track, got {other:?}"),
    }
    match &host.world.audio_commands[1] {
        AudioCommand::Track { uid, .. } => assert_eq!(*uid, 2),
        other => panic!("expected a track, got {other:?}"),
    }
}

#[test]
fn a_malformed_audio_url_fails_synchronously() {
    let (mut host, pres) = dfr_host();
    for bad in ["", "a.ogg", "://x", "1http://x", "http:/x"] {
        let r = host.dispatch(pres, dfr_play(bad, 1));
        assert_eq!(r.unwrap_err(), HostError::InvalidArgument, "url {bad:?}");
    }
    assert_eq!(host.bridge.pending.len(), 0);
}

#[test]
fn audio_load_peeks_the_asset_cache() {
    let (mut host, pres) = dfr_host();
    let r = host.dispatch(pres, Call::LoadAudio { url: "https://assets/a.ogg".to_string() });
    assert!(matches!(r, Ok(CallOutput::Unit)));
    assert_eq!(host.world.asset_peeks.len(), 1);
    assert_eq!(host.world.asset_peeks[0], "https://assets/a.ogg");
    let r2 = host.dispatch(pres, Call::LoadAudio { url: "nope".to_string() });
    assert_eq!(r2.unwrap_err(), HostError::InvalidArgument);
    assert_eq!(host.world.asset_peeks.len(), 1);
}

#[test]
fn stop_and_volume_travel_the_deferred_path() {
    let (mut host, pres) = dfr_host();
    let op_stop = dfr_accept(
        &mut host,
        pres,
        Call::StopAudio { url: "http://assets/a.ogg".to_string() },
    );
    let op_vol = dfr_accept(
        &mut host,
        pres,
        Call::SetAudioVolume {
            url: "http://assets/a.ogg".to_string(),
            volume_bits: 0.5f32.to_bits(),
        },
    );
    let op_by_id = dfr_accept(&mut host, pres, Call::StopAudioById { uid: 9 });
    host.bridge.complete(op_stop, Outcome::Success).unwrap();
    host.bridge.complete(op_vol, Outcome::Success).unwrap();
    host.bridge.complete(op_by_id, Outcome::Success).unwrap();
    while host.apply_next_callback() {}
    assert_eq!(host.world.audio_commands.len(), 3);
    assert!(matches!(&host.world.audio_commands[0], AudioCommand::Stop { url } if url == "http://assets/a.ogg"));
    assert!(matches!(
        &host.world.audio_commands[1],
        AudioCommand::UpdateVolume { volume_bits, .. } if *volume_bits == 0.5f32.to_bits()
    ));
    assert!(matches!(&host.world.audio_commands[2], AudioCommand::StopById { uid: 9 }));
}

#[test]
fn failure_is_delivered_through_the_deferred_path_only() {
    let (mut host, pres) = dfr_host();
    let op = dfr_accept(&mut host, pres, dfr_play("http://assets/a.ogg", 1));
    host.bridge.complete(op, Outcome::Failure).unwrap();
    assert!(host.apply_next_callback());
    // no mixer command; the guest finds the failure in its inbox
    assert_eq!(host.world.audio_commands.len(), 0);
    let inbox = &host.modules.iter().find(|m| m.id == pres).unwrap().inbox;
    assert_eq!(inbox.len(), 1);
    assert!(matches!(inbox[0], GuestEvent::OperationFailed { op: o } if o == op));
}

#[test]
fn callback_after_unload_runs_once_as_a_no_op() {
    let (mut host, pres) = dfr_host();
    let op = dfr_accept(&mut host, pres, dfr_play("http://assets/a.ogg", 1));
    host.unload_module(pres).unwrap();
    // the operation was not aborted; its outcome still arrives
    host.bridge.complete(op, Outcome::Success).unwrap();
    assert!(host.apply_next_callback());
    // and is applied against the absent module state: nothing happens
    assert_eq!(host.world.audio_commands.len(), 0);
    assert_eq!(host.modules.len(), 0);
    assert!(!host.apply_next_callback());
}

#[test]
fn completing_an_unknown_operation_is_refused() {
    let (mut host, pres) = dfr_host();
    let op = dfr_accept(&mut host, pres, dfr_play("http://assets/a.ogg", 1));
    assert_eq!(host.bridge.complete(op + 1, Outcome::Success).unwrap_err(), HostError::NotFound);
    host.bridge.complete(op, Outcome::Success).unwrap();
    // an operation completes exactly once
    assert_eq!(host.bridge.complete(op, Outcome::Success).unwrap_err(), HostError::NotFound);
}
