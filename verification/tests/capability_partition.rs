use module_host::capability::{op_supported, Operation, Role};
use module_host::descriptor::Vec3Bits;
use module_host::error::HostError;
use module_host::host::{Call, CallOutput, Host};
use module_host::world::Platform;

fn partition_host() -> (Host, u64, u64) {
    let mut host = Host::new(Platform::Linux);
    let auth = host.load_module(Role::Authoritative);
    let pres = host.load_module(Role::Presentational);
    (host, auth, pres)
}

#[test]
fn unsupported_is_independent_of_arguments() {
    let (mut host, _auth, pres) = partition_host();
    // a server-only capability on the presentational role: rejected for
    // any argument values
    let r1 = host.dispatch(
        pres,
        Call::MoveCharacter {
            entity: 1,
            displacement: Vec3Bits { x: 0, y: 0, z: 0 },
            min_distance_bits: 0,
            elapsed_bits: 0,
        },
    );
    let r2 = host.dispatch(
        pres,
        Call::MoveCharacter {
            entity: 999,
            displacement: Vec3Bits { x: 77, y: 1, z: 4_000_000_000 },
            min_distance_bits: 123,
            elapsed_bits: 456,
        },
    );
    assert_eq!(r1.unwrap_err(), HostError::Unsupported);
    assert_eq!(r2.unwrap_err(), HostError::Unsupported);
}

#[test]
fn input_has_no_meaning_on_the_authoritative_role() {
    let (mut host, auth, _pres) = partition_host();
    assert_eq!(host.dispatch(auth, Call::GetInput).unwrap_err(), HostError::Unsupported);
    assert_eq!(
        host.dispatch(auth, Call::GetPreviousInput).unwrap_err(),
        HostError::Unsupported
    );
    assert_eq!(host.dispatch(auth, Call::GetLocalPlayer).unwrap_err(), HostError::Unsupported);
    assert_eq!(
        host.dispatch(auth, Call::SetFullscreen { fullscreen: true }).unwrap_err(),
        HostError::Unsupported
    );
}

#[test]
fn screen_ray_is_implemented_on_neither_role() {
    let (mut host, auth, pres) = partition_host();
    for module in [auth, pres] {
        let r = host.dispatch(
            module,
            Call::ScreenRay {
                camera: 1,
                clip_pos: module_host::descriptor::Vec2Bits { x: 0, y: 0 },
            },
        );
        assert_eq!(r.unwrap_err(), HostError::Unsupported);
    }
}

#[test]
fn registry_operations_are_shared_by_both_roles() {
    assert!(op_supported(Role::Authoritative, Operation::CreateMesh));
    assert!(op_supported(Role::Presentational, Operation::CreateMesh));
    assert!(op_supported(Role::Authoritative, Operation::DestroyMaterial));
    assert!(op_supported(Role::Presentational, Operation::DestroyMaterial));
    assert!(op_supported(Role::Authoritative, Operation::SendLocalBroadcast));
    assert!(op_supported(Role::Presentational, Operation::SendLocalBroadcast));
}

#[test]
fn peer_sends_belong_to_the_presentational_role() {
    assert!(!op_supported(Role::Authoritative, Operation::SendPeerReliable));
    assert!(!op_supported(Role::Authoritative, Operation::SendPeerUnreliable));
    assert!(op_supported(Role::Presentational, Operation::SendPeerReliable));
    assert!(op_supported(Role::Presentational, Operation::SendPeerUnreliable));
    assert!(op_supported(Role::Authoritative, Operation::MoveCharacter));
    assert!(!op_supported(Role::Presentational, Operation::MoveCharacter));
}

#[test]
fn server_only_capability_mutates_nothing_on_presentational() {
    let (mut host, _auth, pres) = partition_host();
    let r = host.dispatch(
        pres,
        Call::MoveCharacter {
            entity: 5,
            displacement: Vec3Bits {
                x: 1.0f32.to_bits(),
                y: 0.0f32.to_bits(),
                z: 0.0f32.to_bits(),
            },
            min_distance_bits: 0.01f32.to_bits(),
            elapsed_bits: 0.016f32.to_bits(),
        },
    );
    assert_eq!(r.unwrap_err(), HostError::Unsupported);
    assert_eq!(host.world.character_moves.len(), 0);
    assert_eq!(host.world.window_commands.len(), 0);
    assert_eq!(host.world.audio_commands.len(), 0);
    assert_eq!(host.registry.slots.len(), 0);
    assert_eq!(host.channel.reliable.len(), 0);
}

#[test]
fn module_ids_are_never_reused() {
    let mut host = Host::new(Platform::Linux);
    let a = host.load_module(Role::Authoritative);
    host.unload_module(a).unwrap();
    let b = host.load_module(Role::Authoritative);
    let c = host.load_module(Role::Presentational);
    assert_ne!(a, b);
    assert_ne!(a, c);
    assert_ne!(b, c);
}

#[test]
fn dispatch_from_an_unloaded_module_is_not_found() {
    let (mut host, _auth, _pres) = partition_host();
    let r = host.dispatch(42, Call::GetInput);
    assert_eq!(r.unwrap_err(), HostError::NotFound);
}

#[test]
fn move_character_on_authoritative_reaches_the_solver_log() {
    let (mut host, auth, _pres) = partition_host();
    let r = host.dispatch(
        auth,
        Call::MoveCharacter {
            entity: 5,
            displacement: Vec3Bits {
                x: 1.0f32.to_bits(),
                y: 2.0f32.to_bits(),
                z: 0.0f32.to_bits(),
            },
            min_distance_bits: 0.01f32.to_bits(),
            elapsed_bits: 0.016f32.to_bits(),
        },
    );
    assert!(matches!(r, Ok(CallOutput::Unit)));
    assert_eq!(host.world.character_moves.len(), 1);
    assert_eq!(host.world.character_moves[0].entity, 5);
    assert_eq!(host.world.character_moves[0].displacement.y, 2.0f32.to_bits());
}
