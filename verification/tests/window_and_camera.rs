use module_host::capability::Role;
use module_host::descriptor::{RayBits, Vec2Bits, Vec3Bits};
use module_host::error::HostError;
use module_host::host::{check_asset_url, Call, CallOutput, Host};
use module_host::world::{CursorIcon, GrabMode, Platform, WindowCommand};

fn win_host(platform: Platform) -> (Host, u64) {
    let mut host = Host::new(platform);
    let pres = host.load_module(Role::Presentational);
    (host, pres)
}

#[test]
fn cursor_commands_reach_the_window_log_in_order() {
    let (mut host, pres) = win_host(Platform::Linux);
    host.dispatch(pres, Call::SetCursor { icon: CursorIcon::Crosshair }).unwrap();
    host.dispatch(pres, Call::SetCursorVisible { visible: false }).unwrap();
    host.dispatch(pres, Call::SetFullscreen { fullscreen: true }).unwrap();
    assert_eq!(
        host.world.window_commands,
        vec![
            WindowCommand::SetCursorIcon(CursorIcon::Crosshair),
            WindowCommand::ShowCursor(false),
            WindowCommand::SetFullscreen(true),
        ]
    );
}

#[test]
fn cursor_lock_confines_on_linux_and_windows() {
    for platform in [Platform::Linux, Platform::Windows] {
        let (mut host, pres) = win_host(platform);
        host.dispatch(pres, Call::SetCursorLock { lock: true }).unwrap();
        assert_eq!(
            host.world.window_commands,
            vec![WindowCommand::GrabCursor(GrabMode::Confined)]
        );
    }
}

#[test]
fn cursor_lock_locks_on_macos_and_fails_elsewhere() {
    let (mut host, pres) = win_host(Platform::MacOs);
    host.dispatch(pres, Call::SetCursorLock { lock: true }).unwrap();
    assert_eq!(host.world.window_commands, vec![WindowCommand::GrabCursor(GrabMode::Locked)]);

    let (mut other, pres2) = win_host(Platform::Other);
    let r = other.dispatch(pres2, Call::SetCursorLock { lock: true });
    assert_eq!(r.unwrap_err(), HostError::Unsupported);
    assert_eq!(other.world.window_commands.len(), 0);
    // releasing the cursor works on every platform
    other.dispatch(pres2, Call::SetCursorLock { lock: false }).unwrap();
    assert_eq!(other.world.window_commands, vec![WindowCommand::GrabCursor(GrabMode::Off)]);
}

#[test]
fn clip_space_ray_reverses_the_projected_direction() {
    let (mut host, pres) = win_host(Platform::Linux);
    host.world.cameras.push(11);
    let projected = RayBits {
        origin: Vec3Bits { x: 1.0f32.to_bits(), y: 2.0f32.to_bits(), z: 3.0f32.to_bits() },
        dir: Vec3Bits { x: 0.5f32.to_bits(), y: (-0.25f32).to_bits(), z: 1.0f32.to_bits() },
    };
    let r = host.dispatch(pres, Call::ClipSpaceRay { camera: 11, projected });
    match r {
        Ok(CallOutput::Ray(ray)) => {
            assert_eq!(ray.origin, projected.origin);
            assert_eq!(ray.dir.x, (-0.5f32).to_bits());
            assert_eq!(ray.dir.y, 0.25f32.to_bits());
            assert_eq!(ray.dir.z, (-1.0f32).to_bits());
        },
        other => panic!("expected a ray, got {other:?}"),
    }
}

#[test]
fn camera_calls_need_a_camera_entity() {
    let (mut host, pres) = win_host(Platform::Linux);
    let projected = RayBits {
        origin: Vec3Bits { x: 0, y: 0, z: 0 },
        dir: Vec3Bits { x: 0, y: 0, z: 0 },
    };
    let r = host.dispatch(pres, Call::ClipSpaceRay { camera: 4, projected });
    assert_eq!(r.unwrap_err(), HostError::NotFound);
    let r2 = host.dispatch(
        pres,
        Call::WorldToScreen {
            camera: 4,
            projected: Vec2Bits { x: 0, y: 0 },
        },
    );
    assert_eq!(r2.unwrap_err(), HostError::NotFound);
}

#[test]
fn screen_to_clip_space_passes_the_projection_through() {
    let (mut host, pres) = win_host(Platform::Linux);
    let p = Vec2Bits { x: 0.25f32.to_bits(), y: (-0.75f32).to_bits() };
    let r = host.dispatch(pres, Call::ScreenToClipSpace { projected: p });
    match r {
        Ok(CallOutput::Point(q)) => assert_eq!(q, p),
        other => panic!("expected a point, got {other:?}"),
    }
}

#[test]
fn input_snapshots_are_returned_as_published() {
    let (mut host, pres) = win_host(Platform::Linux);
    host.world.input_current.keys = vec![17, 30];
    host.world.input_current.buttons = 0b101;
    host.world.input_previous.keys = vec![17];
    match host.dispatch(pres, Call::GetInput) {
        Ok(CallOutput::Input(s)) => {
            assert_eq!(s.keys, vec![17, 30]);
            assert_eq!(s.buttons, 0b101);
        },
        other => panic!("expected input, got {other:?}"),
    }
    match host.dispatch(pres, Call::GetPreviousInput) {
        Ok(CallOutput::Input(s)) => assert_eq!(s.keys, vec![17]),
        other => panic!("expected input, got {other:?}"),
    }
}

#[test]
fn local_player_lookup_fails_until_one_exists() {
    let (mut host, pres) = win_host(Platform::Linux);
    // the local player is a world resource; before the session has one,
    // the lookup fails as a missing precondition
    assert_eq!(
        host.dispatch(pres, Call::GetLocalPlayer).unwrap_err(),
        HostError::PreconditionMissing
    );
    host.world.local_player = Some(21);
    match host.dispatch(pres, Call::GetLocalPlayer) {
        Ok(CallOutput::Entity(e)) => assert_eq!(e, 21),
        other => panic!("expected an entity, got {other:?}"),
    }
}

#[test]
fn asset_url_shape_is_checked_exactly() {
    assert!(check_asset_url("http://a"));
    assert!(check_asset_url("https://assets.example/pack/a.ogg"));
    assert!(check_asset_url("file://x"));
    assert!(!check_asset_url(""));
    assert!(!check_asset_url("relative/path.ogg"));
    assert!(!check_asset_url("://missing-scheme"));
    assert!(!check_asset_url("9ttp://digit-first"));
    assert!(!check_asset_url("http:/one-slash"));
    assert!(!check_asset_url("http"));
}

#[test]
fn error_descriptions_are_stable() {
    assert_eq!(
        HostError::Unsupported.describe(),
        "operation not supported on this role"
    );
    assert_eq!(HostError::NotFound.describe(), "handle or module not found");
    assert_eq!(HostError::InvalidArgument.describe(), "argument failed validation");
    assert_eq!(
        HostError::PreconditionMissing.describe(),
        "required world resource is absent"
    );
    assert_eq!(HostError::OperationFailed.describe(), "deferred operation failed");
}
