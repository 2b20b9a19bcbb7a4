//! The host's model of the shared simulation world, as far as the bridge
//! reads and writes it.
//!
//! The world itself (the entity store, the renderer, the audio mixer, the
//! physics solver) lives with external collaborators. What the bridge owns
//! is the data its handlers read — which resources are present, the latest
//! input snapshots, which entities carry cameras — and the command logs its
//! handlers append to, which the collaborators consume in order. The
//! `Host` owns exactly one `World` and hands no reference out: every
//! handler runs against it one at a time, for the duration of its call
//! only, which is what keeps world access sequenced.

use vstd::prelude::*;

use crate::descriptor::Vec2Bits;
use crate::descriptor::Vec3Bits;

verus! {

/// The platform the presentation window runs on; decides how a cursor
/// grab is performed.
#[derive(Clone, Copy, Debug, PartialEq, Eq, Structural)]
pub enum Platform {
    Windows,
    Linux,
    MacOs,
    Other,
}

/// The closed set of cursor icons a guest can ask for.
#[derive(Clone, Copy, Debug, PartialEq, Eq, Structural)]
pub enum CursorIcon {
    Default,
    Crosshair,
    Hand,
    Arrow,
    Move,
    Text,
    Wait,
    Help,
    Progress,
    NotAllowed,
    Grab,
    Grabbing,
}

/// How the window collaborator should hold the cursor.
#[derive(Clone, Copy, Debug, PartialEq, Eq, Structural)]
pub enum GrabMode {
    /// The cursor moves freely.
    Off,
    /// The cursor is confined to the window (how Windows and Linux lock).
    Confined,
    /// The cursor is locked in place (how macOS locks).
    Locked,
}

/// A command for the window collaborator, applied in log order.
#[derive(Clone, Copy, Debug, PartialEq, Eq, Structural)]
pub enum WindowCommand {
    SetCursorIcon(CursorIcon),
    ShowCursor(bool),
    GrabCursor(GrabMode),
    SetFullscreen(bool),
}

/// A command for the audio mixer collaborator, applied in log order.
#[derive(Clone, Debug)]
pub enum AudioCommand {
    /// Start playing a decoded track.
    Track { url: String, looping: bool, volume_bits: u32, uid: u32 },
    /// Stop every playback of a track.
    Stop { url: String },
    /// Change the volume of every playback of a track.
    UpdateVolume { url: String, volume_bits: u32 },
    /// Stop the playback started under this uid.
    StopById { uid: u32 },
}

/// One raw input snapshot, as the input collaborator last published it.
#[derive(Clone, Debug)]
pub struct InputSnapshot {
    /// Key codes currently held down.
    pub keys: Vec<u32>,
    /// Cursor position in screen space.
    pub mouse_position: Vec2Bits,
    /// Mouse wheel accumulation.
    pub mouse_wheel_bits: u32,
    /// Mouse buttons currently held, one bit per button.
    pub buttons: u32,
}

/// Two input snapshots carry the same data.
pub open spec fn input_eq(a: InputSnapshot, b: InputSnapshot) -> bool {
    &&& a.keys@ == b.keys@
    &&& a.mouse_position == b.mouse_position
    &&& a.mouse_wheel_bits == b.mouse_wheel_bits
    &&& a.buttons == b.buttons
}

impl InputSnapshot {
    /// A field-for-field copy of the snapshot.
    pub fn duplicate(&self) -> (r: InputSnapshot)
        ensures
            input_eq(r, *self),
    {
        let mut keys: Vec<u32> = Vec::new();
        let mut i: usize = 0;
        while i < self.keys.len()
            invariant
                i <= self.keys@.len(),
                keys@ == self.keys@.subrange(0, i as int),
            decreases self.keys@.len() - i,
        {
            keys.push(self.keys[i]);
            proof {
                assert(keys@ =~= self.keys@.subrange(0, i + 1));
            }
            i = i + 1;
        }
        proof {
            assert(keys@ =~= self.keys@);
        }
        InputSnapshot {
            keys,
            mouse_position: self.mouse_position,
            mouse_wheel_bits: self.mouse_wheel_bits,
            buttons: self.buttons,
        }
    }

    /// A snapshot with nothing pressed.
    pub fn empty() -> (r: InputSnapshot)
        ensures
            r.keys@.len() == 0,
            r.mouse_position == (Vec2Bits { x: 0, y: 0 }),
            r.mouse_wheel_bits == 0,
            r.buttons == 0,
    {
        InputSnapshot {
            keys: Vec::new(),
            mouse_position: Vec2Bits { x: 0, y: 0 },
            mouse_wheel_bits: 0,
            buttons: 0,
        }
    }
}

/// A character-movement request the physics collaborator will apply.
#[derive(Clone, Copy, Debug, PartialEq, Eq, Structural)]
pub struct CharacterMove {
    pub entity: u64,
    pub displacement: Vec3Bits,
    pub min_distance_bits: u32,
    pub elapsed_bits: u32,
}

/// The bridge's view of the world: resources handlers read, and command
/// logs collaborators consume.
pub struct World {
    /// The active peer connection, if a session is established. Absent on
    /// a world that is not connected; peer sends then fail their
    /// precondition.
    pub connection: Option<u64>,
    /// The platform the window runs on.
    pub platform: Platform,
    /// The entity of the local player, once the session has one.
    pub local_player: Option<u64>,
    /// The latest input snapshot.
    pub input_current: InputSnapshot,
    /// The snapshot before it.
    pub input_previous: InputSnapshot,
    /// Entities carrying a camera, as the entity store last published.
    pub cameras: Vec<u64>,
    /// Commands for the window collaborator.
    pub window_commands: Vec<WindowCommand>,
    /// Commands for the audio mixer.
    pub audio_commands: Vec<AudioCommand>,
    /// Asset URLs whose download the asset cache was asked to start early.
    pub asset_peeks: Vec<String>,
    /// Movement requests for the physics solver.
    pub character_moves: Vec<CharacterMove>,
}

impl World {
    /// A fresh, unconnected world.
    pub fn new(platform: Platform) -> (r: World)
        ensures
            r.connection is None,
            r.platform == platform,
            r.local_player is None,
            r.cameras@.len() == 0,
            r.window_commands@.len() == 0,
            r.audio_commands@.len() == 0,
            r.asset_peeks@.len() == 0,
            r.character_moves@.len() == 0,
    {
        World {
            connection: None,
            platform,
            local_player: None,
            input_current: InputSnapshot::empty(),
            input_previous: InputSnapshot::empty(),
            cameras: Vec::new(),
            window_commands: Vec::new(),
            audio_commands: Vec::new(),
            asset_peeks: Vec::new(),
            character_moves: Vec::new(),
        }
    }

    /// Is `entity` currently a camera?
    pub fn has_camera(&self, entity: u64) -> (r: bool)
        ensures
            r == self.cameras@.contains(entity),
    {
        let mut i: usize = 0;
        while i < self.cameras.len()
            invariant
                i <= self.cameras@.len(),
                forall|j: int| 0 <= j < i ==> self.cameras@[j] != entity,
            decreases self.cameras@.len() - i,
        {
            if self.cameras[i] == entity {
                return true;
            }
            i = i + 1;
        }
        false
    }
}

} // verus!
