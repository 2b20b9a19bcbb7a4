//! The host: one world, many modules, one dispatch gate.
//!
//! A `Host` owns the world model, the resource registry, the message
//! channel and the deferred bridge. Guest calls enter through
//! [`Host::dispatch`] alone, one call at a time against the exclusively
//! owned state — no handler ever holds world access beyond its own call.
//! Between call batches, the synchronization points run:
//! [`Host::deliver_next_local`] moves queued local messages into module
//! inboxes, and [`Host::apply_next_callback`] applies completed
//! long-running operations in completion order.

use vstd::prelude::*;

use crate::capability::Operation;
use crate::capability::Role;
use crate::capability::op_supported;
use crate::capability::supports;
use crate::channel::LocalQueued;
use crate::channel::MessageChannel;
use crate::channel::MessageTarget;
use crate::channel::NetSend;
use crate::deferred::DeferredBridge;
use crate::deferred::LongRunning;
use crate::deferred::PendingOp;
use crate::deferred::Outcome;
use crate::descriptor::MaterialDescriptor;
use crate::descriptor::MeshDescriptor;
use crate::descriptor::RayBits;
use crate::descriptor::SamplerDescriptor;
use crate::descriptor::TextureDescriptor2d;
use crate::descriptor::Vec2Bits;
use crate::descriptor::Vec3Bits;
use crate::error::HostError;
use crate::handle::Handle;
use crate::handle::ResourceKind;
use crate::registry::Registry;
use crate::registry::Resource;
use crate::registry::resource_kind;
use crate::world::AudioCommand;
use crate::world::CharacterMove;
use crate::world::CursorIcon;
use crate::world::GrabMode;
use crate::world::InputSnapshot;
use crate::world::input_eq;
use crate::world::Platform;
use crate::world::World;
use crate::world::WindowCommand;

verus! {

/// What a module finds in its inbox at the next dispatch opportunity.
#[derive(Clone, Debug)]
pub enum GuestEvent {
    /// A locally delivered message from another module.
    Message { origin: u64, name: String, payload: Vec<u8> },
    /// A long-running operation of this module failed; delivered only
    /// through the deferred path, never synchronously.
    OperationFailed { op: u64 },
}

/// One loaded module: its identity, its fixed role, and its inbox.
pub struct ModuleEntry {
    pub id: u64,
    pub role: Role,
    pub inbox: Vec<GuestEvent>,
}

/// The host-side bridge state.
pub struct Host {
    /// The id the next loaded module gets; ids are unique for the life of
    /// the host and never reused.
    pub next_module: u64,
    pub modules: Vec<ModuleEntry>,
    pub registry: Registry,
    pub channel: MessageChannel,
    pub bridge: DeferredBridge,
    pub world: World,
}

impl Host {
    /// Loaded modules carry distinct ids below the id source, and the
    /// owned components are well formed.
    pub open spec fn wf(self) -> bool {
        &&& self.registry.wf()
        &&& self.bridge.wf()
        &&& forall|i: int|
            0 <= i < self.modules@.len() ==> (#[trigger] self.modules@[i]).id < self.next_module
        &&& self.ids_unique()
    }

    /// No two loaded modules share an id.
    pub open spec fn ids_unique(self) -> bool {
        forall|i: int, j: int|
            0 <= i < self.modules@.len() && 0 <= j < self.modules@.len() && i != j ==> (
            #[trigger] self.modules@[i]).id != (#[trigger] self.modules@[j]).id
    }

    /// Is a module with this id loaded?
    pub open spec fn module_loaded(self, id: u64) -> bool {
        exists|i: int| 0 <= i < self.modules@.len() && (#[trigger] self.modules@[i]).id == id
    }

    /// The position of a loaded module in the table.
    pub open spec fn module_idx(self, id: u64) -> int {
        choose|i: int| 0 <= i < self.modules@.len() && (#[trigger] self.modules@[i]).id == id
    }

    /// The role a loaded module was created with.
    pub open spec fn role_of(self, id: u64) -> Role {
        self.modules@[self.module_idx(id)].role
    }

    /// With distinct ids, an index bearing `id` is the chosen one.
    proof fn lemma_idx_unique(self, id: u64, i: int)
        requires
            self.ids_unique(),
            0 <= i < self.modules@.len(),
            self.modules@[i].id == id,
        ensures
            self.module_loaded(id),
            self.module_idx(id) == i,
            self.role_of(id) == self.modules@[i].role,
    {
        assert(self.module_loaded(id));
        let k = self.module_idx(id);
        assert(self.modules@[k].id == id);
        if k != i {
            assert(self.modules@[k].id != self.modules@[i].id);
        }
    }


    /// Removing one module's entry keeps every other module loaded, under
    /// its old role, and retires the removed id.
    #[verifier::rlimit(100)]
    pub proof fn lemma_unload_modules(pre: Host, post: Host, i: int, id: u64)
        requires
            pre.ids_unique(),
            0 <= i < pre.modules@.len(),
            pre.modules@[i].id == id,
            post.modules@ == pre.modules@.remove(i),
        ensures
            post.ids_unique(),
            !post.module_loaded(id),
            forall|m: u64|
                pre.module_loaded(m) && m != id ==> #[trigger] post.module_loaded(m)
                    && post.role_of(m) == pre.role_of(m),
            forall|m: u64| #[trigger] post.module_loaded(m) ==> pre.module_loaded(m) && m != id,
    {
        assert forall|a: int, b: int|
            0 <= a < post.modules@.len() && 0 <= b < post.modules@.len() && a != b implies (
        #[trigger] post.modules@[a]).id != (#[trigger] post.modules@[b]).id by {
            let a0: int = if a < i { a } else { a + 1 };
            let b0: int = if b < i { b } else { b + 1 };
            assert(post.modules@[a] == pre.modules@[a0]);
            assert(post.modules@[b] == pre.modules@[b0]);
            assert(pre.modules@[a0].id != pre.modules@[b0].id);
        }
        assert forall|m: u64| pre.module_loaded(m) && m != id implies
            #[trigger] post.module_loaded(m) && post.role_of(m) == pre.role_of(m) by {
            let j = choose|j: int|
                0 <= j < pre.modules@.len() && (#[trigger] pre.modules@[j]).id == m;
            pre.lemma_idx_unique(m, j);
            if j < i {
                assert(post.modules@[j].id == m);
                post.lemma_idx_unique(m, j);
            } else {
                assert(j != i) by {
                    assert(pre.modules@[i].id == id);
                }
                assert(post.modules@[j - 1] == pre.modules@[j]);
                post.lemma_idx_unique(m, j - 1);
            }
        }
        assert forall|m: u64| #[trigger] post.module_loaded(m) implies pre.module_loaded(m) && m
            != id by {
            let j = choose|j: int|
                0 <= j < post.modules@.len() && (#[trigger] post.modules@[j]).id == m;
            if j < i {
                assert(pre.modules@[j].id == m);
            } else {
                assert(pre.modules@[j + 1].id == m);
            }
            if m == id {
                assert(pre.modules@[i].id == id);
            }
        }
        if post.module_loaded(id) {
            assert(false);
        }
    }

    /// A fresh host over an unconnected world, with no modules loaded.
    pub fn new(platform: Platform) -> (r: Host)
        ensures
            r.wf(),
            r.next_module == 0,
            r.modules@.len() == 0,
            r.registry.slots@.len() == 0,
            r.registry.resources@.len() == 0,
            r.channel.reliable@.len() == 0,
            r.channel.unreliable@.len() == 0,
            r.channel.local_pending@.len() == 0,
            r.bridge.queue@.len() == 0,
            r.bridge.pending@.len() == 0,
            r.bridge.next_op == 0,
            r.world.connection is None,
            r.world.platform == platform,
            r.world.local_player is None,
            r.world.cameras@.len() == 0,
            r.world.window_commands@.len() == 0,
            r.world.audio_commands@.len() == 0,
            r.world.asset_peeks@.len() == 0,
            r.world.character_moves@.len() == 0,
    {
        Host {
            next_module: 0,
            modules: Vec::new(),
            registry: Registry::new(),
            channel: MessageChannel::new(),
            bridge: DeferredBridge::new(),
            world: World::new(platform),
        }
    }

    /// Find a loaded module's position by id.
    fn find_module(&self, id: u64) -> (r: Option<usize>)
        requires
            self.wf(),
        ensures
            match r {
                Some(i) => i < self.modules@.len() && self.modules@[i as int].id == id
                    && self.module_loaded(id) && i == self.module_idx(id),
                None => !self.module_loaded(id),
            },
    {
        let mut i: usize = 0;
        while i < self.modules.len()
            invariant
                self.ids_unique(),
                i <= self.modules@.len(),
                forall|j: int| 0 <= j < i ==> (#[trigger] self.modules@[j]).id != id,
            decreases self.modules@.len() - i,
        {
            if self.modules[i].id == id {
                proof {
                    self.lemma_idx_unique(id, i as int);
                }
                return Some(i);
            }
            i = i + 1;
        }
        None
    }

    /// Load a module under the given role. The role is fixed for the
    /// module's lifetime; the returned id has never been used before and
    /// never will be again.
    pub fn load_module(&mut self, role: Role) -> (id: u64)
        requires
            old(self).wf(),
            old(self).next_module < u64::MAX,
        ensures
            final(self).wf(),
            id == old(self).next_module,
            !old(self).module_loaded(id),
            final(self).module_loaded(id),
            final(self).role_of(id) == role,
            final(self).next_module == old(self).next_module + 1,
            final(self).modules@.len() == old(self).modules@.len() + 1,
            forall|i: int|
                0 <= i < old(self).modules@.len() ==> final(self).modules@[i]
                    == old(self).modules@[i],
            final(self).modules@[old(self).modules@.len() as int].id == id,
            final(self).modules@[old(self).modules@.len() as int].role == role,
            final(self).modules@[old(self).modules@.len() as int].inbox@.len() == 0,
            final(self).registry == old(self).registry,
            final(self).channel == old(self).channel,
            final(self).bridge == old(self).bridge,
            final(self).world == old(self).world,
            forall|m: u64|
                old(self).module_loaded(m) ==> #[trigger] final(self).module_loaded(m)
                    && final(self).role_of(m) == old(self).role_of(m),
    {
        let id = self.next_module;
        self.next_module = self.next_module + 1;
        self.modules.push(ModuleEntry { id, role, inbox: Vec::new() });
        proof {
            self.lemma_idx_unique(id, old(self).modules@.len() as int);
            assert forall|m: u64| old(self).module_loaded(m) implies #[trigger] self.module_loaded(
                m,
            ) && self.role_of(m) == old(self).role_of(m) by {
                let i = choose|i: int|
                    0 <= i < old(self).modules@.len() && (#[trigger] old(self).modules@[i]).id
                        == m;
                old(self).lemma_idx_unique(m, i);
                assert(self.modules@[i].id == m);
                self.lemma_idx_unique(m, i);
            }
        }
        id
    }

    /// Unload a module: its entry leaves the table, every resource it
    /// created is destroyed (shared backing objects survive while other
    /// holders remain), and its id is retired forever. In-flight
    /// long-running operations are not aborted: their callbacks, when
    /// they arrive, run once and are applied as no-ops against the absent
    /// module state.
    #[verifier::rlimit(60)]
    #[verifier::spinoff_prover]
    pub fn unload_module(&mut self, id: u64) -> (r: Result<(), HostError>)
        requires
            old(self).wf(),
        ensures
            final(self).wf(),
            r is Ok <==> old(self).module_loaded(id),
            r matches Err(e) ==> e == HostError::NotFound && *final(self) == *old(self),
            r is Ok ==> !final(self).module_loaded(id),
            r is Ok ==> final(self).modules@ == old(self).modules@.remove(
                old(self).module_idx(id),
            ),
            old(self).registry.evolves_to(final(self).registry),
            r is Ok ==> forall|h: Handle|
                #[trigger] final(self).registry.handle_live(h) ==> old(
                    self,
                ).registry.handle_live(h) && old(self).registry.slots@[h.index as int].owner != id,
            r is Ok ==> forall|h: Handle|
                old(self).registry.handle_live(h) && old(self).registry.slots@[h.index as int].owner
                    != id ==> #[trigger] final(self).registry.handle_live(h),
            final(self).channel == old(self).channel,
            final(self).bridge == old(self).bridge,
            final(self).world == old(self).world,
            final(self).next_module == old(self).next_module,
    {
        let i = match self.find_module(id) {
            Some(i) => i,
            None => {
                proof {
                    Registry::lemma_evolves_refl(self.registry);
                }
                return Err(HostError::NotFound);
            },
        };
        let _ = self.modules.remove(i);
        self.registry.destroy_owned(id);
        proof {
            Host::lemma_unload_modules(*old(self), *self, i as int, id);
        }
        Ok(())
    }
}

/// An ASCII letter, as URL schemes are made of.
pub open spec fn is_scheme_char(c: char) -> bool {
    ('a' <= c && c <= 'z') || ('A' <= c && c <= 'Z')
}

/// The shape an absolute asset URL must have before the asset collaborator
/// is asked to fetch it: a non-empty scheme of letters, then `://`, at a
/// unique position. A relative or malformed URL fails the call
/// synchronously with `InvalidArgument`.
pub open spec fn is_asset_url(s: Seq<char>) -> bool {
    exists|i: int| #[trigger] url_scheme_at(s, i)
}

/// Position `i` ends a well-formed scheme prefix followed by `://`.
pub open spec fn url_scheme_at(s: Seq<char>, i: int) -> bool {
    &&& 1 <= i
    &&& i + 3 <= s.len()
    &&& (forall|j: int| 0 <= j < i ==> is_scheme_char(#[trigger] s[j]))
    &&& s[i] == ':'
    &&& s[i + 1] == '/'
    &&& s[i + 2] == '/'
}

/// Executable check of the asset-URL shape.
pub fn check_asset_url(s: &str) -> (r: bool)
    ensures
        r == is_asset_url(s@),
{
    let n = s.unicode_len();
    let mut i: usize = 0;
    while i < n
        invariant
            n == s@.len(),
            i <= n,
            forall|j: int| 0 <= j < i ==> is_scheme_char(#[trigger] s@[j]),
        decreases n - i,
    {
        let c = s.get_char(i);
        if !(('a' <= c && c <= 'z') || ('A' <= c && c <= 'Z')) {
            // the scheme can only end at the first non-letter
            let ok = i >= 1 && n - i >= 3 && c == ':' && s.get_char(i + 1) == '/' && s.get_char(
                i + 2,
            ) == '/';
            proof {
                if ok {
                    assert(url_scheme_at(s@, i as int));
                } else {
                    assert forall|k: int| !url_scheme_at(s@, k) by {
                        if url_scheme_at(s@, k) {
                            if k < i {
                                assert(s@[k] == ':');
                                assert(is_scheme_char(s@[k]));
                            } else if k > i {
                                assert(is_scheme_char(s@[i as int]));
                            }
                        }
                    }
                }
            }
            return ok;
        }
        i = i + 1;
    }
    proof {
        assert forall|k: int| !url_scheme_at(s@, k) by {
            if url_scheme_at(s@, k) {
                assert(s@[k] == ':');
                assert(is_scheme_char(s@[k]));
            }
        }
    }
    false
}

/// One capability call, with its typed arguments.
///
/// Camera operations carry, besides the guest's arguments, the projection
/// the rendering collaborator computed for them (`projected`): the
/// geometry itself is floating-point work owned by that collaborator, and
/// crosses this boundary as bit patterns. The host decides whether the
/// call may use it and what is returned.
pub enum Call {
    SendMessage { target: MessageTarget, name: String, payload: Vec<u8> },
    GetLocalPlayer,
    GetInput,
    GetPreviousInput,
    SetCursor { icon: CursorIcon },
    SetCursorVisible { visible: bool },
    SetCursorLock { lock: bool },
    ClipSpaceRay { camera: u64, projected: RayBits },
    ScreenToClipSpace { projected: Vec2Bits },
    ScreenToWorldDirection { camera: u64, projected: RayBits },
    WorldToScreen { camera: u64, projected: Vec2Bits },
    ScreenRay { camera: u64, clip_pos: Vec2Bits },
    LoadAudio { url: String },
    PlayAudio { url: String, looping: bool, volume_bits: u32, uid: u32 },
    StopAudio { url: String },
    SetAudioVolume { url: String, volume_bits: u32 },
    StopAudioById { uid: u32 },
    SetFullscreen { fullscreen: bool },
    CreateMesh { desc: MeshDescriptor },
    DestroyMesh { handle: Handle },
    CreateTexture2d { desc: TextureDescriptor2d },
    DestroyTexture { handle: Handle },
    CreateSampler { desc: SamplerDescriptor },
    DestroySampler { handle: Handle },
    CreateMaterial { desc: MaterialDescriptor },
    DestroyMaterial { handle: Handle },
    MoveCharacter { entity: u64, displacement: Vec3Bits, min_distance_bits: u32, elapsed_bits: u32 },
}

/// The dispatch-table operation a call names.
pub open spec fn op_of(call: Call) -> Operation {
    match call {
        Call::SendMessage { target, .. } => match target {
            MessageTarget::PeerReliable => Operation::SendPeerReliable,
            MessageTarget::PeerUnreliable => Operation::SendPeerUnreliable,
            MessageTarget::LocalBroadcast => Operation::SendLocalBroadcast,
            MessageTarget::LocalDirected(_) => Operation::SendLocalDirected,
        },
        Call::GetLocalPlayer => Operation::GetLocalPlayer,
        Call::GetInput => Operation::GetInput,
        Call::GetPreviousInput => Operation::GetPreviousInput,
        Call::SetCursor { .. } => Operation::SetCursor,
        Call::SetCursorVisible { .. } => Operation::SetCursorVisible,
        Call::SetCursorLock { .. } => Operation::SetCursorLock,
        Call::ClipSpaceRay { .. } => Operation::ClipSpaceRay,
        Call::ScreenToClipSpace { .. } => Operation::ScreenToClipSpace,
        Call::ScreenToWorldDirection { .. } => Operation::ScreenToWorldDirection,
        Call::WorldToScreen { .. } => Operation::WorldToScreen,
        Call::ScreenRay { .. } => Operation::ScreenRay,
        Call::LoadAudio { .. } => Operation::LoadAudio,
        Call::PlayAudio { .. } => Operation::PlayAudio,
        Call::StopAudio { .. } => Operation::StopAudio,
        Call::SetAudioVolume { .. } => Operation::SetAudioVolume,
        Call::StopAudioById { .. } => Operation::StopAudioById,
        Call::SetFullscreen { .. } => Operation::SetFullscreen,
        Call::CreateMesh { .. } => Operation::CreateMesh,
        Call::DestroyMesh { .. } => Operation::DestroyMesh,
        Call::CreateTexture2d { .. } => Operation::CreateTexture2d,
        Call::DestroyTexture { .. } => Operation::DestroyTexture,
        Call::CreateSampler { .. } => Operation::CreateSampler,
        Call::DestroySampler { .. } => Operation::DestroySampler,
        Call::CreateMaterial { .. } => Operation::CreateMaterial,
        Call::DestroyMaterial { .. } => Operation::DestroyMaterial,
        Call::MoveCharacter { .. } => Operation::MoveCharacter,
    }
}

/// What a successful capability call hands back to the guest.
#[derive(Clone, Debug)]
pub enum CallOutput {
    /// Nothing beyond success.
    Unit,
    /// A handle to a freshly created resource.
    Created(Handle),
    /// An entity id.
    Entity(u64),
    /// An input snapshot.
    Input(InputSnapshot),
    /// A ray, as bit patterns.
    Ray(RayBits),
    /// A point, as bit patterns.
    Point(Vec2Bits),
    /// A long-running operation was accepted under this id; completion
    /// arrives later through the deferred callback path.
    Accepted(u64),
}

/// Negate one IEEE 754 single-precision value, on its bit pattern: the
/// sign bit flips and nothing else.
pub open spec fn negate_bits(b: u32) -> u32 {
    b ^ 0x8000_0000u32
}

/// A ray with its direction reversed, component by component.
pub open spec fn reverse_dir(ray: RayBits) -> RayBits {
    RayBits {
        origin: ray.origin,
        dir: Vec3Bits {
            x: negate_bits(ray.dir.x),
            y: negate_bits(ray.dir.y),
            z: negate_bits(ray.dir.z),
        },
    }
}

/// Executable direction reversal.
pub fn reverse_ray_dir(ray: RayBits) -> (r: RayBits)
    ensures
        r == reverse_dir(ray),
{
    RayBits {
        origin: ray.origin,
        dir: Vec3Bits {
            x: ray.dir.x ^ 0x8000_0000u32,
            y: ray.dir.y ^ 0x8000_0000u32,
            z: ray.dir.z ^ 0x8000_0000u32,
        },
    }
}


/// The cursor-grab decision per platform: confinement on Windows and
/// Linux, a hard lock on macOS, and no way to grab elsewhere. Releasing
/// works everywhere.
pub open spec fn grab_decision(platform: Platform, lock: bool) -> Option<GrabMode> {
    if !lock {
        Some(GrabMode::Off)
    } else {
        match platform {
            Platform::Windows => Some(GrabMode::Confined),
            Platform::Linux => Some(GrabMode::Confined),
            Platform::MacOs => Some(GrabMode::Locked),
            Platform::Other => None,
        }
    }
}

/// The world after one window command was appended, and nothing else.
pub open spec fn world_pushed_window(pre: World, post: World, cmd: WindowCommand) -> bool {
    &&& post.connection == pre.connection
    &&& post.platform == pre.platform
    &&& post.local_player == pre.local_player
    &&& post.input_current == pre.input_current
    &&& post.input_previous == pre.input_previous
    &&& post.cameras == pre.cameras
    &&& post.audio_commands == pre.audio_commands
    &&& post.asset_peeks == pre.asset_peeks
    &&& post.character_moves == pre.character_moves
    &&& post.window_commands@ == pre.window_commands@.push(cmd)
}

/// The world after one asset peek was appended, and nothing else.
pub open spec fn world_pushed_peek(pre: World, post: World, url: String) -> bool {
    &&& post.connection == pre.connection
    &&& post.platform == pre.platform
    &&& post.local_player == pre.local_player
    &&& post.input_current == pre.input_current
    &&& post.input_previous == pre.input_previous
    &&& post.cameras == pre.cameras
    &&& post.audio_commands == pre.audio_commands
    &&& post.window_commands == pre.window_commands
    &&& post.character_moves == pre.character_moves
    &&& post.asset_peeks@ == pre.asset_peeks@.push(url)
}

/// The world after one character move was appended, and nothing else.
pub open spec fn world_pushed_move(pre: World, post: World, mv: CharacterMove) -> bool {
    &&& post.connection == pre.connection
    &&& post.platform == pre.platform
    &&& post.local_player == pre.local_player
    &&& post.input_current == pre.input_current
    &&& post.input_previous == pre.input_previous
    &&& post.cameras == pre.cameras
    &&& post.audio_commands == pre.audio_commands
    &&& post.window_commands == pre.window_commands
    &&& post.asset_peeks == pre.asset_peeks
    &&& post.character_moves@ == pre.character_moves@.push(mv)
}

/// A bridge that accepted one operation under the next id.
pub open spec fn bridge_begun(
    pre: DeferredBridge,
    post: DeferredBridge,
    module: u64,
    work: LongRunning,
) -> bool {
    &&& post.next_op == pre.next_op + 1
    &&& post.pending@ == pre.pending@.push(PendingOp { op: pre.next_op, module, work })
    &&& post.queue@ == pre.queue@
}

/// A registry that allocated exactly one resource for `module`.
pub open spec fn reg_created(
    pre: Registry,
    post: Registry,
    module: u64,
    resource: Resource,
    h: Handle,
) -> bool {
    &&& post.handle_live(h)
    &&& h.kind == resource_kind(resource)
    &&& post.slots@[h.index as int].owner == module
    &&& post.object_of(h) == pre.resources@.len()
    &&& post.resources@ == pre.resources@.push(resource)
    &&& post.alive@ == pre.alive@.push(true)
    &&& pre.evolves_to(post)
    &&& forall|h2: Handle|
        pre.handle_live(h2) ==> #[trigger] post.handle_live(h2) && post.object_of(h2)
            == pre.object_of(h2)
    &&& forall|h2: Handle| #[trigger] post.handle_live(h2) ==> pre.handle_live(h2) || h2 == h
}

/// A registry in which exactly the resource of `h` was destroyed.
pub open spec fn reg_destroyed(pre: Registry, post: Registry, h: Handle) -> bool {
    &&& post.handle_stale(h)
    &&& !post.handle_live(h)
    &&& post.resources@ == pre.resources@
    &&& post.slots@.len() == pre.slots@.len()
    &&& pre.evolves_to(post)
    &&& forall|h2: Handle|
        pre.handle_live(h2) && h2 != h ==> #[trigger] post.handle_live(h2) && post.object_of(h2)
            == pre.object_of(h2)
    &&& forall|h2: Handle| #[trigger] post.handle_live(h2) ==> pre.handle_live(h2) && h2 != h
}


impl Host {
    /// Everything but the channel is untouched.
    pub open spec fn only_channel_changed(pre: Host, post: Host) -> bool {
        &&& post.next_module == pre.next_module
        &&& post.modules == pre.modules
        &&& post.registry == pre.registry
        &&& post.bridge == pre.bridge
        &&& post.world == pre.world
    }

    /// Everything but the world is untouched.
    pub open spec fn only_world_changed(pre: Host, post: Host) -> bool {
        &&& post.next_module == pre.next_module
        &&& post.modules == pre.modules
        &&& post.registry == pre.registry
        &&& post.bridge == pre.bridge
        &&& post.channel == pre.channel
    }

    /// Everything but the registry is untouched.
    pub open spec fn only_registry_changed(pre: Host, post: Host) -> bool {
        &&& post.next_module == pre.next_module
        &&& post.modules == pre.modules
        &&& post.world == pre.world
        &&& post.bridge == pre.bridge
        &&& post.channel == pre.channel
    }

    /// Everything but the deferred bridge is untouched.
    pub open spec fn only_bridge_changed(pre: Host, post: Host) -> bool {
        &&& post.next_module == pre.next_module
        &&& post.modules == pre.modules
        &&& post.world == pre.world
        &&& post.registry == pre.registry
        &&& post.channel == pre.channel
    }

    /// What `dispatch` does for a message send, once the module is loaded
    /// and its role's table implements the target's operation: a peer
    /// send needs the connection resource and goes to that channel's
    /// outbox; a local send joins the pending queue, a directed one only
    /// if its addressee is loaded. A failing send enqueues nothing.
    pub open spec fn send_post(
        pre: Host,
        post: Host,
        module: u64,
        target: MessageTarget,
        name: String,
        payload: Vec<u8>,
        r: Result<CallOutput, HostError>,
    ) -> bool {
        match target {
            MessageTarget::PeerReliable => match pre.world.connection {
                Some(c) => {
                    &&& r == Ok::<CallOutput, HostError>(CallOutput::Unit)
                    &&& Host::only_channel_changed(pre, post)
                    &&& post.channel.unreliable == pre.channel.unreliable
                    &&& post.channel.local_pending == pre.channel.local_pending
                    &&& post.channel.reliable@ == pre.channel.reliable@.push(
                        NetSend { connection: c, origin: module, name, payload },
                    )
                },
                None => r == Err::<CallOutput, HostError>(HostError::PreconditionMissing) && post
                    == pre,
            },
            MessageTarget::PeerUnreliable => match pre.world.connection {
                Some(c) => {
                    &&& r == Ok::<CallOutput, HostError>(CallOutput::Unit)
                    &&& Host::only_channel_changed(pre, post)
                    &&& post.channel.reliable == pre.channel.reliable
                    &&& post.channel.local_pending == pre.channel.local_pending
                    &&& post.channel.unreliable@ == pre.channel.unreliable@.push(
                        NetSend { connection: c, origin: module, name, payload },
                    )
                },
                None => r == Err::<CallOutput, HostError>(HostError::PreconditionMissing) && post
                    == pre,
            },
            MessageTarget::LocalBroadcast => {
                &&& r == Ok::<CallOutput, HostError>(CallOutput::Unit)
                &&& Host::only_channel_changed(pre, post)
                &&& post.channel.reliable == pre.channel.reliable
                &&& post.channel.unreliable == pre.channel.unreliable
                &&& post.channel.local_pending@ == pre.channel.local_pending@.push(
                    LocalQueued { origin: module, target: None, name, payload },
                )
            },
            MessageTarget::LocalDirected(t) => {
                if pre.module_loaded(t) {
                    &&& r == Ok::<CallOutput, HostError>(CallOutput::Unit)
                    &&& Host::only_channel_changed(pre, post)
                    &&& post.channel.reliable == pre.channel.reliable
                    &&& post.channel.unreliable == pre.channel.unreliable
                    &&& post.channel.local_pending@ == pre.channel.local_pending@.push(
                        LocalQueued { origin: module, target: Some(t), name, payload },
                    )
                } else {
                    r == Err::<CallOutput, HostError>(HostError::NotFound) && post == pre
                }
            },
        }
    }

    /// What a destroy call does: a live handle of the operation's kind is
    /// destroyed; any other handle gets `NotFound` and nothing changes.
    pub open spec fn destroy_post(
        pre: Host,
        post: Host,
        handle: Handle,
        kind: ResourceKind,
        r: Result<CallOutput, HostError>,
    ) -> bool {
        if handle.kind == kind && pre.registry.handle_live(handle) {
            &&& r == Ok::<CallOutput, HostError>(CallOutput::Unit)
            &&& Host::only_registry_changed(pre, post)
            &&& reg_destroyed(pre.registry, post.registry, handle)
        } else {
            r == Err::<CallOutput, HostError>(HostError::NotFound) && post == pre
        }
    }
}


impl Host {
    /// The full specification of one dispatched call: for every call
    /// shape and host state, what is returned and how the state moves.
    /// An unloaded module gets `NotFound`; an operation the module's role
    /// does not implement gets `Unsupported`, whatever its arguments; and
    /// every failing call leaves the host exactly as it was — no partial
    /// effects.
    pub open spec fn dispatch_post(
        pre: Host,
        post: Host,
        module: u64,
        call: Call,
        r: Result<CallOutput, HostError>,
    ) -> bool {
        if !pre.module_loaded(module) {
            r == Err::<CallOutput, HostError>(HostError::NotFound) && post == pre
        } else if !supports(pre.role_of(module), op_of(call)) {
            r == Err::<CallOutput, HostError>(HostError::Unsupported) && post == pre
        } else {
            Host::handled_post(pre, post, module, call, r)
        }
    }

    /// The per-operation behavior, once the module is loaded and its role
    /// implements the operation.
    pub open spec fn handled_post(
        pre: Host,
        post: Host,
        module: u64,
        call: Call,
        r: Result<CallOutput, HostError>,
    ) -> bool {
        match call {
            Call::SendMessage { target, name, payload } => Host::send_post(
                pre,
                post,
                module,
                target,
                name,
                payload,
                r,
            ),
            Call::GetLocalPlayer => match pre.world.local_player {
                Some(e) => r == Ok::<CallOutput, HostError>(CallOutput::Entity(e)) && post == pre,
                None => r == Err::<CallOutput, HostError>(HostError::PreconditionMissing) && post
                    == pre,
            },
            Call::GetInput => match r {
                Ok(CallOutput::Input(s)) => input_eq(s, pre.world.input_current) && post == pre,
                _ => false,
            },
            Call::GetPreviousInput => match r {
                Ok(CallOutput::Input(s)) => input_eq(s, pre.world.input_previous) && post == pre,
                _ => false,
            },
            Call::SetCursor { icon } => {
                &&& r == Ok::<CallOutput, HostError>(CallOutput::Unit)
                &&& Host::only_world_changed(pre, post)
                &&& world_pushed_window(pre.world, post.world, WindowCommand::SetCursorIcon(icon))
            },
            Call::SetCursorVisible { visible } => {
                &&& r == Ok::<CallOutput, HostError>(CallOutput::Unit)
                &&& Host::only_world_changed(pre, post)
                &&& world_pushed_window(pre.world, post.world, WindowCommand::ShowCursor(visible))
            },
            Call::SetCursorLock { lock } => match grab_decision(pre.world.platform, lock) {
                Some(g) => {
                    &&& r == Ok::<CallOutput, HostError>(CallOutput::Unit)
                    &&& Host::only_world_changed(pre, post)
                    &&& world_pushed_window(pre.world, post.world, WindowCommand::GrabCursor(g))
                },
                None => r == Err::<CallOutput, HostError>(HostError::Unsupported) && post == pre,
            },
            Call::ClipSpaceRay { camera, projected } => {
                if pre.world.cameras@.contains(camera) {
                    r == Ok::<CallOutput, HostError>(CallOutput::Ray(reverse_dir(projected)))
                        && post == pre
                } else {
                    r == Err::<CallOutput, HostError>(HostError::NotFound) && post == pre
                }
            },
            Call::ScreenToClipSpace { projected } => r == Ok::<CallOutput, HostError>(
                CallOutput::Point(projected),
            ) && post == pre,
            Call::ScreenToWorldDirection { camera, projected } => {
                if pre.world.cameras@.contains(camera) {
                    r == Ok::<CallOutput, HostError>(CallOutput::Ray(reverse_dir(projected)))
                        && post == pre
                } else {
                    r == Err::<CallOutput, HostError>(HostError::NotFound) && post == pre
                }
            },
            Call::WorldToScreen { camera, projected } => {
                if pre.world.cameras@.contains(camera) {
                    r == Ok::<CallOutput, HostError>(CallOutput::Point(projected)) && post == pre
                } else {
                    r == Err::<CallOutput, HostError>(HostError::NotFound) && post == pre
                }
            },
            Call::ScreenRay { .. } => r == Err::<CallOutput, HostError>(HostError::Unsupported)
                && post == pre,
            Call::LoadAudio { url } => {
                if is_asset_url(url@) {
                    &&& r == Ok::<CallOutput, HostError>(CallOutput::Unit)
                    &&& Host::only_world_changed(pre, post)
                    &&& world_pushed_peek(pre.world, post.world, url)
                } else {
                    r == Err::<CallOutput, HostError>(HostError::InvalidArgument) && post == pre
                }
            },
            Call::PlayAudio { url, looping, volume_bits, uid } => {
                if is_asset_url(url@) {
                    &&& r == Ok::<CallOutput, HostError>(CallOutput::Accepted(pre.bridge.next_op))
                    &&& Host::only_bridge_changed(pre, post)
                    &&& bridge_begun(
                        pre.bridge,
                        post.bridge,
                        module,
                        LongRunning::AudioTrackLoad { url, looping, volume_bits, uid },
                    )
                } else {
                    r == Err::<CallOutput, HostError>(HostError::InvalidArgument) && post == pre
                }
            },
            Call::StopAudio { url } => {
                if is_asset_url(url@) {
                    &&& r == Ok::<CallOutput, HostError>(CallOutput::Accepted(pre.bridge.next_op))
                    &&& Host::only_bridge_changed(pre, post)
                    &&& bridge_begun(pre.bridge, post.bridge, module, LongRunning::AudioStop { url })
                } else {
                    r == Err::<CallOutput, HostError>(HostError::InvalidArgument) && post == pre
                }
            },
            Call::SetAudioVolume { url, volume_bits } => {
                if is_asset_url(url@) {
                    &&& r == Ok::<CallOutput, HostError>(CallOutput::Accepted(pre.bridge.next_op))
                    &&& Host::only_bridge_changed(pre, post)
                    &&& bridge_begun(
                        pre.bridge,
                        post.bridge,
                        module,
                        LongRunning::AudioUpdateVolume { url, volume_bits },
                    )
                } else {
                    r == Err::<CallOutput, HostError>(HostError::InvalidArgument) && post == pre
                }
            },
            Call::StopAudioById { uid } => {
                &&& r == Ok::<CallOutput, HostError>(CallOutput::Accepted(pre.bridge.next_op))
                &&& Host::only_bridge_changed(pre, post)
                &&& bridge_begun(pre.bridge, post.bridge, module, LongRunning::AudioStopById { uid })
            },
            Call::SetFullscreen { fullscreen } => {
                &&& r == Ok::<CallOutput, HostError>(CallOutput::Unit)
                &&& Host::only_world_changed(pre, post)
                &&& world_pushed_window(
                    pre.world,
                    post.world,
                    WindowCommand::SetFullscreen(fullscreen),
                )
            },
            Call::CreateMesh { desc } => Host::create_mesh_post(pre, post, module, desc, r),
            Call::DestroyMesh { handle } => Host::destroy_post(
                pre,
                post,
                handle,
                ResourceKind::Mesh,
                r,
            ),
            Call::CreateTexture2d { desc } => Host::create_texture_post(pre, post, module, desc, r),
            Call::DestroyTexture { handle } => Host::destroy_post(
                pre,
                post,
                handle,
                ResourceKind::Texture,
                r,
            ),
            Call::CreateSampler { desc } => Host::create_sampler_post(pre, post, module, desc, r),
            Call::DestroySampler { handle } => Host::destroy_post(
                pre,
                post,
                handle,
                ResourceKind::Sampler,
                r,
            ),
            Call::CreateMaterial { desc } => Host::create_material_post(pre, post, module, desc, r),
            Call::DestroyMaterial { handle } => Host::destroy_post(
                pre,
                post,
                handle,
                ResourceKind::Material,
                r,
            ),
            Call::MoveCharacter { entity, displacement, min_distance_bits, elapsed_bits } => {
                &&& r == Ok::<CallOutput, HostError>(CallOutput::Unit)
                &&& Host::only_world_changed(pre, post)
                &&& world_pushed_move(
                    pre.world,
                    post.world,
                    CharacterMove { entity, displacement, min_distance_bits, elapsed_bits },
                )
            },
        }
    }
}


/// The dispatch-table operation a call names, executably.
pub fn op_of_call(call: &Call) -> (op: Operation)
    ensures
        op == op_of(*call),
{
    match call {
        Call::SendMessage { target, .. } => match target {
            MessageTarget::PeerReliable => Operation::SendPeerReliable,
            MessageTarget::PeerUnreliable => Operation::SendPeerUnreliable,
            MessageTarget::LocalBroadcast => Operation::SendLocalBroadcast,
            MessageTarget::LocalDirected(_) => Operation::SendLocalDirected,
        },
        Call::GetLocalPlayer => Operation::GetLocalPlayer,
        Call::GetInput => Operation::GetInput,
        Call::GetPreviousInput => Operation::GetPreviousInput,
        Call::SetCursor { .. } => Operation::SetCursor,
        Call::SetCursorVisible { .. } => Operation::SetCursorVisible,
        Call::SetCursorLock { .. } => Operation::SetCursorLock,
        Call::ClipSpaceRay { .. } => Operation::ClipSpaceRay,
        Call::ScreenToClipSpace { .. } => Operation::ScreenToClipSpace,
        Call::ScreenToWorldDirection { .. } => Operation::ScreenToWorldDirection,
        Call::WorldToScreen { .. } => Operation::WorldToScreen,
        Call::ScreenRay { .. } => Operation::ScreenRay,
        Call::LoadAudio { .. } => Operation::LoadAudio,
        Call::PlayAudio { .. } => Operation::PlayAudio,
        Call::StopAudio { .. } => Operation::StopAudio,
        Call::SetAudioVolume { .. } => Operation::SetAudioVolume,
        Call::StopAudioById { .. } => Operation::StopAudioById,
        Call::SetFullscreen { .. } => Operation::SetFullscreen,
        Call::CreateMesh { .. } => Operation::CreateMesh,
        Call::DestroyMesh { .. } => Operation::DestroyMesh,
        Call::CreateTexture2d { .. } => Operation::CreateTexture2d,
        Call::DestroyTexture { .. } => Operation::DestroyTexture,
        Call::CreateSampler { .. } => Operation::CreateSampler,
        Call::DestroySampler { .. } => Operation::DestroySampler,
        Call::CreateMaterial { .. } => Operation::CreateMaterial,
        Call::DestroyMaterial { .. } => Operation::DestroyMaterial,
        Call::MoveCharacter { .. } => Operation::MoveCharacter,
    }
}

impl Host {
    /// Dispatch one guest call. This is the single gate: the module must
    /// be loaded, its role's table must implement the operation, and only
    /// then does the handler run — under this call's exclusive borrow of
    /// the host, released when the call returns. The whole behavior is
    /// pinned by [`Host::dispatch_post`].
    #[verifier::spinoff_prover]
    pub fn dispatch(&mut self, module: u64, call: Call) -> (r: Result<CallOutput, HostError>)
        requires
            old(self).wf(),
            old(self).bridge.next_op < u64::MAX,
        ensures
            final(self).wf(),
            Host::dispatch_post(*old(self), *final(self), module, call, r),
    {
        let mi = match self.find_module(module) {
            Some(i) => i,
            None => {
                return Err(HostError::NotFound);
            },
        };
        let role = self.modules[mi].role;
        let op = op_of_call(&call);
        if !op_supported(role, op) {
            return Err(HostError::Unsupported);
        }
        match call {
            Call::SendMessage { target, name, payload } => self.do_send(
                module,
                target,
                name,
                payload,
            ),
            Call::GetLocalPlayer => match self.world.local_player {
                Some(e) => Ok(CallOutput::Entity(e)),
                // the local player is a world resource the handler expects;
                // its absence is a missing precondition, not a bad handle
                None => Err(HostError::PreconditionMissing),
            },
            Call::GetInput => Ok(CallOutput::Input(self.world.input_current.duplicate())),
            Call::GetPreviousInput => Ok(CallOutput::Input(self.world.input_previous.duplicate())),
            Call::SetCursor { icon } => {
                self.world.window_commands.push(WindowCommand::SetCursorIcon(icon));
                Ok(CallOutput::Unit)
            },
            Call::SetCursorVisible { visible } => {
                self.world.window_commands.push(WindowCommand::ShowCursor(visible));
                Ok(CallOutput::Unit)
            },
            Call::SetCursorLock { lock } => {
                let g = if !lock {
                    GrabMode::Off
                } else {
                    match self.world.platform {
                        Platform::Windows => GrabMode::Confined,
                        Platform::Linux => GrabMode::Confined,
                        Platform::MacOs => GrabMode::Locked,
                        Platform::Other => {
                            return Err(HostError::Unsupported);
                        },
                    }
                };
                self.world.window_commands.push(WindowCommand::GrabCursor(g));
                Ok(CallOutput::Unit)
            },
            Call::ClipSpaceRay { camera, projected } => {
                if self.world.has_camera(camera) {
                    Ok(CallOutput::Ray(reverse_ray_dir(projected)))
                } else {
                    Err(HostError::NotFound)
                }
            },
            Call::ScreenToClipSpace { projected } => Ok(CallOutput::Point(projected)),
            Call::ScreenToWorldDirection { camera, projected } => {
                if self.world.has_camera(camera) {
                    Ok(CallOutput::Ray(reverse_ray_dir(projected)))
                } else {
                    Err(HostError::NotFound)
                }
            },
            Call::WorldToScreen { camera, projected } => {
                if self.world.has_camera(camera) {
                    Ok(CallOutput::Point(projected))
                } else {
                    Err(HostError::NotFound)
                }
            },
            Call::ScreenRay { .. } => Err(HostError::Unsupported),
            Call::LoadAudio { url } => {
                if check_asset_url(url.as_str()) {
                    self.world.asset_peeks.push(url);
                    Ok(CallOutput::Unit)
                } else {
                    Err(HostError::InvalidArgument)
                }
            },
            Call::PlayAudio { url, looping, volume_bits, uid } => {
                if check_asset_url(url.as_str()) {
                    let op_id = self.bridge.begin(
                        module,
                        LongRunning::AudioTrackLoad { url, looping, volume_bits, uid },
                    );
                    Ok(CallOutput::Accepted(op_id))
                } else {
                    Err(HostError::InvalidArgument)
                }
            },
            Call::StopAudio { url } => {
                if check_asset_url(url.as_str()) {
                    let op_id = self.bridge.begin(module, LongRunning::AudioStop { url });
                    Ok(CallOutput::Accepted(op_id))
                } else {
                    Err(HostError::InvalidArgument)
                }
            },
            Call::SetAudioVolume { url, volume_bits } => {
                if check_asset_url(url.as_str()) {
                    let op_id = self.bridge.begin(
                        module,
                        LongRunning::AudioUpdateVolume { url, volume_bits },
                    );
                    Ok(CallOutput::Accepted(op_id))
                } else {
                    Err(HostError::InvalidArgument)
                }
            },
            Call::StopAudioById { uid } => {
                let op_id = self.bridge.begin(module, LongRunning::AudioStopById { uid });
                Ok(CallOutput::Accepted(op_id))
            },
            Call::SetFullscreen { fullscreen } => {
                self.world.window_commands.push(WindowCommand::SetFullscreen(fullscreen));
                Ok(CallOutput::Unit)
            },
            Call::CreateMesh { desc } => self.do_create_mesh(module, desc),
            Call::DestroyMesh { handle } => self.do_destroy(handle, ResourceKind::Mesh),
            Call::CreateTexture2d { desc } => self.do_create_texture(module, desc),
            Call::DestroyTexture { handle } => self.do_destroy(handle, ResourceKind::Texture),
            Call::CreateSampler { desc } => {
                let h = self.registry.create_sampler(module, desc);
                Ok(CallOutput::Created(h))
            },
            Call::DestroySampler { handle } => self.do_destroy(handle, ResourceKind::Sampler),
            Call::CreateMaterial { desc } => self.do_create_material(module, desc),
            Call::DestroyMaterial { handle } => self.do_destroy(handle, ResourceKind::Material),
            Call::MoveCharacter { entity, displacement, min_distance_bits, elapsed_bits } => {
                self.world.character_moves.push(
                    CharacterMove { entity, displacement, min_distance_bits, elapsed_bits },
                );
                Ok(CallOutput::Unit)
            },
        }
    }
}


/// A byte-for-byte copy.
fn clone_bytes(v: &Vec<u8>) -> (r: Vec<u8>)
    ensures
        r@ == v@,
{
    let mut r: Vec<u8> = Vec::new();
    let mut i: usize = 0;
    while i < v.len()
        invariant
            i <= v@.len(),
            r@ == v@.subrange(0, i as int),
        decreases v@.len() - i,
    {
        r.push(v[i]);
        proof {
            assert(r@ =~= v@.subrange(0, i + 1));
        }
        i = i + 1;
    }
    proof {
        assert(r@ =~= v@);
    }
    r
}

/// Is `e` the inbox message with this origin, name and payload?
pub open spec fn event_is_message(e: GuestEvent, origin: u64, name: Seq<char>, payload: Seq<u8>) -> bool {
    match e {
        GuestEvent::Message { origin: o, name: n, payload: p } => o == origin && n@ == name && p@
            == payload,
        GuestEvent::OperationFailed { .. } => false,
    }
}

/// Does module entry `k` of `pre` receive the pending local message
/// `entry`? A broadcast reaches every other module; a directed message
/// reaches its addressee alone.
pub open spec fn receives_local(pre: Seq<ModuleEntry>, k: int, entry: LocalQueued) -> bool {
    match entry.target {
        None => pre[k].id != entry.origin,
        Some(t) => pre[k].id == t,
    }
}

/// The audio-mixer command a completed long-running operation carries.
pub open spec fn audio_command_of(work: LongRunning) -> AudioCommand {
    match work {
        LongRunning::AudioTrackLoad { url, looping, volume_bits, uid } => AudioCommand::Track {
            url,
            looping,
            volume_bits,
            uid,
        },
        LongRunning::AudioStop { url } => AudioCommand::Stop { url },
        LongRunning::AudioUpdateVolume { url, volume_bits } => AudioCommand::UpdateVolume {
            url,
            volume_bits,
        },
        LongRunning::AudioStopById { uid } => AudioCommand::StopById { uid },
    }
}

/// The world after one audio command was appended, and nothing else.
pub open spec fn world_pushed_audio(pre: World, post: World, cmd: AudioCommand) -> bool {
    &&& post.connection == pre.connection
    &&& post.platform == pre.platform
    &&& post.local_player == pre.local_player
    &&& post.input_current == pre.input_current
    &&& post.input_previous == pre.input_previous
    &&& post.cameras == pre.cameras
    &&& post.window_commands == pre.window_commands
    &&& post.asset_peeks == pre.asset_peeks
    &&& post.character_moves == pre.character_moves
    &&& post.audio_commands@ == pre.audio_commands@.push(cmd)
}

impl Host {
    /// The module table after one local message was distributed: every
    /// entry keeps its id and role; an entry that receives the message
    /// gets exactly one copy appended to its inbox, every other inbox is
    /// untouched.
    pub open spec fn inboxes_delivered(
        pre: Seq<ModuleEntry>,
        post: Seq<ModuleEntry>,
        entry: LocalQueued,
    ) -> bool {
        &&& post.len() == pre.len()
        &&& forall|k: int| 0 <= k < pre.len() ==> #[trigger] Host::delivered_at(pre, post, entry, k)
    }

    /// Entry `k` of the module table after `entry` was distributed: id and
    /// role kept; the inbox got one copy of the message if and only if the
    /// entry receives it.
    pub open spec fn delivered_at(
        pre: Seq<ModuleEntry>,
        post: Seq<ModuleEntry>,
        entry: LocalQueued,
        k: int,
    ) -> bool {
        &&& post[k].id == pre[k].id
        &&& post[k].role == pre[k].role
        &&& if receives_local(pre, k, entry) {
            &&& post[k].inbox@.len() == pre[k].inbox@.len() + 1
            &&& post[k].inbox@.subrange(0, pre[k].inbox@.len() as int) == pre[k].inbox@
            &&& event_is_message(
                post[k].inbox@[pre[k].inbox@.len() as int],
                entry.origin,
                entry.name@,
                entry.payload@,
            )
        } else {
            post[k] == pre[k]
        }
    }

    /// One step of the local synchronization point: take the pending
    /// local message that has waited longest and put it into the inboxes
    /// of the modules it reaches. A directed message whose addressee has
    /// been unloaded meanwhile is silently dropped. Returns whether a
    /// message was processed.
    pub fn deliver_next_local(&mut self) -> (delivered: bool)
        requires
            old(self).wf(),
        ensures
            final(self).wf(),
            old(self).channel.local_pending@.len() == 0 ==> !delivered && *final(self) == *old(
                self,
            ),
            old(self).channel.local_pending@.len() > 0 ==> delivered && {
                &&& final(self).channel.local_pending@ == old(
                    self,
                ).channel.local_pending@.subrange(
                    1,
                    old(self).channel.local_pending@.len() as int,
                )
                &&& final(self).channel.reliable == old(self).channel.reliable
                &&& final(self).channel.unreliable == old(self).channel.unreliable
                &&& final(self).registry == old(self).registry
                &&& final(self).bridge == old(self).bridge
                &&& final(self).world == old(self).world
                &&& final(self).next_module == old(self).next_module
                &&& Host::inboxes_delivered(
                    old(self).modules@,
                    final(self).modules@,
                    old(self).channel.local_pending@[0],
                )
            },
    {
        if self.channel.local_pending.len() == 0 {
            return false;
        }
        let entry = self.channel.local_pending.remove(0);
        let ghost entry0 = entry;
        let ghost pre_modules = self.modules@;
        proof {
            assert(self.channel.local_pending@ =~= old(self).channel.local_pending@.subrange(
                1,
                old(self).channel.local_pending@.len() as int,
            ));
        }
        let mut k: usize = 0;
        while k < self.modules.len()
            invariant
                self.channel.local_pending@ == old(self).channel.local_pending@.subrange(
                    1,
                    old(self).channel.local_pending@.len() as int,
                ),
                self.channel.reliable == old(self).channel.reliable,
                self.channel.unreliable == old(self).channel.unreliable,
                self.world == old(self).world,
                self.registry == old(self).registry,
                self.bridge == old(self).bridge,
                self.next_module == old(self).next_module,
                self.registry.wf(),
                self.bridge.wf(),
                pre_modules == old(self).modules@,
                entry0 == old(self).channel.local_pending@[0],
                entry0 == entry,
                self.modules@.len() == pre_modules.len(),
                k <= pre_modules.len(),
                forall|j: int|
                    k <= j < pre_modules.len() ==> (#[trigger] self.modules@[j]) == pre_modules[j],
                forall|j: int|
                    0 <= j < k ==> #[trigger] Host::delivered_at(
                        pre_modules,
                        self.modules@,
                        entry0,
                        j,
                    ),
            decreases pre_modules.len() - k,
        {
            let id = self.modules[k].id;
            let gets = match entry.target {
                None => id != entry.origin,
                Some(t) => id == t,
            };
            if gets {
                let ev = GuestEvent::Message {
                    origin: entry.origin,
                    name: entry.name.clone(),
                    payload: clone_bytes(&entry.payload),
                };
                let ghost before = self.modules@;
                let mut m = self.modules.remove(k);
                let ghost old_inbox = m.inbox@;
                m.inbox.push(ev);
                self.modules.insert(k, m);
                proof {
                    assert(self.modules@ =~= before.update(k as int, self.modules@[k as int]));
                    assert(self.modules@[k as int].inbox@.subrange(0, old_inbox.len() as int)
                        =~= old_inbox);
                    assert(Host::delivered_at(pre_modules, self.modules@, entry0, k as int));
                    assert forall|j: int| 0 <= j < k implies #[trigger] Host::delivered_at(
                        pre_modules,
                        self.modules@,
                        entry0,
                        j,
                    ) by {
                        assert(Host::delivered_at(pre_modules, before, entry0, j));
                        assert(self.modules@[j] == before[j]);
                    }
                }
            }
            proof {
                assert(Host::delivered_at(pre_modules, self.modules@, entry0, k as int));
                assert forall|j: int| 0 <= j < k + 1 implies #[trigger] Host::delivered_at(
                    pre_modules,
                    self.modules@,
                    entry0,
                    j,
                ) by {}
            }
            k = k + 1;
        }
        proof {
            // ids and roles survive delivery, so well-formedness does too
            assert forall|a: int, b: int|
                0 <= a < self.modules@.len() && 0 <= b < self.modules@.len() && a != b implies (
            #[trigger] self.modules@[a]).id != (#[trigger] self.modules@[b]).id by {
                assert(Host::delivered_at(pre_modules, self.modules@, entry0, a));
                assert(Host::delivered_at(pre_modules, self.modules@, entry0, b));
                assert(old(self).modules@[a].id != old(self).modules@[b].id);
            }
            assert forall|a: int|
                0 <= a < self.modules@.len() implies (#[trigger] self.modules@[a]).id
                < self.next_module by {
                assert(Host::delivered_at(pre_modules, self.modules@, entry0, a));
                assert(old(self).modules@[a].id < old(self).next_module);
            }
        }
        true
    }

    /// One step of the deferred synchronization point: run the callback
    /// that completed longest ago, under this call's exclusive access to
    /// the world. A successful outcome appends its audio command to the
    /// world's log; a failure is delivered to the originating module's
    /// inbox. If the module has been unloaded, the callback still runs
    /// this once, as a no-op. Returns whether a callback was processed.
    pub fn apply_next_callback(&mut self) -> (applied: bool)
        requires
            old(self).wf(),
        ensures
            final(self).wf(),
            old(self).bridge.queue@.len() == 0 ==> !applied && *final(self) == *old(self),
            old(self).bridge.queue@.len() > 0 ==> applied && {
                let cb = old(self).bridge.queue@[0];
                &&& final(self).bridge.queue@ == old(self).bridge.queue@.subrange(
                    1,
                    old(self).bridge.queue@.len() as int,
                )
                &&& final(self).bridge.pending@ == old(self).bridge.pending@
                &&& final(self).bridge.next_op == old(self).bridge.next_op
                &&& final(self).channel == old(self).channel
                &&& final(self).registry == old(self).registry
                &&& final(self).next_module == old(self).next_module
                &&& if !old(self).module_loaded(cb.module) {
                    final(self).modules@ == old(self).modules@ && final(self).world == old(
                        self,
                    ).world
                } else {
                    match cb.outcome {
                        Outcome::Success => final(self).modules@ == old(self).modules@
                            && world_pushed_audio(
                            old(self).world,
                            final(self).world,
                            audio_command_of(cb.work),
                        ),
                        Outcome::Failure => {
                            &&& final(self).world == old(self).world
                            &&& final(self).modules@.len() == old(self).modules@.len()
                            &&& forall|j: int|
                                0 <= j < old(self).modules@.len() && j != old(self).module_idx(
                                    cb.module,
                                ) ==> (#[trigger] final(self).modules@[j]) == old(self).modules@[j]
                            &&& final(self).modules@[old(self).module_idx(cb.module)].id
                                == cb.module
                            &&& final(self).modules@[old(self).module_idx(cb.module)].role == old(
                                self,
                            ).modules@[old(self).module_idx(cb.module)].role
                            &&& final(self).modules@[old(self).module_idx(cb.module)].inbox@
                                == old(self).modules@[old(self).module_idx(cb.module)].inbox@.push(
                                GuestEvent::OperationFailed { op: cb.op },
                            )
                        },
                    }
                }
            },
    {
        let cb = match self.bridge.pop_next() {
            Some(cb) => cb,
            None => {
                return false;
            },
        };
        let i = match self.find_module(cb.module) {
            Some(i) => i,
            None => {
                return true;
            },
        };
        match cb.outcome {
            Outcome::Success => {
                let cmd = match cb.work {
                    LongRunning::AudioTrackLoad { url, looping, volume_bits, uid } => {
                        AudioCommand::Track { url, looping, volume_bits, uid }
                    },
                    LongRunning::AudioStop { url } => AudioCommand::Stop { url },
                    LongRunning::AudioUpdateVolume { url, volume_bits } => {
                        AudioCommand::UpdateVolume { url, volume_bits }
                    },
                    LongRunning::AudioStopById { uid } => AudioCommand::StopById { uid },
                };
                self.world.audio_commands.push(cmd);
            },
            Outcome::Failure => {
                let mut m = self.modules.remove(i);
                m.inbox.push(GuestEvent::OperationFailed { op: cb.op });
                self.modules.insert(i, m);
                proof {
                    assert(self.modules@ =~= old(self).modules@.update(
                        i as int,
                        self.modules@[i as int],
                    ));
                }
            },
        }
        true
    }
}


impl Host {
    /// Operations a role does not implement are rejected uniformly: if the
    /// module is loaded and its role's table has no implementation for the
    /// call's operation, the call returns `Unsupported` — whatever its
    /// argument values — and the host, the world included, is exactly as
    /// it was.
    pub proof fn lemma_unsupported_is_uniform(
        pre: Host,
        post: Host,
        module: u64,
        call: Call,
        r: Result<CallOutput, HostError>,
    )
        requires
            Host::dispatch_post(pre, post, module, call, r),
            pre.module_loaded(module),
            !supports(pre.role_of(module), op_of(call)),
        ensures
            r == Err::<CallOutput, HostError>(HostError::Unsupported),
            post == pre,
    {
    }

    /// A failing call has no partial effects: whichever error a dispatched
    /// call returns, the host is exactly as it was — failed creations
    /// allocate nothing and failed sends enqueue nothing.
    pub proof fn lemma_failed_call_no_effect(
        pre: Host,
        post: Host,
        module: u64,
        call: Call,
        r: Result<CallOutput, HostError>,
    )
        requires
            Host::dispatch_post(pre, post, module, call, r),
            r is Err,
        ensures
            post == pre,
    {
    }

    /// The network outboxes only grow at the back: a dispatched call never
    /// reorders or drops sends already enqueued, so two reliable sends
    /// from one module reach the network collaborator in issue order.
    pub proof fn lemma_sends_keep_order(
        pre: Host,
        post: Host,
        module: u64,
        call: Call,
        r: Result<CallOutput, HostError>,
    )
        requires
            Host::dispatch_post(pre, post, module, call, r),
        ensures
            pre.channel.extends(post.channel),
    {
    }
}


impl Host {
    /// What a mesh creation does once the module is loaded and the
    /// operation supported.
    pub open spec fn create_mesh_post(
        pre: Host,
        post: Host,
        module: u64,
        desc: MeshDescriptor,
        r: Result<CallOutput, HostError>,
    ) -> bool {
        if crate::descriptor::mesh_descriptor_valid(desc.vertices@, desc.indices@) {
            match r {
                Ok(CallOutput::Created(h)) => {
                    &&& Host::only_registry_changed(pre, post)
                    &&& reg_created(pre.registry, post.registry, module, Resource::Mesh(desc), h)
                },
                _ => false,
            }
        } else {
            r == Err::<CallOutput, HostError>(HostError::InvalidArgument) && post == pre
        }
    }

    /// What a texture creation does.
    pub open spec fn create_texture_post(
        pre: Host,
        post: Host,
        module: u64,
        desc: TextureDescriptor2d,
        r: Result<CallOutput, HostError>,
    ) -> bool {
        if crate::descriptor::texture_descriptor_valid(
            desc.width,
            desc.height,
            desc.format,
            desc.data@,
        ) {
            match r {
                Ok(CallOutput::Created(h)) => {
                    &&& Host::only_registry_changed(pre, post)
                    &&& reg_created(pre.registry, post.registry, module, Resource::Texture(desc), h)
                },
                _ => false,
            }
        } else {
            r == Err::<CallOutput, HostError>(HostError::InvalidArgument) && post == pre
        }
    }

    /// What a sampler creation does: every descriptor is valid.
    pub open spec fn create_sampler_post(
        pre: Host,
        post: Host,
        module: u64,
        desc: SamplerDescriptor,
        r: Result<CallOutput, HostError>,
    ) -> bool {
        match r {
            Ok(CallOutput::Created(h)) => {
                &&& Host::only_registry_changed(pre, post)
                &&& reg_created(pre.registry, post.registry, module, Resource::Sampler(desc), h)
            },
            _ => false,
        }
    }

    /// What a material creation does: the dependency handles are
    /// dereferenced now, and a dead or wrong-kinded one fails the call
    /// with nothing allocated.
    pub open spec fn create_material_post(
        pre: Host,
        post: Host,
        module: u64,
        desc: MaterialDescriptor,
        r: Result<CallOutput, HostError>,
    ) -> bool {
        if pre.registry.material_deps_live(desc) {
            match r {
                Ok(CallOutput::Created(h)) => {
                    &&& Host::only_registry_changed(pre, post)
                    &&& reg_created(
                        pre.registry,
                        post.registry,
                        module,
                        Resource::Material(pre.registry.material_refs_for(desc)),
                        h,
                    )
                },
                _ => false,
            }
        } else {
            r == Err::<CallOutput, HostError>(HostError::NotFound) && post == pre
        }
    }
}


impl Host {
    /// The message-send handler.
    fn do_send(
        &mut self,
        module: u64,
        target: MessageTarget,
        name: String,
        payload: Vec<u8>,
    ) -> (r: Result<CallOutput, HostError>)
        requires
            old(self).wf(),
        ensures
            final(self).wf(),
            Host::send_post(*old(self), *final(self), module, target, name, payload, r),
    {
        match target {
            MessageTarget::PeerReliable => match self.world.connection {
                Some(c) => {
                    self.channel.reliable.push(
                        NetSend { connection: c, origin: module, name, payload },
                    );
                    Ok(CallOutput::Unit)
                },
                None => Err(HostError::PreconditionMissing),
            },
            MessageTarget::PeerUnreliable => match self.world.connection {
                Some(c) => {
                    self.channel.unreliable.push(
                        NetSend { connection: c, origin: module, name, payload },
                    );
                    Ok(CallOutput::Unit)
                },
                None => Err(HostError::PreconditionMissing),
            },
            MessageTarget::LocalBroadcast => {
                self.channel.local_pending.push(
                    LocalQueued { origin: module, target: None, name, payload },
                );
                Ok(CallOutput::Unit)
            },
            MessageTarget::LocalDirected(t) => {
                if self.find_module(t).is_some() {
                    self.channel.local_pending.push(
                        LocalQueued { origin: module, target: Some(t), name, payload },
                    );
                    Ok(CallOutput::Unit)
                } else {
                    Err(HostError::NotFound)
                }
            },
        }
    }

    /// The shared destroy handler: the handle must be of the operation's
    /// kind and live.
    fn do_destroy(&mut self, handle: Handle, kind: ResourceKind) -> (r: Result<
        CallOutput,
        HostError,
    >)
        requires
            old(self).wf(),
        ensures
            final(self).wf(),
            Host::destroy_post(*old(self), *final(self), handle, kind, r),
    {
        if handle.kind != kind {
            return Err(HostError::NotFound);
        }
        match self.registry.destroy(handle) {
            Ok(_) => Ok(CallOutput::Unit),
            Err(e) => Err(e),
        }
    }

    /// The mesh-creation handler.
    fn do_create_mesh(&mut self, module: u64, desc: MeshDescriptor) -> (r: Result<
        CallOutput,
        HostError,
    >)
        requires
            old(self).wf(),
        ensures
            final(self).wf(),
            Host::create_mesh_post(*old(self), *final(self), module, desc, r),
    {
        match self.registry.create_mesh(module, desc) {
            Ok(h) => Ok(CallOutput::Created(h)),
            Err(e) => Err(e),
        }
    }

    /// The texture-creation handler.
    fn do_create_texture(&mut self, module: u64, desc: TextureDescriptor2d) -> (r: Result<
        CallOutput,
        HostError,
    >)
        requires
            old(self).wf(),
        ensures
            final(self).wf(),
            Host::create_texture_post(*old(self), *final(self), module, desc, r),
    {
        match self.registry.create_texture2d(module, desc) {
            Ok(h) => Ok(CallOutput::Created(h)),
            Err(e) => Err(e),
        }
    }

    /// The material-creation handler.
    fn do_create_material(&mut self, module: u64, desc: MaterialDescriptor) -> (r: Result<
        CallOutput,
        HostError,
    >)
        requires
            old(self).wf(),
        ensures
            final(self).wf(),
            Host::create_material_post(*old(self), *final(self), module, desc, r),
    {
        match self.registry.create_material(module, desc) {
            Ok(h) => Ok(CallOutput::Created(h)),
            Err(e) => Err(e),
        }
    }
}

} // verus!
