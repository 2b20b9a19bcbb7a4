//! The procedural resource registry: an arena of generation-checked slots
//! over reference-counted backing objects.
//!
//! A creation call validates its descriptor synchronously, allocates one
//! slot, and returns a handle; a failing creation allocates nothing. A
//! destroy call removes the registry's reference; the backing object stays
//! alive while any holder remains — a material holds shared references to
//! the texture and sampler objects it was built from, so destroying those
//! resources' own handles does not release the objects until the material
//! goes too. An object, once released, never comes back: backing objects
//! get fresh indices and slots get fresh generations, so a stale handle can
//! never resolve to a later resource.

use vstd::prelude::*;

use crate::descriptor::MaterialDescriptor;
use crate::descriptor::MeshDescriptor;
use crate::descriptor::SamplerDescriptor;
use crate::descriptor::TextureDescriptor2d;
use crate::descriptor::mesh_descriptor_valid;
use crate::descriptor::texture_descriptor_valid;
use crate::error::HostError;
use crate::handle::Handle;
use crate::handle::ResourceKind;

verus! {

/// Indices of the backing objects a material shares ownership of.
#[derive(Clone, Copy, Debug, PartialEq, Eq, Structural)]
pub struct MaterialRefs {
    pub base_color: usize,
    pub normal: usize,
    pub metallic_roughness: usize,
    pub sampler: usize,
}

/// A backing object: the plain data the collaborators build the real
/// GPU-side resource from.
#[derive(Clone, Debug)]
pub enum Resource {
    Mesh(MeshDescriptor),
    Texture(TextureDescriptor2d),
    Sampler(SamplerDescriptor),
    Material(MaterialRefs),
}

/// The kind a backing object was created as.
pub open spec fn resource_kind(r: Resource) -> ResourceKind {
    match r {
        Resource::Mesh(_) => ResourceKind::Mesh,
        Resource::Texture(_) => ResourceKind::Texture,
        Resource::Sampler(_) => ResourceKind::Sampler,
        Resource::Material(_) => ResourceKind::Material,
    }
}

/// One arena slot. The generation counts how often the slot has been
/// occupied; it never decreases, and a slot whose generation has reached
/// the maximum is retired rather than reused.
#[derive(Clone, Copy, Debug, PartialEq, Eq, Structural)]
pub struct Slot {
    pub live: bool,
    pub generation: u64,
    pub kind: ResourceKind,
    /// Index of the backing object in the registry's object arrays.
    pub object: usize,
    /// The module that created the resource.
    pub owner: u64,
}

/// Does material reference set `m` contain object index `o`?
pub open spec fn refs_contain(m: MaterialRefs, o: int) -> bool {
    m.base_color == o || m.normal == o || m.metallic_roughness == o || m.sampler == o
}

/// Does slot `j` hold a shared reference to backing object `o`? A live
/// slot holds its own object, and a live material slot additionally holds
/// the objects its reference set names.
pub open spec fn is_holder(slots: Seq<Slot>, resources: Seq<Resource>, j: int, o: int) -> bool {
    &&& 0 <= j < slots.len()
    &&& slots[j].live
    &&& {
        ||| slots[j].object == o
        ||| (slots[j].object < resources.len() && match resources[slots[j].object as int] {
            Resource::Material(m) => refs_contain(m, o),
            _ => false,
        })
    }
}

/// Is backing object `o` still held by anyone?
pub open spec fn has_holder(slots: Seq<Slot>, resources: Seq<Resource>, o: int) -> bool {
    exists|j: int| is_holder(slots, resources, j, o)
}

/// The arena of guest-created procedural resources.
pub struct Registry {
    pub slots: Vec<Slot>,
    /// Backing objects, indexed by `Slot::object`. Grow-only: an index,
    /// once assigned, always names the same object.
    pub resources: Vec<Resource>,
    /// Whether each backing object is still alive. Flips to false exactly
    /// when the last holder disappears, and never flips back.
    pub alive: Vec<bool>,
}

impl Registry {
    /// Structural well-formedness: object indices in range and unaliased,
    /// slot kinds matching their objects, material reference sets in
    /// range.
    pub open spec fn wf_basic(self) -> bool {
        &&& self.alive@.len() == self.resources@.len()
        &&& forall|j: int|
            0 <= j < self.slots@.len() && (#[trigger] self.slots@[j]).live ==> self.slots@[j].object
                < self.resources@.len()
        &&& forall|j: int, k: int|
            0 <= j < self.slots@.len() && 0 <= k < self.slots@.len() && j != k && (
            #[trigger] self.slots@[j]).live && (#[trigger] self.slots@[k]).live
                ==> self.slots@[j].object != self.slots@[k].object
        &&& forall|j: int|
            0 <= j < self.slots@.len() && (#[trigger] self.slots@[j]).live ==> resource_kind(
                self.resources@[self.slots@[j].object as int],
            ) == self.slots@[j].kind
        &&& forall|o: int|
            0 <= o < self.resources@.len() ==> match #[trigger] self.resources@[o] {
                Resource::Material(m) => m.base_color < self.resources@.len() && m.normal
                    < self.resources@.len() && m.metallic_roughness < self.resources@.len()
                    && m.sampler < self.resources@.len(),
                _ => true,
            }
    }

    /// Full well-formedness: additionally, an object is alive exactly
    /// while some holder remains.
    pub open spec fn wf(self) -> bool {
        &&& self.wf_basic()
        &&& forall|o: int|
            0 <= o < self.resources@.len() ==> (#[trigger] self.alive@[o]) == has_holder(
                self.slots@,
                self.resources@,
                o,
            )
    }

    /// Does `h` currently resolve to a live resource?
    pub open spec fn handle_live(self, h: Handle) -> bool {
        &&& h.index < self.slots@.len()
        &&& self.slots@[h.index as int].live
        &&& self.slots@[h.index as int].generation == h.generation
        &&& self.slots@[h.index as int].kind == h.kind
    }

    /// `h` was overtaken by its slot: the slot has moved to a later
    /// generation, or sits at `h`'s generation without matching `h`. A
    /// stale handle is dead and stays dead forever.
    pub open spec fn handle_stale(self, h: Handle) -> bool {
        &&& h.index < self.slots@.len()
        &&& {
            ||| self.slots@[h.index as int].generation > h.generation
            ||| (self.slots@[h.index as int].generation == h.generation && (
            !self.slots@[h.index as int].live || self.slots@[h.index as int].kind != h.kind))
        }
    }

    /// The backing object `h` resolves to.
    pub open spec fn object_of(self, h: Handle) -> int {
        self.slots@[h.index as int].object as int
    }

    /// A handle cannot be live and stale at once.
    pub proof fn lemma_stale_is_dead(self, h: Handle)
        ensures
            self.handle_stale(h) ==> !self.handle_live(h),
    {
    }

    /// An empty registry.
    pub fn new() -> (r: Registry)
        ensures
            r.wf(),
            r.slots@.len() == 0,
            r.resources@.len() == 0,
    {
        Registry { slots: Vec::new(), resources: Vec::new(), alive: Vec::new() }
    }

    /// Executable form of `handle_live`.
    pub fn is_live(&self, h: Handle) -> (r: bool)
        ensures
            r == self.handle_live(h),
    {
        if h.index >= self.slots.len() {
            return false;
        }
        let s = self.slots[h.index];
        s.live && s.generation == h.generation && s.kind == h.kind
    }

    /// Executable scan for a remaining holder of object `o`.
    fn object_has_holder(&self, o: usize) -> (r: bool)
        ensures
            r == has_holder(self.slots@, self.resources@, o as int),
    {
        let mut j: usize = 0;
        while j < self.slots.len()
            invariant
                j <= self.slots@.len(),
                forall|k: int| 0 <= k < j ==> !is_holder(self.slots@, self.resources@, k, o as int),
            decreases self.slots@.len() - j,
        {
            let s = self.slots[j];
            if s.live {
                if s.object == o {
                    proof {
                        assert(is_holder(self.slots@, self.resources@, j as int, o as int));
                    }
                    return true;
                }
                if s.object < self.resources.len() {
                    let held = match &self.resources[s.object] {
                        Resource::Material(m) => {
                            m.base_color == o || m.normal == o || m.metallic_roughness == o
                                || m.sampler == o
                        },
                        _ => false,
                    };
                    if held {
                        proof {
                            assert(is_holder(self.slots@, self.resources@, j as int, o as int));
                        }
                        return true;
                    }
                }
            }
            j = j + 1;
        }
        false
    }

    /// Recompute the alive flag of object `o` from the holders that
    /// remain. Touches nothing else.
    fn refresh_object(&mut self, o: usize)
        requires
            o < old(self).resources@.len(),
            old(self).alive@.len() == old(self).resources@.len(),
        ensures
            final(self).slots@ == old(self).slots@,
            final(self).resources@ == old(self).resources@,
            final(self).alive@ == old(self).alive@.update(
                o as int,
                has_holder(old(self).slots@, old(self).resources@, o as int),
            ),
    {
        let b = self.object_has_holder(o);
        self.alive.set(o, b);
    }

    /// What every registry operation preserves, whatever else it does:
    /// backing objects keep their index and their data, released objects
    /// stay released, stale handles stay stale, and slot generations never
    /// move backwards.
    pub open spec fn evolves_to(self, post: Registry) -> bool {
        &&& self.resources@.len() <= post.resources@.len()
        &&& forall|o: int|
            0 <= o < self.resources@.len() ==> (#[trigger] post.resources@[o])
                == self.resources@[o]
        &&& forall|o: int|
            0 <= o < self.resources@.len() && !(#[trigger] self.alive@[o]) ==> !post.alive@[o]
        &&& self.slots@.len() <= post.slots@.len()
        &&& forall|i: int|
            0 <= i < self.slots@.len() ==> (#[trigger] post.slots@[i]).generation
                >= self.slots@[i].generation
        &&& forall|h: Handle| self.handle_stale(h) ==> #[trigger] post.handle_stale(h)
    }

    /// `evolves_to` composes across consecutive operations.
    pub proof fn lemma_evolves_transitive(a: Registry, b: Registry, c: Registry)
        requires
            a.evolves_to(b),
            b.evolves_to(c),
        ensures
            a.evolves_to(c),
    {
        assert forall|h: Handle| a.handle_stale(h) implies #[trigger] c.handle_stale(h) by {
            assert(b.handle_stale(h));
        }
    }

    /// A registry evolves to itself.
    pub proof fn lemma_evolves_refl(a: Registry)
        ensures
            a.evolves_to(a),
    {
    }

    /// Once a handle has gone stale, no later operation can make it
    /// resolve again.
    pub proof fn lemma_stale_never_live(pre: Registry, post: Registry, h: Handle)
        requires
            pre.evolves_to(post),
            pre.handle_stale(h),
        ensures
            !post.handle_live(h),
    {
        assert(post.handle_stale(h));
    }

    /// Find a free, reusable slot.
    fn find_free_slot(&self) -> (r: Option<usize>)
        ensures
            match r {
                Some(i) => i < self.slots@.len() && !self.slots@[i as int].live
                    && self.slots@[i as int].generation < u64::MAX,
                None => true,
            },
    {
        let mut j: usize = 0;
        while j < self.slots.len()
            invariant
                j <= self.slots@.len(),
            decreases self.slots@.len() - j,
        {
            let s = self.slots[j];
            if !s.live && s.generation < u64::MAX {
                return Some(j);
            }
            j = j + 1;
        }
        None
    }

    /// Allocate one slot for a freshly built backing object. Reuses a free
    /// slot under a strictly later generation, or appends a new slot; the
    /// object gets the next object index. For a material, the referenced
    /// objects must be alive: the new slot becomes one more holder of each.
    fn alloc_slot(&mut self, kind: ResourceKind, owner: u64, resource: Resource) -> (h: Handle)
        requires
            old(self).wf(),
            resource_kind(resource) == kind,
            match resource {
                Resource::Material(m) => {
                    &&& m.base_color < old(self).resources@.len()
                    &&& old(self).alive@[m.base_color as int]
                    &&& m.normal < old(self).resources@.len()
                    &&& old(self).alive@[m.normal as int]
                    &&& m.metallic_roughness < old(self).resources@.len()
                    &&& old(self).alive@[m.metallic_roughness as int]
                    &&& m.sampler < old(self).resources@.len()
                    &&& old(self).alive@[m.sampler as int]
                },
                _ => true,
            },
        ensures
            final(self).wf(),
            old(self).evolves_to(*final(self)),
            final(self).handle_live(h),
            h.kind == kind,
            final(self).slots@[h.index as int].owner == owner,
            final(self).object_of(h) == old(self).resources@.len(),
            final(self).resources@ == old(self).resources@.push(resource),
            final(self).alive@ == old(self).alive@.push(true),
            forall|h2: Handle|
                old(self).handle_live(h2) ==> #[trigger] final(self).handle_live(h2)
                    && final(self).object_of(h2) == old(self).object_of(h2),
            forall|h2: Handle| #[trigger] final(self).handle_live(h2) ==> old(self).handle_live(h2) || h2 == h,
    {
        let ghost pre = *self;
        let o: usize = self.resources.len();
        let i: usize = match self.find_free_slot() {
            Some(i) => i,
            None => {
                self.slots.push(
                    Slot {
                        live: false,
                        generation: 0,
                        kind: ResourceKind::Mesh,
                        object: 0,
                        owner: 0,
                    },
                );
                self.slots.len() - 1
            },
        };
        let ghost mid = *self;
        let g: u64 = self.slots[i].generation;
        self.resources.push(resource);
        self.alive.push(true);
        self.slots.set(i, Slot { live: true, generation: g + 1, kind, object: o, owner });
        let h = Handle { index: i, generation: g + 1, kind };
        proof {
            self.lemma_alloc_post(pre, mid, i, o, owner, g, resource, h);
        }
        h
    }

    /// The state relation `alloc_slot` leaves behind.
    proof fn lemma_alloc_post(
        self,
        pre: Registry,
        mid: Registry,
        i: usize,
        o: usize,
        owner: u64,
        g: u64,
        resource: Resource,
        h: Handle,
    )
        requires
            pre.wf(),
            match resource {
                Resource::Material(m) => m.base_color < pre.resources@.len()
                    && pre.alive@[m.base_color as int] && m.normal < pre.resources@.len()
                    && pre.alive@[m.normal as int] && m.metallic_roughness < pre.resources@.len()
                    && pre.alive@[m.metallic_roughness as int] && m.sampler < pre.resources@.len()
                    && pre.alive@[m.sampler as int],
                _ => true,
            },
            o == pre.resources@.len(),
            // mid: pre with possibly one appended dead slot at index i
            mid.resources@ == pre.resources@,
            mid.alive@ == pre.alive@,
            (mid.slots@ == pre.slots@ && i < pre.slots@.len()) || (i == pre.slots@.len()
                && mid.slots@ == pre.slots@.push(
                Slot { live: false, generation: 0, kind: ResourceKind::Mesh, object: 0, owner: 0 },
            )),
            !mid.slots@[i as int].live,
            g == mid.slots@[i as int].generation,
            g < u64::MAX,
            // self: mid with the object appended and slot i rewritten
            self.resources@ == mid.resources@.push(resource),
            self.alive@ == mid.alive@.push(true),
            self.slots@ == mid.slots@.update(
                i as int,
                Slot {
                    live: true,
                    generation: (g + 1) as u64,
                    kind: resource_kind(resource),
                    object: o,
                    owner,
                },
            ),
            h == (Handle { index: i, generation: (g + 1) as u64, kind: resource_kind(resource) }),
        ensures
            self.wf(),
            pre.evolves_to(self),
            self.handle_live(h),
            self.object_of(h) == o,
            forall|h2: Handle|
                pre.handle_live(h2) ==> #[trigger] self.handle_live(h2) && self.object_of(h2)
                    == pre.object_of(h2),
            forall|h2: Handle| #[trigger] self.handle_live(h2) ==> pre.handle_live(h2) || h2 == h,
    {
        assert forall|o2: int| 0 <= o2 < self.resources@.len() implies (#[trigger] self.alive@[o2])
            == has_holder(self.slots@, self.resources@, o2) by {
            if o2 == o {
                assert(is_holder(self.slots@, self.resources@, i as int, o2));
            } else {
                if pre.alive@[o2] {
                    let j = choose|j: int| is_holder(pre.slots@, pre.resources@, j, o2);
                    assert(is_holder(self.slots@, self.resources@, j, o2));
                } else {
                    assert(!has_holder(pre.slots@, pre.resources@, o2));
                    assert forall|j: int| !is_holder(self.slots@, self.resources@, j, o2) by {
                        if 0 <= j < self.slots@.len() {
                            if j == i as int {
                                // the fresh slot holds its own object and, for a
                                // material, objects required to be alive
                                assert(self.slots@[j].object == o);
                                if refs_resource_contain(resource, o2) {
                                    assert(pre.alive@[o2]);
                                }
                            } else if j < pre.slots@.len() {
                                if is_holder(self.slots@, self.resources@, j, o2) {
                                    assert(self.slots@[j] == pre.slots@[j]);
                                    assert(pre.slots@[j].object < pre.resources@.len());
                                    assert(is_holder(pre.slots@, pre.resources@, j, o2));
                                }
                            } else {
                                assert(!self.slots@[j].live);
                            }
                        }
                    }
                }
            }
        }
        assert forall|h2: Handle| pre.handle_stale(h2) implies #[trigger] self.handle_stale(
            h2,
        ) by {
            if h2.index != i {
                assert(self.slots@[h2.index as int] == pre.slots@[h2.index as int]);
            }
        }
    }
    /// Free slot `i` and recompute liveness of every object that loses a
    /// holder: the slot's own object and, for a material, the objects its
    /// reference set names. No other object's liveness can change.
    fn destroy_slot_at(&mut self, i: usize)
        requires
            old(self).wf(),
            i < old(self).slots@.len(),
            old(self).slots@[i as int].live,
        ensures
            final(self).wf(),
            old(self).evolves_to(*final(self)),
            final(self).slots@.len() == old(self).slots@.len(),
            final(self).resources@ == old(self).resources@,
            !final(self).slots@[i as int].live,
            final(self).slots@[i as int].generation == old(self).slots@[i as int].generation,
            final(self).slots@[i as int].owner == old(self).slots@[i as int].owner,
            forall|k: int|
                0 <= k < old(self).slots@.len() && k != i ==> #[trigger] final(self).slots@[k]
                    == old(self).slots@[k],
            forall|h2: Handle|
                old(self).handle_live(h2) && h2.index != i
                    ==> #[trigger] final(self).handle_live(h2),
            forall|h2: Handle|
                #[trigger] final(self).handle_live(h2) ==> old(self).handle_live(h2) && h2.index
                    != i,
    {
        let ghost pre = *self;
        let s = self.slots[i];
        let o: usize = s.object;
        self.slots.set(
            i,
            Slot {
                live: false,
                generation: s.generation,
                kind: s.kind,
                object: s.object,
                owner: s.owner,
            },
        );
        let ghost freed = *self;
        proof {
            // freeing slot i removes holders only for its own object and,
            // if it was a material, the objects of its reference set
            assert forall|o2: int, j: int|
                is_holder(freed.slots@, freed.resources@, j, o2) implies is_holder(
                pre.slots@,
                pre.resources@,
                j,
                o2,
            ) by {
                if j != i {
                    assert(freed.slots@[j] == pre.slots@[j]);
                }
            }
        }
        let refs_opt: Option<MaterialRefs> = match &self.resources[o] {
            Resource::Material(m) => Some(*m),
            _ => None,
        };
        self.refresh_object(o);
        if let Some(m) = refs_opt {
            self.refresh_object(m.base_color);
            self.refresh_object(m.normal);
            self.refresh_object(m.metallic_roughness);
            self.refresh_object(m.sampler);
        }
        proof {
            self.lemma_destroy_post(pre, freed, i, o, refs_opt);
        }
    }

    /// Create a procedural mesh. The descriptor is validated synchronously:
    /// a malformed one fails with `InvalidArgument` and allocates nothing.
    pub fn create_mesh(&mut self, owner: u64, desc: MeshDescriptor) -> (r: Result<
        Handle,
        HostError,
    >)
        requires
            old(self).wf(),
        ensures
            final(self).wf(),
            old(self).evolves_to(*final(self)),
            r is Ok <==> mesh_descriptor_valid(desc.vertices@, desc.indices@),
            r matches Err(e) ==> e == HostError::InvalidArgument && *final(self) == *old(self),
            r matches Ok(h) ==> final(self).handle_live(h) && h.kind == ResourceKind::Mesh
                && final(self).slots@[h.index as int].owner == owner && final(self).object_of(h)
                == old(self).resources@.len() && final(self).resources@ == old(self).resources@.push(Resource::Mesh(desc)) && final(self).alive@ == old(self).alive@.push(true),
            forall|h2: Handle|
                old(self).handle_live(h2) ==> #[trigger] final(self).handle_live(h2)
                    && final(self).object_of(h2) == old(self).object_of(h2),
            forall|h2: Handle|
                #[trigger] final(self).handle_live(h2) ==> old(self).handle_live(h2) || r
                    == Ok::<Handle, HostError>(h2),
    {
        if !desc.validate() {
            return Err(HostError::InvalidArgument);
        }
        let h = self.alloc_slot(ResourceKind::Mesh, owner, Resource::Mesh(desc));
        proof {
            assert forall|h2: Handle| old(self).handle_live(h2) implies #[trigger] self.handle_live(
                h2,
            ) && self.object_of(h2) == old(self).object_of(h2) by {}
        }
        Ok(h)
    }

    /// Create a procedural two-dimensional texture. The pixel buffer must
    /// match the extent and format exactly; otherwise the call fails with
    /// `InvalidArgument` and allocates nothing.
    pub fn create_texture2d(&mut self, owner: u64, desc: TextureDescriptor2d) -> (r: Result<
        Handle,
        HostError,
    >)
        requires
            old(self).wf(),
        ensures
            final(self).wf(),
            old(self).evolves_to(*final(self)),
            r is Ok <==> texture_descriptor_valid(desc.width, desc.height, desc.format, desc.data@),
            r matches Err(e) ==> e == HostError::InvalidArgument && *final(self) == *old(self),
            r matches Ok(h) ==> final(self).handle_live(h) && h.kind == ResourceKind::Texture
                && final(self).slots@[h.index as int].owner == owner && final(self).object_of(h)
                == old(self).resources@.len() && final(self).resources@ == old(self).resources@.push(Resource::Texture(desc)) && final(self).alive@ == old(self).alive@.push(true),
            forall|h2: Handle|
                old(self).handle_live(h2) ==> #[trigger] final(self).handle_live(h2)
                    && final(self).object_of(h2) == old(self).object_of(h2),
            forall|h2: Handle|
                #[trigger] final(self).handle_live(h2) ==> old(self).handle_live(h2) || r
                    == Ok::<Handle, HostError>(h2),
    {
        if !desc.validate() {
            return Err(HostError::InvalidArgument);
        }
        let h = self.alloc_slot(ResourceKind::Texture, owner, Resource::Texture(desc));
        proof {
            assert forall|h2: Handle| old(self).handle_live(h2) implies #[trigger] self.handle_live(
                h2,
            ) && self.object_of(h2) == old(self).object_of(h2) by {}
        }
        Ok(h)
    }

    /// Create a procedural sampler. Every combination of the closed mode
    /// sets is valid, so creation always succeeds.
    pub fn create_sampler(&mut self, owner: u64, desc: SamplerDescriptor) -> (h: Handle)
        requires
            old(self).wf(),
        ensures
            final(self).wf(),
            old(self).evolves_to(*final(self)),
            final(self).handle_live(h),
            h.kind == ResourceKind::Sampler,
            final(self).slots@[h.index as int].owner == owner,
            final(self).object_of(h) == old(self).resources@.len(),
            final(self).resources@ == old(self).resources@.push(Resource::Sampler(desc)),
            final(self).alive@ == old(self).alive@.push(true),
            forall|h2: Handle|
                old(self).handle_live(h2) ==> #[trigger] final(self).handle_live(h2)
                    && final(self).object_of(h2) == old(self).object_of(h2),
            forall|h2: Handle|
                #[trigger] final(self).handle_live(h2) ==> old(self).handle_live(h2) || h2 == h,
    {
        self.alloc_slot(ResourceKind::Sampler, owner, Resource::Sampler(desc))
    }

    /// Are the four dependency handles of a material descriptor live and of
    /// the right kinds: three textures and one sampler?
    pub open spec fn material_deps_live(self, desc: MaterialDescriptor) -> bool {
        &&& self.handle_live(desc.base_color_map)
        &&& desc.base_color_map.kind == ResourceKind::Texture
        &&& self.handle_live(desc.normal_map)
        &&& desc.normal_map.kind == ResourceKind::Texture
        &&& self.handle_live(desc.metallic_roughness_map)
        &&& desc.metallic_roughness_map.kind == ResourceKind::Texture
        &&& self.handle_live(desc.sampler)
        &&& desc.sampler.kind == ResourceKind::Sampler
    }

    /// The reference set a material built from `desc` shares ownership of.
    pub open spec fn material_refs_for(self, desc: MaterialDescriptor) -> MaterialRefs {
        MaterialRefs {
            base_color: self.slots@[desc.base_color_map.index as int].object,
            normal: self.slots@[desc.normal_map.index as int].object,
            metallic_roughness: self.slots@[desc.metallic_roughness_map.index as int].object,
            sampler: self.slots@[desc.sampler.index as int].object,
        }
    }

    /// Create a material from previously created textures and a sampler.
    /// The dependency handles are dereferenced now: any dead, unknown or
    /// wrong-kinded handle fails the call with `NotFound` and allocates
    /// nothing. On success the material shares ownership of the dependency
    /// objects: their own handles may be destroyed without releasing them.
    pub fn create_material(&mut self, owner: u64, desc: MaterialDescriptor) -> (r: Result<
        Handle,
        HostError,
    >)
        requires
            old(self).wf(),
        ensures
            final(self).wf(),
            old(self).evolves_to(*final(self)),
            r is Ok <==> old(self).material_deps_live(desc),
            r matches Err(e) ==> e == HostError::NotFound && *final(self) == *old(self),
            r matches Ok(h) ==> final(self).handle_live(h) && h.kind == ResourceKind::Material
                && final(self).slots@[h.index as int].owner == owner && final(self).object_of(h)
                == old(self).resources@.len() && final(self).resources@ == old(self).resources@.push(Resource::Material(old(self).material_refs_for(desc))) && final(self).alive@ == old(self).alive@.push(true),
            forall|h2: Handle|
                old(self).handle_live(h2) ==> #[trigger] final(self).handle_live(h2)
                    && final(self).object_of(h2) == old(self).object_of(h2),
            forall|h2: Handle|
                #[trigger] final(self).handle_live(h2) ==> old(self).handle_live(h2) || r
                    == Ok::<Handle, HostError>(h2),
    {
        let deps_ok = self.is_live(desc.base_color_map) && matches!(
            desc.base_color_map.kind,
            ResourceKind::Texture,
        ) && self.is_live(desc.normal_map) && matches!(
            desc.normal_map.kind,
            ResourceKind::Texture,
        ) && self.is_live(desc.metallic_roughness_map) && matches!(
            desc.metallic_roughness_map.kind,
            ResourceKind::Texture,
        ) && self.is_live(desc.sampler) && matches!(desc.sampler.kind, ResourceKind::Sampler);
        if !deps_ok {
            return Err(HostError::NotFound);
        }
        let refs = MaterialRefs {
            base_color: self.slots[desc.base_color_map.index].object,
            normal: self.slots[desc.normal_map.index].object,
            metallic_roughness: self.slots[desc.metallic_roughness_map.index].object,
            sampler: self.slots[desc.sampler.index].object,
        };
        proof {
            // a live dependency slot is itself a holder, so its object is alive
            assert(is_holder(
                self.slots@,
                self.resources@,
                desc.base_color_map.index as int,
                refs.base_color as int,
            ));
            assert(is_holder(
                self.slots@,
                self.resources@,
                desc.normal_map.index as int,
                refs.normal as int,
            ));
            assert(is_holder(
                self.slots@,
                self.resources@,
                desc.metallic_roughness_map.index as int,
                refs.metallic_roughness as int,
            ));
            assert(is_holder(
                self.slots@,
                self.resources@,
                desc.sampler.index as int,
                refs.sampler as int,
            ));
        }
        let h = self.alloc_slot(ResourceKind::Material, owner, Resource::Material(refs));
        proof {
            assert forall|h2: Handle| old(self).handle_live(h2) implies #[trigger] self.handle_live(
                h2,
            ) && self.object_of(h2) == old(self).object_of(h2) by {}
        }
        Ok(h)
    }

    /// Destroy the resource `h` refers to: the registry's own reference is
    /// removed and `h` is stale from now on, forever. The backing object
    /// is released only if no other holder remains. A dead, unknown or
    /// wrong-kinded handle fails with `NotFound` and changes nothing.
    pub fn destroy(&mut self, h: Handle) -> (r: Result<(), HostError>)
        requires
            old(self).wf(),
        ensures
            final(self).wf(),
            old(self).evolves_to(*final(self)),
            r is Ok <==> old(self).handle_live(h),
            r matches Err(e) ==> e == HostError::NotFound && *final(self) == *old(self),
            r is Ok ==> final(self).handle_stale(h) && !final(self).handle_live(h) && final(self).resources@ == old(self).resources@ && final(self).slots@.len() == old(self).slots@.len(),
            forall|h2: Handle|
                old(self).handle_live(h2) && h2 != h ==> #[trigger] final(self).handle_live(h2)
                    && final(self).object_of(h2) == old(self).object_of(h2),
            forall|h2: Handle| #[trigger] final(self).handle_live(h2) ==> old(self).handle_live(h2) && h2 != h,
    {
        if !self.is_live(h) {
            return Err(HostError::NotFound);
        }
        proof {
            // two distinct live handles cannot share a slot
            assert forall|h2: Handle| old(self).handle_live(h2) && h2 != h implies h2.index
                != h.index by {}
        }
        self.destroy_slot_at(h.index);
        Ok(())
    }

    /// Look up the backing object of `h`, re-checking slot, generation and
    /// kind. A dead, unknown or wrong-kinded handle yields `NotFound`.
    pub fn get(&self, h: Handle) -> (r: Result<&Resource, HostError>)
        requires
            self.wf(),
        ensures
            r is Ok <==> self.handle_live(h),
            r matches Ok(res) ==> *res == self.resources@[self.object_of(h)] && resource_kind(*res)
                == h.kind,
            r matches Err(e) ==> e == HostError::NotFound,
    {
        if !self.is_live(h) {
            return Err(HostError::NotFound);
        }
        Ok(&self.resources[self.slots[h.index].object])
    }

    /// Destroy every live resource a module created: run when the module
    /// unloads. Resources of other modules are untouched; shared backing
    /// objects survive as long as some other holder remains.
    pub fn destroy_owned(&mut self, owner: u64)
        requires
            old(self).wf(),
        ensures
            final(self).wf(),
            old(self).evolves_to(*final(self)),
            final(self).resources@ == old(self).resources@,
            forall|h2: Handle|
                #[trigger] final(self).handle_live(h2) ==> old(self).handle_live(h2) && old(
                    self,
                ).slots@[h2.index as int].owner != owner,
            forall|h2: Handle|
                old(self).handle_live(h2) && old(self).slots@[h2.index as int].owner != owner
                    ==> #[trigger] final(self).handle_live(h2) && final(self).object_of(h2) == old(
                    self,
                ).object_of(h2),
    {
        let ghost pre = *self;
        let mut i: usize = 0;
        while i < self.slots.len()
            invariant
                self.wf(),
                pre.evolves_to(*self),
                self.slots@.len() == pre.slots@.len(),
                self.resources@ == pre.resources@,
                i <= self.slots@.len(),
                forall|k: int|
                    0 <= k < i ==> !((#[trigger] self.slots@[k]).live && self.slots@[k].owner
                        == owner),
                forall|k: int|
                    0 <= k < self.slots@.len() ==> (#[trigger] self.slots@[k]).owner
                        == pre.slots@[k].owner,
                forall|h2: Handle| #[trigger] self.handle_live(h2) ==> pre.handle_live(h2),
                forall|h2: Handle|
                    pre.handle_live(h2) && pre.slots@[h2.index as int].owner != owner
                        ==> #[trigger] self.handle_live(h2) && self.object_of(h2) == pre.object_of(
                        h2,
                    ),
            decreases self.slots@.len() - i,
        {
            let s = self.slots[i];
            if s.live && s.owner == owner {
                let ghost before = *self;
                self.destroy_slot_at(i);
                proof {
                    Registry::lemma_evolves_transitive(pre, before, *self);
                    assert forall|h2: Handle| #[trigger] self.handle_live(h2) implies
                        pre.handle_live(h2) by {
                        assert(before.handle_live(h2));
                    }
                    assert forall|h2: Handle|
                        pre.handle_live(h2) && pre.slots@[h2.index as int].owner != owner implies
                        #[trigger] self.handle_live(h2) && self.object_of(h2) == pre.object_of(
                        h2,
                    ) by {
                        assert(before.handle_live(h2));
                        assert(before.slots@[h2.index as int].owner == pre.slots@[h2.index as int].owner);
                        assert(before.slots@[i as int].owner == owner);
                        assert(h2.index != i);
                        assert(self.slots@[h2.index as int] == before.slots@[h2.index as int]);
                    }
                }
            }
            i = i + 1;
        }
        proof {
            assert(pre == *old(self));
            assert forall|h2: Handle|
                old(self).handle_live(h2) && old(self).slots@[h2.index as int].owner != owner implies
                #[trigger] self.handle_live(h2) && self.object_of(h2) == old(self).object_of(
                h2,
            ) by {
                assert(pre.handle_live(h2) && pre.slots@[h2.index as int].owner != owner);
            }
        }
    }

    /// A destroyed handle is gone for good: once `destroy(h)` has left `h`
    /// stale, no sequence of later registry operations makes `h` resolve
    /// again — every lookup of `h` keeps answering `NotFound`.
    pub proof fn lemma_destroyed_stays_dead(after_destroy: Registry, later: Registry, h: Handle)
        requires
            after_destroy.handle_stale(h),
            after_destroy.evolves_to(later),
        ensures
            !later.handle_live(h),
    {
        Registry::lemma_stale_never_live(after_destroy, later, h);
    }

    /// Creating new resources never re-issues a stale handle's identity: a
    /// handle live after any operations differs from every handle that was
    /// already stale before them, so a stale reference cannot alias a new
    /// resource.
    pub proof fn lemma_no_identity_reuse(pre: Registry, post: Registry, stale: Handle, fresh: Handle)
        requires
            pre.evolves_to(post),
            pre.handle_stale(stale),
            post.handle_live(fresh),
        ensures
            fresh != stale,
    {
        Registry::lemma_stale_never_live(pre, post, stale);
    }

    /// A live material keeps the backing objects of its reference set
    /// alive, even after the handles those objects were created under have
    /// been destroyed: the material itself is still a holder.
    pub proof fn lemma_material_holds_deps(reg: Registry, h: Handle, m: MaterialRefs)
        requires
            reg.wf(),
            reg.handle_live(h),
            reg.resources@[reg.object_of(h)] == Resource::Material(m),
        ensures
            reg.alive@[m.base_color as int],
            reg.alive@[m.normal as int],
            reg.alive@[m.metallic_roughness as int],
            reg.alive@[m.sampler as int],
    {
        assert(is_holder(reg.slots@, reg.resources@, h.index as int, m.base_color as int));
        assert(is_holder(reg.slots@, reg.resources@, h.index as int, m.normal as int));
        assert(is_holder(reg.slots@, reg.resources@, h.index as int, m.metallic_roughness as int));
        assert(is_holder(reg.slots@, reg.resources@, h.index as int, m.sampler as int));
    }

    /// A live handle keeps its backing object alive: so destroying a
    /// material whose textures and sampler are still independently held
    /// cannot release them — their own handles remain holders.
    pub proof fn lemma_live_handle_keeps_object(reg: Registry, h: Handle)
        requires
            reg.wf(),
            reg.handle_live(h),
        ensures
            reg.alive@[reg.object_of(h)],
    {
        assert(is_holder(reg.slots@, reg.resources@, h.index as int, reg.object_of(h)));
    }

    /// A backing object is released at most once: after the operation that
    /// saw its last holder disappear flipped it to released, every later
    /// state keeps it released.
    pub proof fn lemma_released_stays_released(pre: Registry, post: Registry, o: int)
        requires
            pre.evolves_to(post),
            0 <= o < pre.resources@.len(),
            !pre.alive@[o],
        ensures
            !post.alive@[o],
    {
    }

    /// The state relation `destroy_slot_at` leaves behind.
    proof fn lemma_destroy_post(
        self,
        pre: Registry,
        freed: Registry,
        i: usize,
        o: usize,
        refs_opt: Option<MaterialRefs>,
    )
        requires
            pre.wf(),
            i < pre.slots@.len(),
            pre.slots@[i as int].live,
            o == pre.slots@[i as int].object,
            refs_opt == (match pre.resources@[o as int] {
                Resource::Material(m) => Some(m),
                _ => None::<MaterialRefs>,
            }),
            freed.resources@ == pre.resources@,
            freed.alive@ == pre.alive@,
            freed.slots@ == pre.slots@.update(
                i as int,
                Slot {
                    live: false,
                    generation: pre.slots@[i as int].generation,
                    kind: pre.slots@[i as int].kind,
                    object: pre.slots@[i as int].object,
                    owner: pre.slots@[i as int].owner,
                },
            ),
            self.slots@ == freed.slots@,
            self.resources@ == freed.resources@,
            self.alive@ == (match refs_opt {
                Some(m) => freed.alive@.update(
                    o as int,
                    has_holder(freed.slots@, freed.resources@, o as int),
                ).update(
                    m.base_color as int,
                    has_holder(freed.slots@, freed.resources@, m.base_color as int),
                ).update(
                    m.normal as int,
                    has_holder(freed.slots@, freed.resources@, m.normal as int),
                ).update(
                    m.metallic_roughness as int,
                    has_holder(freed.slots@, freed.resources@, m.metallic_roughness as int),
                ).update(
                    m.sampler as int,
                    has_holder(freed.slots@, freed.resources@, m.sampler as int),
                ),
                None => freed.alive@.update(
                    o as int,
                    has_holder(freed.slots@, freed.resources@, o as int),
                ),
            }),
        ensures
            self.wf(),
            pre.evolves_to(self),
    {
        assert forall|o2: int, j: int|
            is_holder(self.slots@, self.resources@, j, o2) implies is_holder(
            pre.slots@,
            pre.resources@,
            j,
            o2,
        ) by {
            if j != i {
                assert(self.slots@[j] == pre.slots@[j]);
            }
        }
        // an object not refreshed keeps both its flag and its holder set
        assert forall|o2: int|
            0 <= o2 < self.resources@.len() && self.alive@[o2] == pre.alive@[o2] && !refreshed_by(
                o,
                refs_opt,
                o2,
            ) implies (#[trigger] self.alive@[o2]) == has_holder(
            self.slots@,
            self.resources@,
            o2,
        ) by {
            if pre.alive@[o2] {
                let j = choose|j: int| is_holder(pre.slots@, pre.resources@, j, o2);
                if j == i {
                    // slot i held only its object and its material's refs
                    assert(pre.slots@[i as int].object == o);
                    assert(false);
                } else {
                    assert(self.slots@[j] == pre.slots@[j]);
                    assert(is_holder(self.slots@, self.resources@, j, o2));
                }
            }
        }
        assert forall|o2: int| 0 <= o2 < self.resources@.len() implies (#[trigger] self.alive@[o2])
            == has_holder(self.slots@, self.resources@, o2) by {
            if refreshed_by(o, refs_opt, o2) {
                assert(self.alive@[o2] == has_holder(freed.slots@, freed.resources@, o2));
            } else {
                assert(self.alive@[o2] == pre.alive@[o2]);
            }
        }
    }
}

/// Does `resource`, if it is a material, reference object `o`?
pub open spec fn refs_resource_contain(resource: Resource, o: int) -> bool {
    match resource {
        Resource::Material(m) => refs_contain(m, o),
        _ => false,
    }
}

/// Is `o2` among the objects whose liveness a destroy of a slot with
/// object `o` and material reference set `refs_opt` recomputes?
pub open spec fn refreshed_by(o: usize, refs_opt: Option<MaterialRefs>, o2: int) -> bool {
    o2 == o || match refs_opt {
        Some(m) => refs_contain(m, o2),
        None => false,
    }
}

} // verus!
