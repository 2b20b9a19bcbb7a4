use module_host::capability::Role;
use module_host::descriptor::{
    AddressMode, FilterMode, MaterialDescriptor, MeshDescriptor, SamplerDescriptor,
    TextureDescriptor2d, TextureFormat, Vec2Bits, Vec3Bits, Vertex,
};
use module_host::error::HostError;
use module_host::handle::{Handle, ResourceKind};
use module_host::host::{Call, CallOutput, Host};
use module_host::registry::Resource;
use module_host::world::Platform;

fn reg_vertex() -> Vertex {
    let z = 0.0f32.to_bits();
    Vertex {
        position: Vec3Bits { x: z, y: z, z },
        normal: Vec3Bits { x: z, y: z, z: 1.0f32.to_bits() },
        tangent: Vec3Bits { x: 1.0f32.to_bits(), y: z, z },
        texcoord0: Vec2Bits { x: z, y: z },
    }
}

fn reg_quad_mesh() -> MeshDescriptor {
    MeshDescriptor {
        vertices: vec![reg_vertex(), reg_vertex(), reg_vertex(), reg_vertex()],
        indices: vec![0, 1, 2, 2, 1, 3],
    }
}

fn reg_texture() -> TextureDescriptor2d {
    TextureDescriptor2d {
        width: 2,
        height: 2,
        format: TextureFormat::Rgba8Unorm,
        data: vec![0u8; 16],
    }
}

fn reg_sampler() -> SamplerDescriptor {
    SamplerDescriptor {
        address_mode_u: AddressMode::ClampToEdge,
        address_mode_v: AddressMode::Repeat,
        address_mode_w: AddressMode::MirrorRepeat,
        mag_filter: FilterMode::Linear,
        min_filter: FilterMode::Nearest,
        mipmap_filter: FilterMode::Linear,
    }
}

fn reg_host() -> (Host, u64) {
    let mut host = Host::new(Platform::Linux);
    let auth = host.load_module(Role::Authoritative);
    (host, auth)
}

fn reg_create(host: &mut Host, module: u64, call: Call) -> Handle {
    match host.dispatch(module, call) {
        Ok(CallOutput::Created(h)) => h,
        other => panic!("expected a handle, got {other:?}"),
    }
}

#[test]
fn destroyed_handle_stays_not_found() {
    let (mut host, auth) = reg_host();
    let h = reg_create(&mut host, auth, Call::CreateMesh { desc: reg_quad_mesh() });
    assert!(matches!(
        host.dispatch(auth, Call::DestroyMesh { handle: h }),
        Ok(CallOutput::Unit)
    ));
    // every subsequent operation referencing h answers NotFound
    assert_eq!(
        host.dispatch(auth, Call::DestroyMesh { handle: h }).unwrap_err(),
        HostError::NotFound
    );
    assert_eq!(host.registry.get(h).unwrap_err(), HostError::NotFound);
}

#[test]
fn stale_handle_never_aliases_a_new_resource() {
    let (mut host, auth) = reg_host();
    let h1 = reg_create(&mut host, auth, Call::CreateMesh { desc: reg_quad_mesh() });
    host.dispatch(auth, Call::DestroyMesh { handle: h1 }).unwrap();
    // the freed slot may be reused, but under a later generation
    let h2 = reg_create(&mut host, auth, Call::CreateMesh { desc: reg_quad_mesh() });
    assert_ne!(h1, h2);
    assert_eq!(host.registry.get(h1).unwrap_err(), HostError::NotFound);
    assert!(host.registry.get(h2).is_ok());
}

#[test]
fn material_keeps_shared_textures_alive() {
    let (mut host, auth) = reg_host();
    let t = reg_create(&mut host, auth, Call::CreateTexture2d { desc: reg_texture() });
    let s = reg_create(&mut host, auth, Call::CreateSampler { desc: reg_sampler() });
    let m = reg_create(
        &mut host,
        auth,
        Call::CreateMaterial {
            desc: MaterialDescriptor {
                base_color_map: t,
                normal_map: t,
                metallic_roughness_map: t,
                sampler: s,
            },
        },
    );
    let t_obj = match host.registry.get(t) {
        Ok(Resource::Texture(_)) => host.registry.slots[t.index].object,
        other => panic!("expected a texture, got {other:?}"),
    };
    // destroying the texture's own handle must not release the backing
    // object while the material still holds it
    host.dispatch(auth, Call::DestroyTexture { handle: t }).unwrap();
    assert_eq!(host.registry.get(t).unwrap_err(), HostError::NotFound);
    assert!(host.registry.alive[t_obj]);
    // the material itself still resolves
    assert!(host.registry.get(m).is_ok());
    // destroying the last holder releases the object, exactly once
    host.dispatch(auth, Call::DestroyMaterial { handle: m }).unwrap();
    assert!(!host.registry.alive[t_obj]);
    // and the sampler, still independently held, is untouched
    assert!(host.registry.get(s).is_ok());
}

#[test]
fn destroying_material_leaves_dependency_handles_valid() {
    let (mut host, auth) = reg_host();
    let t = reg_create(&mut host, auth, Call::CreateTexture2d { desc: reg_texture() });
    let s = reg_create(&mut host, auth, Call::CreateSampler { desc: reg_sampler() });
    let m = reg_create(
        &mut host,
        auth,
        Call::CreateMaterial {
            desc: MaterialDescriptor {
                base_color_map: t,
                normal_map: t,
                metallic_roughness_map: t,
                sampler: s,
            },
        },
    );
    host.dispatch(auth, Call::DestroyMaterial { handle: m }).unwrap();
    // the texture and sampler handles were held independently and survive
    assert!(host.registry.get(t).is_ok());
    assert!(host.registry.get(s).is_ok());
    let t_obj = host.registry.slots[t.index].object;
    assert!(host.registry.alive[t_obj]);
}

#[test]
fn create_mesh_then_destroy_then_material_referencing_it_fails() {
    // end to end on the authoritative role: a 4-vertex, 6-index mesh
    let (mut host, auth) = reg_host();
    let desc = reg_quad_mesh();
    assert_eq!(desc.vertices.len(), 4);
    assert_eq!(desc.indices.len(), 6);
    let h1 = reg_create(&mut host, auth, Call::CreateMesh { desc });
    assert!(matches!(
        host.dispatch(auth, Call::DestroyMesh { handle: h1 }),
        Ok(CallOutput::Unit)
    ));
    let s = reg_create(&mut host, auth, Call::CreateSampler { desc: reg_sampler() });
    let r = host.dispatch(
        auth,
        Call::CreateMaterial {
            desc: MaterialDescriptor {
                base_color_map: h1,
                normal_map: h1,
                metallic_roughness_map: h1,
                sampler: s,
            },
        },
    );
    assert_eq!(r.unwrap_err(), HostError::NotFound);
    // the failed creation allocated nothing: only the sampler slot is live
    assert_eq!(host.registry.slots.iter().filter(|s| s.live).count(), 1);
}

#[test]
fn malformed_mesh_descriptors_fail_synchronously() {
    let (mut host, auth) = reg_host();
    let no_vertices = MeshDescriptor { vertices: vec![], indices: vec![0, 0, 0] };
    let no_indices = MeshDescriptor { vertices: vec![reg_vertex()], indices: vec![] };
    let partial_triangle = MeshDescriptor { vertices: vec![reg_vertex()], indices: vec![0, 0] };
    let out_of_range = MeshDescriptor { vertices: vec![reg_vertex()], indices: vec![0, 0, 1] };
    for desc in [no_vertices, no_indices, partial_triangle, out_of_range] {
        let r = host.dispatch(auth, Call::CreateMesh { desc });
        assert_eq!(r.unwrap_err(), HostError::InvalidArgument);
    }
    assert_eq!(host.registry.slots.len(), 0);
}

#[test]
fn texture_pixel_buffer_must_match_extent_and_format() {
    let (mut host, auth) = reg_host();
    let short = TextureDescriptor2d {
        width: 2,
        height: 2,
        format: TextureFormat::Rgba8Unorm,
        data: vec![0u8; 15],
    };
    assert_eq!(
        host.dispatch(auth, Call::CreateTexture2d { desc: short }).unwrap_err(),
        HostError::InvalidArgument
    );
    let empty = TextureDescriptor2d {
        width: 0,
        height: 1,
        format: TextureFormat::R8Unorm,
        data: vec![],
    };
    assert_eq!(
        host.dispatch(auth, Call::CreateTexture2d { desc: empty }).unwrap_err(),
        HostError::InvalidArgument
    );
    let wide = TextureDescriptor2d {
        width: 3,
        height: 2,
        format: TextureFormat::Rg32Float,
        data: vec![0u8; 48],
    };
    assert!(host.dispatch(auth, Call::CreateTexture2d { desc: wide }).is_ok());
}

#[test]
fn texel_widths_follow_the_format_table() {
    let texel_byte_width = module_host::descriptor::texel_byte_width;
    assert_eq!(texel_byte_width(TextureFormat::R8Unorm), 1);
    assert_eq!(texel_byte_width(TextureFormat::R16Float), 2);
    assert_eq!(texel_byte_width(TextureFormat::Rg8Snorm), 2);
    assert_eq!(texel_byte_width(TextureFormat::Rgba8UnormSrgb), 4);
    assert_eq!(texel_byte_width(TextureFormat::Rg11b10Float), 4);
    assert_eq!(texel_byte_width(TextureFormat::Rgb9e5Ufloat), 4);
    assert_eq!(texel_byte_width(TextureFormat::Rgba16Snorm), 8);
    assert_eq!(texel_byte_width(TextureFormat::Rg32Uint), 8);
    assert_eq!(texel_byte_width(TextureFormat::Rgba32Float), 16);
}

#[test]
fn destroy_checks_the_handle_kind() {
    let (mut host, auth) = reg_host();
    let t = reg_create(&mut host, auth, Call::CreateTexture2d { desc: reg_texture() });
    // a texture handle is no mesh handle, even if the slot is live
    assert_eq!(
        host.dispatch(auth, Call::DestroyMesh { handle: t }).unwrap_err(),
        HostError::NotFound
    );
    let forged = Handle { index: t.index, generation: t.generation, kind: ResourceKind::Mesh };
    assert_eq!(host.registry.get(forged).unwrap_err(), HostError::NotFound);
    assert!(host.registry.get(t).is_ok());
}

#[test]
fn unloading_a_module_destroys_its_resources_only() {
    let mut host = Host::new(Platform::Linux);
    let a = host.load_module(Role::Authoritative);
    let b = host.load_module(Role::Presentational);
    let ha = reg_create(&mut host, a, Call::CreateMesh { desc: reg_quad_mesh() });
    let hb = reg_create(&mut host, b, Call::CreateTexture2d { desc: reg_texture() });
    host.unload_module(a).unwrap();
    assert_eq!(host.registry.get(ha).unwrap_err(), HostError::NotFound);
    assert!(host.registry.get(hb).is_ok());
    // the id is retired: further calls under it fail
    assert_eq!(host.dispatch(a, Call::GetInput).unwrap_err(), HostError::NotFound);
    assert_eq!(host.unload_module(a).unwrap_err(), HostError::NotFound);
}
