//! Resource descriptors: the plain structured data a guest hands to the
//! host when creating a procedural resource.
//!
//! Descriptors are validated synchronously — a malformed descriptor fails
//! the creating call immediately with `InvalidArgument` and allocates
//! nothing. The pixel-format and filter-mode sets are closed; the rendering
//! collaborator maps each variant to its own equivalent value outside this
//! crate, and the per-texel byte width of every format is fixed here so
//! pixel-buffer sizes can be checked exactly. Values the collaborators
//! treat as floating point (vertex positions, texture coordinates) cross
//! the boundary as IEEE 754 bit patterns.

use vstd::prelude::*;

verus! {

/// A three-component vector, each component the bit pattern of a 32-bit
/// IEEE 754 value.
#[derive(Clone, Copy, Debug, PartialEq, Eq, Structural)]
pub struct Vec3Bits {
    pub x: u32,
    pub y: u32,
    pub z: u32,
}

/// A two-component vector of 32-bit IEEE 754 bit patterns.
#[derive(Clone, Copy, Debug, PartialEq, Eq, Structural)]
pub struct Vec2Bits {
    pub x: u32,
    pub y: u32,
}

/// A ray: origin and direction, as 32-bit IEEE 754 bit patterns.
#[derive(Clone, Copy, Debug, PartialEq, Eq, Structural)]
pub struct RayBits {
    pub origin: Vec3Bits,
    pub dir: Vec3Bits,
}

/// One mesh vertex, as the guest supplies it.
#[derive(Clone, Copy, Debug, PartialEq, Eq, Structural)]
pub struct Vertex {
    pub position: Vec3Bits,
    pub normal: Vec3Bits,
    pub tangent: Vec3Bits,
    pub texcoord0: Vec2Bits,
}

/// A procedural mesh: a vertex array and a triangle-list index array.
#[derive(Clone, Debug)]
pub struct MeshDescriptor {
    pub vertices: Vec<Vertex>,
    pub indices: Vec<u32>,
}

/// A mesh descriptor is well formed when it has at least one vertex, its
/// index array describes whole triangles, and every index points at an
/// existing vertex.
pub open spec fn mesh_descriptor_valid(vertices: Seq<Vertex>, indices: Seq<u32>) -> bool {
    &&& vertices.len() > 0
    &&& indices.len() > 0
    &&& indices.len() % 3 == 0
    &&& forall|i: int| 0 <= i < indices.len() ==> (#[trigger] indices[i]) < vertices.len()
}

impl MeshDescriptor {
    /// Synchronous validation of a mesh descriptor.
    pub fn validate(&self) -> (r: bool)
        ensures
            r == mesh_descriptor_valid(self.vertices@, self.indices@),
    {
        if self.vertices.len() == 0 || self.indices.len() == 0 || self.indices.len() % 3 != 0 {
            return false;
        }
        let mut i: usize = 0;
        while i < self.indices.len()
            invariant
                i <= self.indices@.len(),
                forall|j: int| 0 <= j < i ==> (#[trigger] self.indices@[j]) < self.vertices@.len(),
            decreases self.indices@.len() - i,
        {
            if self.indices[i] as usize >= self.vertices.len() {
                return false;
            }
            i = i + 1;
        }
        true
    }
}

/// The closed set of two-dimensional texture pixel formats a guest can name.
#[derive(Clone, Copy, Debug, PartialEq, Eq, Structural)]
pub enum TextureFormat {
    R8Unorm,
    R8Snorm,
    R8Uint,
    R8Sint,
    R16Uint,
    R16Sint,
    R16Unorm,
    R16Snorm,
    R16Float,
    Rg8Unorm,
    Rg8Snorm,
    Rg8Uint,
    Rg8Sint,
    R32Uint,
    R32Sint,
    R32Float,
    Rg16Uint,
    Rg16Sint,
    Rg16Unorm,
    Rg16Snorm,
    Rg16Float,
    Rgba8Unorm,
    Rgba8UnormSrgb,
    Rgba8Snorm,
    Rgba8Uint,
    Rgba8Sint,
    Bgra8Unorm,
    Bgra8UnormSrgb,
    Rgb9e5Ufloat,
    Rgb10a2Unorm,
    Rg11b10Float,
    Rg32Uint,
    Rg32Sint,
    Rg32Float,
    Rgba16Uint,
    Rgba16Sint,
    Rgba16Unorm,
    Rgba16Snorm,
    Rgba16Float,
    Rgba32Uint,
    Rgba32Sint,
    Rgba32Float,
}

/// How many bytes one texel of the format occupies.
pub open spec fn texel_bytes(format: TextureFormat) -> nat {
    match format {
        TextureFormat::R8Unorm => 1,
        TextureFormat::R8Snorm => 1,
        TextureFormat::R8Uint => 1,
        TextureFormat::R8Sint => 1,
        TextureFormat::R16Uint => 2,
        TextureFormat::R16Sint => 2,
        TextureFormat::R16Unorm => 2,
        TextureFormat::R16Snorm => 2,
        TextureFormat::R16Float => 2,
        TextureFormat::Rg8Unorm => 2,
        TextureFormat::Rg8Snorm => 2,
        TextureFormat::Rg8Uint => 2,
        TextureFormat::Rg8Sint => 2,
        TextureFormat::R32Uint => 4,
        TextureFormat::R32Sint => 4,
        TextureFormat::R32Float => 4,
        TextureFormat::Rg16Uint => 4,
        TextureFormat::Rg16Sint => 4,
        TextureFormat::Rg16Unorm => 4,
        TextureFormat::Rg16Snorm => 4,
        TextureFormat::Rg16Float => 4,
        TextureFormat::Rgba8Unorm => 4,
        TextureFormat::Rgba8UnormSrgb => 4,
        TextureFormat::Rgba8Snorm => 4,
        TextureFormat::Rgba8Uint => 4,
        TextureFormat::Rgba8Sint => 4,
        TextureFormat::Bgra8Unorm => 4,
        TextureFormat::Bgra8UnormSrgb => 4,
        TextureFormat::Rgb9e5Ufloat => 4,
        TextureFormat::Rgb10a2Unorm => 4,
        TextureFormat::Rg11b10Float => 4,
        TextureFormat::Rg32Uint => 8,
        TextureFormat::Rg32Sint => 8,
        TextureFormat::Rg32Float => 8,
        TextureFormat::Rgba16Uint => 8,
        TextureFormat::Rgba16Sint => 8,
        TextureFormat::Rgba16Unorm => 8,
        TextureFormat::Rgba16Snorm => 8,
        TextureFormat::Rgba16Float => 8,
        TextureFormat::Rgba32Uint => 16,
        TextureFormat::Rgba32Sint => 16,
        TextureFormat::Rgba32Float => 16,
    }
}

/// Executable form of the per-texel byte width, one row per format so the
/// mapping is visibly exhaustive.
pub fn texel_byte_width(format: TextureFormat) -> (r: u64)
    ensures
        r == texel_bytes(format),
        1 <= r <= 16,
{
    match format {
        TextureFormat::R8Unorm => 1,
        TextureFormat::R8Snorm => 1,
        TextureFormat::R8Uint => 1,
        TextureFormat::R8Sint => 1,
        TextureFormat::R16Uint => 2,
        TextureFormat::R16Sint => 2,
        TextureFormat::R16Unorm => 2,
        TextureFormat::R16Snorm => 2,
        TextureFormat::R16Float => 2,
        TextureFormat::Rg8Unorm => 2,
        TextureFormat::Rg8Snorm => 2,
        TextureFormat::Rg8Uint => 2,
        TextureFormat::Rg8Sint => 2,
        TextureFormat::R32Uint => 4,
        TextureFormat::R32Sint => 4,
        TextureFormat::R32Float => 4,
        TextureFormat::Rg16Uint => 4,
        TextureFormat::Rg16Sint => 4,
        TextureFormat::Rg16Unorm => 4,
        TextureFormat::Rg16Snorm => 4,
        TextureFormat::Rg16Float => 4,
        TextureFormat::Rgba8Unorm => 4,
        TextureFormat::Rgba8UnormSrgb => 4,
        TextureFormat::Rgba8Snorm => 4,
        TextureFormat::Rgba8Uint => 4,
        TextureFormat::Rgba8Sint => 4,
        TextureFormat::Bgra8Unorm => 4,
        TextureFormat::Bgra8UnormSrgb => 4,
        TextureFormat::Rgb9e5Ufloat => 4,
        TextureFormat::Rgb10a2Unorm => 4,
        TextureFormat::Rg11b10Float => 4,
        TextureFormat::Rg32Uint => 8,
        TextureFormat::Rg32Sint => 8,
        TextureFormat::Rg32Float => 8,
        TextureFormat::Rgba16Uint => 8,
        TextureFormat::Rgba16Sint => 8,
        TextureFormat::Rgba16Unorm => 8,
        TextureFormat::Rgba16Snorm => 8,
        TextureFormat::Rgba16Float => 8,
        TextureFormat::Rgba32Uint => 16,
        TextureFormat::Rgba32Sint => 16,
        TextureFormat::Rgba32Float => 16,
    }
}

/// A procedural two-dimensional texture: its extent, pixel format and the
/// raw pixel buffer.
#[derive(Clone, Debug)]
pub struct TextureDescriptor2d {
    pub width: u32,
    pub height: u32,
    pub format: TextureFormat,
    pub data: Vec<u8>,
}

/// A texture descriptor is well formed when both extents are positive and
/// the pixel buffer holds exactly one texel per cell.
pub open spec fn texture_descriptor_valid(
    width: u32,
    height: u32,
    format: TextureFormat,
    data: Seq<u8>,
) -> bool {
    &&& width > 0
    &&& height > 0
    &&& data.len() == width * height * texel_bytes(format)
}

impl TextureDescriptor2d {
    /// Synchronous validation of a texture descriptor.
    pub fn validate(&self) -> (r: bool)
        ensures
            r == texture_descriptor_valid(self.width, self.height, self.format, self.data@),
    {
        if self.width == 0 || self.height == 0 {
            return false;
        }
        let texel: u64 = texel_byte_width(self.format);
        proof {
            assert((self.width as u128) * (self.height as u128) * (texel as u128)
                <= 0xffff_ffffu128 * 0xffff_ffffu128 * 16 && (self.width as u128) * (
            self.height as u128) <= 0xffff_ffffu128 * 0xffff_ffffu128) by (nonlinear_arith)
                requires
                    self.width <= 0xffff_ffffu128,
                    self.height <= 0xffff_ffffu128,
                    texel <= 16,
            ;
        }
        let expected: u128 = (self.width as u128) * (self.height as u128) * (texel as u128);
        proof {
            assert(expected == self.width * self.height * texel_bytes(self.format)) by (nonlinear_arith)
                requires
                    expected == (self.width as u128) * (self.height as u128) * (texel as u128),
                    texel == texel_bytes(self.format),
            ;
        }
        (self.data.len() as u128) == expected
    }
}

/// How a sampler treats coordinates outside the unit interval.
#[derive(Clone, Copy, Debug, PartialEq, Eq, Structural)]
pub enum AddressMode {
    ClampToEdge,
    Repeat,
    MirrorRepeat,
}

/// How a sampler blends between texels and mip levels.
#[derive(Clone, Copy, Debug, PartialEq, Eq, Structural)]
pub enum FilterMode {
    Nearest,
    Linear,
}

/// A procedural sampler. Every combination of the closed mode sets is
/// valid.
#[derive(Clone, Copy, Debug, PartialEq, Eq, Structural)]
pub struct SamplerDescriptor {
    pub address_mode_u: AddressMode,
    pub address_mode_v: AddressMode,
    pub address_mode_w: AddressMode,
    pub mag_filter: FilterMode,
    pub min_filter: FilterMode,
    pub mipmap_filter: FilterMode,
}

/// A procedural material, built from previously created resources: three
/// texture handles and one sampler handle. The handles are dereferenced at
/// creation time; the material then shares ownership of the underlying
/// objects.
#[derive(Clone, Copy, Debug, PartialEq, Eq, Structural)]
pub struct MaterialDescriptor {
    pub base_color_map: crate::handle::Handle,
    pub normal_map: crate::handle::Handle,
    pub metallic_roughness_map: crate::handle::Handle,
    pub sampler: crate::handle::Handle,
}

} // verus!
