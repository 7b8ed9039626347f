//! Samplers: how a shader reads a texture between and beyond its texels.
//!
//! A sampler never changes after it was built.

use crate::handle::Handle;
use crate::label::{borrowed_label, label_view, owned_label, text_view};
use crate::manager::RenderManager;
use crate::state::ManagerView;
use vstd::prelude::*;

verus! {

pub type TextureSampleHandle = Handle<TextureSampler>;

/// What a sampler returns for coordinates outside the texture.
#[derive(Clone, Copy, Debug, PartialEq, Eq, Structural)]
pub enum AddressMode {
    ClampToEdge,
    Repeat,
    MirrorRepeat,
    ClampToBorder,
}

/// How a sampler blends neighbouring texels.
#[derive(Clone, Copy, Debug, PartialEq, Eq, Structural)]
pub enum FilterMode {
    Nearest,
    Linear,
}

/// A comparison between a new value and a stored one.
#[derive(Clone, Copy, Debug, PartialEq, Eq, Structural)]
pub enum CompareFunction {
    Never,
    Less,
    Equal,
    LessEqual,
    Greater,
    NotEqual,
    GreaterEqual,
    Always,
}

/// The colour a sampler returns under [`AddressMode::ClampToBorder`].
#[derive(Clone, Copy, Debug, PartialEq, Eq, Structural)]
pub enum SamplerBorderColor {
    TransparentBlack,
    OpaqueBlack,
    OpaqueWhite,
    Zero,
}

/// The configuration of a sampler.
///
/// The two level-of-detail clamps are single-precision values held as their
/// bit patterns: the library stores them and never computes with them.
#[derive(Clone, Copy, Debug, PartialEq, Eq, Structural)]
pub struct SamplerDescriptor {
    pub address_mode_u: AddressMode,
    pub address_mode_v: AddressMode,
    pub address_mode_w: AddressMode,
    pub mag_filter: FilterMode,
    pub min_filter: FilterMode,
    pub mipmap_filter: FilterMode,
    pub lod_min_clamp: u32,
    pub lod_max_clamp: u32,
    pub compare: Option<CompareFunction>,
    /// At least 1 where anisotropic filtering is on.
    pub anisotropy_clamp: Option<u8>,
    pub border_color: Option<SamplerBorderColor>,
}

/// The bit pattern of the largest finite single-precision value.
pub const LOD_UNCLAMPED: u32 = 0x7f7f_ffff;

impl SamplerDescriptor {
    /// Clamp to the edge, nearest texel, every level of detail, no comparison,
    /// no anisotropy, no border.
    pub open spec fn initial() -> SamplerDescriptor {
        SamplerDescriptor {
            address_mode_u: AddressMode::ClampToEdge,
            address_mode_v: AddressMode::ClampToEdge,
            address_mode_w: AddressMode::ClampToEdge,
            mag_filter: FilterMode::Nearest,
            min_filter: FilterMode::Nearest,
            mipmap_filter: FilterMode::Nearest,
            lod_min_clamp: 0,
            lod_max_clamp: LOD_UNCLAMPED,
            compare: None,
            anisotropy_clamp: None,
            border_color: None,
        }
    }
}

/// `val` as an anisotropy clamp: zero switches anisotropic filtering off.
pub open spec fn anisotropy(val: u8) -> Option<u8> {
    if val == 0 {
        None
    } else {
        Some(val)
    }
}

pub struct TextureSampler {
    name: Option<String>,
    descriptor: SamplerDescriptor,
}

/// What a [`TextureSampler`] is, as plain values.
pub struct SamplerView {
    pub name: Option<Seq<char>>,
    pub descriptor: SamplerDescriptor,
}

impl View for TextureSampler {
    type V = SamplerView;

    closed spec fn view(&self) -> SamplerView {
        SamplerView {
            name: label_view(self.name),
            descriptor: self.descriptor,
        }
    }
}

impl TextureSampler {
    pub(crate) fn new(label: Option<String>, descriptor: SamplerDescriptor) -> (sampler: TextureSampler)
        ensures
            sampler@ == (SamplerView {
                name: label_view(label),
                descriptor,
            }),
    {
        TextureSampler { name: label, descriptor }
    }

    pub fn name(&self) -> (name: Option<&str>)
        ensures
            text_view(name) == self@.name,
    {
        borrowed_label(&self.name)
    }

    pub fn descriptor(&self) -> (descriptor: SamplerDescriptor)
        ensures
            descriptor == self@.descriptor,
    {
        self.descriptor
    }
}

/// Collects the configuration of a sampler, and registers the sampler.
pub struct TextureSamplerBuilder {
    pub name: Option<String>,
    pub descriptor: SamplerDescriptor,
}

impl TextureSamplerBuilder {
    /// A builder that starts from [`SamplerDescriptor::initial`].
    pub fn new(name: Option<&str>) -> (builder: TextureSamplerBuilder)
        ensures
            label_view(builder.name) == text_view(name),
            builder.descriptor == SamplerDescriptor::initial(),
    {
        TextureSamplerBuilder {
            name: owned_label(name),
            descriptor: SamplerDescriptor {
                address_mode_u: AddressMode::ClampToEdge,
                address_mode_v: AddressMode::ClampToEdge,
                address_mode_w: AddressMode::ClampToEdge,
                mag_filter: FilterMode::Nearest,
                min_filter: FilterMode::Nearest,
                mipmap_filter: FilterMode::Nearest,
                lod_min_clamp: 0,
                lod_max_clamp: LOD_UNCLAMPED,
                compare: None,
                anisotropy_clamp: None,
                border_color: None,
            },
        }
    }

    pub fn address_mode_u(self, address_mode: AddressMode) -> (builder: TextureSamplerBuilder)
        ensures
            builder == (TextureSamplerBuilder {
                descriptor: SamplerDescriptor { address_mode_u: address_mode, ..self.descriptor },
                ..self
            }),
    {
        let mut builder = self;
        builder.descriptor.address_mode_u = address_mode;
        builder
    }

    pub fn address_mode_v(self, address_mode: AddressMode) -> (builder: TextureSamplerBuilder)
        ensures
            builder == (TextureSamplerBuilder {
                descriptor: SamplerDescriptor { address_mode_v: address_mode, ..self.descriptor },
                ..self
            }),
    {
        let mut builder = self;
        builder.descriptor.address_mode_v = address_mode;
        builder
    }

    pub fn address_mode_w(self, address_mode: AddressMode) -> (builder: TextureSamplerBuilder)
        ensures
            builder == (TextureSamplerBuilder {
                descriptor: SamplerDescriptor { address_mode_w: address_mode, ..self.descriptor },
                ..self
            }),
    {
        let mut builder = self;
        builder.descriptor.address_mode_w = address_mode;
        builder
    }

    pub fn mag_filter(self, filter_mode: FilterMode) -> (builder: TextureSamplerBuilder)
        ensures
            builder == (TextureSamplerBuilder {
                descriptor: SamplerDescriptor { mag_filter: filter_mode, ..self.descriptor },
                ..self
            }),
    {
        let mut builder = self;
        builder.descriptor.mag_filter = filter_mode;
        builder
    }

    pub fn min_filter(self, filter_mode: FilterMode) -> (builder: TextureSamplerBuilder)
        ensures
            builder == (TextureSamplerBuilder {
                descriptor: SamplerDescriptor { min_filter: filter_mode, ..self.descriptor },
                ..self
            }),
    {
        let mut builder = self;
        builder.descriptor.min_filter = filter_mode;
        builder
    }

    pub fn mipmap_filter(self, filter_mode: FilterMode) -> (builder: TextureSamplerBuilder)
        ensures
            builder == (TextureSamplerBuilder {
                descriptor: SamplerDescriptor { mipmap_filter: filter_mode, ..self.descriptor },
                ..self
            }),
    {
        let mut builder = self;
        builder.descriptor.mipmap_filter = filter_mode;
        builder
    }

    /// Sets the lowest level of detail, a single-precision value given as its
    /// bit pattern.
    pub fn lod_min_clamp(self, min_lod: u32) -> (builder: TextureSamplerBuilder)
        ensures
            builder == (TextureSamplerBuilder {
                descriptor: SamplerDescriptor { lod_min_clamp: min_lod, ..self.descriptor },
                ..self
            }),
    {
        let mut builder = self;
        builder.descriptor.lod_min_clamp = min_lod;
        builder
    }

    /// Sets the highest level of detail, a single-precision value given as
    /// its bit pattern.
    pub fn lod_max_clamp(self, max_lod: u32) -> (builder: TextureSamplerBuilder)
        ensures
            builder == (TextureSamplerBuilder {
                descriptor: SamplerDescriptor { lod_max_clamp: max_lod, ..self.descriptor },
                ..self
            }),
    {
        let mut builder = self;
        builder.descriptor.lod_max_clamp = max_lod;
        builder
    }

    pub fn compare(self, func: CompareFunction) -> (builder: TextureSamplerBuilder)
        ensures
            builder == (TextureSamplerBuilder {
                descriptor: SamplerDescriptor { compare: Some(func), ..self.descriptor },
                ..self
            }),
    {
        let mut builder = self;
        builder.descriptor.compare = Some(func);
        builder
    }

    /// Sets the anisotropy clamp. Zero switches anisotropic filtering off.
    pub fn anisotropy_clamp(self, val: u8) -> (builder: TextureSamplerBuilder)
        ensures
            builder == (TextureSamplerBuilder {
                descriptor: SamplerDescriptor { anisotropy_clamp: anisotropy(val), ..self.descriptor },
                ..self
            }),
    {
        let mut builder = self;
        builder.descriptor.anisotropy_clamp = if val == 0 {
            None
        } else {
            Some(val)
        };
        builder
    }

    pub fn border_color(self, color: SamplerBorderColor) -> (builder: TextureSamplerBuilder)
        ensures
            builder == (TextureSamplerBuilder {
                descriptor: SamplerDescriptor { border_color: Some(color), ..self.descriptor },
                ..self
            }),
    {
        let mut builder = self;
        builder.descriptor.border_color = Some(color);
        builder
    }

    /// Registers the sampler.
    pub fn build(self, manager: &mut RenderManager) -> (handle: TextureSampleHandle)
        requires
            old(manager).wf(),
        ensures
            final(manager).wf(),
            handle@ == old(manager)@.samplers.len(),
            final(manager)@ == (ManagerView {
                samplers: old(manager)@.samplers.push(
                    SamplerView { name: label_view(self.name), descriptor: self.descriptor },
                ),
                ..old(manager)@
            }),
    {
        manager.add_sampler(TextureSampler::new(self.name, self.descriptor))
    }
}

/// What each of `samplers` is, as plain values.
pub open spec fn sampler_views(samplers: Seq<TextureSampler>) -> Seq<SamplerView> {
    Seq::new(samplers.len(), |i: int| samplers[i]@)
}

} // verus!
