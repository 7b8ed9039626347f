//! Textures: image memory on the device, sized either by fixed extents or by
//! the presentation surface.

use crate::buffer::{ElementType, next_generation};
use crate::error::{BuildError, WriteError};
use crate::frame::count;
use crate::handle::Handle;
use crate::label::{borrowed_label, label_view, owned_label, text_view};
use crate::manager::RenderManager;
use crate::state::ManagerView;
use vstd::prelude::*;

verus! {

pub type TextureHandle = Handle<Texture>;

/// The handle that stands for the presentation target in an attachment list.
pub fn framebuffer() -> (handle: TextureHandle)
    ensures
        handle@ == 0,
        handle == TextureHandle::at(0),
{
    Handle::new(0)
}

/// The size of the presentation surface.
#[derive(Clone, Copy, Debug, PartialEq, Eq, Structural)]
pub struct SurfaceConfiguration {
    pub width: u32,
    pub height: u32,
}

#[derive(Clone, Copy, Debug, PartialEq, Eq, Structural)]
pub enum TextureDimension {
    D1,
    D2,
    D3,
}

#[derive(Clone, Copy, Debug, PartialEq, Eq, Structural)]
pub struct Extent3d {
    pub width: u32,
    pub height: u32,
    pub depth_or_array_layers: u32,
}

/// A fraction of the surface size: `numerator / denominator`.
#[derive(Clone, Copy, Debug, PartialEq, Eq, Structural)]
pub struct Scale {
    pub numerator: u32,
    pub denominator: u32,
}

/// `length` scaled by `scale` and rounded down, at most `u32::MAX`. A scale
/// without a denominator scales to nothing.
pub open spec fn scaled(length: u32, scale: Scale) -> u32 {
    if scale.denominator == 0 {
        0
    } else if length * scale.numerator / (scale.denominator as int) > u32::MAX {
        u32::MAX
    } else {
        (length * scale.numerator / (scale.denominator as int)) as u32
    }
}

impl Scale {
    /// `length` scaled by this fraction.
    pub fn apply(&self, length: u32) -> (result: u32)
        ensures
            result == scaled(length, *self),
    {
        if self.denominator == 0 {
            0
        } else {
            assert(length * self.numerator <= u32::MAX * u32::MAX) by (nonlinear_arith)
                requires
                    length <= u32::MAX,
                    self.numerator <= u32::MAX,
            ;
            let product: u64 = (length as u64) * (self.numerator as u64);
            let quotient: u64 = product / (self.denominator as u64);
            if quotient > u32::MAX as u64 {
                u32::MAX
            } else {
                quotient as u32
            }
        }
    }
}

/// How the extents of a texture are decided.
#[derive(Clone, Copy, Debug, PartialEq, Eq, Structural)]
pub enum TextureSize {
    D1(u32),
    D2(u32, u32),
    D3(u32, u32, u32),
    /// As large as the presentation surface.
    Surface,
    /// The presentation surface, scaled in width and in height.
    ScaledSurface(Scale, Scale),
}

/// `n`, unless it is zero.
pub open spec fn non_zero(n: u32) -> Option<u32> {
    if n == 0 {
        None
    } else {
        Some(n)
    }
}

impl TextureSize {
    /// Whether the size follows the presentation surface.
    pub open spec fn surface_relative(self) -> bool {
        self is Surface || self is ScaledSurface
    }

    pub open spec fn size(self, config: SurfaceConfiguration) -> Extent3d {
        match self {
            TextureSize::D1(x) => Extent3d { width: x, height: 1, depth_or_array_layers: 1 },
            TextureSize::D2(x, y) => Extent3d { width: x, height: y, depth_or_array_layers: 1 },
            TextureSize::D3(x, y, z) => Extent3d { width: x, height: y, depth_or_array_layers: z },
            TextureSize::Surface => Extent3d {
                width: config.width,
                height: config.height,
                depth_or_array_layers: 1,
            },
            TextureSize::ScaledSurface(x_scale, y_scale) => Extent3d {
                width: scaled(config.width, x_scale),
                height: scaled(config.height, y_scale),
                depth_or_array_layers: 1,
            },
        }
    }

    pub open spec fn dimension(self) -> TextureDimension {
        match self {
            TextureSize::D1(_) => TextureDimension::D1,
            TextureSize::D2(_, _) | TextureSize::Surface | TextureSize::ScaledSurface(_, _) => TextureDimension::D2,
            TextureSize::D3(_, _, _) => TextureDimension::D3,
        }
    }

    /// Bytes in one row of texels of `bytes` bytes each. One-dimensional
    /// textures have no rows.
    pub open spec fn row_bytes(self, bytes: u32, config: SurfaceConfiguration) -> int {
        match self {
            TextureSize::D1(_) => 0,
            TextureSize::D2(x, _) => x * bytes,
            TextureSize::D3(x, _, _) => x * bytes,
            TextureSize::Surface => bytes * config.width,
            TextureSize::ScaledSurface(x_scale, _) => bytes * scaled(config.width, x_scale),
        }
    }

    pub open spec fn rows_per_image(self) -> Option<u32> {
        match self {
            TextureSize::D3(_, y, _) => non_zero(y),
            _ => None,
        }
    }

    /// Whether a texture of this size may be resized to `target`: both are
    /// fixed extents of the same dimensionality.
    pub open spec fn resizable_to(self, target: TextureSize) -> bool {
        ||| self is D1 && target is D1
        ||| self is D2 && target is D2
        ||| self is D3 && target is D3
    }

    /// The extents of a texture of this size under `config`.
    pub fn get_size(&self, config: &SurfaceConfiguration) -> (extent: Extent3d)
        ensures
            extent == self.size(*config),
    {
        match self {
            TextureSize::D1(x) => Extent3d { width: *x, height: 1, depth_or_array_layers: 1 },
            TextureSize::D2(x, y) => Extent3d { width: *x, height: *y, depth_or_array_layers: 1 },
            TextureSize::D3(x, y, z) => Extent3d { width: *x, height: *y, depth_or_array_layers: *z },
            TextureSize::Surface => Extent3d {
                width: config.width,
                height: config.height,
                depth_or_array_layers: 1,
            },
            TextureSize::ScaledSurface(x_scale, y_scale) => Extent3d {
                width: x_scale.apply(config.width),
                height: y_scale.apply(config.height),
                depth_or_array_layers: 1,
            },
        }
    }

    pub fn get_dimension(&self) -> (dimension: TextureDimension)
        ensures
            dimension == self.dimension(),
    {
        match self {
            TextureSize::D1(_) => TextureDimension::D1,
            TextureSize::D2(_, _) => TextureDimension::D2,
            TextureSize::Surface => TextureDimension::D2,
            TextureSize::ScaledSurface(_, _) => TextureDimension::D2,
            TextureSize::D3(_, _, _) => TextureDimension::D3,
        }
    }

    /// Bytes in one row of texels of `bytes` bytes each: `None` where there
    /// are no rows or no bytes, an error where the count cannot be described.
    pub fn get_bytes_per_row(&self, bytes: u32, config: &SurfaceConfiguration) -> (row: Result<
        Option<u32>,
        WriteError,
    >)
        ensures
            self.row_bytes(bytes, *config) > u32::MAX ==> row == Err::<Option<u32>, WriteError>(
                WriteError::RowTooLong,
            ),
            self.row_bytes(bytes, *config) <= u32::MAX ==> row == Ok::<Option<u32>, WriteError>(
                non_zero(self.row_bytes(bytes, *config) as u32),
            ),
    {
        let width: u32 = match self {
            TextureSize::D1(_) => {
                return Ok(None);
            },
            TextureSize::D2(x, _) => *x,
            TextureSize::D3(x, _, _) => *x,
            TextureSize::Surface => config.width,
            TextureSize::ScaledSurface(x_scale, _) => x_scale.apply(config.width),
        };
        assert(width * bytes <= u32::MAX * u32::MAX) by (nonlinear_arith)
            requires
                width <= u32::MAX,
                bytes <= u32::MAX,
        ;
        assert(width * bytes == bytes * width) by (nonlinear_arith);
        let product: u64 = (width as u64) * (bytes as u64);
        if product > u32::MAX as u64 {
            Err(WriteError::RowTooLong)
        } else if product == 0 {
            Ok(None)
        } else {
            Ok(Some(product as u32))
        }
    }

    /// Rows in one image of a three-dimensional texture.
    pub fn get_rows_per_image(&self) -> (rows: Option<u32>)
        ensures
            rows == self.rows_per_image(),
    {
        match self {
            TextureSize::D3(_, y, _) => if *y == 0 {
                None
            } else {
                Some(*y)
            },
            _ => None,
        }
    }
}

/// The pixel formats a texture can be declared with.
#[derive(Clone, Copy, Debug, PartialEq, Eq, Structural)]
pub enum TextureFormat {
    R8Unorm,
    R8Snorm,
    R8Uint,
    R8Sint,
    R16Uint,
    R16Sint,
    R16Unorm,
    R16Snorm,
    Rg8Unorm,
    Rg8Snorm,
    Rg8Uint,
    Rg8Sint,
    R32Uint,
    R32Sint,
    R32Float,
    Rg16Uint,
    Rg16Sint,
    Rg16Unorm,
    Rg16Snorm,
    Rgba8Unorm,
    Rgba8UnormSrgb,
    Rgba8Snorm,
    Rgba8Uint,
    Rgba8Sint,
    Bgra8Unorm,
    Bgra8UnormSrgb,
    Rg32Uint,
    Rg32Sint,
    Rgba16Uint,
    Rgba16Sint,
    Rgba16Unorm,
    Rgba16Snorm,
    Rgba32Uint,
    Rgba32Sint,
    Rgba32Float,
    Stencil8,
    Depth16Unorm,
    Depth32Float,
}

/// What a texture may be used for.
#[derive(Clone, Copy, Debug, PartialEq, Eq, Structural)]
pub struct TextureUsages {
    pub copy_src: bool,
    pub copy_dst: bool,
    pub texture_binding: bool,
    pub storage_binding: bool,
    pub render_attachment: bool,
}

/// How the bytes handed to a texture write are laid out, and the region they
/// fill.
#[derive(Clone, Copy, Debug, PartialEq, Eq, Structural)]
pub struct ImageDataLayout {
    pub bytes_per_row: Option<u32>,
    pub rows_per_image: Option<u32>,
    pub extent: Extent3d,
}

/// What a [`Texture`] is, as plain values.
pub struct TextureView {
    pub name: Option<Seq<char>>,
    pub size: TextureSize,
    /// The extents of the current allocation.
    pub extent: Extent3d,
    pub format: TextureFormat,
    pub mip_level_count: u32,
    pub sample_count: u32,
    pub usage: TextureUsages,
    /// The texel type the texture was declared with.
    pub data_type: ElementType,
    /// Which allocation backs the texture. It changes with every reallocation.
    pub generation: u64,
}

impl TextureView {
    /// The texture on a new allocation sized by `size` under `config`.
    pub open spec fn recreated(self, size: TextureSize, config: SurfaceConfiguration) -> TextureView {
        TextureView {
            size,
            extent: size.size(config),
            generation: next_generation(self.generation),
            ..self
        }
    }

    /// The texture on a new allocation of the fixed extents `size`. The
    /// surface plays no part in fixed extents.
    pub open spec fn resized(self, size: TextureSize) -> TextureView {
        self.recreated(size, SurfaceConfiguration { width: 0, height: 0 })
    }

    /// The texture after the surface changed to `config`: textures that follow
    /// the surface move to a new allocation, the others stay.
    pub open spec fn surface_resized(self, config: SurfaceConfiguration) -> TextureView {
        if self.size.surface_relative() {
            self.recreated(self.size, config)
        } else {
            self
        }
    }

    /// How a write of texels of `self.data_type` is laid out under `config`.
    pub open spec fn write_layout(self, config: SurfaceConfiguration) -> ImageDataLayout {
        ImageDataLayout {
            bytes_per_row: non_zero(self.size.row_bytes(self.data_type.size as u32, config) as u32),
            rows_per_image: self.size.rows_per_image(),
            extent: self.size.size(config),
        }
    }
}

/// What each of `textures` is, as plain values.
pub open spec fn texture_views(textures: Seq<Texture>) -> Seq<TextureView> {
    Seq::new(textures.len(), |i: int| textures[i]@)
}

pub struct Texture {
    name: Option<String>,
    size: TextureSize,
    extent: Extent3d,
    format: TextureFormat,
    mip_level_count: u32,
    sample_count: u32,
    usage: TextureUsages,
    data_type: ElementType,
    generation: u64,
}

impl View for Texture {
    type V = TextureView;

    closed spec fn view(&self) -> TextureView {
        TextureView {
            name: label_view(self.name),
            size: self.size,
            extent: self.extent,
            format: self.format,
            mip_level_count: self.mip_level_count,
            sample_count: self.sample_count,
            usage: self.usage,
            data_type: self.data_type,
            generation: self.generation,
        }
    }
}

impl Texture {
    pub(crate) fn new(
        label: Option<String>,
        size: TextureSize,
        config: &SurfaceConfiguration,
        format: TextureFormat,
        mip_level_count: u32,
        sample_count: u32,
        usage: TextureUsages,
        data_type: ElementType,
    ) -> (texture: Texture)
        ensures
            texture@ == (TextureView {
                name: label_view(label),
                size,
                extent: size.size(*config),
                format,
                mip_level_count,
                sample_count,
                usage,
                data_type,
                generation: 0,
            }),
    {
        Texture {
            name: label,
            size,
            extent: size.get_size(config),
            format,
            mip_level_count,
            sample_count,
            usage,
            data_type,
            generation: 0,
        }
    }

    /// Follows a change of the presentation surface. Returns whether the
    /// texture moved to a new allocation.
    pub(crate) fn on_resize(&mut self, config: &SurfaceConfiguration) -> (changed: bool)
        ensures
            changed == old(self)@.size.surface_relative(),
            final(self)@ == old(self)@.surface_resized(*config),
    {
        match self.size {
            TextureSize::Surface => {
                self.recreate(self.size, config);
                true
            },
            TextureSize::ScaledSurface(_, _) => {
                self.recreate(self.size, config);
                true
            },
            _ => false,
        }
    }

    /// Gives a one-dimensional texture a new width, on a new allocation.
    pub fn resize_1d(&mut self, width: u32) -> (outcome: Result<(), WriteError>)
        ensures
            old(self)@.size is D1 ==> outcome.is_ok() && final(self)@ == old(self)@.resized(TextureSize::D1(width)),
            !(old(self)@.size is D1) ==> outcome == Err::<(), WriteError>(WriteError::DimensionMismatch)
                && final(self)@ == old(self)@,
    {
        self.resize(TextureSize::D1(width))
    }

    /// Gives a two-dimensional texture of fixed size new extents, on a new
    /// allocation.
    pub fn resize_2d(&mut self, width: u32, height: u32) -> (outcome: Result<(), WriteError>)
        ensures
            old(self)@.size is D2 ==> outcome.is_ok() && final(self)@ == old(self)@.resized(TextureSize::D2(width, height)),
            !(old(self)@.size is D2) ==> outcome == Err::<(), WriteError>(WriteError::DimensionMismatch)
                && final(self)@ == old(self)@,
    {
        self.resize(TextureSize::D2(width, height))
    }

    /// Gives a three-dimensional texture new extents, on a new allocation.
    pub fn resize_3d(&mut self, width: u32, height: u32, depth_or_array_len: u32) -> (outcome: Result<
        (),
        WriteError,
    >)
        ensures
            old(self)@.size is D3 ==> outcome.is_ok() && final(self)@ == old(self)@.resized(TextureSize::D3(width, height, depth_or_array_len)),
            !(old(self)@.size is D3) ==> outcome == Err::<(), WriteError>(WriteError::DimensionMismatch)
                && final(self)@ == old(self)@,
    {
        self.resize(TextureSize::D3(width, height, depth_or_array_len))
    }

    /// Checks a write of texels of type `element` and says how its bytes are
    /// laid out. The surface size matters for textures that follow it.
    pub fn write_data(&self, element: ElementType, config: &SurfaceConfiguration) -> (outcome: Result<
        ImageDataLayout,
        WriteError,
    >)
        ensures
            element != self@.data_type ==> outcome == Err::<ImageDataLayout, WriteError>(
                WriteError::TypeMismatch,
            ),
            element == self@.data_type && (element.size > u32::MAX || self@.size.row_bytes(
                element.size as u32,
                *config,
            ) > u32::MAX) ==> outcome == Err::<ImageDataLayout, WriteError>(WriteError::RowTooLong),
            element == self@.data_type && element.size <= u32::MAX && self@.size.row_bytes(
                element.size as u32,
                *config,
            ) <= u32::MAX ==> outcome == Ok::<ImageDataLayout, WriteError>(self@.write_layout(*config)),
    {
        if element.id != self.data_type.id || element.size != self.data_type.size {
            return Err(WriteError::TypeMismatch);
        }
        if element.size > u32::MAX as u64 {
            return Err(WriteError::RowTooLong);
        }
        match self.size.get_bytes_per_row(element.size as u32, config) {
            Err(e) => Err(e),
            Ok(bytes_per_row) => Ok(
                ImageDataLayout {
                    bytes_per_row,
                    rows_per_image: self.size.get_rows_per_image(),
                    extent: self.size.get_size(config),
                },
            ),
        }
    }

    fn resize(&mut self, size: TextureSize) -> (outcome: Result<(), WriteError>)
        requires
            !size.surface_relative(),
        ensures
            old(self)@.size.resizable_to(size) ==> outcome.is_ok() && final(self)@ == old(self)@.resized(size),
            !old(self)@.size.resizable_to(size) ==> outcome == Err::<(), WriteError>(
                WriteError::DimensionMismatch,
            ) && final(self)@ == old(self)@,
    {
        let fixed = SurfaceConfiguration { width: 0, height: 0 };
        match (self.size, size) {
            (TextureSize::D1(_), TextureSize::D1(_)) => {
                self.recreate(size, &fixed);
                Ok(())
            },
            (TextureSize::D2(_, _), TextureSize::D2(_, _)) => {
                self.recreate(size, &fixed);
                Ok(())
            },
            (TextureSize::D3(_, _, _), TextureSize::D3(_, _, _)) => {
                self.recreate(size, &fixed);
                Ok(())
            },
            _ => Err(WriteError::DimensionMismatch),
        }
    }

    fn recreate(&mut self, size: TextureSize, config: &SurfaceConfiguration)
        ensures
            final(self)@ == old(self)@.recreated(size, *config),
    {
        self.size = size;
        self.extent = size.get_size(config);
        self.generation = if self.generation == u64::MAX {
            0
        } else {
            self.generation + 1
        };
    }

    pub fn name(&self) -> (name: Option<&str>)
        ensures
            text_view(name) == self@.name,
    {
        borrowed_label(&self.name)
    }

    pub fn size(&self) -> (size: TextureSize)
        ensures
            size == self@.size,
    {
        self.size
    }

    /// The extents of the current allocation.
    pub fn extent(&self) -> (extent: Extent3d)
        ensures
            extent == self@.extent,
    {
        self.extent
    }

    pub fn format(&self) -> (format: TextureFormat)
        ensures
            format == self@.format,
    {
        self.format
    }

    pub fn mip_level_count(&self) -> (count: u32)
        ensures
            count == self@.mip_level_count,
    {
        self.mip_level_count
    }

    pub fn sample_count(&self) -> (count: u32)
        ensures
            count == self@.sample_count,
    {
        self.sample_count
    }

    pub fn usage(&self) -> (usage: TextureUsages)
        ensures
            usage == self@.usage,
    {
        self.usage
    }

    /// The texel type the texture was declared with.
    pub fn data_type(&self) -> (data_type: ElementType)
        ensures
            data_type == self@.data_type,
    {
        self.data_type
    }

    /// Which allocation backs the texture.
    pub fn generation(&self) -> (generation: u64)
        ensures
            generation == self@.generation,
    {
        self.generation
    }
}

impl TextureUsages {
    pub open spec fn none() -> TextureUsages {
        TextureUsages {
            copy_src: false,
            copy_dst: false,
            texture_binding: false,
            storage_binding: false,
            render_attachment: false,
        }
    }

    /// No usage at all.
    pub fn empty() -> (usages: TextureUsages)
        ensures
            usages == TextureUsages::none(),
    {
        TextureUsages {
            copy_src: false,
            copy_dst: false,
            texture_binding: false,
            storage_binding: false,
            render_attachment: false,
        }
    }
}

/// Collects the configuration of a texture, and registers the texture.
pub struct TextureBuilder {
    pub label: Option<String>,
    pub size: Option<TextureSize>,
    pub mip_level_count: u32,
    pub sample_count: u32,
    pub usage: TextureUsages,
    pub format: TextureFormat,
    pub data_type: ElementType,
}

impl TextureBuilder {
    /// A builder for a texture of `format` whose texels are written as
    /// elements of type `data_type`: one mip level, one sample, no usage and
    /// no size yet.
    pub fn new(label: Option<&str>, format: TextureFormat, data_type: ElementType) -> (builder: TextureBuilder)
        ensures
            label_view(builder.label) == text_view(label),
            builder.size is None,
            builder.mip_level_count == 1,
            builder.sample_count == 1,
            builder.usage == TextureUsages::none(),
            builder.format == format,
            builder.data_type == data_type,
    {
        TextureBuilder {
            label: owned_label(label),
            size: None,
            mip_level_count: 1,
            sample_count: 1,
            usage: TextureUsages::empty(),
            format,
            data_type,
        }
    }

    pub fn size_1d(self, width: u32) -> (builder: TextureBuilder)
        ensures
            builder == (TextureBuilder { size: Some(TextureSize::D1(width)), ..self }),
    {
        let mut builder = self;
        builder.size = Some(TextureSize::D1(width));
        builder
    }

    pub fn size_2d(self, width: u32, height: u32) -> (builder: TextureBuilder)
        ensures
            builder == (TextureBuilder { size: Some(TextureSize::D2(width, height)), ..self }),
    {
        let mut builder = self;
        builder.size = Some(TextureSize::D2(width, height));
        builder
    }

    pub fn size_3d(self, width: u32, height: u32, depth_or_array_len: u32) -> (builder: TextureBuilder)
        ensures
            builder == (TextureBuilder {
                size: Some(TextureSize::D3(width, height, depth_or_array_len)),
                ..self
            }),
    {
        let mut builder = self;
        builder.size = Some(TextureSize::D3(width, height, depth_or_array_len));
        builder
    }

    /// Lets the texture be as large as the presentation surface, whatever
    /// size the surface takes.
    pub fn size_framebuffer(self) -> (builder: TextureBuilder)
        ensures
            builder == (TextureBuilder { size: Some(TextureSize::Surface), ..self }),
    {
        let mut builder = self;
        builder.size = Some(TextureSize::Surface);
        builder
    }

    /// Lets the texture follow the presentation surface, scaled in width and
    /// in height.
    pub fn size_scaled_framebuffer(self, width_scale: Scale, height_scale: Scale) -> (builder: TextureBuilder)
        ensures
            builder == (TextureBuilder {
                size: Some(TextureSize::ScaledSurface(width_scale, height_scale)),
                ..self
            }),
    {
        let mut builder = self;
        builder.size = Some(TextureSize::ScaledSurface(width_scale, height_scale));
        builder
    }

    pub fn copy_src(self) -> (builder: TextureBuilder)
        ensures
            builder == (TextureBuilder { usage: TextureUsages { copy_src: true, ..self.usage }, ..self }),
    {
        let mut builder = self;
        builder.usage.copy_src = true;
        builder
    }

    pub fn copy_dst(self) -> (builder: TextureBuilder)
        ensures
            builder == (TextureBuilder { usage: TextureUsages { copy_dst: true, ..self.usage }, ..self }),
    {
        let mut builder = self;
        builder.usage.copy_dst = true;
        builder
    }

    /// Lets shaders sample the texture.
    pub fn texture(self) -> (builder: TextureBuilder)
        ensures
            builder == (TextureBuilder { usage: TextureUsages { texture_binding: true, ..self.usage }, ..self }),
    {
        let mut builder = self;
        builder.usage.texture_binding = true;
        builder
    }

    /// Lets shaders read and write the texture as storage.
    pub fn storage(self) -> (builder: TextureBuilder)
        ensures
            builder == (TextureBuilder { usage: TextureUsages { storage_binding: true, ..self.usage }, ..self }),
    {
        let mut builder = self;
        builder.usage.storage_binding = true;
        builder
    }

    /// Lets render passes draw into the texture.
    pub fn render_attachment(self) -> (builder: TextureBuilder)
        ensures
            builder == (TextureBuilder {
                usage: TextureUsages { render_attachment: true, ..self.usage },
                ..self
            }),
    {
        let mut builder = self;
        builder.usage.render_attachment = true;
        builder
    }

    /// The texture this configuration describes, sized by `size` under
    /// `config`.
    pub open spec fn built(self, size: TextureSize, config: SurfaceConfiguration) -> TextureView {
        TextureView {
            name: label_view(self.label),
            size,
            extent: size.size(config),
            format: self.format,
            mip_level_count: self.mip_level_count,
            sample_count: self.sample_count,
            usage: self.usage,
            data_type: self.data_type,
            generation: 0,
        }
    }

    /// Registers the texture. A builder that was never given a size is
    /// refused.
    pub fn build(self, manager: &mut RenderManager) -> (outcome: Result<TextureHandle, BuildError>)
        requires
            old(manager).wf(),
        ensures
            final(manager).wf(),
            self.size is None ==> outcome == Err::<TextureHandle, BuildError>(BuildError::MissingSize)
                && final(manager)@ == old(manager)@,
            self.size matches Some(size) ==> outcome is Ok && outcome->Ok_0@ == old(manager)@.textures.len()
                && final(manager)@ == (ManagerView {
                textures: old(manager)@.textures.push(self.built(size, old(manager)@.config)),
                ..old(manager)@
            }),
    {
        let size = match self.size {
            Some(size) => size,
            None => {
                return Err(BuildError::MissingSize);
            },
        };
        let config = manager.config();
        let texture = Texture::new(
            self.label,
            size,
            &config,
            self.format,
            self.mip_level_count,
            self.sample_count,
            self.usage,
            self.data_type,
        );
        Ok(manager.add_texture(texture))
    }
}

} // verus!
