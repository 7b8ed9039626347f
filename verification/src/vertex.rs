//! Vertex layouts: how the bytes of a vertex or instance buffer are cut into
//! shader inputs.
//!
//! A layout is resolved metadata. Whoever declares a vertex type supplies the
//! stride and the attribute list; the library stores them with the buffer and
//! hands them to every pipeline the buffer is attached to.

use crate::error::BuildError;
use vstd::prelude::*;

verus! {

/// The wire format of one vertex attribute.
#[derive(Clone, Copy, Debug, PartialEq, Eq, Structural)]
pub enum VertexFormat {
    Uint8x2,
    Uint8x4,
    Sint8x2,
    Sint8x4,
    Unorm8x2,
    Unorm8x4,
    Snorm8x2,
    Snorm8x4,
    Uint16x2,
    Uint16x4,
    Sint16x2,
    Sint16x4,
    Unorm16x2,
    Unorm16x4,
    Snorm16x2,
    Snorm16x4,
    Float32,
    Float32x2,
    Float32x3,
    Float32x4,
    Uint32,
    Uint32x2,
    Uint32x3,
    Uint32x4,
    Sint32,
    Sint32x2,
    Sint32x3,
    Sint32x4,
    Float64,
    Float64x2,
    Float64x3,
    Float64x4,
}

/// How often the data handed to the shader advances.
#[derive(Clone, Copy, Debug, PartialEq, Eq, Structural)]
pub enum VertexStepMode {
    /// Once per vertex.
    Vertex,
    /// Once per instance.
    Instance,
}

/// One shader input inside a vertex.
#[derive(Clone, Copy, Debug, PartialEq, Eq, Structural)]
pub struct VertexAttribute {
    pub format: VertexFormat,
    /// Byte offset of the attribute from the start of the vertex.
    pub offset: u64,
    pub shader_location: u32,
}

/// The layout of a vertex or instance buffer.
#[derive(Debug)]
pub struct VertexBufferLayout {
    /// Bytes from the start of one element to the start of the next.
    pub array_stride: u64,
    pub step_mode: VertexStepMode,
    pub attributes: Vec<VertexAttribute>,
}

/// What a [`VertexBufferLayout`] says, as plain values.
pub struct VertexLayoutView {
    pub array_stride: u64,
    pub step_mode: VertexStepMode,
    pub attributes: Seq<VertexAttribute>,
}

impl View for VertexBufferLayout {
    type V = VertexLayoutView;

    open spec fn view(&self) -> VertexLayoutView {
        VertexLayoutView {
            array_stride: self.array_stride,
            step_mode: self.step_mode,
            attributes: self.attributes@,
        }
    }
}

/// The layout of a buffer whose elements are `array_stride` bytes apart and
/// hold `attributes`.
pub fn vertex_format(
    array_stride: u64,
    step_mode: VertexStepMode,
    attributes: Vec<VertexAttribute>,
) -> (layout: VertexBufferLayout)
    ensures
        layout@ == (VertexLayoutView { array_stride, step_mode, attributes: attributes@ }),
{
    VertexBufferLayout { array_stride, step_mode, attributes }
}

impl Clone for VertexBufferLayout {
    fn clone(&self) -> (copy: VertexBufferLayout)
        ensures
            copy@ == self@,
    {
        let mut attributes: Vec<VertexAttribute> = Vec::new();
        let mut i: usize = 0;
        while i < self.attributes.len()
            invariant
                i <= self.attributes.len(),
                attributes@ == self.attributes@.take(i as int),
            decreases self.attributes.len() - i,
        {
            attributes.push(self.attributes[i]);
            i += 1;
        }
        assert(attributes@ =~= self.attributes@);
        VertexBufferLayout { array_stride: self.array_stride, step_mode: self.step_mode, attributes }
    }
}

/// The number of bytes an attribute of `format` takes.
pub open spec fn format_size(format: VertexFormat) -> u64 {
    match format {
        VertexFormat::Uint8x2 | VertexFormat::Sint8x2 | VertexFormat::Unorm8x2 | VertexFormat::Snorm8x2 => 2,
        VertexFormat::Uint8x4 | VertexFormat::Sint8x4 | VertexFormat::Unorm8x4 | VertexFormat::Snorm8x4 => 4,
        VertexFormat::Uint16x2 | VertexFormat::Sint16x2 | VertexFormat::Unorm16x2 | VertexFormat::Snorm16x2 => 4,
        VertexFormat::Float32 | VertexFormat::Uint32 | VertexFormat::Sint32 => 4,
        VertexFormat::Uint16x4 | VertexFormat::Sint16x4 | VertexFormat::Unorm16x4 | VertexFormat::Snorm16x4 => 8,
        VertexFormat::Float32x2 | VertexFormat::Uint32x2 | VertexFormat::Sint32x2 | VertexFormat::Float64 => 8,
        VertexFormat::Float32x3 | VertexFormat::Uint32x3 | VertexFormat::Sint32x3 => 12,
        VertexFormat::Float32x4 | VertexFormat::Uint32x4 | VertexFormat::Sint32x4 | VertexFormat::Float64x2 => 16,
        VertexFormat::Float64x3 => 24,
        VertexFormat::Float64x4 => 32,
    }
}

impl VertexFormat {
    /// The number of bytes an attribute of this format takes.
    pub fn size(&self) -> (size: u64)
        ensures
            size == format_size(*self),
    {
        match self {
            VertexFormat::Uint8x2 | VertexFormat::Sint8x2 | VertexFormat::Unorm8x2 | VertexFormat::Snorm8x2 => 2,
            VertexFormat::Uint8x4 | VertexFormat::Sint8x4 | VertexFormat::Unorm8x4 | VertexFormat::Snorm8x4 => 4,
            VertexFormat::Uint16x2 | VertexFormat::Sint16x2 | VertexFormat::Unorm16x2 | VertexFormat::Snorm16x2 => 4,
            VertexFormat::Float32 | VertexFormat::Uint32 | VertexFormat::Sint32 => 4,
            VertexFormat::Uint16x4 | VertexFormat::Sint16x4 | VertexFormat::Unorm16x4 | VertexFormat::Snorm16x4 => 8,
            VertexFormat::Float32x2 | VertexFormat::Uint32x2 | VertexFormat::Sint32x2 | VertexFormat::Float64 => 8,
            VertexFormat::Float32x3 | VertexFormat::Uint32x3 | VertexFormat::Sint32x3 => 12,
            VertexFormat::Float32x4 | VertexFormat::Uint32x4 | VertexFormat::Sint32x4 | VertexFormat::Float64x2 => 16,
            VertexFormat::Float64x3 => 24,
            VertexFormat::Float64x4 => 32,
        }
    }
}

/// One field of a vertex type: its wire format, and the shader location it
/// was given, if it was given one.
#[derive(Clone, Copy, Debug, PartialEq, Eq, Structural)]
pub struct VertexField {
    pub format: VertexFormat,
    pub location: Option<u32>,
}

/// The byte offset of field `i` in a vertex whose fields follow each other
/// without gaps: the sizes of the fields before it, added up.
pub open spec fn offset_of(fields: Seq<VertexField>, i: int) -> int
    decreases i,
{
    if i <= 0 {
        0
    } else {
        offset_of(fields, i - 1) + format_size(fields[i - 1].format)
    }
}

/// How many of the fields before field `i` were given no shader location.
pub open spec fn unplaced_before(fields: Seq<VertexField>, i: int) -> int
    decreases i,
{
    if i <= 0 {
        0
    } else {
        unplaced_before(fields, i - 1) + if fields[i - 1].location is None {
            1int
        } else {
            0int
        }
    }
}

/// The shader location of field `i`: the one it was given, or else its
/// position among the fields that were given none.
pub open spec fn location_of(fields: Seq<VertexField>, i: int) -> int {
    match fields[i].location {
        Some(location) => location as int,
        None => unplaced_before(fields, i),
    }
}

/// Every offset and every location of `fields` can be written down.
pub open spec fn packable(fields: Seq<VertexField>) -> bool {
    forall|i: int|
        0 <= i < fields.len() ==> #[trigger] offset_of(fields, i) <= u64::MAX && location_of(fields, i) <= u32::MAX
}

/// The attributes of a vertex whose fields follow each other without gaps.
///
/// Each field lies behind the fields before it. A field that was given a
/// shader location keeps it; the others are numbered in their order, from
/// zero. Fields whose offset or location does not fit its type are refused.
pub fn packed_attributes(fields: &[VertexField]) -> (outcome: Result<Vec<VertexAttribute>, BuildError>)
    ensures
        !packable(fields@) ==> outcome == Err::<Vec<VertexAttribute>, BuildError>(BuildError::TooLarge),
        packable(fields@) ==> outcome is Ok && outcome->Ok_0@.len() == fields@.len() && forall|i: int|
            0 <= i < fields@.len() ==> (#[trigger] outcome->Ok_0@[i]) == (VertexAttribute {
                format: fields@[i].format,
                offset: offset_of(fields@, i) as u64,
                shader_location: location_of(fields@, i) as u32,
            }),
{
    let mut attributes: Vec<VertexAttribute> = Vec::new();
    let mut offset: Option<u64> = Some(0);
    let mut unplaced: Option<u32> = Some(0);
    let mut i: usize = 0;
    while i < fields.len()
        invariant
            i <= fields@.len(),
            attributes@.len() == i,
            offset matches Some(bytes) ==> bytes == offset_of(fields@, i as int),
            offset is None ==> offset_of(fields@, i as int) > u64::MAX,
            unplaced matches Some(count) ==> count == unplaced_before(fields@, i as int),
            unplaced is None ==> unplaced_before(fields@, i as int) > u32::MAX,
            forall|j: int|
                0 <= j < i ==> #[trigger] offset_of(fields@, j) <= u64::MAX && location_of(fields@, j) <= u32::MAX,
            forall|j: int|
                0 <= j < i ==> (#[trigger] attributes@[j]) == (VertexAttribute {
                    format: fields@[j].format,
                    offset: offset_of(fields@, j) as u64,
                    shader_location: location_of(fields@, j) as u32,
                }),
        decreases fields@.len() - i,
    {
        let field = fields[i];
        let bytes: u64 = match offset {
            Some(bytes) => bytes,
            None => {
                return Err(BuildError::TooLarge);
            },
        };
        let shader_location: u32 = match field.location {
            Some(location) => location,
            None => match unplaced {
                Some(count) => count,
                None => {
                    return Err(BuildError::TooLarge);
                },
            },
        };
        attributes.push(VertexAttribute { format: field.format, offset: bytes, shader_location });
        offset = bytes.checked_add(field.format.size());
        if field.location.is_none() {
            unplaced = match unplaced {
                Some(count) => count.checked_add(1),
                None => None,
            };
        }
        i += 1;
        assert(offset_of(fields@, i - 1) <= u64::MAX && location_of(fields@, i - 1) <= u32::MAX);
    }
    Ok(attributes)
}

} // verus!
