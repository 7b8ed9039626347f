//! Data buffers: a block of device memory tagged with an element type.
//!
//! The library keeps what it needs to decide about a buffer: its element type,
//! its capacity in bytes, what it may be used for, and which allocation backs
//! it. The bytes themselves live on the device; the library tracks them as
//! ghost state so that contracts can say what a write leaves there.

use crate::error::{BuildError, WriteError};
use crate::frame::{count, index_format};
use crate::handle::Handle;
use crate::label::{borrowed_label, label_view, owned_label, text_view};
use crate::manager::RenderManager;
use crate::state::ManagerView;
use crate::vertex::{VertexAttribute, VertexBufferLayout, VertexLayoutView, VertexStepMode, vertex_format};
use vstd::prelude::*;

verus! {

pub type BufferHandle = Handle<Buffer>;

/// The identity of an element type: a token that tells types apart, and the
/// number of bytes one element takes.
#[derive(Clone, Copy, Debug, PartialEq, Eq, Structural)]
pub struct ElementType {
    pub id: u64,
    pub size: u64,
}

/// What a buffer may be used for.
#[derive(Clone, Copy, Debug, PartialEq, Eq, Structural)]
pub struct BufferUsages {
    pub map_read: bool,
    pub map_write: bool,
    pub copy_src: bool,
    pub copy_dst: bool,
    pub index: bool,
    pub vertex: bool,
    pub uniform: bool,
    pub storage: bool,
    pub indirect: bool,
}

impl BufferUsages {
    pub open spec fn none() -> BufferUsages {
        BufferUsages {
            map_read: false,
            map_write: false,
            copy_src: false,
            copy_dst: false,
            index: false,
            vertex: false,
            uniform: false,
            storage: false,
            indirect: false,
        }
    }

    /// No usage at all.
    pub fn empty() -> (usages: BufferUsages)
        ensures
            usages == BufferUsages::none(),
    {
        BufferUsages {
            map_read: false,
            map_write: false,
            copy_src: false,
            copy_dst: false,
            index: false,
            vertex: false,
            uniform: false,
            storage: false,
            indirect: false,
        }
    }
}

/// The width of the elements of an index buffer.
#[derive(Clone, Copy, Debug, PartialEq, Eq, Structural)]
pub enum IndexFormat {
    Uint16,
    Uint32,
}

/// The index format for elements of `width` bytes, where there is one.
pub open spec fn index_format_of(width: u64) -> Option<IndexFormat> {
    if width == 2 {
        Some(IndexFormat::Uint16)
    } else if width == 4 {
        Some(IndexFormat::Uint32)
    } else {
        None
    }
}

/// The generation after `generation`. Generations tell the allocations of one
/// resource apart; they wrap around after 2^64 reallocations.
pub open spec fn next_generation(generation: u64) -> u64 {
    if generation == u64::MAX {
        0
    } else {
        (generation + 1) as u64
    }
}

/// `len` zero bytes.
pub open spec fn zeroed(len: nat) -> Seq<u8> {
    Seq::new(len, |i: int| 0u8)
}

/// What a [`Buffer`] is, as plain values.
pub struct BufferView {
    pub name: Option<Seq<char>>,
    pub element: ElementType,
    /// Bytes allocated on the device.
    pub capacity: u64,
    pub usage: BufferUsages,
    pub vertex_format: Option<VertexLayoutView>,
    /// Which allocation backs the buffer. It changes with every reallocation.
    pub generation: u64,
    /// The bytes in device memory.
    pub contents: Seq<u8>,
}

impl BufferView {
    /// The device holds exactly `capacity` bytes, and elements have a width.
    pub open spec fn wf(self) -> bool {
        &&& self.element.size > 0
        &&& self.contents.len() == self.capacity
    }

    /// How many whole elements the buffer has room for.
    pub open spec fn len(self) -> u64 {
        if self.element.size == 0 {
            0
        } else {
            (self.capacity / self.element.size) as u64
        }
    }

    /// Whether `data` can be written without a new allocation.
    pub open spec fn fits(self, data: Seq<u8>) -> bool {
        data.len() <= self.capacity
    }

    /// The buffer after `data` replaced its contents.
    ///
    /// Data that fits overwrites the front of the allocation and leaves the
    /// rest as it was. Data that does not fit moves the buffer to a new
    /// allocation of exactly the size of the data.
    pub open spec fn written(self, data: Seq<u8>) -> BufferView {
        if self.fits(data) {
            BufferView { contents: data + self.contents.skip(data.len() as int), ..self }
        } else {
            BufferView {
                capacity: data.len() as u64,
                generation: next_generation(self.generation),
                contents: data,
                ..self
            }
        }
    }
}

/// Writing at most as many elements as a buffer has room for never
/// reallocates: the buffer stays on its allocation with its capacity, the
/// data is what the front of the buffer holds afterwards, and the bytes behind
/// it are untouched.
pub proof fn lemma_write_within_capacity(buffer: BufferView, elements: nat, data: Seq<u8>)
    requires
        buffer.wf(),
        data.len() == elements * buffer.element.size,
        elements <= buffer.len(),
    ensures
        buffer.fits(data),
        buffer.written(data).wf(),
        buffer.written(data).generation == buffer.generation,
        buffer.written(data).capacity == buffer.capacity,
        buffer.written(data).contents.subrange(0, data.len() as int) == data,
        forall|i: int|
            data.len() <= i < buffer.capacity ==> buffer.written(data).contents[i] == buffer.contents[i],
{
    let size = buffer.element.size as int;
    let room = buffer.capacity as int / size;
    assert(room * size <= buffer.capacity) by (nonlinear_arith)
        requires
            size > 0,
            room == buffer.capacity as int / size,
            buffer.capacity >= 0,
    ;
    assert(elements * size <= room * size) by (nonlinear_arith)
        requires
            elements <= room,
            size > 0,
    ;
}

/// Writing more elements than a buffer has room for always reallocates: the
/// buffer moves to another allocation that is exactly as large as the data and
/// holds the data.
pub proof fn lemma_write_beyond_capacity(buffer: BufferView, elements: nat, data: Seq<u8>)
    requires
        buffer.wf(),
        data.len() == elements * buffer.element.size,
        data.len() <= u64::MAX,
        elements > buffer.len(),
    ensures
        !buffer.fits(data),
        buffer.written(data).wf(),
        buffer.written(data).generation != buffer.generation,
        buffer.written(data).capacity == data.len(),
        buffer.written(data).contents == data,
{
    let size = buffer.element.size as int;
    let room = buffer.capacity as int / size;
    assert(buffer.capacity < (room + 1) * size) by (nonlinear_arith)
        requires
            size > 0,
            room == buffer.capacity as int / size,
            buffer.capacity >= 0,
    ;
    assert((room + 1) * size <= elements * size) by (nonlinear_arith)
        requires
            room + 1 <= elements,
            size > 0,
    ;
}

/// A write leaves the element type, the usage, the name and the vertex layout
/// of a buffer as they are.
pub proof fn lemma_write_keeps_declaration(buffer: BufferView, data: Seq<u8>)
    ensures
        buffer.written(data).element == buffer.element,
        buffer.written(data).usage == buffer.usage,
        buffer.written(data).name == buffer.name,
        buffer.written(data).vertex_format == buffer.vertex_format,
{
}

/// Elements of 2 bytes are 16-bit indices, elements of 4 bytes are 32-bit
/// indices, and elements of any other width are no indices.
pub proof fn lemma_index_format(width: u64)
    ensures
        width == 2 ==> index_format_of(width) == Some(IndexFormat::Uint16),
        width == 4 ==> index_format_of(width) == Some(IndexFormat::Uint32),
        width != 2 && width != 4 ==> index_format_of(width) is None,
{
}

/// What each of `buffers` is, as plain values.
pub open spec fn buffer_views(buffers: Seq<Buffer>) -> Seq<BufferView> {
    Seq::new(buffers.len(), |i: int| buffers[i]@)
}

pub struct Buffer {
    name: Option<String>,
    element: ElementType,
    capacity: u64,
    usage: BufferUsages,
    vertex_format: Option<VertexBufferLayout>,
    generation: u64,
    contents: Ghost<Seq<u8>>,
}

impl View for Buffer {
    type V = BufferView;

    closed spec fn view(&self) -> BufferView {
        BufferView {
            name: label_view(self.name),
            element: self.element,
            capacity: self.capacity,
            usage: self.usage,
            vertex_format: match self.vertex_format {
                Some(layout) => Some(layout@),
                None => None,
            },
            generation: self.generation,
            contents: self.contents@,
        }
    }
}

impl Buffer {
    /// A buffer of `size` zero bytes.
    pub(crate) fn new(
        label: Option<String>,
        element: ElementType,
        size: u64,
        usage: BufferUsages,
        vertex_format: Option<VertexBufferLayout>,
    ) -> (buffer: Buffer)
        ensures
            buffer@ == (BufferView {
                name: label_view(label),
                element,
                capacity: size,
                usage,
                vertex_format: match vertex_format {
                    Some(layout) => Some(layout@),
                    None => None,
                },
                generation: 0,
                contents: zeroed(size as nat),
            }),
    {
        Buffer {
            name: label,
            element,
            capacity: size,
            usage,
            vertex_format,
            generation: 0,
            contents: Ghost(zeroed(size as nat)),
        }
    }

    /// A buffer that holds exactly `data`.
    pub(crate) fn new_init(
        label: Option<String>,
        element: ElementType,
        usage: BufferUsages,
        data: &[u8],
        vertex_format: Option<VertexBufferLayout>,
    ) -> (buffer: Buffer)
        ensures
            buffer@ == (BufferView {
                name: label_view(label),
                element,
                capacity: data@.len() as u64,
                usage,
                vertex_format: match vertex_format {
                    Some(layout) => Some(layout@),
                    None => None,
                },
                generation: 0,
                contents: data@,
            }),
    {
        Buffer {
            name: label,
            element,
            capacity: data.len() as u64,
            usage,
            vertex_format,
            generation: 0,
            contents: Ghost(data@),
        }
    }

    /// Replaces the contents of the buffer with `data`, the bytes of elements
    /// of type `element`.
    ///
    /// Returns whether the buffer had to move to a new allocation. Data of
    /// another element type than the buffer was declared with is refused.
    pub fn write_data(&mut self, element: ElementType, data: &[u8]) -> (outcome: Result<bool, WriteError>)
        ensures
            element != old(self)@.element ==> outcome == Err::<bool, WriteError>(WriteError::TypeMismatch)
                && final(self)@ == old(self)@,
            element == old(self)@.element ==> outcome == Ok::<bool, WriteError>(!old(self)@.fits(data@))
                && final(self)@ == old(self)@.written(data@),
    {
        if element.id != self.element.id || element.size != self.element.size {
            return Err(WriteError::TypeMismatch);
        }
        let len: u64 = data.len() as u64;
        if len > self.capacity {
            self.capacity = len;
            self.generation = if self.generation == u64::MAX {
                0
            } else {
                self.generation + 1
            };
            self.contents = Ghost(data@);
            Ok(true)
        } else {
            self.contents = Ghost(data@ + self.contents@.skip(data@.len() as int));
            Ok(false)
        }
    }

    pub fn name(&self) -> (name: Option<&str>)
        ensures
            text_view(name) == self@.name,
    {
        borrowed_label(&self.name)
    }

    /// The element type the buffer was declared with.
    pub fn element(&self) -> (element: ElementType)
        ensures
            element == self@.element,
    {
        self.element
    }

    /// Bytes allocated on the device.
    pub fn capacity(&self) -> (capacity: u64)
        ensures
            capacity == self@.capacity,
    {
        self.capacity
    }

    /// How many whole elements the buffer has room for.
    pub fn len(&self) -> (len: u64)
        ensures
            len == self@.len(),
    {
        if self.element.size == 0 {
            0
        } else {
            self.capacity / self.element.size
        }
    }

    pub fn usage(&self) -> (usage: BufferUsages)
        ensures
            usage == self@.usage,
    {
        self.usage
    }

    /// Which allocation backs the buffer.
    pub fn generation(&self) -> (generation: u64)
        ensures
            generation == self@.generation,
    {
        self.generation
    }

    /// The layout captured when the buffer was marked as a vertex or instance
    /// source.
    pub fn vertex_format(&self) -> (layout: Option<VertexBufferLayout>)
        ensures
            self@.vertex_format matches Some(view) ==> layout matches Some(copy) && copy@ == view,
            self@.vertex_format is None ==> layout is None,
    {
        match &self.vertex_format {
            Some(layout) => Some(layout.clone()),
            None => None,
        }
    }

    /// The index format the elements of the buffer stand for, if their width
    /// is one an index can have.
    pub fn index_format(&self) -> (format: Option<IndexFormat>)
        ensures
            format == index_format_of(self@.element.size),
    {
        if self.element.size == 2 {
            Some(IndexFormat::Uint16)
        } else if self.element.size == 4 {
            Some(IndexFormat::Uint32)
        } else {
            None
        }
    }
}

/// The view of an optional vertex layout.
pub open spec fn layout_view(layout: Option<VertexBufferLayout>) -> Option<VertexLayoutView> {
    match layout {
        Some(layout) => Some(layout@),
        None => None,
    }
}

/// The alignment that mapped device memory has to keep, in bytes.
pub open spec fn mapping_alignment() -> u64 {
    8
}

/// The mapping alignment of the graphics backend, `wgpu::MAP_ALIGNMENT`, which
/// its source sets to 8 bytes.
#[verifier::external_body]
pub(crate) fn map_alignment() -> (alignment: u64)
    ensures
        alignment == mapping_alignment(),
{
    wgpu::MAP_ALIGNMENT
}

/// Collects what a buffer is to be used for, and registers the buffer.
pub struct BufferBuilder {
    pub usages: BufferUsages,
    pub label: Option<String>,
    pub element: ElementType,
    pub vertex_format: Option<VertexBufferLayout>,
}

impl BufferBuilder {
    /// A builder for a buffer of elements of type `element`, without any
    /// usage yet.
    pub fn new(label: Option<&str>, element: ElementType) -> (builder: BufferBuilder)
        ensures
            builder.usages == BufferUsages::none(),
            label_view(builder.label) == text_view(label),
            builder.element == element,
            builder.vertex_format is None,
    {
        BufferBuilder { usages: BufferUsages::empty(), label: owned_label(label), element, vertex_format: None }
    }

    pub fn map_read(self) -> (builder: BufferBuilder)
        ensures
            builder == (BufferBuilder { usages: BufferUsages { map_read: true, ..self.usages }, ..self }),
    {
        let mut builder = self;
        builder.usages.map_read = true;
        builder
    }

    pub fn map_write(self) -> (builder: BufferBuilder)
        ensures
            builder == (BufferBuilder { usages: BufferUsages { map_write: true, ..self.usages }, ..self }),
    {
        let mut builder = self;
        builder.usages.map_write = true;
        builder
    }

    pub fn copy_src(self) -> (builder: BufferBuilder)
        ensures
            builder == (BufferBuilder { usages: BufferUsages { copy_src: true, ..self.usages }, ..self }),
    {
        let mut builder = self;
        builder.usages.copy_src = true;
        builder
    }

    pub fn copy_dst(self) -> (builder: BufferBuilder)
        ensures
            builder == (BufferBuilder { usages: BufferUsages { copy_dst: true, ..self.usages }, ..self }),
    {
        let mut builder = self;
        builder.usages.copy_dst = true;
        builder
    }

    pub fn storage(self) -> (builder: BufferBuilder)
        ensures
            builder == (BufferBuilder { usages: BufferUsages { storage: true, ..self.usages }, ..self }),
    {
        let mut builder = self;
        builder.usages.storage = true;
        builder
    }

    pub fn uniform(self) -> (builder: BufferBuilder)
        ensures
            builder == (BufferBuilder { usages: BufferUsages { uniform: true, ..self.usages }, ..self }),
    {
        let mut builder = self;
        builder.usages.uniform = true;
        builder
    }

    pub fn indirect(self) -> (builder: BufferBuilder)
        ensures
            builder == (BufferBuilder { usages: BufferUsages { indirect: true, ..self.usages }, ..self }),
    {
        let mut builder = self;
        builder.usages.indirect = true;
        builder
    }

    /// Marks the buffer as a vertex source whose elements are `array_stride`
    /// bytes apart and hold `attributes`.
    pub fn vertex(self, array_stride: u64, attributes: Vec<VertexAttribute>) -> (builder: BufferBuilder)
        ensures
            builder.usages == (BufferUsages { vertex: true, ..self.usages }),
            builder.label == self.label,
            builder.element == self.element,
            layout_view(builder.vertex_format) == Some(
                VertexLayoutView { array_stride, step_mode: VertexStepMode::Vertex, attributes: attributes@ },
            ),
    {
        let mut builder = self;
        builder.usages.vertex = true;
        builder.vertex_format = Some(vertex_format(array_stride, VertexStepMode::Vertex, attributes));
        builder
    }

    /// Marks the buffer as an instance source whose elements are
    /// `array_stride` bytes apart and hold `attributes`.
    pub fn instance(self, array_stride: u64, attributes: Vec<VertexAttribute>) -> (builder: BufferBuilder)
        ensures
            builder.usages == (BufferUsages { vertex: true, ..self.usages }),
            builder.label == self.label,
            builder.element == self.element,
            layout_view(builder.vertex_format) == Some(
                VertexLayoutView { array_stride, step_mode: VertexStepMode::Instance, attributes: attributes@ },
            ),
    {
        let mut builder = self;
        builder.usages.vertex = true;
        builder.vertex_format = Some(vertex_format(array_stride, VertexStepMode::Instance, attributes));
        builder
    }

    /// Marks the buffer as an index source. Its elements have to be 2 or 4
    /// bytes wide.
    pub fn index(self) -> (builder: BufferBuilder)
        ensures
            builder == (BufferBuilder { usages: BufferUsages { index: true, ..self.usages }, ..self }),
    {
        let mut builder = self;
        builder.usages.index = true;
        builder
    }

    /// What stands against a buffer of this configuration, whatever its size.
    pub open spec fn element_error(self) -> Option<BuildError> {
        if self.element.size == 0 {
            Some(BuildError::ZeroSizedElement)
        } else if self.usages.index && index_format_of(self.element.size) is None {
            Some(BuildError::IndexWidth)
        } else {
            None
        }
    }

    /// What stands against a buffer of this configuration with room for
    /// `count` elements.
    pub open spec fn build_error(self, count: u64) -> Option<BuildError> {
        if self.element_error() is Some {
            self.element_error()
        } else if count * self.element.size > u64::MAX {
            Some(BuildError::TooLarge)
        } else if (count * self.element.size) % (mapping_alignment() as int) != 0 {
            Some(BuildError::Misaligned)
        } else {
            None
        }
    }

    /// The buffer this configuration describes, holding `contents`.
    pub open spec fn built(self, contents: Seq<u8>) -> BufferView {
        BufferView {
            name: label_view(self.label),
            element: self.element,
            capacity: contents.len() as u64,
            usage: self.usages,
            vertex_format: layout_view(self.vertex_format),
            generation: 0,
            contents,
        }
    }

    fn check_element(&self) -> (error: Option<BuildError>)
        ensures
            error == self.element_error(),
    {
        if self.element.size == 0 {
            Some(BuildError::ZeroSizedElement)
        } else if self.usages.index && self.element.size != 2 && self.element.size != 4 {
            Some(BuildError::IndexWidth)
        } else {
            None
        }
    }

    /// Registers a buffer with room for `count` elements, all bytes zero.
    pub fn build(self, manager: &mut RenderManager, count: u64) -> (outcome: Result<BufferHandle, BuildError>)
        requires
            old(manager).wf(),
        ensures
            final(manager).wf(),
            self.build_error(count) matches Some(error) ==> outcome == Err::<BufferHandle, BuildError>(error)
                && final(manager)@ == old(manager)@,
            self.build_error(count) is None ==> outcome is Ok && outcome->Ok_0@ == old(manager)@.buffers.len()
                && final(manager)@ == (ManagerView {
                buffers: old(manager)@.buffers.push(self.built(zeroed((count * self.element.size) as nat))),
                ..old(manager)@
            }),
    {
        match self.check_element() {
            Some(error) => {
                return Err(error);
            },
            None => {},
        }
        let size: u64 = match count.checked_mul(self.element.size) {
            Some(size) => size,
            None => {
                return Err(BuildError::TooLarge);
            },
        };
        if size % map_alignment() != 0 {
            return Err(BuildError::Misaligned);
        }
        let buffer = Buffer::new(self.label, self.element, size, self.usages, self.vertex_format);
        Ok(manager.add_buffer(buffer))
    }

    /// Registers a buffer that holds exactly `init_data`.
    pub fn build_init(self, manager: &mut RenderManager, init_data: &[u8]) -> (outcome: Result<
        BufferHandle,
        BuildError,
    >)
        requires
            old(manager).wf(),
        ensures
            final(manager).wf(),
            self.element_error() matches Some(error) ==> outcome == Err::<BufferHandle, BuildError>(error)
                && final(manager)@ == old(manager)@,
            self.element_error() is None ==> outcome is Ok && outcome->Ok_0@ == old(manager)@.buffers.len()
                && final(manager)@ == (ManagerView {
                buffers: old(manager)@.buffers.push(self.built(init_data@)),
                ..old(manager)@
            }),
    {
        match self.check_element() {
            Some(error) => {
                return Err(error);
            },
            None => {},
        }
        assert(init_data@.len() == init_data.len());
        let buffer = Buffer::new_init(self.label, self.element, self.usages, init_data, self.vertex_format);
        Ok(manager.add_buffer(buffer))
    }
}

/// A type whose values can be sent to the device in a buffer.
///
/// An implementation names the element type: a token that no other type uses,
/// and the number of bytes one value takes. The tokens below 256 belong to the
/// types of this library.
pub trait BufferContents: Copy {
    spec fn element_type() -> ElementType;

    /// The identity and the width of the type.
    fn element() -> (element: ElementType)
        ensures
            element == Self::element_type(),
    ;
}

impl BufferContents for u8 {
    open spec fn element_type() -> ElementType {
        ElementType { id: 1, size: 1 }
    }

    fn element() -> (element: ElementType) {
        ElementType { id: 1, size: 1 }
    }
}

impl BufferContents for u16 {
    open spec fn element_type() -> ElementType {
        ElementType { id: 2, size: 2 }
    }

    fn element() -> (element: ElementType) {
        ElementType { id: 2, size: 2 }
    }
}

impl BufferContents for u32 {
    open spec fn element_type() -> ElementType {
        ElementType { id: 3, size: 4 }
    }

    fn element() -> (element: ElementType) {
        ElementType { id: 3, size: 4 }
    }
}

impl BufferContents for u64 {
    open spec fn element_type() -> ElementType {
        ElementType { id: 4, size: 8 }
    }

    fn element() -> (element: ElementType) {
        ElementType { id: 4, size: 8 }
    }
}

impl BufferContents for i8 {
    open spec fn element_type() -> ElementType {
        ElementType { id: 5, size: 1 }
    }

    fn element() -> (element: ElementType) {
        ElementType { id: 5, size: 1 }
    }
}

impl BufferContents for i16 {
    open spec fn element_type() -> ElementType {
        ElementType { id: 6, size: 2 }
    }

    fn element() -> (element: ElementType) {
        ElementType { id: 6, size: 2 }
    }
}

impl BufferContents for i32 {
    open spec fn element_type() -> ElementType {
        ElementType { id: 7, size: 4 }
    }

    fn element() -> (element: ElementType) {
        ElementType { id: 7, size: 4 }
    }
}

impl BufferContents for i64 {
    open spec fn element_type() -> ElementType {
        ElementType { id: 8, size: 8 }
    }

    fn element() -> (element: ElementType) {
        ElementType { id: 8, size: 8 }
    }
}

} // verus!
