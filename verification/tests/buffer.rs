use petra::buffer::{BufferBuilder, BufferContents, BufferUsages, ElementType, IndexFormat};
use petra::error::{BuildError, WriteError};
use petra::manager::RenderManager;
use petra::vertex::{VertexAttribute, VertexFormat, VertexStepMode};

const WORDS: ElementType = ElementType { id: 1000, size: 8 };
const BYTES: ElementType = ElementType { id: 1001, size: 1 };

#[test]
fn write_within_capacity_updates_in_place() {
    let mut manager = RenderManager::new(640, 480);
    let buffer = BufferBuilder::new(Some("uniforms"), WORDS)
        .uniform()
        .copy_dst()
        .build(&mut manager, 4)
        .ok()
        .unwrap();
    assert_eq!(manager.get_buffer(buffer).unwrap().capacity(), 32);
    let before = manager.get_buffer(buffer).unwrap().generation();

    // Exactly as many elements as there is room for.
    let outcome = manager.write_to_buffer(buffer, WORDS, &[7u8; 32]).ok().unwrap();
    assert!(!outcome.reallocated);
    assert!(outcome.rebuilt.is_empty());
    assert_eq!(manager.get_buffer(buffer).unwrap().capacity(), 32);
    assert_eq!(manager.get_buffer(buffer).unwrap().generation(), before);

    // Fewer elements.
    let outcome = manager.write_to_buffer(buffer, WORDS, &[7u8; 8]).ok().unwrap();
    assert!(!outcome.reallocated);
    assert_eq!(manager.get_buffer(buffer).unwrap().capacity(), 32);
    assert_eq!(manager.get_buffer(buffer).unwrap().len(), 4);

    // No element at all.
    let outcome = manager.write_to_buffer(buffer, WORDS, &[]).ok().unwrap();
    assert!(!outcome.reallocated);
    assert_eq!(manager.get_buffer(buffer).unwrap().capacity(), 32);
}

#[test]
fn write_beyond_capacity_reallocates_to_payload_size() {
    let mut manager = RenderManager::new(640, 480);
    let buffer = BufferBuilder::new(None, WORDS).storage().build(&mut manager, 1).ok().unwrap();
    let before = manager.get_buffer(buffer).unwrap().generation();

    let outcome = manager.write_to_buffer(buffer, WORDS, &[1u8; 80]).ok().unwrap();
    assert!(outcome.reallocated);
    let after = manager.get_buffer(buffer).unwrap();
    assert_eq!(after.capacity(), 80);
    assert_eq!(after.len(), 10);
    assert_ne!(after.generation(), before);

    // One byte more than the new capacity reallocates again.
    let generation = after.generation();
    let outcome = manager.write_to_buffer(buffer, WORDS, &[1u8; 81]).ok().unwrap();
    assert!(outcome.reallocated);
    assert_eq!(manager.get_buffer(buffer).unwrap().capacity(), 81);
    assert_ne!(manager.get_buffer(buffer).unwrap().generation(), generation);
}

#[test]
fn a_buffer_never_shrinks() {
    let mut manager = RenderManager::new(640, 480);
    let buffer = BufferBuilder::new(None, WORDS).build(&mut manager, 1).ok().unwrap();
    manager.write_to_buffer(buffer, WORDS, &[1u8; 64]).ok().unwrap();
    let outcome = manager.write_to_buffer(buffer, WORDS, &[1u8; 8]).ok().unwrap();
    assert!(!outcome.reallocated);
    assert_eq!(manager.get_buffer(buffer).unwrap().capacity(), 64);
}

#[test]
fn write_of_another_element_type_is_refused() {
    let mut manager = RenderManager::new(640, 480);
    let buffer = BufferBuilder::new(None, WORDS).build(&mut manager, 2).ok().unwrap();
    let outcome = manager.write_to_buffer(buffer, BYTES, &[0u8; 4]);
    assert_eq!(outcome.err(), Some(WriteError::TypeMismatch));
    // The same token with another width is another type too.
    let outcome = manager.write_to_buffer(buffer, ElementType { id: 1000, size: 4 }, &[0u8; 4]);
    assert_eq!(outcome.err(), Some(WriteError::TypeMismatch));
    // Even data that would not fit is refused before anything is reallocated.
    let outcome = manager.write_to_buffer(buffer, BYTES, &[0u8; 400]);
    assert_eq!(outcome.err(), Some(WriteError::TypeMismatch));
    assert_eq!(manager.get_buffer(buffer).unwrap().capacity(), 16);
    assert_eq!(manager.get_buffer(buffer).unwrap().generation(), 0);
}

#[test]
fn write_to_an_unknown_buffer_is_refused() {
    let mut other = RenderManager::new(1, 1);
    BufferBuilder::new(None, WORDS).build(&mut other, 1).ok().unwrap();
    let beyond = BufferBuilder::new(None, WORDS).build(&mut other, 1).ok().unwrap();

    let mut manager = RenderManager::new(1, 1);
    BufferBuilder::new(None, WORDS).build(&mut manager, 1).ok().unwrap();
    let outcome = manager.write_to_buffer(beyond, WORDS, &[0u8; 8]);
    assert_eq!(outcome.err(), Some(WriteError::InvalidHandle));
    assert!(manager.get_buffer(beyond).is_none());
}

#[test]
fn build_init_keeps_the_element_type() {
    let mut manager = RenderManager::new(1, 1);
    let buffer = BufferBuilder::new(None, BYTES).build_init(&mut manager, &[1, 2, 3]).ok().unwrap();
    let held = manager.get_buffer(buffer).unwrap();
    assert_eq!(held.capacity(), 3);
    assert_eq!(held.len(), 3);
    assert_eq!(held.element(), BYTES);
}

#[test]
fn build_checks_element_and_size() {
    let mut manager = RenderManager::new(1, 1);
    let zero = ElementType { id: 3, size: 0 };
    assert_eq!(BufferBuilder::new(None, zero).build(&mut manager, 1).err(), Some(BuildError::ZeroSizedElement));
    assert_eq!(BufferBuilder::new(None, zero).build_init(&mut manager, &[]).err(), Some(BuildError::ZeroSizedElement));
    assert_eq!(BufferBuilder::new(None, BYTES).index().build(&mut manager, 8).err(), Some(BuildError::IndexWidth));
    assert_eq!(BufferBuilder::new(None, WORDS).build(&mut manager, u64::MAX).err(), Some(BuildError::TooLarge));
    assert_eq!(BufferBuilder::new(None, BYTES).build(&mut manager, 3).err(), Some(BuildError::Misaligned));
    // Nothing was registered by the refused builds.
    let first = BufferBuilder::new(None, BYTES).build(&mut manager, 8).ok().unwrap();
    assert_eq!(first.index(), 0);
}

#[test]
fn build_allocates_count_times_element_size() {
    let mut manager = RenderManager::new(1, 1);
    let element = ElementType { id: 5, size: 24 };
    let buffer = BufferBuilder::new(Some("vertices"), element).build(&mut manager, 5).ok().unwrap();
    let held = manager.get_buffer(buffer).unwrap();
    assert_eq!(held.capacity(), 120);
    assert_eq!(held.len(), 5);
    assert_eq!(held.name(), Some("vertices"));
    assert_eq!(held.generation(), 0);
    let empty = BufferBuilder::new(None, element).build(&mut manager, 0).ok().unwrap();
    assert_eq!(manager.get_buffer(empty).unwrap().capacity(), 0);
    assert_eq!(manager.get_buffer(empty).unwrap().name(), None);
}

#[test]
fn build_init_allocates_exactly_the_data() {
    let mut manager = RenderManager::new(1, 1);
    let element = ElementType { id: 5, size: 4 };
    // No alignment is asked of initial data.
    let buffer = BufferBuilder::new(None, element).build_init(&mut manager, &[0u8; 12]).ok().unwrap();
    let held = manager.get_buffer(buffer).unwrap();
    assert_eq!(held.capacity(), 12);
    assert_eq!(held.len(), 3);
}

#[test]
fn len_counts_whole_elements() {
    let mut manager = RenderManager::new(1, 1);
    let element = ElementType { id: 5, size: 4 };
    let buffer = BufferBuilder::new(None, element).build_init(&mut manager, &[0u8; 11]).ok().unwrap();
    assert_eq!(manager.get_buffer(buffer).unwrap().len(), 2);
}

#[test]
fn usages_accumulate() {
    let mut manager = RenderManager::new(1, 1);
    let none = BufferUsages::empty();
    assert_eq!(
        none,
        BufferUsages {
            map_read: false,
            map_write: false,
            copy_src: false,
            copy_dst: false,
            index: false,
            vertex: false,
            uniform: false,
            storage: false,
            indirect: false,
        }
    );
    let buffer = BufferBuilder::new(None, WORDS)
        .map_read()
        .map_write()
        .copy_src()
        .copy_dst()
        .storage()
        .uniform()
        .indirect()
        .build(&mut manager, 1)
        .ok()
        .unwrap();
    let usage = manager.get_buffer(buffer).unwrap().usage();
    assert!(usage.map_read && usage.map_write && usage.copy_src && usage.copy_dst);
    assert!(usage.storage && usage.uniform && usage.indirect);
    assert!(!usage.vertex && !usage.index);
    assert!(manager.get_buffer(buffer).unwrap().vertex_format().is_none());
}

#[test]
fn vertex_and_instance_capture_the_layout() {
    let mut manager = RenderManager::new(1, 1);
    let attributes = vec![
        VertexAttribute { format: VertexFormat::Float32x2, offset: 0, shader_location: 0 },
        VertexAttribute { format: VertexFormat::Float32x3, offset: 8, shader_location: 1 },
    ];
    let element = ElementType { id: 9, size: 24 };
    let vertices = BufferBuilder::new(None, element).vertex(24, attributes.clone()).build(&mut manager, 3).ok().unwrap();
    let held = manager.get_buffer(vertices).unwrap();
    assert!(held.usage().vertex);
    let layout = held.vertex_format().unwrap();
    assert_eq!(layout.array_stride, 24);
    assert_eq!(layout.step_mode, VertexStepMode::Vertex);
    assert_eq!(layout.attributes, attributes);

    let instances = BufferBuilder::new(None, element).instance(24, attributes.clone()).build(&mut manager, 3).ok().unwrap();
    let held = manager.get_buffer(instances).unwrap();
    assert!(held.usage().vertex);
    assert_eq!(held.vertex_format().unwrap().step_mode, VertexStepMode::Instance);
    assert_eq!(held.vertex_format().unwrap().attributes, attributes);
}

#[test]
fn index_buffers_are_two_or_four_bytes_wide() {
    let mut manager = RenderManager::new(1, 1);
    let short = BufferBuilder::new(None, u16::element()).index().build_init(&mut manager, &[0, 0, 1, 0]).ok().unwrap();
    assert_eq!(manager.get_buffer(short).unwrap().index_format(), Some(IndexFormat::Uint16));
    assert!(manager.get_buffer(short).unwrap().usage().index);
    let long = BufferBuilder::new(None, u32::element()).index().build_init(&mut manager, &[0; 8]).ok().unwrap();
    assert_eq!(manager.get_buffer(long).unwrap().index_format(), Some(IndexFormat::Uint32));
    for width in [1u64, 3, 8, 16] {
        let element = ElementType { id: 77, size: width };
        let refused = BufferBuilder::new(None, element).index().build_init(&mut manager, &[0; 48]);
        assert_eq!(refused.err(), Some(BuildError::IndexWidth));
        // Without the index usage any width will do.
        let plain = BufferBuilder::new(None, element).build_init(&mut manager, &[0; 48]).ok().unwrap();
        assert_eq!(manager.get_buffer(plain).unwrap().index_format(), None);
    }
}

#[test]
fn library_element_types_are_distinct() {
    let all = [
        u8::element(),
        u16::element(),
        u32::element(),
        u64::element(),
        i8::element(),
        i16::element(),
        i32::element(),
        i64::element(),
    ];
    let sizes = [1u64, 2, 4, 8, 1, 2, 4, 8];
    for (i, a) in all.iter().enumerate() {
        assert_eq!(a.size, sizes[i]);
        assert!(a.id < 256);
        for (j, b) in all.iter().enumerate() {
            assert_eq!(i == j, a.id == b.id);
        }
    }
}

#[test]
fn buffer_builder_of_the_context_takes_the_element_of_the_type() {
    let mut manager = RenderManager::new(1, 1);
    let buffer = manager.buffer_builder::<u32>(Some("indices")).index().build(&mut manager, 6).ok().unwrap();
    let held = manager.get_buffer(buffer).unwrap();
    assert_eq!(held.element(), ElementType { id: 3, size: 4 });
    assert_eq!(held.capacity(), 24);
    assert_eq!(held.name(), Some("indices"));
}
