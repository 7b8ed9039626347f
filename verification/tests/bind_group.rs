use petra::bind_group::{
    BindGroupBuilder, BindGroupHandle, BindGroupLayoutEntry, BindingTarget, BindingType, BoundResource,
    BufferBindingType, SamplerBindingType, ShaderStages, StorageTextureAccess, TextureSampleType,
    TextureViewDimension,
};
use petra::buffer::{BufferBuilder, BufferHandle, ElementType};
use petra::error::{BuildError, ResourceKind, WriteError};
use petra::manager::RenderManager;
use petra::sampler::TextureSamplerBuilder;
use petra::texture::{TextureBuilder, TextureFormat, TextureSize};

const UNIFORM: ElementType = ElementType { id: 3000, size: 16 };
const TEXEL: ElementType = ElementType { id: 3001, size: 4 };
const VERTEX: ShaderStages = ShaderStages { vertex: true, fragment: false, compute: false };
const FRAGMENT: ShaderStages = ShaderStages { vertex: false, fragment: true, compute: false };
const COMPUTE: ShaderStages = ShaderStages { vertex: false, fragment: false, compute: true };

fn uniform(manager: &mut RenderManager, count: u64) -> BufferHandle {
    BufferBuilder::new(None, UNIFORM).uniform().copy_dst().build(manager, count).ok().unwrap()
}

/// The generation each buffer slot of `group` points at.
fn bound_generations(manager: &RenderManager, group: BindGroupHandle) -> Vec<(u32, usize, u64)> {
    manager
        .get_bind_group(group)
        .unwrap()
        .resolved()
        .iter()
        .filter_map(|slot| match slot.resource {
            BoundResource::Buffer { buffer, generation } => Some((slot.binding, buffer.index(), generation)),
            _ => None,
        })
        .collect()
}

#[test]
fn build_resolves_every_slot() {
    let mut manager = RenderManager::new(800, 600);
    let buffer = uniform(&mut manager, 1);
    let texture = TextureBuilder::new(None, TextureFormat::Rgba8Unorm, TEXEL).size_2d(4, 4).build(&mut manager).ok().unwrap();
    let sampler = TextureSamplerBuilder::new(None).build(&mut manager);
    let group = BindGroupBuilder::new(Some("material"))
        .bind_uniform_buffer(0, VERTEX, UNIFORM, buffer)
        .bind_texture(1, FRAGMENT, TextureSampleType::Float { filterable: true }, TextureViewDimension::D2, false, texture)
        .bind_sampler(2, FRAGMENT, SamplerBindingType::Filtering, sampler)
        .build(&mut manager)
        .ok()
        .unwrap();
    let held = manager.get_bind_group(group).unwrap();
    assert_eq!(held.name(), Some("material"));
    assert_eq!(held.bindings().len(), 3);
    assert_eq!(held.resolved().len(), 3);
    assert!(held.bindings()[0].target == BindingTarget::Buffer(buffer));
    assert!(held.bindings()[1].target == BindingTarget::Texture(texture));
    assert!(held.bindings()[2].target == BindingTarget::Sampler(sampler));
    assert_eq!(held.resolved()[0].binding, 0);
    assert!(held.resolved()[0].resource == BoundResource::Buffer { buffer, generation: 0 });
    assert_eq!(held.resolved()[1].binding, 1);
    assert!(held.resolved()[1].resource == BoundResource::Texture { texture, generation: 0 });
    assert_eq!(held.resolved()[2].binding, 2);
    assert!(held.resolved()[2].resource == BoundResource::Sampler { sampler });
}

#[test]
fn layout_lists_the_slots_in_declared_order() {
    let mut manager = RenderManager::new(800, 600);
    let buffer = uniform(&mut manager, 4);
    let group = BindGroupBuilder::new(None)
        .bind_storage_buffer(5, COMPUTE, true, Some(4), UNIFORM, buffer)
        .bind_uniform_buffer(1, VERTEX, UNIFORM, buffer)
        .bind_storage_buffer(2, COMPUTE, false, None, UNIFORM, buffer)
        .build(&mut manager)
        .ok()
        .unwrap();
    let layout = manager.get_bind_group(group).unwrap().layout();
    assert_eq!(
        layout,
        vec![
            BindGroupLayoutEntry {
                binding: 5,
                visibility: COMPUTE,
                ty: BindingType::Buffer {
                    ty: BufferBindingType::Storage { read_only: true },
                    has_dynamic_offset: false,
                    min_binding_size: Some(64),
                },
            },
            BindGroupLayoutEntry {
                binding: 1,
                visibility: VERTEX,
                ty: BindingType::Buffer {
                    ty: BufferBindingType::Uniform,
                    has_dynamic_offset: false,
                    min_binding_size: Some(16),
                },
            },
            BindGroupLayoutEntry {
                binding: 2,
                visibility: COMPUTE,
                ty: BindingType::Buffer {
                    ty: BufferBindingType::Storage { read_only: false },
                    has_dynamic_offset: false,
                    min_binding_size: None,
                },
            },
        ]
    );
}

#[test]
fn a_storage_binding_for_no_elements_asks_for_no_size() {
    let mut manager = RenderManager::new(800, 600);
    let buffer = uniform(&mut manager, 4);
    let group = BindGroupBuilder::new(None)
        .bind_storage_buffer(0, COMPUTE, true, Some(0), UNIFORM, buffer)
        .build(&mut manager)
        .ok()
        .unwrap();
    let layout = manager.get_bind_group(group).unwrap().layout();
    assert_eq!(
        layout[0].ty,
        BindingType::Buffer {
            ty: BufferBindingType::Storage { read_only: true },
            has_dynamic_offset: false,
            min_binding_size: None,
        }
    );
}

#[test]
fn a_storage_texture_slot_takes_the_format_of_its_texture() {
    let mut manager = RenderManager::new(800, 600);
    let texture = TextureBuilder::new(None, TextureFormat::R32Float, TEXEL).size_2d(4, 4).storage().build(&mut manager).ok().unwrap();
    let other = TextureBuilder::new(None, TextureFormat::Rgba16Uint, TEXEL).size_2d(4, 4).storage().build(&mut manager).ok().unwrap();
    let group = BindGroupBuilder::new(None)
        .bind_storage_texture(&manager, 0, COMPUTE, StorageTextureAccess::WriteOnly, TextureViewDimension::D2, texture)
        .bind_storage_texture(&manager, 1, COMPUTE, StorageTextureAccess::ReadOnly, TextureViewDimension::D2, other)
        .build(&mut manager)
        .ok()
        .unwrap();
    let layout = manager.get_bind_group(group).unwrap().layout();
    assert_eq!(
        layout[0].ty,
        BindingType::StorageTexture {
            access: StorageTextureAccess::WriteOnly,
            format: TextureFormat::R32Float,
            view_dimension: TextureViewDimension::D2,
        }
    );
    assert_eq!(
        layout[1].ty,
        BindingType::StorageTexture {
            access: StorageTextureAccess::ReadOnly,
            format: TextureFormat::Rgba16Uint,
            view_dimension: TextureViewDimension::D2,
        }
    );
}

#[test]
fn a_storage_texture_slot_needs_its_texture() {
    let mut other = RenderManager::new(1, 1);
    let elsewhere = TextureBuilder::new(None, TextureFormat::R32Float, TEXEL).size_1d(1).build(&mut other).ok().unwrap();
    let mut manager = RenderManager::new(800, 600);
    let refused = BindGroupBuilder::new(None)
        .bind_storage_texture(&manager, 0, COMPUTE, StorageTextureAccess::WriteOnly, TextureViewDimension::D2, elsewhere)
        .build(&mut manager);
    assert_eq!(refused.err(), Some(BuildError::InvalidHandle(ResourceKind::Texture)));
}

#[test]
fn data_that_shaders_read_keeps_the_mapping_alignment() {
    let mut manager = RenderManager::new(800, 600);
    let odd = ElementType { id: 3002, size: 12 };
    let buffer = BufferBuilder::new(None, odd).uniform().build(&mut manager, 2).ok().unwrap();
    let refused = BindGroupBuilder::new(None).bind_uniform_buffer(0, VERTEX, odd, buffer).build(&mut manager);
    assert_eq!(refused.err(), Some(BuildError::Misaligned));
    let refused = BindGroupBuilder::new(None)
        .bind_storage_buffer(0, COMPUTE, false, Some(2), odd, buffer)
        .build(&mut manager);
    assert_eq!(refused.err(), Some(BuildError::Misaligned));
    // The alignment is that of the backend.
    assert_eq!(12 % wgpu::MAP_ALIGNMENT, 4);
    assert_eq!(UNIFORM.size % wgpu::MAP_ALIGNMENT, 0);
    let first = BindGroupBuilder::new(None).bind_uniform_buffer(0, VERTEX, UNIFORM, buffer).build(&mut manager).ok().unwrap();
    assert_eq!(first.index(), 0);
}

#[test]
fn a_storage_binding_that_outgrows_the_address_type_is_refused() {
    let mut manager = RenderManager::new(800, 600);
    let buffer = uniform(&mut manager, 1);
    let refused = BindGroupBuilder::new(None)
        .bind_storage_buffer(0, COMPUTE, false, Some(u64::MAX), UNIFORM, buffer)
        .build(&mut manager);
    assert_eq!(refused.err(), Some(BuildError::TooLarge));
}

#[test]
fn the_first_misuse_is_reported() {
    let mut manager = RenderManager::new(800, 600);
    let odd = ElementType { id: 3002, size: 12 };
    let buffer = uniform(&mut manager, 1);
    let refused = BindGroupBuilder::new(None)
        .bind_storage_buffer(0, COMPUTE, false, Some(u64::MAX), UNIFORM, buffer)
        .bind_uniform_buffer(1, VERTEX, odd, buffer)
        .build(&mut manager);
    assert_eq!(refused.err(), Some(BuildError::TooLarge));
    let refused = BindGroupBuilder::new(None)
        .bind_uniform_buffer(1, VERTEX, odd, buffer)
        .bind_storage_buffer(0, COMPUTE, false, Some(u64::MAX), UNIFORM, buffer)
        .build(&mut manager);
    assert_eq!(refused.err(), Some(BuildError::Misaligned));
}

#[test]
fn every_dependency_has_to_resolve() {
    let mut other = RenderManager::new(1, 1);
    let far_buffer = {
        uniform(&mut other, 1);
        uniform(&mut other, 1)
    };
    let far_texture = TextureBuilder::new(None, TextureFormat::R8Uint, TEXEL).size_1d(1).build(&mut other).ok().unwrap();
    let far_sampler = TextureSamplerBuilder::new(None).build(&mut other);

    let mut manager = RenderManager::new(800, 600);
    let buffer = uniform(&mut manager, 1);
    let sample = TextureSampleType::Uint;

    let refused = BindGroupBuilder::new(None)
        .bind_sampler(0, FRAGMENT, SamplerBindingType::Filtering, far_sampler)
        .bind_texture(1, FRAGMENT, sample, TextureViewDimension::D1, false, far_texture)
        .bind_uniform_buffer(2, VERTEX, UNIFORM, far_buffer)
        .build(&mut manager);
    // Buffers are looked at first, whatever the order of the slots.
    assert_eq!(refused.err(), Some(BuildError::InvalidHandle(ResourceKind::Buffer)));

    let refused = BindGroupBuilder::new(None)
        .bind_sampler(0, FRAGMENT, SamplerBindingType::Filtering, far_sampler)
        .bind_texture(1, FRAGMENT, sample, TextureViewDimension::D1, false, far_texture)
        .bind_uniform_buffer(2, VERTEX, UNIFORM, buffer)
        .build(&mut manager);
    assert_eq!(refused.err(), Some(BuildError::InvalidHandle(ResourceKind::Texture)));

    let refused = BindGroupBuilder::new(None)
        .bind_sampler(0, FRAGMENT, SamplerBindingType::Filtering, far_sampler)
        .bind_uniform_buffer(2, VERTEX, UNIFORM, buffer)
        .build(&mut manager);
    assert_eq!(refused.err(), Some(BuildError::InvalidHandle(ResourceKind::Sampler)));

    // Nothing was registered.
    let first = BindGroupBuilder::new(None).build(&mut manager).ok().unwrap();
    assert_eq!(first.index(), 0);
    assert!(manager.get_bind_group(first).unwrap().resolved().is_empty());
}

#[test]
fn a_reallocated_buffer_is_bound_anew() {
    let mut manager = RenderManager::new(800, 600);
    let buffer = uniform(&mut manager, 1);
    let group = BindGroupBuilder::new(None).bind_uniform_buffer(0, VERTEX, UNIFORM, buffer).build(&mut manager).ok().unwrap();
    assert_eq!(bound_generations(&manager, group), vec![(0, buffer.index(), 0)]);

    // Ten elements into room for one.
    let outcome = manager.write_to_buffer(buffer, UNIFORM, &[0u8; 160]).ok().unwrap();
    assert!(outcome.reallocated);
    assert!(outcome.rebuilt == vec![group]);
    let current = manager.get_buffer(buffer).unwrap().generation();
    assert_ne!(current, 0);
    assert_eq!(bound_generations(&manager, group), vec![(0, buffer.index(), current)]);
    assert_eq!(manager.get_buffer(buffer).unwrap().capacity(), 160);
}

#[test]
fn a_write_in_place_rebuilds_nothing() {
    let mut manager = RenderManager::new(800, 600);
    let buffer = uniform(&mut manager, 4);
    let group = BindGroupBuilder::new(None).bind_uniform_buffer(0, VERTEX, UNIFORM, buffer).build(&mut manager).ok().unwrap();
    let outcome = manager.write_to_buffer(buffer, UNIFORM, &[0u8; 64]).ok().unwrap();
    assert!(!outcome.reallocated);
    assert!(outcome.rebuilt.is_empty());
    assert_eq!(bound_generations(&manager, group), vec![(0, buffer.index(), 0)]);
}

#[test]
fn only_the_dependents_are_rebuilt_and_each_once() {
    let mut manager = RenderManager::new(800, 600);
    let grown = uniform(&mut manager, 1);
    let other = uniform(&mut manager, 1);
    let twice = BindGroupBuilder::new(None)
        .bind_uniform_buffer(0, VERTEX, UNIFORM, grown)
        .bind_uniform_buffer(1, VERTEX, UNIFORM, grown)
        .build(&mut manager)
        .ok()
        .unwrap();
    let unrelated = BindGroupBuilder::new(None).bind_uniform_buffer(0, VERTEX, UNIFORM, other).build(&mut manager).ok().unwrap();
    let mixed = BindGroupBuilder::new(None)
        .bind_uniform_buffer(0, VERTEX, UNIFORM, other)
        .bind_uniform_buffer(1, VERTEX, UNIFORM, grown)
        .build(&mut manager)
        .ok()
        .unwrap();

    let outcome = manager.write_to_buffer(grown, UNIFORM, &[0u8; 32]).ok().unwrap();
    assert!(outcome.reallocated);
    assert!(outcome.rebuilt == vec![twice, mixed]);
    let current = manager.get_buffer(grown).unwrap().generation();
    assert_eq!(bound_generations(&manager, twice), vec![(0, grown.index(), current), (1, grown.index(), current)]);
    assert_eq!(bound_generations(&manager, unrelated), vec![(0, other.index(), 0)]);
    assert_eq!(bound_generations(&manager, mixed), vec![(0, other.index(), 0), (1, grown.index(), current)]);
}

#[test]
fn a_refused_write_rebuilds_nothing() {
    let mut manager = RenderManager::new(800, 600);
    let buffer = uniform(&mut manager, 1);
    let group = BindGroupBuilder::new(None).bind_uniform_buffer(0, VERTEX, UNIFORM, buffer).build(&mut manager).ok().unwrap();
    let refused = manager.write_to_buffer(buffer, TEXEL, &[0u8; 160]);
    assert_eq!(refused.err(), Some(WriteError::TypeMismatch));
    assert_eq!(bound_generations(&manager, group), vec![(0, buffer.index(), 0)]);
}

#[test]
fn recreate_is_idempotent() {
    let mut manager = RenderManager::new(800, 600);
    let buffer = uniform(&mut manager, 1);
    let texture = TextureBuilder::new(None, TextureFormat::R8Uint, TEXEL).size_2d(2, 2).build(&mut manager).ok().unwrap();
    let group = BindGroupBuilder::new(None)
        .bind_uniform_buffer(0, VERTEX, UNIFORM, buffer)
        .bind_texture(1, FRAGMENT, TextureSampleType::Uint, TextureViewDimension::D2, false, texture)
        .build(&mut manager)
        .ok()
        .unwrap();
    manager.write_to_buffer(buffer, UNIFORM, &[0u8; 160]).ok().unwrap();

    assert!(manager.recreate_bind_group(group).is_ok());
    let once = manager.get_bind_group(group).unwrap().resolved().clone();
    let layout = manager.get_bind_group(group).unwrap().layout();
    assert!(manager.recreate_bind_group(group).is_ok());
    let twice = manager.get_bind_group(group).unwrap().resolved().clone();
    assert!(once == twice);
    assert_eq!(manager.get_bind_group(group).unwrap().layout(), layout);
    assert!(once[0].resource == BoundResource::Buffer { buffer, generation: manager.get_buffer(buffer).unwrap().generation() });
    assert!(once[1].resource == BoundResource::Texture { texture, generation: 0 });
}

#[test]
fn recreate_of_an_unknown_bind_group_is_refused() {
    let mut other = RenderManager::new(1, 1);
    let elsewhere = BindGroupBuilder::new(None).build(&mut other).ok().unwrap();
    let mut manager = RenderManager::new(1, 1);
    assert_eq!(manager.recreate_bind_group(elsewhere).err(), Some(WriteError::InvalidHandle));
}

#[test]
fn a_resized_texture_is_bound_anew() {
    let mut manager = RenderManager::new(800, 600);
    let texture = TextureBuilder::new(None, TextureFormat::R8Uint, TEXEL).size_2d(2, 2).build(&mut manager).ok().unwrap();
    let other = TextureBuilder::new(None, TextureFormat::R8Uint, TEXEL).size_2d(2, 2).build(&mut manager).ok().unwrap();
    let sample = TextureSampleType::Uint;
    let group = BindGroupBuilder::new(None)
        .bind_texture(0, FRAGMENT, sample, TextureViewDimension::D2, false, texture)
        .build(&mut manager)
        .ok()
        .unwrap();
    let unrelated = BindGroupBuilder::new(None)
        .bind_texture(0, FRAGMENT, sample, TextureViewDimension::D2, false, other)
        .build(&mut manager)
        .ok()
        .unwrap();
    let rebuilt = manager.resize_texture(texture, TextureSize::D2(8, 8)).ok().unwrap();
    assert!(rebuilt == vec![group]);
    let current = manager.get_texture(texture).unwrap().generation();
    assert_ne!(current, 0);
    assert!(manager.get_bind_group(group).unwrap().resolved()[0].resource == BoundResource::Texture { texture, generation: current });
    assert!(manager.get_bind_group(unrelated).unwrap().resolved()[0].resource == BoundResource::Texture { texture: other, generation: 0 });
}
