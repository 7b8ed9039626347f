use petra::bind_group::{BindGroupBuilder, BoundResource, ShaderStages, TextureSampleType, TextureViewDimension};
use petra::buffer::{BufferBuilder, ElementType};
use petra::manager::RenderManager;
use petra::texture::{Extent3d, Scale, SurfaceConfiguration, TextureBuilder, TextureFormat, TextureHandle, TextureSize};

const TEXEL: ElementType = ElementType { id: 4000, size: 4 };
const FRAGMENT: ShaderStages = ShaderStages { vertex: false, fragment: true, compute: false };

fn texture(manager: &mut RenderManager, size: TextureSize) -> TextureHandle {
    let builder = TextureBuilder::new(None, TextureFormat::Rgba8Unorm, TEXEL).texture();
    let builder = match size {
        TextureSize::D1(x) => builder.size_1d(x),
        TextureSize::D2(x, y) => builder.size_2d(x, y),
        TextureSize::D3(x, y, z) => builder.size_3d(x, y, z),
        TextureSize::Surface => builder.size_framebuffer(),
        TextureSize::ScaledSurface(x, y) => builder.size_scaled_framebuffer(x, y),
    };
    builder.build(manager).ok().unwrap()
}

fn sampled(manager: &mut RenderManager, textures: &[TextureHandle]) -> petra::bind_group::BindGroupHandle {
    let mut builder = BindGroupBuilder::new(None);
    for (slot, texture) in textures.iter().enumerate() {
        builder = builder.bind_texture(
            slot as u32,
            FRAGMENT,
            TextureSampleType::Float { filterable: true },
            TextureViewDimension::D2,
            false,
            *texture,
        );
    }
    builder.build(manager).ok().unwrap()
}

#[test]
fn resize_sets_the_surface_size() {
    let mut manager = RenderManager::new(800, 600);
    assert_eq!(manager.config(), SurfaceConfiguration { width: 800, height: 600 });
    let outcome = manager.resize(1024, 768);
    assert_eq!(manager.config(), SurfaceConfiguration { width: 1024, height: 768 });
    assert!(outcome.textures.is_empty());
    assert!(outcome.bind_groups.is_empty());
}

#[test]
fn textures_that_follow_the_surface_are_reallocated() {
    let mut manager = RenderManager::new(800, 600);
    let fixed = texture(&mut manager, TextureSize::D2(16, 16));
    let screen = texture(&mut manager, TextureSize::Surface);
    let half = Scale { numerator: 1, denominator: 2 };
    let scaled = texture(&mut manager, TextureSize::ScaledSurface(half, half));
    assert_eq!(manager.get_texture(scaled).unwrap().extent(), Extent3d { width: 400, height: 300, depth_or_array_layers: 1 });

    let outcome = manager.resize(1024, 768);
    assert!(outcome.textures == vec![screen, scaled]);
    assert_eq!(manager.get_texture(fixed).unwrap().extent(), Extent3d { width: 16, height: 16, depth_or_array_layers: 1 });
    assert_eq!(manager.get_texture(fixed).unwrap().generation(), 0);
    assert_eq!(manager.get_texture(screen).unwrap().extent(), Extent3d { width: 1024, height: 768, depth_or_array_layers: 1 });
    assert_eq!(manager.get_texture(screen).unwrap().generation(), 1);
    assert_eq!(manager.get_texture(scaled).unwrap().extent(), Extent3d { width: 512, height: 384, depth_or_array_layers: 1 });
    assert_eq!(manager.get_texture(scaled).unwrap().generation(), 1);
    assert_eq!(manager.get_texture(screen).unwrap().size(), TextureSize::Surface);
}

#[test]
fn one_resize_rebuilds_each_dependent_bind_group_once() {
    let mut manager = RenderManager::new(800, 600);
    let screen = texture(&mut manager, TextureSize::Surface);
    let first = sampled(&mut manager, &[screen]);
    let second = sampled(&mut manager, &[screen]);

    let outcome = manager.resize(1024, 768);
    assert!(outcome.textures == vec![screen]);
    assert!(outcome.bind_groups == vec![first, second]);
    for group in [first, second] {
        let resolved = manager.get_bind_group(group).unwrap().resolved();
        assert!(resolved[0].resource == BoundResource::Texture { texture: screen, generation: 1 });
    }
    // Frames that follow rebuild nothing: drawing never changes the context.
    assert!(manager.render().is_ok());
    assert!(manager.render().is_ok());
    for group in [first, second] {
        let resolved = manager.get_bind_group(group).unwrap().resolved();
        assert!(resolved[0].resource == BoundResource::Texture { texture: screen, generation: 1 });
    }
}

#[test]
fn a_bind_group_on_two_resized_textures_is_rebuilt_once() {
    let mut manager = RenderManager::new(800, 600);
    let screen = texture(&mut manager, TextureSize::Surface);
    let half = Scale { numerator: 1, denominator: 2 };
    let scaled = texture(&mut manager, TextureSize::ScaledSurface(half, half));
    let fixed = texture(&mut manager, TextureSize::D2(4, 4));
    let both = sampled(&mut manager, &[screen, scaled, fixed]);
    let none = sampled(&mut manager, &[fixed]);

    let outcome = manager.resize(100, 100);
    assert!(outcome.textures == vec![screen, scaled]);
    assert!(outcome.bind_groups == vec![both]);
    let resolved = manager.get_bind_group(both).unwrap().resolved();
    assert!(resolved[0].resource == BoundResource::Texture { texture: screen, generation: 1 });
    assert!(resolved[1].resource == BoundResource::Texture { texture: scaled, generation: 1 });
    assert!(resolved[2].resource == BoundResource::Texture { texture: fixed, generation: 0 });
    let resolved = manager.get_bind_group(none).unwrap().resolved();
    assert!(resolved[0].resource == BoundResource::Texture { texture: fixed, generation: 0 });
}

#[test]
fn a_repeated_resize_is_safe() {
    let mut manager = RenderManager::new(800, 600);
    let screen = texture(&mut manager, TextureSize::Surface);
    let group = sampled(&mut manager, &[screen]);
    let once = manager.resize(1024, 768);
    let again = manager.resize(1024, 768);
    assert!(once.textures == again.textures);
    assert!(once.bind_groups == again.bind_groups);
    assert_eq!(manager.config(), SurfaceConfiguration { width: 1024, height: 768 });
    assert_eq!(manager.get_texture(screen).unwrap().extent(), Extent3d { width: 1024, height: 768, depth_or_array_layers: 1 });
    // Whatever the texture was moved to, the bind group points at it.
    let current = manager.get_texture(screen).unwrap().generation();
    let resolved = manager.get_bind_group(group).unwrap().resolved();
    assert!(resolved[0].resource == BoundResource::Texture { texture: screen, generation: current });
}

#[test]
fn buffers_are_not_touched_by_a_resize() {
    let mut manager = RenderManager::new(800, 600);
    let element = ElementType { id: 4001, size: 16 };
    let buffer = BufferBuilder::new(None, element).uniform().build(&mut manager, 1).ok().unwrap();
    let group = BindGroupBuilder::new(None)
        .bind_uniform_buffer(0, ShaderStages { vertex: true, fragment: false, compute: false }, element, buffer)
        .build(&mut manager)
        .ok()
        .unwrap();
    let outcome = manager.resize(10, 10);
    assert!(outcome.bind_groups.is_empty());
    assert_eq!(manager.get_buffer(buffer).unwrap().generation(), 0);
    assert!(manager.get_bind_group(group).unwrap().resolved()[0].resource == BoundResource::Buffer { buffer, generation: 0 });
}
