use petra::buffer::ElementType;
use petra::error::{BuildError, WriteError};
use petra::manager::RenderManager;
use petra::texel::{Bgra, Depth, Norm, Srgb, Stencil, TextureContents};
use petra::texture::{
    framebuffer, Extent3d, ImageDataLayout, Scale, SurfaceConfiguration, TextureBuilder, TextureDimension,
    TextureFormat, TextureSize, TextureUsages,
};

const TEXEL: ElementType = ElementType { id: 2000, size: 4 };
const SURFACE: SurfaceConfiguration = SurfaceConfiguration { width: 800, height: 600 };

fn half() -> Scale {
    Scale { numerator: 1, denominator: 2 }
}

#[test]
fn fixed_sizes_ignore_the_surface() {
    assert_eq!(TextureSize::D1(7).get_size(&SURFACE), Extent3d { width: 7, height: 1, depth_or_array_layers: 1 });
    assert_eq!(TextureSize::D2(7, 9).get_size(&SURFACE), Extent3d { width: 7, height: 9, depth_or_array_layers: 1 });
    assert_eq!(
        TextureSize::D3(7, 9, 11).get_size(&SURFACE),
        Extent3d { width: 7, height: 9, depth_or_array_layers: 11 }
    );
}

#[test]
fn surface_sizes_follow_the_surface() {
    assert_eq!(
        TextureSize::Surface.get_size(&SURFACE),
        Extent3d { width: 800, height: 600, depth_or_array_layers: 1 }
    );
    assert_eq!(
        TextureSize::ScaledSurface(half(), Scale { numerator: 3, denominator: 1 }).get_size(&SURFACE),
        Extent3d { width: 400, height: 1800, depth_or_array_layers: 1 }
    );
}

#[test]
fn scales_round_down_and_saturate() {
    assert_eq!(half().apply(641), 320);
    assert_eq!(half().apply(1), 0);
    assert_eq!(Scale { numerator: 2, denominator: 3 }.apply(100), 66);
    assert_eq!(Scale { numerator: 1, denominator: 1 }.apply(u32::MAX), u32::MAX);
    assert_eq!(Scale { numerator: u32::MAX, denominator: 1 }.apply(u32::MAX), u32::MAX);
    assert_eq!(Scale { numerator: 2, denominator: 1 }.apply(u32::MAX), u32::MAX);
    assert_eq!(Scale { numerator: 5, denominator: 0 }.apply(100), 0);
    assert_eq!(Scale { numerator: 0, denominator: 4 }.apply(100), 0);
}

#[test]
fn dimension_of_each_size() {
    assert_eq!(TextureSize::D1(1).get_dimension(), TextureDimension::D1);
    assert_eq!(TextureSize::D2(1, 1).get_dimension(), TextureDimension::D2);
    assert_eq!(TextureSize::D3(1, 1, 1).get_dimension(), TextureDimension::D3);
    assert_eq!(TextureSize::Surface.get_dimension(), TextureDimension::D2);
    assert_eq!(TextureSize::ScaledSurface(half(), half()).get_dimension(), TextureDimension::D2);
}

#[test]
fn bytes_per_row() {
    assert_eq!(TextureSize::D1(16).get_bytes_per_row(4, &SURFACE), Ok(None));
    assert_eq!(TextureSize::D2(16, 2).get_bytes_per_row(4, &SURFACE), Ok(Some(64)));
    assert_eq!(TextureSize::D3(16, 2, 2).get_bytes_per_row(2, &SURFACE), Ok(Some(32)));
    assert_eq!(TextureSize::Surface.get_bytes_per_row(4, &SURFACE), Ok(Some(3200)));
    assert_eq!(TextureSize::ScaledSurface(half(), half()).get_bytes_per_row(4, &SURFACE), Ok(Some(1600)));
    // A row without bytes is no row.
    assert_eq!(TextureSize::D2(0, 2).get_bytes_per_row(4, &SURFACE), Ok(None));
    assert_eq!(TextureSize::D2(16, 2).get_bytes_per_row(0, &SURFACE), Ok(None));
    // The longest row that can be described, and the first that cannot.
    assert_eq!(TextureSize::D2(u32::MAX, 1).get_bytes_per_row(1, &SURFACE), Ok(Some(u32::MAX)));
    assert_eq!(TextureSize::D2(0x8000_0000, 1).get_bytes_per_row(2, &SURFACE), Err(WriteError::RowTooLong));
    assert_eq!(TextureSize::D2(u32::MAX, 1).get_bytes_per_row(u32::MAX, &SURFACE), Err(WriteError::RowTooLong));
}

#[test]
fn rows_per_image() {
    assert_eq!(TextureSize::D1(4).get_rows_per_image(), None);
    assert_eq!(TextureSize::D2(4, 5).get_rows_per_image(), None);
    assert_eq!(TextureSize::Surface.get_rows_per_image(), None);
    assert_eq!(TextureSize::ScaledSurface(half(), half()).get_rows_per_image(), None);
    assert_eq!(TextureSize::D3(4, 5, 6).get_rows_per_image(), Some(5));
    assert_eq!(TextureSize::D3(4, 0, 6).get_rows_per_image(), None);
}

#[test]
fn a_texture_needs_a_size() {
    let mut manager = RenderManager::new(800, 600);
    let refused = TextureBuilder::new(Some("nothing"), TextureFormat::R32Uint, TEXEL).build(&mut manager);
    assert_eq!(refused.err(), Some(BuildError::MissingSize));
    let first = TextureBuilder::new(None, TextureFormat::R32Uint, TEXEL).size_1d(4).build(&mut manager).ok().unwrap();
    assert_eq!(first.index(), 0);
}

#[test]
fn build_registers_what_was_configured() {
    let mut manager = RenderManager::new(800, 600);
    let texture = TextureBuilder::new(Some("target"), TextureFormat::Rgba8Unorm, TEXEL)
        .size_2d(64, 32)
        .texture()
        .storage()
        .render_attachment()
        .copy_src()
        .copy_dst()
        .build(&mut manager)
        .ok()
        .unwrap();
    let held = manager.get_texture(texture).unwrap();
    assert_eq!(held.name(), Some("target"));
    assert_eq!(held.size(), TextureSize::D2(64, 32));
    assert_eq!(held.extent(), Extent3d { width: 64, height: 32, depth_or_array_layers: 1 });
    assert_eq!(held.format(), TextureFormat::Rgba8Unorm);
    assert_eq!(held.mip_level_count(), 1);
    assert_eq!(held.sample_count(), 1);
    assert_eq!(held.data_type(), TEXEL);
    assert_eq!(held.generation(), 0);
    assert_eq!(
        held.usage(),
        TextureUsages {
            copy_src: true,
            copy_dst: true,
            texture_binding: true,
            storage_binding: true,
            render_attachment: true,
        }
    );
    let plain = TextureBuilder::new(None, TextureFormat::R8Uint, TEXEL).size_3d(1, 2, 3).build(&mut manager).ok().unwrap();
    assert_eq!(manager.get_texture(plain).unwrap().usage(), TextureUsages::empty());
    assert_eq!(manager.get_texture(plain).unwrap().size(), TextureSize::D3(1, 2, 3));
}

#[test]
fn the_last_size_wins() {
    let mut manager = RenderManager::new(800, 600);
    let texture = TextureBuilder::new(None, TextureFormat::R8Uint, TEXEL)
        .size_1d(4)
        .size_scaled_framebuffer(half(), half())
        .size_framebuffer()
        .build(&mut manager)
        .ok()
        .unwrap();
    assert_eq!(manager.get_texture(texture).unwrap().size(), TextureSize::Surface);
    assert_eq!(
        manager.get_texture(texture).unwrap().extent(),
        Extent3d { width: 800, height: 600, depth_or_array_layers: 1 }
    );
}

#[test]
fn resize_keeps_the_dimensionality() {
    let mut manager = RenderManager::new(800, 600);
    let line = TextureBuilder::new(None, TextureFormat::R8Uint, TEXEL).size_1d(4).build(&mut manager).ok().unwrap();
    let plane = TextureBuilder::new(None, TextureFormat::R8Uint, TEXEL).size_2d(4, 4).build(&mut manager).ok().unwrap();
    let cube = TextureBuilder::new(None, TextureFormat::R8Uint, TEXEL).size_3d(4, 4, 4).build(&mut manager).ok().unwrap();

    assert!(manager.resize_texture(line, TextureSize::D1(9)).is_ok());
    assert_eq!(manager.get_texture(line).unwrap().extent(), Extent3d { width: 9, height: 1, depth_or_array_layers: 1 });
    assert_eq!(manager.get_texture(line).unwrap().generation(), 1);

    assert!(manager.resize_texture(plane, TextureSize::D2(9, 8)).is_ok());
    assert_eq!(manager.get_texture(plane).unwrap().size(), TextureSize::D2(9, 8));
    assert_eq!(manager.get_texture(plane).unwrap().extent(), Extent3d { width: 9, height: 8, depth_or_array_layers: 1 });

    assert!(manager.resize_texture(cube, TextureSize::D3(9, 8, 7)).is_ok());
    assert_eq!(manager.get_texture(cube).unwrap().extent(), Extent3d { width: 9, height: 8, depth_or_array_layers: 7 });

    // Every resize reallocates, also one to the size the texture has.
    assert!(manager.resize_texture(cube, TextureSize::D3(9, 8, 7)).is_ok());
    assert_eq!(manager.get_texture(cube).unwrap().generation(), 2);
}

#[test]
fn resize_across_dimensionalities_is_refused() {
    let mut manager = RenderManager::new(800, 600);
    let plane = TextureBuilder::new(None, TextureFormat::R8Uint, TEXEL).size_2d(4, 4).build(&mut manager).ok().unwrap();
    let screen = TextureBuilder::new(None, TextureFormat::R8Uint, TEXEL).size_framebuffer().build(&mut manager).ok().unwrap();
    for size in [
        TextureSize::D1(2),
        TextureSize::D3(2, 2, 2),
        TextureSize::Surface,
        TextureSize::ScaledSurface(half(), half()),
    ] {
        assert_eq!(manager.resize_texture(plane, size).err(), Some(WriteError::DimensionMismatch));
    }
    // A texture that follows the surface has no extents of its own to change.
    assert_eq!(manager.resize_texture(screen, TextureSize::D2(2, 2)).err(), Some(WriteError::DimensionMismatch));
    assert_eq!(manager.get_texture(plane).unwrap().size(), TextureSize::D2(4, 4));
    assert_eq!(manager.get_texture(plane).unwrap().generation(), 0);
    assert_eq!(manager.get_texture(screen).unwrap().generation(), 0);
}

#[test]
fn resize_of_an_unknown_texture_is_refused() {
    let mut other = RenderManager::new(1, 1);
    TextureBuilder::new(None, TextureFormat::R8Uint, TEXEL).size_1d(1).build(&mut other).ok().unwrap();
    let beyond = TextureBuilder::new(None, TextureFormat::R8Uint, TEXEL).size_1d(1).build(&mut other).ok().unwrap();
    let mut manager = RenderManager::new(1, 1);
    assert_eq!(manager.resize_texture(beyond, TextureSize::D1(2)).err(), Some(WriteError::InvalidHandle));
}

#[test]
fn write_checks_the_texel_type() {
    let mut manager = RenderManager::new(800, 600);
    let texture = TextureBuilder::new(None, TextureFormat::Rgba8Unorm, TEXEL).size_2d(16, 8).build(&mut manager).ok().unwrap();
    let held = manager.get_texture(texture).unwrap();
    assert_eq!(
        held.write_data(TEXEL, &SURFACE),
        Ok(ImageDataLayout {
            bytes_per_row: Some(64),
            rows_per_image: None,
            extent: Extent3d { width: 16, height: 8, depth_or_array_layers: 1 },
        })
    );
    assert_eq!(held.write_data(ElementType { id: 2001, size: 4 }, &SURFACE), Err(WriteError::TypeMismatch));
    assert_eq!(held.write_data(ElementType { id: 2000, size: 8 }, &SURFACE), Err(WriteError::TypeMismatch));
}

#[test]
fn write_layout_of_each_dimensionality() {
    let mut manager = RenderManager::new(800, 600);
    let line = TextureBuilder::new(None, TextureFormat::R32Uint, TEXEL).size_1d(16).build(&mut manager).ok().unwrap();
    assert_eq!(
        manager.get_texture(line).unwrap().write_data(TEXEL, &SURFACE),
        Ok(ImageDataLayout {
            bytes_per_row: None,
            rows_per_image: None,
            extent: Extent3d { width: 16, height: 1, depth_or_array_layers: 1 },
        })
    );
    let cube = TextureBuilder::new(None, TextureFormat::R32Uint, TEXEL).size_3d(16, 8, 4).build(&mut manager).ok().unwrap();
    assert_eq!(
        manager.get_texture(cube).unwrap().write_data(TEXEL, &SURFACE),
        Ok(ImageDataLayout {
            bytes_per_row: Some(64),
            rows_per_image: Some(8),
            extent: Extent3d { width: 16, height: 8, depth_or_array_layers: 4 },
        })
    );
    let screen = TextureBuilder::new(None, TextureFormat::R32Uint, TEXEL).size_framebuffer().build(&mut manager).ok().unwrap();
    assert_eq!(
        manager.get_texture(screen).unwrap().write_data(TEXEL, &SURFACE),
        Ok(ImageDataLayout {
            bytes_per_row: Some(3200),
            rows_per_image: None,
            extent: Extent3d { width: 800, height: 600, depth_or_array_layers: 1 },
        })
    );
}

#[test]
fn write_of_rows_that_cannot_be_described_is_refused() {
    let mut manager = RenderManager::new(800, 600);
    let wide = ElementType { id: 2002, size: 16 };
    let texture = TextureBuilder::new(None, TextureFormat::Rgba32Uint, wide)
        .size_2d(0x1000_0000, 1)
        .build(&mut manager)
        .ok()
        .unwrap();
    assert_eq!(manager.get_texture(texture).unwrap().write_data(wide, &SURFACE), Err(WriteError::RowTooLong));
    let huge = ElementType { id: 2003, size: 0x1_0000_0000 };
    let texture = TextureBuilder::new(None, TextureFormat::Rgba32Uint, huge).size_2d(1, 1).build(&mut manager).ok().unwrap();
    assert_eq!(manager.get_texture(texture).unwrap().write_data(huge, &SURFACE), Err(WriteError::RowTooLong));
}

#[test]
fn the_framebuffer_is_the_first_handle() {
    assert_eq!(framebuffer().index(), 0);
    assert!(framebuffer() == framebuffer());
}

#[test]
fn texel_types_name_their_format() {
    assert_eq!(<u8 as TextureContents>::texel().format, TextureFormat::R8Uint);
    assert_eq!(<i8 as TextureContents>::texel().format, TextureFormat::R8Sint);
    assert_eq!(<u16 as TextureContents>::texel().format, TextureFormat::R16Uint);
    assert_eq!(<[u8; 2] as TextureContents>::texel().format, TextureFormat::Rg8Uint);
    assert_eq!(<u32 as TextureContents>::texel().format, TextureFormat::R32Uint);
    assert_eq!(<[u16; 2] as TextureContents>::texel().format, TextureFormat::Rg16Uint);
    assert_eq!(<[u8; 4] as TextureContents>::texel().format, TextureFormat::Rgba8Uint);
    assert_eq!(<[i32; 2] as TextureContents>::texel().format, TextureFormat::Rg32Sint);
    assert_eq!(<[u16; 4] as TextureContents>::texel().format, TextureFormat::Rgba16Uint);
    assert_eq!(<[u32; 4] as TextureContents>::texel().format, TextureFormat::Rgba32Uint);
    assert_eq!(<Norm<u8> as TextureContents>::texel().format, TextureFormat::R8Unorm);
    assert_eq!(<Norm<i8> as TextureContents>::texel().format, TextureFormat::R8Snorm);
    assert_eq!(<Norm<[u8; 4]> as TextureContents>::texel().format, TextureFormat::Rgba8Unorm);
    assert_eq!(<Srgb<Norm<[u8; 4]>> as TextureContents>::texel().format, TextureFormat::Rgba8UnormSrgb);
    assert_eq!(<Bgra<Norm<[u8; 4]>> as TextureContents>::texel().format, TextureFormat::Bgra8Unorm);
    assert_eq!(<Srgb<Bgra<Norm<[u8; 4]>>> as TextureContents>::texel().format, TextureFormat::Bgra8UnormSrgb);
    assert_eq!(<Norm<[i16; 4]> as TextureContents>::texel().format, TextureFormat::Rgba16Snorm);
    assert_eq!(<Stencil<u8> as TextureContents>::texel().format, TextureFormat::Stencil8);
    assert_eq!(<Depth<u16> as TextureContents>::texel().format, TextureFormat::Depth16Unorm);
    assert_eq!(<Depth<Norm<i16>> as TextureContents>::texel().format, TextureFormat::Depth16Unorm);
}

#[test]
fn texel_types_have_the_width_of_their_data() {
    assert_eq!(<u8 as TextureContents>::texel().data_type.size, 1);
    assert_eq!(<[u8; 2] as TextureContents>::texel().data_type.size, 2);
    assert_eq!(<[u16; 2] as TextureContents>::texel().data_type.size, 4);
    assert_eq!(<[u32; 2] as TextureContents>::texel().data_type.size, 8);
    assert_eq!(<[i32; 4] as TextureContents>::texel().data_type.size, 16);
    assert_eq!(<Norm<[u16; 4]> as TextureContents>::texel().data_type.size, 8);
    assert_eq!(<Stencil<i8> as TextureContents>::texel().data_type.size, 1);
    assert_eq!(<Depth<Norm<u16>> as TextureContents>::texel().data_type.size, 2);
}

#[test]
fn texel_types_with_one_format_stay_apart() {
    // Two texel types may share a pixel format; a texture still takes writes
    // of the one it was declared with only.
    let plain = <Depth<u16> as TextureContents>::texel();
    let normalized = <Depth<Norm<u16>> as TextureContents>::texel();
    assert_eq!(plain.format, normalized.format);
    assert_ne!(plain.data_type, normalized.data_type);

    let mut manager = RenderManager::new(800, 600);
    let texture = manager.texture_builder::<Depth<u16>>(None).size_2d(4, 4).build(&mut manager).ok().unwrap();
    let held = manager.get_texture(texture).unwrap();
    assert_eq!(held.format(), TextureFormat::Depth16Unorm);
    assert!(held.write_data(plain.data_type, &SURFACE).is_ok());
    assert_eq!(held.write_data(normalized.data_type, &SURFACE), Err(WriteError::TypeMismatch));
}

#[test]
fn texel_tokens_are_distinct() {
    let all = [
        <u8 as TextureContents>::texel(),
        <i8 as TextureContents>::texel(),
        <u16 as TextureContents>::texel(),
        <i16 as TextureContents>::texel(),
        <[u8; 2] as TextureContents>::texel(),
        <[i8; 2] as TextureContents>::texel(),
        <u32 as TextureContents>::texel(),
        <i32 as TextureContents>::texel(),
        <[u16; 2] as TextureContents>::texel(),
        <[i16; 2] as TextureContents>::texel(),
        <[u8; 4] as TextureContents>::texel(),
        <[i8; 4] as TextureContents>::texel(),
        <[u32; 2] as TextureContents>::texel(),
        <[i32; 2] as TextureContents>::texel(),
        <[u16; 4] as TextureContents>::texel(),
        <[i16; 4] as TextureContents>::texel(),
        <[u32; 4] as TextureContents>::texel(),
        <[i32; 4] as TextureContents>::texel(),
        <Norm<u8> as TextureContents>::texel(),
        <Norm<i8> as TextureContents>::texel(),
        <Norm<u16> as TextureContents>::texel(),
        <Norm<i16> as TextureContents>::texel(),
        <Norm<[u8; 2]> as TextureContents>::texel(),
        <Norm<[i8; 2]> as TextureContents>::texel(),
        <Norm<[u16; 2]> as TextureContents>::texel(),
        <Norm<[i16; 2]> as TextureContents>::texel(),
        <Norm<[u8; 4]> as TextureContents>::texel(),
        <Srgb<Norm<[u8; 4]>> as TextureContents>::texel(),
        <Norm<[i8; 4]> as TextureContents>::texel(),
        <Bgra<Norm<[u8; 4]>> as TextureContents>::texel(),
        <Srgb<Bgra<Norm<[u8; 4]>>> as TextureContents>::texel(),
        <Norm<[u16; 4]> as TextureContents>::texel(),
        <Norm<[i16; 4]> as TextureContents>::texel(),
        <Stencil<u8> as TextureContents>::texel(),
        <Stencil<i8> as TextureContents>::texel(),
        <Depth<u16> as TextureContents>::texel(),
        <Depth<i16> as TextureContents>::texel(),
        <Depth<Norm<u16>> as TextureContents>::texel(),
        <Depth<Norm<i16>> as TextureContents>::texel(),
    ];
    for (i, a) in all.iter().enumerate() {
        assert!((256..512).contains(&a.data_type.id));
        for (j, b) in all.iter().enumerate() {
            assert_eq!(i == j, a.data_type.id == b.data_type.id);
        }
    }
}
