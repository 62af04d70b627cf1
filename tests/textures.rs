use three_d::context::{Command, Context, CubeMapSide, Image, Layer, TextureKind};
use three_d::error::Error;
use three_d::format::{calculate_number_of_mip_maps, DataType, Format, Interpolation, Wrapping};
use three_d::texture::{CPUTexture, Texture2D, TextureCubeMap};

fn cpu(width: u32, height: u32, data: Vec<u8>, mip_map_filter: Option<Interpolation>) -> CPUTexture {
    CPUTexture {
        data,
        width,
        height,
        format: Format::RGBA,
        data_type: DataType::U8,
        min_filter: Interpolation::Linear,
        mag_filter: Interpolation::Linear,
        mip_map_filter,
        wrap_s: Wrapping::ClampToEdge,
        wrap_t: Wrapping::ClampToEdge,
        wrap_r: Wrapping::ClampToEdge,
    }
}

#[test]
fn texture_2d_fill_scenario() {
    let mut ctx = Context::new(640, 480);
    let mut t = Texture2D::new(&mut ctx, &cpu(4, 4, vec![0u8; 64], None)).unwrap();
    assert_eq!(t.number_of_mip_maps(), 1);
    assert!(t.fill(&mut ctx, &vec![7u8; 64]).is_ok());
    let before = ctx.commands().clone();
    assert_eq!(t.fill(&mut ctx, &vec![7u8; 32]), Err(Error::SizeMismatch));
    assert_eq!(ctx.commands(), &before);
}

#[test]
fn texture_2d_new_records_storage_and_upload() {
    let mut ctx = Context::new(1, 1);
    let data: Vec<u8> = (0..64).collect();
    let t = Texture2D::new(&mut ctx, &cpu(4, 4, data.clone(), Some(Interpolation::Nearest))).unwrap();
    assert_eq!(t.number_of_mip_maps(), 3);
    let c = ctx.commands();
    assert_eq!(c.len(), 5);
    assert_eq!(c[0], Command::CreateTexture { id: t.id(), kind: TextureKind::Texture2D });
    assert_eq!(
        c[2],
        Command::AllocateStorage {
            id: t.id(),
            kind: TextureKind::Texture2D,
            levels: 3,
            width: 4,
            height: 4,
            format: Format::RGBA,
            data_type: DataType::U8,
        }
    );
    match &c[3] {
        Command::Upload { image, data: d, .. } => {
            assert_eq!(*image, Image { texture: t.id(), layer: Layer::Plane, level: 0 });
            assert_eq!(d, &data);
        }
        other => panic!("unexpected {:?}", other),
    }
    assert_eq!(c[4], Command::GenerateMipmap { id: t.id(), kind: TextureKind::Texture2D });
}

#[test]
fn texture_2d_new_with_wrong_length_records_nothing() {
    let mut ctx = Context::new(1, 1);
    assert!(matches!(Texture2D::new(&mut ctx, &cpu(4, 4, vec![0u8; 63], None)), Err(Error::SizeMismatch)));
    assert!(ctx.commands().is_empty());
}

#[test]
fn texture_float_length_counts_element_bytes() {
    let mut ctx = Context::new(1, 1);
    let mut c = cpu(2, 2, vec![0u8; 16], None);
    c.data_type = DataType::F32;
    assert!(matches!(Texture2D::new(&mut ctx, &c), Err(Error::SizeMismatch)));
    c.data = vec![0u8; 64];
    let t = Texture2D::new(&mut ctx, &c).unwrap();
    assert!(t.is_hdr());
    let u = Texture2D::new(&mut ctx, &cpu(2, 2, vec![0u8; 16], None)).unwrap();
    assert!(!u.is_hdr());
}

#[test]
fn mip_chain_depth() {
    let f = Some(Interpolation::Linear);
    assert_eq!(calculate_number_of_mip_maps(f, 256, 256), 9);
    assert_eq!(calculate_number_of_mip_maps(f, 256, 128), 9);
    assert_eq!(calculate_number_of_mip_maps(f, 1, 1), 1);
    assert_eq!(calculate_number_of_mip_maps(f, 4, 16), 5);
    assert_eq!(calculate_number_of_mip_maps(f, 100, 100), 1);
    assert_eq!(calculate_number_of_mip_maps(f, 64, 48), 1);
    assert_eq!(calculate_number_of_mip_maps(f, 0, 4), 1);
    assert_eq!(calculate_number_of_mip_maps(None, 256, 256), 1);
    assert_eq!(calculate_number_of_mip_maps(f, 2147483648, 1), 32);
}

#[test]
fn cube_map_new_scenario() {
    let mut ctx = Context::new(1, 1);
    assert!(TextureCubeMap::new(&mut ctx, &cpu(2, 2, vec![0u8; 96], None)).is_ok());
    let before = ctx.commands().clone();
    assert!(matches!(TextureCubeMap::new(&mut ctx, &cpu(2, 2, vec![0u8; 80], None)), Err(Error::SizeMismatch)));
    assert_eq!(ctx.commands(), &before);
}

#[test]
fn cube_map_length_must_be_exactly_six_faces() {
    let mut ctx = Context::new(1, 1);
    assert!(matches!(TextureCubeMap::new(&mut ctx, &cpu(2, 2, vec![0u8; 97], None)), Err(Error::SizeMismatch)));
    assert!(matches!(TextureCubeMap::new(&mut ctx, &cpu(2, 2, vec![0u8; 16], None)), Err(Error::SizeMismatch)));
    assert!(ctx.commands().is_empty());
}

#[test]
fn cube_map_faces_are_sliced_in_order() {
    let mut ctx = Context::new(1, 1);
    let data: Vec<u8> = (0..96).collect();
    let t = TextureCubeMap::new(&mut ctx, &cpu(2, 2, data.clone(), None)).unwrap();
    let c = ctx.commands();
    assert_eq!(c.len(), 3 + 6);
    let sides = CubeMapSide::iter();
    for i in 0..6 {
        match &c[3 + i] {
            Command::Upload { image, data: d, width, height, .. } => {
                assert_eq!(*image, Image { texture: t.id(), layer: Layer::Face(sides[i]), level: 0 });
                assert_eq!(d.as_slice(), &data[i * 16..(i + 1) * 16]);
                assert_eq!((*width, *height), (2, 2));
            }
            other => panic!("unexpected {:?}", other),
        }
    }
}

#[test]
fn cube_map_fill_keeps_state_on_mismatch() {
    let mut ctx = Context::new(1, 1);
    let mut t = TextureCubeMap::new(&mut ctx, &cpu(2, 2, vec![0u8; 96], Some(Interpolation::Linear))).unwrap();
    assert_eq!(t.number_of_mip_maps(), 2);
    let before = ctx.commands().clone();
    assert_eq!(t.fill(&mut ctx, &vec![1u8; 95]), Err(Error::SizeMismatch));
    assert_eq!(ctx.commands(), &before);
    assert!(t.fill(&mut ctx, &vec![1u8; 96]).is_ok());
    let c = ctx.commands();
    assert_eq!(c.len(), before.len() + 7);
    assert_eq!(c[c.len() - 1], Command::GenerateMipmap { id: t.id(), kind: TextureKind::CubeMap });
}

#[test]
fn cube_map_new_empty_and_accessors() {
    let mut ctx = Context::new(1, 1);
    let t = TextureCubeMap::new_empty(
        &mut ctx,
        8,
        8,
        Interpolation::Linear,
        Interpolation::Linear,
        Some(Interpolation::Linear),
        Wrapping::Repeat,
        Wrapping::Repeat,
        Wrapping::Repeat,
        Format::RGB,
        DataType::F16,
    )
    .unwrap();
    assert_eq!((t.width(), t.height(), t.format()), (8, 8, Format::RGB));
    assert_eq!(t.number_of_mip_maps(), 4);
    assert!(t.is_hdr());
    let c = ctx.commands();
    assert_eq!(c.len(), 4);
    assert_eq!(c[3], Command::GenerateMipmap { id: t.id(), kind: TextureKind::CubeMap });
    let id = t.id();
    t.delete(&mut ctx);
    assert_eq!(ctx.commands().last(), Some(&Command::DeleteTexture { id }));
}

#[test]
fn non_power_of_two_parameters_drop_mip_filter() {
    let mut ctx = Context::new(1, 1);
    let t = Texture2D::new(&mut ctx, &cpu(3, 3, vec![0u8; 36], Some(Interpolation::Linear))).unwrap();
    assert_eq!(t.number_of_mip_maps(), 1);
    match &ctx.commands()[1] {
        Command::SetParameters { mip_map_filter, .. } => assert_eq!(*mip_map_filter, None),
        other => panic!("unexpected {:?}", other),
    }
}

#[test]
fn take_commands_drains_queue() {
    let mut ctx = Context::new(1, 1);
    let _t = Texture2D::new(&mut ctx, &cpu(1, 1, vec![0u8; 4], None)).unwrap();
    let taken = ctx.take_commands();
    assert_eq!(taken.len(), 4);
    assert!(ctx.commands().is_empty());
    assert_eq!(ctx.handles_left(), u32::MAX - 2);
}
