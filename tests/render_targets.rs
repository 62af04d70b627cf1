use three_d::context::{Command, Context, CubeMapSide, DrawCall, Image, Layer, Slot, Target, TextureKind};
use three_d::error::Error;
use three_d::format::{DataType, Format, Interpolation, Wrapping};
use three_d::render_target::{RenderTarget, RenderTargetCubeMap};
use three_d::state::{ClearState, RenderStates};
use three_d::texture::{CPUTexture, Texture2D, TextureCubeMap};

fn cpu(width: u32, height: u32, format: Format, mip_map_filter: Option<Interpolation>) -> CPUTexture {
    let channels = match format {
        Format::R | Format::Depth => 1,
        Format::RG => 2,
        Format::RGB => 3,
        Format::RGBA => 4,
    };
    CPUTexture {
        data: vec![0u8; (width * height * channels) as usize],
        width,
        height,
        format,
        data_type: DataType::U8,
        min_filter: Interpolation::Linear,
        mag_filter: Interpolation::Linear,
        mip_map_filter,
        wrap_s: Wrapping::ClampToEdge,
        wrap_t: Wrapping::ClampToEdge,
        wrap_r: Wrapping::ClampToEdge,
    }
}

fn empty_cube(ctx: &mut Context, size: u32) -> TextureCubeMap {
    TextureCubeMap::new_empty(
        ctx,
        size,
        size,
        Interpolation::Linear,
        Interpolation::Linear,
        Some(Interpolation::Linear),
        Wrapping::ClampToEdge,
        Wrapping::ClampToEdge,
        Wrapping::ClampToEdge,
        Format::RGBA,
        DataType::U8,
    )
    .unwrap()
}

fn draw(program: u32) -> DrawCall {
    DrawCall::Elements { program, elements: 1, count: 3, instances: 1, state: RenderStates::default() }
}

#[test]
fn mismatched_attachment_sizes_fail_before_clear() {
    let mut ctx = Context::new(1, 1);
    let color = Texture2D::new(&mut ctx, &cpu(4, 4, Format::RGBA, None)).unwrap();
    let depth = Texture2D::new(&mut ctx, &cpu(8, 8, Format::Depth, None)).unwrap();
    let before = ctx.commands().clone();
    let mut ran = false;
    let r = RenderTarget::new(Some(&color), Some(&depth)).write(&mut ctx, ClearState::color_and_depth(0, 0, 0, 255, u32::MAX), |_d: &mut Vec<DrawCall>| {
        ran = true;
        Ok(())
    });
    assert_eq!(r, Err(Error::InvalidAttachment));
    assert!(!ran);
    assert_eq!(ctx.commands(), &before);
}

#[test]
fn write_records_scoped_protocol() {
    let mut ctx = Context::new(1, 1);
    let color = Texture2D::new(&mut ctx, &cpu(4, 4, Format::RGBA, Some(Interpolation::Linear))).unwrap();
    let depth = Texture2D::new(&mut ctx, &cpu(4, 4, Format::Depth, None)).unwrap();
    ctx.take_commands();
    let fbo_id = ctx.handles_left();
    let r = RenderTarget::new(Some(&color), Some(&depth)).write(&mut ctx, ClearState::color(1, 2, 3, 4), |d: &mut Vec<DrawCall>| {
        d.push(draw(9));
        d.push(draw(10));
        Ok(())
    });
    assert_eq!(r, Ok(()));
    let fbo = u32::MAX - fbo_id;
    let c = ctx.commands();
    let target = Target {
        color: Some(Image { texture: color.id(), layer: Layer::Plane, level: 0 }),
        depth: Some(Image { texture: depth.id(), layer: Layer::Plane, level: 0 }),
    };
    let expected = vec![
        Command::CreateFramebuffer { id: fbo },
        Command::BindFramebuffer { id: fbo },
        Command::Attach { slot: Slot::Color, image: Image { texture: color.id(), layer: Layer::Plane, level: 0 } },
        Command::Attach { slot: Slot::Depth, image: Image { texture: depth.id(), layer: Layer::Plane, level: 0 } },
        Command::Clear { target, color: ClearState::color(1, 2, 3, 4).color, depth: None },
        Command::Draw { target, call: draw(9) },
        Command::Draw { target, call: draw(10) },
        Command::BindFramebuffer { id: 0 },
        Command::DeleteFramebuffer { id: fbo },
        Command::GenerateMipmap { id: color.id(), kind: TextureKind::Texture2D },
    ];
    assert_eq!(c, &expected);
    assert_eq!(ctx.framebuffer(), 0);
}

#[test]
fn failing_callback_still_restores_binding() {
    let mut ctx = Context::new(1, 1);
    let color = Texture2D::new(&mut ctx, &cpu(2, 2, Format::RGBA, Some(Interpolation::Linear))).unwrap();
    ctx.take_commands();
    let r = RenderTarget::new_color(&color).write(&mut ctx, ClearState::none(), |d: &mut Vec<DrawCall>| {
        d.push(draw(1));
        Err(Error::UnknownBinding { name: "missing".to_string() })
    });
    assert_eq!(r, Err(Error::UnknownBinding { name: "missing".to_string() }));
    assert_eq!(ctx.framebuffer(), 0);
    let c = ctx.commands();
    let binds: Vec<&Command> = c.iter().filter(|x| matches!(x, Command::BindFramebuffer { .. })).collect();
    assert_eq!(binds.last(), Some(&&Command::BindFramebuffer { id: 0 }));
    assert_eq!(c.last(), Some(&Command::GenerateMipmap { id: color.id(), kind: TextureKind::Texture2D }));
    assert!(!c.iter().any(|x| matches!(x, Command::Clear { .. })));
}

#[test]
fn screen_write_binds_default_framebuffer() {
    let mut ctx = Context::new(800, 600);
    let r = RenderTarget::screen().write(&mut ctx, ClearState::depth(7), |d: &mut Vec<DrawCall>| {
        d.push(draw(3));
        Ok(())
    });
    assert_eq!(r, Ok(()));
    let target = Target { color: None, depth: None };
    assert_eq!(
        ctx.commands(),
        &vec![
            Command::BindFramebuffer { id: 0 },
            Command::Clear { target, color: None, depth: Some(7) },
            Command::Draw { target, call: draw(3) },
            Command::BindFramebuffer { id: 0 },
        ]
    );
    assert_eq!((ctx.surface_width(), ctx.surface_height()), (800, 600));
}

#[test]
fn invalid_attachment_cases() {
    let mut ctx = Context::new(1, 1);
    let color = Texture2D::new(&mut ctx, &cpu(2, 2, Format::RGBA, None)).unwrap();
    let before = ctx.commands().clone();
    let ok = |_d: &mut Vec<DrawCall>| Ok(());
    assert_eq!(RenderTarget::new(None, None).write(&mut ctx, ClearState::none(), ok), Err(Error::InvalidAttachment));
    let cube = empty_cube(&mut ctx, 4);
    let before_cube = ctx.commands().clone();
    assert_eq!(cube.write_to_mip_level(&mut ctx, CubeMapSide::Top, 3, ClearState::none(), ok), Err(Error::InvalidAttachment));
    assert_eq!(ctx.commands(), &before_cube);
    assert!(cube.write_to_mip_level(&mut ctx, CubeMapSide::Top, 2, ClearState::none(), ok).is_ok());
    assert!(before.len() < ctx.commands().len());
    let _ = color;
}

#[test]
fn cube_face_write_touches_only_that_face() {
    let mut ctx = Context::new(1, 1);
    let cube = empty_cube(&mut ctx, 4);
    ctx.take_commands();
    let r = cube.write(&mut ctx, CubeMapSide::Right, ClearState::color(0, 0, 0, 0), |d: &mut Vec<DrawCall>| {
        d.push(draw(5));
        Ok(())
    });
    assert_eq!(r, Ok(()));
    let face = Image { texture: cube.id(), layer: Layer::Face(CubeMapSide::Right), level: 0 };
    for c in ctx.commands() {
        match c {
            Command::Draw { target, .. } | Command::Clear { target, .. } => {
                assert_eq!(target.color, Some(face));
                assert_eq!(target.depth, None);
            }
            Command::Attach { image, .. } => assert_eq!(*image, face),
            Command::Upload { .. } | Command::DeleteTexture { .. } | Command::AllocateStorage { .. } => {
                panic!("unexpected {:?}", c)
            }
            _ => {}
        }
    }
}

#[test]
fn cube_render_target_with_depth_face() {
    let mut ctx = Context::new(1, 1);
    let color = empty_cube(&mut ctx, 4);
    let depth = empty_cube(&mut ctx, 4);
    let target = RenderTargetCubeMap::new(Some(&color), Some(&depth));
    let ok = |_d: &mut Vec<DrawCall>| Ok(());
    assert!(target.write(&mut ctx, CubeMapSide::Back, ClearState::none(), ok).is_ok());
    assert_eq!(target.write_to_mip_level(&mut ctx, CubeMapSide::Back, 1, ClearState::none(), ok), Err(Error::InvalidAttachment));
    assert!(ctx.commands().contains(&Command::Attach {
        slot: Slot::Depth,
        image: Image { texture: depth.id(), layer: Layer::Face(CubeMapSide::Back), level: 0 },
    }));
}

#[test]
fn equirectangular_renders_each_face_once() {
    let mut ctx = Context::new(1, 1);
    let image = cpu(16, 8, Format::RGBA, None);
    let mut uniform = image.clone();
    uniform.data = [10u8, 20, 30, 255].repeat(16 * 8);
    let cube = TextureCubeMap::new_from_equirectangular(&mut ctx, &uniform, DataType::U8).unwrap();
    assert_eq!((cube.width(), cube.height(), cube.format()), (4, 4, Format::RGBA));
    assert_eq!(cube.number_of_mip_maps(), 3);
    let c = ctx.commands();
    let source = cube.id() + 1;
    let program = cube.id() + 2;
    for side in CubeMapSide::iter() {
        let passes = c
            .iter()
            .filter(|x| matches!(x, Command::Draw { call: DrawCall::CubeEffect { side: s, source: src, program: p }, target }
                if *s == side && *src == source && *p == program
                    && target.color == Some(Image { texture: cube.id(), layer: Layer::Face(side), level: 0 })))
            .count();
        assert_eq!(passes, 1);
    }
    assert!(c.contains(&Command::DeleteTexture { id: source }));
    assert_eq!(c.last(), Some(&Command::DeleteProgram { id: program }));
    assert_eq!(ctx.framebuffer(), 0);
    let mut bad = image.clone();
    bad.data.pop();
    let before = ctx.commands().clone();
    assert!(matches!(TextureCubeMap::new_from_equirectangular(&mut ctx, &bad, DataType::U8), Err(Error::SizeMismatch)));
    assert_eq!(ctx.commands(), &before);
}

#[test]
fn empty_textures_write_and_regenerate() {
    let mut ctx = Context::new(1, 1);
    let color = Texture2D::new_empty(
        &mut ctx,
        8,
        8,
        Interpolation::Linear,
        Interpolation::Linear,
        Some(Interpolation::Nearest),
        Wrapping::ClampToEdge,
        Wrapping::ClampToEdge,
        Format::RGBA,
        DataType::U8,
    )
    .unwrap();
    assert_eq!(color.number_of_mip_maps(), 4);
    let depth = Texture2D::new_empty(
        &mut ctx,
        8,
        8,
        Interpolation::Nearest,
        Interpolation::Nearest,
        None,
        Wrapping::ClampToEdge,
        Wrapping::ClampToEdge,
        Format::Depth,
        DataType::F32,
    )
    .unwrap();
    assert_eq!(depth.number_of_mip_maps(), 1);
    assert_eq!(ctx.commands().len(), 4 + 3);
    let r = RenderTarget::new(Some(&color), Some(&depth)).write(&mut ctx, ClearState::depth(u32::MAX), |_d: &mut Vec<DrawCall>| Ok(()));
    assert_eq!(r, Ok(()));
    assert_eq!(ctx.commands().last(), Some(&Command::GenerateMipmap { id: color.id(), kind: TextureKind::Texture2D }));
    assert_eq!(RenderTarget::new_depth(&depth).write(&mut ctx, ClearState::none(), |_d: &mut Vec<DrawCall>| Ok(())), Ok(()));
}
