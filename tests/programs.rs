use three_d::buffer::{ElementBuffer, VertexBuffer};
use three_d::context::{Command, Context, DrawCall, TextureKind};
use three_d::error::{Error, ShaderStage};
use three_d::format::{DataType, Format, Interpolation, Wrapping};
use three_d::program::{Program, ProgramReport};
use three_d::state::{Cull, DepthTest, RenderStates, WriteMask};
use three_d::texture::{CPUTexture, Texture2D};

fn report() -> ProgramReport {
    ProgramReport {
        vertex_log: None,
        fragment_log: None,
        link_log: None,
        uniforms: vec![("tex".to_string(), 3), ("scale".to_string(), 5), ("tex".to_string(), 9)],
        attributes: vec![("position".to_string(), 0)],
    }
}

#[test]
fn compile_errors_are_reported_in_stage_order() {
    let mut ctx = Context::new(1, 1);
    let id = Program::compile(&mut ctx, "vs", "fs").unwrap();
    assert_eq!(
        ctx.commands()[0],
        Command::CreateProgram { id, vertex_source: "vs".to_string(), fragment_source: "fs".to_string() }
    );
    let mut r = report();
    r.fragment_log = Some("frag broke".to_string());
    r.link_log = Some("link broke".to_string());
    assert_eq!(
        Program::from_report(&mut ctx, id, r.clone()).err(),
        Some(Error::ShaderCompileError { stage: ShaderStage::Fragment, log: "frag broke".to_string() })
    );
    assert_eq!(ctx.commands().last(), Some(&Command::DeleteProgram { id }));
    r.vertex_log = Some("vert broke".to_string());
    assert_eq!(
        Program::from_report(&mut ctx, id, r.clone()).err(),
        Some(Error::ShaderCompileError { stage: ShaderStage::Vertex, log: "vert broke".to_string() })
    );
    let mut l = report();
    l.link_log = Some("link broke".to_string());
    assert_eq!(Program::from_report(&mut ctx, id, l).err(), Some(Error::ShaderLinkError { log: "link broke".to_string() }));
}

#[test]
fn bindings_resolve_first_name_or_report_unknown() {
    let mut ctx = Context::new(1, 1);
    let id = Program::compile(&mut ctx, "vs", "fs").unwrap();
    let before = ctx.commands().clone();
    let p = Program::from_report(&mut ctx, id, report()).unwrap();
    assert_eq!(ctx.commands(), &before);
    assert_eq!(p.uniform_location("tex"), Ok(3));
    assert_eq!(p.uniform_location("scale"), Ok(5));
    assert_eq!(p.uniform_location("color"), Err(Error::UnknownBinding { name: "color".to_string() }));
    assert_eq!(p.attribute_location("position"), Ok(0));
    assert_eq!(p.attribute_location("tex"), Err(Error::UnknownBinding { name: "tex".to_string() }));
    assert_eq!(p.add_uniform_int("scale", -2), Ok(DrawCall::UniformInt { program: id, location: 5, value: -2 }));
    let t = Texture2D::new(
        &mut ctx,
        &CPUTexture {
            data: vec![0u8; 4],
            width: 1,
            height: 1,
            format: Format::RGBA,
            data_type: DataType::U8,
            min_filter: Interpolation::Nearest,
            mag_filter: Interpolation::Nearest,
            mip_map_filter: None,
            wrap_s: Wrapping::Repeat,
            wrap_t: Wrapping::MirroredRepeat,
            wrap_r: Wrapping::Repeat,
        },
    )
    .unwrap();
    assert_eq!(
        p.use_texture("tex", &t),
        Ok(DrawCall::UseTexture { program: id, location: 3, texture: t.id(), kind: TextureKind::Texture2D })
    );
    assert_eq!(p.use_texture("nope", &t), Err(Error::UnknownBinding { name: "nope".to_string() }));
}

#[test]
fn buffers_upload_once_and_draws_use_their_length() {
    let mut ctx = Context::new(1, 1);
    let id = Program::compile(&mut ctx, "vs", "fs").unwrap();
    let p = Program::from_report(&mut ctx, id, report()).unwrap();
    let e = ElementBuffer::new_with(&mut ctx, &[0, 1, 2, 2, 3, 0]).unwrap();
    assert_eq!(ctx.commands().last(), Some(&Command::CreateElementBuffer { id: e.id(), data: vec![0, 1, 2, 2, 3, 0] }));
    let v = VertexBuffer::new_with(&mut ctx, &[1, 2, 3, 4]).unwrap();
    assert_eq!(ctx.commands().last(), Some(&Command::CreateVertexBuffer { id: v.id(), data: vec![1, 2, 3, 4] }));
    assert_eq!((e.count(), v.len()), (6, 4));
    let state = RenderStates { cull: Cull::Back, depth_test: DepthTest::LessOrEqual, write_mask: WriteMask::ColorAndDepth };
    assert_eq!(
        p.draw_elements_instanced(&e, 7, state),
        DrawCall::Elements { program: id, elements: e.id(), count: 6, instances: 7, state }
    );
    assert_eq!(p.draw_elements(&e, state), DrawCall::Elements { program: id, elements: e.id(), count: 6, instances: 1, state });
    assert_eq!(
        p.use_attribute("position", &v, 3, 1),
        Ok(DrawCall::UseAttribute { program: id, location: 0, buffer: v.id(), components: 3, divisor: 1 })
    );
    let eid = e.id();
    e.delete(&mut ctx);
    assert_eq!(ctx.commands().last(), Some(&Command::DeleteBuffer { id: eid }));
    p.delete(&mut ctx);
    assert_eq!(ctx.commands().last(), Some(&Command::DeleteProgram { id }));
}

#[test]
fn default_render_states() {
    let s = RenderStates::default();
    assert_eq!(s, RenderStates { cull: Cull::Nothing, depth_test: DepthTest::Less, write_mask: WriteMask::ColorAndDepth });
}
