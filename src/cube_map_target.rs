use vstd::prelude::*;
use crate::context::{alters, side_at, Command, Context, CubeMapSide, DrawCall, Image, Layer, Target};
use crate::error::Error;
use crate::format::{has_image_len, image_len, mip_levels, DataType, Format, Interpolation, Wrapping};
use crate::render_target::{
    begin_commands, cube_texture, cube_texture_of, end_commands, face_of, face_of_exec, is_write_of,
    target_of, write_commands, write_draws, RenderTargetCubeMap,
};
use crate::state::ClearState;
use crate::texture::{emitted, extends, lemma_extends_trans, CPUTexture, Texture2D, TextureCubeMap, TextureInfo};

verus! {

/// Vertex stage of the projection pass: a unit cube seen from its center.
pub const CUBE_EFFECT_VERTEX_SOURCE: &'static str = "uniform mat4 viewProjection;
in vec3 position;
out vec3 pos;
void main()
{
    pos = position;
    gl_Position = viewProjection * vec4(position, 1.0);
}";

/// Fragment stage of the projection pass: samples an equirectangular image in
/// the direction of the fragment.
pub const EQUIRECTANGULAR_FRAGMENT_SOURCE: &'static str = "uniform sampler2D equirectangularMap;
const vec2 invAtan = vec2(0.1591, 0.3183);
in vec3 pos;
layout (location = 0) out vec4 outColor;
vec2 sample_spherical_map(vec3 v)
{
    vec2 uv = vec2(atan(v.z, v.x), asin(v.y));
    uv *= invAtan;
    uv += 0.5;
    return vec2(uv.x, 1.0 - uv.y);
}
void main()
{
    vec2 uv = sample_spherical_map(normalize(pos));
    outColor = vec4(texture(equirectangularMap, uv).rgb, 1.0);
}";

/// The draw of the pass that projects the texture `source` onto face `side`
/// of the cube map `texture` with the program `program`.
pub open spec fn projection_pass(texture: u32, source: u32, program: u32, side: CubeMapSide) -> Command {
    Command::Draw {
        target: Target { color: Some(Image { texture, layer: Layer::Face(side), level: 0 }), depth: None },
        call: DrawCall::CubeEffect { program, source, side },
    }
}

impl TextureCubeMap {
    /// Renders into face `side`, base level, through [`RenderTargetCubeMap::write`].
    /// No other face and no other texture is written.
    pub fn write<F: FnOnce(&mut Vec<DrawCall>) -> Result<(), Error>>(
        &self,
        ctx: &mut Context,
        side: CubeMapSide,
        clear_state: ClearState,
        render: F,
    ) -> (r: Result<(), Error>)
        requires
            old(ctx).wf(),
            forall|d: &mut Vec<DrawCall>| call_requires(render, (d,)),
        ensures
            final(ctx).wf(),
            self@.levels == 0 ==> r == Err::<(), Error>(Error::InvalidAttachment) && *final(ctx) == *old(ctx),
            self@.levels > 0 && !old(ctx).has_handles(1)
                ==> r == Err::<(), Error>(Error::DeviceError) && *final(ctx) == *old(ctx),
            self@.levels > 0 && old(ctx).has_handles(1) ==> {
                &&& is_write_of(emitted(old(ctx).recorded(), final(ctx).recorded()), old(ctx).next_handle(),
                    old(ctx).bound_framebuffer(), face_of(Some(cube_texture_of(self@)), side, 0), None, clear_state)
                &&& exists|d: &mut Vec<DrawCall>| call_ensures(render, (d,), r)
            },
            extends(old(ctx).recorded(), final(ctx).recorded()),
            final(ctx).bound_framebuffer() == old(ctx).bound_framebuffer(),
            forall|i: int, texture: u32, layer: Layer|
                0 <= i < emitted(old(ctx).recorded(), final(ctx).recorded()).len()
                && !(texture == self@.id && layer == Layer::Face(side))
                ==> !(#[trigger] alters(emitted(old(ctx).recorded(), final(ctx).recorded())[i], texture, layer)),
    {
        RenderTargetCubeMap::new_color(self).write(ctx, side, clear_state, render)
    }

    /// Renders into face `side` at mip level `mip_level`. A level that the mip
    /// chain does not have fails with `InvalidAttachment`. No other face and no
    /// other texture is written.
    pub fn write_to_mip_level<F: FnOnce(&mut Vec<DrawCall>) -> Result<(), Error>>(
        &self,
        ctx: &mut Context,
        side: CubeMapSide,
        mip_level: u32,
        clear_state: ClearState,
        render: F,
    ) -> (r: Result<(), Error>)
        requires
            old(ctx).wf(),
            forall|d: &mut Vec<DrawCall>| call_requires(render, (d,)),
        ensures
            final(ctx).wf(),
            mip_level >= self@.levels ==> r == Err::<(), Error>(Error::InvalidAttachment) && *final(ctx) == *old(ctx),
            mip_level < self@.levels && !old(ctx).has_handles(1)
                ==> r == Err::<(), Error>(Error::DeviceError) && *final(ctx) == *old(ctx),
            mip_level < self@.levels && old(ctx).has_handles(1) ==> {
                &&& is_write_of(emitted(old(ctx).recorded(), final(ctx).recorded()), old(ctx).next_handle(),
                    old(ctx).bound_framebuffer(), face_of(Some(cube_texture_of(self@)), side, mip_level), None,
                    clear_state)
                &&& exists|d: &mut Vec<DrawCall>| call_ensures(render, (d,), r)
            },
            extends(old(ctx).recorded(), final(ctx).recorded()),
            final(ctx).bound_framebuffer() == old(ctx).bound_framebuffer(),
            forall|i: int, texture: u32, layer: Layer|
                0 <= i < emitted(old(ctx).recorded(), final(ctx).recorded()).len()
                && !(texture == self@.id && layer == Layer::Face(side))
                ==> !(#[trigger] alters(emitted(old(ctx).recorded(), final(ctx).recorded())[i], texture, layer)),
    {
        RenderTargetCubeMap::new_color(self).write_to_mip_level(ctx, side, mip_level, clear_state, render)
    }

    /// Derives a cube map from an equirectangular image: allocates an empty
    /// RGBA cube map whose faces are a quarter of the image's width on each
    /// side, uploads the image as a 2D texture, and renders it onto each of the
    /// six faces, one pass per face, through the projection program, which
    /// looks down the face's axis with a 90° field of view and samples the
    /// image by the spherical direction-to-coordinate mapping. The image and
    /// the program are released afterwards. Fails with `SizeMismatch` when the
    /// image's data does not match its size and format, and with `DeviceError`
    /// when the nine handles it needs are not left; either way nothing is
    /// recorded.
    pub fn new_from_equirectangular(
        ctx: &mut Context,
        cpu_texture: &CPUTexture,
        data_type: DataType,
    ) -> (r: Result<TextureCubeMap, Error>)
        requires
            old(ctx).wf(),
        ensures
            final(ctx).wf(),
            cpu_texture.data@.len() != image_len(cpu_texture.width as nat, cpu_texture.height as nat,
                cpu_texture.format, cpu_texture.data_type)
                ==> r == Err::<TextureCubeMap, Error>(Error::SizeMismatch),
            cpu_texture.data@.len() == image_len(cpu_texture.width as nat, cpu_texture.height as nat,
                cpu_texture.format, cpu_texture.data_type) && !old(ctx).has_handles(9)
                ==> r == Err::<TextureCubeMap, Error>(Error::DeviceError),
            r.is_err() ==> *final(ctx) == *old(ctx),
            r matches Ok(t) ==> {
                let n = old(ctx).next_handle();
                &&& t@ == (TextureInfo {
                    id: n,
                    width: cpu_texture.width / 4,
                    height: cpu_texture.width / 4,
                    format: Format::RGBA,
                    data_type,
                    levels: mip_levels(Some(Interpolation::Linear), (cpu_texture.width / 4) as nat,
                        (cpu_texture.width / 4) as nat) as u32,
                })
                &&& extends(old(ctx).recorded(), final(ctx).recorded())
                &&& forall|j: int| #![trigger side_at(j as nat)] 0 <= j < 6 ==> exists|k: int|
                    old(ctx).recorded().len() <= k < final(ctx).recorded().len()
                    && #[trigger] final(ctx).recorded()[k] == projection_pass(n, (n + 1) as u32, (n + 2) as u32,
                        side_at(j as nat))
                &&& final(ctx).next_handle() == n + 9
                &&& final(ctx).bound_framebuffer() == old(ctx).bound_framebuffer()
            },
            r.is_ok() <==> cpu_texture.data@.len() == image_len(cpu_texture.width as nat,
                cpu_texture.height as nat, cpu_texture.format, cpu_texture.data_type) && old(ctx).has_handles(9),
    {
        if !has_image_len(cpu_texture.width, cpu_texture.height, cpu_texture.format,
            cpu_texture.data_type, 1, cpu_texture.data.len()) {
            return Err(Error::SizeMismatch);
        }
        if ctx.handles_left() < 9 {
            return Err(Error::DeviceError);
        }
        let ghost start = ctx.recorded();
        let ghost n = ctx.next_handle();
        let size = cpu_texture.width / 4;
        let texture = match TextureCubeMap::new_empty(ctx, size, size, Interpolation::Linear,
            Interpolation::Linear, Some(Interpolation::Linear), Wrapping::ClampToEdge,
            Wrapping::ClampToEdge, Wrapping::ClampToEdge, Format::RGBA, data_type) {
            Ok(t) => t,
            Err(e) => {
                return Err(e);
            },
        };
        let ghost r1 = ctx.recorded();
        let map = match Texture2D::new(ctx, cpu_texture) {
            Ok(m) => m,
            Err(e) => {
                return Err(e);
            },
        };
        let ghost r2 = ctx.recorded();
        let program = match ctx.generate() {
            Ok(p) => p,
            Err(e) => {
                return Err(e);
            },
        };
        ctx.push(Command::CreateProgram {
            id: program,
            vertex_source: CUBE_EFFECT_VERTEX_SOURCE.to_owned(),
            fragment_source: EQUIRECTANGULAR_FRAGMENT_SOURCE.to_owned(),
        });
        proof {
            assert(r1.subrange(0, start.len() as int) =~= start);
            lemma_extends_trans(start, r1, r2);
            assert(ctx.recorded().subrange(0, r2.len() as int) =~= r2);
            lemma_extends_trans(start, r2, ctx.recorded());
        }
        let source = map.id();
        let target = cube_texture(&texture);
        let mut i: u32 = 0;
        while i < 6
            invariant
                i <= 6,
                ctx.wf(),
                n + 9 <= u32::MAX,
                ctx.next_handle() == n + 3 + i,
                ctx.bound_framebuffer() == old(ctx).bound_framebuffer(),
                extends(start, ctx.recorded()),
                start == old(ctx).recorded(),
                source == n + 1,
                program == n + 2,
                target == cube_texture_of(texture@),
                texture@.id == n,
                texture@.levels >= 1,
                forall|j: int| #![trigger side_at(j as nat)] 0 <= j < i ==> exists|k: int|
                    start.len() <= k < ctx.recorded().len()
                    && #[trigger] ctx.recorded()[k] == projection_pass(n, source, program, side_at(j as nat)),
            decreases 6 - i,
        {
            let side = CubeMapSide::from_index(i);
            let draws: Vec<DrawCall> = vec![DrawCall::CubeEffect { program, source, side }];
            let color = face_of_exec(Some(target), side, 0);
            let clear = ClearState::none();
            let ghost before = ctx.recorded();
            let ghost framebuffer = ctx.next_handle();
            match write_draws(ctx, color, None, clear, &draws) {
                Ok(()) => {},
                Err(e) => {
                    return Err(e);
                },
            }
            proof {
                let pb = old(ctx).bound_framebuffer();
                let b = begin_commands(framebuffer, color, None, clear);
                let e = end_commands(framebuffer, pb, color, None, draws@);
                let w = write_commands(framebuffer, pb, color, None, clear, draws@);
                let k: int = before.len() as int + b.len() as int;
                assert(draws@[0] == DrawCall::CubeEffect { program, source, side });
                assert(e[0] == Command::Draw { target: target_of(color, None), call: draws@[0] });
                assert(w[b.len() as int] == e[0]);
                assert(ctx.recorded()[k] == w[b.len() as int]);
                assert(ctx.recorded()[k] == projection_pass(n, source, program, side));
                assert(ctx.recorded().subrange(0, start.len() as int) =~= before.subrange(0, start.len() as int));
                assert forall|j: int| #![trigger side_at(j as nat)] 0 <= j < i + 1 implies exists|k2: int|
                    start.len() <= k2 < ctx.recorded().len()
                    && #[trigger] ctx.recorded()[k2] == projection_pass(n, source, program, side_at(j as nat)) by {
                    if j < i {
                        let k0 = choose|k0: int| start.len() <= k0 < before.len()
                            && #[trigger] before[k0] == projection_pass(n, source, program, side_at(j as nat));
                        assert(ctx.recorded()[k0] == before[k0]);
                    } else {
                        assert(ctx.recorded()[k] == projection_pass(n, source, program, side_at(j as nat)));
                    }
                }
            }
            i = i + 1;
        }
        let ghost r4 = ctx.recorded();
        map.delete(ctx);
        ctx.push(Command::DeleteProgram { id: program });
        proof {
            assert(ctx.recorded().subrange(0, r4.len() as int) =~= r4);
            lemma_extends_trans(start, r4, ctx.recorded());
            assert forall|j: int| #![trigger side_at(j as nat)] 0 <= j < 6 implies exists|k: int|
                start.len() <= k < ctx.recorded().len()
                && #[trigger] ctx.recorded()[k] == projection_pass(n, source, program, side_at(j as nat)) by {
                let k0 = choose|k0: int| start.len() <= k0 < r4.len()
                    && #[trigger] r4[k0] == projection_pass(n, source, program, side_at(j as nat));
                assert(ctx.recorded()[k0] == r4[k0]);
            }
        }
        Ok(texture)
    }
}

} // verus!
