use vstd::prelude::*;
use crate::context::{
    binding_after, lemma_binding_after_push, alters, target_writes, Command, Context, CubeMapSide,
    DrawCall, Image, Layer, Slot, Target, TextureKind,
};
use crate::error::Error;
use crate::state::ClearState;
use crate::texture::{emitted, extends, Texture2D, TextureCubeMap, TextureInfo};

verus! {

/// An image attached to a render target, with the sizes and mip-chain depth of
/// the texture it belongs to.
#[derive(Debug, Clone, Copy, PartialEq, Eq, Structural)]
pub struct TextureImage {
    pub image: Image,
    pub width: u32,
    pub height: u32,
    pub levels: u32,
}

/// What a render target writes to in one slot.
#[derive(Debug, Clone, Copy, PartialEq, Eq, Structural)]
pub enum Attachment {
    /// The default surface.
    Screen,
    /// One image of a texture.
    Texture(TextureImage),
}

/// The attachment of `layer` of texture `t` at mip level `level`.
pub open spec fn texture_attachment(t: TextureInfo, layer: Layer, level: u32) -> Attachment {
    Attachment::Texture(TextureImage {
        image: Image { texture: t.id, layer, level },
        width: t.width,
        height: t.height,
        levels: t.levels,
    })
}

/// The size of a mip level: halved once per level, never below one.
pub open spec fn mip_size(n: nat, level: nat) -> nat
    decreases level,
{
    if level == 0 {
        n
    } else {
        let h = mip_size(n, (level - 1) as nat) / 2;
        if h == 0 { 1 } else { h }
    }
}

pub open spec fn is_texture(a: Option<Attachment>) -> bool {
    a matches Some(Attachment::Texture(_))
}

pub open spec fn is_screen(a: Option<Attachment>) -> bool {
    a matches Some(Attachment::Screen)
}

/// The attachment's mip level exists.
pub open spec fn level_in_range(a: Option<Attachment>) -> bool {
    a matches Some(Attachment::Texture(t)) ==> t.image.level < t.levels
}

/// Attachments that a write can bind: at least one; texture levels that exist;
/// the default surface not mixed with texture images; and, when both slots hold
/// texture images, images of the same size.
pub open spec fn valid_attachments(color: Option<Attachment>, depth: Option<Attachment>) -> bool {
    &&& color.is_some() || depth.is_some()
    &&& level_in_range(color)
    &&& level_in_range(depth)
    &&& !(is_screen(color) && is_texture(depth))
    &&& !(is_texture(color) && is_screen(depth))
    &&& same_size(color, depth)
}

/// When both slots hold texture images, the two are of the same size.
pub open spec fn same_size(color: Option<Attachment>, depth: Option<Attachment>) -> bool {
    match (color, depth) {
        (Some(Attachment::Texture(c)), Some(Attachment::Texture(d))) => {
            &&& mip_size(c.width as nat, c.image.level as nat) == mip_size(d.width as nat, d.image.level as nat)
            &&& mip_size(c.height as nat, c.image.level as nat) == mip_size(d.height as nat, d.image.level as nat)
        },
        _ => true,
    }
}

/// A write to texture images goes through a framebuffer object of its own; a
/// write to the default surface binds framebuffer `0`.
pub open spec fn uses_framebuffer_object(color: Option<Attachment>, depth: Option<Attachment>) -> bool {
    is_texture(color) || is_texture(depth)
}

pub open spec fn image_of(a: Option<Attachment>) -> Option<Image> {
    match a {
        Some(Attachment::Texture(t)) => Some(t.image),
        _ => None,
    }
}

pub open spec fn target_of(color: Option<Attachment>, depth: Option<Attachment>) -> Target {
    Target { color: image_of(color), depth: image_of(depth) }
}

/// `layer` of `texture` is one of the attached images.
pub open spec fn is_attached(color: Option<Attachment>, depth: Option<Attachment>, texture: u32, layer: Layer) -> bool {
    target_writes(target_of(color, depth), texture, layer)
}

pub open spec fn attach_commands(slot: Slot, a: Option<Attachment>) -> Seq<Command> {
    match a {
        Some(Attachment::Texture(t)) => seq![Command::Attach { slot, image: t.image }],
        _ => seq![],
    }
}

pub open spec fn clear_commands(target: Target, clear: ClearState) -> Seq<Command> {
    if clear.clears_anything() {
        seq![Command::Clear { target, color: clear.color, depth: clear.depth }]
    } else {
        seq![]
    }
}

pub open spec fn kind_of(layer: Layer) -> TextureKind {
    match layer {
        Layer::Plane => TextureKind::Texture2D,
        Layer::Face(_) => TextureKind::CubeMap,
    }
}

pub open spec fn regenerate_commands(a: Option<Attachment>) -> Seq<Command> {
    match a {
        Some(Attachment::Texture(t)) => if t.levels > 1 {
            seq![Command::GenerateMipmap { id: t.image.texture, kind: kind_of(t.image.layer) }]
        } else {
            seq![]
        },
        _ => seq![],
    }
}

pub open spec fn draw_commands(target: Target, draws: Seq<DrawCall>) -> Seq<Command> {
    Seq::new(draws.len(), |i: int| Command::Draw { target, call: draws[i] })
}

/// What a write records before its callback runs: the framebuffer bound (made
/// first when it is an object of its own), the images attached, the clear.
pub open spec fn begin_commands(
    framebuffer: u32,
    color: Option<Attachment>,
    depth: Option<Attachment>,
    clear: ClearState,
) -> Seq<Command> {
    (if uses_framebuffer_object(color, depth) {
        seq![Command::CreateFramebuffer { id: framebuffer }]
    } else {
        seq![]
    }) + seq![Command::BindFramebuffer { id: framebuffer }] + attach_commands(Slot::Color, color)
        + attach_commands(Slot::Depth, depth) + clear_commands(target_of(color, depth), clear)
}

/// What a write records after its callback: the callback's draws, the earlier
/// binding restored, the framebuffer object released, the mip chains of the
/// attached textures regenerated.
pub open spec fn end_commands(
    framebuffer: u32,
    previous: u32,
    color: Option<Attachment>,
    depth: Option<Attachment>,
    draws: Seq<DrawCall>,
) -> Seq<Command> {
    draw_commands(target_of(color, depth), draws) + seq![Command::BindFramebuffer { id: previous }]
        + (if uses_framebuffer_object(color, depth) {
        seq![Command::DeleteFramebuffer { id: framebuffer }]
    } else {
        seq![]
    }) + regenerate_commands(color) + regenerate_commands(depth)
}

/// Everything that one write records.
pub open spec fn write_commands(
    framebuffer: u32,
    previous: u32,
    color: Option<Attachment>,
    depth: Option<Attachment>,
    clear: ClearState,
    draws: Seq<DrawCall>,
) -> Seq<Command> {
    begin_commands(framebuffer, color, depth, clear) + end_commands(framebuffer, previous, color, depth, draws)
}

/// The framebuffer that a write binds, given the next handle of the context.
pub open spec fn write_framebuffer(next: u32, color: Option<Attachment>, depth: Option<Attachment>) -> u32 {
    if uses_framebuffer_object(color, depth) { next } else { 0 }
}

proof fn lemma_binding_after_tail(start: u32, a: Seq<Command>, b: Seq<Command>)
    requires
        forall|i: int| 0 <= i < b.len() ==> !(#[trigger] b[i] is BindFramebuffer),
    ensures
        binding_after(start, a + b) == binding_after(start, a),
    decreases b.len(),
{
    if b.len() > 0 {
        assert((a + b).drop_last() =~= a + b.drop_last());
        assert(!(b[b.len() - 1] is BindFramebuffer));
        lemma_binding_after_tail(start, a, b.drop_last());
    }
}

/// A write leaves the draw framebuffer binding as it found it, whatever its
/// callback drew and whether or not it failed.
pub proof fn lemma_write_restores_binding(
    framebuffer: u32,
    previous: u32,
    color: Option<Attachment>,
    depth: Option<Attachment>,
    clear: ClearState,
    draws: Seq<DrawCall>,
)
    ensures
        binding_after(previous, write_commands(framebuffer, previous, color, depth, clear, draws)) == previous,
{
    let head = begin_commands(framebuffer, color, depth, clear) + draw_commands(target_of(color, depth), draws);
    let tail = (if uses_framebuffer_object(color, depth) {
        seq![Command::DeleteFramebuffer { id: framebuffer }]
    } else {
        seq![]
    }) + regenerate_commands(color) + regenerate_commands(depth);
    assert(write_commands(framebuffer, previous, color, depth, clear, draws)
        =~= head.push(Command::BindFramebuffer { id: previous }) + tail);
    lemma_binding_after_push(previous, head, Command::BindFramebuffer { id: previous });
    lemma_binding_after_tail(previous, head.push(Command::BindFramebuffer { id: previous }), tail);
}

/// A write changes the pixels of no image but the attached ones.
pub proof fn lemma_write_alters_only_attached(
    framebuffer: u32,
    previous: u32,
    color: Option<Attachment>,
    depth: Option<Attachment>,
    clear: ClearState,
    draws: Seq<DrawCall>,
    texture: u32,
    layer: Layer,
)
    requires
        !is_attached(color, depth, texture, layer),
    ensures
        forall|i: int| 0 <= i < write_commands(framebuffer, previous, color, depth, clear, draws).len()
            ==> !alters(#[trigger] write_commands(framebuffer, previous, color, depth, clear, draws)[i], texture, layer),
{
    let w = write_commands(framebuffer, previous, color, depth, clear, draws);
    let b = begin_commands(framebuffer, color, depth, clear);
    let target = target_of(color, depth);
    assert forall|i: int| 0 <= i < w.len() implies !alters(#[trigger] w[i], texture, layer) by {
        if i < b.len() {
            let p = (if uses_framebuffer_object(color, depth) {
                seq![Command::CreateFramebuffer { id: framebuffer }]
            } else {
                seq![]
            }) + seq![Command::BindFramebuffer { id: framebuffer }] + attach_commands(Slot::Color, color)
                + attach_commands(Slot::Depth, depth);
            assert(b =~= p + clear_commands(target, clear));
            if i < p.len() {
                assert(w[i] == p[i]);
            } else {
                assert(w[i] == clear_commands(target, clear)[i - p.len()]);
            }
        } else {
            let j = i - b.len();
            let d = draw_commands(target, draws);
            if j < d.len() {
                assert(w[i] == d[j]);
            } else {
                let rest = seq![Command::BindFramebuffer { id: previous }]
                    + (if uses_framebuffer_object(color, depth) {
                    seq![Command::DeleteFramebuffer { id: framebuffer }]
                } else {
                    seq![]
                }) + regenerate_commands(color) + regenerate_commands(depth);
                assert(end_commands(framebuffer, previous, color, depth, draws) =~= d + rest);
                assert(w[i] == rest[j - d.len()]);
            }
        }
    }
}

proof fn lemma_mip_size_stays_one(n: nat, a: nat, b: nat)
    requires
        a <= b,
        mip_size(n, a) == 1,
    ensures
        mip_size(n, b) == 1,
    decreases b - a,
{
    if a < b {
        lemma_mip_size_stays_one(n, a, (b - 1) as nat);
    }
}

/// Computes [`mip_size`].
fn mip_size_exec(n: u32, level: u32) -> (r: u32)
    ensures
        r == mip_size(n as nat, level as nat),
{
    let mut s: u32 = n;
    let mut l: u32 = 0;
    while l < level && s != 1
        invariant
            l <= level,
            s == mip_size(n as nat, l as nat),
        decreases level - l,
    {
        s = if s / 2 == 0 { 1 } else { s / 2 };
        l = l + 1;
    }
    if l < level {
        proof {
            lemma_mip_size_stays_one(n as nat, l as nat, level as nat);
        }
    }
    s
}

fn attachment_level_ok(a: Option<Attachment>) -> (r: bool)
    ensures
        r == level_in_range(a),
{
    match a {
        Some(Attachment::Texture(t)) => t.image.level < t.levels,
        _ => true,
    }
}

/// Decides [`valid_attachments`].
pub fn check_attachments(color: Option<Attachment>, depth: Option<Attachment>) -> (r: bool)
    ensures
        r == valid_attachments(color, depth),
{
    if color.is_none() && depth.is_none() {
        return false;
    }
    if !attachment_level_ok(color) || !attachment_level_ok(depth) {
        return false;
    }
    match color {
        Some(Attachment::Screen) => match depth {
            Some(Attachment::Texture(_)) => false,
            _ => true,
        },
        Some(Attachment::Texture(c)) => match depth {
            Some(Attachment::Screen) => false,
            Some(Attachment::Texture(d)) => {
                mip_size_exec(c.width, c.image.level) == mip_size_exec(d.width, d.image.level)
                    && mip_size_exec(c.height, c.image.level) == mip_size_exec(d.height, d.image.level)
            },
            None => true,
        },
        None => true,
    }
}

fn image_of_exec(a: Option<Attachment>) -> (r: Option<Image>)
    ensures
        r == image_of(a),
{
    match a {
        Some(Attachment::Texture(t)) => Some(t.image),
        _ => None,
    }
}

fn attach(ctx: &mut Context, slot: Slot, a: Option<Attachment>)
    ensures
        final(ctx).recorded() == old(ctx).recorded() + attach_commands(slot, a),
        final(ctx).next_handle() == old(ctx).next_handle(),
        final(ctx).bound_framebuffer() == old(ctx).bound_framebuffer(),
        final(ctx).surface() == old(ctx).surface(),
        final(ctx).wf() == old(ctx).wf(),
{
    if let Some(Attachment::Texture(t)) = a {
        ctx.push(Command::Attach { slot, image: t.image });
    }
    assert(final(ctx).recorded() =~= old(ctx).recorded() + attach_commands(slot, a));
}

fn regenerate(ctx: &mut Context, a: Option<Attachment>)
    ensures
        final(ctx).recorded() == old(ctx).recorded() + regenerate_commands(a),
        final(ctx).next_handle() == old(ctx).next_handle(),
        final(ctx).bound_framebuffer() == old(ctx).bound_framebuffer(),
        final(ctx).surface() == old(ctx).surface(),
        final(ctx).wf() == old(ctx).wf(),
{
    if let Some(Attachment::Texture(t)) = a {
        if t.levels > 1 {
            let kind = match t.image.layer {
                Layer::Plane => TextureKind::Texture2D,
                Layer::Face(_) => TextureKind::CubeMap,
            };
            ctx.push(Command::GenerateMipmap { id: t.image.texture, kind });
        }
    }
    assert(final(ctx).recorded() =~= old(ctx).recorded() + regenerate_commands(a));
}

/// Validates the attachments and records [`begin_commands`]; returns the
/// framebuffer bound. On failure nothing is recorded.
fn begin(ctx: &mut Context, color: Option<Attachment>, depth: Option<Attachment>, clear: ClearState) -> (r: Result<u32, Error>)
    requires
        old(ctx).wf(),
    ensures
        final(ctx).wf(),
        !valid_attachments(color, depth) ==> r == Err::<u32, Error>(Error::InvalidAttachment),
        valid_attachments(color, depth) && uses_framebuffer_object(color, depth) && !old(ctx).has_handles(1)
            ==> r == Err::<u32, Error>(Error::DeviceError),
        r.is_ok() <==> valid_attachments(color, depth)
            && (uses_framebuffer_object(color, depth) ==> old(ctx).has_handles(1)),
        r.is_err() ==> *final(ctx) == *old(ctx),
        r matches Ok(f) ==> {
            &&& f == write_framebuffer(old(ctx).next_handle(), color, depth)
            &&& final(ctx).recorded() == old(ctx).recorded() + begin_commands(f, color, depth, clear)
            &&& final(ctx).next_handle() == old(ctx).next_handle() + (if uses_framebuffer_object(color, depth) { 1int } else { 0 })
            &&& final(ctx).bound_framebuffer() == f
            &&& final(ctx).surface() == old(ctx).surface()
        },
{
    if !check_attachments(color, depth) {
        return Err(Error::InvalidAttachment);
    }
    let own = match (color, depth) {
        (Some(Attachment::Texture(_)), _) => true,
        (_, Some(Attachment::Texture(_))) => true,
        _ => false,
    };
    let ghost start = ctx.recorded();
    let framebuffer: u32 = if own {
        let f = match ctx.generate() {
            Ok(f) => f,
            Err(e) => {
                return Err(e);
            },
        };
        ctx.push(Command::CreateFramebuffer { id: f });
        f
    } else {
        0
    };
    let ghost after_create = ctx.recorded();
    ctx.push(Command::BindFramebuffer { id: framebuffer });
    attach(ctx, Slot::Color, color);
    attach(ctx, Slot::Depth, depth);
    let target = Target { color: image_of_exec(color), depth: image_of_exec(depth) };
    if clear.color.is_some() || clear.depth.is_some() {
        ctx.push(Command::Clear { target, color: clear.color, depth: clear.depth });
    }
    assert(final(ctx).recorded() =~= start + begin_commands(framebuffer, color, depth, clear));
    Ok(framebuffer)
}

/// Records [`end_commands`].
fn end(
    ctx: &mut Context,
    framebuffer: u32,
    previous: u32,
    color: Option<Attachment>,
    depth: Option<Attachment>,
    draws: &Vec<DrawCall>,
)
    ensures
        final(ctx).recorded() == old(ctx).recorded() + end_commands(framebuffer, previous, color, depth, draws@),
        final(ctx).next_handle() == old(ctx).next_handle(),
        final(ctx).bound_framebuffer() == previous,
        final(ctx).surface() == old(ctx).surface(),
        final(ctx).wf() == old(ctx).wf(),
{
    let ghost start = ctx.recorded();
    let target = Target { color: image_of_exec(color), depth: image_of_exec(depth) };
    let mut i: usize = 0;
    while i < draws.len()
        invariant
            i <= draws@.len(),
            ctx.recorded() == start + draw_commands(target, draws@.subrange(0, i as int)),
            ctx.next_handle() == old(ctx).next_handle(),
            ctx.surface() == old(ctx).surface(),
            ctx.wf() == old(ctx).wf(),
        decreases draws@.len() - i,
    {
        ctx.push(Command::Draw { target, call: draws[i] });
        i = i + 1;
        assert(draw_commands(target, draws@.subrange(0, i as int)) =~= draw_commands(target,
            draws@.subrange(0, i - 1)).push(Command::Draw { target, call: draws@[i - 1] }));
    }
    assert(draws@.subrange(0, i as int) =~= draws@);
    ctx.push(Command::BindFramebuffer { id: previous });
    if image_of_exec(color).is_some() || image_of_exec(depth).is_some() {
        ctx.push(Command::DeleteFramebuffer { id: framebuffer });
    }
    regenerate(ctx, color);
    regenerate(ctx, depth);
    assert(final(ctx).recorded() =~= start + end_commands(framebuffer, previous, color, depth, draws@));
}


/// What a successful write records: the commands of [`write_commands`] for
/// some list of draws that the callback issued.
pub open spec fn is_write_of(
    e: Seq<Command>,
    framebuffer: u32,
    previous: u32,
    color: Option<Attachment>,
    depth: Option<Attachment>,
    clear: ClearState,
) -> bool {
    exists|draws: Seq<DrawCall>| e == write_commands(framebuffer, previous, color, depth, clear, draws)
}

/// The scoped write: validates the attachments, binds them, clears once, runs
/// `render` with the binding active and records the draws it issued, then
/// restores the earlier binding and regenerates the mip chains of the attached
/// textures, whether `render` succeeded or failed. Invalid attachments fail
/// with `InvalidAttachment`, and a framebuffer object that cannot be had with
/// `DeviceError`, before anything is recorded or `render` runs.
pub fn write_attachments<F: FnOnce(&mut Vec<DrawCall>) -> Result<(), Error>>(
    ctx: &mut Context,
    color: Option<Attachment>,
    depth: Option<Attachment>,
    clear_state: ClearState,
    render: F,
) -> (r: Result<(), Error>)
    requires
        old(ctx).wf(),
        forall|d: &mut Vec<DrawCall>| call_requires(render, (d,)),
    ensures
        final(ctx).wf(),
        !valid_attachments(color, depth) ==> r == Err::<(), Error>(Error::InvalidAttachment)
            && *final(ctx) == *old(ctx),
        valid_attachments(color, depth) && uses_framebuffer_object(color, depth) && !old(ctx).has_handles(1)
            ==> r == Err::<(), Error>(Error::DeviceError) && *final(ctx) == *old(ctx),
        valid_attachments(color, depth) && (uses_framebuffer_object(color, depth) ==> old(ctx).has_handles(1)) ==> {
            &&& is_write_of(emitted(old(ctx).recorded(), final(ctx).recorded()),
                write_framebuffer(old(ctx).next_handle(), color, depth), old(ctx).bound_framebuffer(),
                color, depth, clear_state)
            &&& final(ctx).next_handle() == old(ctx).next_handle()
                + (if uses_framebuffer_object(color, depth) { 1int } else { 0 })
            &&& exists|d: &mut Vec<DrawCall>| call_ensures(render, (d,), r)
        },
        extends(old(ctx).recorded(), final(ctx).recorded()),
        final(ctx).bound_framebuffer() == old(ctx).bound_framebuffer(),
        binding_after(old(ctx).bound_framebuffer(), emitted(old(ctx).recorded(), final(ctx).recorded()))
            == old(ctx).bound_framebuffer(),
        forall|i: int, texture: u32, layer: Layer|
            0 <= i < emitted(old(ctx).recorded(), final(ctx).recorded()).len()
            && !is_attached(color, depth, texture, layer)
            ==> !(#[trigger] alters(emitted(old(ctx).recorded(), final(ctx).recorded())[i], texture, layer)),
        final(ctx).surface() == old(ctx).surface(),
{
    let previous = ctx.framebuffer();
    let ghost start = ctx.recorded();
    let framebuffer = match begin(ctx, color, depth, clear_state) {
        Ok(f) => f,
        Err(e) => {
            proof {
                assert(emitted(start, final(ctx).recorded()) =~= Seq::<Command>::empty());
                assert(final(ctx).recorded().subrange(0, start.len() as int) =~= start);
            }
            return Err(e);
        },
    };
    let mut draws: Vec<DrawCall> = Vec::new();
    let result = render(&mut draws);
    end(ctx, framebuffer, previous, color, depth, &draws);
    proof {
        let e = emitted(start, final(ctx).recorded());
        assert(e =~= write_commands(framebuffer, previous, color, depth, clear_state, draws@));
        assert(final(ctx).recorded().subrange(0, start.len() as int) =~= start);
        lemma_write_restores_binding(framebuffer, previous, color, depth, clear_state, draws@);
        assert forall|i: int, texture: u32, layer: Layer|
            0 <= i < e.len() && !is_attached(color, depth, texture, layer)
            implies !(#[trigger] alters(e[i], texture, layer)) by {
            lemma_write_alters_only_attached(framebuffer, previous, color, depth, clear_state, draws@, texture, layer);
        }
    }
    result
}

/// [`write_attachments`] with the draws given up front.
pub(crate) fn write_draws(
    ctx: &mut Context,
    color: Option<Attachment>,
    depth: Option<Attachment>,
    clear_state: ClearState,
    draws: &Vec<DrawCall>,
) -> (r: Result<(), Error>)
    requires
        old(ctx).wf(),
    ensures
        final(ctx).wf(),
        r.is_ok() <==> valid_attachments(color, depth)
            && (uses_framebuffer_object(color, depth) ==> old(ctx).has_handles(1)),
        r.is_err() ==> *final(ctx) == *old(ctx),
        r.is_ok() ==> {
            &&& final(ctx).recorded() == old(ctx).recorded() + write_commands(
                write_framebuffer(old(ctx).next_handle(), color, depth), old(ctx).bound_framebuffer(),
                color, depth, clear_state, draws@)
            &&& final(ctx).next_handle() == old(ctx).next_handle()
                + (if uses_framebuffer_object(color, depth) { 1int } else { 0 })
        },
        final(ctx).bound_framebuffer() == old(ctx).bound_framebuffer(),
        final(ctx).surface() == old(ctx).surface(),
{
    let previous = ctx.framebuffer();
    let ghost start = ctx.recorded();
    let framebuffer = match begin(ctx, color, depth, clear_state) {
        Ok(f) => f,
        Err(e) => {
            return Err(e);
        },
    };
    end(ctx, framebuffer, previous, color, depth, draws);
    assert(final(ctx).recorded() =~= start + write_commands(framebuffer, previous, color, depth, clear_state, draws@));
    Ok(())
}

fn plane_attachment(t: &Texture2D) -> (r: Attachment)
    ensures
        r == texture_attachment(t@, Layer::Plane, 0),
{
    Attachment::Texture(TextureImage {
        image: Image { texture: t.id(), layer: Layer::Plane, level: 0 },
        width: t.width(),
        height: t.height(),
        levels: t.number_of_mip_maps(),
    })
}

/// A render target: a color and a depth attachment, each a 2D texture or the
/// default surface. It borrows nothing: it names the textures it writes to.
pub struct RenderTarget {
    color: Option<Attachment>,
    depth: Option<Attachment>,
}

impl RenderTarget {
    pub closed spec fn color(&self) -> Option<Attachment> {
        self.color
    }

    pub closed spec fn depth(&self) -> Option<Attachment> {
        self.depth
    }

    /// Writes to the base level of the given textures.
    pub fn new(color_texture: Option<&Texture2D>, depth_texture: Option<&Texture2D>) -> (r: RenderTarget)
        ensures
            r.color() == (match color_texture {
                Some(t) => Some(texture_attachment(t@, Layer::Plane, 0)),
                None => None,
            }),
            r.depth() == (match depth_texture {
                Some(t) => Some(texture_attachment(t@, Layer::Plane, 0)),
                None => None,
            }),
    {
        let color = match color_texture {
            Some(t) => Some(plane_attachment(t)),
            None => None,
        };
        let depth = match depth_texture {
            Some(t) => Some(plane_attachment(t)),
            None => None,
        };
        RenderTarget { color, depth }
    }

    pub fn new_color(color_texture: &Texture2D) -> (r: RenderTarget)
        ensures
            r.color() == Some(texture_attachment(color_texture@, Layer::Plane, 0)),
            r.depth().is_none(),
    {
        RenderTarget { color: Some(plane_attachment(color_texture)), depth: None }
    }

    pub fn new_depth(depth_texture: &Texture2D) -> (r: RenderTarget)
        ensures
            r.color().is_none(),
            r.depth() == Some(texture_attachment(depth_texture@, Layer::Plane, 0)),
    {
        RenderTarget { color: None, depth: Some(plane_attachment(depth_texture)) }
    }

    /// The default surface, color and depth.
    pub fn screen() -> (r: RenderTarget)
        ensures
            r.color() == Some(Attachment::Screen),
            r.depth() == Some(Attachment::Screen),
    {
        RenderTarget { color: Some(Attachment::Screen), depth: Some(Attachment::Screen) }
    }

    /// Runs the scoped write of [`write_attachments`] on this target.
    pub fn write<F: FnOnce(&mut Vec<DrawCall>) -> Result<(), Error>>(
        &self,
        ctx: &mut Context,
        clear_state: ClearState,
        render: F,
    ) -> (r: Result<(), Error>)
        requires
            old(ctx).wf(),
            forall|d: &mut Vec<DrawCall>| call_requires(render, (d,)),
        ensures
            final(ctx).wf(),
            !valid_attachments(self.color(), self.depth()) ==> r == Err::<(), Error>(Error::InvalidAttachment)
                && *final(ctx) == *old(ctx),
            valid_attachments(self.color(), self.depth()) && uses_framebuffer_object(self.color(), self.depth())
                && !old(ctx).has_handles(1)
                ==> r == Err::<(), Error>(Error::DeviceError) && *final(ctx) == *old(ctx),
            valid_attachments(self.color(), self.depth())
                && (uses_framebuffer_object(self.color(), self.depth()) ==> old(ctx).has_handles(1)) ==> {
                &&& is_write_of(emitted(old(ctx).recorded(), final(ctx).recorded()),
                    write_framebuffer(old(ctx).next_handle(), self.color(), self.depth()),
                    old(ctx).bound_framebuffer(), self.color(), self.depth(), clear_state)
                &&& final(ctx).next_handle() == old(ctx).next_handle()
                    + (if uses_framebuffer_object(self.color(), self.depth()) { 1int } else { 0 })
                &&& exists|d: &mut Vec<DrawCall>| call_ensures(render, (d,), r)
            },
            extends(old(ctx).recorded(), final(ctx).recorded()),
            final(ctx).bound_framebuffer() == old(ctx).bound_framebuffer(),
            binding_after(old(ctx).bound_framebuffer(), emitted(old(ctx).recorded(), final(ctx).recorded()))
                == old(ctx).bound_framebuffer(),
            forall|i: int, texture: u32, layer: Layer|
                0 <= i < emitted(old(ctx).recorded(), final(ctx).recorded()).len()
                && !is_attached(self.color(), self.depth(), texture, layer)
                ==> !(#[trigger] alters(emitted(old(ctx).recorded(), final(ctx).recorded())[i], texture, layer)),
            final(ctx).surface() == old(ctx).surface(),
    {
        write_attachments(ctx, self.color, self.depth, clear_state, render)
    }
}


/// The texture of a cube-map render target, with its sizes and mip-chain depth.
#[derive(Debug, Clone, Copy, PartialEq, Eq, Structural)]
pub struct CubeTexture {
    pub texture: u32,
    pub width: u32,
    pub height: u32,
    pub levels: u32,
}

pub open spec fn cube_texture_of(t: TextureInfo) -> CubeTexture {
    CubeTexture { texture: t.id, width: t.width, height: t.height, levels: t.levels }
}

/// The attachment of face `side` at mip level `level` of a cube-map target slot.
pub open spec fn face_of(c: Option<CubeTexture>, side: CubeMapSide, level: u32) -> Option<Attachment> {
    match c {
        Some(t) => Some(Attachment::Texture(TextureImage {
            image: Image { texture: t.texture, layer: Layer::Face(side), level },
            width: t.width,
            height: t.height,
            levels: t.levels,
        })),
        None => None,
    }
}

pub(crate) fn face_of_exec(c: Option<CubeTexture>, side: CubeMapSide, level: u32) -> (r: Option<Attachment>)
    ensures
        r == face_of(c, side, level),
{
    match c {
        Some(t) => Some(Attachment::Texture(TextureImage {
            image: Image { texture: t.texture, layer: Layer::Face(side), level },
            width: t.width,
            height: t.height,
            levels: t.levels,
        })),
        None => None,
    }
}

pub(crate) fn cube_texture(t: &TextureCubeMap) -> (r: CubeTexture)
    ensures
        r == cube_texture_of(t@),
{
    CubeTexture { texture: t.id(), width: t.width(), height: t.height(), levels: t.number_of_mip_maps() }
}

/// A render target whose attachments are one face of a cube map each: the
/// color at a chosen mip level, the depth at the base level.
pub struct RenderTargetCubeMap {
    color: Option<CubeTexture>,
    depth: Option<CubeTexture>,
}

impl RenderTargetCubeMap {
    pub closed spec fn color(&self) -> Option<CubeTexture> {
        self.color
    }

    pub closed spec fn depth(&self) -> Option<CubeTexture> {
        self.depth
    }

    pub fn new(color_texture: Option<&TextureCubeMap>, depth_texture: Option<&TextureCubeMap>) -> (r: RenderTargetCubeMap)
        ensures
            r.color() == (match color_texture {
                Some(t) => Some(cube_texture_of(t@)),
                None => None,
            }),
            r.depth() == (match depth_texture {
                Some(t) => Some(cube_texture_of(t@)),
                None => None,
            }),
    {
        let color = match color_texture {
            Some(t) => Some(cube_texture(t)),
            None => None,
        };
        let depth = match depth_texture {
            Some(t) => Some(cube_texture(t)),
            None => None,
        };
        RenderTargetCubeMap { color, depth }
    }

    pub fn new_color(color_texture: &TextureCubeMap) -> (r: RenderTargetCubeMap)
        ensures
            r.color() == Some(cube_texture_of(color_texture@)),
            r.depth().is_none(),
    {
        RenderTargetCubeMap { color: Some(cube_texture(color_texture)), depth: None }
    }

    /// Writes to face `side`, base level.
    pub fn write<F: FnOnce(&mut Vec<DrawCall>) -> Result<(), Error>>(
        &self,
        ctx: &mut Context,
        side: CubeMapSide,
        clear_state: ClearState,
        render: F,
    ) -> (r: Result<(), Error>)
        requires
            old(ctx).wf(),
            forall|d: &mut Vec<DrawCall>| call_requires(render, (d,)),
        ensures
            final(ctx).wf(),
            !valid_attachments(face_of(self.color(), side, 0), face_of(self.depth(), side, 0))
                ==> r == Err::<(), Error>(Error::InvalidAttachment) && *final(ctx) == *old(ctx),
            valid_attachments(face_of(self.color(), side, 0), face_of(self.depth(), side, 0))
                && !old(ctx).has_handles(1) ==> r == Err::<(), Error>(Error::DeviceError) && *final(ctx) == *old(ctx),
            valid_attachments(face_of(self.color(), side, 0), face_of(self.depth(), side, 0))
                && old(ctx).has_handles(1) ==> {
                &&& is_write_of(emitted(old(ctx).recorded(), final(ctx).recorded()), old(ctx).next_handle(),
                    old(ctx).bound_framebuffer(), face_of(self.color(), side, 0), face_of(self.depth(), side, 0),
                    clear_state)
                &&& final(ctx).next_handle() == old(ctx).next_handle() + 1
                &&& exists|d: &mut Vec<DrawCall>| call_ensures(render, (d,), r)
            },
            extends(old(ctx).recorded(), final(ctx).recorded()),
            final(ctx).bound_framebuffer() == old(ctx).bound_framebuffer(),
            binding_after(old(ctx).bound_framebuffer(), emitted(old(ctx).recorded(), final(ctx).recorded()))
                == old(ctx).bound_framebuffer(),
            forall|i: int, texture: u32, layer: Layer|
                0 <= i < emitted(old(ctx).recorded(), final(ctx).recorded()).len()
                && !is_attached(face_of(self.color(), side, 0), face_of(self.depth(), side, 0), texture, layer)
                ==> !(#[trigger] alters(emitted(old(ctx).recorded(), final(ctx).recorded())[i], texture, layer)),
            final(ctx).surface() == old(ctx).surface(),
    {
        self.write_to_mip_level(ctx, side, 0, clear_state, render)
    }

    /// Writes to face `side`: the color at mip level `mip_level`, the depth at
    /// the base level.
    pub fn write_to_mip_level<F: FnOnce(&mut Vec<DrawCall>) -> Result<(), Error>>(
        &self,
        ctx: &mut Context,
        side: CubeMapSide,
        mip_level: u32,
        clear_state: ClearState,
        render: F,
    ) -> (r: Result<(), Error>)
        requires
            old(ctx).wf(),
            forall|d: &mut Vec<DrawCall>| call_requires(render, (d,)),
        ensures
            final(ctx).wf(),
            !valid_attachments(face_of(self.color(), side, mip_level), face_of(self.depth(), side, 0))
                ==> r == Err::<(), Error>(Error::InvalidAttachment) && *final(ctx) == *old(ctx),
            valid_attachments(face_of(self.color(), side, mip_level), face_of(self.depth(), side, 0))
                && !old(ctx).has_handles(1) ==> r == Err::<(), Error>(Error::DeviceError) && *final(ctx) == *old(ctx),
            valid_attachments(face_of(self.color(), side, mip_level), face_of(self.depth(), side, 0))
                && old(ctx).has_handles(1) ==> {
                &&& is_write_of(emitted(old(ctx).recorded(), final(ctx).recorded()), old(ctx).next_handle(),
                    old(ctx).bound_framebuffer(), face_of(self.color(), side, mip_level),
                    face_of(self.depth(), side, 0), clear_state)
                &&& final(ctx).next_handle() == old(ctx).next_handle() + 1
                &&& exists|d: &mut Vec<DrawCall>| call_ensures(render, (d,), r)
            },
            extends(old(ctx).recorded(), final(ctx).recorded()),
            final(ctx).bound_framebuffer() == old(ctx).bound_framebuffer(),
            binding_after(old(ctx).bound_framebuffer(), emitted(old(ctx).recorded(), final(ctx).recorded()))
                == old(ctx).bound_framebuffer(),
            forall|i: int, texture: u32, layer: Layer|
                0 <= i < emitted(old(ctx).recorded(), final(ctx).recorded()).len()
                && !is_attached(face_of(self.color(), side, mip_level), face_of(self.depth(), side, 0), texture, layer)
                ==> !(#[trigger] alters(emitted(old(ctx).recorded(), final(ctx).recorded())[i], texture, layer)),
            final(ctx).surface() == old(ctx).surface(),
    {
        let color = face_of_exec(self.color, side, mip_level);
        let depth = face_of_exec(self.depth, side, 0);
        write_attachments(ctx, color, depth, clear_state, render)
    }
}

} // verus!
