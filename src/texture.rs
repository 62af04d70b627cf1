use vstd::prelude::*;
use crate::context::{
    side_at, Command, Context, CubeMapSide, Image, Layer, TextureKind,
};
use crate::error::Error;
use crate::format::{
    calculate_number_of_mip_maps, has_image_len, image_len, is_hdr, is_hdr_spec, mip_levels,
    DataType, Format, Interpolation, Wrapping,
};

verus! {

/// Pixel data with its size, format and sampling parameters, as the asset
/// layer hands it over. `data` holds the channel elements of each texel in
/// row order, each element in its data type's byte width.
#[derive(Debug, Clone)]
pub struct CPUTexture {
    pub data: Vec<u8>,
    pub width: u32,
    pub height: u32,
    pub format: Format,
    pub data_type: DataType,
    pub min_filter: Interpolation,
    pub mag_filter: Interpolation,
    pub mip_map_filter: Option<Interpolation>,
    pub wrap_s: Wrapping,
    pub wrap_t: Wrapping,
    pub wrap_r: Wrapping,
}

/// What a texture is, as its contracts speak of it.
pub struct TextureInfo {
    pub id: u32,
    pub width: u32,
    pub height: u32,
    pub format: Format,
    pub data_type: DataType,
    pub levels: u32,
}

/// The commands of `new` that come after `old`.
pub open spec fn emitted(old: Seq<Command>, new: Seq<Command>) -> Seq<Command> {
    new.subrange(old.len() as int, new.len() as int)
}

/// `new` is `old` with commands appended.
pub open spec fn extends(old: Seq<Command>, new: Seq<Command>) -> bool {
    old.len() <= new.len() && new.subrange(0, old.len() as int) == old
}

pub proof fn lemma_extends_trans(a: Seq<Command>, b: Seq<Command>, c: Seq<Command>)
    requires
        extends(a, b),
        extends(b, c),
    ensures
        extends(a, c),
        forall|k: int| 0 <= k < b.len() ==> c[k] == b[k],
{
    assert forall|k: int| 0 <= k < b.len() implies c[k] == b[k] by {
        assert(c.subrange(0, b.len() as int)[k] == c[k]);
    }
    assert(c.subrange(0, a.len() as int) =~= a) by {
        assert forall|k: int| 0 <= k < a.len() implies c.subrange(0, a.len() as int)[k] == a[k] by {
            assert(b.subrange(0, a.len() as int)[k] == b[k]);
        }
    }
}

/// The commands that create a texture's storage.
pub open spec fn creation_commands(
    id: u32,
    kind: TextureKind,
    levels: u32,
    width: u32,
    height: u32,
    format: Format,
    data_type: DataType,
    min_filter: Interpolation,
    mag_filter: Interpolation,
    mip_map_filter: Option<Interpolation>,
    wrap_s: Wrapping,
    wrap_t: Wrapping,
    wrap_r: Option<Wrapping>,
) -> Seq<Command> {
    seq![
        Command::CreateTexture { id, kind },
        Command::SetParameters {
            id,
            kind,
            min_filter,
            mag_filter,
            mip_map_filter: if levels == 1 { None } else { mip_map_filter },
            wrap_s,
            wrap_t,
            wrap_r,
        },
        Command::AllocateStorage { id, kind, levels, width, height, format, data_type },
    ]
}

/// `c` uploads `bytes` to the base level of `layer` of the texture `t`.
pub open spec fn is_upload(c: Command, t: TextureInfo, layer: Layer, bytes: Seq<u8>) -> bool {
    c matches Command::Upload { image, width, height, format, data_type, data }
        && image == (Image { texture: t.id, layer, level: 0 })
        && width == t.width && height == t.height
        && format == t.format && data_type == t.data_type
        && data@ == bytes
}

/// The mip-map regeneration that follows a change of a texture's base level:
/// one command when the chain has more than one level, none otherwise.
pub open spec fn mipmap_commands(t: TextureInfo, kind: TextureKind) -> Seq<Command> {
    if t.levels > 1 {
        seq![Command::GenerateMipmap { id: t.id, kind }]
    } else {
        seq![]
    }
}

/// The bytes of face `i` in data that holds six faces one after the other.
pub open spec fn face_bytes(data: Seq<u8>, face_len: nat, i: nat) -> Seq<u8> {
    data.subrange((i * face_len) as int, ((i + 1) * face_len) as int)
}

/// Appends the creation commands of a texture.
fn allocate(
    ctx: &mut Context,
    id: u32,
    kind: TextureKind,
    levels: u32,
    width: u32,
    height: u32,
    format: Format,
    data_type: DataType,
    min_filter: Interpolation,
    mag_filter: Interpolation,
    mip_map_filter: Option<Interpolation>,
    wrap_s: Wrapping,
    wrap_t: Wrapping,
    wrap_r: Option<Wrapping>,
)
    ensures
        final(ctx).recorded() == old(ctx).recorded() + creation_commands(
            id, kind, levels, width, height, format, data_type,
            min_filter, mag_filter, mip_map_filter, wrap_s, wrap_t, wrap_r,
        ),
        final(ctx).next_handle() == old(ctx).next_handle(),
        final(ctx).bound_framebuffer() == old(ctx).bound_framebuffer(),
        final(ctx).surface() == old(ctx).surface(),
        final(ctx).wf() == old(ctx).wf(),
{
    ctx.push(Command::CreateTexture { id, kind });
    ctx.push(Command::SetParameters {
        id,
        kind,
        min_filter,
        mag_filter,
        mip_map_filter: if levels == 1 { None } else { mip_map_filter },
        wrap_s,
        wrap_t,
        wrap_r,
    });
    ctx.push(Command::AllocateStorage { id, kind, levels, width, height, format, data_type });
    assert(final(ctx).recorded() =~= old(ctx).recorded() + creation_commands(
        id, kind, levels, width, height, format, data_type,
        min_filter, mag_filter, mip_map_filter, wrap_s, wrap_t, wrap_r,
    ));
}

/// Appends the mip-map regeneration of a texture whose chain has more than one level.
fn regenerate(ctx: &mut Context, id: u32, kind: TextureKind, levels: u32, Ghost(t): Ghost<TextureInfo>)
    requires
        t.id == id,
        t.levels == levels,
    ensures
        final(ctx).recorded() == old(ctx).recorded() + mipmap_commands(t, kind),
        final(ctx).next_handle() == old(ctx).next_handle(),
        final(ctx).bound_framebuffer() == old(ctx).bound_framebuffer(),
        final(ctx).surface() == old(ctx).surface(),
        final(ctx).wf() == old(ctx).wf(),
{
    if levels > 1 {
        ctx.push(Command::GenerateMipmap { id, kind });
    }
    assert(final(ctx).recorded() =~= old(ctx).recorded() + mipmap_commands(t, kind));
}

/// A 2D texture: one image per mip level.
pub struct Texture2D {
    id: u32,
    width: u32,
    height: u32,
    format: Format,
    data_type: DataType,
    number_of_mip_maps: u32,
}

impl View for Texture2D {
    type V = TextureInfo;

    closed spec fn view(&self) -> TextureInfo {
        TextureInfo {
            id: self.id,
            width: self.width,
            height: self.height,
            format: self.format,
            data_type: self.data_type,
            levels: self.number_of_mip_maps,
        }
    }
}

impl Texture2D {
    /// Allocates a 2D texture from `cpu_texture` and uploads its pixels.
    /// Fails with `SizeMismatch` when the data is not one image of the declared
    /// size and format, and with `DeviceError` when no handle is left; either
    /// way nothing is recorded.
    pub fn new(ctx: &mut Context, cpu_texture: &CPUTexture) -> (r: Result<Texture2D, Error>)
        requires
            old(ctx).wf(),
        ensures
            final(ctx).wf(),
            cpu_texture.data@.len() != image_len(cpu_texture.width as nat, cpu_texture.height as nat,
                cpu_texture.format, cpu_texture.data_type) ==> r == Err::<Texture2D, Error>(Error::SizeMismatch),
            cpu_texture.data@.len() == image_len(cpu_texture.width as nat, cpu_texture.height as nat,
                cpu_texture.format, cpu_texture.data_type) && !old(ctx).has_handles(1)
                ==> r == Err::<Texture2D, Error>(Error::DeviceError),
            r.is_err() ==> *final(ctx) == *old(ctx),
            r.is_ok() <==> cpu_texture.data@.len() == image_len(cpu_texture.width as nat,
                cpu_texture.height as nat, cpu_texture.format, cpu_texture.data_type)
                && old(ctx).has_handles(1),
            r matches Ok(t) ==> {
                &&& t@ == (TextureInfo {
                    id: old(ctx).next_handle(),
                    width: cpu_texture.width,
                    height: cpu_texture.height,
                    format: cpu_texture.format,
                    data_type: cpu_texture.data_type,
                    levels: mip_levels(cpu_texture.mip_map_filter, cpu_texture.width as nat,
                        cpu_texture.height as nat) as u32,
                })
                &&& t@.levels >= 1
                &&& final(ctx).next_handle() == old(ctx).next_handle() + 1
                &&& final(ctx).bound_framebuffer() == old(ctx).bound_framebuffer()
                &&& final(ctx).surface() == old(ctx).surface()
                &&& extends(old(ctx).recorded(), final(ctx).recorded())
                &&& emitted(old(ctx).recorded(), final(ctx).recorded()).len() == 4 + mipmap_commands(t@, TextureKind::Texture2D).len()
                &&& emitted(old(ctx).recorded(), final(ctx).recorded()).subrange(0, 3) == creation_commands(
                    t@.id, TextureKind::Texture2D, t@.levels, t@.width, t@.height, t@.format, t@.data_type,
                    cpu_texture.min_filter, cpu_texture.mag_filter, cpu_texture.mip_map_filter,
                    cpu_texture.wrap_s, cpu_texture.wrap_t, None)
                &&& is_upload(emitted(old(ctx).recorded(), final(ctx).recorded())[3], t@, Layer::Plane, cpu_texture.data@)
                &&& emitted(old(ctx).recorded(), final(ctx).recorded()).subrange(4, emitted(old(ctx).recorded(), final(ctx).recorded()).len() as int)
                    == mipmap_commands(t@, TextureKind::Texture2D)
            },
    {
        if !has_image_len(cpu_texture.width, cpu_texture.height, cpu_texture.format,
            cpu_texture.data_type, 1, cpu_texture.data.len()) {
            return Err(Error::SizeMismatch);
        }
        let id = match ctx.generate() {
            Ok(id) => id,
            Err(e) => {
                return Err(e);
            },
        };
        let ghost start = old(ctx).recorded();
        let levels = calculate_number_of_mip_maps(cpu_texture.mip_map_filter, cpu_texture.width,
            cpu_texture.height);
        allocate(ctx, id, TextureKind::Texture2D, levels, cpu_texture.width, cpu_texture.height,
            cpu_texture.format, cpu_texture.data_type, cpu_texture.min_filter,
            cpu_texture.mag_filter, cpu_texture.mip_map_filter, cpu_texture.wrap_s,
            cpu_texture.wrap_t, None);
        let ghost after_alloc = ctx.recorded();
        let texture = Texture2D {
            id,
            width: cpu_texture.width,
            height: cpu_texture.height,
            format: cpu_texture.format,
            data_type: cpu_texture.data_type,
            number_of_mip_maps: levels,
        };
        texture.upload(ctx, cpu_texture.data.as_slice());
        proof {
            let e = emitted(start, final(ctx).recorded());
            assert(after_alloc.subrange(start.len() as int, start.len() as int + 3) =~= creation_commands(
                id, TextureKind::Texture2D, levels, cpu_texture.width, cpu_texture.height,
                cpu_texture.format, cpu_texture.data_type, cpu_texture.min_filter,
                cpu_texture.mag_filter, cpu_texture.mip_map_filter, cpu_texture.wrap_s,
                cpu_texture.wrap_t, None));
            assert(e.subrange(0, 3) =~= after_alloc.subrange(start.len() as int, start.len() as int + 3));
            assert(e.subrange(0, 3) =~= creation_commands(
                id, TextureKind::Texture2D, levels, cpu_texture.width, cpu_texture.height,
                cpu_texture.format, cpu_texture.data_type, cpu_texture.min_filter,
                cpu_texture.mag_filter, cpu_texture.mip_map_filter, cpu_texture.wrap_s,
                cpu_texture.wrap_t, None));
            assert(e.subrange(4, e.len() as int) =~= mipmap_commands(texture@, TextureKind::Texture2D));
            assert(final(ctx).recorded().subrange(0, start.len() as int) =~= start);
        }
        Ok(texture)
    }

    /// Allocates a 2D texture with no initial content, to be rendered into.
    /// Fails with `DeviceError`, recording nothing, when no handle is left.
    pub fn new_empty(
        ctx: &mut Context,
        width: u32,
        height: u32,
        min_filter: Interpolation,
        mag_filter: Interpolation,
        mip_map_filter: Option<Interpolation>,
        wrap_s: Wrapping,
        wrap_t: Wrapping,
        format: Format,
        data_type: DataType,
    ) -> (r: Result<Texture2D, Error>)
        requires
            old(ctx).wf(),
        ensures
            final(ctx).wf(),
            r.is_ok() <==> old(ctx).has_handles(1),
            r.is_err() ==> r == Err::<Texture2D, Error>(Error::DeviceError) && *final(ctx) == *old(ctx),
            r matches Ok(t) ==> {
                &&& t@ == (TextureInfo {
                    id: old(ctx).next_handle(),
                    width,
                    height,
                    format,
                    data_type,
                    levels: mip_levels(mip_map_filter, width as nat, height as nat) as u32,
                })
                &&& t@.levels >= 1
                &&& final(ctx).next_handle() == old(ctx).next_handle() + 1
                &&& final(ctx).bound_framebuffer() == old(ctx).bound_framebuffer()
                &&& final(ctx).surface() == old(ctx).surface()
                &&& final(ctx).recorded() == old(ctx).recorded() + creation_commands(
                    t@.id, TextureKind::Texture2D, t@.levels, width, height, format, data_type,
                    min_filter, mag_filter, mip_map_filter, wrap_s, wrap_t, None)
                    + mipmap_commands(t@, TextureKind::Texture2D)
            },
    {
        let id = match ctx.generate() {
            Ok(id) => id,
            Err(e) => {
                return Err(e);
            },
        };
        let levels = calculate_number_of_mip_maps(mip_map_filter, width, height);
        allocate(ctx, id, TextureKind::Texture2D, levels, width, height, format, data_type,
            min_filter, mag_filter, mip_map_filter, wrap_s, wrap_t, None);
        let texture = Texture2D { id, width, height, format, data_type, number_of_mip_maps: levels };
        texture.generate_mip_maps(ctx);
        Ok(texture)
    }

    /// Uploads the base level and regenerates the mip chain.
    fn upload(&self, ctx: &mut Context, data: &[u8])
        ensures
            final(ctx).recorded().len() == old(ctx).recorded().len() + 1 + mipmap_commands(self@, TextureKind::Texture2D).len(),
            final(ctx).recorded().subrange(0, old(ctx).recorded().len() as int) == old(ctx).recorded(),
            is_upload(final(ctx).recorded()[old(ctx).recorded().len() as int], self@, Layer::Plane, data@),
            final(ctx).recorded().subrange(old(ctx).recorded().len() as int + 1, final(ctx).recorded().len() as int)
                == mipmap_commands(self@, TextureKind::Texture2D),
            final(ctx).next_handle() == old(ctx).next_handle(),
            final(ctx).bound_framebuffer() == old(ctx).bound_framebuffer(),
            final(ctx).surface() == old(ctx).surface(),
            final(ctx).wf() == old(ctx).wf(),
    {
        let ghost start = old(ctx).recorded();
        ctx.push(Command::Upload {
            image: Image { texture: self.id, layer: Layer::Plane, level: 0 },
            width: self.width,
            height: self.height,
            format: self.format,
            data_type: self.data_type,
            data: vstd::slice::slice_to_vec(data),
        });
        let ghost mid = ctx.recorded();
        self.generate_mip_maps(ctx);
        proof {
            assert(final(ctx).recorded().subrange(0, start.len() as int) =~= start);
            assert(final(ctx).recorded().subrange(start.len() as int + 1, final(ctx).recorded().len() as int)
                =~= mipmap_commands(self@, TextureKind::Texture2D));
            assert(final(ctx).recorded()[start.len() as int] == mid[start.len() as int]);
        }
    }

    /// Re-uploads the whole base level from `data` and regenerates the mip chain.
    /// Fails with `SizeMismatch`, recording nothing, when `data` is not one
    /// image of the texture's size and format.
    pub fn fill(&mut self, ctx: &mut Context, data: &[u8]) -> (r: Result<(), Error>)
        ensures
            final(self)@ == old(self)@,
            r.is_ok() <==> data@.len() == image_len(old(self)@.width as nat, old(self)@.height as nat,
                old(self)@.format, old(self)@.data_type),
            r.is_err() ==> r == Err::<(), Error>(Error::SizeMismatch) && *final(ctx) == *old(ctx),
            r.is_ok() ==> {
                &&& final(ctx).recorded().len() == old(ctx).recorded().len() + 1 + mipmap_commands(old(self)@, TextureKind::Texture2D).len()
                &&& extends(old(ctx).recorded(), final(ctx).recorded())
                &&& is_upload(final(ctx).recorded()[old(ctx).recorded().len() as int], old(self)@, Layer::Plane, data@)
                &&& emitted(old(ctx).recorded(), final(ctx).recorded()).subrange(1,
                    emitted(old(ctx).recorded(), final(ctx).recorded()).len() as int)
                    == mipmap_commands(old(self)@, TextureKind::Texture2D)
                &&& final(ctx).next_handle() == old(ctx).next_handle()
                &&& final(ctx).bound_framebuffer() == old(ctx).bound_framebuffer()
                &&& final(ctx).surface() == old(ctx).surface()
                &&& final(ctx).wf() == old(ctx).wf()
            },
    {
        if !has_image_len(self.width, self.height, self.format, self.data_type, 1, data.len()) {
            return Err(Error::SizeMismatch);
        }
        self.upload(ctx, data);
        proof {
            let e = emitted(old(ctx).recorded(), final(ctx).recorded());
            assert(e.subrange(1, e.len() as int) =~= final(ctx).recorded().subrange(
                old(ctx).recorded().len() as int + 1, final(ctx).recorded().len() as int));
        }
        Ok(())
    }

    /// Regenerates the lower mip levels from the base level, when there are any.
    pub(crate) fn generate_mip_maps(&self, ctx: &mut Context)
        ensures
            final(ctx).recorded() == old(ctx).recorded() + mipmap_commands(self@, TextureKind::Texture2D),
            final(ctx).next_handle() == old(ctx).next_handle(),
            final(ctx).bound_framebuffer() == old(ctx).bound_framebuffer(),
            final(ctx).surface() == old(ctx).surface(),
            final(ctx).wf() == old(ctx).wf(),
    {
        regenerate(ctx, self.id, TextureKind::Texture2D, self.number_of_mip_maps, Ghost(self@));
    }

    /// Releases the texture's storage on the device.
    pub fn delete(self, ctx: &mut Context)
        ensures
            final(ctx).recorded() == old(ctx).recorded().push(Command::DeleteTexture { id: self@.id }),
            final(ctx).next_handle() == old(ctx).next_handle(),
            final(ctx).bound_framebuffer() == old(ctx).bound_framebuffer(),
            final(ctx).surface() == old(ctx).surface(),
            final(ctx).wf() == old(ctx).wf(),
    {
        ctx.push(Command::DeleteTexture { id: self.id });
    }

    pub fn id(&self) -> (r: u32)
        ensures
            r == self@.id,
    {
        self.id
    }

    pub fn width(&self) -> (r: u32)
        ensures
            r == self@.width,
    {
        self.width
    }

    pub fn height(&self) -> (r: u32)
        ensures
            r == self@.height,
    {
        self.height
    }

    pub fn format(&self) -> (r: Format)
        ensures
            r == self@.format,
    {
        self.format
    }

    pub fn data_type(&self) -> (r: DataType)
        ensures
            r == self@.data_type,
    {
        self.data_type
    }

    /// Depth of the mip chain.
    pub fn number_of_mip_maps(&self) -> (r: u32)
        ensures
            r == self@.levels,
    {
        self.number_of_mip_maps
    }

    /// Whether the channel elements are wider than 8 bits.
    pub fn is_hdr(&self) -> (r: bool)
        ensures
            r == is_hdr_spec(self@.data_type),
    {
        is_hdr(self.data_type)
    }
}


/// `e` uploads the six faces of `data` in the fixed order and then regenerates
/// the mip chain of the cube map `t`.
pub open spec fn is_faces_fill(e: Seq<Command>, t: TextureInfo, data: Seq<u8>) -> bool {
    let face_len = image_len(t.width as nat, t.height as nat, t.format, t.data_type);
    &&& e.len() == 6 + mipmap_commands(t, TextureKind::CubeMap).len()
    &&& forall|i: int| 0 <= i < 6 ==> is_upload(#[trigger] e[i], t, Layer::Face(side_at(i as nat)),
        face_bytes(data, face_len, i as nat))
    &&& e.subrange(6, e.len() as int) == mipmap_commands(t, TextureKind::CubeMap)
}

/// A texture that covers the six sides of a cube, one image per face and mip
/// level, in one allocation.
pub struct TextureCubeMap {
    id: u32,
    width: u32,
    height: u32,
    format: Format,
    data_type: DataType,
    number_of_mip_maps: u32,
}

impl View for TextureCubeMap {
    type V = TextureInfo;

    closed spec fn view(&self) -> TextureInfo {
        TextureInfo {
            id: self.id,
            width: self.width,
            height: self.height,
            format: self.format,
            data_type: self.data_type,
            levels: self.number_of_mip_maps,
        }
    }
}

impl TextureCubeMap {
    /// Allocates a cube map from `cpu_texture`, whose data holds six images of
    /// the declared size one after the other, in the order right, left, top,
    /// bottom, front, back. Fails with `SizeMismatch` when the data is not
    /// exactly six such images, and with `DeviceError` when no handle is left;
    /// either way nothing is recorded.
    pub fn new(ctx: &mut Context, cpu_texture: &CPUTexture) -> (r: Result<TextureCubeMap, Error>)
        requires
            old(ctx).wf(),
        ensures
            final(ctx).wf(),
            cpu_texture.data@.len() != 6 * image_len(cpu_texture.width as nat, cpu_texture.height as nat,
                cpu_texture.format, cpu_texture.data_type) ==> r == Err::<TextureCubeMap, Error>(Error::SizeMismatch),
            cpu_texture.data@.len() == 6 * image_len(cpu_texture.width as nat, cpu_texture.height as nat,
                cpu_texture.format, cpu_texture.data_type) && !old(ctx).has_handles(1)
                ==> r == Err::<TextureCubeMap, Error>(Error::DeviceError),
            r.is_err() ==> *final(ctx) == *old(ctx),
            r.is_ok() <==> cpu_texture.data@.len() == 6 * image_len(cpu_texture.width as nat,
                cpu_texture.height as nat, cpu_texture.format, cpu_texture.data_type)
                && old(ctx).has_handles(1),
            r matches Ok(t) ==> {
                &&& t@ == (TextureInfo {
                    id: old(ctx).next_handle(),
                    width: cpu_texture.width,
                    height: cpu_texture.height,
                    format: cpu_texture.format,
                    data_type: cpu_texture.data_type,
                    levels: mip_levels(cpu_texture.mip_map_filter, cpu_texture.width as nat,
                        cpu_texture.height as nat) as u32,
                })
                &&& t@.levels >= 1
                &&& final(ctx).next_handle() == old(ctx).next_handle() + 1
                &&& final(ctx).bound_framebuffer() == old(ctx).bound_framebuffer()
                &&& final(ctx).surface() == old(ctx).surface()
                &&& extends(old(ctx).recorded(), final(ctx).recorded())
                &&& emitted(old(ctx).recorded(), final(ctx).recorded()).len() >= 3
                &&& emitted(old(ctx).recorded(), final(ctx).recorded()).subrange(0, 3) == creation_commands(
                    t@.id, TextureKind::CubeMap, t@.levels, t@.width, t@.height, t@.format, t@.data_type,
                    cpu_texture.min_filter, cpu_texture.mag_filter, cpu_texture.mip_map_filter,
                    cpu_texture.wrap_s, cpu_texture.wrap_t, Some(cpu_texture.wrap_r))
                &&& is_faces_fill(emitted(old(ctx).recorded(), final(ctx).recorded()).subrange(3,
                    emitted(old(ctx).recorded(), final(ctx).recorded()).len() as int), t@, cpu_texture.data@)
            },
    {
        if !has_image_len(cpu_texture.width, cpu_texture.height, cpu_texture.format,
            cpu_texture.data_type, 6, cpu_texture.data.len()) {
            return Err(Error::SizeMismatch);
        }
        let id = match ctx.generate() {
            Ok(id) => id,
            Err(e) => {
                return Err(e);
            },
        };
        let ghost start = old(ctx).recorded();
        let levels = calculate_number_of_mip_maps(cpu_texture.mip_map_filter, cpu_texture.width,
            cpu_texture.height);
        allocate(ctx, id, TextureKind::CubeMap, levels, cpu_texture.width, cpu_texture.height,
            cpu_texture.format, cpu_texture.data_type, cpu_texture.min_filter,
            cpu_texture.mag_filter, cpu_texture.mip_map_filter, cpu_texture.wrap_s,
            cpu_texture.wrap_t, Some(cpu_texture.wrap_r));
        let ghost after_alloc = ctx.recorded();
        let texture = TextureCubeMap {
            id,
            width: cpu_texture.width,
            height: cpu_texture.height,
            format: cpu_texture.format,
            data_type: cpu_texture.data_type,
            number_of_mip_maps: levels,
        };
        texture.upload_faces(ctx, cpu_texture.data.as_slice());
        proof {
            let e = emitted(start, final(ctx).recorded());
            assert(after_alloc.subrange(start.len() as int, start.len() as int + 3) =~= creation_commands(
                id, TextureKind::CubeMap, levels, cpu_texture.width, cpu_texture.height,
                cpu_texture.format, cpu_texture.data_type, cpu_texture.min_filter,
                cpu_texture.mag_filter, cpu_texture.mip_map_filter, cpu_texture.wrap_s,
                cpu_texture.wrap_t, Some(cpu_texture.wrap_r)));
            assert(e.subrange(0, 3) =~= after_alloc.subrange(start.len() as int, start.len() as int + 3));
            assert(e.subrange(3, e.len() as int) =~= emitted(after_alloc, final(ctx).recorded()));
            assert(final(ctx).recorded().subrange(0, start.len() as int) =~= start);
        }
        Ok(texture)
    }

    /// Uploads the six faces of `data` and regenerates the mip chain.
    fn upload_faces(&self, ctx: &mut Context, data: &[u8])
        requires
            data@.len() == 6 * image_len(self@.width as nat, self@.height as nat, self@.format, self@.data_type),
        ensures
            extends(old(ctx).recorded(), final(ctx).recorded()),
            is_faces_fill(emitted(old(ctx).recorded(), final(ctx).recorded()), self@, data@),
            final(ctx).next_handle() == old(ctx).next_handle(),
            final(ctx).bound_framebuffer() == old(ctx).bound_framebuffer(),
            final(ctx).surface() == old(ctx).surface(),
            final(ctx).wf() == old(ctx).wf(),
    {
        let ghost start = old(ctx).recorded();
        let ghost face_len = image_len(self@.width as nat, self@.height as nat, self@.format, self@.data_type);
        let n: usize = data.len();
        let face: usize = n / 6;
        let mut i: usize = 0;
        while i < 6
            invariant
                0 <= i <= 6,
                face == face_len,
                n == data@.len(),
                data@.len() == 6 * face_len,
                ctx.recorded().len() == start.len() + i,
                ctx.recorded().subrange(0, start.len() as int) == start,
                forall|k: int| 0 <= k < i ==> is_upload(#[trigger] ctx.recorded()[start.len() + k], self@,
                    Layer::Face(side_at(k as nat)), face_bytes(data@, face_len, k as nat)),
                ctx.next_handle() == old(ctx).next_handle(),
                ctx.bound_framebuffer() == old(ctx).bound_framebuffer(),
                ctx.surface() == old(ctx).surface(),
                ctx.wf() == old(ctx).wf(),
            decreases 6 - i,
        {
            assert((i + 1) * face <= 6 * face) by (nonlinear_arith)
                requires i < 6;
            assert(i * face <= (i + 1) * face) by (nonlinear_arith);
            let lo: usize = i * face;
            let hi: usize = (i + 1) * face;
            let ghost before = ctx.recorded();
            ctx.push(Command::Upload {
                image: Image { texture: self.id, layer: Layer::Face(CubeMapSide::from_index(i as u32)), level: 0 },
                width: self.width,
                height: self.height,
                format: self.format,
                data_type: self.data_type,
                data: vstd::slice::slice_to_vec(&data[lo..hi]),
            });
            proof {
                assert forall|k: int| 0 <= k < i + 1 implies is_upload(#[trigger] ctx.recorded()[start.len() + k], self@,
                    Layer::Face(side_at(k as nat)), face_bytes(data@, face_len, k as nat)) by {
                    if k < i {
                        assert(ctx.recorded()[start.len() + k] == before[start.len() + k]);
                    } else {
                        assert(face_bytes(data@, face_len, k as nat) =~= data@.subrange(lo as int, hi as int));
                    }
                }
                assert(ctx.recorded().subrange(0, start.len() as int) =~= before.subrange(0, start.len() as int));
            }
            i = i + 1;
        }
        let ghost mid = ctx.recorded();
        self.generate_mip_maps(ctx);
        proof {
            let e = emitted(start, final(ctx).recorded());
            assert(final(ctx).recorded().subrange(0, start.len() as int) =~= start);
            assert forall|k: int| 0 <= k < 6 implies is_upload(#[trigger] e[k], self@,
                Layer::Face(side_at(k as nat)), face_bytes(data@, face_len, k as nat)) by {
                assert(e[k] == mid[start.len() + k]);
            }
            assert(e.subrange(6, e.len() as int) =~= mipmap_commands(self@, TextureKind::CubeMap));
        }
    }

    /// Re-uploads all six faces from `data`, sliced as in [`TextureCubeMap::new`],
    /// and regenerates the mip chain. Fails with `SizeMismatch`, recording
    /// nothing, when `data` is not exactly six images of the texture's size and
    /// format.
    pub fn fill(&mut self, ctx: &mut Context, data: &[u8]) -> (r: Result<(), Error>)
        ensures
            final(self)@ == old(self)@,
            r.is_ok() <==> data@.len() == 6 * image_len(old(self)@.width as nat, old(self)@.height as nat,
                old(self)@.format, old(self)@.data_type),
            r.is_err() ==> r == Err::<(), Error>(Error::SizeMismatch) && *final(ctx) == *old(ctx),
            r.is_ok() ==> {
                &&& extends(old(ctx).recorded(), final(ctx).recorded())
                &&& is_faces_fill(emitted(old(ctx).recorded(), final(ctx).recorded()), old(self)@, data@)
                &&& final(ctx).next_handle() == old(ctx).next_handle()
                &&& final(ctx).bound_framebuffer() == old(ctx).bound_framebuffer()
                &&& final(ctx).surface() == old(ctx).surface()
                &&& final(ctx).wf() == old(ctx).wf()
            },
    {
        if !has_image_len(self.width, self.height, self.format, self.data_type, 6, data.len()) {
            return Err(Error::SizeMismatch);
        }
        self.upload_faces(ctx, data);
        Ok(())
    }

    /// Allocates a cube map with no initial content, to be rendered into.
    /// Fails with `DeviceError`, recording nothing, when no handle is left.
    pub fn new_empty(
        ctx: &mut Context,
        width: u32,
        height: u32,
        min_filter: Interpolation,
        mag_filter: Interpolation,
        mip_map_filter: Option<Interpolation>,
        wrap_s: Wrapping,
        wrap_t: Wrapping,
        wrap_r: Wrapping,
        format: Format,
        data_type: DataType,
    ) -> (r: Result<TextureCubeMap, Error>)
        requires
            old(ctx).wf(),
        ensures
            final(ctx).wf(),
            r.is_ok() <==> old(ctx).has_handles(1),
            r.is_err() ==> r == Err::<TextureCubeMap, Error>(Error::DeviceError) && *final(ctx) == *old(ctx),
            r matches Ok(t) ==> {
                &&& t@ == (TextureInfo {
                    id: old(ctx).next_handle(),
                    width,
                    height,
                    format,
                    data_type,
                    levels: mip_levels(mip_map_filter, width as nat, height as nat) as u32,
                })
                &&& t@.levels >= 1
                &&& final(ctx).next_handle() == old(ctx).next_handle() + 1
                &&& final(ctx).bound_framebuffer() == old(ctx).bound_framebuffer()
                &&& final(ctx).surface() == old(ctx).surface()
                &&& final(ctx).recorded() == old(ctx).recorded() + creation_commands(
                    t@.id, TextureKind::CubeMap, t@.levels, width, height, format, data_type,
                    min_filter, mag_filter, mip_map_filter, wrap_s, wrap_t, Some(wrap_r))
                    + mipmap_commands(t@, TextureKind::CubeMap)
            },
    {
        let id = match ctx.generate() {
            Ok(id) => id,
            Err(e) => {
                return Err(e);
            },
        };
        let levels = calculate_number_of_mip_maps(mip_map_filter, width, height);
        allocate(ctx, id, TextureKind::CubeMap, levels, width, height, format, data_type,
            min_filter, mag_filter, mip_map_filter, wrap_s, wrap_t, Some(wrap_r));
        let texture = TextureCubeMap { id, width, height, format, data_type, number_of_mip_maps: levels };
        texture.generate_mip_maps(ctx);
        Ok(texture)
    }

    /// Regenerates the lower mip levels of every face, when there are any.
    pub(crate) fn generate_mip_maps(&self, ctx: &mut Context)
        ensures
            final(ctx).recorded() == old(ctx).recorded() + mipmap_commands(self@, TextureKind::CubeMap),
            final(ctx).next_handle() == old(ctx).next_handle(),
            final(ctx).bound_framebuffer() == old(ctx).bound_framebuffer(),
            final(ctx).surface() == old(ctx).surface(),
            final(ctx).wf() == old(ctx).wf(),
    {
        regenerate(ctx, self.id, TextureKind::CubeMap, self.number_of_mip_maps, Ghost(self@));
    }

    /// Releases the cube map's storage on the device.
    pub fn delete(self, ctx: &mut Context)
        ensures
            final(ctx).recorded() == old(ctx).recorded().push(Command::DeleteTexture { id: self@.id }),
            final(ctx).next_handle() == old(ctx).next_handle(),
            final(ctx).bound_framebuffer() == old(ctx).bound_framebuffer(),
            final(ctx).surface() == old(ctx).surface(),
            final(ctx).wf() == old(ctx).wf(),
    {
        ctx.push(Command::DeleteTexture { id: self.id });
    }

    pub fn id(&self) -> (r: u32)
        ensures
            r == self@.id,
    {
        self.id
    }

    pub fn width(&self) -> (r: u32)
        ensures
            r == self@.width,
    {
        self.width
    }

    pub fn height(&self) -> (r: u32)
        ensures
            r == self@.height,
    {
        self.height
    }

    pub fn format(&self) -> (r: Format)
        ensures
            r == self@.format,
    {
        self.format
    }

    pub fn data_type(&self) -> (r: DataType)
        ensures
            r == self@.data_type,
    {
        self.data_type
    }

    /// Depth of the mip chain.
    pub fn number_of_mip_maps(&self) -> (r: u32)
        ensures
            r == self@.levels,
    {
        self.number_of_mip_maps
    }

    /// Whether the channel elements are wider than 8 bits.
    pub fn is_hdr(&self) -> (r: bool)
        ensures
            r == is_hdr_spec(self@.data_type),
    {
        is_hdr(self.data_type)
    }
}

} // verus!
