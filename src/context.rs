use vstd::prelude::*;
use crate::error::Error;
use crate::format::{DataType, Format, Interpolation, Wrapping};
use crate::state::{ClearState, RenderStates, Rgba};

verus! {

/// A face of a cube map. The faces are stored, filled and iterated in the
/// fixed order right, left, top, bottom, front, back.
#[derive(Debug, Clone, Copy, PartialEq, Eq, Structural)]
pub enum CubeMapSide {
    Right,
    Left,
    Top,
    Bottom,
    Front,
    Back,
}

pub open spec fn side_index(side: CubeMapSide) -> nat {
    match side {
        CubeMapSide::Right => 0,
        CubeMapSide::Left => 1,
        CubeMapSide::Top => 2,
        CubeMapSide::Bottom => 3,
        CubeMapSide::Front => 4,
        CubeMapSide::Back => 5,
    }
}

pub open spec fn side_at(i: nat) -> CubeMapSide {
    if i == 0 {
        CubeMapSide::Right
    } else if i == 1 {
        CubeMapSide::Left
    } else if i == 2 {
        CubeMapSide::Top
    } else if i == 3 {
        CubeMapSide::Bottom
    } else if i == 4 {
        CubeMapSide::Front
    } else {
        CubeMapSide::Back
    }
}

impl CubeMapSide {
    /// Position of the face in the fixed order.
    pub fn index(&self) -> (r: u32)
        ensures
            r == side_index(*self),
    {
        match self {
            CubeMapSide::Right => 0,
            CubeMapSide::Left => 1,
            CubeMapSide::Top => 2,
            CubeMapSide::Bottom => 3,
            CubeMapSide::Front => 4,
            CubeMapSide::Back => 5,
        }
    }

    /// The face at position `i` of the fixed order.
    pub fn from_index(i: u32) -> (r: CubeMapSide)
        requires
            i < 6,
        ensures
            r == side_at(i as nat),
            side_index(r) == i,
    {
        if i == 0 {
            CubeMapSide::Right
        } else if i == 1 {
            CubeMapSide::Left
        } else if i == 2 {
            CubeMapSide::Top
        } else if i == 3 {
            CubeMapSide::Bottom
        } else if i == 4 {
            CubeMapSide::Front
        } else {
            CubeMapSide::Back
        }
    }

    /// All six faces in the fixed order.
    pub fn iter() -> (r: Vec<CubeMapSide>)
        ensures
            r@.len() == 6,
            forall|i: int| 0 <= i < 6 ==> r@[i] == side_at(i as nat),
    {
        let mut v: Vec<CubeMapSide> = Vec::new();
        let mut i: u32 = 0;
        while i < 6
            invariant
                i <= 6,
                v@.len() == i,
                forall|j: int| 0 <= j < i ==> v@[j] == side_at(j as nat),
            decreases 6 - i,
        {
            v.push(CubeMapSide::from_index(i));
            i = i + 1;
        }
        v
    }
}

/// The two kinds of texture storage.
#[derive(Debug, Clone, Copy, PartialEq, Eq, Structural)]
pub enum TextureKind {
    Texture2D,
    CubeMap,
}

/// The 2D layer of a texture: the single plane of a 2D texture, or one face of
/// a cube map.
#[derive(Debug, Clone, Copy, PartialEq, Eq, Structural)]
pub enum Layer {
    Plane,
    Face(CubeMapSide),
}

/// One image of a texture: a layer at a mip level.
#[derive(Debug, Clone, Copy, PartialEq, Eq, Structural)]
pub struct Image {
    pub texture: u32,
    pub layer: Layer,
    pub level: u32,
}

/// The framebuffer slot that an image is attached to.
#[derive(Debug, Clone, Copy, PartialEq, Eq, Structural)]
pub enum Slot {
    Color,
    Depth,
}

/// The texture images that a clear or draw writes to. A slot that holds
/// `None` is either absent or the default surface.
#[derive(Debug, Clone, Copy, PartialEq, Eq, Structural)]
pub struct Target {
    pub color: Option<Image>,
    pub depth: Option<Image>,
}

/// One call that a draw callback issues while a render target is bound.
#[derive(Debug, Clone, Copy, PartialEq, Eq, Structural)]
pub enum DrawCall {
    /// Binds a texture to a sampler uniform of a program.
    UseTexture { program: u32, location: u32, texture: u32, kind: TextureKind },
    /// Feeds a vertex buffer to an attribute of a program.
    UseAttribute { program: u32, location: u32, buffer: u32, components: u32, divisor: u32 },
    /// Sets an integer uniform of a program.
    UniformInt { program: u32, location: u32, value: i32 },
    /// Draws `count` indices of an element buffer, `instances` times.
    Elements { program: u32, elements: u32, count: usize, instances: u32, state: RenderStates },
    /// Draws a unit cube seen from its center through a 90° perspective that
    /// looks down the axis of `side`, sampling the texture `source`.
    CubeEffect { program: u32, source: u32, side: CubeMapSide },
}

impl DrawCall {
    /// Whether the call rasterizes into the bound target.
    pub open spec fn writes_pixels(&self) -> bool {
        self is Elements || self is CubeEffect
    }
}

/// A command for the graphics device, in the order the device must run it.
/// Handles are the context's own; the one handle `0` is the default framebuffer.
#[derive(Debug, Clone, PartialEq, Eq)]
pub enum Command {
    CreateTexture { id: u32, kind: TextureKind },
    SetParameters {
        id: u32,
        kind: TextureKind,
        min_filter: Interpolation,
        mag_filter: Interpolation,
        mip_map_filter: Option<Interpolation>,
        wrap_s: Wrapping,
        wrap_t: Wrapping,
        wrap_r: Option<Wrapping>,
    },
    /// Allocates the immutable storage of a texture, all levels of all layers.
    AllocateStorage {
        id: u32,
        kind: TextureKind,
        levels: u32,
        width: u32,
        height: u32,
        format: Format,
        data_type: DataType,
    },
    /// Replaces the pixels of one base-level image.
    Upload {
        image: Image,
        width: u32,
        height: u32,
        format: Format,
        data_type: DataType,
        data: Vec<u8>,
    },
    /// Rebuilds the levels below the base of every layer of a texture, each from
    /// that layer's own base level.
    GenerateMipmap { id: u32, kind: TextureKind },
    DeleteTexture { id: u32 },
    CreateElementBuffer { id: u32, data: Vec<u32> },
    CreateVertexBuffer { id: u32, data: Vec<u8> },
    DeleteBuffer { id: u32 },
    CreateProgram { id: u32, vertex_source: String, fragment_source: String },
    DeleteProgram { id: u32 },
    CreateFramebuffer { id: u32 },
    /// Makes `id` the draw framebuffer; `0` is the default surface.
    BindFramebuffer { id: u32 },
    /// Attaches an image to a slot of the bound framebuffer.
    Attach { slot: Slot, image: Image },
    DeleteFramebuffer { id: u32 },
    Clear { target: Target, color: Option<Rgba>, depth: Option<u32> },
    Draw { target: Target, call: DrawCall },
}

/// Whether `target` writes to some level of `layer` of `texture`.
pub open spec fn target_writes(target: Target, texture: u32, layer: Layer) -> bool {
    (target.color matches Some(i) && i.texture == texture && i.layer == layer)
    || (target.depth matches Some(i) && i.texture == texture && i.layer == layer)
}

/// Whether running `c` can change the pixels of `layer` of `texture`.
/// Mip-map generation is not counted: it derives each layer's lower levels
/// from that same layer's base level, and so carries nothing between layers.
pub open spec fn alters(c: Command, texture: u32, layer: Layer) -> bool {
    match c {
        Command::Upload { image, .. } => image.texture == texture && image.layer == layer,
        Command::AllocateStorage { id, .. } => id == texture,
        Command::DeleteTexture { id } => id == texture,
        Command::Clear { target, .. } => target_writes(target, texture, layer),
        Command::Draw { target, call } => call.writes_pixels() && target_writes(target, texture, layer),
        _ => false,
    }
}

/// The draw framebuffer bound after running `cmds` from a state where `start`
/// was bound.
pub open spec fn binding_after(start: u32, cmds: Seq<Command>) -> u32
    decreases cmds.len(),
{
    if cmds.len() == 0 {
        start
    } else {
        match cmds.last() {
            Command::BindFramebuffer { id } => id,
            _ => binding_after(start, cmds.drop_last()),
        }
    }
}

pub proof fn lemma_binding_after_push(start: u32, cmds: Seq<Command>, c: Command)
    ensures
        binding_after(start, cmds.push(c)) == match c {
            Command::BindFramebuffer { id } => id,
            _ => binding_after(start, cmds),
        },
{
    assert(cmds.push(c).drop_last() =~= cmds);
}

/// The connection to the graphics device that every resource records its work
/// on. It hands out object handles, tracks which draw framebuffer is bound, and
/// keeps the commands for the device in the order they were issued until the
/// device executor takes them.
pub struct Context {
    surface_width: u32,
    surface_height: u32,
    next_id: u32,
    framebuffer: u32,
    commands: Vec<Command>,
}

impl Context {
    /// The commands issued and not yet taken, oldest first.
    pub closed spec fn recorded(&self) -> Seq<Command> {
        self.commands@
    }

    /// The handle that the next created object gets.
    pub closed spec fn next_handle(&self) -> u32 {
        self.next_id
    }

    /// The draw framebuffer bound at the end of the recorded commands.
    pub closed spec fn bound_framebuffer(&self) -> u32 {
        self.framebuffer
    }

    pub closed spec fn surface(&self) -> (u32, u32) {
        (self.surface_width, self.surface_height)
    }

    pub closed spec fn wf(&self) -> bool {
        self.next_id >= 1
    }

    /// Whether `n` more handles can be handed out.
    pub open spec fn has_handles(&self, n: nat) -> bool {
        self.next_handle() + n <= u32::MAX
    }

    /// A context for a device whose default surface has the given size.
    pub fn new(surface_width: u32, surface_height: u32) -> (r: Context)
        ensures
            r.wf(),
            r.recorded().len() == 0,
            r.next_handle() == 1,
            r.bound_framebuffer() == 0,
            r.surface() == (surface_width, surface_height),
    {
        Context { surface_width, surface_height, next_id: 1, framebuffer: 0, commands: Vec::new() }
    }

    pub fn surface_width(&self) -> (r: u32)
        ensures
            r == self.surface().0,
    {
        self.surface_width
    }

    pub fn surface_height(&self) -> (r: u32)
        ensures
            r == self.surface().1,
    {
        self.surface_height
    }

    /// Records the size that the windowing layer reports for the default surface.
    pub fn set_surface_size(&mut self, width: u32, height: u32)
        ensures
            final(self).surface() == (width, height),
            final(self).recorded() == old(self).recorded(),
            final(self).next_handle() == old(self).next_handle(),
            final(self).bound_framebuffer() == old(self).bound_framebuffer(),
            final(self).wf() == old(self).wf(),
    {
        self.surface_width = width;
        self.surface_height = height;
    }

    /// The draw framebuffer bound at the end of the recorded commands.
    pub fn framebuffer(&self) -> (r: u32)
        ensures
            r == self.bound_framebuffer(),
    {
        self.framebuffer
    }

    /// The commands issued and not yet taken.
    pub fn commands(&self) -> (r: &Vec<Command>)
        ensures
            r@ == self.recorded(),
    {
        &self.commands
    }

    /// How many handles are left to hand out.
    pub fn handles_left(&self) -> (r: u32)
        ensures
            r == u32::MAX - self.next_handle(),
    {
        u32::MAX - self.next_id
    }

    /// Hands the recorded commands to the device executor, oldest first.
    pub fn take_commands(&mut self) -> (r: Vec<Command>)
        ensures
            r@ == old(self).recorded(),
            final(self).recorded().len() == 0,
            final(self).next_handle() == old(self).next_handle(),
            final(self).bound_framebuffer() == old(self).bound_framebuffer(),
            final(self).surface() == old(self).surface(),
            final(self).wf() == old(self).wf(),
    {
        let r = self.commands.split_off(0);
        assert(r@ =~= old(self).recorded());
        r
    }

    /// A fresh handle for a device object.
    pub fn generate(&mut self) -> (r: Result<u32, Error>)
        requires
            old(self).wf(),
        ensures
            final(self).wf(),
            final(self).recorded() == old(self).recorded(),
            final(self).bound_framebuffer() == old(self).bound_framebuffer(),
            final(self).surface() == old(self).surface(),
            old(self).next_handle() < u32::MAX ==> r == Ok::<u32, Error>(old(self).next_handle())
                && final(self).next_handle() == old(self).next_handle() + 1,
            old(self).next_handle() == u32::MAX ==> r == Err::<u32, Error>(Error::DeviceError)
                && final(self).next_handle() == old(self).next_handle(),
            r.is_ok() ==> r.unwrap() >= 1,
            r.is_err() ==> *final(self) == *old(self),
    {
        if self.next_id == u32::MAX {
            Err(Error::DeviceError)
        } else {
            let id = self.next_id;
            self.next_id = self.next_id + 1;
            Ok(id)
        }
    }

    /// Appends a command for the device.
    pub(crate) fn push(&mut self, c: Command)
        ensures
            final(self).recorded() == old(self).recorded().push(c),
            final(self).next_handle() == old(self).next_handle(),
            final(self).surface() == old(self).surface(),
            final(self).wf() == old(self).wf(),
            final(self).bound_framebuffer() == match c {
                Command::BindFramebuffer { id } => id,
                _ => old(self).bound_framebuffer(),
            },
    {
        if let Command::BindFramebuffer { id } = c {
            self.framebuffer = id;
        }
        self.commands.push(c);
    }
}

} // verus!
