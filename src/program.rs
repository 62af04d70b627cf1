use vstd::prelude::*;
use crate::buffer::{ElementBuffer, VertexBuffer};
use crate::context::{Command, Context, DrawCall, TextureKind};
use crate::error::{Error, ShaderStage};
use crate::state::RenderStates;
use crate::texture::{Texture2D, TextureCubeMap};

verus! {

/// What the device answered after compiling and linking a program: the
/// diagnostics of each step that failed, and the locations of the active
/// uniforms and attributes by name.
#[derive(Debug, Clone)]
pub struct ProgramReport {
    pub vertex_log: Option<String>,
    pub fragment_log: Option<String>,
    pub link_log: Option<String>,
    pub uniforms: Vec<(String, u32)>,
    pub attributes: Vec<(String, u32)>,
}

/// The location of the first entry named `name`.
pub open spec fn lookup(entries: Seq<(String, u32)>, name: Seq<char>) -> Option<u32>
    decreases entries.len(),
{
    if entries.len() == 0 {
        None
    } else if entries[0].0@ == name {
        Some(entries[0].1)
    } else {
        lookup(entries.drop_first(), name)
    }
}

fn find(entries: &Vec<(String, u32)>, name: &str) -> (r: Option<u32>)
    ensures
        r == lookup(entries@, name@),
{
    let wanted: String = name.to_owned();
    let mut i: usize = 0;
    assert(entries@.subrange(0, entries@.len() as int) =~= entries@);
    while i < entries.len()
        invariant
            i <= entries@.len(),
            wanted@ == name@,
            lookup(entries@, name@) == lookup(entries@.subrange(i as int, entries@.len() as int), name@),
        decreases entries@.len() - i,
    {
        let ghost rest = entries@.subrange(i as int, entries@.len() as int);
        assert(rest.drop_first() =~= entries@.subrange(i + 1, entries@.len() as int));
        if entries[i].0 == wanted {
            return Some(entries[i].1);
        }
        i = i + 1;
    }
    None
}

/// What a program is, as its contracts speak of it.
pub struct ProgramInfo {
    pub id: u32,
    pub uniforms: Seq<(String, u32)>,
    pub attributes: Seq<(String, u32)>,
}

/// A compiled and linked shader pipeline, with the locations of its named
/// inputs resolved once.
pub struct Program {
    id: u32,
    uniforms: Vec<(String, u32)>,
    attributes: Vec<(String, u32)>,
}

impl View for Program {
    type V = ProgramInfo;

    closed spec fn view(&self) -> ProgramInfo {
        ProgramInfo { id: self.id, uniforms: self.uniforms@, attributes: self.attributes@ }
    }
}

/// What `from_report` decides for a report: the first failed step, in the
/// order vertex stage, fragment stage, link; or success.
pub open spec fn report_error(report: ProgramReport) -> Option<Error> {
    match report.vertex_log {
        Some(log) => Some(Error::ShaderCompileError { stage: ShaderStage::Vertex, log }),
        None => match report.fragment_log {
            Some(log) => Some(Error::ShaderCompileError { stage: ShaderStage::Fragment, log }),
            None => match report.link_log {
                Some(log) => Some(Error::ShaderLinkError { log }),
                None => None,
            },
        },
    }
}

/// `e` is an `UnknownBinding` error that carries `name`.
pub open spec fn is_unknown_binding(e: Error, name: Seq<char>) -> bool {
    e matches Error::UnknownBinding { name: n } && n@ == name
}

impl Program {
    /// Records the compilation and linking of a program from its two stages,
    /// and returns the handle that the device's [`ProgramReport`] answers for.
    /// Fails with `DeviceError`, recording nothing, when no handle is left.
    pub fn compile(ctx: &mut Context, vertex_source: &str, fragment_source: &str) -> (r: Result<u32, Error>)
        requires
            old(ctx).wf(),
        ensures
            final(ctx).wf(),
            r.is_ok() <==> old(ctx).has_handles(1),
            r.is_err() ==> r == Err::<u32, Error>(Error::DeviceError) && *final(ctx) == *old(ctx),
            r matches Ok(id) ==> {
                &&& id == old(ctx).next_handle()
                &&& final(ctx).recorded().len() == old(ctx).recorded().len() + 1
                &&& final(ctx).recorded().drop_last() == old(ctx).recorded()
                &&& final(ctx).recorded().last() matches Command::CreateProgram { id: i, vertex_source: v, fragment_source: f }
                    && i == id && v@ == vertex_source@ && f@ == fragment_source@
                &&& final(ctx).next_handle() == old(ctx).next_handle() + 1
                &&& final(ctx).bound_framebuffer() == old(ctx).bound_framebuffer()
            },
    {
        let id = match ctx.generate() {
            Ok(id) => id,
            Err(e) => {
                return Err(e);
            },
        };
        let ghost before = ctx.recorded();
        ctx.push(Command::CreateProgram {
            id,
            vertex_source: vertex_source.to_owned(),
            fragment_source: fragment_source.to_owned(),
        });
        assert(ctx.recorded().drop_last() =~= before);
        Ok(id)
    }

    /// Builds the program from the device's report on handle `id`. A failed
    /// step fails the call with the device's diagnostics, in the order of
    /// [`report_error`], and releases the handle; no program is returned.
    pub fn from_report(ctx: &mut Context, id: u32, report: ProgramReport) -> (r: Result<Program, Error>)
        ensures
            report_error(report) matches Some(e) ==> r == Err::<Program, Error>(e)
                && final(ctx).recorded() == old(ctx).recorded().push(Command::DeleteProgram { id }),
            report_error(report) is None ==> (r matches Ok(p) && p@ == (ProgramInfo {
                id,
                uniforms: report.uniforms@,
                attributes: report.attributes@,
            }) && *final(ctx) == *old(ctx)),
            final(ctx).next_handle() == old(ctx).next_handle(),
            final(ctx).bound_framebuffer() == old(ctx).bound_framebuffer(),
            final(ctx).surface() == old(ctx).surface(),
            final(ctx).wf() == old(ctx).wf(),
    {
        let ProgramReport { vertex_log, fragment_log, link_log, uniforms, attributes } = report;
        let failure = match vertex_log {
            Some(log) => Some(Error::ShaderCompileError { stage: ShaderStage::Vertex, log }),
            None => match fragment_log {
                Some(log) => Some(Error::ShaderCompileError { stage: ShaderStage::Fragment, log }),
                None => match link_log {
                    Some(log) => Some(Error::ShaderLinkError { log }),
                    None => None,
                },
            },
        };
        match failure {
            Some(e) => {
                ctx.push(Command::DeleteProgram { id });
                Err(e)
            },
            None => Ok(Program { id, uniforms, attributes }),
        }
    }

    pub fn id(&self) -> (r: u32)
        ensures
            r == self@.id,
    {
        self.id
    }

    /// The location of the uniform `name`; `UnknownBinding` when the program
    /// has no such uniform.
    pub fn uniform_location(&self, name: &str) -> (r: Result<u32, Error>)
        ensures
            lookup(self@.uniforms, name@) matches Some(l) ==> r == Ok::<u32, Error>(l),
            lookup(self@.uniforms, name@) is None ==> (r matches Err(e) && is_unknown_binding(e, name@)),
    {
        match find(&self.uniforms, name) {
            Some(l) => Ok(l),
            None => Err(Error::UnknownBinding { name: name.to_owned() }),
        }
    }

    /// The location of the attribute `name`; `UnknownBinding` when the program
    /// has no such attribute.
    pub fn attribute_location(&self, name: &str) -> (r: Result<u32, Error>)
        ensures
            lookup(self@.attributes, name@) matches Some(l) ==> r == Ok::<u32, Error>(l),
            lookup(self@.attributes, name@) is None ==> (r matches Err(e) && is_unknown_binding(e, name@)),
    {
        match find(&self.attributes, name) {
            Some(l) => Ok(l),
            None => Err(Error::UnknownBinding { name: name.to_owned() }),
        }
    }

    /// Binds a 2D texture to the sampler uniform `name`.
    pub fn use_texture(&self, name: &str, texture: &Texture2D) -> (r: Result<DrawCall, Error>)
        ensures
            lookup(self@.uniforms, name@) matches Some(l) ==> r == Ok::<DrawCall, Error>(DrawCall::UseTexture {
                program: self@.id,
                location: l,
                texture: texture@.id,
                kind: TextureKind::Texture2D,
            }),
            lookup(self@.uniforms, name@) is None ==> (r matches Err(e) && is_unknown_binding(e, name@)),
    {
        let location = match self.uniform_location(name) {
            Ok(l) => l,
            Err(e) => {
                return Err(e);
            },
        };
        Ok(DrawCall::UseTexture { program: self.id, location, texture: texture.id(), kind: TextureKind::Texture2D })
    }

    /// Binds a cube map to the sampler uniform `name`.
    pub fn use_texture_cube(&self, name: &str, texture: &TextureCubeMap) -> (r: Result<DrawCall, Error>)
        ensures
            lookup(self@.uniforms, name@) matches Some(l) ==> r == Ok::<DrawCall, Error>(DrawCall::UseTexture {
                program: self@.id,
                location: l,
                texture: texture@.id,
                kind: TextureKind::CubeMap,
            }),
            lookup(self@.uniforms, name@) is None ==> (r matches Err(e) && is_unknown_binding(e, name@)),
    {
        let location = match self.uniform_location(name) {
            Ok(l) => l,
            Err(e) => {
                return Err(e);
            },
        };
        Ok(DrawCall::UseTexture { program: self.id, location, texture: texture.id(), kind: TextureKind::CubeMap })
    }

    /// Sets the integer uniform `name`.
    pub fn add_uniform_int(&self, name: &str, value: i32) -> (r: Result<DrawCall, Error>)
        ensures
            lookup(self@.uniforms, name@) matches Some(l) ==> r == Ok::<DrawCall, Error>(DrawCall::UniformInt {
                program: self@.id,
                location: l,
                value,
            }),
            lookup(self@.uniforms, name@) is None ==> (r matches Err(e) && is_unknown_binding(e, name@)),
    {
        let location = match self.uniform_location(name) {
            Ok(l) => l,
            Err(e) => {
                return Err(e);
            },
        };
        Ok(DrawCall::UniformInt { program: self.id, location, value })
    }

    /// Feeds `buffer` to the attribute `name`, `components` values per vertex,
    /// advancing once per `divisor` instances (`0`: once per vertex).
    pub fn use_attribute(&self, name: &str, buffer: &VertexBuffer, components: u32, divisor: u32) -> (r: Result<DrawCall, Error>)
        ensures
            lookup(self@.attributes, name@) matches Some(l) ==> r == Ok::<DrawCall, Error>(DrawCall::UseAttribute {
                program: self@.id,
                location: l,
                buffer: buffer@.id,
                components,
                divisor,
            }),
            lookup(self@.attributes, name@) is None ==> (r matches Err(e) && is_unknown_binding(e, name@)),
    {
        let location = match self.attribute_location(name) {
            Ok(l) => l,
            Err(e) => {
                return Err(e);
            },
        };
        Ok(DrawCall::UseAttribute { program: self.id, location, buffer: buffer.id(), components, divisor })
    }

    /// Draws all indices of `elements` once.
    pub fn draw_elements(&self, elements: &ElementBuffer, state: RenderStates) -> (r: DrawCall)
        ensures
            r == (DrawCall::Elements {
                program: self@.id,
                elements: elements@.id,
                count: elements@.len as usize,
                instances: 1,
                state,
            }),
    {
        DrawCall::Elements { program: self.id, elements: elements.id(), count: elements.count(), instances: 1, state }
    }

    /// Draws all indices of `elements`, `instances` times.
    pub fn draw_elements_instanced(&self, elements: &ElementBuffer, instances: u32, state: RenderStates) -> (r: DrawCall)
        ensures
            r == (DrawCall::Elements {
                program: self@.id,
                elements: elements@.id,
                count: elements@.len as usize,
                instances,
                state,
            }),
    {
        DrawCall::Elements { program: self.id, elements: elements.id(), count: elements.count(), instances, state }
    }

    /// Releases the program on the device.
    pub fn delete(self, ctx: &mut Context)
        ensures
            final(ctx).recorded() == old(ctx).recorded().push(Command::DeleteProgram { id: self@.id }),
            final(ctx).next_handle() == old(ctx).next_handle(),
            final(ctx).bound_framebuffer() == old(ctx).bound_framebuffer(),
            final(ctx).surface() == old(ctx).surface(),
            final(ctx).wf() == old(ctx).wf(),
    {
        ctx.push(Command::DeleteProgram { id: self.id });
    }
}

} // verus!
