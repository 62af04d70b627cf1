use vstd::prelude::*;
use crate::context::{Command, Context};
use crate::error::Error;

verus! {

/// What a buffer is, as its contracts speak of it: its handle and its fixed
/// number of elements.
pub struct BufferInfo {
    pub id: u32,
    pub len: nat,
}

/// A buffer of vertex indices, uploaded once; its length is fixed.
pub struct ElementBuffer {
    id: u32,
    count: usize,
}

impl View for ElementBuffer {
    type V = BufferInfo;

    closed spec fn view(&self) -> BufferInfo {
        BufferInfo { id: self.id, len: self.count as nat }
    }
}

impl ElementBuffer {
    /// Allocates the buffer and uploads `data`. Fails with `DeviceError`,
    /// recording nothing, when no handle is left.
    pub fn new_with(ctx: &mut Context, data: &[u32]) -> (r: Result<ElementBuffer, Error>)
        requires
            old(ctx).wf(),
        ensures
            final(ctx).wf(),
            r.is_ok() <==> old(ctx).has_handles(1),
            r.is_err() ==> r == Err::<ElementBuffer, Error>(Error::DeviceError) && *final(ctx) == *old(ctx),
            r matches Ok(b) ==> {
                &&& b@ == (BufferInfo { id: old(ctx).next_handle(), len: data@.len() })
                &&& final(ctx).recorded().len() == old(ctx).recorded().len() + 1
                &&& final(ctx).recorded().drop_last() == old(ctx).recorded()
                &&& final(ctx).recorded().last() matches Command::CreateElementBuffer { id, data: d }
                    && id == b@.id && d@ == data@
                &&& final(ctx).next_handle() == old(ctx).next_handle() + 1
                &&& final(ctx).bound_framebuffer() == old(ctx).bound_framebuffer()
                &&& final(ctx).surface() == old(ctx).surface()
            },
    {
        let id = match ctx.generate() {
            Ok(id) => id,
            Err(e) => {
                return Err(e);
            },
        };
        let ghost before = ctx.recorded();
        ctx.push(Command::CreateElementBuffer { id, data: vstd::slice::slice_to_vec(data) });
        assert(ctx.recorded().drop_last() =~= before);
        Ok(ElementBuffer { id, count: data.len() })
    }

    pub fn id(&self) -> (r: u32)
        ensures
            r == self@.id,
    {
        self.id
    }

    /// Number of indices.
    pub fn count(&self) -> (r: usize)
        ensures
            r == self@.len,
    {
        self.count
    }

    /// Releases the buffer on the device.
    pub fn delete(self, ctx: &mut Context)
        ensures
            final(ctx).recorded() == old(ctx).recorded().push(Command::DeleteBuffer { id: self@.id }),
            final(ctx).next_handle() == old(ctx).next_handle(),
            final(ctx).bound_framebuffer() == old(ctx).bound_framebuffer(),
            final(ctx).surface() == old(ctx).surface(),
            final(ctx).wf() == old(ctx).wf(),
    {
        ctx.push(Command::DeleteBuffer { id: self.id });
    }
}

/// A buffer of vertex attribute values, uploaded once as bytes; its length is
/// fixed.
pub struct VertexBuffer {
    id: u32,
    len: usize,
}

impl View for VertexBuffer {
    type V = BufferInfo;

    closed spec fn view(&self) -> BufferInfo {
        BufferInfo { id: self.id, len: self.len as nat }
    }
}

impl VertexBuffer {
    /// Allocates the buffer and uploads `data`. Fails with `DeviceError`,
    /// recording nothing, when no handle is left.
    pub fn new_with(ctx: &mut Context, data: &[u8]) -> (r: Result<VertexBuffer, Error>)
        requires
            old(ctx).wf(),
        ensures
            final(ctx).wf(),
            r.is_ok() <==> old(ctx).has_handles(1),
            r.is_err() ==> r == Err::<VertexBuffer, Error>(Error::DeviceError) && *final(ctx) == *old(ctx),
            r matches Ok(b) ==> {
                &&& b@ == (BufferInfo { id: old(ctx).next_handle(), len: data@.len() })
                &&& final(ctx).recorded().len() == old(ctx).recorded().len() + 1
                &&& final(ctx).recorded().drop_last() == old(ctx).recorded()
                &&& final(ctx).recorded().last() matches Command::CreateVertexBuffer { id, data: d }
                    && id == b@.id && d@ == data@
                &&& final(ctx).next_handle() == old(ctx).next_handle() + 1
                &&& final(ctx).bound_framebuffer() == old(ctx).bound_framebuffer()
                &&& final(ctx).surface() == old(ctx).surface()
            },
    {
        let id = match ctx.generate() {
            Ok(id) => id,
            Err(e) => {
                return Err(e);
            },
        };
        let ghost before = ctx.recorded();
        ctx.push(Command::CreateVertexBuffer { id, data: vstd::slice::slice_to_vec(data) });
        assert(ctx.recorded().drop_last() =~= before);
        Ok(VertexBuffer { id, len: data.len() })
    }

    pub fn id(&self) -> (r: u32)
        ensures
            r == self@.id,
    {
        self.id
    }

    /// Number of bytes.
    pub fn len(&self) -> (r: usize)
        ensures
            r == self@.len,
    {
        self.len
    }

    /// Releases the buffer on the device.
    pub fn delete(self, ctx: &mut Context)
        ensures
            final(ctx).recorded() == old(ctx).recorded().push(Command::DeleteBuffer { id: self@.id }),
            final(ctx).next_handle() == old(ctx).next_handle(),
            final(ctx).bound_framebuffer() == old(ctx).bound_framebuffer(),
            final(ctx).surface() == old(ctx).surface(),
            final(ctx).wf() == old(ctx).wf(),
    {
        ctx.push(Command::DeleteBuffer { id: self.id });
    }
}

} // verus!
