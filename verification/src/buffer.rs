//! Buffers, which store data such as vertices or colors.
use vstd::prelude::*;
use crate::call::{Call, Op};
use crate::glenum::{BufferBase, BufferKind};
use crate::rendering_context::WebGL2RenderingContext;
use crate::reply::{Reply, Shape};

verus! {

/// The context's name for a buffer. The identifier 0 stands for null.
#[derive(Clone, Copy, Debug, PartialEq, Eq, Structural)]
pub struct WebGLBuffer {
    pub id: u32,
}

impl WebGL2RenderingContext {
    /// Creates a buffer, which stores data such as vertices or colors. Nothing
    /// fails here: the handle is made from the reply with `from_reply`, and
    /// whether it stands for a live buffer, `is_valid` tells.
    #[verifier::allow_in_spec]
    pub fn create_buffer(&self) -> (c: Call<'_>)
        ensures
            c.op.shape() == Shape::Object,
        returns
            (Call { context: self, op: Op::CreateBuffer }),
    {
        Call { context: self, op: Op::CreateBuffer }
    }
}

/// A buffer of a context. The handle holds the context's name for the buffer
/// and the context that it belongs to, and nothing of the buffer's state. A
/// call that the handle builds borrows the handle, so that the buffer cannot be
/// deleted while a call on it waits to be made.
#[derive(Debug)]
pub struct WebGLRSBuffer<'ctx> {
    context: &'ctx WebGL2RenderingContext,
    inner: WebGLBuffer,
}

impl<'ctx> WebGLRSBuffer<'ctx> {
    /// The context that the buffer belongs to.
    pub closed spec fn owner(self) -> &'ctx WebGL2RenderingContext {
        self.context
    }

    /// The context's name for the buffer.
    pub closed spec fn object(self) -> WebGLBuffer {
        self.inner
    }

    /// The handle of `context` for the buffer that `context` knows as `object`.
    pub closed spec fn named(context: &'ctx WebGL2RenderingContext, object: WebGLBuffer) -> Self {
        WebGLRSBuffer { context, inner: object }
    }

    /// Makes the handle for the buffer that `reply` names, where `reply` is
    /// what `context` handed back for a call that created a buffer. A reply
    /// that names no object gives the handle of null.
    #[verifier::allow_in_spec]
    pub fn from_reply(context: &'ctx WebGL2RenderingContext, reply: &Reply) -> (handle: Self)
        ensures
            handle.owner() == context,
            handle.object().id == reply.object_id(),
        returns
            Self::named(context, WebGLBuffer { id: reply.object_id() }),
    {
        WebGLRSBuffer { context, inner: WebGLBuffer { id: reply.object() } }
    }

    /// Gives the context that the buffer belongs to.
    pub fn context(&self) -> (context: &'ctx WebGL2RenderingContext)
        ensures
            context == self.owner(),
    {
        self.context
    }

    /// Gives the context's name for the buffer.
    pub fn inner(&self) -> (object: WebGLBuffer)
        ensures
            object == self.object(),
    {
        self.inner
    }

    /// Deletes the buffer. The handle is used up: nothing can be asked of a
    /// deleted buffer.
    #[verifier::allow_in_spec]
    pub fn delete(self) -> (c: Call<'ctx>)
        ensures
            c.op.shape() == Shape::Nothing,
        returns
            (Call { context: self.owner(), op: Op::DeleteBuffer { buffer: self.object() } }),
    {
        Call { context: self.context, op: Op::DeleteBuffer { buffer: self.inner } }
    }

    /// Asks whether the buffer is live. The reply is read with `as_bool`.
    #[verifier::allow_in_spec]
    pub fn is_valid(&self) -> (c: Call<'_>)
        ensures
            c.op.shape() == Shape::Bool,
        returns
            (Call { context: self.owner(), op: Op::IsBuffer { buffer: self.object() } }),
    {
        Call { context: self.context, op: Op::IsBuffer { buffer: self.inner } }
    }

    /// Binds the buffer to `target`.
    #[verifier::allow_in_spec]
    pub fn bind(&self, target: BufferKind) -> (c: Call<'_>)
        ensures
            c.op.shape() == Shape::Nothing,
        returns
            (Call { context: self.owner(), op: Op::BindBuffer { target, buffer: self.object() } }),
    {
        Call { context: self.context, op: Op::BindBuffer { target, buffer: self.inner } }
    }

    /// Binds the buffer to `target` at `index`.
    #[verifier::allow_in_spec]
    pub fn bind_base(&self, target: BufferBase, index: u32) -> (c: Call<'_>)
        ensures
            c.op.shape() == Shape::Nothing,
        returns
            (Call {
                context: self.owner(),
                op: Op::BindBufferBase { target, index, buffer: self.object() },
            }),
    {
        Call { context: self.context, op: Op::BindBufferBase { target, index, buffer: self.inner } }
    }

    /// Binds `size` bytes of the buffer, from `offset` on, to `target` at
    /// `index`.
    #[verifier::allow_in_spec]
    pub fn bind_range(
        &self,
        target: BufferBase,
        index: u32,
        offset: u32,
        size: u32,
    ) -> (c: Call<'_>)
        ensures
            c.op.shape() == Shape::Nothing,
        returns
            (Call {
                context: self.owner(),
                op: Op::BindBufferRange {
                    target,
                    index,
                    buffer: self.object(),
                    offset,
                    size,
                },
            }),
    {
        Call {
            context: self.context,
            op: Op::BindBufferRange { target, index, buffer: self.inner, offset, size },
        }
    }
}

/// The handle made from the reply to a call that created a buffer stands for
/// the buffer that the reply names: it asks whether that buffer is live, and it
/// deletes that buffer, on the context that the handle was made for.
pub proof fn lemma_buffer_lifecycle(context: &WebGL2RenderingContext, reply: Reply)
    ensures
        WebGLRSBuffer::from_reply(context, &reply).is_valid() == (Call {
            context,
            op: Op::IsBuffer { buffer: WebGLBuffer { id: reply.object_id() } },
        }),
        WebGLRSBuffer::from_reply(context, &reply).delete() == (Call {
            context,
            op: Op::DeleteBuffer { buffer: WebGLBuffer { id: reply.object_id() } },
        }),
{
}

/// Binding asks the same of the context every time: the call is fixed by the
/// context of the handle, the buffer that the handle stands for, and the
/// target. Nothing that a handle shows changes when it is bound.
pub proof fn lemma_buffer_bind_repeats<'ctx>(
    first: &WebGLRSBuffer<'ctx>,
    second: &WebGLRSBuffer<'ctx>,
    target: BufferKind,
)
    requires
        first.owner() == second.owner(),
        first.object() == second.object(),
    ensures
        first.bind(target) == second.bind(target),
{
}

} // verus!
