//! Framebuffers, which collect the buffers that are rendered to.
use vstd::prelude::*;
use crate::call::{Call, Op};
use crate::glenum::FramebufferKind;
use crate::rendering_context::WebGL2RenderingContext;
use crate::reply::{Reply, Shape};

verus! {

/// The context's name for a framebuffer. The identifier 0 stands for null.
#[derive(Clone, Copy, Debug, PartialEq, Eq, Structural)]
pub struct WebGLFramebuffer {
    pub id: u32,
}

impl WebGL2RenderingContext {
    /// Creates a framebuffer. Nothing fails here: the handle is made from the
    /// reply with `from_reply`, and whether it stands for a live framebuffer,
    /// `is_valid` tells.
    #[verifier::allow_in_spec]
    pub fn create_framebuffer(&self) -> (c: Call<'_>)
        ensures
            c.op.shape() == Shape::Object,
        returns
            (Call { context: self, op: Op::CreateFramebuffer }),
    {
        Call { context: self, op: Op::CreateFramebuffer }
    }
}

/// A framebuffer of a context. The handle holds the context's name for the
/// framebuffer and the context that it belongs to, and nothing of the
/// framebuffer's state. A call that the handle builds borrows the handle, so
/// that the framebuffer cannot be deleted while a call on it waits to be made.
#[derive(Debug)]
pub struct WebGLRSFramebuffer<'ctx> {
    context: &'ctx WebGL2RenderingContext,
    inner: WebGLFramebuffer,
}

impl<'ctx> WebGLRSFramebuffer<'ctx> {
    /// The context that the framebuffer belongs to.
    pub closed spec fn owner(self) -> &'ctx WebGL2RenderingContext {
        self.context
    }

    /// The context's name for the framebuffer.
    pub closed spec fn object(self) -> WebGLFramebuffer {
        self.inner
    }

    /// The handle of `context` for the framebuffer that `context` knows as
    /// `object`.
    pub closed spec fn named(
        context: &'ctx WebGL2RenderingContext,
        object: WebGLFramebuffer,
    ) -> Self {
        WebGLRSFramebuffer { context, inner: object }
    }

    /// Makes the handle for the framebuffer that `reply` names, where `reply`
    /// is what `context` handed back for a call that created a framebuffer. A
    /// reply that names no object gives the handle of null.
    #[verifier::allow_in_spec]
    pub fn from_reply(context: &'ctx WebGL2RenderingContext, reply: &Reply) -> (handle: Self)
        ensures
            handle.owner() == context,
            handle.object().id == reply.object_id(),
        returns
            Self::named(context, WebGLFramebuffer { id: reply.object_id() }),
    {
        WebGLRSFramebuffer { context, inner: WebGLFramebuffer { id: reply.object() } }
    }

    /// Gives the context that the framebuffer belongs to.
    pub fn context(&self) -> (context: &'ctx WebGL2RenderingContext)
        ensures
            context == self.owner(),
    {
        self.context
    }

    /// Gives the context's name for the framebuffer.
    pub fn inner(&self) -> (object: WebGLFramebuffer)
        ensures
            object == self.object(),
    {
        self.inner
    }

    /// Binds the framebuffer to `target`.
    #[verifier::allow_in_spec]
    pub fn bind(&self, target: FramebufferKind) -> (c: Call<'_>)
        ensures
            c.op.shape() == Shape::Nothing,
        returns
            (Call {
                context: self.owner(),
                op: Op::BindFramebuffer { target, framebuffer: self.object() },
            }),
    {
        Call { context: self.context, op: Op::BindFramebuffer { target, framebuffer: self.inner } }
    }

    /// Asks whether the framebuffer is live. The reply is read with `as_bool`.
    #[verifier::allow_in_spec]
    pub fn is_valid(&self) -> (c: Call<'_>)
        ensures
            c.op.shape() == Shape::Bool,
        returns
            (Call { context: self.owner(), op: Op::IsFramebuffer { framebuffer: self.object() } }),
    {
        Call { context: self.context, op: Op::IsFramebuffer { framebuffer: self.inner } }
    }

    /// Deletes the framebuffer. The handle is used up: nothing can be asked of
    /// a deleted framebuffer.
    #[verifier::allow_in_spec]
    pub fn delete(self) -> (c: Call<'ctx>)
        ensures
            c.op.shape() == Shape::Nothing,
        returns
            (Call {
                context: self.owner(),
                op: Op::DeleteFramebuffer { framebuffer: self.object() },
            }),
    {
        Call { context: self.context, op: Op::DeleteFramebuffer { framebuffer: self.inner } }
    }
}

/// The handle made from the reply to a call that created a framebuffer stands
/// for the framebuffer that the reply names: it asks whether that framebuffer
/// is live, and it deletes that framebuffer, on the context that the handle was
/// made for.
pub proof fn lemma_framebuffer_lifecycle(context: &WebGL2RenderingContext, reply: Reply)
    ensures
        WebGLRSFramebuffer::from_reply(context, &reply).is_valid() == (Call {
            context,
            op: Op::IsFramebuffer { framebuffer: WebGLFramebuffer { id: reply.object_id() } },
        }),
        WebGLRSFramebuffer::from_reply(context, &reply).delete() == (Call {
            context,
            op: Op::DeleteFramebuffer { framebuffer: WebGLFramebuffer { id: reply.object_id() } },
        }),
{
}

/// Binding asks the same of the context every time: the call is fixed by the
/// context of the handle, the framebuffer that the handle stands for, and the
/// target. Nothing that a handle shows changes when it is bound.
pub proof fn lemma_framebuffer_bind_repeats<'ctx>(
    first: &WebGLRSFramebuffer<'ctx>,
    second: &WebGLRSFramebuffer<'ctx>,
    target: FramebufferKind,
)
    requires
        first.owner() == second.owner(),
        first.object() == second.object(),
    ensures
        first.bind(target) == second.bind(target),
{
}

} // verus!
