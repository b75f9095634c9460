//! Renderbuffers, which hold an image or serve as source or target of
//! rendering.
use vstd::prelude::*;
use crate::call::{Call, Op};
use crate::glenum::{Attachment, FramebufferKind, RenderbufferKind};
use crate::rendering_context::WebGL2RenderingContext;
use crate::reply::{Reply, Shape};

verus! {

/// The context's name for a renderbuffer. The identifier 0 stands for null.
#[derive(Clone, Copy, Debug, PartialEq, Eq, Structural)]
pub struct WebGLRenderbuffer {
    pub id: u32,
}

impl WebGL2RenderingContext {
    /// Creates a renderbuffer. Nothing fails here: the handle is made from the
    /// reply with `from_reply`, and whether it stands for a live renderbuffer,
    /// `is_valid` tells.
    #[verifier::allow_in_spec]
    pub fn create_renderbuffer(&self) -> (c: Call<'_>)
        ensures
            c.op.shape() == Shape::Object,
        returns
            (Call { context: self, op: Op::CreateRenderbuffer }),
    {
        Call { context: self, op: Op::CreateRenderbuffer }
    }
}

/// A renderbuffer of a context. The handle holds the context's name for the
/// renderbuffer and the context that it belongs to, and nothing of the
/// renderbuffer's state. A call that the handle builds borrows the handle, so
/// that the renderbuffer cannot be deleted while a call on it waits to be made.
#[derive(Debug)]
pub struct WebGLRSRenderbuffer<'ctx> {
    context: &'ctx WebGL2RenderingContext,
    inner: WebGLRenderbuffer,
}

impl<'ctx> WebGLRSRenderbuffer<'ctx> {
    /// The context that the renderbuffer belongs to.
    pub closed spec fn owner(self) -> &'ctx WebGL2RenderingContext {
        self.context
    }

    /// The context's name for the renderbuffer.
    pub closed spec fn object(self) -> WebGLRenderbuffer {
        self.inner
    }

    /// The handle of `context` for the renderbuffer that `context` knows as
    /// `object`.
    pub closed spec fn named(
        context: &'ctx WebGL2RenderingContext,
        object: WebGLRenderbuffer,
    ) -> Self {
        WebGLRSRenderbuffer { context, inner: object }
    }

    /// Makes the handle for the renderbuffer that `reply` names, where `reply`
    /// is what `context` handed back for a call that created a renderbuffer. A
    /// reply that names no object gives the handle of null.
    #[verifier::allow_in_spec]
    pub fn from_reply(context: &'ctx WebGL2RenderingContext, reply: &Reply) -> (handle: Self)
        ensures
            handle.owner() == context,
            handle.object().id == reply.object_id(),
        returns
            Self::named(context, WebGLRenderbuffer { id: reply.object_id() }),
    {
        WebGLRSRenderbuffer { context, inner: WebGLRenderbuffer { id: reply.object() } }
    }

    /// Gives the context that the renderbuffer belongs to.
    pub fn context(&self) -> (context: &'ctx WebGL2RenderingContext)
        ensures
            context == self.owner(),
    {
        self.context
    }

    /// Gives the context's name for the renderbuffer.
    pub fn inner(&self) -> (object: WebGLRenderbuffer)
        ensures
            object == self.object(),
    {
        self.inner
    }

    /// Deletes the renderbuffer. The handle is used up: nothing can be asked of
    /// a deleted renderbuffer.
    #[verifier::allow_in_spec]
    pub fn delete(self) -> (c: Call<'ctx>)
        ensures
            c.op.shape() == Shape::Nothing,
        returns
            (Call {
                context: self.owner(),
                op: Op::DeleteRenderbuffer { renderbuffer: self.object() },
            }),
    {
        Call { context: self.context, op: Op::DeleteRenderbuffer { renderbuffer: self.inner } }
    }

    /// Asks whether the renderbuffer is live. The reply is read with `as_bool`.
    #[verifier::allow_in_spec]
    pub fn is_valid(&self) -> (c: Call<'_>)
        ensures
            c.op.shape() == Shape::Bool,
        returns
            (Call {
                context: self.owner(),
                op: Op::IsRenderbuffer { renderbuffer: self.object() },
            }),
    {
        Call { context: self.context, op: Op::IsRenderbuffer { renderbuffer: self.inner } }
    }

    /// Binds the renderbuffer to `target`.
    #[verifier::allow_in_spec]
    pub fn bind(&self, target: RenderbufferKind) -> (c: Call<'_>)
        ensures
            c.op.shape() == Shape::Nothing,
        returns
            (Call {
                context: self.owner(),
                op: Op::BindRenderbuffer { target, renderbuffer: self.object() },
            }),
    {
        Call {
            context: self.context,
            op: Op::BindRenderbuffer { target, renderbuffer: self.inner },
        }
    }

    /// Attaches the renderbuffer to the framebuffer bound to `fb_target`, at
    /// `attachment`.
    #[verifier::allow_in_spec]
    pub fn attach_framebuffer(
        &self,
        fb_target: FramebufferKind,
        attachment: Attachment,
        rb_target: RenderbufferKind,
    ) -> (c: Call<'_>)
        ensures
            c.op.shape() == Shape::Nothing,
        returns
            (Call {
                context: self.owner(),
                op: Op::FramebufferRenderbuffer {
                    target: fb_target,
                    attachment,
                    renderbuffertarget: rb_target,
                    renderbuffer: self.object(),
                },
            }),
    {
        Call {
            context: self.context,
            op: Op::FramebufferRenderbuffer {
                target: fb_target,
                attachment,
                renderbuffertarget: rb_target,
                renderbuffer: self.inner,
            },
        }
    }
}

/// The handle made from the reply to a call that created a renderbuffer stands
/// for the renderbuffer that the reply names: it asks whether that renderbuffer
/// is live, and it deletes that renderbuffer, on the context that the handle
/// was made for.
pub proof fn lemma_renderbuffer_lifecycle(context: &WebGL2RenderingContext, reply: Reply)
    ensures
        WebGLRSRenderbuffer::from_reply(context, &reply).is_valid() == (Call {
            context,
            op: Op::IsRenderbuffer { renderbuffer: WebGLRenderbuffer { id: reply.object_id() } },
        }),
        WebGLRSRenderbuffer::from_reply(context, &reply).delete() == (Call {
            context,
            op: Op::DeleteRenderbuffer {
                renderbuffer: WebGLRenderbuffer { id: reply.object_id() },
            },
        }),
{
}

/// Binding asks the same of the context every time: the call is fixed by the
/// context of the handle, the renderbuffer that the handle stands for, and the
/// target. Nothing that a handle shows changes when it is bound.
pub proof fn lemma_renderbuffer_bind_repeats<'ctx>(
    first: &WebGLRSRenderbuffer<'ctx>,
    second: &WebGLRSRenderbuffer<'ctx>,
    target: RenderbufferKind,
)
    requires
        first.owner() == second.owner(),
        first.object() == second.object(),
    ensures
        first.bind(target) == second.bind(target),
{
}

} // verus!
