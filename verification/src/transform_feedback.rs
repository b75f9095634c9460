//! Transform feedback objects, which capture what the vertex shader puts out.
use vstd::prelude::*;
use crate::call::{Call, Op};
use crate::glenum::TransformFeedback;
use crate::rendering_context::WebGL2RenderingContext;
use crate::reply::{Reply, Shape};

verus! {

/// The context's name for a transform feedback object. The identifier 0 stands
/// for null.
#[derive(Clone, Copy, Debug, PartialEq, Eq, Structural)]
pub struct WebGLTransformFeedback {
    pub id: u32,
}

impl WebGL2RenderingContext {
    /// Creates a transform feedback object. Nothing fails here: the handle is
    /// made from the reply with `from_reply`, and whether it stands for a live
    /// transform feedback object, `is_valid` tells.
    #[verifier::allow_in_spec]
    pub fn create_transform_feedback(&self) -> (c: Call<'_>)
        ensures
            c.op.shape() == Shape::Object,
        returns
            (Call { context: self, op: Op::CreateTransformFeedback }),
    {
        Call { context: self, op: Op::CreateTransformFeedback }
    }
}

/// A transform feedback object of a context. The handle holds the context's
/// name for the transform feedback object and the context that it belongs to,
/// and nothing of the transform feedback object's state. A call that the handle
/// builds borrows the handle, so that the transform feedback object cannot be
/// deleted while a call on it waits to be made.
#[derive(Debug)]
pub struct WebGLRSTransformFeedback<'ctx> {
    context: &'ctx WebGL2RenderingContext,
    inner: WebGLTransformFeedback,
}

impl<'ctx> WebGLRSTransformFeedback<'ctx> {
    /// The context that the transform feedback object belongs to.
    pub closed spec fn owner(self) -> &'ctx WebGL2RenderingContext {
        self.context
    }

    /// The context's name for the transform feedback object.
    pub closed spec fn object(self) -> WebGLTransformFeedback {
        self.inner
    }

    /// The handle of `context` for the transform feedback object that `context`
    /// knows as `object`.
    pub closed spec fn named(
        context: &'ctx WebGL2RenderingContext,
        object: WebGLTransformFeedback,
    ) -> Self {
        WebGLRSTransformFeedback { context, inner: object }
    }

    /// Makes the handle for the transform feedback object that `reply` names,
    /// where `reply` is what `context` handed back for a call that created a
    /// transform feedback object. A reply that names no object gives the handle
    /// of null.
    #[verifier::allow_in_spec]
    pub fn from_reply(context: &'ctx WebGL2RenderingContext, reply: &Reply) -> (handle: Self)
        ensures
            handle.owner() == context,
            handle.object().id == reply.object_id(),
        returns
            Self::named(context, WebGLTransformFeedback { id: reply.object_id() }),
    {
        WebGLRSTransformFeedback { context, inner: WebGLTransformFeedback { id: reply.object() } }
    }

    /// Gives the context that the transform feedback object belongs to.
    pub fn context(&self) -> (context: &'ctx WebGL2RenderingContext)
        ensures
            context == self.owner(),
    {
        self.context
    }

    /// Gives the context's name for the transform feedback object.
    pub fn inner(&self) -> (object: WebGLTransformFeedback)
        ensures
            object == self.object(),
    {
        self.inner
    }

    /// Deletes the transform feedback object. The handle is used up: nothing
    /// can be asked of a deleted transform feedback object.
    #[verifier::allow_in_spec]
    pub fn delete(self) -> (c: Call<'ctx>)
        ensures
            c.op.shape() == Shape::Nothing,
        returns
            (Call {
                context: self.owner(),
                op: Op::DeleteTransformFeedback { transform_feedback: self.object() },
            }),
    {
        Call {
            context: self.context,
            op: Op::DeleteTransformFeedback { transform_feedback: self.inner },
        }
    }

    /// Asks whether the transform feedback object is live. The reply is read
    /// with `as_bool`.
    #[verifier::allow_in_spec]
    pub fn is_valid(&self) -> (c: Call<'_>)
        ensures
            c.op.shape() == Shape::Bool,
        returns
            (Call {
                context: self.owner(),
                op: Op::IsTransformFeedback { transform_feedback: self.object() },
            }),
    {
        Call {
            context: self.context,
            op: Op::IsTransformFeedback { transform_feedback: self.inner },
        }
    }

    /// Binds the transform feedback object to `target`.
    #[verifier::allow_in_spec]
    pub fn bind(&self, target: TransformFeedback) -> (c: Call<'_>)
        ensures
            c.op.shape() == Shape::Nothing,
        returns
            (Call {
                context: self.owner(),
                op: Op::BindTransformFeedback { target, transform_feedback: self.object() },
            }),
    {
        Call {
            context: self.context,
            op: Op::BindTransformFeedback { target, transform_feedback: self.inner },
        }
    }
}

/// The handle made from the reply to a call that created a transform feedback
/// object stands for the transform feedback object that the reply names: it
/// asks whether that transform feedback object is live, and it deletes that
/// transform feedback object, on the context that the handle was made for.
pub proof fn lemma_transform_feedback_lifecycle(context: &WebGL2RenderingContext, reply: Reply)
    ensures
        WebGLRSTransformFeedback::from_reply(context, &reply).is_valid() == (Call {
            context,
            op: Op::IsTransformFeedback {
                transform_feedback: WebGLTransformFeedback { id: reply.object_id() },
            },
        }),
        WebGLRSTransformFeedback::from_reply(context, &reply).delete() == (Call {
            context,
            op: Op::DeleteTransformFeedback {
                transform_feedback: WebGLTransformFeedback { id: reply.object_id() },
            },
        }),
{
}

/// Binding asks the same of the context every time: the call is fixed by the
/// context of the handle, the transform feedback object that the handle stands
/// for, and the target. Nothing that a handle shows changes when it is bound.
pub proof fn lemma_transform_feedback_bind_repeats<'ctx>(
    first: &WebGLRSTransformFeedback<'ctx>,
    second: &WebGLRSTransformFeedback<'ctx>,
    target: TransformFeedback,
)
    requires
        first.owner() == second.owner(),
        first.object() == second.object(),
    ensures
        first.bind(target) == second.bind(target),
{
}

} // verus!
