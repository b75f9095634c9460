//! Vertex array objects, which name sets of vertex data.
use vstd::prelude::*;
use crate::call::{Call, Op};
use crate::rendering_context::WebGL2RenderingContext;
use crate::reply::{Reply, Shape};

verus! {

/// The context's name for a vertex array object. The identifier 0 stands for
/// null.
#[derive(Clone, Copy, Debug, PartialEq, Eq, Structural)]
pub struct WebGLVertexArrayObject {
    pub id: u32,
}

impl WebGL2RenderingContext {
    /// Creates a vertex array object. Nothing fails here: the handle is made
    /// from the reply with `from_reply`, and whether it stands for a live
    /// vertex array object, `is_valid` tells.
    #[verifier::allow_in_spec]
    pub fn create_vertex_array(&self) -> (c: Call<'_>)
        ensures
            c.op.shape() == Shape::Object,
        returns
            (Call { context: self, op: Op::CreateVertexArray }),
    {
        Call { context: self, op: Op::CreateVertexArray }
    }
}

/// A vertex array object of a context. The handle holds the context's name for
/// the vertex array object and the context that it belongs to, and nothing of
/// the vertex array object's state. A call that the handle builds borrows the
/// handle, so that the vertex array object cannot be deleted while a call on it
/// waits to be made.
#[derive(Debug)]
pub struct WebGLRSVertexArrayObject<'ctx> {
    context: &'ctx WebGL2RenderingContext,
    inner: WebGLVertexArrayObject,
}

impl<'ctx> WebGLRSVertexArrayObject<'ctx> {
    /// The context that the vertex array object belongs to.
    pub closed spec fn owner(self) -> &'ctx WebGL2RenderingContext {
        self.context
    }

    /// The context's name for the vertex array object.
    pub closed spec fn object(self) -> WebGLVertexArrayObject {
        self.inner
    }

    /// The handle of `context` for the vertex array object that `context` knows
    /// as `object`.
    pub closed spec fn named(
        context: &'ctx WebGL2RenderingContext,
        object: WebGLVertexArrayObject,
    ) -> Self {
        WebGLRSVertexArrayObject { context, inner: object }
    }

    /// Makes the handle for the vertex array object that `reply` names, where
    /// `reply` is what `context` handed back for a call that created a vertex
    /// array object. A reply that names no object gives the handle of null.
    #[verifier::allow_in_spec]
    pub fn from_reply(context: &'ctx WebGL2RenderingContext, reply: &Reply) -> (handle: Self)
        ensures
            handle.owner() == context,
            handle.object().id == reply.object_id(),
        returns
            Self::named(context, WebGLVertexArrayObject { id: reply.object_id() }),
    {
        WebGLRSVertexArrayObject { context, inner: WebGLVertexArrayObject { id: reply.object() } }
    }

    /// Gives the context that the vertex array object belongs to.
    pub fn context(&self) -> (context: &'ctx WebGL2RenderingContext)
        ensures
            context == self.owner(),
    {
        self.context
    }

    /// Gives the context's name for the vertex array object.
    pub fn inner(&self) -> (object: WebGLVertexArrayObject)
        ensures
            object == self.object(),
    {
        self.inner
    }

    /// Deletes the vertex array object. The handle is used up: nothing can be
    /// asked of a deleted vertex array object.
    #[verifier::allow_in_spec]
    pub fn delete(self) -> (c: Call<'ctx>)
        ensures
            c.op.shape() == Shape::Nothing,
        returns
            (Call {
                context: self.owner(),
                op: Op::DeleteVertexArray { vertex_array: self.object() },
            }),
    {
        Call { context: self.context, op: Op::DeleteVertexArray { vertex_array: self.inner } }
    }

    /// Asks whether the vertex array object is live. The reply is read with
    /// `as_bool`.
    #[verifier::allow_in_spec]
    pub fn is_valid(&self) -> (c: Call<'_>)
        ensures
            c.op.shape() == Shape::Bool,
        returns
            (Call { context: self.owner(), op: Op::IsVertexArray { vertex_array: self.object() } }),
    {
        Call { context: self.context, op: Op::IsVertexArray { vertex_array: self.inner } }
    }

    /// Binds the vertex array object.
    #[verifier::allow_in_spec]
    pub fn bind(&self) -> (c: Call<'_>)
        ensures
            c.op.shape() == Shape::Nothing,
        returns
            (Call {
                context: self.owner(),
                op: Op::BindVertexArray { vertex_array: self.object() },
            }),
    {
        Call { context: self.context, op: Op::BindVertexArray { vertex_array: self.inner } }
    }
}

/// The handle made from the reply to a call that created a vertex array object
/// stands for the vertex array object that the reply names: it asks whether
/// that vertex array object is live, and it deletes that vertex array object,
/// on the context that the handle was made for.
pub proof fn lemma_vertex_array_object_lifecycle(context: &WebGL2RenderingContext, reply: Reply)
    ensures
        WebGLRSVertexArrayObject::from_reply(context, &reply).is_valid() == (Call {
            context,
            op: Op::IsVertexArray {
                vertex_array: WebGLVertexArrayObject { id: reply.object_id() },
            },
        }),
        WebGLRSVertexArrayObject::from_reply(context, &reply).delete() == (Call {
            context,
            op: Op::DeleteVertexArray {
                vertex_array: WebGLVertexArrayObject { id: reply.object_id() },
            },
        }),
{
}

/// Binding asks the same of the context every time: the call is fixed by the
/// context of the handle, the vertex array object that the handle stands for,
/// and nothing else. Nothing that a handle shows changes when it is bound.
pub proof fn lemma_vertex_array_object_bind_repeats<'ctx>(
    first: &WebGLRSVertexArrayObject<'ctx>,
    second: &WebGLRSVertexArrayObject<'ctx>,
)
    requires
        first.owner() == second.owner(),
        first.object() == second.object(),
    ensures
        first.bind() == second.bind(),
{
}

} // verus!
