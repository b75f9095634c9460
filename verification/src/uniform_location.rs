//! Locations of uniform variables.
use vstd::prelude::*;
use crate::rendering_context::WebGL2RenderingContext;
use crate::reply::Reply;

verus! {

/// The context's name for the location of a uniform variable of a linked
/// program. The identifier 0 stands for null.
#[derive(Clone, Copy, Debug, PartialEq, Eq, Structural)]
pub struct WebGLUniformLocation {
    pub id: u32,
}

/// The location of a uniform variable. It holds for the program as it was
/// linked when the location was asked for.
#[derive(Clone, Copy, Debug)]
pub struct WebGLRSUniformLocation<'ctx> {
    context: &'ctx WebGL2RenderingContext,
    inner: WebGLUniformLocation,
}

impl<'ctx> WebGLRSUniformLocation<'ctx> {
    /// The context that the location belongs to.
    pub closed spec fn owner(self) -> &'ctx WebGL2RenderingContext {
        self.context
    }

    /// The context's name for the location.
    pub closed spec fn object(self) -> WebGLUniformLocation {
        self.inner
    }

    /// The handle of `context` for the location that `context` knows as
    /// `object`.
    pub closed spec fn named(
        context: &'ctx WebGL2RenderingContext,
        object: WebGLUniformLocation,
    ) -> Self {
        WebGLRSUniformLocation { context, inner: object }
    }

    /// Makes the handle for the location that `reply` names, where `reply` is
    /// what `context` handed back for a call that named the location of a
    /// uniform. A reply that names no object gives the handle of null.
    #[verifier::allow_in_spec]
    pub fn from_reply(context: &'ctx WebGL2RenderingContext, reply: &Reply) -> (handle: Self)
        ensures
            handle.owner() == context,
            handle.object().id == reply.object_id(),
        returns
            Self::named(context, WebGLUniformLocation { id: reply.object_id() }),
    {
        WebGLRSUniformLocation { context, inner: WebGLUniformLocation { id: reply.object() } }
    }

    /// Gives the context that the location belongs to.
    pub fn context(&self) -> (context: &'ctx WebGL2RenderingContext)
        ensures
            context == self.owner(),
    {
        self.context
    }

    /// Gives the context's name for the location.
    pub fn inner(&self) -> (object: WebGLUniformLocation)
        ensures
            object == self.object(),
    {
        self.inner
    }
}

} // verus!
