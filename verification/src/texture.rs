//! Textures, which give storage and state to texturing.
use vstd::prelude::*;
use crate::call::{Call, Op};
use crate::glenum::{Attachment, FramebufferKind, TextureBindPoint, TextureKind};
use crate::rendering_context::WebGL2RenderingContext;
use crate::reply::{Reply, Shape};

verus! {

/// The context's name for a texture. The identifier 0 stands for null.
#[derive(Clone, Copy, Debug, PartialEq, Eq, Structural)]
pub struct WebGLTexture {
    pub id: u32,
}

impl WebGL2RenderingContext {
    /// Creates a texture. Nothing fails here: the handle is made from the reply
    /// with `from_reply`, and whether it stands for a live texture, `is_valid`
    /// tells.
    #[verifier::allow_in_spec]
    pub fn create_texture(&self) -> (c: Call<'_>)
        ensures
            c.op.shape() == Shape::Object,
        returns
            (Call { context: self, op: Op::CreateTexture }),
    {
        Call { context: self, op: Op::CreateTexture }
    }
}

/// A texture of a context. The handle holds the context's name for the texture
/// and the context that it belongs to, and nothing of the texture's state. A
/// call that the handle builds borrows the handle, so that the texture cannot
/// be deleted while a call on it waits to be made.
#[derive(Debug)]
pub struct WebGLRSTexture<'ctx> {
    context: &'ctx WebGL2RenderingContext,
    inner: WebGLTexture,
}

impl<'ctx> WebGLRSTexture<'ctx> {
    /// The context that the texture belongs to.
    pub closed spec fn owner(self) -> &'ctx WebGL2RenderingContext {
        self.context
    }

    /// The context's name for the texture.
    pub closed spec fn object(self) -> WebGLTexture {
        self.inner
    }

    /// The handle of `context` for the texture that `context` knows as
    /// `object`.
    pub closed spec fn named(context: &'ctx WebGL2RenderingContext, object: WebGLTexture) -> Self {
        WebGLRSTexture { context, inner: object }
    }

    /// Makes the handle for the texture that `reply` names, where `reply` is
    /// what `context` handed back for a call that created a texture. A reply
    /// that names no object gives the handle of null.
    #[verifier::allow_in_spec]
    pub fn from_reply(context: &'ctx WebGL2RenderingContext, reply: &Reply) -> (handle: Self)
        ensures
            handle.owner() == context,
            handle.object().id == reply.object_id(),
        returns
            Self::named(context, WebGLTexture { id: reply.object_id() }),
    {
        WebGLRSTexture { context, inner: WebGLTexture { id: reply.object() } }
    }

    /// Gives the context that the texture belongs to.
    pub fn context(&self) -> (context: &'ctx WebGL2RenderingContext)
        ensures
            context == self.owner(),
    {
        self.context
    }

    /// Gives the context's name for the texture.
    pub fn inner(&self) -> (object: WebGLTexture)
        ensures
            object == self.object(),
    {
        self.inner
    }

    /// Deletes the texture. The handle is used up: nothing can be asked of a
    /// deleted texture.
    #[verifier::allow_in_spec]
    pub fn delete(self) -> (c: Call<'ctx>)
        ensures
            c.op.shape() == Shape::Nothing,
        returns
            (Call { context: self.owner(), op: Op::DeleteTexture { texture: self.object() } }),
    {
        Call { context: self.context, op: Op::DeleteTexture { texture: self.inner } }
    }

    /// Binds the texture to `target`.
    #[verifier::allow_in_spec]
    pub fn bind(&self, target: TextureKind) -> (c: Call<'_>)
        ensures
            c.op.shape() == Shape::Nothing,
        returns
            (Call {
                context: self.owner(),
                op: Op::BindTexture { target, texture: self.object() },
            }),
    {
        Call { context: self.context, op: Op::BindTexture { target, texture: self.inner } }
    }

    /// Asks whether the texture is live. The reply is read with `as_bool`.
    #[verifier::allow_in_spec]
    pub fn is_valid(&self) -> (c: Call<'_>)
        ensures
            c.op.shape() == Shape::Bool,
        returns
            (Call { context: self.owner(), op: Op::IsTexture { texture: self.object() } }),
    {
        Call { context: self.context, op: Op::IsTexture { texture: self.inner } }
    }

    /// Attaches level `level` of the texture to the framebuffer bound to
    /// `target`, at `attachment`.
    #[verifier::allow_in_spec]
    pub fn attach_framebuffer(
        &self,
        target: FramebufferKind,
        attachment: Attachment,
        tex_target: TextureBindPoint,
        level: i32,
    ) -> (c: Call<'_>)
        ensures
            c.op.shape() == Shape::Nothing,
        returns
            (Call {
                context: self.owner(),
                op: Op::FramebufferTexture2D {
                    target,
                    attachment,
                    textarget: tex_target,
                    texture: self.object(),
                    level,
                },
            }),
    {
        Call {
            context: self.context,
            op: Op::FramebufferTexture2D {
                target,
                attachment,
                textarget: tex_target,
                texture: self.inner,
                level,
            },
        }
    }

    /// Attaches layer `layer` of level `level` of the texture to the
    /// framebuffer bound to `target`, at `attachment`.
    #[verifier::allow_in_spec]
    pub fn attach_layer_framebuffer(
        &self,
        target: FramebufferKind,
        attachment: Attachment,
        level: i32,
        layer: i32,
    ) -> (c: Call<'_>)
        ensures
            c.op.shape() == Shape::Nothing,
        returns
            (Call {
                context: self.owner(),
                op: Op::FramebufferTextureLayer {
                    target,
                    attachment,
                    texture: self.object(),
                    level,
                    layer,
                },
            }),
    {
        Call {
            context: self.context,
            op: Op::FramebufferTextureLayer {
                target,
                attachment,
                texture: self.inner,
                level,
                layer,
            },
        }
    }
}

/// The handle made from the reply to a call that created a texture stands for
/// the texture that the reply names: it asks whether that texture is live, and
/// it deletes that texture, on the context that the handle was made for.
pub proof fn lemma_texture_lifecycle(context: &WebGL2RenderingContext, reply: Reply)
    ensures
        WebGLRSTexture::from_reply(context, &reply).is_valid() == (Call {
            context,
            op: Op::IsTexture { texture: WebGLTexture { id: reply.object_id() } },
        }),
        WebGLRSTexture::from_reply(context, &reply).delete() == (Call {
            context,
            op: Op::DeleteTexture { texture: WebGLTexture { id: reply.object_id() } },
        }),
{
}

/// Binding asks the same of the context every time: the call is fixed by the
/// context of the handle, the texture that the handle stands for, and the
/// target. Nothing that a handle shows changes when it is bound.
pub proof fn lemma_texture_bind_repeats<'ctx>(
    first: &WebGLRSTexture<'ctx>,
    second: &WebGLRSTexture<'ctx>,
    target: TextureKind,
)
    requires
        first.owner() == second.owner(),
        first.object() == second.object(),
    ensures
        first.bind(target) == second.bind(target),
{
}

} // verus!
