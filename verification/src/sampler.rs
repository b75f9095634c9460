//! Samplers, which hold the parameters by which a texture is sampled.
use vstd::prelude::*;
use crate::call::{Call, Op};
use crate::glenum::{
    Catalog, CompareMode, DepthTest, GlEnum, TextureMagFilter, TextureMinFilter,
    TextureParameter, TextureWrap,
};
use crate::number::Float32;
use crate::rendering_context::WebGL2RenderingContext;
use crate::reply::{Reply, Shape};

verus! {

/// The context's name for a sampler. The identifier 0 stands for null.
#[derive(Clone, Copy, Debug, PartialEq, Eq, Structural)]
pub struct WebGLSampler {
    pub id: u32,
}

impl WebGL2RenderingContext {
    /// Creates a sampler. Nothing fails here: the handle is made from the reply
    /// with `from_reply`, and whether it stands for a live sampler, `is_valid`
    /// tells.
    #[verifier::allow_in_spec]
    pub fn create_sampler(&self) -> (c: Call<'_>)
        ensures
            c.op.shape() == Shape::Object,
        returns
            (Call { context: self, op: Op::CreateSampler }),
    {
        Call { context: self, op: Op::CreateSampler }
    }
}

/// A sampler of a context. The handle holds the context's name for the sampler
/// and the context that it belongs to, and nothing of the sampler's state. A
/// call that the handle builds borrows the handle, so that the sampler cannot
/// be deleted while a call on it waits to be made.
#[derive(Debug)]
pub struct WebGLRSSampler<'ctx> {
    context: &'ctx WebGL2RenderingContext,
    inner: WebGLSampler,
}

impl<'ctx> WebGLRSSampler<'ctx> {
    /// The context that the sampler belongs to.
    pub closed spec fn owner(self) -> &'ctx WebGL2RenderingContext {
        self.context
    }

    /// The context's name for the sampler.
    pub closed spec fn object(self) -> WebGLSampler {
        self.inner
    }

    /// The handle of `context` for the sampler that `context` knows as
    /// `object`.
    pub closed spec fn named(context: &'ctx WebGL2RenderingContext, object: WebGLSampler) -> Self {
        WebGLRSSampler { context, inner: object }
    }

    /// Makes the handle for the sampler that `reply` names, where `reply` is
    /// what `context` handed back for a call that created a sampler. A reply
    /// that names no object gives the handle of null.
    #[verifier::allow_in_spec]
    pub fn from_reply(context: &'ctx WebGL2RenderingContext, reply: &Reply) -> (handle: Self)
        ensures
            handle.owner() == context,
            handle.object().id == reply.object_id(),
        returns
            Self::named(context, WebGLSampler { id: reply.object_id() }),
    {
        WebGLRSSampler { context, inner: WebGLSampler { id: reply.object() } }
    }

    /// Gives the context that the sampler belongs to.
    pub fn context(&self) -> (context: &'ctx WebGL2RenderingContext)
        ensures
            context == self.owner(),
    {
        self.context
    }

    /// Gives the context's name for the sampler.
    pub fn inner(&self) -> (object: WebGLSampler)
        ensures
            object == self.object(),
    {
        self.inner
    }

    /// Deletes the sampler. The handle is used up: nothing can be asked of a
    /// deleted sampler.
    #[verifier::allow_in_spec]
    pub fn delete(self) -> (c: Call<'ctx>)
        ensures
            c.op.shape() == Shape::Nothing,
        returns
            (Call { context: self.owner(), op: Op::DeleteSampler { sampler: self.object() } }),
    {
        Call { context: self.context, op: Op::DeleteSampler { sampler: self.inner } }
    }

    /// Binds the sampler to the texture unit with index `unit`.
    #[verifier::allow_in_spec]
    pub fn bind(&self, unit: u32) -> (c: Call<'_>)
        ensures
            c.op.shape() == Shape::Nothing,
        returns
            (Call { context: self.owner(), op: Op::BindSampler { unit, sampler: self.object() } }),
    {
        Call { context: self.context, op: Op::BindSampler { unit, sampler: self.inner } }
    }

    /// Asks whether the sampler is live. The reply is read with `as_bool`.
    #[verifier::allow_in_spec]
    pub fn is_valid(&self) -> (c: Call<'_>)
        ensures
            c.op.shape() == Shape::Bool,
        returns
            (Call { context: self.owner(), op: Op::IsSampler { sampler: self.object() } }),
    {
        Call { context: self.context, op: Op::IsSampler { sampler: self.inner } }
    }

    /// Asks for the comparison function of the sampler. The reply is read with
    /// `as_enum`, as a value of `DepthTest`.
    #[verifier::allow_in_spec]
    pub fn texture_compare_func(&self) -> (c: Call<'_>)
        ensures
            c.op.shape() == Shape::Enum(Catalog::DepthTest),
        returns
            (Call {
                context: self.owner(),
                op: Op::GetSamplerParameter {
                    sampler: self.object(),
                    pname: TextureParameter::CompareFunc,
                },
            }),
    {
        Call {
            context: self.context,
            op: Op::GetSamplerParameter {
                sampler: self.inner,
                pname: TextureParameter::CompareFunc,
            },
        }
    }

    /// Sets the comparison function of the sampler.
    #[verifier::allow_in_spec]
    pub fn set_texture_compare_func(&self, value: DepthTest) -> (c: Call<'_>)
        ensures
            c.op.shape() == Shape::Nothing,
        returns
            (Call {
                context: self.owner(),
                op: Op::SamplerParameteri {
                    sampler: self.object(),
                    pname: TextureParameter::CompareFunc,
                    param: value.code() as i32,
                },
            }),
    {
        Call {
            context: self.context,
            op: Op::SamplerParameteri {
                sampler: self.inner,
                pname: TextureParameter::CompareFunc,
                param: value.to_gl() as i32,
            },
        }
    }

    /// Asks for the comparison mode of the sampler. The reply is read with
    /// `as_enum`, as a value of `CompareMode`.
    #[verifier::allow_in_spec]
    pub fn texture_compare_mode(&self) -> (c: Call<'_>)
        ensures
            c.op.shape() == Shape::Enum(Catalog::CompareMode),
        returns
            (Call {
                context: self.owner(),
                op: Op::GetSamplerParameter {
                    sampler: self.object(),
                    pname: TextureParameter::CompareMode,
                },
            }),
    {
        Call {
            context: self.context,
            op: Op::GetSamplerParameter {
                sampler: self.inner,
                pname: TextureParameter::CompareMode,
            },
        }
    }

    /// Sets the comparison mode of the sampler.
    #[verifier::allow_in_spec]
    pub fn set_texture_compare_mode(&self, value: CompareMode) -> (c: Call<'_>)
        ensures
            c.op.shape() == Shape::Nothing,
        returns
            (Call {
                context: self.owner(),
                op: Op::SamplerParameteri {
                    sampler: self.object(),
                    pname: TextureParameter::CompareMode,
                    param: value.code() as i32,
                },
            }),
    {
        Call {
            context: self.context,
            op: Op::SamplerParameteri {
                sampler: self.inner,
                pname: TextureParameter::CompareMode,
                param: value.to_gl() as i32,
            },
        }
    }

    /// Asks for the magnification filter of the sampler. The reply is read with
    /// `as_enum`, as a value of `TextureMagFilter`.
    #[verifier::allow_in_spec]
    pub fn texture_mag_filter(&self) -> (c: Call<'_>)
        ensures
            c.op.shape() == Shape::Enum(Catalog::TextureMagFilter),
        returns
            (Call {
                context: self.owner(),
                op: Op::GetSamplerParameter {
                    sampler: self.object(),
                    pname: TextureParameter::MagFilter,
                },
            }),
    {
        Call {
            context: self.context,
            op: Op::GetSamplerParameter {
                sampler: self.inner,
                pname: TextureParameter::MagFilter,
            },
        }
    }

    /// Sets the magnification filter of the sampler.
    #[verifier::allow_in_spec]
    pub fn set_texture_mag_filter(&self, value: TextureMagFilter) -> (c: Call<'_>)
        ensures
            c.op.shape() == Shape::Nothing,
        returns
            (Call {
                context: self.owner(),
                op: Op::SamplerParameteri {
                    sampler: self.object(),
                    pname: TextureParameter::MagFilter,
                    param: value.code() as i32,
                },
            }),
    {
        Call {
            context: self.context,
            op: Op::SamplerParameteri {
                sampler: self.inner,
                pname: TextureParameter::MagFilter,
                param: value.to_gl() as i32,
            },
        }
    }

    /// Asks for the maximum level of detail of the sampler. The reply is read
    /// with `as_float`.
    #[verifier::allow_in_spec]
    pub fn texture_max_lod(&self) -> (c: Call<'_>)
        ensures
            c.op.shape() == Shape::Float,
        returns
            (Call {
                context: self.owner(),
                op: Op::GetSamplerParameter {
                    sampler: self.object(),
                    pname: TextureParameter::MaxLod,
                },
            }),
    {
        Call {
            context: self.context,
            op: Op::GetSamplerParameter {
                sampler: self.inner,
                pname: TextureParameter::MaxLod,
            },
        }
    }

    /// Sets the maximum level of detail of the sampler.
    #[verifier::allow_in_spec]
    pub fn set_texture_max_lod(&self, value: Float32) -> (c: Call<'_>)
        ensures
            c.op.shape() == Shape::Nothing,
        returns
            (Call {
                context: self.owner(),
                op: Op::SamplerParameterf {
                    sampler: self.object(),
                    pname: TextureParameter::MaxLod,
                    param: value,
                },
            }),
    {
        Call {
            context: self.context,
            op: Op::SamplerParameterf {
                sampler: self.inner,
                pname: TextureParameter::MaxLod,
                param: value,
            },
        }
    }

    /// Asks for the minification filter of the sampler. The reply is read with
    /// `as_enum`, as a value of `TextureMinFilter`.
    #[verifier::allow_in_spec]
    pub fn texture_min_filter(&self) -> (c: Call<'_>)
        ensures
            c.op.shape() == Shape::Enum(Catalog::TextureMinFilter),
        returns
            (Call {
                context: self.owner(),
                op: Op::GetSamplerParameter {
                    sampler: self.object(),
                    pname: TextureParameter::MinFilter,
                },
            }),
    {
        Call {
            context: self.context,
            op: Op::GetSamplerParameter {
                sampler: self.inner,
                pname: TextureParameter::MinFilter,
            },
        }
    }

    /// Sets the minification filter of the sampler.
    #[verifier::allow_in_spec]
    pub fn set_texture_min_filter(&self, value: TextureMinFilter) -> (c: Call<'_>)
        ensures
            c.op.shape() == Shape::Nothing,
        returns
            (Call {
                context: self.owner(),
                op: Op::SamplerParameteri {
                    sampler: self.object(),
                    pname: TextureParameter::MinFilter,
                    param: value.code() as i32,
                },
            }),
    {
        Call {
            context: self.context,
            op: Op::SamplerParameteri {
                sampler: self.inner,
                pname: TextureParameter::MinFilter,
                param: value.to_gl() as i32,
            },
        }
    }

    /// Asks for the minimum level of detail of the sampler. The reply is read
    /// with `as_float`.
    #[verifier::allow_in_spec]
    pub fn texture_min_lod(&self) -> (c: Call<'_>)
        ensures
            c.op.shape() == Shape::Float,
        returns
            (Call {
                context: self.owner(),
                op: Op::GetSamplerParameter {
                    sampler: self.object(),
                    pname: TextureParameter::MinLod,
                },
            }),
    {
        Call {
            context: self.context,
            op: Op::GetSamplerParameter {
                sampler: self.inner,
                pname: TextureParameter::MinLod,
            },
        }
    }

    /// Sets the minimum level of detail of the sampler.
    #[verifier::allow_in_spec]
    pub fn set_texture_min_lod(&self, value: Float32) -> (c: Call<'_>)
        ensures
            c.op.shape() == Shape::Nothing,
        returns
            (Call {
                context: self.owner(),
                op: Op::SamplerParameterf {
                    sampler: self.object(),
                    pname: TextureParameter::MinLod,
                    param: value,
                },
            }),
    {
        Call {
            context: self.context,
            op: Op::SamplerParameterf {
                sampler: self.inner,
                pname: TextureParameter::MinLod,
                param: value,
            },
        }
    }

    /// Asks for the wrapping function of the coordinate r of the sampler. The
    /// reply is read with `as_enum`, as a value of `TextureWrap`.
    #[verifier::allow_in_spec]
    pub fn texture_wrap_r(&self) -> (c: Call<'_>)
        ensures
            c.op.shape() == Shape::Enum(Catalog::TextureWrap),
        returns
            (Call {
                context: self.owner(),
                op: Op::GetSamplerParameter {
                    sampler: self.object(),
                    pname: TextureParameter::WrapR,
                },
            }),
    {
        Call {
            context: self.context,
            op: Op::GetSamplerParameter {
                sampler: self.inner,
                pname: TextureParameter::WrapR,
            },
        }
    }

    /// Sets the wrapping function of the coordinate r of the sampler.
    #[verifier::allow_in_spec]
    pub fn set_texture_wrap_r(&self, value: TextureWrap) -> (c: Call<'_>)
        ensures
            c.op.shape() == Shape::Nothing,
        returns
            (Call {
                context: self.owner(),
                op: Op::SamplerParameteri {
                    sampler: self.object(),
                    pname: TextureParameter::WrapR,
                    param: value.code() as i32,
                },
            }),
    {
        Call {
            context: self.context,
            op: Op::SamplerParameteri {
                sampler: self.inner,
                pname: TextureParameter::WrapR,
                param: value.to_gl() as i32,
            },
        }
    }

    /// Asks for the wrapping function of the coordinate s of the sampler. The
    /// reply is read with `as_enum`, as a value of `TextureWrap`.
    #[verifier::allow_in_spec]
    pub fn texture_wrap_s(&self) -> (c: Call<'_>)
        ensures
            c.op.shape() == Shape::Enum(Catalog::TextureWrap),
        returns
            (Call {
                context: self.owner(),
                op: Op::GetSamplerParameter {
                    sampler: self.object(),
                    pname: TextureParameter::WrapS,
                },
            }),
    {
        Call {
            context: self.context,
            op: Op::GetSamplerParameter {
                sampler: self.inner,
                pname: TextureParameter::WrapS,
            },
        }
    }

    /// Sets the wrapping function of the coordinate s of the sampler.
    #[verifier::allow_in_spec]
    pub fn set_texture_wrap_s(&self, value: TextureWrap) -> (c: Call<'_>)
        ensures
            c.op.shape() == Shape::Nothing,
        returns
            (Call {
                context: self.owner(),
                op: Op::SamplerParameteri {
                    sampler: self.object(),
                    pname: TextureParameter::WrapS,
                    param: value.code() as i32,
                },
            }),
    {
        Call {
            context: self.context,
            op: Op::SamplerParameteri {
                sampler: self.inner,
                pname: TextureParameter::WrapS,
                param: value.to_gl() as i32,
            },
        }
    }

    /// Asks for the wrapping function of the coordinate t of the sampler. The
    /// reply is read with `as_enum`, as a value of `TextureWrap`.
    #[verifier::allow_in_spec]
    pub fn texture_wrap_t(&self) -> (c: Call<'_>)
        ensures
            c.op.shape() == Shape::Enum(Catalog::TextureWrap),
        returns
            (Call {
                context: self.owner(),
                op: Op::GetSamplerParameter {
                    sampler: self.object(),
                    pname: TextureParameter::WrapT,
                },
            }),
    {
        Call {
            context: self.context,
            op: Op::GetSamplerParameter {
                sampler: self.inner,
                pname: TextureParameter::WrapT,
            },
        }
    }

    /// Sets the wrapping function of the coordinate t of the sampler.
    #[verifier::allow_in_spec]
    pub fn set_texture_wrap_t(&self, value: TextureWrap) -> (c: Call<'_>)
        ensures
            c.op.shape() == Shape::Nothing,
        returns
            (Call {
                context: self.owner(),
                op: Op::SamplerParameteri {
                    sampler: self.object(),
                    pname: TextureParameter::WrapT,
                    param: value.code() as i32,
                },
            }),
    {
        Call {
            context: self.context,
            op: Op::SamplerParameteri {
                sampler: self.inner,
                pname: TextureParameter::WrapT,
                param: value.to_gl() as i32,
            },
        }
    }
}

/// The handle made from the reply to a call that created a sampler stands for
/// the sampler that the reply names: it asks whether that sampler is live, and
/// it deletes that sampler, on the context that the handle was made for.
pub proof fn lemma_sampler_lifecycle(context: &WebGL2RenderingContext, reply: Reply)
    ensures
        WebGLRSSampler::from_reply(context, &reply).is_valid() == (Call {
            context,
            op: Op::IsSampler { sampler: WebGLSampler { id: reply.object_id() } },
        }),
        WebGLRSSampler::from_reply(context, &reply).delete() == (Call {
            context,
            op: Op::DeleteSampler { sampler: WebGLSampler { id: reply.object_id() } },
        }),
{
}

/// Binding asks the same of the context every time: the call is fixed by the
/// context of the handle, the sampler that the handle stands for, and the unit.
/// Nothing that a handle shows changes when it is bound.
pub proof fn lemma_sampler_bind_repeats<'ctx>(
    first: &WebGLRSSampler<'ctx>,
    second: &WebGLRSSampler<'ctx>,
    unit: u32,
)
    requires
        first.owner() == second.owner(),
        first.object() == second.object(),
    ensures
        first.bind(unit) == second.bind(unit),
{
}

} // verus!
