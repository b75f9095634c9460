//! The parameters that the context reads out under one entry point, and the
//! shape in which it hands each out.
use vstd::prelude::*;
use crate::glenum::{
    BufferParameter, Catalog, ProgramParameter, QueryParameter, RenderbufferParameter,
    ShaderParameter, SyncParameter, TextureParameter,
};
use crate::reply::Shape;

verus! {

/// The name of a parameter that the context reads out.
pub trait Parameter: Sized {
    /// The shape in which the context hands the parameter out.
    spec fn shape(self) -> Shape;

    /// Gives the shape in which the context hands the parameter out.
    fn result_shape(self) -> (s: Shape)
        ensures
            s == self.shape(),
    ;
}

impl Parameter for BufferParameter {
    open spec fn shape(self) -> Shape {
        match self {
            BufferParameter::Size => Shape::I32,
            BufferParameter::Usage => Shape::Enum(Catalog::DataHint),
        }
    }

    fn result_shape(self) -> (s: Shape) {
        match self {
            BufferParameter::Size => Shape::I32,
            BufferParameter::Usage => Shape::Enum(Catalog::DataHint),
        }
    }
}

impl Parameter for RenderbufferParameter {
    open spec fn shape(self) -> Shape {
        match self {
            RenderbufferParameter::Width
            | RenderbufferParameter::Height
            | RenderbufferParameter::RedSize
            | RenderbufferParameter::GreenSize
            | RenderbufferParameter::BlueSize
            | RenderbufferParameter::AlphaSize
            | RenderbufferParameter::DepthSize
            | RenderbufferParameter::StencilSize
            | RenderbufferParameter::Samples => Shape::I32,
            RenderbufferParameter::Format => Shape::Enum(Catalog::RenderbufferFormat),
        }
    }

    fn result_shape(self) -> (s: Shape) {
        match self {
            RenderbufferParameter::Width
            | RenderbufferParameter::Height
            | RenderbufferParameter::RedSize
            | RenderbufferParameter::GreenSize
            | RenderbufferParameter::BlueSize
            | RenderbufferParameter::AlphaSize
            | RenderbufferParameter::DepthSize
            | RenderbufferParameter::StencilSize
            | RenderbufferParameter::Samples => Shape::I32,
            RenderbufferParameter::Format => Shape::Enum(Catalog::RenderbufferFormat),
        }
    }
}

impl Parameter for TextureParameter {
    open spec fn shape(self) -> Shape {
        match self {
            TextureParameter::MagFilter => Shape::Enum(Catalog::TextureMagFilter),
            TextureParameter::MinFilter => Shape::Enum(Catalog::TextureMinFilter),
            TextureParameter::WrapS
            | TextureParameter::WrapT
            | TextureParameter::WrapR => Shape::Enum(Catalog::TextureWrap),
            TextureParameter::BaseLevel | TextureParameter::MaxLevel => Shape::I32,
            TextureParameter::MinLod | TextureParameter::MaxLod => Shape::Float,
            TextureParameter::CompareMode => Shape::Enum(Catalog::CompareMode),
            TextureParameter::CompareFunc => Shape::Enum(Catalog::DepthTest),
            TextureParameter::ImmutableFormat => Shape::Bool,
            TextureParameter::ImmutableLevels => Shape::U32,
        }
    }

    fn result_shape(self) -> (s: Shape) {
        match self {
            TextureParameter::MagFilter => Shape::Enum(Catalog::TextureMagFilter),
            TextureParameter::MinFilter => Shape::Enum(Catalog::TextureMinFilter),
            TextureParameter::WrapS
            | TextureParameter::WrapT
            | TextureParameter::WrapR => Shape::Enum(Catalog::TextureWrap),
            TextureParameter::BaseLevel | TextureParameter::MaxLevel => Shape::I32,
            TextureParameter::MinLod | TextureParameter::MaxLod => Shape::Float,
            TextureParameter::CompareMode => Shape::Enum(Catalog::CompareMode),
            TextureParameter::CompareFunc => Shape::Enum(Catalog::DepthTest),
            TextureParameter::ImmutableFormat => Shape::Bool,
            TextureParameter::ImmutableLevels => Shape::U32,
        }
    }
}

impl Parameter for QueryParameter {
    open spec fn shape(self) -> Shape {
        match self {
            QueryParameter::Result => Shape::U32,
            QueryParameter::ResultAvailable => Shape::Bool,
        }
    }

    fn result_shape(self) -> (s: Shape) {
        match self {
            QueryParameter::Result => Shape::U32,
            QueryParameter::ResultAvailable => Shape::Bool,
        }
    }
}

impl Parameter for ProgramParameter {
    open spec fn shape(self) -> Shape {
        match self {
            ProgramParameter::DeleteStatus
            | ProgramParameter::LinkStatus
            | ProgramParameter::ValidateStatus => Shape::Bool,
            ProgramParameter::AttachedShaders
            | ProgramParameter::ActiveAttributes
            | ProgramParameter::ActiveUniforms
            | ProgramParameter::TransformFeedbackVaryings
            | ProgramParameter::ActiveUniformBlocks => Shape::I32,
            ProgramParameter::TransformFeedbackBufferMode => {
                Shape::Enum(Catalog::TransformFeedbackBufferMode)
            },
        }
    }

    fn result_shape(self) -> (s: Shape) {
        match self {
            ProgramParameter::DeleteStatus
            | ProgramParameter::LinkStatus
            | ProgramParameter::ValidateStatus => Shape::Bool,
            ProgramParameter::AttachedShaders
            | ProgramParameter::ActiveAttributes
            | ProgramParameter::ActiveUniforms
            | ProgramParameter::TransformFeedbackVaryings
            | ProgramParameter::ActiveUniformBlocks => Shape::I32,
            ProgramParameter::TransformFeedbackBufferMode => {
                Shape::Enum(Catalog::TransformFeedbackBufferMode)
            },
        }
    }
}

impl Parameter for ShaderParameter {
    open spec fn shape(self) -> Shape {
        match self {
            ShaderParameter::DeleteStatus | ShaderParameter::CompileStatus => Shape::Bool,
            ShaderParameter::ShaderType => Shape::Enum(Catalog::ShaderKind),
        }
    }

    fn result_shape(self) -> (s: Shape) {
        match self {
            ShaderParameter::DeleteStatus | ShaderParameter::CompileStatus => Shape::Bool,
            ShaderParameter::ShaderType => Shape::Enum(Catalog::ShaderKind),
        }
    }
}

impl Parameter for SyncParameter {
    open spec fn shape(self) -> Shape {
        match self {
            SyncParameter::Type => Shape::Enum(Catalog::SyncType),
            SyncParameter::Status => Shape::Enum(Catalog::SyncStatus),
            SyncParameter::Condition => Shape::Enum(Catalog::GPUState),
            SyncParameter::Flags => Shape::U32,
        }
    }

    fn result_shape(self) -> (s: Shape) {
        match self {
            SyncParameter::Type => Shape::Enum(Catalog::SyncType),
            SyncParameter::Status => Shape::Enum(Catalog::SyncStatus),
            SyncParameter::Condition => Shape::Enum(Catalog::GPUState),
            SyncParameter::Flags => Shape::U32,
        }
    }
}

} // verus!
