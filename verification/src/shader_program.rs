//! Shaders, and the programs that they are linked into.
use vstd::prelude::*;
use crate::call::{Call, Op};
use crate::glenum::{Catalog, ProgramParameter, ShaderKind, ShaderParameter};
use crate::rendering_context::WebGL2RenderingContext;
use crate::reply::{Reply, Shape};

verus! {

/// The context's name for a program. The identifier 0 stands for null.
#[derive(Clone, Copy, Debug, PartialEq, Eq, Structural)]
pub struct WebGLProgram {
    pub id: u32,
}

impl WebGL2RenderingContext {
    /// Creates a program. Nothing fails here: the handle is made from the reply
    /// with `from_reply`, and whether it stands for a live program, `is_valid`
    /// tells.
    #[verifier::allow_in_spec]
    pub fn create_program(&self) -> (c: Call<'_>)
        ensures
            c.op.shape() == Shape::Object,
        returns
            (Call { context: self, op: Op::CreateProgram }),
    {
        Call { context: self, op: Op::CreateProgram }
    }
}

/// A program of a context: a vertex shader and a fragment shader, linked. The
/// handle holds the context's name for the program and the context that it
/// belongs to, and nothing of the program's state. A call that the handle
/// builds borrows the handle, so that the program cannot be deleted while a
/// call on it waits to be made.
#[derive(Debug)]
pub struct WebGLRSProgram<'ctx> {
    context: &'ctx WebGL2RenderingContext,
    inner: WebGLProgram,
}

impl<'ctx> WebGLRSProgram<'ctx> {
    /// The context that the program belongs to.
    pub closed spec fn owner(self) -> &'ctx WebGL2RenderingContext {
        self.context
    }

    /// The context's name for the program.
    pub closed spec fn object(self) -> WebGLProgram {
        self.inner
    }

    /// The handle of `context` for the program that `context` knows as
    /// `object`.
    pub closed spec fn named(context: &'ctx WebGL2RenderingContext, object: WebGLProgram) -> Self {
        WebGLRSProgram { context, inner: object }
    }

    /// Makes the handle for the program that `reply` names, where `reply` is
    /// what `context` handed back for a call that created a program. A reply
    /// that names no object gives the handle of null.
    #[verifier::allow_in_spec]
    pub fn from_reply(context: &'ctx WebGL2RenderingContext, reply: &Reply) -> (handle: Self)
        ensures
            handle.owner() == context,
            handle.object().id == reply.object_id(),
        returns
            Self::named(context, WebGLProgram { id: reply.object_id() }),
    {
        WebGLRSProgram { context, inner: WebGLProgram { id: reply.object() } }
    }

    /// Gives the context that the program belongs to.
    pub fn context(&self) -> (context: &'ctx WebGL2RenderingContext)
        ensures
            context == self.owner(),
    {
        self.context
    }

    /// Gives the context's name for the program.
    pub fn inner(&self) -> (object: WebGLProgram)
        ensures
            object == self.object(),
    {
        self.inner
    }

    /// Deletes the program. The handle is used up: nothing can be asked of a
    /// deleted program.
    #[verifier::allow_in_spec]
    pub fn delete(self) -> (c: Call<'ctx>)
        ensures
            c.op.shape() == Shape::Nothing,
        returns
            (Call { context: self.owner(), op: Op::DeleteProgram { program: self.object() } }),
    {
        Call { context: self.context, op: Op::DeleteProgram { program: self.inner } }
    }

    /// Detaches `shader` from the program.
    #[verifier::allow_in_spec]
    pub fn detach_shader(&self, shader: &WebGLRSShader) -> (c: Call<'_>)
        ensures
            c.op.shape() == Shape::Nothing,
        returns
            (Call {
                context: self.owner(),
                op: Op::DetachShader { program: self.object(), shader: shader.object() },
            }),
    {
        Call {
            context: self.context,
            op: Op::DetachShader { program: self.inner, shader: shader.inner },
        }
    }

    /// Attaches `shader` to the program.
    #[verifier::allow_in_spec]
    pub fn attach_shader(&self, shader: &WebGLRSShader) -> (c: Call<'_>)
        ensures
            c.op.shape() == Shape::Nothing,
        returns
            (Call {
                context: self.owner(),
                op: Op::AttachShader { program: self.object(), shader: shader.object() },
            }),
    {
        Call {
            context: self.context,
            op: Op::AttachShader { program: self.inner, shader: shader.inner },
        }
    }

    /// Binds the vertex index `index` to the attribute variable `name`.
    #[verifier::allow_in_spec]
    pub fn bind_attrib_location<'a>(&'a self, index: u32, name: &'a str) -> (c: Call<'a>)
        ensures
            c.op.shape() == Shape::Nothing,
        returns
            (Call {
                context: self.owner(),
                op: Op::BindAttribLocation { program: self.object(), index, name },
            }),
    {
        Call {
            context: self.context,
            op: Op::BindAttribLocation { program: self.inner, index, name },
        }
    }

    /// Asks for the information log of the program, which tells what went wrong
    /// in linking or validation. The reply is read with `as_text`.
    #[verifier::allow_in_spec]
    pub fn info_log(&self) -> (c: Call<'_>)
        ensures
            c.op.shape() == Shape::Text,
        returns
            (Call { context: self.owner(), op: Op::GetProgramInfoLog { program: self.object() } }),
    {
        Call { context: self.context, op: Op::GetProgramInfoLog { program: self.inner } }
    }

    /// Asks whether the program is live. The reply is read with `as_bool`.
    #[verifier::allow_in_spec]
    pub fn is_valid(&self) -> (c: Call<'_>)
        ensures
            c.op.shape() == Shape::Bool,
        returns
            (Call { context: self.owner(), op: Op::IsProgram { program: self.object() } }),
    {
        Call { context: self.context, op: Op::IsProgram { program: self.inner } }
    }

    /// Links the program to the shaders attached to it.
    #[verifier::allow_in_spec]
    pub fn link(&self) -> (c: Call<'_>)
        ensures
            c.op.shape() == Shape::Nothing,
        returns
            (Call { context: self.owner(), op: Op::LinkProgram { program: self.object() } }),
    {
        Call { context: self.context, op: Op::LinkProgram { program: self.inner } }
    }

    /// Makes the program part of the current rendering state.
    #[verifier::allow_in_spec]
    pub fn enable(&self) -> (c: Call<'_>)
        ensures
            c.op.shape() == Shape::Nothing,
        returns
            (Call { context: self.owner(), op: Op::UseProgram { program: self.object() } }),
    {
        Call { context: self.context, op: Op::UseProgram { program: self.inner } }
    }

    /// Validates the program against the current state of the context.
    #[verifier::allow_in_spec]
    pub fn validate(&self) -> (c: Call<'_>)
        ensures
            c.op.shape() == Shape::Nothing,
        returns
            (Call { context: self.owner(), op: Op::ValidateProgram { program: self.object() } }),
    {
        Call { context: self.context, op: Op::ValidateProgram { program: self.inner } }
    }

    /// Asks for size, type and name of the vertex attribute at `index`. The
    /// reply is read with `as_active_info`.
    #[verifier::allow_in_spec]
    pub fn active_attrib(&self, index: u32) -> (c: Call<'_>)
        ensures
            c.op.shape() == Shape::ActiveInfo,
        returns
            (Call {
                context: self.owner(),
                op: Op::GetActiveAttrib { program: self.object(), index },
            }),
    {
        Call { context: self.context, op: Op::GetActiveAttrib { program: self.inner, index } }
    }

    /// Asks for size, type and name of the uniform at `index`. The reply is
    /// read with `as_active_info`.
    #[verifier::allow_in_spec]
    pub fn active_uniform(&self, index: u32) -> (c: Call<'_>)
        ensures
            c.op.shape() == Shape::ActiveInfo,
        returns
            (Call {
                context: self.owner(),
                op: Op::GetActiveUniform { program: self.object(), index },
            }),
    {
        Call { context: self.context, op: Op::GetActiveUniform { program: self.inner, index } }
    }

    /// Asks for the location of the attribute variable `name`. The reply is
    /// read with `as_i32`.
    #[verifier::allow_in_spec]
    pub fn attrib_location<'a>(&'a self, name: &'a str) -> (c: Call<'a>)
        ensures
            c.op.shape() == Shape::I32,
        returns
            (Call {
                context: self.owner(),
                op: Op::GetAttribLocation { program: self.object(), name },
            }),
    {
        Call { context: self.context, op: Op::GetAttribLocation { program: self.inner, name } }
    }

    /// Asks for the location of the uniform variable `name`.
    #[verifier::allow_in_spec]
    pub fn uniform_location<'a>(&'a self, name: &'a str) -> (c: Call<'a>)
        ensures
            c.op.shape() == Shape::Object,
        returns
            (Call {
                context: self.owner(),
                op: Op::GetUniformLocation { program: self.object(), name },
            }),
    {
        Call { context: self.context, op: Op::GetUniformLocation { program: self.inner, name } }
    }

    /// Asks for the color number bound to the varying out variable `name`. The
    /// reply is read with `as_i32`.
    #[verifier::allow_in_spec]
    pub fn frag_data_location<'a>(&'a self, name: &'a str) -> (c: Call<'a>)
        ensures
            c.op.shape() == Shape::I32,
        returns
            (Call {
                context: self.owner(),
                op: Op::GetFragDataLocation { program: self.object(), name },
            }),
    {
        Call { context: self.context, op: Op::GetFragDataLocation { program: self.inner, name } }
    }

    /// Asks for size, type and name of the varying at `index` that transform
    /// feedback captures. The reply is read with `as_active_info`.
    #[verifier::allow_in_spec]
    pub fn transform_feedback_varying(&self, index: u32) -> (c: Call<'_>)
        ensures
            c.op.shape() == Shape::ActiveInfo,
        returns
            (Call {
                context: self.owner(),
                op: Op::GetTransformFeedbackVarying { program: self.object(), index },
            }),
    {
        Call {
            context: self.context,
            op: Op::GetTransformFeedbackVarying { program: self.inner, index },
        }
    }

    /// Asks for the index of the uniform block `uniform_block_name`. The reply
    /// is read with `as_u32`.
    #[verifier::allow_in_spec]
    pub fn uniform_block_index<'a>(&'a self, uniform_block_name: &'a str) -> (c: Call<'a>)
        ensures
            c.op.shape() == Shape::U32,
        returns
            (Call {
                context: self.owner(),
                op: Op::GetUniformBlockIndex { program: self.object(), uniform_block_name },
            }),
    {
        Call {
            context: self.context,
            op: Op::GetUniformBlockIndex { program: self.inner, uniform_block_name },
        }
    }

    /// Asks for the name of the uniform block at `uniform_block_index`. The
    /// reply is read with `as_text`.
    #[verifier::allow_in_spec]
    pub fn active_uniform_block_name(&self, uniform_block_index: u32) -> (c: Call<'_>)
        ensures
            c.op.shape() == Shape::Text,
        returns
            (Call {
                context: self.owner(),
                op: Op::GetActiveUniformBlockName {
                    program: self.object(),
                    uniform_block_index,
                },
            }),
    {
        Call {
            context: self.context,
            op: Op::GetActiveUniformBlockName {
                program: self.inner,
                uniform_block_index,
            },
        }
    }

    /// Assigns the binding point `uniform_block_binding` to the uniform block
    /// at `uniform_block_index`.
    #[verifier::allow_in_spec]
    pub fn assign_uniform_block_binding(
        &self,
        uniform_block_index: u32,
        uniform_block_binding: u32,
    ) -> (c: Call<'_>)
        ensures
            c.op.shape() == Shape::Nothing,
        returns
            (Call {
                context: self.owner(),
                op: Op::UniformBlockBinding {
                    program: self.object(),
                    uniform_block_index,
                    uniform_block_binding,
                },
            }),
    {
        Call {
            context: self.context,
            op: Op::UniformBlockBinding {
                program: self.inner,
                uniform_block_index,
                uniform_block_binding,
            },
        }
    }

    /// Asks whether the program is flagged for deletion. The reply is read with
    /// `as_bool`.
    #[verifier::allow_in_spec]
    pub fn delete_status(&self) -> (c: Call<'_>)
        ensures
            c.op.shape() == Shape::Bool,
        returns
            (Call {
                context: self.owner(),
                op: Op::GetProgramParameter {
                    program: self.object(),
                    pname: ProgramParameter::DeleteStatus,
                },
            }),
    {
        Call {
            context: self.context,
            op: Op::GetProgramParameter {
                program: self.inner,
                pname: ProgramParameter::DeleteStatus,
            },
        }
    }

    /// Asks whether the last linking succeeded. The reply is read with
    /// `as_bool`.
    #[verifier::allow_in_spec]
    pub fn link_status(&self) -> (c: Call<'_>)
        ensures
            c.op.shape() == Shape::Bool,
        returns
            (Call {
                context: self.owner(),
                op: Op::GetProgramParameter {
                    program: self.object(),
                    pname: ProgramParameter::LinkStatus,
                },
            }),
    {
        Call {
            context: self.context,
            op: Op::GetProgramParameter {
                program: self.inner,
                pname: ProgramParameter::LinkStatus,
            },
        }
    }

    /// Asks whether the last validation succeeded. The reply is read with
    /// `as_bool`.
    #[verifier::allow_in_spec]
    pub fn validate_status(&self) -> (c: Call<'_>)
        ensures
            c.op.shape() == Shape::Bool,
        returns
            (Call {
                context: self.owner(),
                op: Op::GetProgramParameter {
                    program: self.object(),
                    pname: ProgramParameter::ValidateStatus,
                },
            }),
    {
        Call {
            context: self.context,
            op: Op::GetProgramParameter {
                program: self.inner,
                pname: ProgramParameter::ValidateStatus,
            },
        }
    }

    /// Asks for the number of shaders attached to the program. The reply is
    /// read with `as_i32`.
    #[verifier::allow_in_spec]
    pub fn attached_shaders(&self) -> (c: Call<'_>)
        ensures
            c.op.shape() == Shape::I32,
        returns
            (Call {
                context: self.owner(),
                op: Op::GetProgramParameter {
                    program: self.object(),
                    pname: ProgramParameter::AttachedShaders,
                },
            }),
    {
        Call {
            context: self.context,
            op: Op::GetProgramParameter {
                program: self.inner,
                pname: ProgramParameter::AttachedShaders,
            },
        }
    }

    /// Asks for the number of active attribute variables. The reply is read
    /// with `as_i32`.
    #[verifier::allow_in_spec]
    pub fn active_attributes(&self) -> (c: Call<'_>)
        ensures
            c.op.shape() == Shape::I32,
        returns
            (Call {
                context: self.owner(),
                op: Op::GetProgramParameter {
                    program: self.object(),
                    pname: ProgramParameter::ActiveAttributes,
                },
            }),
    {
        Call {
            context: self.context,
            op: Op::GetProgramParameter {
                program: self.inner,
                pname: ProgramParameter::ActiveAttributes,
            },
        }
    }

    /// Asks for the number of active uniform variables. The reply is read with
    /// `as_i32`.
    #[verifier::allow_in_spec]
    pub fn active_uniforms(&self) -> (c: Call<'_>)
        ensures
            c.op.shape() == Shape::I32,
        returns
            (Call {
                context: self.owner(),
                op: Op::GetProgramParameter {
                    program: self.object(),
                    pname: ProgramParameter::ActiveUniforms,
                },
            }),
    {
        Call {
            context: self.context,
            op: Op::GetProgramParameter {
                program: self.inner,
                pname: ProgramParameter::ActiveUniforms,
            },
        }
    }

    /// Asks for the buffer mode of transform feedback. The reply is read with
    /// `as_enum`, as a value of `TransformFeedbackBufferMode`.
    #[verifier::allow_in_spec]
    pub fn transform_feedback_buffer_mode(&self) -> (c: Call<'_>)
        ensures
            c.op.shape() == Shape::Enum(Catalog::TransformFeedbackBufferMode),
        returns
            (Call {
                context: self.owner(),
                op: Op::GetProgramParameter {
                    program: self.object(),
                    pname: ProgramParameter::TransformFeedbackBufferMode,
                },
            }),
    {
        Call {
            context: self.context,
            op: Op::GetProgramParameter {
                program: self.inner,
                pname: ProgramParameter::TransformFeedbackBufferMode,
            },
        }
    }

    /// Asks for the number of varyings that transform feedback captures. The
    /// reply is read with `as_i32`.
    #[verifier::allow_in_spec]
    pub fn transform_feedback_varyings(&self) -> (c: Call<'_>)
        ensures
            c.op.shape() == Shape::I32,
        returns
            (Call {
                context: self.owner(),
                op: Op::GetProgramParameter {
                    program: self.object(),
                    pname: ProgramParameter::TransformFeedbackVaryings,
                },
            }),
    {
        Call {
            context: self.context,
            op: Op::GetProgramParameter {
                program: self.inner,
                pname: ProgramParameter::TransformFeedbackVaryings,
            },
        }
    }

    /// Asks for the number of uniform blocks that hold active uniforms. The
    /// reply is read with `as_i32`.
    #[verifier::allow_in_spec]
    pub fn active_uniform_blocks(&self) -> (c: Call<'_>)
        ensures
            c.op.shape() == Shape::I32,
        returns
            (Call {
                context: self.owner(),
                op: Op::GetProgramParameter {
                    program: self.object(),
                    pname: ProgramParameter::ActiveUniformBlocks,
                },
            }),
    {
        Call {
            context: self.context,
            op: Op::GetProgramParameter {
                program: self.inner,
                pname: ProgramParameter::ActiveUniformBlocks,
            },
        }
    }
}

/// The handle made from the reply to a call that created a program stands for
/// the program that the reply names: it asks whether that program is live, and
/// it deletes that program, on the context that the handle was made for.
pub proof fn lemma_program_lifecycle(context: &WebGL2RenderingContext, reply: Reply)
    ensures
        WebGLRSProgram::from_reply(context, &reply).is_valid() == (Call {
            context,
            op: Op::IsProgram { program: WebGLProgram { id: reply.object_id() } },
        }),
        WebGLRSProgram::from_reply(context, &reply).delete() == (Call {
            context,
            op: Op::DeleteProgram { program: WebGLProgram { id: reply.object_id() } },
        }),
{
}

/// The context's name for a shader. The identifier 0 stands for null.
#[derive(Clone, Copy, Debug, PartialEq, Eq, Structural)]
pub struct WebGLShader {
    pub id: u32,
}

impl WebGL2RenderingContext {
    /// Creates a shader of the given kind. Nothing fails here: the handle is
    /// made from the reply with `from_reply`, and whether it stands for a live
    /// shader, `is_valid` tells.
    #[verifier::allow_in_spec]
    pub fn create_shader(&self, kind: ShaderKind) -> (c: Call<'_>)
        ensures
            c.op.shape() == Shape::Object,
        returns
            (Call { context: self, op: Op::CreateShader { kind } }),
    {
        Call { context: self, op: Op::CreateShader { kind } }
    }
}

/// A shader of a context: a vertex shader or a fragment shader. The handle
/// holds the context's name for the shader and the context that it belongs to,
/// and nothing of the shader's state. A call that the handle builds borrows the
/// handle, so that the shader cannot be deleted while a call on it waits to be
/// made.
#[derive(Debug)]
pub struct WebGLRSShader<'ctx> {
    context: &'ctx WebGL2RenderingContext,
    inner: WebGLShader,
}

impl<'ctx> WebGLRSShader<'ctx> {
    /// The context that the shader belongs to.
    pub closed spec fn owner(self) -> &'ctx WebGL2RenderingContext {
        self.context
    }

    /// The context's name for the shader.
    pub closed spec fn object(self) -> WebGLShader {
        self.inner
    }

    /// The handle of `context` for the shader that `context` knows as `object`.
    pub closed spec fn named(context: &'ctx WebGL2RenderingContext, object: WebGLShader) -> Self {
        WebGLRSShader { context, inner: object }
    }

    /// Makes the handle for the shader that `reply` names, where `reply` is
    /// what `context` handed back for a call that created a shader. A reply
    /// that names no object gives the handle of null.
    #[verifier::allow_in_spec]
    pub fn from_reply(context: &'ctx WebGL2RenderingContext, reply: &Reply) -> (handle: Self)
        ensures
            handle.owner() == context,
            handle.object().id == reply.object_id(),
        returns
            Self::named(context, WebGLShader { id: reply.object_id() }),
    {
        WebGLRSShader { context, inner: WebGLShader { id: reply.object() } }
    }

    /// Gives the context that the shader belongs to.
    pub fn context(&self) -> (context: &'ctx WebGL2RenderingContext)
        ensures
            context == self.owner(),
    {
        self.context
    }

    /// Gives the context's name for the shader.
    pub fn inner(&self) -> (object: WebGLShader)
        ensures
            object == self.object(),
    {
        self.inner
    }

    /// Compiles the shader.
    #[verifier::allow_in_spec]
    pub fn compile(&self) -> (c: Call<'_>)
        ensures
            c.op.shape() == Shape::Nothing,
        returns
            (Call { context: self.owner(), op: Op::CompileShader { shader: self.object() } }),
    {
        Call { context: self.context, op: Op::CompileShader { shader: self.inner } }
    }

    /// Deletes the shader. The handle is used up: nothing can be asked of a
    /// deleted shader.
    #[verifier::allow_in_spec]
    pub fn delete(self) -> (c: Call<'ctx>)
        ensures
            c.op.shape() == Shape::Nothing,
        returns
            (Call { context: self.owner(), op: Op::DeleteShader { shader: self.object() } }),
    {
        Call { context: self.context, op: Op::DeleteShader { shader: self.inner } }
    }

    /// Asks for the information log of the shader, which tells what the
    /// compiler found. The reply is read with `as_text`.
    #[verifier::allow_in_spec]
    pub fn info_log(&self) -> (c: Call<'_>)
        ensures
            c.op.shape() == Shape::Text,
        returns
            (Call { context: self.owner(), op: Op::GetShaderInfoLog { shader: self.object() } }),
    {
        Call { context: self.context, op: Op::GetShaderInfoLog { shader: self.inner } }
    }

    /// Asks for the source code of the shader. The reply is read with
    /// `as_text`.
    #[verifier::allow_in_spec]
    pub fn shader_source(&self) -> (c: Call<'_>)
        ensures
            c.op.shape() == Shape::Text,
        returns
            (Call { context: self.owner(), op: Op::GetShaderSource { shader: self.object() } }),
    {
        Call { context: self.context, op: Op::GetShaderSource { shader: self.inner } }
    }

    /// Asks whether the shader is live. The reply is read with `as_bool`.
    #[verifier::allow_in_spec]
    pub fn is_valid(&self) -> (c: Call<'_>)
        ensures
            c.op.shape() == Shape::Bool,
        returns
            (Call { context: self.owner(), op: Op::IsShader { shader: self.object() } }),
    {
        Call { context: self.context, op: Op::IsShader { shader: self.inner } }
    }

    /// Sets the source code of the shader.
    #[verifier::allow_in_spec]
    pub fn set_shader_source<'a>(&'a self, source: &'a str) -> (c: Call<'a>)
        ensures
            c.op.shape() == Shape::Nothing,
        returns
            (Call {
                context: self.owner(),
                op: Op::ShaderSource { shader: self.object(), source },
            }),
    {
        Call { context: self.context, op: Op::ShaderSource { shader: self.inner, source } }
    }

    /// Asks whether the shader is flagged for deletion. The reply is read with
    /// `as_bool`.
    #[verifier::allow_in_spec]
    pub fn delete_status(&self) -> (c: Call<'_>)
        ensures
            c.op.shape() == Shape::Bool,
        returns
            (Call {
                context: self.owner(),
                op: Op::GetShaderParameter {
                    shader: self.object(),
                    pname: ShaderParameter::DeleteStatus,
                },
            }),
    {
        Call {
            context: self.context,
            op: Op::GetShaderParameter {
                shader: self.inner,
                pname: ShaderParameter::DeleteStatus,
            },
        }
    }

    /// Asks whether the last compilation succeeded. The reply is read with
    /// `as_bool`.
    #[verifier::allow_in_spec]
    pub fn compile_status(&self) -> (c: Call<'_>)
        ensures
            c.op.shape() == Shape::Bool,
        returns
            (Call {
                context: self.owner(),
                op: Op::GetShaderParameter {
                    shader: self.object(),
                    pname: ShaderParameter::CompileStatus,
                },
            }),
    {
        Call {
            context: self.context,
            op: Op::GetShaderParameter {
                shader: self.inner,
                pname: ShaderParameter::CompileStatus,
            },
        }
    }

    /// Asks whether the shader is a vertex shader or a fragment shader. The
    /// reply is read with `as_enum`, as a value of `ShaderKind`.
    #[verifier::allow_in_spec]
    pub fn kind(&self) -> (c: Call<'_>)
        ensures
            c.op.shape() == Shape::Enum(Catalog::ShaderKind),
        returns
            (Call {
                context: self.owner(),
                op: Op::GetShaderParameter {
                    shader: self.object(),
                    pname: ShaderParameter::ShaderType,
                },
            }),
    {
        Call {
            context: self.context,
            op: Op::GetShaderParameter {
                shader: self.inner,
                pname: ShaderParameter::ShaderType,
            },
        }
    }
}

/// The handle made from the reply to a call that created a shader stands for
/// the shader that the reply names: it asks whether that shader is live, and it
/// deletes that shader, on the context that the handle was made for.
pub proof fn lemma_shader_lifecycle(context: &WebGL2RenderingContext, reply: Reply)
    ensures
        WebGLRSShader::from_reply(context, &reply).is_valid() == (Call {
            context,
            op: Op::IsShader { shader: WebGLShader { id: reply.object_id() } },
        }),
        WebGLRSShader::from_reply(context, &reply).delete() == (Call {
            context,
            op: Op::DeleteShader { shader: WebGLShader { id: reply.object_id() } },
        }),
{
}

/// Size, type and name of a variable of a program: of a vertex attribute, of a
/// uniform or of a varying.
#[derive(Clone, Debug, PartialEq, Eq)]
pub struct WebGLActiveInfo {
    pub name: String,
    pub size: u32,
    pub data_type: u32,
}

impl WebGLActiveInfo {
    /// Gives the name of the variable.
    pub fn name(&self) -> (name: String)
        ensures
            name@ == self.name@,
    {
        self.name.clone()
    }

    /// Gives the size of the variable.
    pub fn size(&self) -> (size: u32)
        ensures
            size == self.size,
    {
        self.size
    }

    /// Gives the number that stands for the type of the variable.
    pub fn data_type(&self) -> (data_type: u32)
        ensures
            data_type == self.data_type,
    {
        self.data_type
    }
}

} // verus!
