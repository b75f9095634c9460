//! A typed layer over the graphics context of a browser's drawing surface.
//!
//! The layer names every operation of the context by a method with typed
//! arguments, on the context itself or on the handle of one of its resources,
//! and builds from it the call that the context is to be given: the entry
//! point, and its arguments in the entry point's order. It holds no state of
//! the context and makes no call itself. Whoever holds the context makes the
//! call and hands the reply back, and the layer reads the reply as the type
//! that the operation returns.
//!
//! Nothing fails in the layer but a call that the context's interface lets
//! fail. What the context makes of a resource bound to the wrong target, of a
//! number out of range or of a deleted object shows in the context's error
//! state, which `get_error` asks for.
pub mod buffer;
pub mod call;
pub mod data_view;
pub mod framebuffer;
pub mod glenum;
pub mod number;
pub mod parameter;
pub mod payload;
pub mod query;
pub mod registry;
pub mod renderbuffer;
pub mod rendering_context;
pub mod reply;
pub mod sampler;
pub mod shader_program;
pub mod sync;
pub mod texture;
pub mod transform_feedback;
pub mod uniform_location;
pub mod vertex_array_object;

pub use buffer::WebGLRSBuffer;
pub use call::{Call, Op};
pub use data_view::{Buffer, Image};
pub use framebuffer::WebGLRSFramebuffer;
pub use glenum::{
    Attachment, AttributeSize, AttributeType, BlendEquation, BlendMode, BufferBase, BufferBit,
    BufferKind, BufferParameter, Catalog, ClearBuffer, ColorBuffer, CompareMode, Culling, DataHint,
    DataType, DepthTest, Error, Flag, FramebufferKind, FramebufferStatus, FrontFaceDirection,
    GPUState, GlEnum, HintMode, HintTarget, InformationType, PixelCopyFormat, PixelReadFormat,
    PixelStorageMode, PixelType, Primitives, ProgramParameter, Query, QueryParameter, QueryTarget,
    RenderbufferFormat, RenderbufferKind, RenderbufferParameter, ShaderKind, ShaderParameter,
    ShaderPrecision, StencilAction, StencilTest, SyncParameter, SyncStatus, SyncType,
    Texture2DKind, Texture3DKind, TextureBindPoint, TextureKind, TextureMagFilter,
    TextureMinFilter, TextureParameter, TextureUnit, TextureWrap, TransformFeedback,
    TransformFeedbackBufferMode, TransformFeedbackMode, VertexAttrib, WaitStatus,
};
pub use number::{Float32, Float64};
pub use query::WebGLRSQuery;
pub use renderbuffer::WebGLRSRenderbuffer;
pub use rendering_context::{HTMLCanvasElement, WebGL2RenderingContext, WebGLShaderPrecisionFormat};
pub use reply::{ForeignError, Reply, Shape};
pub use sampler::WebGLRSSampler;
pub use shader_program::{WebGLActiveInfo, WebGLRSProgram, WebGLRSShader};
pub use sync::WebGLRSSync;
pub use texture::WebGLRSTexture;
pub use transform_feedback::WebGLRSTransformFeedback;
pub use uniform_location::{WebGLRSUniformLocation, WebGLUniformLocation};
pub use vertex_array_object::WebGLRSVertexArrayObject;
