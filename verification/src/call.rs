//! The calls that the library asks of a graphics context: each names one entry
//! point of the context and holds its arguments in the entry point's order.
use vstd::prelude::*;
use crate::buffer::WebGLBuffer;
use crate::framebuffer::WebGLFramebuffer;
use crate::glenum::{
    Attachment, AttributeSize, AttributeType, BlendEquation, BlendMode, BufferBase, BufferBit,
    BufferKind, BufferParameter, Catalog, ClearBuffer, ColorBuffer, Culling, DataHint, DataType,
    DepthTest, Flag, FramebufferKind, FrontFaceDirection, GPUState, HintMode, HintTarget,
    InformationType, PixelCopyFormat, PixelReadFormat, PixelStorageMode, PixelType, Primitives,
    ProgramParameter, Query, QueryParameter, QueryTarget, RenderbufferFormat, RenderbufferKind,
    RenderbufferParameter, ShaderKind, ShaderParameter, ShaderPrecision, StencilAction,
    StencilTest, SyncParameter, Texture2DKind, Texture3DKind, TextureBindPoint, TextureKind,
    TextureMagFilter, TextureParameter, TextureUnit, TransformFeedback, TransformFeedbackMode,
    VertexAttrib,
};
use crate::number::Float32;
use crate::parameter::Parameter;
use crate::payload::Payload;
use crate::query::WebGLQuery;
use crate::renderbuffer::WebGLRenderbuffer;
use crate::rendering_context::WebGL2RenderingContext;
use crate::reply::Shape;
use crate::sampler::WebGLSampler;
use crate::shader_program::{WebGLProgram, WebGLShader};
use crate::sync::WebGLSync;
use crate::texture::WebGLTexture;
use crate::transform_feedback::WebGLTransformFeedback;
use crate::uniform_location::WebGLUniformLocation;
use crate::vertex_array_object::WebGLVertexArrayObject;

verus! {

/// One entry point of the context with its arguments. The fields of a variant
/// stand in the order in which the entry point takes them.
#[allow(inconsistent_fields)]
#[derive(Clone, Copy, Debug, PartialEq, Eq)]
pub enum Op<'a> {
    /// `getContext`: asks the canvas element with the given id for a context of
    /// the given kind.
    GetContext { canvas: &'a str, kind: &'a str },
    /// `canvas`: reads the canvas that the context draws to.
    Canvas,
    /// `drawingBufferWidth`: reads the width of the drawing buffer.
    DrawingBufferWidth,
    /// `drawingBufferHeight`: reads the height of the drawing buffer.
    DrawingBufferHeight,
    /// `isContextLost`: asks whether the context has been lost.
    IsContextLost,
    /// `createBuffer`: creates a buffer.
    CreateBuffer,
    /// `deleteBuffer`: deletes a buffer.
    DeleteBuffer { buffer: WebGLBuffer },
    /// `isBuffer`: asks whether a buffer is live.
    IsBuffer { buffer: WebGLBuffer },
    /// `bindBuffer`: binds a buffer to a target.
    BindBuffer { target: BufferKind, buffer: WebGLBuffer },
    /// `bindBufferBase`: binds a buffer to an indexed target.
    BindBufferBase { target: BufferBase, index: u32, buffer: WebGLBuffer },
    /// `bindBufferRange`: binds a range of a buffer to an indexed target.
    BindBufferRange { target: BufferBase, index: u32, buffer: WebGLBuffer, offset: u32, size: u32 },
    /// `bufferData`: creates the data store of the bound buffer and fills it.
    BufferData { target: BufferKind, data: Payload<'a>, usage: DataHint },
    /// `bufferSubData`: replaces part of the data store of the bound buffer.
    BufferSubData { target: BufferKind, offset: i64, data: Payload<'a> },
    /// `getBufferParameter`: reads a parameter of the bound buffer.
    GetBufferParameter { target: BufferKind, pname: BufferParameter },
    /// `copyBufferSubData`: copies part of the buffer bound to one target into
    /// the buffer bound to another.
    CopyBufferSubData {
        read_target: BufferKind,
        write_target: BufferKind,
        read_offset: i64,
        write_offset: i64,
        size: u32,
    },
    /// `getBufferSubData`: reads part of the bound buffer back into `dst_data`.
    GetBufferSubData {
        target: BufferKind,
        src_byte_offset: i64,
        dst_data: &'a Vec<u8>,
        dst_offset: i64,
        length: u32,
    },
    /// `createFramebuffer`: creates a framebuffer.
    CreateFramebuffer,
    /// `bindFramebuffer`: binds a framebuffer to a target.
    BindFramebuffer { target: FramebufferKind, framebuffer: WebGLFramebuffer },
    /// `deleteFramebuffer`: deletes a framebuffer.
    DeleteFramebuffer { framebuffer: WebGLFramebuffer },
    /// `isFramebuffer`: asks whether a framebuffer is live.
    IsFramebuffer { framebuffer: WebGLFramebuffer },
    /// `checkFramebufferStatus`: asks how complete the bound framebuffer is.
    CheckFramebufferStatus { target: FramebufferKind },
    /// `blitFramebuffer`: copies a block of pixels from the read framebuffer to
    /// the draw framebuffer.
    BlitFramebuffer {
        src_x0: i32,
        src_y0: i32,
        src_x1: i32,
        src_y1: i32,
        dst_x0: i32,
        dst_y0: i32,
        dst_x1: i32,
        dst_y1: i32,
        mask: BufferBit,
        filter: TextureMagFilter,
    },
    /// `readBuffer`: selects the color buffer that pixels are read from.
    ReadBuffer { src: ColorBuffer },
    /// `readPixels`: reads a block of pixels of the current color framebuffer
    /// into `pixels`.
    ReadPixels {
        x: u32,
        y: u32,
        width: u32,
        height: u32,
        format: PixelReadFormat,
        pixel_type: PixelType,
        pixels: Payload<'a>,
    },
    /// `createQuery`: creates a query.
    CreateQuery,
    /// `deleteQuery`: deletes a query.
    DeleteQuery { query: WebGLQuery },
    /// `isQuery`: asks whether a query is live.
    IsQuery { query: WebGLQuery },
    /// `beginQuery`: starts a query on a target.
    BeginQuery { target: QueryTarget, query: WebGLQuery },
    /// `endQuery`: ends the query that is active on a target.
    EndQuery { target: QueryTarget },
    /// `getQuery`: reads the query that is active on a target.
    GetQuery { target: QueryTarget, pname: Query },
    /// `getQueryParameter`: reads a parameter of a query.
    GetQueryParameter { query: WebGLQuery, pname: QueryParameter },
    /// `createRenderbuffer`: creates a renderbuffer.
    CreateRenderbuffer,
    /// `deleteRenderbuffer`: deletes a renderbuffer.
    DeleteRenderbuffer { renderbuffer: WebGLRenderbuffer },
    /// `isRenderbuffer`: asks whether a renderbuffer is live.
    IsRenderbuffer { renderbuffer: WebGLRenderbuffer },
    /// `bindRenderbuffer`: binds a renderbuffer to a target.
    BindRenderbuffer { target: RenderbufferKind, renderbuffer: WebGLRenderbuffer },
    /// `framebufferRenderbuffer`: attaches a renderbuffer to the bound
    /// framebuffer.
    FramebufferRenderbuffer {
        target: FramebufferKind,
        attachment: Attachment,
        renderbuffertarget: RenderbufferKind,
        renderbuffer: WebGLRenderbuffer,
    },
    /// `getRenderbufferParameter`: reads a parameter of the bound renderbuffer.
    GetRenderbufferParameter { target: RenderbufferKind, pname: RenderbufferParameter },
    /// `renderbufferStorage`: creates the data store of the bound renderbuffer.
    RenderbufferStorage {
        target: RenderbufferKind,
        internal_format: RenderbufferFormat,
        width: u32,
        height: u32,
    },
    /// `renderbufferStorageMultisample`: creates the multisampled data store of
    /// the bound renderbuffer.
    RenderbufferStorageMultisample {
        target: RenderbufferKind,
        samples: u32,
        internal_format: RenderbufferFormat,
        width: u32,
        height: u32,
    },
    /// `getInternalformatParameter`: reads what the context supports for an
    /// internal format.
    GetInternalformatParameter {
        target: RenderbufferKind,
        internal_format: RenderbufferFormat,
        pname: InformationType,
    },
    /// `createSampler`: creates a sampler.
    CreateSampler,
    /// `deleteSampler`: deletes a sampler.
    DeleteSampler { sampler: WebGLSampler },
    /// `isSampler`: asks whether a sampler is live.
    IsSampler { sampler: WebGLSampler },
    /// `bindSampler`: binds a sampler to a texture unit.
    BindSampler { unit: u32, sampler: WebGLSampler },
    /// `getSamplerParameter`: reads a parameter of a sampler.
    GetSamplerParameter { sampler: WebGLSampler, pname: TextureParameter },
    /// `samplerParameteri`: sets an integer parameter of a sampler.
    SamplerParameteri { sampler: WebGLSampler, pname: TextureParameter, param: i32 },
    /// `samplerParameterf`: sets a floating-point parameter of a sampler.
    SamplerParameterf { sampler: WebGLSampler, pname: TextureParameter, param: Float32 },
    /// `createProgram`: creates a program.
    CreateProgram,
    /// `deleteProgram`: deletes a program.
    DeleteProgram { program: WebGLProgram },
    /// `isProgram`: asks whether a program is live.
    IsProgram { program: WebGLProgram },
    /// `attachShader`: attaches a shader to a program.
    AttachShader { program: WebGLProgram, shader: WebGLShader },
    /// `detachShader`: detaches a shader from a program.
    DetachShader { program: WebGLProgram, shader: WebGLShader },
    /// `bindAttribLocation`: binds a vertex index to an attribute variable.
    BindAttribLocation { program: WebGLProgram, index: u32, name: &'a str },
    /// `getProgramInfoLog`: reads the information log of a program.
    GetProgramInfoLog { program: WebGLProgram },
    /// `linkProgram`: links a program.
    LinkProgram { program: WebGLProgram },
    /// `useProgram`: makes a program part of the rendering state.
    UseProgram { program: WebGLProgram },
    /// `validateProgram`: validates a program.
    ValidateProgram { program: WebGLProgram },
    /// `getActiveAttrib`: reads size, type and name of a vertex attribute.
    GetActiveAttrib { program: WebGLProgram, index: u32 },
    /// `getActiveUniform`: reads size, type and name of a uniform.
    GetActiveUniform { program: WebGLProgram, index: u32 },
    /// `getAttribLocation`: reads the location of an attribute variable.
    GetAttribLocation { program: WebGLProgram, name: &'a str },
    /// `getUniformLocation`: reads the location of a uniform variable.
    GetUniformLocation { program: WebGLProgram, name: &'a str },
    /// `getFragDataLocation`: reads the color number bound to a varying out
    /// variable.
    GetFragDataLocation { program: WebGLProgram, name: &'a str },
    /// `getTransformFeedbackVarying`: reads size, type and name of a varying
    /// captured by transform feedback.
    GetTransformFeedbackVarying { program: WebGLProgram, index: u32 },
    /// `getUniformBlockIndex`: reads the index of a uniform block.
    GetUniformBlockIndex { program: WebGLProgram, uniform_block_name: &'a str },
    /// `getActiveUniformBlockName`: reads the name of a uniform block.
    GetActiveUniformBlockName { program: WebGLProgram, uniform_block_index: u32 },
    /// `uniformBlockBinding`: assigns a binding point to a uniform block.
    UniformBlockBinding {
        program: WebGLProgram,
        uniform_block_index: u32,
        uniform_block_binding: u32,
    },
    /// `getProgramParameter`: reads a parameter of a program.
    GetProgramParameter { program: WebGLProgram, pname: ProgramParameter },
    /// `createShader`: creates a shader of a kind.
    CreateShader { kind: ShaderKind },
    /// `deleteShader`: deletes a shader.
    DeleteShader { shader: WebGLShader },
    /// `isShader`: asks whether a shader is live.
    IsShader { shader: WebGLShader },
    /// `compileShader`: compiles a shader.
    CompileShader { shader: WebGLShader },
    /// `shaderSource`: sets the source code of a shader.
    ShaderSource { shader: WebGLShader, source: &'a str },
    /// `getShaderSource`: reads the source code of a shader.
    GetShaderSource { shader: WebGLShader },
    /// `getShaderInfoLog`: reads the information log of a shader.
    GetShaderInfoLog { shader: WebGLShader },
    /// `getShaderParameter`: reads a parameter of a shader.
    GetShaderParameter { shader: WebGLShader, pname: ShaderParameter },
    /// `getShaderPrecisionFormat`: reads range and precision of a number format
    /// of a kind of shader.
    GetShaderPrecisionFormat { shader_type: ShaderKind, precision_type: ShaderPrecision },
    /// `fenceSync`: creates a sync object and puts it into the command stream.
    FenceSync { condition: GPUState, flags: u32 },
    /// `deleteSync`: deletes a sync object.
    DeleteSync { sync: WebGLSync },
    /// `isSync`: asks whether a sync object is live.
    IsSync { sync: WebGLSync },
    /// `clientWaitSync`: waits until a sync object is signaled or the timeout
    /// has passed.
    ClientWaitSync { sync: WebGLSync, flags: u32, timeout: i64 },
    /// `waitSync`: makes the server wait until a sync object is signaled.
    WaitSync { sync: WebGLSync, flags: u32, timeout: i64 },
    /// `getSyncParameter`: reads a parameter of a sync object.
    GetSyncParameter { sync: WebGLSync, pname: SyncParameter },
    /// `createTexture`: creates a texture.
    CreateTexture,
    /// `deleteTexture`: deletes a texture.
    DeleteTexture { texture: WebGLTexture },
    /// `isTexture`: asks whether a texture is live.
    IsTexture { texture: WebGLTexture },
    /// `bindTexture`: binds a texture to a target.
    BindTexture { target: TextureKind, texture: WebGLTexture },
    /// `activeTexture`: selects the active texture unit.
    ActiveTexture { texture: TextureUnit },
    /// `framebufferTexture2D`: attaches a texture to the bound framebuffer.
    FramebufferTexture2D {
        target: FramebufferKind,
        attachment: Attachment,
        textarget: TextureBindPoint,
        texture: WebGLTexture,
        level: i32,
    },
    /// `framebufferTextureLayer`: attaches one layer of a texture to the bound
    /// framebuffer.
    FramebufferTextureLayer {
        target: FramebufferKind,
        attachment: Attachment,
        texture: WebGLTexture,
        level: i32,
        layer: i32,
    },
    /// `generateMipmap`: generates the mipmaps of the bound texture.
    GenerateMipmap { target: TextureKind },
    /// `getTexParameter`: reads a parameter of the bound texture.
    GetTexParameter { target: TextureKind, pname: TextureParameter },
    /// `texParameterf`: sets a floating-point parameter of the bound texture.
    TexParameterf { target: TextureKind, pname: TextureParameter, param: Float32 },
    /// `texParameteri`: sets an integer parameter of the bound texture.
    TexParameteri { target: TextureKind, pname: TextureParameter, param: i32 },
    /// `texImage2D`: loads a two-dimensional texture image.
    TexImage2D {
        target: TextureBindPoint,
        level: u32,
        internalformat: PixelCopyFormat,
        width: u32,
        height: u32,
        border: u32,
        format: PixelCopyFormat,
        pixel_type: PixelType,
        data: Payload<'a>,
    },
    /// `texSubImage2D`: loads a sub-rectangle of the current texture.
    TexSubImage2D {
        target: TextureBindPoint,
        level: u32,
        xoffset: u32,
        yoffset: u32,
        width: u32,
        height: u32,
        format: PixelCopyFormat,
        pixel_type: PixelType,
        data: Payload<'a>,
    },
    /// `copyTexImage2D`: copies pixels of the current framebuffer into a
    /// texture image.
    CopyTexImage2D {
        target: TextureBindPoint,
        level: u32,
        internalformat: PixelCopyFormat,
        x: i32,
        y: i32,
        width: u32,
        height: u32,
        border: u32,
    },
    /// `copyTexSubImage2D`: copies pixels of the current framebuffer into part
    /// of a texture image.
    CopyTexSubImage2D {
        target: TextureBindPoint,
        level: u32,
        xoffset: i32,
        yoffset: i32,
        x: i32,
        y: i32,
        width: u32,
        height: u32,
    },
    /// `texStorage2D`: fixes all levels of two-dimensional texture storage.
    TexStorage2D {
        target: Texture2DKind,
        levels: u32,
        internal_format: RenderbufferFormat,
        width: u32,
        height: u32,
    },
    /// `texStorage3D`: fixes all levels of three-dimensional texture storage.
    TexStorage3D {
        target: Texture3DKind,
        levels: u32,
        internal_format: RenderbufferFormat,
        width: u32,
        height: u32,
        depth: u32,
    },
    /// `texImage3D`: loads a three-dimensional texture image.
    TexImage3D {
        target: Texture3DKind,
        level: u32,
        internalformat: PixelCopyFormat,
        width: u32,
        height: u32,
        depth: u32,
        border: u32,
        format: PixelCopyFormat,
        data_type: PixelType,
        src_data: &'a Vec<u8>,
        src_offset: u32,
    },
    /// `texSubImage3D`: loads a sub-box of the current three-dimensional
    /// texture.
    TexSubImage3D {
        target: Texture3DKind,
        level: u32,
        xoffset: u32,
        yoffset: u32,
        zoffset: u32,
        width: u32,
        height: u32,
        depth: u32,
        format: PixelCopyFormat,
        data_type: PixelType,
        src_data: &'a Vec<u8>,
        src_offset: u32,
    },
    /// `copyTexSubImage3D`: copies pixels of the current framebuffer into part
    /// of a three-dimensional texture.
    CopyTexSubImage3D {
        target: Texture3DKind,
        level: u32,
        xoffset: u32,
        yoffset: u32,
        zoffset: u32,
        x: u32,
        y: u32,
        width: u32,
        height: u32,
    },
    /// `createTransformFeedback`: creates a transform feedback object.
    CreateTransformFeedback,
    /// `deleteTransformFeedback`: deletes a transform feedback object.
    DeleteTransformFeedback { transform_feedback: WebGLTransformFeedback },
    /// `isTransformFeedback`: asks whether a transform feedback object is live.
    IsTransformFeedback { transform_feedback: WebGLTransformFeedback },
    /// `bindTransformFeedback`: binds a transform feedback object to a target.
    BindTransformFeedback { target: TransformFeedback, transform_feedback: WebGLTransformFeedback },
    /// `beginTransformFeedback`: starts a transform feedback operation.
    BeginTransformFeedback { primitive_mode: TransformFeedbackMode },
    /// `endTransformFeedback`: ends the transform feedback operation.
    EndTransformFeedback,
    /// `pauseTransformFeedback`: pauses the transform feedback operation.
    PauseTransformFeedback,
    /// `resumeTransformFeedback`: resumes the transform feedback operation.
    ResumeTransformFeedback,
    /// `createVertexArray`: creates a vertex array object.
    CreateVertexArray,
    /// `deleteVertexArray`: deletes a vertex array object.
    DeleteVertexArray { vertex_array: WebGLVertexArrayObject },
    /// `isVertexArray`: asks whether a vertex array object is live.
    IsVertexArray { vertex_array: WebGLVertexArrayObject },
    /// `bindVertexArray`: binds a vertex array object.
    BindVertexArray { vertex_array: WebGLVertexArrayObject },
    /// `scissor`: sets the scissor box, which limits drawing to a rectangle.
    Scissor { x: i32, y: i32, width: u32, height: u32 },
    /// `viewport`: sets the viewport.
    Viewport { x: i32, y: i32, width: u32, height: u32 },
    /// `blendColor`: sets the blend color.
    BlendColor { red: Float32, green: Float32, blue: Float32, alpha: Float32 },
    /// `blendEquation`: sets one blend equation for color and alpha.
    BlendEquation { mode: BlendEquation },
    /// `blendEquationSeparate`: sets the blend equations of color and of alpha.
    BlendEquationSeparate { mode_rgb: BlendEquation, mode_alpha: BlendEquation },
    /// `blendFunc`: sets the blending factors.
    BlendFunc { sfactor: BlendMode, dfactor: BlendMode },
    /// `blendFuncSeparate`: sets the blending factors of color and of alpha.
    BlendFuncSeparate {
        src_rgb: BlendMode,
        dst_rgb: BlendMode,
        src_alpha: BlendMode,
        dst_alpha: BlendMode,
    },
    /// `clearColor`: sets the color that color buffers are cleared to.
    ClearColor { red: Float32, green: Float32, blue: Float32, alpha: Float32 },
    /// `clearDepth`: sets the value that the depth buffer is cleared to.
    ClearDepth { depth: Float32 },
    /// `clearStencil`: sets the value that the stencil buffer is cleared to.
    ClearStencil { s: i32 },
    /// `colorMask`: sets which color components are written.
    ColorMask { red: bool, green: bool, blue: bool, alpha: bool },
    /// `cullFace`: sets which faces are culled.
    CullFace { mode: Culling },
    /// `depthFunc`: sets the comparison of the depth test.
    DepthFunc { func: DepthTest },
    /// `depthMask`: sets whether the depth buffer is written.
    DepthMask { flag: bool },
    /// `depthRange`: sets the range of depth values.
    DepthRange { z_near: Float32, z_far: Float32 },
    /// `disable`: switches a capability off.
    Disable { cap: Flag },
    /// `enable`: switches a capability on.
    Enable { cap: Flag },
    /// `isEnabled`: asks whether a capability is on.
    IsEnabled { cap: Flag },
    /// `frontFace`: sets the winding order of front faces.
    FrontFace { mode: FrontFaceDirection },
    /// `getError`: reads and clears the error state of the context.
    GetError,
    /// `hint`: gives a hint for a behavior.
    Hint { target: HintTarget, mode: HintMode },
    /// `lineWidth`: sets the width of lines.
    LineWidth { width: Float32 },
    /// `pixelStorei`: sets a pixel storage mode.
    PixelStorei { pname: PixelStorageMode, param: i32 },
    /// `polygonOffset`: sets the scale and units of the polygon offset.
    PolygonOffset { factor: Float32, units: Float32 },
    /// `sampleCoverage`: sets the multisample coverage.
    SampleCoverage { value: Float32, invert: bool },
    /// `stencilFunc`: sets the stencil test for front and back faces.
    StencilFunc { func: StencilTest, reference: i32, mask: u32 },
    /// `stencilFuncSeparate`: sets the stencil test for one kind of face.
    StencilFuncSeparate { face: Culling, func: StencilTest, reference: i32, mask: u32 },
    /// `stencilMask`: sets which stencil bits are written.
    StencilMask { mask: u32 },
    /// `stencilMaskSeparate`: sets which stencil bits are written for one kind
    /// of face.
    StencilMaskSeparate { face: Culling, mask: u32 },
    /// `stencilOp`: sets the stencil actions for front and back faces.
    StencilOp { fail: StencilAction, zfail: StencilAction, zpass: StencilAction },
    /// `stencilOpSeparate`: sets the stencil actions for one kind of face.
    StencilOpSeparate {
        face: Culling,
        fail: StencilAction,
        zfail: StencilAction,
        zpass: StencilAction,
    },
    /// `disableVertexAttribArray`: switches a vertex attribute array off.
    DisableVertexAttribArray { index: u32 },
    /// `enableVertexAttribArray`: switches a vertex attribute array on.
    EnableVertexAttribArray { index: u32 },
    /// `getVertexAttribOffset`: reads the address of a vertex attribute.
    GetVertexAttribOffset { index: u32, pname: VertexAttrib },
    /// `vertexAttrib1f`: sets a vertex attribute to one number.
    VertexAttrib1f { index: u32, v0: Float32 },
    /// `vertexAttrib2f`: sets a vertex attribute to two numbers.
    VertexAttrib2f { index: u32, v0: Float32, v1: Float32 },
    /// `vertexAttrib3f`: sets a vertex attribute to three numbers.
    VertexAttrib3f { index: u32, v0: Float32, v1: Float32, v2: Float32 },
    /// `vertexAttrib4f`: sets a vertex attribute to four numbers.
    VertexAttrib4f { index: u32, v0: Float32, v1: Float32, v2: Float32, v3: Float32 },
    /// `vertexAttrib1fv`: sets a vertex attribute to one number of a list.
    VertexAttrib1fv { index: u32, value: &'a Vec<Float32> },
    /// `vertexAttrib2fv`: sets a vertex attribute to two numbers of a list.
    VertexAttrib2fv { index: u32, value: &'a Vec<Float32> },
    /// `vertexAttrib3fv`: sets a vertex attribute to three numbers of a list.
    VertexAttrib3fv { index: u32, value: &'a Vec<Float32> },
    /// `vertexAttrib4fv`: sets a vertex attribute to four numbers of a list.
    VertexAttrib4fv { index: u32, value: &'a Vec<Float32> },
    /// `vertexAttribPointer`: lays out a vertex attribute in the bound array
    /// buffer.
    VertexAttribPointer {
        index: u32,
        size: AttributeSize,
        attribute_type: AttributeType,
        normalized: bool,
        stride: u8,
        offset: i32,
    },
    /// `vertexAttribI4i`: sets an integer vertex attribute to four signed
    /// numbers.
    VertexAttribI4i { index: u32, v0: i32, v1: i32, v2: i32, v3: i32 },
    /// `vertexAttribI4ui`: sets an integer vertex attribute to four unsigned
    /// numbers.
    VertexAttribI4ui { index: u32, v0: u32, v1: u32, v2: u32, v3: u32 },
    /// `vertexAttribI4iv`: sets an integer vertex attribute to four signed
    /// numbers of a list.
    VertexAttribI4iv { index: u32, value: &'a Vec<i32> },
    /// `vertexAttribI4uiv`: sets an integer vertex attribute to four unsigned
    /// numbers of a list.
    VertexAttribI4uiv { index: u32, value: &'a Vec<u32> },
    /// `vertexAttribIPointer`: lays out an integer vertex attribute in the
    /// bound array buffer.
    VertexAttribIPointer {
        index: u32,
        size: AttributeSize,
        data_type: AttributeType,
        stride: u32,
        offset: i64,
    },
    /// `vertexAttribDivisor`: sets how often a vertex attribute advances while
    /// instances are drawn.
    VertexAttribDivisor { index: u32, divisor: u32 },
    /// `clear`: clears a buffer to its preset value.
    Clear { mask: BufferBit },
    /// `drawArrays`: draws primitives from array data.
    DrawArrays { mode: Primitives, first: u32, count: u32 },
    /// `drawElements`: draws primitives from element array data.
    DrawElements { mode: Primitives, count: u32, data_type: DataType, offset: i64 },
    /// `drawArraysInstanced`: draws several instances of primitives from array
    /// data.
    DrawArraysInstanced { mode: Primitives, first: i32, count: u32, instance_count: u32 },
    /// `drawElementsInstanced`: draws several instances of primitives from
    /// element array data.
    DrawElementsInstanced {
        mode: Primitives,
        count: u32,
        data_type: AttributeType,
        offset: i64,
        instance_count: u32,
    },
    /// `drawRangeElements`: draws primitives from a range of element array
    /// data.
    DrawRangeElements {
        mode: Primitives,
        start: u32,
        end: u32,
        count: u32,
        data_type: AttributeType,
        offset: i64,
    },
    /// `finish`: waits until all commands issued so far have been carried out.
    Finish,
    /// `flush`: empties the command buffers.
    Flush,
    /// `clearBufferfv`: clears a buffer of the bound framebuffer to
    /// floating-point values.
    ClearBufferfv {
        buffer: ClearBuffer,
        drawbuffer: i32,
        values: &'a Vec<Float32>,
        src_offset: u32,
    },
    /// `clearBufferiv`: clears a buffer of the bound framebuffer to signed
    /// values.
    ClearBufferiv { buffer: ClearBuffer, drawbuffer: i32, values: &'a Vec<i32>, src_offset: u32 },
    /// `clearBufferuiv`: clears a buffer of the bound framebuffer to unsigned
    /// values.
    ClearBufferuiv { buffer: ClearBuffer, drawbuffer: i32, values: &'a Vec<u32>, src_offset: u32 },
    /// `clearBufferfi`: clears depth and stencil of the bound framebuffer.
    ClearBufferfi { buffer: ClearBuffer, drawbuffer: i32, depth: Float32, stencil: i32 },
    /// `uniform1f`: sets a uniform to one floating-point number.
    Uniform1f { location: WebGLUniformLocation, v0: Float32 },
    /// `uniform2f`: sets a uniform to two floating-point numbers.
    Uniform2f { location: WebGLUniformLocation, v0: Float32, v1: Float32 },
    /// `uniform3f`: sets a uniform to three floating-point numbers.
    Uniform3f { location: WebGLUniformLocation, v0: Float32, v1: Float32, v2: Float32 },
    /// `uniform4f`: sets a uniform to four floating-point numbers.
    Uniform4f {
        location: WebGLUniformLocation,
        v0: Float32,
        v1: Float32,
        v2: Float32,
        v3: Float32,
    },
    /// `uniform1i`: sets a uniform to one signed number.
    Uniform1i { location: WebGLUniformLocation, v0: i32 },
    /// `uniform2i`: sets a uniform to two signed numbers.
    Uniform2i { location: WebGLUniformLocation, v0: i32, v1: i32 },
    /// `uniform3i`: sets a uniform to three signed numbers.
    Uniform3i { location: WebGLUniformLocation, v0: i32, v1: i32, v2: i32 },
    /// `uniform4i`: sets a uniform to four signed numbers.
    Uniform4i { location: WebGLUniformLocation, v0: i32, v1: i32, v2: i32, v3: i32 },
    /// `uniform1ui`: sets a uniform to one unsigned number.
    Uniform1ui { location: WebGLUniformLocation, v0: u32 },
    /// `uniform2ui`: sets a uniform to two unsigned numbers.
    Uniform2ui { location: WebGLUniformLocation, v0: u32, v1: u32 },
    /// `uniform3ui`: sets a uniform to three unsigned numbers.
    Uniform3ui { location: WebGLUniformLocation, v0: u32, v1: u32, v2: u32 },
    /// `uniform4ui`: sets a uniform to four unsigned numbers.
    Uniform4ui { location: WebGLUniformLocation, v0: u32, v1: u32, v2: u32, v3: u32 },
    /// `uniform1fv`: sets a uniform, or an array of them, to vectors of one
    /// floating-point number.
    Uniform1fv { location: WebGLUniformLocation, value: &'a Vec<Float32> },
    /// `uniform2fv`: sets a uniform, or an array of them, to vectors of two
    /// floating-point numbers.
    Uniform2fv { location: WebGLUniformLocation, value: &'a Vec<Float32> },
    /// `uniform3fv`: sets a uniform, or an array of them, to vectors of three
    /// floating-point numbers.
    Uniform3fv { location: WebGLUniformLocation, value: &'a Vec<Float32> },
    /// `uniform4fv`: sets a uniform, or an array of them, to vectors of four
    /// floating-point numbers.
    Uniform4fv { location: WebGLUniformLocation, value: &'a Vec<Float32> },
    /// `uniform1iv`: sets a uniform, or an array of them, to vectors of one
    /// signed number.
    Uniform1iv { location: WebGLUniformLocation, value: &'a Vec<i32> },
    /// `uniform2iv`: sets a uniform, or an array of them, to vectors of two
    /// signed numbers.
    Uniform2iv { location: WebGLUniformLocation, value: &'a Vec<i32> },
    /// `uniform3iv`: sets a uniform, or an array of them, to vectors of three
    /// signed numbers.
    Uniform3iv { location: WebGLUniformLocation, value: &'a Vec<i32> },
    /// `uniform4iv`: sets a uniform, or an array of them, to vectors of four
    /// signed numbers.
    Uniform4iv { location: WebGLUniformLocation, value: &'a Vec<i32> },
    /// `uniform1uiv`: sets a uniform, or an array of them, to vectors of one
    /// unsigned number.
    Uniform1uiv { location: WebGLUniformLocation, value: &'a Vec<u32> },
    /// `uniform2uiv`: sets a uniform, or an array of them, to vectors of two
    /// unsigned numbers.
    Uniform2uiv { location: WebGLUniformLocation, value: &'a Vec<u32> },
    /// `uniform3uiv`: sets a uniform, or an array of them, to vectors of three
    /// unsigned numbers.
    Uniform3uiv { location: WebGLUniformLocation, value: &'a Vec<u32> },
    /// `uniform4uiv`: sets a uniform, or an array of them, to vectors of four
    /// unsigned numbers.
    Uniform4uiv { location: WebGLUniformLocation, value: &'a Vec<u32> },
    /// `uniformMatrix2fv`: sets a uniform to matrices of 2 by 2 numbers.
    UniformMatrix2fv { location: WebGLUniformLocation, transpose: bool, value: &'a Vec<Float32> },
    /// `uniformMatrix3fv`: sets a uniform to matrices of 3 by 3 numbers.
    UniformMatrix3fv { location: WebGLUniformLocation, transpose: bool, value: &'a Vec<Float32> },
    /// `uniformMatrix4fv`: sets a uniform to matrices of 4 by 4 numbers.
    UniformMatrix4fv { location: WebGLUniformLocation, transpose: bool, value: &'a Vec<Float32> },
    /// `uniformMatrix2x3fv`: sets a uniform to matrices of 2 columns and 3
    /// rows.
    UniformMatrix2x3fv {
        location: WebGLUniformLocation,
        transpose: bool,
        data: &'a Vec<Float32>,
        src_offset: u32,
        src_length: u32,
    },
    /// `uniformMatrix2x4fv`: sets a uniform to matrices of 2 columns and 4
    /// rows.
    UniformMatrix2x4fv {
        location: WebGLUniformLocation,
        transpose: bool,
        data: &'a Vec<Float32>,
        src_offset: u32,
        src_length: u32,
    },
    /// `uniformMatrix3x2fv`: sets a uniform to matrices of 3 columns and 2
    /// rows.
    UniformMatrix3x2fv {
        location: WebGLUniformLocation,
        transpose: bool,
        data: &'a Vec<Float32>,
        src_offset: u32,
        src_length: u32,
    },
    /// `uniformMatrix3x4fv`: sets a uniform to matrices of 3 columns and 4
    /// rows.
    UniformMatrix3x4fv {
        location: WebGLUniformLocation,
        transpose: bool,
        data: &'a Vec<Float32>,
        src_offset: u32,
        src_length: u32,
    },
    /// `uniformMatrix4x2fv`: sets a uniform to matrices of 4 columns and 2
    /// rows.
    UniformMatrix4x2fv {
        location: WebGLUniformLocation,
        transpose: bool,
        data: &'a Vec<Float32>,
        src_offset: u32,
        src_length: u32,
    },
    /// `uniformMatrix4x3fv`: sets a uniform to matrices of 4 columns and 3
    /// rows.
    UniformMatrix4x3fv {
        location: WebGLUniformLocation,
        transpose: bool,
        data: &'a Vec<Float32>,
        src_offset: u32,
        src_length: u32,
    },
}

/// A call: the context that it goes to and what is asked of it.
#[derive(Clone, Copy, Debug, PartialEq, Eq)]
pub struct Call<'a> {
    /// The context that the call goes to.
    pub context: &'a WebGL2RenderingContext,
    /// The entry point and its arguments.
    pub op: Op<'a>,
}

impl<'a> Op<'a> {
    /// The name by which the context knows the entry point.
    pub open spec fn name(self) -> Seq<char> {
        match self {
            Op::GetContext { .. } => "getContext"@,
            Op::Canvas => "canvas"@,
            Op::DrawingBufferWidth => "drawingBufferWidth"@,
            Op::DrawingBufferHeight => "drawingBufferHeight"@,
            Op::IsContextLost => "isContextLost"@,
            Op::CreateBuffer => "createBuffer"@,
            Op::DeleteBuffer { .. } => "deleteBuffer"@,
            Op::IsBuffer { .. } => "isBuffer"@,
            Op::BindBuffer { .. } => "bindBuffer"@,
            Op::BindBufferBase { .. } => "bindBufferBase"@,
            Op::BindBufferRange { .. } => "bindBufferRange"@,
            Op::BufferData { .. } => "bufferData"@,
            Op::BufferSubData { .. } => "bufferSubData"@,
            Op::GetBufferParameter { .. } => "getBufferParameter"@,
            Op::CopyBufferSubData { .. } => "copyBufferSubData"@,
            Op::GetBufferSubData { .. } => "getBufferSubData"@,
            Op::CreateFramebuffer => "createFramebuffer"@,
            Op::BindFramebuffer { .. } => "bindFramebuffer"@,
            Op::DeleteFramebuffer { .. } => "deleteFramebuffer"@,
            Op::IsFramebuffer { .. } => "isFramebuffer"@,
            Op::CheckFramebufferStatus { .. } => "checkFramebufferStatus"@,
            Op::BlitFramebuffer { .. } => "blitFramebuffer"@,
            Op::ReadBuffer { .. } => "readBuffer"@,
            Op::ReadPixels { .. } => "readPixels"@,
            Op::CreateQuery => "createQuery"@,
            Op::DeleteQuery { .. } => "deleteQuery"@,
            Op::IsQuery { .. } => "isQuery"@,
            Op::BeginQuery { .. } => "beginQuery"@,
            Op::EndQuery { .. } => "endQuery"@,
            Op::GetQuery { .. } => "getQuery"@,
            Op::GetQueryParameter { .. } => "getQueryParameter"@,
            Op::CreateRenderbuffer => "createRenderbuffer"@,
            Op::DeleteRenderbuffer { .. } => "deleteRenderbuffer"@,
            Op::IsRenderbuffer { .. } => "isRenderbuffer"@,
            Op::BindRenderbuffer { .. } => "bindRenderbuffer"@,
            Op::FramebufferRenderbuffer { .. } => "framebufferRenderbuffer"@,
            Op::GetRenderbufferParameter { .. } => "getRenderbufferParameter"@,
            Op::RenderbufferStorage { .. } => "renderbufferStorage"@,
            Op::RenderbufferStorageMultisample { .. } => "renderbufferStorageMultisample"@,
            Op::GetInternalformatParameter { .. } => "getInternalformatParameter"@,
            Op::CreateSampler => "createSampler"@,
            Op::DeleteSampler { .. } => "deleteSampler"@,
            Op::IsSampler { .. } => "isSampler"@,
            Op::BindSampler { .. } => "bindSampler"@,
            Op::GetSamplerParameter { .. } => "getSamplerParameter"@,
            Op::SamplerParameteri { .. } => "samplerParameteri"@,
            Op::SamplerParameterf { .. } => "samplerParameterf"@,
            Op::CreateProgram => "createProgram"@,
            Op::DeleteProgram { .. } => "deleteProgram"@,
            Op::IsProgram { .. } => "isProgram"@,
            Op::AttachShader { .. } => "attachShader"@,
            Op::DetachShader { .. } => "detachShader"@,
            Op::BindAttribLocation { .. } => "bindAttribLocation"@,
            Op::GetProgramInfoLog { .. } => "getProgramInfoLog"@,
            Op::LinkProgram { .. } => "linkProgram"@,
            Op::UseProgram { .. } => "useProgram"@,
            Op::ValidateProgram { .. } => "validateProgram"@,
            Op::GetActiveAttrib { .. } => "getActiveAttrib"@,
            Op::GetActiveUniform { .. } => "getActiveUniform"@,
            Op::GetAttribLocation { .. } => "getAttribLocation"@,
            Op::GetUniformLocation { .. } => "getUniformLocation"@,
            Op::GetFragDataLocation { .. } => "getFragDataLocation"@,
            Op::GetTransformFeedbackVarying { .. } => "getTransformFeedbackVarying"@,
            Op::GetUniformBlockIndex { .. } => "getUniformBlockIndex"@,
            Op::GetActiveUniformBlockName { .. } => "getActiveUniformBlockName"@,
            Op::UniformBlockBinding { .. } => "uniformBlockBinding"@,
            Op::GetProgramParameter { .. } => "getProgramParameter"@,
            Op::CreateShader { .. } => "createShader"@,
            Op::DeleteShader { .. } => "deleteShader"@,
            Op::IsShader { .. } => "isShader"@,
            Op::CompileShader { .. } => "compileShader"@,
            Op::ShaderSource { .. } => "shaderSource"@,
            Op::GetShaderSource { .. } => "getShaderSource"@,
            Op::GetShaderInfoLog { .. } => "getShaderInfoLog"@,
            Op::GetShaderParameter { .. } => "getShaderParameter"@,
            Op::GetShaderPrecisionFormat { .. } => "getShaderPrecisionFormat"@,
            Op::FenceSync { .. } => "fenceSync"@,
            Op::DeleteSync { .. } => "deleteSync"@,
            Op::IsSync { .. } => "isSync"@,
            Op::ClientWaitSync { .. } => "clientWaitSync"@,
            Op::WaitSync { .. } => "waitSync"@,
            Op::GetSyncParameter { .. } => "getSyncParameter"@,
            Op::CreateTexture => "createTexture"@,
            Op::DeleteTexture { .. } => "deleteTexture"@,
            Op::IsTexture { .. } => "isTexture"@,
            Op::BindTexture { .. } => "bindTexture"@,
            Op::ActiveTexture { .. } => "activeTexture"@,
            Op::FramebufferTexture2D { .. } => "framebufferTexture2D"@,
            Op::FramebufferTextureLayer { .. } => "framebufferTextureLayer"@,
            Op::GenerateMipmap { .. } => "generateMipmap"@,
            Op::GetTexParameter { .. } => "getTexParameter"@,
            Op::TexParameterf { .. } => "texParameterf"@,
            Op::TexParameteri { .. } => "texParameteri"@,
            Op::TexImage2D { .. } => "texImage2D"@,
            Op::TexSubImage2D { .. } => "texSubImage2D"@,
            Op::CopyTexImage2D { .. } => "copyTexImage2D"@,
            Op::CopyTexSubImage2D { .. } => "copyTexSubImage2D"@,
            Op::TexStorage2D { .. } => "texStorage2D"@,
            Op::TexStorage3D { .. } => "texStorage3D"@,
            Op::TexImage3D { .. } => "texImage3D"@,
            Op::TexSubImage3D { .. } => "texSubImage3D"@,
            Op::CopyTexSubImage3D { .. } => "copyTexSubImage3D"@,
            Op::CreateTransformFeedback => "createTransformFeedback"@,
            Op::DeleteTransformFeedback { .. } => "deleteTransformFeedback"@,
            Op::IsTransformFeedback { .. } => "isTransformFeedback"@,
            Op::BindTransformFeedback { .. } => "bindTransformFeedback"@,
            Op::BeginTransformFeedback { .. } => "beginTransformFeedback"@,
            Op::EndTransformFeedback => "endTransformFeedback"@,
            Op::PauseTransformFeedback => "pauseTransformFeedback"@,
            Op::ResumeTransformFeedback => "resumeTransformFeedback"@,
            Op::CreateVertexArray => "createVertexArray"@,
            Op::DeleteVertexArray { .. } => "deleteVertexArray"@,
            Op::IsVertexArray { .. } => "isVertexArray"@,
            Op::BindVertexArray { .. } => "bindVertexArray"@,
            Op::Scissor { .. } => "scissor"@,
            Op::Viewport { .. } => "viewport"@,
            Op::BlendColor { .. } => "blendColor"@,
            Op::BlendEquation { .. } => "blendEquation"@,
            Op::BlendEquationSeparate { .. } => "blendEquationSeparate"@,
            Op::BlendFunc { .. } => "blendFunc"@,
            Op::BlendFuncSeparate { .. } => "blendFuncSeparate"@,
            Op::ClearColor { .. } => "clearColor"@,
            Op::ClearDepth { .. } => "clearDepth"@,
            Op::ClearStencil { .. } => "clearStencil"@,
            Op::ColorMask { .. } => "colorMask"@,
            Op::CullFace { .. } => "cullFace"@,
            Op::DepthFunc { .. } => "depthFunc"@,
            Op::DepthMask { .. } => "depthMask"@,
            Op::DepthRange { .. } => "depthRange"@,
            Op::Disable { .. } => "disable"@,
            Op::Enable { .. } => "enable"@,
            Op::IsEnabled { .. } => "isEnabled"@,
            Op::FrontFace { .. } => "frontFace"@,
            Op::GetError => "getError"@,
            Op::Hint { .. } => "hint"@,
            Op::LineWidth { .. } => "lineWidth"@,
            Op::PixelStorei { .. } => "pixelStorei"@,
            Op::PolygonOffset { .. } => "polygonOffset"@,
            Op::SampleCoverage { .. } => "sampleCoverage"@,
            Op::StencilFunc { .. } => "stencilFunc"@,
            Op::StencilFuncSeparate { .. } => "stencilFuncSeparate"@,
            Op::StencilMask { .. } => "stencilMask"@,
            Op::StencilMaskSeparate { .. } => "stencilMaskSeparate"@,
            Op::StencilOp { .. } => "stencilOp"@,
            Op::StencilOpSeparate { .. } => "stencilOpSeparate"@,
            Op::DisableVertexAttribArray { .. } => "disableVertexAttribArray"@,
            Op::EnableVertexAttribArray { .. } => "enableVertexAttribArray"@,
            Op::GetVertexAttribOffset { .. } => "getVertexAttribOffset"@,
            Op::VertexAttrib1f { .. } => "vertexAttrib1f"@,
            Op::VertexAttrib2f { .. } => "vertexAttrib2f"@,
            Op::VertexAttrib3f { .. } => "vertexAttrib3f"@,
            Op::VertexAttrib4f { .. } => "vertexAttrib4f"@,
            Op::VertexAttrib1fv { .. } => "vertexAttrib1fv"@,
            Op::VertexAttrib2fv { .. } => "vertexAttrib2fv"@,
            Op::VertexAttrib3fv { .. } => "vertexAttrib3fv"@,
            Op::VertexAttrib4fv { .. } => "vertexAttrib4fv"@,
            Op::VertexAttribPointer { .. } => "vertexAttribPointer"@,
            Op::VertexAttribI4i { .. } => "vertexAttribI4i"@,
            Op::VertexAttribI4ui { .. } => "vertexAttribI4ui"@,
            Op::VertexAttribI4iv { .. } => "vertexAttribI4iv"@,
            Op::VertexAttribI4uiv { .. } => "vertexAttribI4uiv"@,
            Op::VertexAttribIPointer { .. } => "vertexAttribIPointer"@,
            Op::VertexAttribDivisor { .. } => "vertexAttribDivisor"@,
            Op::Clear { .. } => "clear"@,
            Op::DrawArrays { .. } => "drawArrays"@,
            Op::DrawElements { .. } => "drawElements"@,
            Op::DrawArraysInstanced { .. } => "drawArraysInstanced"@,
            Op::DrawElementsInstanced { .. } => "drawElementsInstanced"@,
            Op::DrawRangeElements { .. } => "drawRangeElements"@,
            Op::Finish => "finish"@,
            Op::Flush => "flush"@,
            Op::ClearBufferfv { .. } => "clearBufferfv"@,
            Op::ClearBufferiv { .. } => "clearBufferiv"@,
            Op::ClearBufferuiv { .. } => "clearBufferuiv"@,
            Op::ClearBufferfi { .. } => "clearBufferfi"@,
            Op::Uniform1f { .. } => "uniform1f"@,
            Op::Uniform2f { .. } => "uniform2f"@,
            Op::Uniform3f { .. } => "uniform3f"@,
            Op::Uniform4f { .. } => "uniform4f"@,
            Op::Uniform1i { .. } => "uniform1i"@,
            Op::Uniform2i { .. } => "uniform2i"@,
            Op::Uniform3i { .. } => "uniform3i"@,
            Op::Uniform4i { .. } => "uniform4i"@,
            Op::Uniform1ui { .. } => "uniform1ui"@,
            Op::Uniform2ui { .. } => "uniform2ui"@,
            Op::Uniform3ui { .. } => "uniform3ui"@,
            Op::Uniform4ui { .. } => "uniform4ui"@,
            Op::Uniform1fv { .. } => "uniform1fv"@,
            Op::Uniform2fv { .. } => "uniform2fv"@,
            Op::Uniform3fv { .. } => "uniform3fv"@,
            Op::Uniform4fv { .. } => "uniform4fv"@,
            Op::Uniform1iv { .. } => "uniform1iv"@,
            Op::Uniform2iv { .. } => "uniform2iv"@,
            Op::Uniform3iv { .. } => "uniform3iv"@,
            Op::Uniform4iv { .. } => "uniform4iv"@,
            Op::Uniform1uiv { .. } => "uniform1uiv"@,
            Op::Uniform2uiv { .. } => "uniform2uiv"@,
            Op::Uniform3uiv { .. } => "uniform3uiv"@,
            Op::Uniform4uiv { .. } => "uniform4uiv"@,
            Op::UniformMatrix2fv { .. } => "uniformMatrix2fv"@,
            Op::UniformMatrix3fv { .. } => "uniformMatrix3fv"@,
            Op::UniformMatrix4fv { .. } => "uniformMatrix4fv"@,
            Op::UniformMatrix2x3fv { .. } => "uniformMatrix2x3fv"@,
            Op::UniformMatrix2x4fv { .. } => "uniformMatrix2x4fv"@,
            Op::UniformMatrix3x2fv { .. } => "uniformMatrix3x2fv"@,
            Op::UniformMatrix3x4fv { .. } => "uniformMatrix3x4fv"@,
            Op::UniformMatrix4x2fv { .. } => "uniformMatrix4x2fv"@,
            Op::UniformMatrix4x3fv { .. } => "uniformMatrix4x3fv"@,
        }
    }

    /// The shape of what the entry point returns. Where one entry point reads
    /// parameters of several shapes, the parameter decides.
    pub open spec fn shape(self) -> Shape {
        match self {
            Op::GetBufferParameter { pname, .. } => pname.shape(),
            Op::GetQueryParameter { pname, .. } => pname.shape(),
            Op::GetRenderbufferParameter { pname, .. } => pname.shape(),
            Op::GetSamplerParameter { pname, .. } => pname.shape(),
            Op::GetProgramParameter { pname, .. } => pname.shape(),
            Op::GetShaderParameter { pname, .. } => pname.shape(),
            Op::GetSyncParameter { pname, .. } => pname.shape(),
            Op::GetTexParameter { pname, .. } => pname.shape(),
            Op::GetContext { .. } => Shape::Object,
            Op::Canvas => Shape::Object,
            Op::DrawingBufferWidth => Shape::U32,
            Op::DrawingBufferHeight => Shape::U32,
            Op::IsContextLost => Shape::Bool,
            Op::CreateBuffer => Shape::Object,
            Op::IsBuffer { .. } => Shape::Bool,
            Op::GetBufferSubData { .. } => Shape::Data,
            Op::CreateFramebuffer => Shape::Object,
            Op::IsFramebuffer { .. } => Shape::Bool,
            Op::CheckFramebufferStatus { .. } => Shape::Enum(Catalog::FramebufferStatus),
            Op::ReadPixels { .. } => Shape::Data,
            Op::CreateQuery => Shape::Object,
            Op::IsQuery { .. } => Shape::Bool,
            Op::GetQuery { .. } => Shape::Object,
            Op::CreateRenderbuffer => Shape::Object,
            Op::IsRenderbuffer { .. } => Shape::Bool,
            Op::GetInternalformatParameter { .. } => Shape::Data,
            Op::CreateSampler => Shape::Object,
            Op::IsSampler { .. } => Shape::Bool,
            Op::CreateProgram => Shape::Object,
            Op::IsProgram { .. } => Shape::Bool,
            Op::GetProgramInfoLog { .. } => Shape::Text,
            Op::GetActiveAttrib { .. } => Shape::ActiveInfo,
            Op::GetActiveUniform { .. } => Shape::ActiveInfo,
            Op::GetAttribLocation { .. } => Shape::I32,
            Op::GetUniformLocation { .. } => Shape::Object,
            Op::GetFragDataLocation { .. } => Shape::I32,
            Op::GetTransformFeedbackVarying { .. } => Shape::ActiveInfo,
            Op::GetUniformBlockIndex { .. } => Shape::U32,
            Op::GetActiveUniformBlockName { .. } => Shape::Text,
            Op::CreateShader { .. } => Shape::Object,
            Op::IsShader { .. } => Shape::Bool,
            Op::GetShaderSource { .. } => Shape::Text,
            Op::GetShaderInfoLog { .. } => Shape::Text,
            Op::GetShaderPrecisionFormat { .. } => Shape::PrecisionFormat,
            Op::FenceSync { .. } => Shape::Object,
            Op::IsSync { .. } => Shape::Bool,
            Op::ClientWaitSync { .. } => Shape::Enum(Catalog::WaitStatus),
            Op::CreateTexture => Shape::Object,
            Op::IsTexture { .. } => Shape::Bool,
            Op::TexImage2D { .. } => Shape::Outcome,
            Op::TexSubImage2D { .. } => Shape::Outcome,
            Op::CreateTransformFeedback => Shape::Object,
            Op::IsTransformFeedback { .. } => Shape::Bool,
            Op::CreateVertexArray => Shape::Object,
            Op::IsVertexArray { .. } => Shape::Bool,
            Op::IsEnabled { .. } => Shape::Bool,
            Op::GetError => Shape::Enum(Catalog::Error),
            Op::GetVertexAttribOffset { .. } => Shape::I64,
            _ => Shape::Nothing,
        }
    }

    /// Gives the name by which the context knows the entry point.
    pub fn js_name(&self) -> (name: &'static str)
        ensures
            name@ == self.name(),
    {
        match self {
            Op::GetContext { .. } => "getContext",
            Op::Canvas => "canvas",
            Op::DrawingBufferWidth => "drawingBufferWidth",
            Op::DrawingBufferHeight => "drawingBufferHeight",
            Op::IsContextLost => "isContextLost",
            Op::CreateBuffer => "createBuffer",
            Op::DeleteBuffer { .. } => "deleteBuffer",
            Op::IsBuffer { .. } => "isBuffer",
            Op::BindBuffer { .. } => "bindBuffer",
            Op::BindBufferBase { .. } => "bindBufferBase",
            Op::BindBufferRange { .. } => "bindBufferRange",
            Op::BufferData { .. } => "bufferData",
            Op::BufferSubData { .. } => "bufferSubData",
            Op::GetBufferParameter { .. } => "getBufferParameter",
            Op::CopyBufferSubData { .. } => "copyBufferSubData",
            Op::GetBufferSubData { .. } => "getBufferSubData",
            Op::CreateFramebuffer => "createFramebuffer",
            Op::BindFramebuffer { .. } => "bindFramebuffer",
            Op::DeleteFramebuffer { .. } => "deleteFramebuffer",
            Op::IsFramebuffer { .. } => "isFramebuffer",
            Op::CheckFramebufferStatus { .. } => "checkFramebufferStatus",
            Op::BlitFramebuffer { .. } => "blitFramebuffer",
            Op::ReadBuffer { .. } => "readBuffer",
            Op::ReadPixels { .. } => "readPixels",
            Op::CreateQuery => "createQuery",
            Op::DeleteQuery { .. } => "deleteQuery",
            Op::IsQuery { .. } => "isQuery",
            Op::BeginQuery { .. } => "beginQuery",
            Op::EndQuery { .. } => "endQuery",
            Op::GetQuery { .. } => "getQuery",
            Op::GetQueryParameter { .. } => "getQueryParameter",
            Op::CreateRenderbuffer => "createRenderbuffer",
            Op::DeleteRenderbuffer { .. } => "deleteRenderbuffer",
            Op::IsRenderbuffer { .. } => "isRenderbuffer",
            Op::BindRenderbuffer { .. } => "bindRenderbuffer",
            Op::FramebufferRenderbuffer { .. } => "framebufferRenderbuffer",
            Op::GetRenderbufferParameter { .. } => "getRenderbufferParameter",
            Op::RenderbufferStorage { .. } => "renderbufferStorage",
            Op::RenderbufferStorageMultisample { .. } => "renderbufferStorageMultisample",
            Op::GetInternalformatParameter { .. } => "getInternalformatParameter",
            Op::CreateSampler => "createSampler",
            Op::DeleteSampler { .. } => "deleteSampler",
            Op::IsSampler { .. } => "isSampler",
            Op::BindSampler { .. } => "bindSampler",
            Op::GetSamplerParameter { .. } => "getSamplerParameter",
            Op::SamplerParameteri { .. } => "samplerParameteri",
            Op::SamplerParameterf { .. } => "samplerParameterf",
            Op::CreateProgram => "createProgram",
            Op::DeleteProgram { .. } => "deleteProgram",
            Op::IsProgram { .. } => "isProgram",
            Op::AttachShader { .. } => "attachShader",
            Op::DetachShader { .. } => "detachShader",
            Op::BindAttribLocation { .. } => "bindAttribLocation",
            Op::GetProgramInfoLog { .. } => "getProgramInfoLog",
            Op::LinkProgram { .. } => "linkProgram",
            Op::UseProgram { .. } => "useProgram",
            Op::ValidateProgram { .. } => "validateProgram",
            Op::GetActiveAttrib { .. } => "getActiveAttrib",
            Op::GetActiveUniform { .. } => "getActiveUniform",
            Op::GetAttribLocation { .. } => "getAttribLocation",
            Op::GetUniformLocation { .. } => "getUniformLocation",
            Op::GetFragDataLocation { .. } => "getFragDataLocation",
            Op::GetTransformFeedbackVarying { .. } => "getTransformFeedbackVarying",
            Op::GetUniformBlockIndex { .. } => "getUniformBlockIndex",
            Op::GetActiveUniformBlockName { .. } => "getActiveUniformBlockName",
            Op::UniformBlockBinding { .. } => "uniformBlockBinding",
            Op::GetProgramParameter { .. } => "getProgramParameter",
            Op::CreateShader { .. } => "createShader",
            Op::DeleteShader { .. } => "deleteShader",
            Op::IsShader { .. } => "isShader",
            Op::CompileShader { .. } => "compileShader",
            Op::ShaderSource { .. } => "shaderSource",
            Op::GetShaderSource { .. } => "getShaderSource",
            Op::GetShaderInfoLog { .. } => "getShaderInfoLog",
            Op::GetShaderParameter { .. } => "getShaderParameter",
            Op::GetShaderPrecisionFormat { .. } => "getShaderPrecisionFormat",
            Op::FenceSync { .. } => "fenceSync",
            Op::DeleteSync { .. } => "deleteSync",
            Op::IsSync { .. } => "isSync",
            Op::ClientWaitSync { .. } => "clientWaitSync",
            Op::WaitSync { .. } => "waitSync",
            Op::GetSyncParameter { .. } => "getSyncParameter",
            Op::CreateTexture => "createTexture",
            Op::DeleteTexture { .. } => "deleteTexture",
            Op::IsTexture { .. } => "isTexture",
            Op::BindTexture { .. } => "bindTexture",
            Op::ActiveTexture { .. } => "activeTexture",
            Op::FramebufferTexture2D { .. } => "framebufferTexture2D",
            Op::FramebufferTextureLayer { .. } => "framebufferTextureLayer",
            Op::GenerateMipmap { .. } => "generateMipmap",
            Op::GetTexParameter { .. } => "getTexParameter",
            Op::TexParameterf { .. } => "texParameterf",
            Op::TexParameteri { .. } => "texParameteri",
            Op::TexImage2D { .. } => "texImage2D",
            Op::TexSubImage2D { .. } => "texSubImage2D",
            Op::CopyTexImage2D { .. } => "copyTexImage2D",
            Op::CopyTexSubImage2D { .. } => "copyTexSubImage2D",
            Op::TexStorage2D { .. } => "texStorage2D",
            Op::TexStorage3D { .. } => "texStorage3D",
            Op::TexImage3D { .. } => "texImage3D",
            Op::TexSubImage3D { .. } => "texSubImage3D",
            Op::CopyTexSubImage3D { .. } => "copyTexSubImage3D",
            Op::CreateTransformFeedback => "createTransformFeedback",
            Op::DeleteTransformFeedback { .. } => "deleteTransformFeedback",
            Op::IsTransformFeedback { .. } => "isTransformFeedback",
            Op::BindTransformFeedback { .. } => "bindTransformFeedback",
            Op::BeginTransformFeedback { .. } => "beginTransformFeedback",
            Op::EndTransformFeedback => "endTransformFeedback",
            Op::PauseTransformFeedback => "pauseTransformFeedback",
            Op::ResumeTransformFeedback => "resumeTransformFeedback",
            Op::CreateVertexArray => "createVertexArray",
            Op::DeleteVertexArray { .. } => "deleteVertexArray",
            Op::IsVertexArray { .. } => "isVertexArray",
            Op::BindVertexArray { .. } => "bindVertexArray",
            Op::Scissor { .. } => "scissor",
            Op::Viewport { .. } => "viewport",
            Op::BlendColor { .. } => "blendColor",
            Op::BlendEquation { .. } => "blendEquation",
            Op::BlendEquationSeparate { .. } => "blendEquationSeparate",
            Op::BlendFunc { .. } => "blendFunc",
            Op::BlendFuncSeparate { .. } => "blendFuncSeparate",
            Op::ClearColor { .. } => "clearColor",
            Op::ClearDepth { .. } => "clearDepth",
            Op::ClearStencil { .. } => "clearStencil",
            Op::ColorMask { .. } => "colorMask",
            Op::CullFace { .. } => "cullFace",
            Op::DepthFunc { .. } => "depthFunc",
            Op::DepthMask { .. } => "depthMask",
            Op::DepthRange { .. } => "depthRange",
            Op::Disable { .. } => "disable",
            Op::Enable { .. } => "enable",
            Op::IsEnabled { .. } => "isEnabled",
            Op::FrontFace { .. } => "frontFace",
            Op::GetError => "getError",
            Op::Hint { .. } => "hint",
            Op::LineWidth { .. } => "lineWidth",
            Op::PixelStorei { .. } => "pixelStorei",
            Op::PolygonOffset { .. } => "polygonOffset",
            Op::SampleCoverage { .. } => "sampleCoverage",
            Op::StencilFunc { .. } => "stencilFunc",
            Op::StencilFuncSeparate { .. } => "stencilFuncSeparate",
            Op::StencilMask { .. } => "stencilMask",
            Op::StencilMaskSeparate { .. } => "stencilMaskSeparate",
            Op::StencilOp { .. } => "stencilOp",
            Op::StencilOpSeparate { .. } => "stencilOpSeparate",
            Op::DisableVertexAttribArray { .. } => "disableVertexAttribArray",
            Op::EnableVertexAttribArray { .. } => "enableVertexAttribArray",
            Op::GetVertexAttribOffset { .. } => "getVertexAttribOffset",
            Op::VertexAttrib1f { .. } => "vertexAttrib1f",
            Op::VertexAttrib2f { .. } => "vertexAttrib2f",
            Op::VertexAttrib3f { .. } => "vertexAttrib3f",
            Op::VertexAttrib4f { .. } => "vertexAttrib4f",
            Op::VertexAttrib1fv { .. } => "vertexAttrib1fv",
            Op::VertexAttrib2fv { .. } => "vertexAttrib2fv",
            Op::VertexAttrib3fv { .. } => "vertexAttrib3fv",
            Op::VertexAttrib4fv { .. } => "vertexAttrib4fv",
            Op::VertexAttribPointer { .. } => "vertexAttribPointer",
            Op::VertexAttribI4i { .. } => "vertexAttribI4i",
            Op::VertexAttribI4ui { .. } => "vertexAttribI4ui",
            Op::VertexAttribI4iv { .. } => "vertexAttribI4iv",
            Op::VertexAttribI4uiv { .. } => "vertexAttribI4uiv",
            Op::VertexAttribIPointer { .. } => "vertexAttribIPointer",
            Op::VertexAttribDivisor { .. } => "vertexAttribDivisor",
            Op::Clear { .. } => "clear",
            Op::DrawArrays { .. } => "drawArrays",
            Op::DrawElements { .. } => "drawElements",
            Op::DrawArraysInstanced { .. } => "drawArraysInstanced",
            Op::DrawElementsInstanced { .. } => "drawElementsInstanced",
            Op::DrawRangeElements { .. } => "drawRangeElements",
            Op::Finish => "finish",
            Op::Flush => "flush",
            Op::ClearBufferfv { .. } => "clearBufferfv",
            Op::ClearBufferiv { .. } => "clearBufferiv",
            Op::ClearBufferuiv { .. } => "clearBufferuiv",
            Op::ClearBufferfi { .. } => "clearBufferfi",
            Op::Uniform1f { .. } => "uniform1f",
            Op::Uniform2f { .. } => "uniform2f",
            Op::Uniform3f { .. } => "uniform3f",
            Op::Uniform4f { .. } => "uniform4f",
            Op::Uniform1i { .. } => "uniform1i",
            Op::Uniform2i { .. } => "uniform2i",
            Op::Uniform3i { .. } => "uniform3i",
            Op::Uniform4i { .. } => "uniform4i",
            Op::Uniform1ui { .. } => "uniform1ui",
            Op::Uniform2ui { .. } => "uniform2ui",
            Op::Uniform3ui { .. } => "uniform3ui",
            Op::Uniform4ui { .. } => "uniform4ui",
            Op::Uniform1fv { .. } => "uniform1fv",
            Op::Uniform2fv { .. } => "uniform2fv",
            Op::Uniform3fv { .. } => "uniform3fv",
            Op::Uniform4fv { .. } => "uniform4fv",
            Op::Uniform1iv { .. } => "uniform1iv",
            Op::Uniform2iv { .. } => "uniform2iv",
            Op::Uniform3iv { .. } => "uniform3iv",
            Op::Uniform4iv { .. } => "uniform4iv",
            Op::Uniform1uiv { .. } => "uniform1uiv",
            Op::Uniform2uiv { .. } => "uniform2uiv",
            Op::Uniform3uiv { .. } => "uniform3uiv",
            Op::Uniform4uiv { .. } => "uniform4uiv",
            Op::UniformMatrix2fv { .. } => "uniformMatrix2fv",
            Op::UniformMatrix3fv { .. } => "uniformMatrix3fv",
            Op::UniformMatrix4fv { .. } => "uniformMatrix4fv",
            Op::UniformMatrix2x3fv { .. } => "uniformMatrix2x3fv",
            Op::UniformMatrix2x4fv { .. } => "uniformMatrix2x4fv",
            Op::UniformMatrix3x2fv { .. } => "uniformMatrix3x2fv",
            Op::UniformMatrix3x4fv { .. } => "uniformMatrix3x4fv",
            Op::UniformMatrix4x2fv { .. } => "uniformMatrix4x2fv",
            Op::UniformMatrix4x3fv { .. } => "uniformMatrix4x3fv",
        }
    }

    /// Gives the shape of what the entry point returns.
    pub fn result_shape(&self) -> (s: Shape)
        ensures
            s == self.shape(),
    {
        match self {
            Op::GetBufferParameter { pname, .. } => pname.result_shape(),
            Op::GetQueryParameter { pname, .. } => pname.result_shape(),
            Op::GetRenderbufferParameter { pname, .. } => pname.result_shape(),
            Op::GetSamplerParameter { pname, .. } => pname.result_shape(),
            Op::GetProgramParameter { pname, .. } => pname.result_shape(),
            Op::GetShaderParameter { pname, .. } => pname.result_shape(),
            Op::GetSyncParameter { pname, .. } => pname.result_shape(),
            Op::GetTexParameter { pname, .. } => pname.result_shape(),
            Op::GetContext { .. } => Shape::Object,
            Op::Canvas => Shape::Object,
            Op::DrawingBufferWidth => Shape::U32,
            Op::DrawingBufferHeight => Shape::U32,
            Op::IsContextLost => Shape::Bool,
            Op::CreateBuffer => Shape::Object,
            Op::IsBuffer { .. } => Shape::Bool,
            Op::GetBufferSubData { .. } => Shape::Data,
            Op::CreateFramebuffer => Shape::Object,
            Op::IsFramebuffer { .. } => Shape::Bool,
            Op::CheckFramebufferStatus { .. } => Shape::Enum(Catalog::FramebufferStatus),
            Op::ReadPixels { .. } => Shape::Data,
            Op::CreateQuery => Shape::Object,
            Op::IsQuery { .. } => Shape::Bool,
            Op::GetQuery { .. } => Shape::Object,
            Op::CreateRenderbuffer => Shape::Object,
            Op::IsRenderbuffer { .. } => Shape::Bool,
            Op::GetInternalformatParameter { .. } => Shape::Data,
            Op::CreateSampler => Shape::Object,
            Op::IsSampler { .. } => Shape::Bool,
            Op::CreateProgram => Shape::Object,
            Op::IsProgram { .. } => Shape::Bool,
            Op::GetProgramInfoLog { .. } => Shape::Text,
            Op::GetActiveAttrib { .. } => Shape::ActiveInfo,
            Op::GetActiveUniform { .. } => Shape::ActiveInfo,
            Op::GetAttribLocation { .. } => Shape::I32,
            Op::GetUniformLocation { .. } => Shape::Object,
            Op::GetFragDataLocation { .. } => Shape::I32,
            Op::GetTransformFeedbackVarying { .. } => Shape::ActiveInfo,
            Op::GetUniformBlockIndex { .. } => Shape::U32,
            Op::GetActiveUniformBlockName { .. } => Shape::Text,
            Op::CreateShader { .. } => Shape::Object,
            Op::IsShader { .. } => Shape::Bool,
            Op::GetShaderSource { .. } => Shape::Text,
            Op::GetShaderInfoLog { .. } => Shape::Text,
            Op::GetShaderPrecisionFormat { .. } => Shape::PrecisionFormat,
            Op::FenceSync { .. } => Shape::Object,
            Op::IsSync { .. } => Shape::Bool,
            Op::ClientWaitSync { .. } => Shape::Enum(Catalog::WaitStatus),
            Op::CreateTexture => Shape::Object,
            Op::IsTexture { .. } => Shape::Bool,
            Op::TexImage2D { .. } => Shape::Outcome,
            Op::TexSubImage2D { .. } => Shape::Outcome,
            Op::CreateTransformFeedback => Shape::Object,
            Op::IsTransformFeedback { .. } => Shape::Bool,
            Op::CreateVertexArray => Shape::Object,
            Op::IsVertexArray { .. } => Shape::Bool,
            Op::IsEnabled { .. } => Shape::Bool,
            Op::GetError => Shape::Enum(Catalog::Error),
            Op::GetVertexAttribOffset { .. } => Shape::I64,
            _ => Shape::Nothing,
        }
    }
}

} // verus!
