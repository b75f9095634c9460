//! The context facade: every operation that belongs to no resource gives the
//! call that the context's interface fixes for it, with the arguments as they
//! were given.
use webgl_rs::call::Op;
use webgl_rs::glenum::{
    AttributeSize, AttributeType, BlendEquation, BlendMode, BufferBit, BufferKind, BufferParameter,
    Catalog, ClearBuffer, ColorBuffer, Culling, DataType, DepthTest, Flag, FramebufferKind,
    FrontFaceDirection, HintMode, HintTarget, InformationType, PixelCopyFormat, PixelStorageMode,
    PixelType, Primitives, QueryTarget, RenderbufferFormat, RenderbufferKind,
    RenderbufferParameter, ShaderKind, ShaderPrecision, StencilAction, StencilTest, Texture2DKind,
    Texture3DKind, TextureBindPoint, TextureKind, TextureMagFilter, TextureParameter, TextureUnit,
    TransformFeedbackMode, VertexAttrib,
};
use webgl_rs::number::Float32;
use webgl_rs::rendering_context::WebGL2RenderingContext;
use webgl_rs::reply::Shape;
use webgl_rs::uniform_location::WebGLUniformLocation;

#[test]
fn parameter_getters_fix_the_parameter() {
    let context = WebGL2RenderingContext::new("surface");
    let call = context.buffer_size(BufferKind::ElementArray);
    assert_eq!(
        call.op,
        Op::GetBufferParameter { target: BufferKind::ElementArray, pname: BufferParameter::Size }
    );
    assert_eq!(call.op.js_name(), "getBufferParameter");
    assert_eq!(call.op.result_shape(), Shape::I32);
    let call = context.buffer_usage(BufferKind::ElementArray);
    assert_eq!(
        call.op,
        Op::GetBufferParameter { target: BufferKind::ElementArray, pname: BufferParameter::Usage }
    );
    assert_eq!(call.op.js_name(), "getBufferParameter");
    assert_eq!(call.op.result_shape(), Shape::Enum(Catalog::DataHint));
    let call = context.renderbuffer_internal_format(RenderbufferKind::Renderbuffer);
    assert_eq!(
        call.op,
        Op::GetRenderbufferParameter { target: RenderbufferKind::Renderbuffer, pname: RenderbufferParameter::Format }
    );
    assert_eq!(call.op.js_name(), "getRenderbufferParameter");
    assert_eq!(call.op.result_shape(), Shape::Enum(Catalog::RenderbufferFormat));
    let call = context.renderbuffer_width(RenderbufferKind::Renderbuffer);
    assert_eq!(
        call.op,
        Op::GetRenderbufferParameter { target: RenderbufferKind::Renderbuffer, pname: RenderbufferParameter::Width }
    );
    assert_eq!(call.op.js_name(), "getRenderbufferParameter");
    assert_eq!(call.op.result_shape(), Shape::I32);
    let call = context.renderbuffer_height(RenderbufferKind::Renderbuffer);
    assert_eq!(
        call.op,
        Op::GetRenderbufferParameter { target: RenderbufferKind::Renderbuffer, pname: RenderbufferParameter::Height }
    );
    assert_eq!(call.op.js_name(), "getRenderbufferParameter");
    assert_eq!(call.op.result_shape(), Shape::I32);
    let call = context.renderbuffer_green_size(RenderbufferKind::Renderbuffer);
    assert_eq!(
        call.op,
        Op::GetRenderbufferParameter { target: RenderbufferKind::Renderbuffer, pname: RenderbufferParameter::GreenSize }
    );
    assert_eq!(call.op.js_name(), "getRenderbufferParameter");
    assert_eq!(call.op.result_shape(), Shape::I32);
    let call = context.renderbuffer_blue_size(RenderbufferKind::Renderbuffer);
    assert_eq!(
        call.op,
        Op::GetRenderbufferParameter { target: RenderbufferKind::Renderbuffer, pname: RenderbufferParameter::BlueSize }
    );
    assert_eq!(call.op.js_name(), "getRenderbufferParameter");
    assert_eq!(call.op.result_shape(), Shape::I32);
    let call = context.renderbuffer_red_size(RenderbufferKind::Renderbuffer);
    assert_eq!(
        call.op,
        Op::GetRenderbufferParameter { target: RenderbufferKind::Renderbuffer, pname: RenderbufferParameter::RedSize }
    );
    assert_eq!(call.op.js_name(), "getRenderbufferParameter");
    assert_eq!(call.op.result_shape(), Shape::I32);
    let call = context.renderbuffer_alpha_size(RenderbufferKind::Renderbuffer);
    assert_eq!(
        call.op,
        Op::GetRenderbufferParameter { target: RenderbufferKind::Renderbuffer, pname: RenderbufferParameter::AlphaSize }
    );
    assert_eq!(call.op.js_name(), "getRenderbufferParameter");
    assert_eq!(call.op.result_shape(), Shape::I32);
    let call = context.renderbuffer_depth_size(RenderbufferKind::Renderbuffer);
    assert_eq!(
        call.op,
        Op::GetRenderbufferParameter { target: RenderbufferKind::Renderbuffer, pname: RenderbufferParameter::DepthSize }
    );
    assert_eq!(call.op.js_name(), "getRenderbufferParameter");
    assert_eq!(call.op.result_shape(), Shape::I32);
    let call = context.renderbuffer_stencil_size(RenderbufferKind::Renderbuffer);
    assert_eq!(
        call.op,
        Op::GetRenderbufferParameter { target: RenderbufferKind::Renderbuffer, pname: RenderbufferParameter::StencilSize }
    );
    assert_eq!(call.op.js_name(), "getRenderbufferParameter");
    assert_eq!(call.op.result_shape(), Shape::I32);
    let call = context.renderbuffer_samples(RenderbufferKind::Renderbuffer);
    assert_eq!(
        call.op,
        Op::GetRenderbufferParameter { target: RenderbufferKind::Renderbuffer, pname: RenderbufferParameter::Samples }
    );
    assert_eq!(call.op.js_name(), "getRenderbufferParameter");
    assert_eq!(call.op.result_shape(), Shape::I32);
    let call = context.texture_mag_filter(TextureKind::TextureCubeMap);
    assert_eq!(
        call.op,
        Op::GetTexParameter { target: TextureKind::TextureCubeMap, pname: TextureParameter::MagFilter }
    );
    assert_eq!(call.op.js_name(), "getTexParameter");
    assert_eq!(call.op.result_shape(), Shape::Enum(Catalog::TextureMagFilter));
    let call = context.texture_min_filter(TextureKind::TextureCubeMap);
    assert_eq!(
        call.op,
        Op::GetTexParameter { target: TextureKind::TextureCubeMap, pname: TextureParameter::MinFilter }
    );
    assert_eq!(call.op.js_name(), "getTexParameter");
    assert_eq!(call.op.result_shape(), Shape::Enum(Catalog::TextureMinFilter));
    let call = context.texture_wrap_s(TextureKind::TextureCubeMap);
    assert_eq!(
        call.op,
        Op::GetTexParameter { target: TextureKind::TextureCubeMap, pname: TextureParameter::WrapS }
    );
    assert_eq!(call.op.js_name(), "getTexParameter");
    assert_eq!(call.op.result_shape(), Shape::Enum(Catalog::TextureWrap));
    let call = context.texture_wrap_t(TextureKind::TextureCubeMap);
    assert_eq!(
        call.op,
        Op::GetTexParameter { target: TextureKind::TextureCubeMap, pname: TextureParameter::WrapT }
    );
    assert_eq!(call.op.js_name(), "getTexParameter");
    assert_eq!(call.op.result_shape(), Shape::Enum(Catalog::TextureWrap));
    let call = context.texture_base_level(TextureKind::TextureCubeMap);
    assert_eq!(
        call.op,
        Op::GetTexParameter { target: TextureKind::TextureCubeMap, pname: TextureParameter::BaseLevel }
    );
    assert_eq!(call.op.js_name(), "getTexParameter");
    assert_eq!(call.op.result_shape(), Shape::I32);
    let call = context.texture_compare_func(TextureKind::TextureCubeMap);
    assert_eq!(
        call.op,
        Op::GetTexParameter { target: TextureKind::TextureCubeMap, pname: TextureParameter::CompareFunc }
    );
    assert_eq!(call.op.js_name(), "getTexParameter");
    assert_eq!(call.op.result_shape(), Shape::Enum(Catalog::DepthTest));
    let call = context.texture_compare_mode(TextureKind::TextureCubeMap);
    assert_eq!(
        call.op,
        Op::GetTexParameter { target: TextureKind::TextureCubeMap, pname: TextureParameter::CompareMode }
    );
    assert_eq!(call.op.js_name(), "getTexParameter");
    assert_eq!(call.op.result_shape(), Shape::Enum(Catalog::CompareMode));
    let call = context.texture_immutable_format(TextureKind::TextureCubeMap);
    assert_eq!(
        call.op,
        Op::GetTexParameter { target: TextureKind::TextureCubeMap, pname: TextureParameter::ImmutableFormat }
    );
    assert_eq!(call.op.js_name(), "getTexParameter");
    assert_eq!(call.op.result_shape(), Shape::Bool);
    let call = context.texture_immutable_levels(TextureKind::TextureCubeMap);
    assert_eq!(
        call.op,
        Op::GetTexParameter { target: TextureKind::TextureCubeMap, pname: TextureParameter::ImmutableLevels }
    );
    assert_eq!(call.op.js_name(), "getTexParameter");
    assert_eq!(call.op.result_shape(), Shape::U32);
    let call = context.texture_max_level(TextureKind::TextureCubeMap);
    assert_eq!(
        call.op,
        Op::GetTexParameter { target: TextureKind::TextureCubeMap, pname: TextureParameter::MaxLevel }
    );
    assert_eq!(call.op.js_name(), "getTexParameter");
    assert_eq!(call.op.result_shape(), Shape::I32);
    let call = context.texture_max_lod(TextureKind::TextureCubeMap);
    assert_eq!(
        call.op,
        Op::GetTexParameter { target: TextureKind::TextureCubeMap, pname: TextureParameter::MaxLod }
    );
    assert_eq!(call.op.js_name(), "getTexParameter");
    assert_eq!(call.op.result_shape(), Shape::Float);
    let call = context.texture_min_lod(TextureKind::TextureCubeMap);
    assert_eq!(
        call.op,
        Op::GetTexParameter { target: TextureKind::TextureCubeMap, pname: TextureParameter::MinLod }
    );
    assert_eq!(call.op.js_name(), "getTexParameter");
    assert_eq!(call.op.result_shape(), Shape::Float);
    let call = context.texture_wrap_r(TextureKind::TextureCubeMap);
    assert_eq!(
        call.op,
        Op::GetTexParameter { target: TextureKind::TextureCubeMap, pname: TextureParameter::WrapR }
    );
    assert_eq!(call.op.js_name(), "getTexParameter");
    assert_eq!(call.op.result_shape(), Shape::Enum(Catalog::TextureWrap));
}

#[test]
fn operations_pass_their_arguments_on_first_part() {
    let context = WebGL2RenderingContext::new("surface");
    let bytes: Vec<u8> = vec![0, 1, 254, 255];
    let call = context.canvas();
    assert_eq!(call.context, &context);
    assert_eq!(call.op, Op::Canvas);
    assert_eq!(call.op.js_name(), "canvas");
    assert_eq!(call.op.result_shape(), Shape::Object);
    let call = context.drawing_buffer_width();
    assert_eq!(call.context, &context);
    assert_eq!(call.op, Op::DrawingBufferWidth);
    assert_eq!(call.op.js_name(), "drawingBufferWidth");
    assert_eq!(call.op.result_shape(), Shape::U32);
    let call = context.drawing_buffer_height();
    assert_eq!(call.context, &context);
    assert_eq!(call.op, Op::DrawingBufferHeight);
    assert_eq!(call.op.js_name(), "drawingBufferHeight");
    assert_eq!(call.op.result_shape(), Shape::U32);
    let call = context.is_context_lost();
    assert_eq!(call.context, &context);
    assert_eq!(call.op, Op::IsContextLost);
    assert_eq!(call.op.js_name(), "isContextLost");
    assert_eq!(call.op.result_shape(), Shape::Bool);
    let call = context.copy_buffer_sub_data(
        BufferKind::ElementArray,
        BufferKind::CopyRead,
        -9,
        1 << 40,
        3,
    );
    assert_eq!(call.context, &context);
    assert_eq!(
        call.op,
        Op::CopyBufferSubData {
            read_target: BufferKind::ElementArray,
            write_target: BufferKind::CopyRead,
            read_offset: -9,
            write_offset: 1 << 40,
            size: 3,
        }
    );
    assert_eq!(call.op.js_name(), "copyBufferSubData");
    assert_eq!(call.op.result_shape(), Shape::Nothing);
    let call = context.get_buffer_sub_data(BufferKind::ElementArray, -9, &bytes, 1 << 40, 3);
    assert_eq!(call.context, &context);
    assert_eq!(
        call.op,
        Op::GetBufferSubData {
            target: BufferKind::ElementArray,
            src_byte_offset: -9,
            dst_data: &bytes,
            dst_offset: 1 << 40,
            length: 3,
        }
    );
    assert_eq!(call.op.js_name(), "getBufferSubData");
    assert_eq!(call.op.result_shape(), Shape::Data);
    let call = context.check_framebuffer_status(FramebufferKind::DrawFramebuffer);
    assert_eq!(call.context, &context);
    assert_eq!(call.op, Op::CheckFramebufferStatus { target: FramebufferKind::DrawFramebuffer });
    assert_eq!(call.op.js_name(), "checkFramebufferStatus");
    assert_eq!(call.op.result_shape(), Shape::Enum(Catalog::FramebufferStatus));
    let call = context.blit_framebuffer(
        -3,
        5,
        -7,
        11,
        13,
        17,
        19,
        23,
        BufferBit::Stencil,
        TextureMagFilter::Linear,
    );
    assert_eq!(call.context, &context);
    assert_eq!(
        call.op,
        Op::BlitFramebuffer {
            src_x0: -3,
            src_y0: 5,
            src_x1: -7,
            src_y1: 11,
            dst_x0: 13,
            dst_y0: 17,
            dst_x1: 19,
            dst_y1: 23,
            mask: BufferBit::Stencil,
            filter: TextureMagFilter::Linear,
        }
    );
    assert_eq!(call.op.js_name(), "blitFramebuffer");
    assert_eq!(call.op.result_shape(), Shape::Nothing);
    let call = context.read_buffer(ColorBuffer::Back);
    assert_eq!(call.context, &context);
    assert_eq!(call.op, Op::ReadBuffer { src: ColorBuffer::Back });
    assert_eq!(call.op.js_name(), "readBuffer");
    assert_eq!(call.op.result_shape(), Shape::Nothing);
    let call = context.end_query(QueryTarget::AnySamplesPassedConservative);
    assert_eq!(call.context, &context);
    assert_eq!(call.op, Op::EndQuery { target: QueryTarget::AnySamplesPassedConservative });
    assert_eq!(call.op.js_name(), "endQuery");
    assert_eq!(call.op.result_shape(), Shape::Nothing);
    let call = context.renderbuffer_storage(
        RenderbufferKind::Renderbuffer,
        RenderbufferFormat::Rgb565,
        3,
        5,
    );
    assert_eq!(call.context, &context);
    assert_eq!(
        call.op,
        Op::RenderbufferStorage {
            target: RenderbufferKind::Renderbuffer,
            internal_format: RenderbufferFormat::Rgb565,
            width: 3,
            height: 5,
        }
    );
    assert_eq!(call.op.js_name(), "renderbufferStorage");
    assert_eq!(call.op.result_shape(), Shape::Nothing);
    let call = context.renderbuffer_storage_multisample(
        RenderbufferKind::Renderbuffer,
        3,
        RenderbufferFormat::Rgb565,
        5,
        7,
    );
    assert_eq!(call.context, &context);
    assert_eq!(
        call.op,
        Op::RenderbufferStorageMultisample {
            target: RenderbufferKind::Renderbuffer,
            samples: 3,
            internal_format: RenderbufferFormat::Rgb565,
            width: 5,
            height: 7,
        }
    );
    assert_eq!(call.op.js_name(), "renderbufferStorageMultisample");
    assert_eq!(call.op.result_shape(), Shape::Nothing);
    let call = context.get_internal_format_parameter(
        RenderbufferKind::Renderbuffer,
        RenderbufferFormat::Rgb565,
        InformationType::Samples,
    );
    assert_eq!(call.context, &context);
    assert_eq!(
        call.op,
        Op::GetInternalformatParameter {
            target: RenderbufferKind::Renderbuffer,
            internal_format: RenderbufferFormat::Rgb565,
            pname: InformationType::Samples,
        }
    );
    assert_eq!(call.op.js_name(), "getInternalformatParameter");
    assert_eq!(call.op.result_shape(), Shape::Data);
    let call = context.get_shader_precision_format(
        ShaderKind::Vertex,
        ShaderPrecision::MediumFloat,
    );
    assert_eq!(call.context, &context);
    assert_eq!(
        call.op,
        Op::GetShaderPrecisionFormat {
            shader_type: ShaderKind::Vertex,
            precision_type: ShaderPrecision::MediumFloat,
        }
    );
    assert_eq!(call.op.js_name(), "getShaderPrecisionFormat");
    assert_eq!(call.op.result_shape(), Shape::PrecisionFormat);
}

#[test]
fn operations_pass_their_arguments_on_second_part() {
    let context = WebGL2RenderingContext::new("surface");
    let bytes: Vec<u8> = vec![0, 1, 254, 255];
    let call = context.active_texture(TextureUnit::Texture1);
    assert_eq!(call.context, &context);
    assert_eq!(call.op, Op::ActiveTexture { texture: TextureUnit::Texture1 });
    assert_eq!(call.op.js_name(), "activeTexture");
    assert_eq!(call.op.result_shape(), Shape::Nothing);
    let call = context.generate_mipmap(TextureKind::TextureCubeMap);
    assert_eq!(call.context, &context);
    assert_eq!(call.op, Op::GenerateMipmap { target: TextureKind::TextureCubeMap });
    assert_eq!(call.op.js_name(), "generateMipmap");
    assert_eq!(call.op.result_shape(), Shape::Nothing);
    let call = context.tex_parameter_f(
        TextureKind::TextureCubeMap,
        TextureParameter::MinFilter,
        Float32::from_bits(0x3F800000),
    );
    assert_eq!(call.context, &context);
    assert_eq!(
        call.op,
        Op::TexParameterf {
            target: TextureKind::TextureCubeMap,
            pname: TextureParameter::MinFilter,
            param: Float32::from_bits(0x3F800000),
        }
    );
    assert_eq!(call.op.js_name(), "texParameterf");
    assert_eq!(call.op.result_shape(), Shape::Nothing);
    let call = context.tex_parameter_i(
        TextureKind::TextureCubeMap,
        TextureParameter::MinFilter,
        -3,
    );
    assert_eq!(call.context, &context);
    assert_eq!(
        call.op,
        Op::TexParameteri {
            target: TextureKind::TextureCubeMap,
            pname: TextureParameter::MinFilter,
            param: -3,
        }
    );
    assert_eq!(call.op.js_name(), "texParameteri");
    assert_eq!(call.op.result_shape(), Shape::Nothing);
    let call = context.copy_tex_image_2d(
        TextureBindPoint::TextureCubeMapPositiveX,
        3,
        PixelCopyFormat::Rgb,
        -3,
        5,
        5,
        7,
        11,
    );
    assert_eq!(call.context, &context);
    assert_eq!(
        call.op,
        Op::CopyTexImage2D {
            target: TextureBindPoint::TextureCubeMapPositiveX,
            level: 3,
            internalformat: PixelCopyFormat::Rgb,
            x: -3,
            y: 5,
            width: 5,
            height: 7,
            border: 11,
        }
    );
    assert_eq!(call.op.js_name(), "copyTexImage2D");
    assert_eq!(call.op.result_shape(), Shape::Nothing);
    let call = context.copy_tex_sub_image_2d(
        TextureBindPoint::TextureCubeMapPositiveX,
        3,
        -3,
        5,
        -7,
        11,
        5,
        7,
    );
    assert_eq!(call.context, &context);
    assert_eq!(
        call.op,
        Op::CopyTexSubImage2D {
            target: TextureBindPoint::TextureCubeMapPositiveX,
            level: 3,
            xoffset: -3,
            yoffset: 5,
            x: -7,
            y: 11,
            width: 5,
            height: 7,
        }
    );
    assert_eq!(call.op.js_name(), "copyTexSubImage2D");
    assert_eq!(call.op.result_shape(), Shape::Nothing);
    let call = context.tex_storage_2d(
        Texture2DKind::TextureCubeMap,
        3,
        RenderbufferFormat::Rgb565,
        5,
        7,
    );
    assert_eq!(call.context, &context);
    assert_eq!(
        call.op,
        Op::TexStorage2D {
            target: Texture2DKind::TextureCubeMap,
            levels: 3,
            internal_format: RenderbufferFormat::Rgb565,
            width: 5,
            height: 7,
        }
    );
    assert_eq!(call.op.js_name(), "texStorage2D");
    assert_eq!(call.op.result_shape(), Shape::Nothing);
    let call = context.tex_storage_3d(
        Texture3DKind::Texture2dArray,
        3,
        RenderbufferFormat::Rgb565,
        5,
        7,
        11,
    );
    assert_eq!(call.context, &context);
    assert_eq!(
        call.op,
        Op::TexStorage3D {
            target: Texture3DKind::Texture2dArray,
            levels: 3,
            internal_format: RenderbufferFormat::Rgb565,
            width: 5,
            height: 7,
            depth: 11,
        }
    );
    assert_eq!(call.op.js_name(), "texStorage3D");
    assert_eq!(call.op.result_shape(), Shape::Nothing);
    let call = context.tex_image_3d(
        Texture3DKind::Texture2dArray,
        3,
        PixelCopyFormat::Rgb,
        5,
        7,
        11,
        13,
        PixelCopyFormat::Rgba,
        PixelType::Byte,
        &bytes,
        3,
    );
    assert_eq!(call.context, &context);
    assert_eq!(
        call.op,
        Op::TexImage3D {
            target: Texture3DKind::Texture2dArray,
            level: 3,
            internalformat: PixelCopyFormat::Rgb,
            width: 5,
            height: 7,
            depth: 11,
            border: 13,
            format: PixelCopyFormat::Rgba,
            data_type: PixelType::Byte,
            src_data: &bytes,
            src_offset: 3,
        }
    );
    assert_eq!(call.op.js_name(), "texImage3D");
    assert_eq!(call.op.result_shape(), Shape::Nothing);
    let call = context.tex_sub_image_3d(
        Texture3DKind::Texture2dArray,
        3,
        5,
        7,
        11,
        13,
        3,
        5,
        PixelCopyFormat::Rgb,
        PixelType::Byte,
        &bytes,
        7,
    );
    assert_eq!(call.context, &context);
    assert_eq!(
        call.op,
        Op::TexSubImage3D {
            target: Texture3DKind::Texture2dArray,
            level: 3,
            xoffset: 5,
            yoffset: 7,
            zoffset: 11,
            width: 13,
            height: 3,
            depth: 5,
            format: PixelCopyFormat::Rgb,
            data_type: PixelType::Byte,
            src_data: &bytes,
            src_offset: 7,
        }
    );
    assert_eq!(call.op.js_name(), "texSubImage3D");
    assert_eq!(call.op.result_shape(), Shape::Nothing);
    let call = context.copy_tex_sub_image_3d(
        Texture3DKind::Texture2dArray,
        3,
        5,
        7,
        11,
        13,
        3,
        5,
        7,
    );
    assert_eq!(call.context, &context);
    assert_eq!(
        call.op,
        Op::CopyTexSubImage3D {
            target: Texture3DKind::Texture2dArray,
            level: 3,
            xoffset: 5,
            yoffset: 7,
            zoffset: 11,
            x: 13,
            y: 3,
            width: 5,
            height: 7,
        }
    );
    assert_eq!(call.op.js_name(), "copyTexSubImage3D");
    assert_eq!(call.op.result_shape(), Shape::Nothing);
    let call = context.begin_transform_feedback(TransformFeedbackMode::Lines);
    assert_eq!(call.context, &context);
    assert_eq!(
        call.op,
        Op::BeginTransformFeedback {
            primitive_mode: TransformFeedbackMode::Lines,
        }
    );
    assert_eq!(call.op.js_name(), "beginTransformFeedback");
    assert_eq!(call.op.result_shape(), Shape::Nothing);
    let call = context.end_transform_feedback();
    assert_eq!(call.context, &context);
    assert_eq!(call.op, Op::EndTransformFeedback);
    assert_eq!(call.op.js_name(), "endTransformFeedback");
    assert_eq!(call.op.result_shape(), Shape::Nothing);
    let call = context.pause_transform_feedback();
    assert_eq!(call.context, &context);
    assert_eq!(call.op, Op::PauseTransformFeedback);
    assert_eq!(call.op.js_name(), "pauseTransformFeedback");
    assert_eq!(call.op.result_shape(), Shape::Nothing);
}

#[test]
fn operations_pass_their_arguments_on_third_part() {
    let context = WebGL2RenderingContext::new("surface");
    let call = context.resume_transform_feedback();
    assert_eq!(call.context, &context);
    assert_eq!(call.op, Op::ResumeTransformFeedback);
    assert_eq!(call.op.js_name(), "resumeTransformFeedback");
    assert_eq!(call.op.result_shape(), Shape::Nothing);
    let call = context.scissor(-3, 5, 3, 5);
    assert_eq!(call.context, &context);
    assert_eq!(call.op, Op::Scissor { x: -3, y: 5, width: 3, height: 5 });
    assert_eq!(call.op.js_name(), "scissor");
    assert_eq!(call.op.result_shape(), Shape::Nothing);
    let call = context.viewport(-3, 5, 3, 5);
    assert_eq!(call.context, &context);
    assert_eq!(call.op, Op::Viewport { x: -3, y: 5, width: 3, height: 5 });
    assert_eq!(call.op.js_name(), "viewport");
    assert_eq!(call.op.result_shape(), Shape::Nothing);
    let call = context.blend_color(
        Float32::from_bits(0x3F800000),
        Float32::from_bits(0x3FC00000),
        Float32::from_bits(0x40000000),
        Float32::from_bits(0x40400000),
    );
    assert_eq!(call.context, &context);
    assert_eq!(
        call.op,
        Op::BlendColor {
            red: Float32::from_bits(0x3F800000),
            green: Float32::from_bits(0x3FC00000),
            blue: Float32::from_bits(0x40000000),
            alpha: Float32::from_bits(0x40400000),
        }
    );
    assert_eq!(call.op.js_name(), "blendColor");
    assert_eq!(call.op.result_shape(), Shape::Nothing);
    let call = context.blend_equation(BlendEquation::FuncSubtract);
    assert_eq!(call.context, &context);
    assert_eq!(call.op, Op::BlendEquation { mode: BlendEquation::FuncSubtract });
    assert_eq!(call.op.js_name(), "blendEquation");
    assert_eq!(call.op.result_shape(), Shape::Nothing);
    let call = context.blend_equation_separate(
        BlendEquation::FuncSubtract,
        BlendEquation::FuncReverseSubtract,
    );
    assert_eq!(call.context, &context);
    assert_eq!(
        call.op,
        Op::BlendEquationSeparate {
            mode_rgb: BlendEquation::FuncSubtract,
            mode_alpha: BlendEquation::FuncReverseSubtract,
        }
    );
    assert_eq!(call.op.js_name(), "blendEquationSeparate");
    assert_eq!(call.op.result_shape(), Shape::Nothing);
    let call = context.blend_func(BlendMode::One, BlendMode::SrcColor);
    assert_eq!(call.context, &context);
    assert_eq!(call.op, Op::BlendFunc { sfactor: BlendMode::One, dfactor: BlendMode::SrcColor });
    assert_eq!(call.op.js_name(), "blendFunc");
    assert_eq!(call.op.result_shape(), Shape::Nothing);
    let call = context.blend_func_separate(
        BlendMode::One,
        BlendMode::SrcColor,
        BlendMode::OneMinusSrcColor,
        BlendMode::SrcAlpha,
    );
    assert_eq!(call.context, &context);
    assert_eq!(
        call.op,
        Op::BlendFuncSeparate {
            src_rgb: BlendMode::One,
            dst_rgb: BlendMode::SrcColor,
            src_alpha: BlendMode::OneMinusSrcColor,
            dst_alpha: BlendMode::SrcAlpha,
        }
    );
    assert_eq!(call.op.js_name(), "blendFuncSeparate");
    assert_eq!(call.op.result_shape(), Shape::Nothing);
    let call = context.clear_color(
        Float32::from_bits(0x3F800000),
        Float32::from_bits(0x3FC00000),
        Float32::from_bits(0x40000000),
        Float32::from_bits(0x40400000),
    );
    assert_eq!(call.context, &context);
    assert_eq!(
        call.op,
        Op::ClearColor {
            red: Float32::from_bits(0x3F800000),
            green: Float32::from_bits(0x3FC00000),
            blue: Float32::from_bits(0x40000000),
            alpha: Float32::from_bits(0x40400000),
        }
    );
    assert_eq!(call.op.js_name(), "clearColor");
    assert_eq!(call.op.result_shape(), Shape::Nothing);
    let call = context.clear_depth(Float32::from_bits(0x3F800000));
    assert_eq!(call.context, &context);
    assert_eq!(call.op, Op::ClearDepth { depth: Float32::from_bits(0x3F800000) });
    assert_eq!(call.op.js_name(), "clearDepth");
    assert_eq!(call.op.result_shape(), Shape::Nothing);
    let call = context.clear_stencil(-3);
    assert_eq!(call.context, &context);
    assert_eq!(call.op, Op::ClearStencil { s: -3 });
    assert_eq!(call.op.js_name(), "clearStencil");
    assert_eq!(call.op.result_shape(), Shape::Nothing);
    let call = context.color_mask(true, false, true, false);
    assert_eq!(call.context, &context);
    assert_eq!(call.op, Op::ColorMask { red: true, green: false, blue: true, alpha: false });
    assert_eq!(call.op.js_name(), "colorMask");
    assert_eq!(call.op.result_shape(), Shape::Nothing);
    let call = context.cull_face(Culling::Back);
    assert_eq!(call.context, &context);
    assert_eq!(call.op, Op::CullFace { mode: Culling::Back });
    assert_eq!(call.op.js_name(), "cullFace");
    assert_eq!(call.op.result_shape(), Shape::Nothing);
    let call = context.depth_func(DepthTest::Less);
    assert_eq!(call.context, &context);
    assert_eq!(call.op, Op::DepthFunc { func: DepthTest::Less });
    assert_eq!(call.op.js_name(), "depthFunc");
    assert_eq!(call.op.result_shape(), Shape::Nothing);
}

#[test]
fn operations_pass_their_arguments_on_fourth_part() {
    let context = WebGL2RenderingContext::new("surface");
    let call = context.depth_mask(true);
    assert_eq!(call.context, &context);
    assert_eq!(call.op, Op::DepthMask { flag: true });
    assert_eq!(call.op.js_name(), "depthMask");
    assert_eq!(call.op.result_shape(), Shape::Nothing);
    let call = context.depth_range(Float32::from_bits(0x3F800000), Float32::from_bits(0x3FC00000));
    assert_eq!(call.context, &context);
    assert_eq!(
        call.op,
        Op::DepthRange {
            z_near: Float32::from_bits(0x3F800000),
            z_far: Float32::from_bits(0x3FC00000),
        }
    );
    assert_eq!(call.op.js_name(), "depthRange");
    assert_eq!(call.op.result_shape(), Shape::Nothing);
    let call = context.disable(Flag::CullFace);
    assert_eq!(call.context, &context);
    assert_eq!(call.op, Op::Disable { cap: Flag::CullFace });
    assert_eq!(call.op.js_name(), "disable");
    assert_eq!(call.op.result_shape(), Shape::Nothing);
    let call = context.enable(Flag::CullFace);
    assert_eq!(call.context, &context);
    assert_eq!(call.op, Op::Enable { cap: Flag::CullFace });
    assert_eq!(call.op.js_name(), "enable");
    assert_eq!(call.op.result_shape(), Shape::Nothing);
    let call = context.is_enabled(Flag::CullFace);
    assert_eq!(call.context, &context);
    assert_eq!(call.op, Op::IsEnabled { cap: Flag::CullFace });
    assert_eq!(call.op.js_name(), "isEnabled");
    assert_eq!(call.op.result_shape(), Shape::Bool);
    let call = context.front_face(FrontFaceDirection::Ccw);
    assert_eq!(call.context, &context);
    assert_eq!(call.op, Op::FrontFace { mode: FrontFaceDirection::Ccw });
    assert_eq!(call.op.js_name(), "frontFace");
    assert_eq!(call.op.result_shape(), Shape::Nothing);
    let call = context.get_error();
    assert_eq!(call.context, &context);
    assert_eq!(call.op, Op::GetError);
    assert_eq!(call.op.js_name(), "getError");
    assert_eq!(call.op.result_shape(), Shape::Enum(Catalog::Error));
    let call = context.hint(HintTarget::FragmentShaderDerivative, HintMode::Nicest);
    assert_eq!(call.context, &context);
    assert_eq!(
        call.op,
        Op::Hint {
            target: HintTarget::FragmentShaderDerivative,
            mode: HintMode::Nicest,
        }
    );
    assert_eq!(call.op.js_name(), "hint");
    assert_eq!(call.op.result_shape(), Shape::Nothing);
    let call = context.line_width(Float32::from_bits(0x3F800000));
    assert_eq!(call.context, &context);
    assert_eq!(call.op, Op::LineWidth { width: Float32::from_bits(0x3F800000) });
    assert_eq!(call.op.js_name(), "lineWidth");
    assert_eq!(call.op.result_shape(), Shape::Nothing);
    let call = context.pixel_storei(PixelStorageMode::UnpackAlignment, -3);
    assert_eq!(call.context, &context);
    assert_eq!(call.op, Op::PixelStorei { pname: PixelStorageMode::UnpackAlignment, param: -3 });
    assert_eq!(call.op.js_name(), "pixelStorei");
    assert_eq!(call.op.result_shape(), Shape::Nothing);
    let call = context.polygon_offset(
        Float32::from_bits(0x3F800000),
        Float32::from_bits(0x3FC00000),
    );
    assert_eq!(call.context, &context);
    assert_eq!(
        call.op,
        Op::PolygonOffset {
            factor: Float32::from_bits(0x3F800000),
            units: Float32::from_bits(0x3FC00000),
        }
    );
    assert_eq!(call.op.js_name(), "polygonOffset");
    assert_eq!(call.op.result_shape(), Shape::Nothing);
    let call = context.sample_coverage(Float32::from_bits(0x3F800000), true);
    assert_eq!(call.context, &context);
    assert_eq!(call.op, Op::SampleCoverage { value: Float32::from_bits(0x3F800000), invert: true });
    assert_eq!(call.op.js_name(), "sampleCoverage");
    assert_eq!(call.op.result_shape(), Shape::Nothing);
    let call = context.stencil_func(StencilTest::Less, -3, 3);
    assert_eq!(call.context, &context);
    assert_eq!(call.op, Op::StencilFunc { func: StencilTest::Less, reference: -3, mask: 3 });
    assert_eq!(call.op.js_name(), "stencilFunc");
    assert_eq!(call.op.result_shape(), Shape::Nothing);
    let call = context.stencil_func_separate(Culling::Back, StencilTest::Less, -3, 3);
    assert_eq!(call.context, &context);
    assert_eq!(
        call.op,
        Op::StencilFuncSeparate {
            face: Culling::Back,
            func: StencilTest::Less,
            reference: -3,
            mask: 3,
        }
    );
    assert_eq!(call.op.js_name(), "stencilFuncSeparate");
    assert_eq!(call.op.result_shape(), Shape::Nothing);
}

#[test]
fn operations_pass_their_arguments_on_fifth_part() {
    let context = WebGL2RenderingContext::new("surface");
    let floats = vec![Float32::from_bits(0x3F800000), Float32::from_bits(0xBF800000)];
    let call = context.stencil_mask(3);
    assert_eq!(call.context, &context);
    assert_eq!(call.op, Op::StencilMask { mask: 3 });
    assert_eq!(call.op.js_name(), "stencilMask");
    assert_eq!(call.op.result_shape(), Shape::Nothing);
    let call = context.stencil_mask_separate(Culling::Back, 3);
    assert_eq!(call.context, &context);
    assert_eq!(call.op, Op::StencilMaskSeparate { face: Culling::Back, mask: 3 });
    assert_eq!(call.op.js_name(), "stencilMaskSeparate");
    assert_eq!(call.op.result_shape(), Shape::Nothing);
    let call = context.stencil_op(StencilAction::Zero, StencilAction::Replace, StencilAction::Incr);
    assert_eq!(call.context, &context);
    assert_eq!(
        call.op,
        Op::StencilOp {
            fail: StencilAction::Zero,
            zfail: StencilAction::Replace,
            zpass: StencilAction::Incr,
        }
    );
    assert_eq!(call.op.js_name(), "stencilOp");
    assert_eq!(call.op.result_shape(), Shape::Nothing);
    let call = context.stencil_op_separate(
        Culling::Back,
        StencilAction::Zero,
        StencilAction::Replace,
        StencilAction::Incr,
    );
    assert_eq!(call.context, &context);
    assert_eq!(
        call.op,
        Op::StencilOpSeparate {
            face: Culling::Back,
            fail: StencilAction::Zero,
            zfail: StencilAction::Replace,
            zpass: StencilAction::Incr,
        }
    );
    assert_eq!(call.op.js_name(), "stencilOpSeparate");
    assert_eq!(call.op.result_shape(), Shape::Nothing);
    let call = context.disable_vertex_attrib_array(3);
    assert_eq!(call.context, &context);
    assert_eq!(call.op, Op::DisableVertexAttribArray { index: 3 });
    assert_eq!(call.op.js_name(), "disableVertexAttribArray");
    assert_eq!(call.op.result_shape(), Shape::Nothing);
    let call = context.enable_vertex_attrib_array(3);
    assert_eq!(call.context, &context);
    assert_eq!(call.op, Op::EnableVertexAttribArray { index: 3 });
    assert_eq!(call.op.js_name(), "enableVertexAttribArray");
    assert_eq!(call.op.result_shape(), Shape::Nothing);
    let call = context.get_vertex_attrib_offset(3, VertexAttrib::Enabled);
    assert_eq!(call.context, &context);
    assert_eq!(call.op, Op::GetVertexAttribOffset { index: 3, pname: VertexAttrib::Enabled });
    assert_eq!(call.op.js_name(), "getVertexAttribOffset");
    assert_eq!(call.op.result_shape(), Shape::I64);
    let call = context.vertex_attrib_1f(3, Float32::from_bits(0x3F800000));
    assert_eq!(call.context, &context);
    assert_eq!(call.op, Op::VertexAttrib1f { index: 3, v0: Float32::from_bits(0x3F800000) });
    assert_eq!(call.op.js_name(), "vertexAttrib1f");
    assert_eq!(call.op.result_shape(), Shape::Nothing);
    let call = context.vertex_attrib_2f(
        3,
        Float32::from_bits(0x3F800000),
        Float32::from_bits(0x3FC00000),
    );
    assert_eq!(call.context, &context);
    assert_eq!(
        call.op,
        Op::VertexAttrib2f {
            index: 3,
            v0: Float32::from_bits(0x3F800000),
            v1: Float32::from_bits(0x3FC00000),
        }
    );
    assert_eq!(call.op.js_name(), "vertexAttrib2f");
    assert_eq!(call.op.result_shape(), Shape::Nothing);
    let call = context.vertex_attrib_3f(
        3,
        Float32::from_bits(0x3F800000),
        Float32::from_bits(0x3FC00000),
        Float32::from_bits(0x40000000),
    );
    assert_eq!(call.context, &context);
    assert_eq!(
        call.op,
        Op::VertexAttrib3f {
            index: 3,
            v0: Float32::from_bits(0x3F800000),
            v1: Float32::from_bits(0x3FC00000),
            v2: Float32::from_bits(0x40000000),
        }
    );
    assert_eq!(call.op.js_name(), "vertexAttrib3f");
    assert_eq!(call.op.result_shape(), Shape::Nothing);
    let call = context.vertex_attrib_4f(
        3,
        Float32::from_bits(0x3F800000),
        Float32::from_bits(0x3FC00000),
        Float32::from_bits(0x40000000),
        Float32::from_bits(0x40400000),
    );
    assert_eq!(call.context, &context);
    assert_eq!(
        call.op,
        Op::VertexAttrib4f {
            index: 3,
            v0: Float32::from_bits(0x3F800000),
            v1: Float32::from_bits(0x3FC00000),
            v2: Float32::from_bits(0x40000000),
            v3: Float32::from_bits(0x40400000),
        }
    );
    assert_eq!(call.op.js_name(), "vertexAttrib4f");
    assert_eq!(call.op.result_shape(), Shape::Nothing);
    let call = context.vertex_attrib_1fv(3, &floats);
    assert_eq!(call.context, &context);
    assert_eq!(call.op, Op::VertexAttrib1fv { index: 3, value: &floats });
    assert_eq!(call.op.js_name(), "vertexAttrib1fv");
    assert_eq!(call.op.result_shape(), Shape::Nothing);
    let call = context.vertex_attrib_2fv(3, &floats);
    assert_eq!(call.context, &context);
    assert_eq!(call.op, Op::VertexAttrib2fv { index: 3, value: &floats });
    assert_eq!(call.op.js_name(), "vertexAttrib2fv");
    assert_eq!(call.op.result_shape(), Shape::Nothing);
    let call = context.vertex_attrib_3fv(3, &floats);
    assert_eq!(call.context, &context);
    assert_eq!(call.op, Op::VertexAttrib3fv { index: 3, value: &floats });
    assert_eq!(call.op.js_name(), "vertexAttrib3fv");
    assert_eq!(call.op.result_shape(), Shape::Nothing);
}

#[test]
fn operations_pass_their_arguments_on_sixth_part() {
    let context = WebGL2RenderingContext::new("surface");
    let floats = vec![Float32::from_bits(0x3F800000), Float32::from_bits(0xBF800000)];
    let ints: Vec<i32> = vec![-1, 0, 1, i32::MAX];
    let uints: Vec<u32> = vec![0, 1, 2, u32::MAX];
    let call = context.vertex_attrib_4fv(3, &floats);
    assert_eq!(call.context, &context);
    assert_eq!(call.op, Op::VertexAttrib4fv { index: 3, value: &floats });
    assert_eq!(call.op.js_name(), "vertexAttrib4fv");
    assert_eq!(call.op.result_shape(), Shape::Nothing);
    let call = context.vertex_attrib_pointer(
        3,
        AttributeSize::Two,
        AttributeType::UnsignedByte,
        true,
        16,
        -3,
    );
    assert_eq!(call.context, &context);
    assert_eq!(
        call.op,
        Op::VertexAttribPointer {
            index: 3,
            size: AttributeSize::Two,
            attribute_type: AttributeType::UnsignedByte,
            normalized: true,
            stride: 16,
            offset: -3,
        }
    );
    assert_eq!(call.op.js_name(), "vertexAttribPointer");
    assert_eq!(call.op.result_shape(), Shape::Nothing);
    let call = context.vertex_attrib_i_4i(3, -3, 5, -7, 11);
    assert_eq!(call.context, &context);
    assert_eq!(call.op, Op::VertexAttribI4i { index: 3, v0: -3, v1: 5, v2: -7, v3: 11 });
    assert_eq!(call.op.js_name(), "vertexAttribI4i");
    assert_eq!(call.op.result_shape(), Shape::Nothing);
    let call = context.vertex_attrib_i_4ui(3, 5, 7, 11, 13);
    assert_eq!(call.context, &context);
    assert_eq!(call.op, Op::VertexAttribI4ui { index: 3, v0: 5, v1: 7, v2: 11, v3: 13 });
    assert_eq!(call.op.js_name(), "vertexAttribI4ui");
    assert_eq!(call.op.result_shape(), Shape::Nothing);
    let call = context.vertex_attrib_i_4iv(3, &ints);
    assert_eq!(call.context, &context);
    assert_eq!(call.op, Op::VertexAttribI4iv { index: 3, value: &ints });
    assert_eq!(call.op.js_name(), "vertexAttribI4iv");
    assert_eq!(call.op.result_shape(), Shape::Nothing);
    let call = context.vertex_attrib_i_4uiv(3, &uints);
    assert_eq!(call.context, &context);
    assert_eq!(call.op, Op::VertexAttribI4uiv { index: 3, value: &uints });
    assert_eq!(call.op.js_name(), "vertexAttribI4uiv");
    assert_eq!(call.op.result_shape(), Shape::Nothing);
    let call = context.vertex_attrib_i_pointer(
        3,
        AttributeSize::Two,
        AttributeType::UnsignedByte,
        5,
        -9,
    );
    assert_eq!(call.context, &context);
    assert_eq!(
        call.op,
        Op::VertexAttribIPointer {
            index: 3,
            size: AttributeSize::Two,
            data_type: AttributeType::UnsignedByte,
            stride: 5,
            offset: -9,
        }
    );
    assert_eq!(call.op.js_name(), "vertexAttribIPointer");
    assert_eq!(call.op.result_shape(), Shape::Nothing);
    let call = context.vertex_attrib_divisor(3, 5);
    assert_eq!(call.context, &context);
    assert_eq!(call.op, Op::VertexAttribDivisor { index: 3, divisor: 5 });
    assert_eq!(call.op.js_name(), "vertexAttribDivisor");
    assert_eq!(call.op.result_shape(), Shape::Nothing);
    let call = context.clear(BufferBit::Stencil);
    assert_eq!(call.context, &context);
    assert_eq!(call.op, Op::Clear { mask: BufferBit::Stencil });
    assert_eq!(call.op.js_name(), "clear");
    assert_eq!(call.op.result_shape(), Shape::Nothing);
    let call = context.draw_arrays(Primitives::Lines, 3, 5);
    assert_eq!(call.context, &context);
    assert_eq!(call.op, Op::DrawArrays { mode: Primitives::Lines, first: 3, count: 5 });
    assert_eq!(call.op.js_name(), "drawArrays");
    assert_eq!(call.op.result_shape(), Shape::Nothing);
    let call = context.draw_elements(Primitives::Lines, 3, DataType::UnsignedShort, -9);
    assert_eq!(call.context, &context);
    assert_eq!(
        call.op,
        Op::DrawElements {
            mode: Primitives::Lines,
            count: 3,
            data_type: DataType::UnsignedShort,
            offset: -9,
        }
    );
    assert_eq!(call.op.js_name(), "drawElements");
    assert_eq!(call.op.result_shape(), Shape::Nothing);
    let call = context.draw_arrays_instanced(Primitives::Lines, -3, 3, 5);
    assert_eq!(call.context, &context);
    assert_eq!(
        call.op,
        Op::DrawArraysInstanced {
            mode: Primitives::Lines,
            first: -3,
            count: 3,
            instance_count: 5,
        }
    );
    assert_eq!(call.op.js_name(), "drawArraysInstanced");
    assert_eq!(call.op.result_shape(), Shape::Nothing);
    let call = context.draw_elements_instanced(
        Primitives::Lines,
        3,
        AttributeType::UnsignedByte,
        -9,
        5,
    );
    assert_eq!(call.context, &context);
    assert_eq!(
        call.op,
        Op::DrawElementsInstanced {
            mode: Primitives::Lines,
            count: 3,
            data_type: AttributeType::UnsignedByte,
            offset: -9,
            instance_count: 5,
        }
    );
    assert_eq!(call.op.js_name(), "drawElementsInstanced");
    assert_eq!(call.op.result_shape(), Shape::Nothing);
    let call = context.draw_range_elements(
        Primitives::Lines,
        3,
        5,
        7,
        AttributeType::UnsignedByte,
        -9,
    );
    assert_eq!(call.context, &context);
    assert_eq!(
        call.op,
        Op::DrawRangeElements {
            mode: Primitives::Lines,
            start: 3,
            end: 5,
            count: 7,
            data_type: AttributeType::UnsignedByte,
            offset: -9,
        }
    );
    assert_eq!(call.op.js_name(), "drawRangeElements");
    assert_eq!(call.op.result_shape(), Shape::Nothing);
}

#[test]
fn operations_pass_their_arguments_on_seventh_part() {
    let context = WebGL2RenderingContext::new("surface");
    let floats = vec![Float32::from_bits(0x3F800000), Float32::from_bits(0xBF800000)];
    let ints: Vec<i32> = vec![-1, 0, 1, i32::MAX];
    let uints: Vec<u32> = vec![0, 1, 2, u32::MAX];
    let call = context.finish();
    assert_eq!(call.context, &context);
    assert_eq!(call.op, Op::Finish);
    assert_eq!(call.op.js_name(), "finish");
    assert_eq!(call.op.result_shape(), Shape::Nothing);
    let call = context.flush();
    assert_eq!(call.context, &context);
    assert_eq!(call.op, Op::Flush);
    assert_eq!(call.op.js_name(), "flush");
    assert_eq!(call.op.result_shape(), Shape::Nothing);
    let call = context.clear_buffer_fv(ClearBuffer::Depth, -3, &floats, 3);
    assert_eq!(call.context, &context);
    assert_eq!(
        call.op,
        Op::ClearBufferfv {
            buffer: ClearBuffer::Depth,
            drawbuffer: -3,
            values: &floats,
            src_offset: 3,
        }
    );
    assert_eq!(call.op.js_name(), "clearBufferfv");
    assert_eq!(call.op.result_shape(), Shape::Nothing);
    let call = context.clear_buffer_iv(ClearBuffer::Depth, -3, &ints, 3);
    assert_eq!(call.context, &context);
    assert_eq!(
        call.op,
        Op::ClearBufferiv {
            buffer: ClearBuffer::Depth,
            drawbuffer: -3,
            values: &ints,
            src_offset: 3,
        }
    );
    assert_eq!(call.op.js_name(), "clearBufferiv");
    assert_eq!(call.op.result_shape(), Shape::Nothing);
    let call = context.clear_buffer_uiv(ClearBuffer::Depth, -3, &uints, 3);
    assert_eq!(call.context, &context);
    assert_eq!(
        call.op,
        Op::ClearBufferuiv {
            buffer: ClearBuffer::Depth,
            drawbuffer: -3,
            values: &uints,
            src_offset: 3,
        }
    );
    assert_eq!(call.op.js_name(), "clearBufferuiv");
    assert_eq!(call.op.result_shape(), Shape::Nothing);
    let call = context.clear_buffer_fi(ClearBuffer::Depth, -3, Float32::from_bits(0x3F800000), 5);
    assert_eq!(call.context, &context);
    assert_eq!(
        call.op,
        Op::ClearBufferfi {
            buffer: ClearBuffer::Depth,
            drawbuffer: -3,
            depth: Float32::from_bits(0x3F800000),
            stencil: 5,
        }
    );
    assert_eq!(call.op.js_name(), "clearBufferfi");
    assert_eq!(call.op.result_shape(), Shape::Nothing);
    let call = context.uniform_1f(&WebGLUniformLocation { id: 6 }, Float32::from_bits(0x3F800000));
    assert_eq!(call.context, &context);
    assert_eq!(
        call.op,
        Op::Uniform1f {
            location: WebGLUniformLocation { id: 6 },
            v0: Float32::from_bits(0x3F800000),
        }
    );
    assert_eq!(call.op.js_name(), "uniform1f");
    assert_eq!(call.op.result_shape(), Shape::Nothing);
    let call = context.uniform_2f(
        &WebGLUniformLocation { id: 6 },
        Float32::from_bits(0x3F800000),
        Float32::from_bits(0x3FC00000),
    );
    assert_eq!(call.context, &context);
    assert_eq!(
        call.op,
        Op::Uniform2f {
            location: WebGLUniformLocation { id: 6 },
            v0: Float32::from_bits(0x3F800000),
            v1: Float32::from_bits(0x3FC00000),
        }
    );
    assert_eq!(call.op.js_name(), "uniform2f");
    assert_eq!(call.op.result_shape(), Shape::Nothing);
    let call = context.uniform_3f(
        &WebGLUniformLocation { id: 6 },
        Float32::from_bits(0x3F800000),
        Float32::from_bits(0x3FC00000),
        Float32::from_bits(0x40000000),
    );
    assert_eq!(call.context, &context);
    assert_eq!(
        call.op,
        Op::Uniform3f {
            location: WebGLUniformLocation { id: 6 },
            v0: Float32::from_bits(0x3F800000),
            v1: Float32::from_bits(0x3FC00000),
            v2: Float32::from_bits(0x40000000),
        }
    );
    assert_eq!(call.op.js_name(), "uniform3f");
    assert_eq!(call.op.result_shape(), Shape::Nothing);
    let call = context.uniform_4f(
        &WebGLUniformLocation { id: 6 },
        Float32::from_bits(0x3F800000),
        Float32::from_bits(0x3FC00000),
        Float32::from_bits(0x40000000),
        Float32::from_bits(0x40400000),
    );
    assert_eq!(call.context, &context);
    assert_eq!(
        call.op,
        Op::Uniform4f {
            location: WebGLUniformLocation { id: 6 },
            v0: Float32::from_bits(0x3F800000),
            v1: Float32::from_bits(0x3FC00000),
            v2: Float32::from_bits(0x40000000),
            v3: Float32::from_bits(0x40400000),
        }
    );
    assert_eq!(call.op.js_name(), "uniform4f");
    assert_eq!(call.op.result_shape(), Shape::Nothing);
    let call = context.uniform_1i(&WebGLUniformLocation { id: 6 }, -3);
    assert_eq!(call.context, &context);
    assert_eq!(call.op, Op::Uniform1i { location: WebGLUniformLocation { id: 6 }, v0: -3 });
    assert_eq!(call.op.js_name(), "uniform1i");
    assert_eq!(call.op.result_shape(), Shape::Nothing);
    let call = context.uniform_2i(&WebGLUniformLocation { id: 6 }, -3, 5);
    assert_eq!(call.context, &context);
    assert_eq!(call.op, Op::Uniform2i { location: WebGLUniformLocation { id: 6 }, v0: -3, v1: 5 });
    assert_eq!(call.op.js_name(), "uniform2i");
    assert_eq!(call.op.result_shape(), Shape::Nothing);
    let call = context.uniform_3i(&WebGLUniformLocation { id: 6 }, -3, 5, -7);
    assert_eq!(call.context, &context);
    assert_eq!(
        call.op,
        Op::Uniform3i {
            location: WebGLUniformLocation { id: 6 },
            v0: -3,
            v1: 5,
            v2: -7,
        }
    );
    assert_eq!(call.op.js_name(), "uniform3i");
    assert_eq!(call.op.result_shape(), Shape::Nothing);
    let call = context.uniform_4i(&WebGLUniformLocation { id: 6 }, -3, 5, -7, 11);
    assert_eq!(call.context, &context);
    assert_eq!(
        call.op,
        Op::Uniform4i {
            location: WebGLUniformLocation { id: 6 },
            v0: -3,
            v1: 5,
            v2: -7,
            v3: 11,
        }
    );
    assert_eq!(call.op.js_name(), "uniform4i");
    assert_eq!(call.op.result_shape(), Shape::Nothing);
}

#[test]
fn operations_pass_their_arguments_on_eighth_part() {
    let context = WebGL2RenderingContext::new("surface");
    let floats = vec![Float32::from_bits(0x3F800000), Float32::from_bits(0xBF800000)];
    let ints: Vec<i32> = vec![-1, 0, 1, i32::MAX];
    let uints: Vec<u32> = vec![0, 1, 2, u32::MAX];
    let call = context.uniform_1ui(&WebGLUniformLocation { id: 6 }, 3);
    assert_eq!(call.context, &context);
    assert_eq!(call.op, Op::Uniform1ui { location: WebGLUniformLocation { id: 6 }, v0: 3 });
    assert_eq!(call.op.js_name(), "uniform1ui");
    assert_eq!(call.op.result_shape(), Shape::Nothing);
    let call = context.uniform_2ui(&WebGLUniformLocation { id: 6 }, 3, 5);
    assert_eq!(call.context, &context);
    assert_eq!(call.op, Op::Uniform2ui { location: WebGLUniformLocation { id: 6 }, v0: 3, v1: 5 });
    assert_eq!(call.op.js_name(), "uniform2ui");
    assert_eq!(call.op.result_shape(), Shape::Nothing);
    let call = context.uniform_3ui(&WebGLUniformLocation { id: 6 }, 3, 5, 7);
    assert_eq!(call.context, &context);
    assert_eq!(
        call.op,
        Op::Uniform3ui {
            location: WebGLUniformLocation { id: 6 },
            v0: 3,
            v1: 5,
            v2: 7,
        }
    );
    assert_eq!(call.op.js_name(), "uniform3ui");
    assert_eq!(call.op.result_shape(), Shape::Nothing);
    let call = context.uniform_4ui(&WebGLUniformLocation { id: 6 }, 3, 5, 7, 11);
    assert_eq!(call.context, &context);
    assert_eq!(
        call.op,
        Op::Uniform4ui {
            location: WebGLUniformLocation { id: 6 },
            v0: 3,
            v1: 5,
            v2: 7,
            v3: 11,
        }
    );
    assert_eq!(call.op.js_name(), "uniform4ui");
    assert_eq!(call.op.result_shape(), Shape::Nothing);
    let call = context.uniform_1fv(&WebGLUniformLocation { id: 6 }, &floats);
    assert_eq!(call.context, &context);
    assert_eq!(
        call.op,
        Op::Uniform1fv {
            location: WebGLUniformLocation { id: 6 },
            value: &floats,
        }
    );
    assert_eq!(call.op.js_name(), "uniform1fv");
    assert_eq!(call.op.result_shape(), Shape::Nothing);
    let call = context.uniform_2fv(&WebGLUniformLocation { id: 6 }, &floats);
    assert_eq!(call.context, &context);
    assert_eq!(
        call.op,
        Op::Uniform2fv {
            location: WebGLUniformLocation { id: 6 },
            value: &floats,
        }
    );
    assert_eq!(call.op.js_name(), "uniform2fv");
    assert_eq!(call.op.result_shape(), Shape::Nothing);
    let call = context.uniform_3fv(&WebGLUniformLocation { id: 6 }, &floats);
    assert_eq!(call.context, &context);
    assert_eq!(
        call.op,
        Op::Uniform3fv {
            location: WebGLUniformLocation { id: 6 },
            value: &floats,
        }
    );
    assert_eq!(call.op.js_name(), "uniform3fv");
    assert_eq!(call.op.result_shape(), Shape::Nothing);
    let call = context.uniform_4fv(&WebGLUniformLocation { id: 6 }, &floats);
    assert_eq!(call.context, &context);
    assert_eq!(
        call.op,
        Op::Uniform4fv {
            location: WebGLUniformLocation { id: 6 },
            value: &floats,
        }
    );
    assert_eq!(call.op.js_name(), "uniform4fv");
    assert_eq!(call.op.result_shape(), Shape::Nothing);
    let call = context.uniform_1iv(&WebGLUniformLocation { id: 6 }, &ints);
    assert_eq!(call.context, &context);
    assert_eq!(call.op, Op::Uniform1iv { location: WebGLUniformLocation { id: 6 }, value: &ints });
    assert_eq!(call.op.js_name(), "uniform1iv");
    assert_eq!(call.op.result_shape(), Shape::Nothing);
    let call = context.uniform_2iv(&WebGLUniformLocation { id: 6 }, &ints);
    assert_eq!(call.context, &context);
    assert_eq!(call.op, Op::Uniform2iv { location: WebGLUniformLocation { id: 6 }, value: &ints });
    assert_eq!(call.op.js_name(), "uniform2iv");
    assert_eq!(call.op.result_shape(), Shape::Nothing);
    let call = context.uniform_3iv(&WebGLUniformLocation { id: 6 }, &ints);
    assert_eq!(call.context, &context);
    assert_eq!(call.op, Op::Uniform3iv { location: WebGLUniformLocation { id: 6 }, value: &ints });
    assert_eq!(call.op.js_name(), "uniform3iv");
    assert_eq!(call.op.result_shape(), Shape::Nothing);
    let call = context.uniform_4iv(&WebGLUniformLocation { id: 6 }, &ints);
    assert_eq!(call.context, &context);
    assert_eq!(call.op, Op::Uniform4iv { location: WebGLUniformLocation { id: 6 }, value: &ints });
    assert_eq!(call.op.js_name(), "uniform4iv");
    assert_eq!(call.op.result_shape(), Shape::Nothing);
    let call = context.uniform_1uiv(&WebGLUniformLocation { id: 6 }, &uints);
    assert_eq!(call.context, &context);
    assert_eq!(
        call.op,
        Op::Uniform1uiv {
            location: WebGLUniformLocation { id: 6 },
            value: &uints,
        }
    );
    assert_eq!(call.op.js_name(), "uniform1uiv");
    assert_eq!(call.op.result_shape(), Shape::Nothing);
    let call = context.uniform_2uiv(&WebGLUniformLocation { id: 6 }, &uints);
    assert_eq!(call.context, &context);
    assert_eq!(
        call.op,
        Op::Uniform2uiv {
            location: WebGLUniformLocation { id: 6 },
            value: &uints,
        }
    );
    assert_eq!(call.op.js_name(), "uniform2uiv");
    assert_eq!(call.op.result_shape(), Shape::Nothing);
}

#[test]
fn operations_pass_their_arguments_on_ninth_part() {
    let context = WebGL2RenderingContext::new("surface");
    let floats = vec![Float32::from_bits(0x3F800000), Float32::from_bits(0xBF800000)];
    let uints: Vec<u32> = vec![0, 1, 2, u32::MAX];
    let call = context.uniform_3uiv(&WebGLUniformLocation { id: 6 }, &uints);
    assert_eq!(call.context, &context);
    assert_eq!(
        call.op,
        Op::Uniform3uiv {
            location: WebGLUniformLocation { id: 6 },
            value: &uints,
        }
    );
    assert_eq!(call.op.js_name(), "uniform3uiv");
    assert_eq!(call.op.result_shape(), Shape::Nothing);
    let call = context.uniform_4uiv(&WebGLUniformLocation { id: 6 }, &uints);
    assert_eq!(call.context, &context);
    assert_eq!(
        call.op,
        Op::Uniform4uiv {
            location: WebGLUniformLocation { id: 6 },
            value: &uints,
        }
    );
    assert_eq!(call.op.js_name(), "uniform4uiv");
    assert_eq!(call.op.result_shape(), Shape::Nothing);
    let call = context.uniform_matrix_2fv(&WebGLUniformLocation { id: 6 }, true, &floats);
    assert_eq!(call.context, &context);
    assert_eq!(
        call.op,
        Op::UniformMatrix2fv {
            location: WebGLUniformLocation { id: 6 },
            transpose: true,
            value: &floats,
        }
    );
    assert_eq!(call.op.js_name(), "uniformMatrix2fv");
    assert_eq!(call.op.result_shape(), Shape::Nothing);
    let call = context.uniform_matrix_3fv(&WebGLUniformLocation { id: 6 }, true, &floats);
    assert_eq!(call.context, &context);
    assert_eq!(
        call.op,
        Op::UniformMatrix3fv {
            location: WebGLUniformLocation { id: 6 },
            transpose: true,
            value: &floats,
        }
    );
    assert_eq!(call.op.js_name(), "uniformMatrix3fv");
    assert_eq!(call.op.result_shape(), Shape::Nothing);
    let call = context.uniform_matrix_4fv(&WebGLUniformLocation { id: 6 }, true, &floats);
    assert_eq!(call.context, &context);
    assert_eq!(
        call.op,
        Op::UniformMatrix4fv {
            location: WebGLUniformLocation { id: 6 },
            transpose: true,
            value: &floats,
        }
    );
    assert_eq!(call.op.js_name(), "uniformMatrix4fv");
    assert_eq!(call.op.result_shape(), Shape::Nothing);
    let call = context.uniform_matrix_2x3fv(&WebGLUniformLocation { id: 6 }, true, &floats, 3, 5);
    assert_eq!(call.context, &context);
    assert_eq!(
        call.op,
        Op::UniformMatrix2x3fv {
            location: WebGLUniformLocation { id: 6 },
            transpose: true,
            data: &floats,
            src_offset: 3,
            src_length: 5,
        }
    );
    assert_eq!(call.op.js_name(), "uniformMatrix2x3fv");
    assert_eq!(call.op.result_shape(), Shape::Nothing);
    let call = context.uniform_matrix_2x4fv(&WebGLUniformLocation { id: 6 }, true, &floats, 3, 5);
    assert_eq!(call.context, &context);
    assert_eq!(
        call.op,
        Op::UniformMatrix2x4fv {
            location: WebGLUniformLocation { id: 6 },
            transpose: true,
            data: &floats,
            src_offset: 3,
            src_length: 5,
        }
    );
    assert_eq!(call.op.js_name(), "uniformMatrix2x4fv");
    assert_eq!(call.op.result_shape(), Shape::Nothing);
    let call = context.uniform_matrix_3x2fv(&WebGLUniformLocation { id: 6 }, true, &floats, 3, 5);
    assert_eq!(call.context, &context);
    assert_eq!(
        call.op,
        Op::UniformMatrix3x2fv {
            location: WebGLUniformLocation { id: 6 },
            transpose: true,
            data: &floats,
            src_offset: 3,
            src_length: 5,
        }
    );
    assert_eq!(call.op.js_name(), "uniformMatrix3x2fv");
    assert_eq!(call.op.result_shape(), Shape::Nothing);
    let call = context.uniform_matrix_3x4fv(&WebGLUniformLocation { id: 6 }, true, &floats, 3, 5);
    assert_eq!(call.context, &context);
    assert_eq!(
        call.op,
        Op::UniformMatrix3x4fv {
            location: WebGLUniformLocation { id: 6 },
            transpose: true,
            data: &floats,
            src_offset: 3,
            src_length: 5,
        }
    );
    assert_eq!(call.op.js_name(), "uniformMatrix3x4fv");
    assert_eq!(call.op.result_shape(), Shape::Nothing);
    let call = context.uniform_matrix_4x2fv(&WebGLUniformLocation { id: 6 }, true, &floats, 3, 5);
    assert_eq!(call.context, &context);
    assert_eq!(
        call.op,
        Op::UniformMatrix4x2fv {
            location: WebGLUniformLocation { id: 6 },
            transpose: true,
            data: &floats,
            src_offset: 3,
            src_length: 5,
        }
    );
    assert_eq!(call.op.js_name(), "uniformMatrix4x2fv");
    assert_eq!(call.op.result_shape(), Shape::Nothing);
    let call = context.uniform_matrix_4x3fv(&WebGLUniformLocation { id: 6 }, true, &floats, 3, 5);
    assert_eq!(call.context, &context);
    assert_eq!(
        call.op,
        Op::UniformMatrix4x3fv {
            location: WebGLUniformLocation { id: 6 },
            transpose: true,
            data: &floats,
            src_offset: 3,
            src_length: 5,
        }
    );
    assert_eq!(call.op.js_name(), "uniformMatrix4x3fv");
    assert_eq!(call.op.result_shape(), Shape::Nothing);
}

#[test]
fn a_context_is_known_by_its_canvas() {
    let context = WebGL2RenderingContext::new("glcanvas");
    assert_eq!(context.surface(), "glcanvas");
    let call = context.acquire();
    assert_eq!(call.context, &context);
    assert_eq!(call.op, Op::GetContext { canvas: "glcanvas", kind: "webgl2" });
    assert_eq!(call.op.js_name(), "getContext");
    assert_eq!(call.op.result_shape(), Shape::Object);
    assert_ne!(context, WebGL2RenderingContext::new("other"));
    assert_eq!(context, WebGL2RenderingContext::new("glcanvas"));
}

#[test]
fn numbers_out_of_range_are_passed_on() {
    let context = WebGL2RenderingContext::new("surface");
    assert_eq!(
        context.viewport(i32::MIN, i32::MAX, u32::MAX, 0).op,
        Op::Viewport { x: i32::MIN, y: i32::MAX, width: u32::MAX, height: 0 }
    );
    assert_eq!(context.clear_stencil(-1).op, Op::ClearStencil { s: -1 });
    assert_eq!(
        context.draw_arrays(Primitives::Points, u32::MAX, u32::MAX).op,
        Op::DrawArrays { mode: Primitives::Points, first: u32::MAX, count: u32::MAX }
    );
    let nan = Float32::from_bits(0x7FC0_0000);
    assert_eq!(context.line_width(nan).op, Op::LineWidth { width: nan });
}
