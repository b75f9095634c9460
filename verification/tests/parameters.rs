//! Each reader of a parameter asks for its own parameter, and each entry point
//! goes by its own name.
use webgl_rs::call::Op;
use webgl_rs::glenum::{
    Catalog, ClearBuffer, CompareMode, DepthTest, Flag, FramebufferKind, ProgramParameter,
    QueryParameter, ShaderParameter, SyncParameter, TextureKind, TextureParameter, TextureWrap,
};
use webgl_rs::number::Float32;
use webgl_rs::parameter::Parameter;
use webgl_rs::rendering_context::WebGL2RenderingContext;
use webgl_rs::reply::{Reply, Shape};
use webgl_rs::sampler::WebGLRSSampler;
use webgl_rs::shader_program::{WebGLRSProgram, WebGLRSShader, WebGLShader};

#[test]
fn each_wrap_axis_reads_its_own_parameter() {
    let context = WebGL2RenderingContext::new("surface");
    let target = TextureKind::Texture3d;
    assert_eq!(
        context.texture_wrap_s(target).op,
        Op::GetTexParameter { target, pname: TextureParameter::WrapS }
    );
    assert_eq!(
        context.texture_wrap_t(target).op,
        Op::GetTexParameter { target, pname: TextureParameter::WrapT }
    );
    assert_eq!(
        context.texture_wrap_r(target).op,
        Op::GetTexParameter { target, pname: TextureParameter::WrapR }
    );
    let sampler = WebGLRSSampler::from_reply(&context, &Reply::Object(2));
    let ops = [sampler.texture_wrap_s().op, sampler.texture_wrap_t().op, sampler.texture_wrap_r().op];
    assert_ne!(ops[0], ops[1]);
    assert_ne!(ops[1], ops[2]);
    assert_ne!(ops[0], ops[2]);
}

#[test]
fn shader_source_is_not_the_information_log() {
    let context = WebGL2RenderingContext::new("surface");
    let shader = WebGLRSShader::from_reply(&context, &Reply::Object(5));
    assert_eq!(shader.shader_source().op, Op::GetShaderSource { shader: WebGLShader { id: 5 } });
    assert_eq!(shader.shader_source().op.js_name(), "getShaderSource");
    assert_eq!(shader.info_log().op, Op::GetShaderInfoLog { shader: WebGLShader { id: 5 } });
    assert_eq!(shader.info_log().op.js_name(), "getShaderInfoLog");
    assert_eq!(
        shader.set_shader_source("void main() {}").op,
        Op::ShaderSource { shader: WebGLShader { id: 5 }, source: "void main() {}" }
    );
}

#[test]
fn entry_points_go_by_their_own_names() {
    let context = WebGL2RenderingContext::new("surface");
    let one = Float32::from_bits(0x3F80_0000);
    assert_eq!(
        context.tex_parameter_i(TextureKind::Texture2d, TextureParameter::BaseLevel, 1).op.js_name(),
        "texParameteri"
    );
    assert_eq!(
        context.tex_parameter_f(TextureKind::Texture2d, TextureParameter::MaxLod, one).op.js_name(),
        "texParameterf"
    );
    assert_eq!(
        context.clear_buffer_fi(ClearBuffer::DepthStencil, 0, one, 0).op.js_name(),
        "clearBufferfi"
    );
    let program = WebGLRSProgram::from_reply(&context, &Reply::Object(1));
    assert_eq!(program.transform_feedback_varying(0).op.js_name(), "getTransformFeedbackVarying");
    assert_eq!(context.is_enabled(Flag::Blend).op.result_shape(), Shape::Bool);
    assert_eq!(
        context.check_framebuffer_status(FramebufferKind::Framebuffer).op.result_shape(),
        Shape::Enum(Catalog::FramebufferStatus)
    );
}

#[test]
fn sampler_setters_pass_the_number_of_the_value() {
    let context = WebGL2RenderingContext::new("surface");
    let sampler = WebGLRSSampler::from_reply(&context, &Reply::Object(2));
    let object = sampler.inner();
    assert_eq!(
        sampler.set_texture_compare_func(DepthTest::Lequal).op,
        Op::SamplerParameteri { sampler: object, pname: TextureParameter::CompareFunc, param: 515 }
    );
    assert_eq!(
        sampler.set_texture_wrap_s(TextureWrap::ClampToEdge).op,
        Op::SamplerParameteri { sampler: object, pname: TextureParameter::WrapS, param: 33071 }
    );
    assert_eq!(
        sampler.set_texture_compare_mode(CompareMode::NoCompare).op,
        Op::SamplerParameteri { sampler: object, pname: TextureParameter::CompareMode, param: 0 }
    );
    let lod = Float32::from_bits(0x4120_0000);
    assert_eq!(
        sampler.set_texture_max_lod(lod).op,
        Op::SamplerParameterf { sampler: object, pname: TextureParameter::MaxLod, param: lod }
    );
    assert_eq!(sampler.set_texture_max_lod(lod).op.js_name(), "samplerParameterf");
    assert_eq!(
        sampler.set_texture_wrap_s(TextureWrap::Repeat).op.js_name(),
        "samplerParameteri"
    );
}

#[test]
fn shapes_of_parameters() {
    assert_eq!(QueryParameter::Result.result_shape(), Shape::U32);
    assert_eq!(QueryParameter::ResultAvailable.result_shape(), Shape::Bool);
    assert_eq!(ProgramParameter::LinkStatus.result_shape(), Shape::Bool);
    assert_eq!(ProgramParameter::ActiveUniforms.result_shape(), Shape::I32);
    assert_eq!(
        ProgramParameter::TransformFeedbackBufferMode.result_shape(),
        Shape::Enum(Catalog::TransformFeedbackBufferMode)
    );
    assert_eq!(ShaderParameter::ShaderType.result_shape(), Shape::Enum(Catalog::ShaderKind));
    assert_eq!(ShaderParameter::CompileStatus.result_shape(), Shape::Bool);
    assert_eq!(SyncParameter::Status.result_shape(), Shape::Enum(Catalog::SyncStatus));
    assert_eq!(SyncParameter::Flags.result_shape(), Shape::U32);
    assert_eq!(TextureParameter::MinLod.result_shape(), Shape::Float);
    assert_eq!(TextureParameter::MaxLevel.result_shape(), Shape::I32);
    assert_eq!(TextureParameter::ImmutableFormat.result_shape(), Shape::Bool);
    assert_eq!(TextureParameter::ImmutableLevels.result_shape(), Shape::U32);
    assert_eq!(TextureParameter::CompareFunc.result_shape(), Shape::Enum(Catalog::DepthTest));
    assert_eq!(TextureParameter::WrapR.result_shape(), Shape::Enum(Catalog::TextureWrap));
}

#[test]
fn the_main_names_stand_at_the_root() {
    let context = webgl_rs::WebGL2RenderingContext::new("surface");
    let buffer = webgl_rs::WebGLRSBuffer::from_reply(&context, &webgl_rs::Reply::Object(1));
    let call: webgl_rs::Call = buffer.bind(webgl_rs::BufferKind::Array);
    assert_eq!(
        call.op,
        webgl_rs::Op::BindBuffer {
            target: webgl_rs::BufferKind::Array,
            buffer: webgl_rs::buffer::WebGLBuffer { id: 1 }
        }
    );
    assert_eq!(webgl_rs::Shape::Bool, buffer.is_valid().op.result_shape());
}
