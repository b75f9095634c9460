//! The library against a stand-in for the graphics context: a small model of
//! the context that carries out the calls that the library builds.
use std::collections::{HashMap, HashSet};

use webgl_rs::buffer::WebGLRSBuffer;
use webgl_rs::call::{Call, Op};
use webgl_rs::data_view::Image;
use webgl_rs::framebuffer::WebGLRSFramebuffer;
use webgl_rs::glenum::{
    BufferKind, BufferParameter, DataHint, Error, GPUState, GlEnum, PixelCopyFormat,
    PixelReadFormat, PixelType, QueryParameter, QueryTarget, ShaderKind, SyncParameter,
    SyncStatus, TextureBindPoint, TextureKind, WaitStatus,
};
use webgl_rs::number::Float32;
use webgl_rs::payload::{Elements, Payload};
use webgl_rs::query::WebGLRSQuery;
use webgl_rs::registry::Registry;
use webgl_rs::rendering_context::WebGL2RenderingContext;
use webgl_rs::renderbuffer::WebGLRSRenderbuffer;
use webgl_rs::reply::{ForeignError, Reply, Shape};
use webgl_rs::sampler::WebGLRSSampler;
use webgl_rs::shader_program::{WebGLRSProgram, WebGLRSShader};
use webgl_rs::sync::WebGLRSSync;
use webgl_rs::texture::WebGLRSTexture;
use webgl_rs::transform_feedback::WebGLRSTransformFeedback;
use webgl_rs::vertex_array_object::WebGLRSVertexArrayObject;

/// What the stand-in keeps of a buffer's data store.
struct Store {
    bytes: usize,
    usage: u32,
    data: Elements,
}

/// A stand-in for the context. It keeps the objects that it handed out and
/// which of them it deleted, what is bound where, the data stores of
/// buffers, the last image that was loaded, and the error state.
struct Double {
    surface: String,
    objects: Registry<&'static str>,
    deleted: HashSet<u32>,
    bound_buffers: HashMap<u32, u32>,
    stores: HashMap<u32, Store>,
    image: Option<Elements>,
    polls_before_result: u32,
    error: u32,
    entries: Vec<&'static str>,
}

impl Double {
    fn new(surface: &str) -> Double {
        Double {
            surface: surface.to_string(),
            objects: Registry::new(),
            deleted: HashSet::new(),
            bound_buffers: HashMap::new(),
            stores: HashMap::new(),
            image: None,
            polls_before_result: 0,
            error: 0,
            entries: Vec::new(),
        }
    }

    fn create(&mut self, kind: &'static str) -> Reply {
        Reply::Object(self.objects.adopt(kind))
    }

    fn delete(&mut self, id: u32) -> Reply {
        self.deleted.insert(id);
        Reply::Nothing
    }

    fn live(&self, id: u32, kind: &'static str) -> bool {
        self.objects.get(id) == Some(&kind) && !self.deleted.contains(&id)
    }

    fn is(&self, id: u32, kind: &'static str) -> Reply {
        Reply::Bool(self.live(id, kind))
    }

    fn perform(&mut self, call: &Call) -> Reply {
        assert_eq!(call.context.surface(), self.surface);
        self.entries.push(call.op.js_name());
        let reply = match call.op {
            Op::CreateBuffer => self.create("buffer"),
            Op::CreateFramebuffer => self.create("framebuffer"),
            Op::CreateQuery => self.create("query"),
            Op::CreateRenderbuffer => self.create("renderbuffer"),
            Op::CreateSampler => self.create("sampler"),
            Op::CreateProgram => self.create("program"),
            Op::CreateShader { .. } => self.create("shader"),
            Op::FenceSync { .. } => self.create("sync"),
            Op::CreateTexture => self.create("texture"),
            Op::CreateTransformFeedback => self.create("transform feedback"),
            Op::CreateVertexArray => self.create("vertex array"),
            Op::DeleteBuffer { buffer } => self.delete(buffer.id),
            Op::DeleteFramebuffer { framebuffer } => self.delete(framebuffer.id),
            Op::DeleteQuery { query } => self.delete(query.id),
            Op::DeleteRenderbuffer { renderbuffer } => self.delete(renderbuffer.id),
            Op::DeleteSampler { sampler } => self.delete(sampler.id),
            Op::DeleteProgram { program } => self.delete(program.id),
            Op::DeleteShader { shader } => self.delete(shader.id),
            Op::DeleteSync { sync } => self.delete(sync.id),
            Op::DeleteTexture { texture } => self.delete(texture.id),
            Op::DeleteTransformFeedback { transform_feedback } => self.delete(transform_feedback.id),
            Op::DeleteVertexArray { vertex_array } => self.delete(vertex_array.id),
            Op::IsBuffer { buffer } => self.is(buffer.id, "buffer"),
            Op::IsFramebuffer { framebuffer } => self.is(framebuffer.id, "framebuffer"),
            Op::IsQuery { query } => self.is(query.id, "query"),
            Op::IsRenderbuffer { renderbuffer } => self.is(renderbuffer.id, "renderbuffer"),
            Op::IsSampler { sampler } => self.is(sampler.id, "sampler"),
            Op::IsProgram { program } => self.is(program.id, "program"),
            Op::IsShader { shader } => self.is(shader.id, "shader"),
            Op::IsSync { sync } => self.is(sync.id, "sync"),
            Op::IsTexture { texture } => self.is(texture.id, "texture"),
            Op::IsTransformFeedback { transform_feedback } => {
                self.is(transform_feedback.id, "transform feedback")
            }
            Op::IsVertexArray { vertex_array } => self.is(vertex_array.id, "vertex array"),
            Op::BindBuffer { target, buffer } => {
                if self.live(buffer.id, "buffer") {
                    self.bound_buffers.insert(target.to_gl(), buffer.id);
                } else {
                    self.error = Error::InvalidOperation.to_gl();
                }
                Reply::Nothing
            }
            Op::BindTexture { texture, .. } => {
                if !self.live(texture.id, "texture") {
                    self.error = Error::InvalidOperation.to_gl();
                }
                Reply::Nothing
            }
            Op::BufferData { target, data, usage } => {
                match (self.bound_buffers.get(&target.to_gl()), data.byte_len()) {
                    (Some(id), Some(bytes)) => {
                        let store = Store { bytes, usage: usage.to_gl(), data: data.to_elements() };
                        self.stores.insert(*id, store);
                    }
                    _ => self.error = Error::InvalidOperation.to_gl(),
                }
                Reply::Nothing
            }
            Op::GetBufferParameter { target, pname } => {
                let store = self.bound_buffers.get(&target.to_gl()).and_then(|id| self.stores.get(id));
                match (store, pname) {
                    (Some(store), BufferParameter::Size) => Reply::Int(store.bytes as i64),
                    (Some(store), BufferParameter::Usage) => Reply::Int(store.usage as i64),
                    (None, _) => Reply::Int(0),
                }
            }
            Op::GetBufferSubData { target, src_byte_offset, dst_data, dst_offset, length } => {
                let store = self.bound_buffers.get(&target.to_gl()).and_then(|id| self.stores.get(id));
                let mut place = dst_data.clone();
                let (from, to, count) = (src_byte_offset as usize, dst_offset as usize, length as usize);
                match store.map(|store| &store.data) {
                    Some(Elements::Uint8(bytes))
                        if from + count <= bytes.len() && to + count <= place.len() =>
                    {
                        place[to..to + count].copy_from_slice(&bytes[from..from + count]);
                    }
                    _ => self.error = Error::InvalidOperation.to_gl(),
                }
                Reply::Data(Elements::Uint8(place))
            }
            Op::TexImage2D { width, height, data, .. } => {
                if (width as usize) * (height as usize) > data.len() {
                    Reply::Thrown("the array is too small for the image".to_string())
                } else {
                    self.image = Some(data.to_elements());
                    Reply::Nothing
                }
            }
            Op::ReadPixels { pixels, .. } => match &self.image {
                Some(image)
                    if image.as_payload().element_type() == pixels.element_type()
                    && image.as_payload().len() == pixels.len() => Reply::Data(image.clone()),
                Some(_) => Reply::Thrown("the array does not suit the image".to_string()),
                None => Reply::Data(pixels.to_elements()),
            },
            Op::BeginQuery { .. } => Reply::Nothing,
            Op::GetQueryParameter { pname, .. } => match pname {
                QueryParameter::ResultAvailable => {
                    if self.polls_before_result == 0 {
                        Reply::Bool(true)
                    } else {
                        self.polls_before_result -= 1;
                        Reply::Bool(false)
                    }
                }
                QueryParameter::Result => Reply::Int(1),
            },
            Op::ClientWaitSync { sync, .. } => {
                if self.live(sync.id, "sync") {
                    Reply::Int(WaitStatus::AlreadySignaled.to_gl() as i64)
                } else {
                    Reply::Int(WaitStatus::WaitFailed.to_gl() as i64)
                }
            }
            Op::GetSyncParameter { pname: SyncParameter::Status, .. } => {
                Reply::Int(SyncStatus::Signaled.to_gl() as i64)
            }
            Op::GetError => {
                let error = self.error;
                self.error = 0;
                Reply::Int(error as i64)
            }
            _ => Reply::Nothing,
        };
        assert!(reply.has_shape(call.op.result_shape()));
        reply
    }
}

#[test]
fn created_buffer_is_valid_until_deleted() {
    let context = WebGL2RenderingContext::new("canvas");
    let mut double = Double::new("canvas");
    let reply = double.perform(&context.create_buffer());
    let buffer = WebGLRSBuffer::from_reply(&context, &reply);
    let id = buffer.inner();
    assert_eq!(reply, Reply::Object(id.id));
    let check = buffer.is_valid();
    assert_eq!(check.op, Op::IsBuffer { buffer: id });
    assert_eq!(double.perform(&check).as_bool(), Some(true));
    let deletion = buffer.delete();
    assert_eq!(deletion.op, Op::DeleteBuffer { buffer: id });
    double.perform(&deletion);
    let check_again = Call { context: &context, op: Op::IsBuffer { buffer: id } };
    assert_eq!(double.perform(&check_again).as_bool(), Some(false));
    assert_eq!(double.entries, vec!["createBuffer", "isBuffer", "deleteBuffer", "isBuffer"]);
}

#[test]
fn every_kind_is_valid_after_create_and_not_after_delete() {
    let context = WebGL2RenderingContext::new("canvas");
    let mut double = Double::new("canvas");

    let reply = double.perform(&context.create_framebuffer());
    let handle = WebGLRSFramebuffer::from_reply(&context, &reply);
    let id = handle.inner();
    assert_eq!(reply, Reply::Object(id.id));
    assert_eq!(handle.is_valid().op, Op::IsFramebuffer { framebuffer: id });
    assert_eq!(double.perform(&handle.is_valid()).as_bool(), Some(true));
    assert_eq!(double.perform(&handle.delete()), Reply::Nothing);
    let again = Call { context: &context, op: Op::IsFramebuffer { framebuffer: id } };
    assert_eq!(double.perform(&again).as_bool(), Some(false));

    let reply = double.perform(&context.create_query());
    let handle = WebGLRSQuery::from_reply(&context, &reply);
    let id = handle.inner();
    assert_eq!(reply, Reply::Object(id.id));
    assert_eq!(handle.is_valid().op, Op::IsQuery { query: id });
    assert_eq!(double.perform(&handle.is_valid()).as_bool(), Some(true));
    assert_eq!(double.perform(&handle.delete()), Reply::Nothing);
    let again = Call { context: &context, op: Op::IsQuery { query: id } };
    assert_eq!(double.perform(&again).as_bool(), Some(false));

    let reply = double.perform(&context.create_renderbuffer());
    let handle = WebGLRSRenderbuffer::from_reply(&context, &reply);
    let id = handle.inner();
    assert_eq!(reply, Reply::Object(id.id));
    assert_eq!(handle.is_valid().op, Op::IsRenderbuffer { renderbuffer: id });
    assert_eq!(double.perform(&handle.is_valid()).as_bool(), Some(true));
    assert_eq!(double.perform(&handle.delete()), Reply::Nothing);
    let again = Call { context: &context, op: Op::IsRenderbuffer { renderbuffer: id } };
    assert_eq!(double.perform(&again).as_bool(), Some(false));

    let reply = double.perform(&context.create_sampler());
    let handle = WebGLRSSampler::from_reply(&context, &reply);
    let id = handle.inner();
    assert_eq!(reply, Reply::Object(id.id));
    assert_eq!(handle.is_valid().op, Op::IsSampler { sampler: id });
    assert_eq!(double.perform(&handle.is_valid()).as_bool(), Some(true));
    assert_eq!(double.perform(&handle.delete()), Reply::Nothing);
    let again = Call { context: &context, op: Op::IsSampler { sampler: id } };
    assert_eq!(double.perform(&again).as_bool(), Some(false));

    let reply = double.perform(&context.create_program());
    let handle = WebGLRSProgram::from_reply(&context, &reply);
    let id = handle.inner();
    assert_eq!(reply, Reply::Object(id.id));
    assert_eq!(handle.is_valid().op, Op::IsProgram { program: id });
    assert_eq!(double.perform(&handle.is_valid()).as_bool(), Some(true));
    assert_eq!(double.perform(&handle.delete()), Reply::Nothing);
    let again = Call { context: &context, op: Op::IsProgram { program: id } };
    assert_eq!(double.perform(&again).as_bool(), Some(false));

    let reply = double.perform(&context.create_shader(ShaderKind::Vertex));
    let handle = WebGLRSShader::from_reply(&context, &reply);
    let id = handle.inner();
    assert_eq!(reply, Reply::Object(id.id));
    assert_eq!(handle.is_valid().op, Op::IsShader { shader: id });
    assert_eq!(double.perform(&handle.is_valid()).as_bool(), Some(true));
    assert_eq!(double.perform(&handle.delete()), Reply::Nothing);
    let again = Call { context: &context, op: Op::IsShader { shader: id } };
    assert_eq!(double.perform(&again).as_bool(), Some(false));

    let reply = double.perform(&context.fence_sync(GPUState::CommandsComplete, 0));
    let handle = WebGLRSSync::from_reply(&context, &reply);
    let id = handle.inner();
    assert_eq!(reply, Reply::Object(id.id));
    assert_eq!(handle.is_valid().op, Op::IsSync { sync: id });
    assert_eq!(double.perform(&handle.is_valid()).as_bool(), Some(true));
    assert_eq!(double.perform(&handle.delete()), Reply::Nothing);
    let again = Call { context: &context, op: Op::IsSync { sync: id } };
    assert_eq!(double.perform(&again).as_bool(), Some(false));

    let reply = double.perform(&context.create_texture());
    let handle = WebGLRSTexture::from_reply(&context, &reply);
    let id = handle.inner();
    assert_eq!(reply, Reply::Object(id.id));
    assert_eq!(handle.is_valid().op, Op::IsTexture { texture: id });
    assert_eq!(double.perform(&handle.is_valid()).as_bool(), Some(true));
    assert_eq!(double.perform(&handle.delete()), Reply::Nothing);
    let again = Call { context: &context, op: Op::IsTexture { texture: id } };
    assert_eq!(double.perform(&again).as_bool(), Some(false));

    let reply = double.perform(&context.create_transform_feedback());
    let handle = WebGLRSTransformFeedback::from_reply(&context, &reply);
    let id = handle.inner();
    assert_eq!(reply, Reply::Object(id.id));
    assert_eq!(handle.is_valid().op, Op::IsTransformFeedback { transform_feedback: id });
    assert_eq!(double.perform(&handle.is_valid()).as_bool(), Some(true));
    assert_eq!(double.perform(&handle.delete()), Reply::Nothing);
    let again = Call { context: &context, op: Op::IsTransformFeedback { transform_feedback: id } };
    assert_eq!(double.perform(&again).as_bool(), Some(false));

    let reply = double.perform(&context.create_vertex_array());
    let handle = WebGLRSVertexArrayObject::from_reply(&context, &reply);
    let id = handle.inner();
    assert_eq!(reply, Reply::Object(id.id));
    assert_eq!(handle.is_valid().op, Op::IsVertexArray { vertex_array: id });
    assert_eq!(double.perform(&handle.is_valid()).as_bool(), Some(true));
    assert_eq!(double.perform(&handle.delete()), Reply::Nothing);
    let again = Call { context: &context, op: Op::IsVertexArray { vertex_array: id } };
    assert_eq!(double.perform(&again).as_bool(), Some(false));

}

#[test]
fn a_failed_creation_gives_a_handle_that_is_not_valid() {
    let context = WebGL2RenderingContext::new("canvas");
    let mut double = Double::new("canvas");
    let buffer = WebGLRSBuffer::from_reply(&context, &Reply::Object(0));
    assert_eq!(buffer.inner().id, 0);
    assert_eq!(double.perform(&buffer.is_valid()).as_bool(), Some(false));
    let texture = WebGLRSTexture::from_reply(&context, &Reply::Nothing);
    assert_eq!(texture.inner().id, 0);
    assert_eq!(double.perform(&texture.is_valid()).as_bool(), Some(false));
}

#[test]
fn binding_twice_is_binding_once() {
    let context = WebGL2RenderingContext::new("canvas");
    let mut double = Double::new("canvas");
    let buffer = WebGLRSBuffer::from_reply(&context, &double.perform(&context.create_buffer()));
    let before = buffer.inner();
    let first = buffer.bind(BufferKind::Array);
    let second = buffer.bind(BufferKind::Array);
    assert_eq!(first, second);
    assert_eq!(double.perform(&first), Reply::Nothing);
    let bound_once = double.bound_buffers.clone();
    assert_eq!(double.perform(&second), Reply::Nothing);
    assert_eq!(double.bound_buffers, bound_once);
    assert_eq!(double.perform(&context.get_error()).as_enum::<Error>(), Some(Error::NoError));
    assert_eq!(buffer.inner(), before);
    assert_eq!(buffer.context(), &context);
    assert_eq!(double.perform(&buffer.is_valid()).as_bool(), Some(true));

    let texture = WebGLRSTexture::from_reply(&context, &double.perform(&context.create_texture()));
    assert_eq!(texture.bind(TextureKind::Texture2d), texture.bind(TextureKind::Texture2d));
    double.perform(&texture.bind(TextureKind::Texture2d));
    double.perform(&texture.bind(TextureKind::Texture2d));
    assert_eq!(double.perform(&context.get_error()).as_enum::<Error>(), Some(Error::NoError));
}

#[test]
fn binding_a_deleted_buffer_shows_in_the_error_state_only() {
    let context = WebGL2RenderingContext::new("canvas");
    let mut double = Double::new("canvas");
    let buffer = WebGLRSBuffer::from_reply(&context, &double.perform(&context.create_buffer()));
    let id = buffer.inner();
    double.perform(&buffer.delete());
    let bind = Call { context: &context, op: Op::BindBuffer { target: BufferKind::Array, buffer: id } };
    assert_eq!(double.perform(&bind), Reply::Nothing);
    assert_eq!(
        double.perform(&context.get_error()).as_enum::<Error>(),
        Some(Error::InvalidOperation)
    );
    assert_eq!(double.perform(&context.get_error()).as_enum::<Error>(), Some(Error::NoError));
}

#[test]
fn query_result_becomes_available_within_the_polls() {
    let context = WebGL2RenderingContext::new("canvas");
    let mut double = Double::new("canvas");
    double.polls_before_result = 3;
    let query = WebGLRSQuery::from_reply(&context, &double.perform(&context.create_query()));
    assert_eq!(double.perform(&query.begin(QueryTarget::AnySamplesPassed)), Reply::Nothing);
    assert_eq!(double.perform(&query.result_available()).as_bool(), Some(false));
    let limit = 8;
    let mut polls = 1;
    let mut available = false;
    while polls < limit && !available {
        available = double.perform(&query.result_available()).as_bool() == Some(true);
        polls += 1;
    }
    assert!(available);
    assert_eq!(polls, 4);
    assert_eq!(double.perform(&query.result()).as_u32(), Some(1));
}

#[test]
fn client_wait_on_a_signaled_sync_is_already_signaled() {
    let context = WebGL2RenderingContext::new("canvas");
    let mut double = Double::new("canvas");
    let creation = context.fence_sync(GPUState::CommandsComplete, 0);
    assert_eq!(creation.op, Op::FenceSync { condition: GPUState::CommandsComplete, flags: 0 });
    let sync = WebGLRSSync::from_reply(&context, &double.perform(&creation));
    let wait = sync.client_wait(0, 0);
    assert_eq!(wait.op, Op::ClientWaitSync { sync: sync.inner(), flags: 0, timeout: 0 });
    assert_eq!(wait.op.result_shape(), Shape::Enum(webgl_rs::glenum::Catalog::WaitStatus));
    let reply = double.perform(&wait);
    assert_eq!(reply, Reply::Int(0x911A));
    assert_eq!(reply.as_enum::<WaitStatus>(), Some(WaitStatus::AlreadySignaled));
    assert_eq!(
        double.perform(&sync.status()).as_enum::<SyncStatus>(),
        Some(SyncStatus::Signaled)
    );
}

#[test]
fn wait_numbers_are_passed_on_as_they_are() {
    let context = WebGL2RenderingContext::new("canvas");
    let sync = WebGLRSSync::from_reply(&context, &Reply::Object(4));
    let id = sync.inner();
    assert_eq!(
        sync.client_wait(1, i64::MAX).op,
        Op::ClientWaitSync { sync: id, flags: 1, timeout: i64::MAX }
    );
    assert_eq!(sync.client_wait(0, -1).op, Op::ClientWaitSync { sync: id, flags: 0, timeout: -1 });
    assert_eq!(sync.wait(0, -1).op, Op::WaitSync { sync: id, flags: 0, timeout: -1 });
    assert_eq!(sync.wait(0, -1).op.js_name(), "waitSync");
}

#[test]
fn uploaded_floats_give_size_and_usage() {
    let context = WebGL2RenderingContext::new("canvas");
    let mut double = Double::new("canvas");
    let buffer = WebGLRSBuffer::from_reply(&context, &double.perform(&context.create_buffer()));
    double.perform(&buffer.bind(BufferKind::Array));
    let data: Vec<Float32> = [1.0f32, 2.0, 3.0, 4.0]
        .iter()
        .map(|x| Float32::from_bits(x.to_bits()))
        .collect();
    let upload = context.buffer_data(BufferKind::Array, &data, DataHint::StaticDraw);
    assert_eq!(
        upload.op,
        Op::BufferData {
            target: BufferKind::Array,
            data: Payload::Float32(&data),
            usage: DataHint::StaticDraw
        }
    );
    assert_eq!(double.perform(&upload), Reply::Nothing);
    let size = double.perform(&context.buffer_size(BufferKind::Array));
    assert_eq!(size.as_i32(), Some(16));
    let usage = double.perform(&context.buffer_usage(BufferKind::Array));
    assert_eq!(usage.as_enum::<DataHint>(), Some(DataHint::StaticDraw));
    assert_eq!(
        double.entries,
        vec!["createBuffer", "bindBuffer", "bufferData", "getBufferParameter", "getBufferParameter"]
    );
}

fn round_trip<T: Image + Clone + PartialEq + std::fmt::Debug>(source: T, blank: T, pixel_type: PixelType) {
    let context = WebGL2RenderingContext::new("canvas");
    let mut double = Double::new("canvas");
    let upload = context.tex_image_2d(
        TextureBindPoint::Texture2d,
        0,
        PixelCopyFormat::Red,
        4,
        1,
        PixelCopyFormat::Red,
        pixel_type,
        &source,
    );
    assert_eq!(double.perform(&upload).outcome(), Ok(()));
    let mut target = blank;
    let reply = {
        let read = context.read_pixels(0, 0, 4, 1, PixelReadFormat::Red, pixel_type, &target);
        double.perform(&read)
    };
    assert_eq!(target.store_pixels(&reply), Ok(()));
    assert_eq!(target, source);
}

#[test]
fn pixels_come_back_as_they_went_up_u8() {
    round_trip(vec![0u8, 7, u8::MIN, u8::MAX], vec![9u8; 4], PixelType::UnsignedByte);
}

#[test]
fn pixels_come_back_as_they_went_up_i8() {
    round_trip(vec![0i8, 7, i8::MIN, i8::MAX], vec![9i8; 4], PixelType::Byte);
}

#[test]
fn pixels_come_back_as_they_went_up_u16() {
    round_trip(vec![0u16, 700, u16::MIN, u16::MAX], vec![9u16; 4], PixelType::UnsignedShort);
}

#[test]
fn pixels_come_back_as_they_went_up_i16() {
    round_trip(vec![0i16, 700, i16::MIN, i16::MAX], vec![9i16; 4], PixelType::Short);
}

#[test]
fn pixels_come_back_as_they_went_up_u32() {
    round_trip(vec![0u32, 70_000, u32::MIN, u32::MAX], vec![9u32; 4], PixelType::UnsignedInt);
}

#[test]
fn pixels_come_back_as_they_went_up_i32() {
    round_trip(vec![0i32, 70_000, i32::MIN, i32::MAX], vec![9i32; 4], PixelType::Int);
}

#[test]
fn pixels_come_back_as_they_went_up_f32() {
    let bits = |x: f32| Float32::from_bits(x.to_bits());
    round_trip(
        vec![bits(0.0), bits(1.5), bits(f32::MIN), bits(f32::MAX)],
        vec![bits(9.0); 4],
        PixelType::Float,
    );
}

#[test]
fn bytes_come_back_from_a_buffer_as_they_went_up() {
    let context = WebGL2RenderingContext::new("canvas");
    let mut double = Double::new("canvas");
    let buffer = WebGLRSBuffer::from_reply(&context, &double.perform(&context.create_buffer()));
    double.perform(&buffer.bind(BufferKind::CopyRead));
    let source: Vec<u8> = vec![0, 1, 127, 128, 255];
    double.perform(&context.buffer_data(BufferKind::CopyRead, &source, DataHint::StreamRead));
    let place: Vec<u8> = vec![9; 5];
    let reply = double.perform(&context.get_buffer_sub_data(BufferKind::CopyRead, 0, &place, 0, 5));
    assert_eq!(reply.data(), Ok(&Elements::Uint8(source.clone())));
    let reply = double.perform(&context.get_buffer_sub_data(BufferKind::CopyRead, 3, &place, 1, 2));
    assert_eq!(reply.data(), Ok(&Elements::Uint8(vec![9, 128, 255, 9, 9])));
    assert_eq!(double.perform(&context.get_error()).as_enum::<Error>(), Some(Error::NoError));
    let reply = double.perform(&context.get_buffer_sub_data(BufferKind::CopyRead, 3, &place, 0, 3));
    assert_eq!(reply.data(), Ok(&Elements::Uint8(place.clone())));
    assert_eq!(
        double.perform(&context.get_error()).as_enum::<Error>(),
        Some(Error::InvalidOperation)
    );
}

#[test]
fn a_refused_image_is_a_failure_of_the_call() {
    let context = WebGL2RenderingContext::new("canvas");
    let mut double = Double::new("canvas");
    let source: Vec<u8> = vec![1, 2, 3];
    let upload = context.tex_image_2d(
        TextureBindPoint::Texture2d,
        0,
        PixelCopyFormat::Red,
        2,
        2,
        PixelCopyFormat::Red,
        PixelType::UnsignedByte,
        &source,
    );
    assert_eq!(
        double.perform(&upload).outcome(),
        Err(ForeignError::Thrown("the array is too small for the image".to_string()))
    );
}

#[test]
fn pixels_of_another_length_leave_the_array_as_it_was() {
    let context = WebGL2RenderingContext::new("canvas");
    let mut double = Double::new("canvas");
    let source: Vec<u8> = vec![1, 2, 3, 4];
    double.perform(&context.tex_image_2d(
        TextureBindPoint::Texture2d,
        0,
        PixelCopyFormat::Red,
        4,
        1,
        PixelCopyFormat::Red,
        PixelType::UnsignedByte,
        &source,
    ));
    let mut target: Vec<u8> = vec![9, 9];
    let reply = double.perform(&context.read_pixels(
        0,
        0,
        4,
        1,
        PixelReadFormat::Red,
        PixelType::UnsignedByte,
        &target,
    ));
    assert_eq!(
        target.store_pixels(&reply),
        Err(ForeignError::Thrown("the array does not suit the image".to_string()))
    );
    assert_eq!(target, vec![9, 9]);
}

#[test]
fn a_call_names_the_context_of_its_handle() {
    let one = WebGL2RenderingContext::new("one");
    let two = WebGL2RenderingContext::new("two");
    let a = WebGLRSBuffer::from_reply(&one, &Reply::Object(1));
    let b = WebGLRSBuffer::from_reply(&two, &Reply::Object(1));
    assert_eq!(a.bind(BufferKind::Array).context, &one);
    assert_eq!(b.bind(BufferKind::Array).context, &two);
    assert_ne!(a.bind(BufferKind::Array), b.bind(BufferKind::Array));
    assert_eq!(a.bind(BufferKind::Array).op, b.bind(BufferKind::Array).op);
}
