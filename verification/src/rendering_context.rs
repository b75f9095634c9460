//! The context facade: the one entry to everything that is asked of a graphics
//! context and that belongs to no single resource.
//!
//! Nothing here reaches the context itself. Each method builds the call that
//! is to be made, with the entry point and the arguments that the context's
//! interface fixes; whoever holds the context makes the call and hands the
//! reply back. No method looks at a number that it passes on: what the
//! context makes of a value out of range is for the context to say, through
//! its error state.
use vstd::prelude::*;
use crate::call::{Call, Op};
use crate::data_view::{Buffer, Image};
use crate::glenum::{
    AttributeSize, AttributeType, BlendEquation, BlendMode, BufferBit, BufferKind,
    BufferParameter, Catalog, ClearBuffer, ColorBuffer, Culling, DataHint, DataType, DepthTest,
    Flag, FramebufferKind, FrontFaceDirection, HintMode, HintTarget, InformationType,
    PixelCopyFormat, PixelReadFormat, PixelStorageMode, PixelType, Primitives, QueryTarget,
    RenderbufferFormat, RenderbufferKind, RenderbufferParameter, ShaderKind, ShaderPrecision,
    StencilAction, StencilTest, Texture2DKind, Texture3DKind, TextureBindPoint, TextureKind,
    TextureMagFilter, TextureParameter, TextureUnit, TransformFeedbackMode, VertexAttrib,
};
use crate::number::Float32;
use crate::reply::Shape;
use crate::uniform_location::WebGLUniformLocation;

verus! {

/// The context's name for a canvas element. The identifier 0 stands for null.
#[derive(Clone, Copy, Debug, PartialEq, Eq, Structural)]
pub struct HTMLCanvasElement {
    pub id: u32,
}

/// Range and precision of a number format of a shader.
#[derive(Clone, Copy, Debug, PartialEq, Eq, Structural)]
pub struct WebGLShaderPrecisionFormat {
    pub range_min: u32,
    pub range_max: u32,
    pub precision: u32,
}

impl WebGLShaderPrecisionFormat {
    /// Gives the base 2 logarithm of the absolute value of the smallest number
    /// that the format holds.
    pub fn range_min(&self) -> (n: u32)
        ensures
            n == self.range_min,
    {
        self.range_min
    }

    /// Gives the base 2 logarithm of the absolute value of the largest number
    /// that the format holds.
    pub fn range_max(&self) -> (n: u32)
        ensures
            n == self.range_max,
    {
        self.range_max
    }

    /// Gives the number of bits of precision of the format.
    pub fn precision(&self) -> (n: u32)
        ensures
            n == self.precision,
    {
        self.precision
    }
}

/// The graphics context of one drawing surface, known by the id of the canvas
/// element that it draws to.
#[derive(Clone, Debug, PartialEq, Eq)]
pub struct WebGL2RenderingContext {
    surface: String,
}

impl WebGL2RenderingContext {
    /// The id of the canvas element that the context draws to.
    pub closed spec fn canvas_id(self) -> Seq<char> {
        self.surface@
    }

    /// The facade of the context of the canvas element with the given id.
    pub fn new(id: &str) -> (context: WebGL2RenderingContext)
        ensures
            context.canvas_id() == id@,
    {
        WebGL2RenderingContext { surface: id.to_string() }
    }

    /// Gives the id of the canvas element that the context draws to.
    pub fn surface(&self) -> (id: &str)
        ensures
            id@ == self.canvas_id(),
    {
        self.surface.as_str()
    }

    /// Asks the canvas element for the context itself: for its context of the
    /// kind `webgl2`.
    pub fn acquire(&self) -> (c: Call<'_>)
        ensures
            c.context == self,
            c.op is GetContext,
            c.op->GetContext_canvas@ == self.canvas_id(),
            c.op->GetContext_kind@ == "webgl2"@,
            c.op.shape() == Shape::Object,
    {
        Call { context: self, op: Op::GetContext { canvas: self.surface.as_str(), kind: "webgl2" } }
    }

    /// Asks for the size in bytes of the buffer bound to `target`. The reply is
    /// read with `as_i32`.
    #[verifier::allow_in_spec]
    pub fn buffer_size(&self, target: BufferKind) -> (c: Call<'_>)
        ensures
            c.op.shape() == Shape::I32,
        returns
            (Call {
                context: self,
                op: Op::GetBufferParameter { target, pname: BufferParameter::Size },
            }),
    {
        Call { context: self, op: Op::GetBufferParameter { target, pname: BufferParameter::Size } }
    }

    /// Asks for the usage hint of the buffer bound to `target`. The reply is
    /// read with `as_enum`, as a value of `DataHint`.
    #[verifier::allow_in_spec]
    pub fn buffer_usage(&self, target: BufferKind) -> (c: Call<'_>)
        ensures
            c.op.shape() == Shape::Enum(Catalog::DataHint),
        returns
            (Call {
                context: self,
                op: Op::GetBufferParameter { target, pname: BufferParameter::Usage },
            }),
    {
        Call { context: self, op: Op::GetBufferParameter { target, pname: BufferParameter::Usage } }
    }

    /// Asks for the internal format of the renderbuffer bound to `target`. The
    /// reply is read with `as_enum`, as a value of `RenderbufferFormat`.
    #[verifier::allow_in_spec]
    pub fn renderbuffer_internal_format(&self, target: RenderbufferKind) -> (c: Call<'_>)
        ensures
            c.op.shape() == Shape::Enum(Catalog::RenderbufferFormat),
        returns
            (Call {
                context: self,
                op: Op::GetRenderbufferParameter {
                    target,
                    pname: RenderbufferParameter::Format,
                },
            }),
    {
        Call {
            context: self,
            op: Op::GetRenderbufferParameter {
                target,
                pname: RenderbufferParameter::Format,
            },
        }
    }

    /// Asks for the width of the image of the renderbuffer bound to `target`.
    /// The reply is read with `as_i32`.
    #[verifier::allow_in_spec]
    pub fn renderbuffer_width(&self, target: RenderbufferKind) -> (c: Call<'_>)
        ensures
            c.op.shape() == Shape::I32,
        returns
            (Call {
                context: self,
                op: Op::GetRenderbufferParameter {
                    target,
                    pname: RenderbufferParameter::Width,
                },
            }),
    {
        Call {
            context: self,
            op: Op::GetRenderbufferParameter {
                target,
                pname: RenderbufferParameter::Width,
            },
        }
    }

    /// Asks for the height of the image of the renderbuffer bound to `target`.
    /// The reply is read with `as_i32`.
    #[verifier::allow_in_spec]
    pub fn renderbuffer_height(&self, target: RenderbufferKind) -> (c: Call<'_>)
        ensures
            c.op.shape() == Shape::I32,
        returns
            (Call {
                context: self,
                op: Op::GetRenderbufferParameter {
                    target,
                    pname: RenderbufferParameter::Height,
                },
            }),
    {
        Call {
            context: self,
            op: Op::GetRenderbufferParameter {
                target,
                pname: RenderbufferParameter::Height,
            },
        }
    }

    /// Asks for the number of bits of the green component of the renderbuffer
    /// bound to `target`. The reply is read with `as_i32`.
    #[verifier::allow_in_spec]
    pub fn renderbuffer_green_size(&self, target: RenderbufferKind) -> (c: Call<'_>)
        ensures
            c.op.shape() == Shape::I32,
        returns
            (Call {
                context: self,
                op: Op::GetRenderbufferParameter {
                    target,
                    pname: RenderbufferParameter::GreenSize,
                },
            }),
    {
        Call {
            context: self,
            op: Op::GetRenderbufferParameter {
                target,
                pname: RenderbufferParameter::GreenSize,
            },
        }
    }

    /// Asks for the number of bits of the blue component of the renderbuffer
    /// bound to `target`. The reply is read with `as_i32`.
    #[verifier::allow_in_spec]
    pub fn renderbuffer_blue_size(&self, target: RenderbufferKind) -> (c: Call<'_>)
        ensures
            c.op.shape() == Shape::I32,
        returns
            (Call {
                context: self,
                op: Op::GetRenderbufferParameter {
                    target,
                    pname: RenderbufferParameter::BlueSize,
                },
            }),
    {
        Call {
            context: self,
            op: Op::GetRenderbufferParameter {
                target,
                pname: RenderbufferParameter::BlueSize,
            },
        }
    }

    /// Asks for the number of bits of the red component of the renderbuffer
    /// bound to `target`. The reply is read with `as_i32`.
    #[verifier::allow_in_spec]
    pub fn renderbuffer_red_size(&self, target: RenderbufferKind) -> (c: Call<'_>)
        ensures
            c.op.shape() == Shape::I32,
        returns
            (Call {
                context: self,
                op: Op::GetRenderbufferParameter {
                    target,
                    pname: RenderbufferParameter::RedSize,
                },
            }),
    {
        Call {
            context: self,
            op: Op::GetRenderbufferParameter {
                target,
                pname: RenderbufferParameter::RedSize,
            },
        }
    }

    /// Asks for the number of bits of the alpha component of the renderbuffer
    /// bound to `target`. The reply is read with `as_i32`.
    #[verifier::allow_in_spec]
    pub fn renderbuffer_alpha_size(&self, target: RenderbufferKind) -> (c: Call<'_>)
        ensures
            c.op.shape() == Shape::I32,
        returns
            (Call {
                context: self,
                op: Op::GetRenderbufferParameter {
                    target,
                    pname: RenderbufferParameter::AlphaSize,
                },
            }),
    {
        Call {
            context: self,
            op: Op::GetRenderbufferParameter {
                target,
                pname: RenderbufferParameter::AlphaSize,
            },
        }
    }

    /// Asks for the number of bits of the depth component of the renderbuffer
    /// bound to `target`. The reply is read with `as_i32`.
    #[verifier::allow_in_spec]
    pub fn renderbuffer_depth_size(&self, target: RenderbufferKind) -> (c: Call<'_>)
        ensures
            c.op.shape() == Shape::I32,
        returns
            (Call {
                context: self,
                op: Op::GetRenderbufferParameter {
                    target,
                    pname: RenderbufferParameter::DepthSize,
                },
            }),
    {
        Call {
            context: self,
            op: Op::GetRenderbufferParameter {
                target,
                pname: RenderbufferParameter::DepthSize,
            },
        }
    }

    /// Asks for the number of bits of the stencil component of the renderbuffer
    /// bound to `target`. The reply is read with `as_i32`.
    #[verifier::allow_in_spec]
    pub fn renderbuffer_stencil_size(&self, target: RenderbufferKind) -> (c: Call<'_>)
        ensures
            c.op.shape() == Shape::I32,
        returns
            (Call {
                context: self,
                op: Op::GetRenderbufferParameter {
                    target,
                    pname: RenderbufferParameter::StencilSize,
                },
            }),
    {
        Call {
            context: self,
            op: Op::GetRenderbufferParameter {
                target,
                pname: RenderbufferParameter::StencilSize,
            },
        }
    }

    /// Asks for the number of samples of the image of the renderbuffer bound to
    /// `target`. The reply is read with `as_i32`.
    #[verifier::allow_in_spec]
    pub fn renderbuffer_samples(&self, target: RenderbufferKind) -> (c: Call<'_>)
        ensures
            c.op.shape() == Shape::I32,
        returns
            (Call {
                context: self,
                op: Op::GetRenderbufferParameter {
                    target,
                    pname: RenderbufferParameter::Samples,
                },
            }),
    {
        Call {
            context: self,
            op: Op::GetRenderbufferParameter {
                target,
                pname: RenderbufferParameter::Samples,
            },
        }
    }

    /// Asks for the magnification filter of the texture bound to `target`. The
    /// reply is read with `as_enum`, as a value of `TextureMagFilter`.
    #[verifier::allow_in_spec]
    pub fn texture_mag_filter(&self, target: TextureKind) -> (c: Call<'_>)
        ensures
            c.op.shape() == Shape::Enum(Catalog::TextureMagFilter),
        returns
            (Call {
                context: self,
                op: Op::GetTexParameter { target, pname: TextureParameter::MagFilter },
            }),
    {
        Call {
            context: self,
            op: Op::GetTexParameter { target, pname: TextureParameter::MagFilter },
        }
    }

    /// Asks for the minification filter of the texture bound to `target`. The
    /// reply is read with `as_enum`, as a value of `TextureMinFilter`.
    #[verifier::allow_in_spec]
    pub fn texture_min_filter(&self, target: TextureKind) -> (c: Call<'_>)
        ensures
            c.op.shape() == Shape::Enum(Catalog::TextureMinFilter),
        returns
            (Call {
                context: self,
                op: Op::GetTexParameter { target, pname: TextureParameter::MinFilter },
            }),
    {
        Call {
            context: self,
            op: Op::GetTexParameter { target, pname: TextureParameter::MinFilter },
        }
    }

    /// Asks for the wrapping function of the coordinate s of the texture bound
    /// to `target`. The reply is read with `as_enum`, as a value of
    /// `TextureWrap`.
    #[verifier::allow_in_spec]
    pub fn texture_wrap_s(&self, target: TextureKind) -> (c: Call<'_>)
        ensures
            c.op.shape() == Shape::Enum(Catalog::TextureWrap),
        returns
            (Call {
                context: self,
                op: Op::GetTexParameter { target, pname: TextureParameter::WrapS },
            }),
    {
        Call { context: self, op: Op::GetTexParameter { target, pname: TextureParameter::WrapS } }
    }

    /// Asks for the wrapping function of the coordinate t of the texture bound
    /// to `target`. The reply is read with `as_enum`, as a value of
    /// `TextureWrap`.
    #[verifier::allow_in_spec]
    pub fn texture_wrap_t(&self, target: TextureKind) -> (c: Call<'_>)
        ensures
            c.op.shape() == Shape::Enum(Catalog::TextureWrap),
        returns
            (Call {
                context: self,
                op: Op::GetTexParameter { target, pname: TextureParameter::WrapT },
            }),
    {
        Call { context: self, op: Op::GetTexParameter { target, pname: TextureParameter::WrapT } }
    }

    /// Asks for the lowest mipmap level of the texture bound to `target`. The
    /// reply is read with `as_i32`.
    #[verifier::allow_in_spec]
    pub fn texture_base_level(&self, target: TextureKind) -> (c: Call<'_>)
        ensures
            c.op.shape() == Shape::I32,
        returns
            (Call {
                context: self,
                op: Op::GetTexParameter { target, pname: TextureParameter::BaseLevel },
            }),
    {
        Call {
            context: self,
            op: Op::GetTexParameter { target, pname: TextureParameter::BaseLevel },
        }
    }

    /// Asks for the comparison function of the texture bound to `target`. The
    /// reply is read with `as_enum`, as a value of `DepthTest`.
    #[verifier::allow_in_spec]
    pub fn texture_compare_func(&self, target: TextureKind) -> (c: Call<'_>)
        ensures
            c.op.shape() == Shape::Enum(Catalog::DepthTest),
        returns
            (Call {
                context: self,
                op: Op::GetTexParameter { target, pname: TextureParameter::CompareFunc },
            }),
    {
        Call {
            context: self,
            op: Op::GetTexParameter { target, pname: TextureParameter::CompareFunc },
        }
    }

    /// Asks for the comparison mode of the texture bound to `target`. The reply
    /// is read with `as_enum`, as a value of `CompareMode`.
    #[verifier::allow_in_spec]
    pub fn texture_compare_mode(&self, target: TextureKind) -> (c: Call<'_>)
        ensures
            c.op.shape() == Shape::Enum(Catalog::CompareMode),
        returns
            (Call {
                context: self,
                op: Op::GetTexParameter { target, pname: TextureParameter::CompareMode },
            }),
    {
        Call {
            context: self,
            op: Op::GetTexParameter { target, pname: TextureParameter::CompareMode },
        }
    }

    /// Asks for the answer whether format and size are fixed of the texture
    /// bound to `target`. The reply is read with `as_bool`.
    #[verifier::allow_in_spec]
    pub fn texture_immutable_format(&self, target: TextureKind) -> (c: Call<'_>)
        ensures
            c.op.shape() == Shape::Bool,
        returns
            (Call {
                context: self,
                op: Op::GetTexParameter {
                    target,
                    pname: TextureParameter::ImmutableFormat,
                },
            }),
    {
        Call {
            context: self,
            op: Op::GetTexParameter {
                target,
                pname: TextureParameter::ImmutableFormat,
            },
        }
    }

    /// Asks for the number of fixed levels of the texture bound to `target`.
    /// The reply is read with `as_u32`.
    #[verifier::allow_in_spec]
    pub fn texture_immutable_levels(&self, target: TextureKind) -> (c: Call<'_>)
        ensures
            c.op.shape() == Shape::U32,
        returns
            (Call {
                context: self,
                op: Op::GetTexParameter {
                    target,
                    pname: TextureParameter::ImmutableLevels,
                },
            }),
    {
        Call {
            context: self,
            op: Op::GetTexParameter {
                target,
                pname: TextureParameter::ImmutableLevels,
            },
        }
    }

    /// Asks for the highest mipmap level of the texture bound to `target`. The
    /// reply is read with `as_i32`.
    #[verifier::allow_in_spec]
    pub fn texture_max_level(&self, target: TextureKind) -> (c: Call<'_>)
        ensures
            c.op.shape() == Shape::I32,
        returns
            (Call {
                context: self,
                op: Op::GetTexParameter { target, pname: TextureParameter::MaxLevel },
            }),
    {
        Call {
            context: self,
            op: Op::GetTexParameter { target, pname: TextureParameter::MaxLevel },
        }
    }

    /// Asks for the maximum level of detail of the texture bound to `target`.
    /// The reply is read with `as_float`.
    #[verifier::allow_in_spec]
    pub fn texture_max_lod(&self, target: TextureKind) -> (c: Call<'_>)
        ensures
            c.op.shape() == Shape::Float,
        returns
            (Call {
                context: self,
                op: Op::GetTexParameter { target, pname: TextureParameter::MaxLod },
            }),
    {
        Call { context: self, op: Op::GetTexParameter { target, pname: TextureParameter::MaxLod } }
    }

    /// Asks for the minimum level of detail of the texture bound to `target`.
    /// The reply is read with `as_float`.
    #[verifier::allow_in_spec]
    pub fn texture_min_lod(&self, target: TextureKind) -> (c: Call<'_>)
        ensures
            c.op.shape() == Shape::Float,
        returns
            (Call {
                context: self,
                op: Op::GetTexParameter { target, pname: TextureParameter::MinLod },
            }),
    {
        Call { context: self, op: Op::GetTexParameter { target, pname: TextureParameter::MinLod } }
    }

    /// Asks for the wrapping function of the coordinate r of the texture bound
    /// to `target`. The reply is read with `as_enum`, as a value of
    /// `TextureWrap`.
    #[verifier::allow_in_spec]
    pub fn texture_wrap_r(&self, target: TextureKind) -> (c: Call<'_>)
        ensures
            c.op.shape() == Shape::Enum(Catalog::TextureWrap),
        returns
            (Call {
                context: self,
                op: Op::GetTexParameter { target, pname: TextureParameter::WrapR },
            }),
    {
        Call { context: self, op: Op::GetTexParameter { target, pname: TextureParameter::WrapR } }
    }

    /// Creates the data store of the buffer bound to `target`, as large as
    /// `src_data`, and fills it with `src_data`.
    pub fn buffer_data<'a, B: Buffer>(
        &'a self,
        target: BufferKind,
        src_data: &'a B,
        usage: DataHint,
    ) -> (c: Call<'a>)
        ensures
            c.context == self,
            c.op == (Op::BufferData { target, data: src_data.payload(), usage }),
            c.op.shape() == Shape::Nothing,
    {
        src_data.buffer_data(self, target, usage)
    }

    /// Replaces the data of the buffer bound to `target`, from `offset` bytes
    /// on, with `src_data`.
    pub fn buffer_sub_data<'a, B: Buffer>(
        &'a self,
        target: BufferKind,
        offset: i64,
        src_data: &'a B,
    ) -> (c: Call<'a>)
        ensures
            c.context == self,
            c.op == (Op::BufferSubData { target, offset, data: src_data.payload() }),
            c.op.shape() == Shape::Nothing,
    {
        src_data.buffer_sub_data(self, target, offset)
    }

    /// Loads `src_data` as a two-dimensional texture image, without a border.
    /// The reply to the call tells whether the context took the image.
    pub fn tex_image_2d<'a, I: Image>(
        &'a self,
        target: TextureBindPoint,
        level: u32,
        internalformat: PixelCopyFormat,
        width: u32,
        height: u32,
        format: PixelCopyFormat,
        pixel_type: PixelType,
        src_data: &'a I,
    ) -> (c: Call<'a>)
        ensures
            c.context == self,
            c.op == (Op::TexImage2D {
                target,
                level,
                internalformat,
                width,
                height,
                border: 0,
                format,
                pixel_type,
                data: src_data.payload(),
            }),
            c.op.shape() == Shape::Outcome,
    {
        src_data.tex_image_2d(
            self,
            target,
            level,
            internalformat,
            width,
            height,
            format,
            pixel_type,
        )
    }

    /// Loads `pixels` as a sub-rectangle of the current texture image. The
    /// reply to the call tells whether the context took the pixels.
    pub fn tex_sub_image_2d<'a, I: Image>(
        &'a self,
        target: TextureBindPoint,
        level: u32,
        xoffset: u32,
        yoffset: u32,
        width: u32,
        height: u32,
        format: PixelCopyFormat,
        pixel_type: PixelType,
        pixels: &'a I,
    ) -> (c: Call<'a>)
        ensures
            c.context == self,
            c.op == (Op::TexSubImage2D {
                target,
                level,
                xoffset,
                yoffset,
                width,
                height,
                format,
                pixel_type,
                data: pixels.payload(),
            }),
            c.op.shape() == Shape::Outcome,
    {
        pixels.tex_sub_image_2d(
            self,
            target,
            level,
            xoffset,
            yoffset,
            width,
            height,
            format,
            pixel_type,
        )
    }

    /// Asks for a block of pixels of the current color framebuffer, to be read
    /// into `pixels`. The reply to the call holds the pixels, or the failure
    /// that the context reported; `store_pixels` puts them into the array.
    pub fn read_pixels<'a, I: Image>(
        &'a self,
        x: u32,
        y: u32,
        width: u32,
        height: u32,
        format: PixelReadFormat,
        pixel_type: PixelType,
        pixels: &'a I,
    ) -> (c: Call<'a>)
        ensures
            c.context == self,
            c.op == (Op::ReadPixels {
                x,
                y,
                width,
                height,
                format,
                pixel_type,
                pixels: pixels.payload(),
            }),
            c.op.shape() == Shape::Data,
    {
        pixels.read_pixels(self, x, y, width, height, format, pixel_type)
    }

    /// Reads the canvas that the context draws to.
    #[verifier::allow_in_spec]
    pub fn canvas(&self) -> (c: Call<'_>)
        ensures
            c.op.shape() == Shape::Object,
        returns
            (Call { context: self, op: Op::Canvas }),
    {
        Call { context: self, op: Op::Canvas }
    }

    /// Reads the width of the drawing buffer. The reply is read with `as_u32`.
    #[verifier::allow_in_spec]
    pub fn drawing_buffer_width(&self) -> (c: Call<'_>)
        ensures
            c.op.shape() == Shape::U32,
        returns
            (Call { context: self, op: Op::DrawingBufferWidth }),
    {
        Call { context: self, op: Op::DrawingBufferWidth }
    }

    /// Reads the height of the drawing buffer. The reply is read with `as_u32`.
    #[verifier::allow_in_spec]
    pub fn drawing_buffer_height(&self) -> (c: Call<'_>)
        ensures
            c.op.shape() == Shape::U32,
        returns
            (Call { context: self, op: Op::DrawingBufferHeight }),
    {
        Call { context: self, op: Op::DrawingBufferHeight }
    }

    /// Asks whether the context has been lost. The reply is read with
    /// `as_bool`.
    #[verifier::allow_in_spec]
    pub fn is_context_lost(&self) -> (c: Call<'_>)
        ensures
            c.op.shape() == Shape::Bool,
        returns
            (Call { context: self, op: Op::IsContextLost }),
    {
        Call { context: self, op: Op::IsContextLost }
    }

    /// Copies part of the buffer bound to one target into the buffer bound to
    /// another.
    #[verifier::allow_in_spec]
    pub fn copy_buffer_sub_data(
        &self,
        read_target: BufferKind,
        write_target: BufferKind,
        read_offset: i64,
        write_offset: i64,
        size: u32,
    ) -> (c: Call<'_>)
        ensures
            c.op.shape() == Shape::Nothing,
        returns
            (Call {
                context: self,
                op: Op::CopyBufferSubData {
                    read_target,
                    write_target,
                    read_offset,
                    write_offset,
                    size,
                },
            }),
    {
        Call {
            context: self,
            op: Op::CopyBufferSubData {
                read_target,
                write_target,
                read_offset,
                write_offset,
                size,
            },
        }
    }

    /// Reads part of the bound buffer back into `dst_data`. The reply is read
    /// with `data`.
    #[verifier::allow_in_spec]
    pub fn get_buffer_sub_data<'a>(
        &'a self,
        target: BufferKind,
        src_byte_offset: i64,
        dst_data: &'a Vec<u8>,
        dst_offset: i64,
        length: u32,
    ) -> (c: Call<'a>)
        ensures
            c.op.shape() == Shape::Data,
        returns
            (Call {
                context: self,
                op: Op::GetBufferSubData {
                    target,
                    src_byte_offset,
                    dst_data,
                    dst_offset,
                    length,
                },
            }),
    {
        Call {
            context: self,
            op: Op::GetBufferSubData {
                target,
                src_byte_offset,
                dst_data,
                dst_offset,
                length,
            },
        }
    }

    /// Asks how complete the bound framebuffer is. The reply is read with
    /// `as_enum`, as a value of `FramebufferStatus`.
    #[verifier::allow_in_spec]
    pub fn check_framebuffer_status(&self, target: FramebufferKind) -> (c: Call<'_>)
        ensures
            c.op.shape() == Shape::Enum(Catalog::FramebufferStatus),
        returns
            (Call { context: self, op: Op::CheckFramebufferStatus { target } }),
    {
        Call { context: self, op: Op::CheckFramebufferStatus { target } }
    }

    /// Copies a block of pixels from the read framebuffer to the draw
    /// framebuffer.
    #[verifier::allow_in_spec]
    pub fn blit_framebuffer(
        &self,
        src_x0: i32,
        src_y0: i32,
        src_x1: i32,
        src_y1: i32,
        dst_x0: i32,
        dst_y0: i32,
        dst_x1: i32,
        dst_y1: i32,
        mask: BufferBit,
        filter: TextureMagFilter,
    ) -> (c: Call<'_>)
        ensures
            c.op.shape() == Shape::Nothing,
        returns
            (Call {
                context: self,
                op: Op::BlitFramebuffer {
                    src_x0,
                    src_y0,
                    src_x1,
                    src_y1,
                    dst_x0,
                    dst_y0,
                    dst_x1,
                    dst_y1,
                    mask,
                    filter,
                },
            }),
    {
        Call {
            context: self,
            op: Op::BlitFramebuffer {
                src_x0,
                src_y0,
                src_x1,
                src_y1,
                dst_x0,
                dst_y0,
                dst_x1,
                dst_y1,
                mask,
                filter,
            },
        }
    }

    /// Selects the color buffer that pixels are read from.
    #[verifier::allow_in_spec]
    pub fn read_buffer(&self, src: ColorBuffer) -> (c: Call<'_>)
        ensures
            c.op.shape() == Shape::Nothing,
        returns
            (Call { context: self, op: Op::ReadBuffer { src } }),
    {
        Call { context: self, op: Op::ReadBuffer { src } }
    }

    /// Ends the query that is active on a target.
    #[verifier::allow_in_spec]
    pub fn end_query(&self, target: QueryTarget) -> (c: Call<'_>)
        ensures
            c.op.shape() == Shape::Nothing,
        returns
            (Call { context: self, op: Op::EndQuery { target } }),
    {
        Call { context: self, op: Op::EndQuery { target } }
    }

    /// Creates the data store of the bound renderbuffer.
    #[verifier::allow_in_spec]
    pub fn renderbuffer_storage(
        &self,
        target: RenderbufferKind,
        internal_format: RenderbufferFormat,
        width: u32,
        height: u32,
    ) -> (c: Call<'_>)
        ensures
            c.op.shape() == Shape::Nothing,
        returns
            (Call {
                context: self,
                op: Op::RenderbufferStorage { target, internal_format, width, height },
            }),
    {
        Call {
            context: self,
            op: Op::RenderbufferStorage { target, internal_format, width, height },
        }
    }

    /// Creates the multisampled data store of the bound renderbuffer.
    #[verifier::allow_in_spec]
    pub fn renderbuffer_storage_multisample(
        &self,
        target: RenderbufferKind,
        samples: u32,
        internal_format: RenderbufferFormat,
        width: u32,
        height: u32,
    ) -> (c: Call<'_>)
        ensures
            c.op.shape() == Shape::Nothing,
        returns
            (Call {
                context: self,
                op: Op::RenderbufferStorageMultisample {
                    target,
                    samples,
                    internal_format,
                    width,
                    height,
                },
            }),
    {
        Call {
            context: self,
            op: Op::RenderbufferStorageMultisample {
                target,
                samples,
                internal_format,
                width,
                height,
            },
        }
    }

    /// Reads what the context supports for an internal format. The reply is
    /// read with `data`.
    #[verifier::allow_in_spec]
    pub fn get_internal_format_parameter(
        &self,
        target: RenderbufferKind,
        internal_format: RenderbufferFormat,
        pname: InformationType,
    ) -> (c: Call<'_>)
        ensures
            c.op.shape() == Shape::Data,
        returns
            (Call {
                context: self,
                op: Op::GetInternalformatParameter { target, internal_format, pname },
            }),
    {
        Call {
            context: self,
            op: Op::GetInternalformatParameter { target, internal_format, pname },
        }
    }

    /// Reads range and precision of a number format of a kind of shader. The
    /// reply is read with `as_precision_format`.
    #[verifier::allow_in_spec]
    pub fn get_shader_precision_format(
        &self,
        shader_type: ShaderKind,
        precision_type: ShaderPrecision,
    ) -> (c: Call<'_>)
        ensures
            c.op.shape() == Shape::PrecisionFormat,
        returns
            (Call {
                context: self,
                op: Op::GetShaderPrecisionFormat { shader_type, precision_type },
            }),
    {
        Call { context: self, op: Op::GetShaderPrecisionFormat { shader_type, precision_type } }
    }

    /// Selects the active texture unit.
    #[verifier::allow_in_spec]
    pub fn active_texture(&self, texture: TextureUnit) -> (c: Call<'_>)
        ensures
            c.op.shape() == Shape::Nothing,
        returns
            (Call { context: self, op: Op::ActiveTexture { texture } }),
    {
        Call { context: self, op: Op::ActiveTexture { texture } }
    }

    /// Generates the mipmaps of the bound texture.
    #[verifier::allow_in_spec]
    pub fn generate_mipmap(&self, target: TextureKind) -> (c: Call<'_>)
        ensures
            c.op.shape() == Shape::Nothing,
        returns
            (Call { context: self, op: Op::GenerateMipmap { target } }),
    {
        Call { context: self, op: Op::GenerateMipmap { target } }
    }

    /// Sets a floating-point parameter of the bound texture.
    #[verifier::allow_in_spec]
    pub fn tex_parameter_f(
        &self,
        target: TextureKind,
        pname: TextureParameter,
        param: Float32,
    ) -> (c: Call<'_>)
        ensures
            c.op.shape() == Shape::Nothing,
        returns
            (Call { context: self, op: Op::TexParameterf { target, pname, param } }),
    {
        Call { context: self, op: Op::TexParameterf { target, pname, param } }
    }

    /// Sets an integer parameter of the bound texture.
    #[verifier::allow_in_spec]
    pub fn tex_parameter_i(
        &self,
        target: TextureKind,
        pname: TextureParameter,
        param: i32,
    ) -> (c: Call<'_>)
        ensures
            c.op.shape() == Shape::Nothing,
        returns
            (Call { context: self, op: Op::TexParameteri { target, pname, param } }),
    {
        Call { context: self, op: Op::TexParameteri { target, pname, param } }
    }

    /// Copies pixels of the current framebuffer into a texture image.
    #[verifier::allow_in_spec]
    pub fn copy_tex_image_2d(
        &self,
        target: TextureBindPoint,
        level: u32,
        internalformat: PixelCopyFormat,
        x: i32,
        y: i32,
        width: u32,
        height: u32,
        border: u32,
    ) -> (c: Call<'_>)
        ensures
            c.op.shape() == Shape::Nothing,
        returns
            (Call {
                context: self,
                op: Op::CopyTexImage2D {
                    target,
                    level,
                    internalformat,
                    x,
                    y,
                    width,
                    height,
                    border,
                },
            }),
    {
        Call {
            context: self,
            op: Op::CopyTexImage2D {
                target,
                level,
                internalformat,
                x,
                y,
                width,
                height,
                border,
            },
        }
    }

    /// Copies pixels of the current framebuffer into part of a texture image.
    #[verifier::allow_in_spec]
    pub fn copy_tex_sub_image_2d(
        &self,
        target: TextureBindPoint,
        level: u32,
        xoffset: i32,
        yoffset: i32,
        x: i32,
        y: i32,
        width: u32,
        height: u32,
    ) -> (c: Call<'_>)
        ensures
            c.op.shape() == Shape::Nothing,
        returns
            (Call {
                context: self,
                op: Op::CopyTexSubImage2D {
                    target,
                    level,
                    xoffset,
                    yoffset,
                    x,
                    y,
                    width,
                    height,
                },
            }),
    {
        Call {
            context: self,
            op: Op::CopyTexSubImage2D {
                target,
                level,
                xoffset,
                yoffset,
                x,
                y,
                width,
                height,
            },
        }
    }

    /// Fixes all levels of two-dimensional texture storage.
    #[verifier::allow_in_spec]
    pub fn tex_storage_2d(
        &self,
        target: Texture2DKind,
        levels: u32,
        internal_format: RenderbufferFormat,
        width: u32,
        height: u32,
    ) -> (c: Call<'_>)
        ensures
            c.op.shape() == Shape::Nothing,
        returns
            (Call {
                context: self,
                op: Op::TexStorage2D { target, levels, internal_format, width, height },
            }),
    {
        Call {
            context: self,
            op: Op::TexStorage2D { target, levels, internal_format, width, height },
        }
    }

    /// Fixes all levels of three-dimensional texture storage.
    #[verifier::allow_in_spec]
    pub fn tex_storage_3d(
        &self,
        target: Texture3DKind,
        levels: u32,
        internal_format: RenderbufferFormat,
        width: u32,
        height: u32,
        depth: u32,
    ) -> (c: Call<'_>)
        ensures
            c.op.shape() == Shape::Nothing,
        returns
            (Call {
                context: self,
                op: Op::TexStorage3D {
                    target,
                    levels,
                    internal_format,
                    width,
                    height,
                    depth,
                },
            }),
    {
        Call {
            context: self,
            op: Op::TexStorage3D {
                target,
                levels,
                internal_format,
                width,
                height,
                depth,
            },
        }
    }

    /// Loads a three-dimensional texture image.
    #[verifier::allow_in_spec]
    pub fn tex_image_3d<'a>(
        &'a self,
        target: Texture3DKind,
        level: u32,
        internalformat: PixelCopyFormat,
        width: u32,
        height: u32,
        depth: u32,
        border: u32,
        format: PixelCopyFormat,
        data_type: PixelType,
        src_data: &'a Vec<u8>,
        src_offset: u32,
    ) -> (c: Call<'a>)
        ensures
            c.op.shape() == Shape::Nothing,
        returns
            (Call {
                context: self,
                op: Op::TexImage3D {
                    target,
                    level,
                    internalformat,
                    width,
                    height,
                    depth,
                    border,
                    format,
                    data_type,
                    src_data,
                    src_offset,
                },
            }),
    {
        Call {
            context: self,
            op: Op::TexImage3D {
                target,
                level,
                internalformat,
                width,
                height,
                depth,
                border,
                format,
                data_type,
                src_data,
                src_offset,
            },
        }
    }

    /// Loads a sub-box of the current three-dimensional texture.
    #[verifier::allow_in_spec]
    pub fn tex_sub_image_3d<'a>(
        &'a self,
        target: Texture3DKind,
        level: u32,
        xoffset: u32,
        yoffset: u32,
        zoffset: u32,
        width: u32,
        height: u32,
        depth: u32,
        format: PixelCopyFormat,
        data_type: PixelType,
        src_data: &'a Vec<u8>,
        src_offset: u32,
    ) -> (c: Call<'a>)
        ensures
            c.op.shape() == Shape::Nothing,
        returns
            (Call {
                context: self,
                op: Op::TexSubImage3D {
                    target,
                    level,
                    xoffset,
                    yoffset,
                    zoffset,
                    width,
                    height,
                    depth,
                    format,
                    data_type,
                    src_data,
                    src_offset,
                },
            }),
    {
        Call {
            context: self,
            op: Op::TexSubImage3D {
                target,
                level,
                xoffset,
                yoffset,
                zoffset,
                width,
                height,
                depth,
                format,
                data_type,
                src_data,
                src_offset,
            },
        }
    }

    /// Copies pixels of the current framebuffer into part of a
    /// three-dimensional texture.
    #[verifier::allow_in_spec]
    pub fn copy_tex_sub_image_3d(
        &self,
        target: Texture3DKind,
        level: u32,
        xoffset: u32,
        yoffset: u32,
        zoffset: u32,
        x: u32,
        y: u32,
        width: u32,
        height: u32,
    ) -> (c: Call<'_>)
        ensures
            c.op.shape() == Shape::Nothing,
        returns
            (Call {
                context: self,
                op: Op::CopyTexSubImage3D {
                    target,
                    level,
                    xoffset,
                    yoffset,
                    zoffset,
                    x,
                    y,
                    width,
                    height,
                },
            }),
    {
        Call {
            context: self,
            op: Op::CopyTexSubImage3D {
                target,
                level,
                xoffset,
                yoffset,
                zoffset,
                x,
                y,
                width,
                height,
            },
        }
    }

    /// Starts a transform feedback operation.
    #[verifier::allow_in_spec]
    pub fn begin_transform_feedback(&self, primitive_mode: TransformFeedbackMode) -> (c: Call<'_>)
        ensures
            c.op.shape() == Shape::Nothing,
        returns
            (Call { context: self, op: Op::BeginTransformFeedback { primitive_mode } }),
    {
        Call { context: self, op: Op::BeginTransformFeedback { primitive_mode } }
    }

    /// Ends the transform feedback operation.
    #[verifier::allow_in_spec]
    pub fn end_transform_feedback(&self) -> (c: Call<'_>)
        ensures
            c.op.shape() == Shape::Nothing,
        returns
            (Call { context: self, op: Op::EndTransformFeedback }),
    {
        Call { context: self, op: Op::EndTransformFeedback }
    }

    /// Pauses the transform feedback operation.
    #[verifier::allow_in_spec]
    pub fn pause_transform_feedback(&self) -> (c: Call<'_>)
        ensures
            c.op.shape() == Shape::Nothing,
        returns
            (Call { context: self, op: Op::PauseTransformFeedback }),
    {
        Call { context: self, op: Op::PauseTransformFeedback }
    }

    /// Resumes the transform feedback operation.
    #[verifier::allow_in_spec]
    pub fn resume_transform_feedback(&self) -> (c: Call<'_>)
        ensures
            c.op.shape() == Shape::Nothing,
        returns
            (Call { context: self, op: Op::ResumeTransformFeedback }),
    {
        Call { context: self, op: Op::ResumeTransformFeedback }
    }

    /// Sets the scissor box, which limits drawing to a rectangle.
    #[verifier::allow_in_spec]
    pub fn scissor(&self, x: i32, y: i32, width: u32, height: u32) -> (c: Call<'_>)
        ensures
            c.op.shape() == Shape::Nothing,
        returns
            (Call { context: self, op: Op::Scissor { x, y, width, height } }),
    {
        Call { context: self, op: Op::Scissor { x, y, width, height } }
    }

    /// Sets the viewport.
    #[verifier::allow_in_spec]
    pub fn viewport(&self, x: i32, y: i32, width: u32, height: u32) -> (c: Call<'_>)
        ensures
            c.op.shape() == Shape::Nothing,
        returns
            (Call { context: self, op: Op::Viewport { x, y, width, height } }),
    {
        Call { context: self, op: Op::Viewport { x, y, width, height } }
    }

    /// Sets the blend color.
    #[verifier::allow_in_spec]
    pub fn blend_color(
        &self,
        red: Float32,
        green: Float32,
        blue: Float32,
        alpha: Float32,
    ) -> (c: Call<'_>)
        ensures
            c.op.shape() == Shape::Nothing,
        returns
            (Call { context: self, op: Op::BlendColor { red, green, blue, alpha } }),
    {
        Call { context: self, op: Op::BlendColor { red, green, blue, alpha } }
    }

    /// Sets one blend equation for color and alpha.
    #[verifier::allow_in_spec]
    pub fn blend_equation(&self, mode: BlendEquation) -> (c: Call<'_>)
        ensures
            c.op.shape() == Shape::Nothing,
        returns
            (Call { context: self, op: Op::BlendEquation { mode } }),
    {
        Call { context: self, op: Op::BlendEquation { mode } }
    }

    /// Sets the blend equations of color and of alpha.
    #[verifier::allow_in_spec]
    pub fn blend_equation_separate(
        &self,
        mode_rgb: BlendEquation,
        mode_alpha: BlendEquation,
    ) -> (c: Call<'_>)
        ensures
            c.op.shape() == Shape::Nothing,
        returns
            (Call { context: self, op: Op::BlendEquationSeparate { mode_rgb, mode_alpha } }),
    {
        Call { context: self, op: Op::BlendEquationSeparate { mode_rgb, mode_alpha } }
    }

    /// Sets the blending factors.
    #[verifier::allow_in_spec]
    pub fn blend_func(&self, sfactor: BlendMode, dfactor: BlendMode) -> (c: Call<'_>)
        ensures
            c.op.shape() == Shape::Nothing,
        returns
            (Call { context: self, op: Op::BlendFunc { sfactor, dfactor } }),
    {
        Call { context: self, op: Op::BlendFunc { sfactor, dfactor } }
    }

    /// Sets the blending factors of color and of alpha.
    #[verifier::allow_in_spec]
    pub fn blend_func_separate(
        &self,
        src_rgb: BlendMode,
        dst_rgb: BlendMode,
        src_alpha: BlendMode,
        dst_alpha: BlendMode,
    ) -> (c: Call<'_>)
        ensures
            c.op.shape() == Shape::Nothing,
        returns
            (Call {
                context: self,
                op: Op::BlendFuncSeparate { src_rgb, dst_rgb, src_alpha, dst_alpha },
            }),
    {
        Call { context: self, op: Op::BlendFuncSeparate { src_rgb, dst_rgb, src_alpha, dst_alpha } }
    }

    /// Sets the color that color buffers are cleared to.
    #[verifier::allow_in_spec]
    pub fn clear_color(
        &self,
        red: Float32,
        green: Float32,
        blue: Float32,
        alpha: Float32,
    ) -> (c: Call<'_>)
        ensures
            c.op.shape() == Shape::Nothing,
        returns
            (Call { context: self, op: Op::ClearColor { red, green, blue, alpha } }),
    {
        Call { context: self, op: Op::ClearColor { red, green, blue, alpha } }
    }

    /// Sets the value that the depth buffer is cleared to.
    #[verifier::allow_in_spec]
    pub fn clear_depth(&self, depth: Float32) -> (c: Call<'_>)
        ensures
            c.op.shape() == Shape::Nothing,
        returns
            (Call { context: self, op: Op::ClearDepth { depth } }),
    {
        Call { context: self, op: Op::ClearDepth { depth } }
    }

    /// Sets the value that the stencil buffer is cleared to.
    #[verifier::allow_in_spec]
    pub fn clear_stencil(&self, s: i32) -> (c: Call<'_>)
        ensures
            c.op.shape() == Shape::Nothing,
        returns
            (Call { context: self, op: Op::ClearStencil { s } }),
    {
        Call { context: self, op: Op::ClearStencil { s } }
    }

    /// Sets which color components are written.
    #[verifier::allow_in_spec]
    pub fn color_mask(&self, red: bool, green: bool, blue: bool, alpha: bool) -> (c: Call<'_>)
        ensures
            c.op.shape() == Shape::Nothing,
        returns
            (Call { context: self, op: Op::ColorMask { red, green, blue, alpha } }),
    {
        Call { context: self, op: Op::ColorMask { red, green, blue, alpha } }
    }

    /// Sets which faces are culled.
    #[verifier::allow_in_spec]
    pub fn cull_face(&self, mode: Culling) -> (c: Call<'_>)
        ensures
            c.op.shape() == Shape::Nothing,
        returns
            (Call { context: self, op: Op::CullFace { mode } }),
    {
        Call { context: self, op: Op::CullFace { mode } }
    }

    /// Sets the comparison of the depth test.
    #[verifier::allow_in_spec]
    pub fn depth_func(&self, func: DepthTest) -> (c: Call<'_>)
        ensures
            c.op.shape() == Shape::Nothing,
        returns
            (Call { context: self, op: Op::DepthFunc { func } }),
    {
        Call { context: self, op: Op::DepthFunc { func } }
    }

    /// Sets whether the depth buffer is written.
    #[verifier::allow_in_spec]
    pub fn depth_mask(&self, flag: bool) -> (c: Call<'_>)
        ensures
            c.op.shape() == Shape::Nothing,
        returns
            (Call { context: self, op: Op::DepthMask { flag } }),
    {
        Call { context: self, op: Op::DepthMask { flag } }
    }

    /// Sets the range of depth values.
    #[verifier::allow_in_spec]
    pub fn depth_range(&self, z_near: Float32, z_far: Float32) -> (c: Call<'_>)
        ensures
            c.op.shape() == Shape::Nothing,
        returns
            (Call { context: self, op: Op::DepthRange { z_near, z_far } }),
    {
        Call { context: self, op: Op::DepthRange { z_near, z_far } }
    }

    /// Switches a capability off.
    #[verifier::allow_in_spec]
    pub fn disable(&self, cap: Flag) -> (c: Call<'_>)
        ensures
            c.op.shape() == Shape::Nothing,
        returns
            (Call { context: self, op: Op::Disable { cap } }),
    {
        Call { context: self, op: Op::Disable { cap } }
    }

    /// Switches a capability on.
    #[verifier::allow_in_spec]
    pub fn enable(&self, cap: Flag) -> (c: Call<'_>)
        ensures
            c.op.shape() == Shape::Nothing,
        returns
            (Call { context: self, op: Op::Enable { cap } }),
    {
        Call { context: self, op: Op::Enable { cap } }
    }

    /// Asks whether a capability is on. The reply is read with `as_bool`.
    #[verifier::allow_in_spec]
    pub fn is_enabled(&self, cap: Flag) -> (c: Call<'_>)
        ensures
            c.op.shape() == Shape::Bool,
        returns
            (Call { context: self, op: Op::IsEnabled { cap } }),
    {
        Call { context: self, op: Op::IsEnabled { cap } }
    }

    /// Sets the winding order of front faces.
    #[verifier::allow_in_spec]
    pub fn front_face(&self, mode: FrontFaceDirection) -> (c: Call<'_>)
        ensures
            c.op.shape() == Shape::Nothing,
        returns
            (Call { context: self, op: Op::FrontFace { mode } }),
    {
        Call { context: self, op: Op::FrontFace { mode } }
    }

    /// Reads and clears the error state of the context. The reply is read with
    /// `as_enum`, as a value of `Error`.
    #[verifier::allow_in_spec]
    pub fn get_error(&self) -> (c: Call<'_>)
        ensures
            c.op.shape() == Shape::Enum(Catalog::Error),
        returns
            (Call { context: self, op: Op::GetError }),
    {
        Call { context: self, op: Op::GetError }
    }

    /// Gives a hint for a behavior.
    #[verifier::allow_in_spec]
    pub fn hint(&self, target: HintTarget, mode: HintMode) -> (c: Call<'_>)
        ensures
            c.op.shape() == Shape::Nothing,
        returns
            (Call { context: self, op: Op::Hint { target, mode } }),
    {
        Call { context: self, op: Op::Hint { target, mode } }
    }

    /// Sets the width of lines.
    #[verifier::allow_in_spec]
    pub fn line_width(&self, width: Float32) -> (c: Call<'_>)
        ensures
            c.op.shape() == Shape::Nothing,
        returns
            (Call { context: self, op: Op::LineWidth { width } }),
    {
        Call { context: self, op: Op::LineWidth { width } }
    }

    /// Sets a pixel storage mode.
    #[verifier::allow_in_spec]
    pub fn pixel_storei(&self, pname: PixelStorageMode, param: i32) -> (c: Call<'_>)
        ensures
            c.op.shape() == Shape::Nothing,
        returns
            (Call { context: self, op: Op::PixelStorei { pname, param } }),
    {
        Call { context: self, op: Op::PixelStorei { pname, param } }
    }

    /// Sets the scale and units of the polygon offset.
    #[verifier::allow_in_spec]
    pub fn polygon_offset(&self, factor: Float32, units: Float32) -> (c: Call<'_>)
        ensures
            c.op.shape() == Shape::Nothing,
        returns
            (Call { context: self, op: Op::PolygonOffset { factor, units } }),
    {
        Call { context: self, op: Op::PolygonOffset { factor, units } }
    }

    /// Sets the multisample coverage.
    #[verifier::allow_in_spec]
    pub fn sample_coverage(&self, value: Float32, invert: bool) -> (c: Call<'_>)
        ensures
            c.op.shape() == Shape::Nothing,
        returns
            (Call { context: self, op: Op::SampleCoverage { value, invert } }),
    {
        Call { context: self, op: Op::SampleCoverage { value, invert } }
    }

    /// Sets the stencil test for front and back faces.
    #[verifier::allow_in_spec]
    pub fn stencil_func(&self, func: StencilTest, reference: i32, mask: u32) -> (c: Call<'_>)
        ensures
            c.op.shape() == Shape::Nothing,
        returns
            (Call { context: self, op: Op::StencilFunc { func, reference, mask } }),
    {
        Call { context: self, op: Op::StencilFunc { func, reference, mask } }
    }

    /// Sets the stencil test for one kind of face.
    #[verifier::allow_in_spec]
    pub fn stencil_func_separate(
        &self,
        face: Culling,
        func: StencilTest,
        reference: i32,
        mask: u32,
    ) -> (c: Call<'_>)
        ensures
            c.op.shape() == Shape::Nothing,
        returns
            (Call { context: self, op: Op::StencilFuncSeparate { face, func, reference, mask } }),
    {
        Call { context: self, op: Op::StencilFuncSeparate { face, func, reference, mask } }
    }

    /// Sets which stencil bits are written.
    #[verifier::allow_in_spec]
    pub fn stencil_mask(&self, mask: u32) -> (c: Call<'_>)
        ensures
            c.op.shape() == Shape::Nothing,
        returns
            (Call { context: self, op: Op::StencilMask { mask } }),
    {
        Call { context: self, op: Op::StencilMask { mask } }
    }

    /// Sets which stencil bits are written for one kind of face.
    #[verifier::allow_in_spec]
    pub fn stencil_mask_separate(&self, face: Culling, mask: u32) -> (c: Call<'_>)
        ensures
            c.op.shape() == Shape::Nothing,
        returns
            (Call { context: self, op: Op::StencilMaskSeparate { face, mask } }),
    {
        Call { context: self, op: Op::StencilMaskSeparate { face, mask } }
    }

    /// Sets the stencil actions for front and back faces.
    #[verifier::allow_in_spec]
    pub fn stencil_op(
        &self,
        fail: StencilAction,
        zfail: StencilAction,
        zpass: StencilAction,
    ) -> (c: Call<'_>)
        ensures
            c.op.shape() == Shape::Nothing,
        returns
            (Call { context: self, op: Op::StencilOp { fail, zfail, zpass } }),
    {
        Call { context: self, op: Op::StencilOp { fail, zfail, zpass } }
    }

    /// Sets the stencil actions for one kind of face.
    #[verifier::allow_in_spec]
    pub fn stencil_op_separate(
        &self,
        face: Culling,
        fail: StencilAction,
        zfail: StencilAction,
        zpass: StencilAction,
    ) -> (c: Call<'_>)
        ensures
            c.op.shape() == Shape::Nothing,
        returns
            (Call { context: self, op: Op::StencilOpSeparate { face, fail, zfail, zpass } }),
    {
        Call { context: self, op: Op::StencilOpSeparate { face, fail, zfail, zpass } }
    }

    /// Switches a vertex attribute array off.
    #[verifier::allow_in_spec]
    pub fn disable_vertex_attrib_array(&self, index: u32) -> (c: Call<'_>)
        ensures
            c.op.shape() == Shape::Nothing,
        returns
            (Call { context: self, op: Op::DisableVertexAttribArray { index } }),
    {
        Call { context: self, op: Op::DisableVertexAttribArray { index } }
    }

    /// Switches a vertex attribute array on.
    #[verifier::allow_in_spec]
    pub fn enable_vertex_attrib_array(&self, index: u32) -> (c: Call<'_>)
        ensures
            c.op.shape() == Shape::Nothing,
        returns
            (Call { context: self, op: Op::EnableVertexAttribArray { index } }),
    {
        Call { context: self, op: Op::EnableVertexAttribArray { index } }
    }

    /// Reads the address of a vertex attribute. The reply is read with
    /// `as_i64`.
    #[verifier::allow_in_spec]
    pub fn get_vertex_attrib_offset(&self, index: u32, pname: VertexAttrib) -> (c: Call<'_>)
        ensures
            c.op.shape() == Shape::I64,
        returns
            (Call { context: self, op: Op::GetVertexAttribOffset { index, pname } }),
    {
        Call { context: self, op: Op::GetVertexAttribOffset { index, pname } }
    }

    /// Sets a vertex attribute to one number.
    #[verifier::allow_in_spec]
    pub fn vertex_attrib_1f(&self, index: u32, v0: Float32) -> (c: Call<'_>)
        ensures
            c.op.shape() == Shape::Nothing,
        returns
            (Call { context: self, op: Op::VertexAttrib1f { index, v0 } }),
    {
        Call { context: self, op: Op::VertexAttrib1f { index, v0 } }
    }

    /// Sets a vertex attribute to two numbers.
    #[verifier::allow_in_spec]
    pub fn vertex_attrib_2f(&self, index: u32, v0: Float32, v1: Float32) -> (c: Call<'_>)
        ensures
            c.op.shape() == Shape::Nothing,
        returns
            (Call { context: self, op: Op::VertexAttrib2f { index, v0, v1 } }),
    {
        Call { context: self, op: Op::VertexAttrib2f { index, v0, v1 } }
    }

    /// Sets a vertex attribute to three numbers.
    #[verifier::allow_in_spec]
    pub fn vertex_attrib_3f(
        &self,
        index: u32,
        v0: Float32,
        v1: Float32,
        v2: Float32,
    ) -> (c: Call<'_>)
        ensures
            c.op.shape() == Shape::Nothing,
        returns
            (Call { context: self, op: Op::VertexAttrib3f { index, v0, v1, v2 } }),
    {
        Call { context: self, op: Op::VertexAttrib3f { index, v0, v1, v2 } }
    }

    /// Sets a vertex attribute to four numbers.
    #[verifier::allow_in_spec]
    pub fn vertex_attrib_4f(
        &self,
        index: u32,
        v0: Float32,
        v1: Float32,
        v2: Float32,
        v3: Float32,
    ) -> (c: Call<'_>)
        ensures
            c.op.shape() == Shape::Nothing,
        returns
            (Call { context: self, op: Op::VertexAttrib4f { index, v0, v1, v2, v3 } }),
    {
        Call { context: self, op: Op::VertexAttrib4f { index, v0, v1, v2, v3 } }
    }

    /// Sets a vertex attribute to one number of a list.
    #[verifier::allow_in_spec]
    pub fn vertex_attrib_1fv<'a>(&'a self, index: u32, value: &'a Vec<Float32>) -> (c: Call<'a>)
        ensures
            c.op.shape() == Shape::Nothing,
        returns
            (Call { context: self, op: Op::VertexAttrib1fv { index, value } }),
    {
        Call { context: self, op: Op::VertexAttrib1fv { index, value } }
    }

    /// Sets a vertex attribute to two numbers of a list.
    #[verifier::allow_in_spec]
    pub fn vertex_attrib_2fv<'a>(&'a self, index: u32, value: &'a Vec<Float32>) -> (c: Call<'a>)
        ensures
            c.op.shape() == Shape::Nothing,
        returns
            (Call { context: self, op: Op::VertexAttrib2fv { index, value } }),
    {
        Call { context: self, op: Op::VertexAttrib2fv { index, value } }
    }

    /// Sets a vertex attribute to three numbers of a list.
    #[verifier::allow_in_spec]
    pub fn vertex_attrib_3fv<'a>(&'a self, index: u32, value: &'a Vec<Float32>) -> (c: Call<'a>)
        ensures
            c.op.shape() == Shape::Nothing,
        returns
            (Call { context: self, op: Op::VertexAttrib3fv { index, value } }),
    {
        Call { context: self, op: Op::VertexAttrib3fv { index, value } }
    }

    /// Sets a vertex attribute to four numbers of a list.
    #[verifier::allow_in_spec]
    pub fn vertex_attrib_4fv<'a>(&'a self, index: u32, value: &'a Vec<Float32>) -> (c: Call<'a>)
        ensures
            c.op.shape() == Shape::Nothing,
        returns
            (Call { context: self, op: Op::VertexAttrib4fv { index, value } }),
    {
        Call { context: self, op: Op::VertexAttrib4fv { index, value } }
    }

    /// Lays out a vertex attribute in the bound array buffer.
    #[verifier::allow_in_spec]
    pub fn vertex_attrib_pointer(
        &self,
        index: u32,
        size: AttributeSize,
        attribute_type: AttributeType,
        normalized: bool,
        stride: u8,
        offset: i32,
    ) -> (c: Call<'_>)
        ensures
            c.op.shape() == Shape::Nothing,
        returns
            (Call {
                context: self,
                op: Op::VertexAttribPointer {
                    index,
                    size,
                    attribute_type,
                    normalized,
                    stride,
                    offset,
                },
            }),
    {
        Call {
            context: self,
            op: Op::VertexAttribPointer {
                index,
                size,
                attribute_type,
                normalized,
                stride,
                offset,
            },
        }
    }

    /// Sets an integer vertex attribute to four signed numbers.
    #[verifier::allow_in_spec]
    pub fn vertex_attrib_i_4i(
        &self,
        index: u32,
        v0: i32,
        v1: i32,
        v2: i32,
        v3: i32,
    ) -> (c: Call<'_>)
        ensures
            c.op.shape() == Shape::Nothing,
        returns
            (Call { context: self, op: Op::VertexAttribI4i { index, v0, v1, v2, v3 } }),
    {
        Call { context: self, op: Op::VertexAttribI4i { index, v0, v1, v2, v3 } }
    }

    /// Sets an integer vertex attribute to four unsigned numbers.
    #[verifier::allow_in_spec]
    pub fn vertex_attrib_i_4ui(
        &self,
        index: u32,
        v0: u32,
        v1: u32,
        v2: u32,
        v3: u32,
    ) -> (c: Call<'_>)
        ensures
            c.op.shape() == Shape::Nothing,
        returns
            (Call { context: self, op: Op::VertexAttribI4ui { index, v0, v1, v2, v3 } }),
    {
        Call { context: self, op: Op::VertexAttribI4ui { index, v0, v1, v2, v3 } }
    }

    /// Sets an integer vertex attribute to four signed numbers of a list.
    #[verifier::allow_in_spec]
    pub fn vertex_attrib_i_4iv<'a>(&'a self, index: u32, value: &'a Vec<i32>) -> (c: Call<'a>)
        ensures
            c.op.shape() == Shape::Nothing,
        returns
            (Call { context: self, op: Op::VertexAttribI4iv { index, value } }),
    {
        Call { context: self, op: Op::VertexAttribI4iv { index, value } }
    }

    /// Sets an integer vertex attribute to four unsigned numbers of a list.
    #[verifier::allow_in_spec]
    pub fn vertex_attrib_i_4uiv<'a>(&'a self, index: u32, value: &'a Vec<u32>) -> (c: Call<'a>)
        ensures
            c.op.shape() == Shape::Nothing,
        returns
            (Call { context: self, op: Op::VertexAttribI4uiv { index, value } }),
    {
        Call { context: self, op: Op::VertexAttribI4uiv { index, value } }
    }

    /// Lays out an integer vertex attribute in the bound array buffer.
    #[verifier::allow_in_spec]
    pub fn vertex_attrib_i_pointer(
        &self,
        index: u32,
        size: AttributeSize,
        data_type: AttributeType,
        stride: u32,
        offset: i64,
    ) -> (c: Call<'_>)
        ensures
            c.op.shape() == Shape::Nothing,
        returns
            (Call {
                context: self,
                op: Op::VertexAttribIPointer { index, size, data_type, stride, offset },
            }),
    {
        Call {
            context: self,
            op: Op::VertexAttribIPointer { index, size, data_type, stride, offset },
        }
    }

    /// Sets how often a vertex attribute advances while instances are drawn.
    #[verifier::allow_in_spec]
    pub fn vertex_attrib_divisor(&self, index: u32, divisor: u32) -> (c: Call<'_>)
        ensures
            c.op.shape() == Shape::Nothing,
        returns
            (Call { context: self, op: Op::VertexAttribDivisor { index, divisor } }),
    {
        Call { context: self, op: Op::VertexAttribDivisor { index, divisor } }
    }

    /// Clears a buffer to its preset value.
    #[verifier::allow_in_spec]
    pub fn clear(&self, mask: BufferBit) -> (c: Call<'_>)
        ensures
            c.op.shape() == Shape::Nothing,
        returns
            (Call { context: self, op: Op::Clear { mask } }),
    {
        Call { context: self, op: Op::Clear { mask } }
    }

    /// Draws primitives from array data.
    #[verifier::allow_in_spec]
    pub fn draw_arrays(&self, mode: Primitives, first: u32, count: u32) -> (c: Call<'_>)
        ensures
            c.op.shape() == Shape::Nothing,
        returns
            (Call { context: self, op: Op::DrawArrays { mode, first, count } }),
    {
        Call { context: self, op: Op::DrawArrays { mode, first, count } }
    }

    /// Draws primitives from element array data.
    #[verifier::allow_in_spec]
    pub fn draw_elements(
        &self,
        mode: Primitives,
        count: u32,
        data_type: DataType,
        offset: i64,
    ) -> (c: Call<'_>)
        ensures
            c.op.shape() == Shape::Nothing,
        returns
            (Call { context: self, op: Op::DrawElements { mode, count, data_type, offset } }),
    {
        Call { context: self, op: Op::DrawElements { mode, count, data_type, offset } }
    }

    /// Draws several instances of primitives from array data.
    #[verifier::allow_in_spec]
    pub fn draw_arrays_instanced(
        &self,
        mode: Primitives,
        first: i32,
        count: u32,
        instance_count: u32,
    ) -> (c: Call<'_>)
        ensures
            c.op.shape() == Shape::Nothing,
        returns
            (Call {
                context: self,
                op: Op::DrawArraysInstanced { mode, first, count, instance_count },
            }),
    {
        Call { context: self, op: Op::DrawArraysInstanced { mode, first, count, instance_count } }
    }

    /// Draws several instances of primitives from element array data.
    #[verifier::allow_in_spec]
    pub fn draw_elements_instanced(
        &self,
        mode: Primitives,
        count: u32,
        data_type: AttributeType,
        offset: i64,
        instance_count: u32,
    ) -> (c: Call<'_>)
        ensures
            c.op.shape() == Shape::Nothing,
        returns
            (Call {
                context: self,
                op: Op::DrawElementsInstanced {
                    mode,
                    count,
                    data_type,
                    offset,
                    instance_count,
                },
            }),
    {
        Call {
            context: self,
            op: Op::DrawElementsInstanced {
                mode,
                count,
                data_type,
                offset,
                instance_count,
            },
        }
    }

    /// Draws primitives from a range of element array data.
    #[verifier::allow_in_spec]
    pub fn draw_range_elements(
        &self,
        mode: Primitives,
        start: u32,
        end: u32,
        count: u32,
        data_type: AttributeType,
        offset: i64,
    ) -> (c: Call<'_>)
        ensures
            c.op.shape() == Shape::Nothing,
        returns
            (Call {
                context: self,
                op: Op::DrawRangeElements { mode, start, end, count, data_type, offset },
            }),
    {
        Call {
            context: self,
            op: Op::DrawRangeElements { mode, start, end, count, data_type, offset },
        }
    }

    /// Waits until all commands issued so far have been carried out.
    #[verifier::allow_in_spec]
    pub fn finish(&self) -> (c: Call<'_>)
        ensures
            c.op.shape() == Shape::Nothing,
        returns
            (Call { context: self, op: Op::Finish }),
    {
        Call { context: self, op: Op::Finish }
    }

    /// Empties the command buffers.
    #[verifier::allow_in_spec]
    pub fn flush(&self) -> (c: Call<'_>)
        ensures
            c.op.shape() == Shape::Nothing,
        returns
            (Call { context: self, op: Op::Flush }),
    {
        Call { context: self, op: Op::Flush }
    }

    /// Clears a buffer of the bound framebuffer to floating-point values.
    #[verifier::allow_in_spec]
    pub fn clear_buffer_fv<'a>(
        &'a self,
        buffer: ClearBuffer,
        drawbuffer: i32,
        values: &'a Vec<Float32>,
        src_offset: u32,
    ) -> (c: Call<'a>)
        ensures
            c.op.shape() == Shape::Nothing,
        returns
            (Call {
                context: self,
                op: Op::ClearBufferfv { buffer, drawbuffer, values, src_offset },
            }),
    {
        Call { context: self, op: Op::ClearBufferfv { buffer, drawbuffer, values, src_offset } }
    }

    /// Clears a buffer of the bound framebuffer to signed values.
    #[verifier::allow_in_spec]
    pub fn clear_buffer_iv<'a>(
        &'a self,
        buffer: ClearBuffer,
        drawbuffer: i32,
        values: &'a Vec<i32>,
        src_offset: u32,
    ) -> (c: Call<'a>)
        ensures
            c.op.shape() == Shape::Nothing,
        returns
            (Call {
                context: self,
                op: Op::ClearBufferiv { buffer, drawbuffer, values, src_offset },
            }),
    {
        Call { context: self, op: Op::ClearBufferiv { buffer, drawbuffer, values, src_offset } }
    }

    /// Clears a buffer of the bound framebuffer to unsigned values.
    #[verifier::allow_in_spec]
    pub fn clear_buffer_uiv<'a>(
        &'a self,
        buffer: ClearBuffer,
        drawbuffer: i32,
        values: &'a Vec<u32>,
        src_offset: u32,
    ) -> (c: Call<'a>)
        ensures
            c.op.shape() == Shape::Nothing,
        returns
            (Call {
                context: self,
                op: Op::ClearBufferuiv { buffer, drawbuffer, values, src_offset },
            }),
    {
        Call { context: self, op: Op::ClearBufferuiv { buffer, drawbuffer, values, src_offset } }
    }

    /// Clears depth and stencil of the bound framebuffer.
    #[verifier::allow_in_spec]
    pub fn clear_buffer_fi(
        &self,
        buffer: ClearBuffer,
        drawbuffer: i32,
        depth: Float32,
        stencil: i32,
    ) -> (c: Call<'_>)
        ensures
            c.op.shape() == Shape::Nothing,
        returns
            (Call { context: self, op: Op::ClearBufferfi { buffer, drawbuffer, depth, stencil } }),
    {
        Call { context: self, op: Op::ClearBufferfi { buffer, drawbuffer, depth, stencil } }
    }

    /// Sets a uniform to one floating-point number.
    #[verifier::allow_in_spec]
    pub fn uniform_1f(&self, location: &WebGLUniformLocation, v0: Float32) -> (c: Call<'_>)
        ensures
            c.op.shape() == Shape::Nothing,
        returns
            (Call { context: self, op: Op::Uniform1f { location: *location, v0 } }),
    {
        Call { context: self, op: Op::Uniform1f { location: *location, v0 } }
    }

    /// Sets a uniform to two floating-point numbers.
    #[verifier::allow_in_spec]
    pub fn uniform_2f(
        &self,
        location: &WebGLUniformLocation,
        v0: Float32,
        v1: Float32,
    ) -> (c: Call<'_>)
        ensures
            c.op.shape() == Shape::Nothing,
        returns
            (Call { context: self, op: Op::Uniform2f { location: *location, v0, v1 } }),
    {
        Call { context: self, op: Op::Uniform2f { location: *location, v0, v1 } }
    }

    /// Sets a uniform to three floating-point numbers.
    #[verifier::allow_in_spec]
    pub fn uniform_3f(
        &self,
        location: &WebGLUniformLocation,
        v0: Float32,
        v1: Float32,
        v2: Float32,
    ) -> (c: Call<'_>)
        ensures
            c.op.shape() == Shape::Nothing,
        returns
            (Call { context: self, op: Op::Uniform3f { location: *location, v0, v1, v2 } }),
    {
        Call { context: self, op: Op::Uniform3f { location: *location, v0, v1, v2 } }
    }

    /// Sets a uniform to four floating-point numbers.
    #[verifier::allow_in_spec]
    pub fn uniform_4f(
        &self,
        location: &WebGLUniformLocation,
        v0: Float32,
        v1: Float32,
        v2: Float32,
        v3: Float32,
    ) -> (c: Call<'_>)
        ensures
            c.op.shape() == Shape::Nothing,
        returns
            (Call { context: self, op: Op::Uniform4f { location: *location, v0, v1, v2, v3 } }),
    {
        Call { context: self, op: Op::Uniform4f { location: *location, v0, v1, v2, v3 } }
    }

    /// Sets a uniform to one signed number.
    #[verifier::allow_in_spec]
    pub fn uniform_1i(&self, location: &WebGLUniformLocation, v0: i32) -> (c: Call<'_>)
        ensures
            c.op.shape() == Shape::Nothing,
        returns
            (Call { context: self, op: Op::Uniform1i { location: *location, v0 } }),
    {
        Call { context: self, op: Op::Uniform1i { location: *location, v0 } }
    }

    /// Sets a uniform to two signed numbers.
    #[verifier::allow_in_spec]
    pub fn uniform_2i(&self, location: &WebGLUniformLocation, v0: i32, v1: i32) -> (c: Call<'_>)
        ensures
            c.op.shape() == Shape::Nothing,
        returns
            (Call { context: self, op: Op::Uniform2i { location: *location, v0, v1 } }),
    {
        Call { context: self, op: Op::Uniform2i { location: *location, v0, v1 } }
    }

    /// Sets a uniform to three signed numbers.
    #[verifier::allow_in_spec]
    pub fn uniform_3i(
        &self,
        location: &WebGLUniformLocation,
        v0: i32,
        v1: i32,
        v2: i32,
    ) -> (c: Call<'_>)
        ensures
            c.op.shape() == Shape::Nothing,
        returns
            (Call { context: self, op: Op::Uniform3i { location: *location, v0, v1, v2 } }),
    {
        Call { context: self, op: Op::Uniform3i { location: *location, v0, v1, v2 } }
    }

    /// Sets a uniform to four signed numbers.
    #[verifier::allow_in_spec]
    pub fn uniform_4i(
        &self,
        location: &WebGLUniformLocation,
        v0: i32,
        v1: i32,
        v2: i32,
        v3: i32,
    ) -> (c: Call<'_>)
        ensures
            c.op.shape() == Shape::Nothing,
        returns
            (Call { context: self, op: Op::Uniform4i { location: *location, v0, v1, v2, v3 } }),
    {
        Call { context: self, op: Op::Uniform4i { location: *location, v0, v1, v2, v3 } }
    }

    /// Sets a uniform to one unsigned number.
    #[verifier::allow_in_spec]
    pub fn uniform_1ui(&self, location: &WebGLUniformLocation, v0: u32) -> (c: Call<'_>)
        ensures
            c.op.shape() == Shape::Nothing,
        returns
            (Call { context: self, op: Op::Uniform1ui { location: *location, v0 } }),
    {
        Call { context: self, op: Op::Uniform1ui { location: *location, v0 } }
    }

    /// Sets a uniform to two unsigned numbers.
    #[verifier::allow_in_spec]
    pub fn uniform_2ui(&self, location: &WebGLUniformLocation, v0: u32, v1: u32) -> (c: Call<'_>)
        ensures
            c.op.shape() == Shape::Nothing,
        returns
            (Call { context: self, op: Op::Uniform2ui { location: *location, v0, v1 } }),
    {
        Call { context: self, op: Op::Uniform2ui { location: *location, v0, v1 } }
    }

    /// Sets a uniform to three unsigned numbers.
    #[verifier::allow_in_spec]
    pub fn uniform_3ui(
        &self,
        location: &WebGLUniformLocation,
        v0: u32,
        v1: u32,
        v2: u32,
    ) -> (c: Call<'_>)
        ensures
            c.op.shape() == Shape::Nothing,
        returns
            (Call { context: self, op: Op::Uniform3ui { location: *location, v0, v1, v2 } }),
    {
        Call { context: self, op: Op::Uniform3ui { location: *location, v0, v1, v2 } }
    }

    /// Sets a uniform to four unsigned numbers.
    #[verifier::allow_in_spec]
    pub fn uniform_4ui(
        &self,
        location: &WebGLUniformLocation,
        v0: u32,
        v1: u32,
        v2: u32,
        v3: u32,
    ) -> (c: Call<'_>)
        ensures
            c.op.shape() == Shape::Nothing,
        returns
            (Call { context: self, op: Op::Uniform4ui { location: *location, v0, v1, v2, v3 } }),
    {
        Call { context: self, op: Op::Uniform4ui { location: *location, v0, v1, v2, v3 } }
    }

    /// Sets a uniform, or an array of them, to vectors of one floating-point
    /// number.
    #[verifier::allow_in_spec]
    pub fn uniform_1fv<'a>(
        &'a self,
        location: &WebGLUniformLocation,
        value: &'a Vec<Float32>,
    ) -> (c: Call<'a>)
        ensures
            c.op.shape() == Shape::Nothing,
        returns
            (Call { context: self, op: Op::Uniform1fv { location: *location, value } }),
    {
        Call { context: self, op: Op::Uniform1fv { location: *location, value } }
    }

    /// Sets a uniform, or an array of them, to vectors of two floating-point
    /// numbers.
    #[verifier::allow_in_spec]
    pub fn uniform_2fv<'a>(
        &'a self,
        location: &WebGLUniformLocation,
        value: &'a Vec<Float32>,
    ) -> (c: Call<'a>)
        ensures
            c.op.shape() == Shape::Nothing,
        returns
            (Call { context: self, op: Op::Uniform2fv { location: *location, value } }),
    {
        Call { context: self, op: Op::Uniform2fv { location: *location, value } }
    }

    /// Sets a uniform, or an array of them, to vectors of three floating-point
    /// numbers.
    #[verifier::allow_in_spec]
    pub fn uniform_3fv<'a>(
        &'a self,
        location: &WebGLUniformLocation,
        value: &'a Vec<Float32>,
    ) -> (c: Call<'a>)
        ensures
            c.op.shape() == Shape::Nothing,
        returns
            (Call { context: self, op: Op::Uniform3fv { location: *location, value } }),
    {
        Call { context: self, op: Op::Uniform3fv { location: *location, value } }
    }

    /// Sets a uniform, or an array of them, to vectors of four floating-point
    /// numbers.
    #[verifier::allow_in_spec]
    pub fn uniform_4fv<'a>(
        &'a self,
        location: &WebGLUniformLocation,
        value: &'a Vec<Float32>,
    ) -> (c: Call<'a>)
        ensures
            c.op.shape() == Shape::Nothing,
        returns
            (Call { context: self, op: Op::Uniform4fv { location: *location, value } }),
    {
        Call { context: self, op: Op::Uniform4fv { location: *location, value } }
    }

    /// Sets a uniform, or an array of them, to vectors of one signed number.
    #[verifier::allow_in_spec]
    pub fn uniform_1iv<'a>(
        &'a self,
        location: &WebGLUniformLocation,
        value: &'a Vec<i32>,
    ) -> (c: Call<'a>)
        ensures
            c.op.shape() == Shape::Nothing,
        returns
            (Call { context: self, op: Op::Uniform1iv { location: *location, value } }),
    {
        Call { context: self, op: Op::Uniform1iv { location: *location, value } }
    }

    /// Sets a uniform, or an array of them, to vectors of two signed numbers.
    #[verifier::allow_in_spec]
    pub fn uniform_2iv<'a>(
        &'a self,
        location: &WebGLUniformLocation,
        value: &'a Vec<i32>,
    ) -> (c: Call<'a>)
        ensures
            c.op.shape() == Shape::Nothing,
        returns
            (Call { context: self, op: Op::Uniform2iv { location: *location, value } }),
    {
        Call { context: self, op: Op::Uniform2iv { location: *location, value } }
    }

    /// Sets a uniform, or an array of them, to vectors of three signed numbers.
    #[verifier::allow_in_spec]
    pub fn uniform_3iv<'a>(
        &'a self,
        location: &WebGLUniformLocation,
        value: &'a Vec<i32>,
    ) -> (c: Call<'a>)
        ensures
            c.op.shape() == Shape::Nothing,
        returns
            (Call { context: self, op: Op::Uniform3iv { location: *location, value } }),
    {
        Call { context: self, op: Op::Uniform3iv { location: *location, value } }
    }

    /// Sets a uniform, or an array of them, to vectors of four signed numbers.
    #[verifier::allow_in_spec]
    pub fn uniform_4iv<'a>(
        &'a self,
        location: &WebGLUniformLocation,
        value: &'a Vec<i32>,
    ) -> (c: Call<'a>)
        ensures
            c.op.shape() == Shape::Nothing,
        returns
            (Call { context: self, op: Op::Uniform4iv { location: *location, value } }),
    {
        Call { context: self, op: Op::Uniform4iv { location: *location, value } }
    }

    /// Sets a uniform, or an array of them, to vectors of one unsigned number.
    #[verifier::allow_in_spec]
    pub fn uniform_1uiv<'a>(
        &'a self,
        location: &WebGLUniformLocation,
        value: &'a Vec<u32>,
    ) -> (c: Call<'a>)
        ensures
            c.op.shape() == Shape::Nothing,
        returns
            (Call { context: self, op: Op::Uniform1uiv { location: *location, value } }),
    {
        Call { context: self, op: Op::Uniform1uiv { location: *location, value } }
    }

    /// Sets a uniform, or an array of them, to vectors of two unsigned numbers.
    #[verifier::allow_in_spec]
    pub fn uniform_2uiv<'a>(
        &'a self,
        location: &WebGLUniformLocation,
        value: &'a Vec<u32>,
    ) -> (c: Call<'a>)
        ensures
            c.op.shape() == Shape::Nothing,
        returns
            (Call { context: self, op: Op::Uniform2uiv { location: *location, value } }),
    {
        Call { context: self, op: Op::Uniform2uiv { location: *location, value } }
    }

    /// Sets a uniform, or an array of them, to vectors of three unsigned
    /// numbers.
    #[verifier::allow_in_spec]
    pub fn uniform_3uiv<'a>(
        &'a self,
        location: &WebGLUniformLocation,
        value: &'a Vec<u32>,
    ) -> (c: Call<'a>)
        ensures
            c.op.shape() == Shape::Nothing,
        returns
            (Call { context: self, op: Op::Uniform3uiv { location: *location, value } }),
    {
        Call { context: self, op: Op::Uniform3uiv { location: *location, value } }
    }

    /// Sets a uniform, or an array of them, to vectors of four unsigned
    /// numbers.
    #[verifier::allow_in_spec]
    pub fn uniform_4uiv<'a>(
        &'a self,
        location: &WebGLUniformLocation,
        value: &'a Vec<u32>,
    ) -> (c: Call<'a>)
        ensures
            c.op.shape() == Shape::Nothing,
        returns
            (Call { context: self, op: Op::Uniform4uiv { location: *location, value } }),
    {
        Call { context: self, op: Op::Uniform4uiv { location: *location, value } }
    }

    /// Sets a uniform to matrices of 2 by 2 numbers.
    #[verifier::allow_in_spec]
    pub fn uniform_matrix_2fv<'a>(
        &'a self,
        location: &WebGLUniformLocation,
        transpose: bool,
        value: &'a Vec<Float32>,
    ) -> (c: Call<'a>)
        ensures
            c.op.shape() == Shape::Nothing,
        returns
            (Call {
                context: self,
                op: Op::UniformMatrix2fv { location: *location, transpose, value },
            }),
    {
        Call { context: self, op: Op::UniformMatrix2fv { location: *location, transpose, value } }
    }

    /// Sets a uniform to matrices of 3 by 3 numbers.
    #[verifier::allow_in_spec]
    pub fn uniform_matrix_3fv<'a>(
        &'a self,
        location: &WebGLUniformLocation,
        transpose: bool,
        value: &'a Vec<Float32>,
    ) -> (c: Call<'a>)
        ensures
            c.op.shape() == Shape::Nothing,
        returns
            (Call {
                context: self,
                op: Op::UniformMatrix3fv { location: *location, transpose, value },
            }),
    {
        Call { context: self, op: Op::UniformMatrix3fv { location: *location, transpose, value } }
    }

    /// Sets a uniform to matrices of 4 by 4 numbers.
    #[verifier::allow_in_spec]
    pub fn uniform_matrix_4fv<'a>(
        &'a self,
        location: &WebGLUniformLocation,
        transpose: bool,
        value: &'a Vec<Float32>,
    ) -> (c: Call<'a>)
        ensures
            c.op.shape() == Shape::Nothing,
        returns
            (Call {
                context: self,
                op: Op::UniformMatrix4fv { location: *location, transpose, value },
            }),
    {
        Call { context: self, op: Op::UniformMatrix4fv { location: *location, transpose, value } }
    }

    /// Sets a uniform to matrices of 2 columns and 3 rows.
    #[verifier::allow_in_spec]
    pub fn uniform_matrix_2x3fv<'a>(
        &'a self,
        location: &WebGLUniformLocation,
        transpose: bool,
        data: &'a Vec<Float32>,
        src_offset: u32,
        src_length: u32,
    ) -> (c: Call<'a>)
        ensures
            c.op.shape() == Shape::Nothing,
        returns
            (Call {
                context: self,
                op: Op::UniformMatrix2x3fv {
                    location: *location,
                    transpose,
                    data,
                    src_offset,
                    src_length,
                },
            }),
    {
        Call {
            context: self,
            op: Op::UniformMatrix2x3fv {
                location: *location,
                transpose,
                data,
                src_offset,
                src_length,
            },
        }
    }

    /// Sets a uniform to matrices of 2 columns and 4 rows.
    #[verifier::allow_in_spec]
    pub fn uniform_matrix_2x4fv<'a>(
        &'a self,
        location: &WebGLUniformLocation,
        transpose: bool,
        data: &'a Vec<Float32>,
        src_offset: u32,
        src_length: u32,
    ) -> (c: Call<'a>)
        ensures
            c.op.shape() == Shape::Nothing,
        returns
            (Call {
                context: self,
                op: Op::UniformMatrix2x4fv {
                    location: *location,
                    transpose,
                    data,
                    src_offset,
                    src_length,
                },
            }),
    {
        Call {
            context: self,
            op: Op::UniformMatrix2x4fv {
                location: *location,
                transpose,
                data,
                src_offset,
                src_length,
            },
        }
    }

    /// Sets a uniform to matrices of 3 columns and 2 rows.
    #[verifier::allow_in_spec]
    pub fn uniform_matrix_3x2fv<'a>(
        &'a self,
        location: &WebGLUniformLocation,
        transpose: bool,
        data: &'a Vec<Float32>,
        src_offset: u32,
        src_length: u32,
    ) -> (c: Call<'a>)
        ensures
            c.op.shape() == Shape::Nothing,
        returns
            (Call {
                context: self,
                op: Op::UniformMatrix3x2fv {
                    location: *location,
                    transpose,
                    data,
                    src_offset,
                    src_length,
                },
            }),
    {
        Call {
            context: self,
            op: Op::UniformMatrix3x2fv {
                location: *location,
                transpose,
                data,
                src_offset,
                src_length,
            },
        }
    }

    /// Sets a uniform to matrices of 3 columns and 4 rows.
    #[verifier::allow_in_spec]
    pub fn uniform_matrix_3x4fv<'a>(
        &'a self,
        location: &WebGLUniformLocation,
        transpose: bool,
        data: &'a Vec<Float32>,
        src_offset: u32,
        src_length: u32,
    ) -> (c: Call<'a>)
        ensures
            c.op.shape() == Shape::Nothing,
        returns
            (Call {
                context: self,
                op: Op::UniformMatrix3x4fv {
                    location: *location,
                    transpose,
                    data,
                    src_offset,
                    src_length,
                },
            }),
    {
        Call {
            context: self,
            op: Op::UniformMatrix3x4fv {
                location: *location,
                transpose,
                data,
                src_offset,
                src_length,
            },
        }
    }

    /// Sets a uniform to matrices of 4 columns and 2 rows.
    #[verifier::allow_in_spec]
    pub fn uniform_matrix_4x2fv<'a>(
        &'a self,
        location: &WebGLUniformLocation,
        transpose: bool,
        data: &'a Vec<Float32>,
        src_offset: u32,
        src_length: u32,
    ) -> (c: Call<'a>)
        ensures
            c.op.shape() == Shape::Nothing,
        returns
            (Call {
                context: self,
                op: Op::UniformMatrix4x2fv {
                    location: *location,
                    transpose,
                    data,
                    src_offset,
                    src_length,
                },
            }),
    {
        Call {
            context: self,
            op: Op::UniformMatrix4x2fv {
                location: *location,
                transpose,
                data,
                src_offset,
                src_length,
            },
        }
    }

    /// Sets a uniform to matrices of 4 columns and 3 rows.
    #[verifier::allow_in_spec]
    pub fn uniform_matrix_4x3fv<'a>(
        &'a self,
        location: &WebGLUniformLocation,
        transpose: bool,
        data: &'a Vec<Float32>,
        src_offset: u32,
        src_length: u32,
    ) -> (c: Call<'a>)
        ensures
            c.op.shape() == Shape::Nothing,
        returns
            (Call {
                context: self,
                op: Op::UniformMatrix4x3fv {
                    location: *location,
                    transpose,
                    data,
                    src_offset,
                    src_length,
                },
            }),
    {
        Call {
            context: self,
            op: Op::UniformMatrix4x3fv {
                location: *location,
                transpose,
                data,
                src_offset,
                src_length,
            },
        }
    }
}

} // verus!
