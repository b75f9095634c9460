//! The arrays of numbers that can be handed to the context: as the data of a
//! buffer, as the pixels of an image, and as the place that pixels are read
//! back into. Each element type has its own entry in the context; the type of
//! the array picks it.
use vstd::prelude::*;
use crate::call::{Call, Op};
use crate::glenum::{
    BufferKind, DataHint, PixelCopyFormat, PixelReadFormat, PixelType, TextureBindPoint,
};
use crate::number::{Float32, Float64};
use crate::payload::{overwrite, Elements, Payload};
use crate::rendering_context::WebGL2RenderingContext;
use crate::reply::{ForeignError, Reply};

verus! {

/// An array of numbers that can be uploaded as the data of a buffer.
pub trait Buffer: Sized {
    /// The array as the payload of a call.
    spec fn payload(&self) -> Payload<'_>;

    /// Creates the data store of the buffer bound to `target`, as large as the
    /// array, and fills it with the array. The context does not say whether it
    /// took the data: its error state tells.
    fn buffer_data<'a>(
        &'a self,
        context: &'a WebGL2RenderingContext,
        target: BufferKind,
        usage: DataHint,
    ) -> (c: Call<'a>)
        ensures
            c.context == context,
            c.op == (Op::BufferData {
                target,
                data: self.payload(),
                usage,
            }),
    ;

    /// Replaces the data of the buffer bound to `target`, from `offset` bytes
    /// on, with the array. The context does not say whether it took the data:
    /// its error state tells.
    fn buffer_sub_data<'a>(
        &'a self,
        context: &'a WebGL2RenderingContext,
        target: BufferKind,
        offset: i64,
    ) -> (c: Call<'a>)
        ensures
            c.context == context,
            c.op == (Op::BufferSubData {
                target,
                offset,
                data: self.payload(),
            }),
    ;
}

/// An array of numbers that can be uploaded as the pixels of an image, and that
/// pixels can be read back into.
pub trait Image: Buffer {
    /// Loads the array as a two-dimensional texture image. The image has no
    /// border. Whether the array suits the format is for the context to say:
    /// the reply to the call is a failure where it does not.
    fn tex_image_2d<'a>(
        &'a self,
        context: &'a WebGL2RenderingContext,
        target: TextureBindPoint,
        level: u32,
        internalformat: PixelCopyFormat,
        width: u32,
        height: u32,
        format: PixelCopyFormat,
        pixel_type: PixelType,
    ) -> (c: Call<'a>)
        ensures
            c.context == context,
            c.op == (Op::TexImage2D {
                target,
                level,
                internalformat,
                width,
                height,
                border: 0,
                format,
                pixel_type,
                data: self.payload(),
            }),
    ;

    /// Loads the array as a sub-rectangle of the current texture image. Whether
    /// the array suits the format is for the context to say: the reply to the
    /// call is a failure where it does not.
    fn tex_sub_image_2d<'a>(
        &'a self,
        context: &'a WebGL2RenderingContext,
        target: TextureBindPoint,
        level: u32,
        xoffset: u32,
        yoffset: u32,
        width: u32,
        height: u32,
        format: PixelCopyFormat,
        pixel_type: PixelType,
    ) -> (c: Call<'a>)
        ensures
            c.context == context,
            c.op == (Op::TexSubImage2D {
                target,
                level,
                xoffset,
                yoffset,
                width,
                height,
                format,
                pixel_type,
                data: self.payload(),
            }),
    ;

    /// Asks for a block of pixels of the current color framebuffer. The call
    /// lends the array out as the place to read into; `store_pixels` takes the
    /// reply and fills the array.
    fn read_pixels<'a>(
        &'a self,
        context: &'a WebGL2RenderingContext,
        x: u32,
        y: u32,
        width: u32,
        height: u32,
        format: PixelReadFormat,
        pixel_type: PixelType,
    ) -> (c: Call<'a>)
        ensures
            c.context == context,
            c.op == (Op::ReadPixels {
                x,
                y,
                width,
                height,
                format,
                pixel_type,
                pixels: self.payload(),
            }),
    ;

    /// Takes the reply to a call of `read_pixels` and overwrites the array with
    /// the numbers that the context handed back. It succeeds exactly when the
    /// reply holds an array of this element type and this length; else the
    /// array keeps what it held, and the failure is the one that the context
    /// reported, where it reported one.
    fn store_pixels(&mut self, reply: &Reply) -> (r: Result<(), ForeignError>)
        ensures
            r is Ok <==> reply is Data && reply->Data_0.element() == old(self).payload().element()
                && reply->Data_0.values().len() == old(self).payload().values().len(),
            r is Ok ==> final(self).payload().values() == reply->Data_0.values(),
            r is Err ==> *final(self) == *old(self),
            final(self).payload().element() == old(self).payload().element(),
            final(self).payload().values().len() == old(self).payload().values().len(),
            reply is Thrown ==> r is Err && r->Err_0 is Thrown && r->Err_0->Thrown_0@
                == reply->Thrown_0@,
            r is Err && !(reply is Thrown) ==> r->Err_0 is Unexpected,
    ;
}

impl Buffer for Vec<u8> {
    open spec fn payload(&self) -> Payload<'_> {
        Payload::Uint8(self)
    }

    fn buffer_data<'a>(
        &'a self,
        context: &'a WebGL2RenderingContext,
        target: BufferKind,
        usage: DataHint,
    ) -> (c: Call<'a>) {
        Call {
            context,
            op: Op::BufferData {
                target,
                data: Payload::Uint8(self),
                usage,
            },
        }
    }

    fn buffer_sub_data<'a>(
        &'a self,
        context: &'a WebGL2RenderingContext,
        target: BufferKind,
        offset: i64,
    ) -> (c: Call<'a>) {
        Call {
            context,
            op: Op::BufferSubData {
                target,
                offset,
                data: Payload::Uint8(self),
            },
        }
    }
}

impl Image for Vec<u8> {
    fn tex_image_2d<'a>(
        &'a self,
        context: &'a WebGL2RenderingContext,
        target: TextureBindPoint,
        level: u32,
        internalformat: PixelCopyFormat,
        width: u32,
        height: u32,
        format: PixelCopyFormat,
        pixel_type: PixelType,
    ) -> (c: Call<'a>) {
        Call {
            context,
            op: Op::TexImage2D {
                target,
                level,
                internalformat,
                width,
                height,
                border: 0,
                format,
                pixel_type,
                data: Payload::Uint8(self),
            },
        }
    }

    fn tex_sub_image_2d<'a>(
        &'a self,
        context: &'a WebGL2RenderingContext,
        target: TextureBindPoint,
        level: u32,
        xoffset: u32,
        yoffset: u32,
        width: u32,
        height: u32,
        format: PixelCopyFormat,
        pixel_type: PixelType,
    ) -> (c: Call<'a>) {
        Call {
            context,
            op: Op::TexSubImage2D {
                target,
                level,
                xoffset,
                yoffset,
                width,
                height,
                format,
                pixel_type,
                data: Payload::Uint8(self),
            },
        }
    }

    fn read_pixels<'a>(
        &'a self,
        context: &'a WebGL2RenderingContext,
        x: u32,
        y: u32,
        width: u32,
        height: u32,
        format: PixelReadFormat,
        pixel_type: PixelType,
    ) -> (c: Call<'a>) {
        Call {
            context,
            op: Op::ReadPixels {
                x,
                y,
                width,
                height,
                format,
                pixel_type,
                pixels: Payload::Uint8(self),
            },
        }
    }

    fn store_pixels(&mut self, reply: &Reply) -> (r: Result<(), ForeignError>) {
        match reply {
            Reply::Data(Elements::Uint8(pixels)) => {
                if pixels.len() == self.len() {
                    overwrite(self, pixels);
                    Ok(())
                } else {
                    Err(ForeignError::Unexpected)
                }
            },
            Reply::Thrown(message) => Err(ForeignError::Thrown(message.clone())),
            _ => Err(ForeignError::Unexpected),
        }
    }
}

impl Buffer for Vec<i8> {
    open spec fn payload(&self) -> Payload<'_> {
        Payload::Int8(self)
    }

    fn buffer_data<'a>(
        &'a self,
        context: &'a WebGL2RenderingContext,
        target: BufferKind,
        usage: DataHint,
    ) -> (c: Call<'a>) {
        Call {
            context,
            op: Op::BufferData {
                target,
                data: Payload::Int8(self),
                usage,
            },
        }
    }

    fn buffer_sub_data<'a>(
        &'a self,
        context: &'a WebGL2RenderingContext,
        target: BufferKind,
        offset: i64,
    ) -> (c: Call<'a>) {
        Call {
            context,
            op: Op::BufferSubData {
                target,
                offset,
                data: Payload::Int8(self),
            },
        }
    }
}

impl Image for Vec<i8> {
    fn tex_image_2d<'a>(
        &'a self,
        context: &'a WebGL2RenderingContext,
        target: TextureBindPoint,
        level: u32,
        internalformat: PixelCopyFormat,
        width: u32,
        height: u32,
        format: PixelCopyFormat,
        pixel_type: PixelType,
    ) -> (c: Call<'a>) {
        Call {
            context,
            op: Op::TexImage2D {
                target,
                level,
                internalformat,
                width,
                height,
                border: 0,
                format,
                pixel_type,
                data: Payload::Int8(self),
            },
        }
    }

    fn tex_sub_image_2d<'a>(
        &'a self,
        context: &'a WebGL2RenderingContext,
        target: TextureBindPoint,
        level: u32,
        xoffset: u32,
        yoffset: u32,
        width: u32,
        height: u32,
        format: PixelCopyFormat,
        pixel_type: PixelType,
    ) -> (c: Call<'a>) {
        Call {
            context,
            op: Op::TexSubImage2D {
                target,
                level,
                xoffset,
                yoffset,
                width,
                height,
                format,
                pixel_type,
                data: Payload::Int8(self),
            },
        }
    }

    fn read_pixels<'a>(
        &'a self,
        context: &'a WebGL2RenderingContext,
        x: u32,
        y: u32,
        width: u32,
        height: u32,
        format: PixelReadFormat,
        pixel_type: PixelType,
    ) -> (c: Call<'a>) {
        Call {
            context,
            op: Op::ReadPixels {
                x,
                y,
                width,
                height,
                format,
                pixel_type,
                pixels: Payload::Int8(self),
            },
        }
    }

    fn store_pixels(&mut self, reply: &Reply) -> (r: Result<(), ForeignError>) {
        match reply {
            Reply::Data(Elements::Int8(pixels)) => {
                if pixels.len() == self.len() {
                    overwrite(self, pixels);
                    Ok(())
                } else {
                    Err(ForeignError::Unexpected)
                }
            },
            Reply::Thrown(message) => Err(ForeignError::Thrown(message.clone())),
            _ => Err(ForeignError::Unexpected),
        }
    }
}

impl Buffer for Vec<u16> {
    open spec fn payload(&self) -> Payload<'_> {
        Payload::Uint16(self)
    }

    fn buffer_data<'a>(
        &'a self,
        context: &'a WebGL2RenderingContext,
        target: BufferKind,
        usage: DataHint,
    ) -> (c: Call<'a>) {
        Call {
            context,
            op: Op::BufferData {
                target,
                data: Payload::Uint16(self),
                usage,
            },
        }
    }

    fn buffer_sub_data<'a>(
        &'a self,
        context: &'a WebGL2RenderingContext,
        target: BufferKind,
        offset: i64,
    ) -> (c: Call<'a>) {
        Call {
            context,
            op: Op::BufferSubData {
                target,
                offset,
                data: Payload::Uint16(self),
            },
        }
    }
}

impl Image for Vec<u16> {
    fn tex_image_2d<'a>(
        &'a self,
        context: &'a WebGL2RenderingContext,
        target: TextureBindPoint,
        level: u32,
        internalformat: PixelCopyFormat,
        width: u32,
        height: u32,
        format: PixelCopyFormat,
        pixel_type: PixelType,
    ) -> (c: Call<'a>) {
        Call {
            context,
            op: Op::TexImage2D {
                target,
                level,
                internalformat,
                width,
                height,
                border: 0,
                format,
                pixel_type,
                data: Payload::Uint16(self),
            },
        }
    }

    fn tex_sub_image_2d<'a>(
        &'a self,
        context: &'a WebGL2RenderingContext,
        target: TextureBindPoint,
        level: u32,
        xoffset: u32,
        yoffset: u32,
        width: u32,
        height: u32,
        format: PixelCopyFormat,
        pixel_type: PixelType,
    ) -> (c: Call<'a>) {
        Call {
            context,
            op: Op::TexSubImage2D {
                target,
                level,
                xoffset,
                yoffset,
                width,
                height,
                format,
                pixel_type,
                data: Payload::Uint16(self),
            },
        }
    }

    fn read_pixels<'a>(
        &'a self,
        context: &'a WebGL2RenderingContext,
        x: u32,
        y: u32,
        width: u32,
        height: u32,
        format: PixelReadFormat,
        pixel_type: PixelType,
    ) -> (c: Call<'a>) {
        Call {
            context,
            op: Op::ReadPixels {
                x,
                y,
                width,
                height,
                format,
                pixel_type,
                pixels: Payload::Uint16(self),
            },
        }
    }

    fn store_pixels(&mut self, reply: &Reply) -> (r: Result<(), ForeignError>) {
        match reply {
            Reply::Data(Elements::Uint16(pixels)) => {
                if pixels.len() == self.len() {
                    overwrite(self, pixels);
                    Ok(())
                } else {
                    Err(ForeignError::Unexpected)
                }
            },
            Reply::Thrown(message) => Err(ForeignError::Thrown(message.clone())),
            _ => Err(ForeignError::Unexpected),
        }
    }
}

impl Buffer for Vec<i16> {
    open spec fn payload(&self) -> Payload<'_> {
        Payload::Int16(self)
    }

    fn buffer_data<'a>(
        &'a self,
        context: &'a WebGL2RenderingContext,
        target: BufferKind,
        usage: DataHint,
    ) -> (c: Call<'a>) {
        Call {
            context,
            op: Op::BufferData {
                target,
                data: Payload::Int16(self),
                usage,
            },
        }
    }

    fn buffer_sub_data<'a>(
        &'a self,
        context: &'a WebGL2RenderingContext,
        target: BufferKind,
        offset: i64,
    ) -> (c: Call<'a>) {
        Call {
            context,
            op: Op::BufferSubData {
                target,
                offset,
                data: Payload::Int16(self),
            },
        }
    }
}

impl Image for Vec<i16> {
    fn tex_image_2d<'a>(
        &'a self,
        context: &'a WebGL2RenderingContext,
        target: TextureBindPoint,
        level: u32,
        internalformat: PixelCopyFormat,
        width: u32,
        height: u32,
        format: PixelCopyFormat,
        pixel_type: PixelType,
    ) -> (c: Call<'a>) {
        Call {
            context,
            op: Op::TexImage2D {
                target,
                level,
                internalformat,
                width,
                height,
                border: 0,
                format,
                pixel_type,
                data: Payload::Int16(self),
            },
        }
    }

    fn tex_sub_image_2d<'a>(
        &'a self,
        context: &'a WebGL2RenderingContext,
        target: TextureBindPoint,
        level: u32,
        xoffset: u32,
        yoffset: u32,
        width: u32,
        height: u32,
        format: PixelCopyFormat,
        pixel_type: PixelType,
    ) -> (c: Call<'a>) {
        Call {
            context,
            op: Op::TexSubImage2D {
                target,
                level,
                xoffset,
                yoffset,
                width,
                height,
                format,
                pixel_type,
                data: Payload::Int16(self),
            },
        }
    }

    fn read_pixels<'a>(
        &'a self,
        context: &'a WebGL2RenderingContext,
        x: u32,
        y: u32,
        width: u32,
        height: u32,
        format: PixelReadFormat,
        pixel_type: PixelType,
    ) -> (c: Call<'a>) {
        Call {
            context,
            op: Op::ReadPixels {
                x,
                y,
                width,
                height,
                format,
                pixel_type,
                pixels: Payload::Int16(self),
            },
        }
    }

    fn store_pixels(&mut self, reply: &Reply) -> (r: Result<(), ForeignError>) {
        match reply {
            Reply::Data(Elements::Int16(pixels)) => {
                if pixels.len() == self.len() {
                    overwrite(self, pixels);
                    Ok(())
                } else {
                    Err(ForeignError::Unexpected)
                }
            },
            Reply::Thrown(message) => Err(ForeignError::Thrown(message.clone())),
            _ => Err(ForeignError::Unexpected),
        }
    }
}

impl Buffer for Vec<u32> {
    open spec fn payload(&self) -> Payload<'_> {
        Payload::Uint32(self)
    }

    fn buffer_data<'a>(
        &'a self,
        context: &'a WebGL2RenderingContext,
        target: BufferKind,
        usage: DataHint,
    ) -> (c: Call<'a>) {
        Call {
            context,
            op: Op::BufferData {
                target,
                data: Payload::Uint32(self),
                usage,
            },
        }
    }

    fn buffer_sub_data<'a>(
        &'a self,
        context: &'a WebGL2RenderingContext,
        target: BufferKind,
        offset: i64,
    ) -> (c: Call<'a>) {
        Call {
            context,
            op: Op::BufferSubData {
                target,
                offset,
                data: Payload::Uint32(self),
            },
        }
    }
}

impl Image for Vec<u32> {
    fn tex_image_2d<'a>(
        &'a self,
        context: &'a WebGL2RenderingContext,
        target: TextureBindPoint,
        level: u32,
        internalformat: PixelCopyFormat,
        width: u32,
        height: u32,
        format: PixelCopyFormat,
        pixel_type: PixelType,
    ) -> (c: Call<'a>) {
        Call {
            context,
            op: Op::TexImage2D {
                target,
                level,
                internalformat,
                width,
                height,
                border: 0,
                format,
                pixel_type,
                data: Payload::Uint32(self),
            },
        }
    }

    fn tex_sub_image_2d<'a>(
        &'a self,
        context: &'a WebGL2RenderingContext,
        target: TextureBindPoint,
        level: u32,
        xoffset: u32,
        yoffset: u32,
        width: u32,
        height: u32,
        format: PixelCopyFormat,
        pixel_type: PixelType,
    ) -> (c: Call<'a>) {
        Call {
            context,
            op: Op::TexSubImage2D {
                target,
                level,
                xoffset,
                yoffset,
                width,
                height,
                format,
                pixel_type,
                data: Payload::Uint32(self),
            },
        }
    }

    fn read_pixels<'a>(
        &'a self,
        context: &'a WebGL2RenderingContext,
        x: u32,
        y: u32,
        width: u32,
        height: u32,
        format: PixelReadFormat,
        pixel_type: PixelType,
    ) -> (c: Call<'a>) {
        Call {
            context,
            op: Op::ReadPixels {
                x,
                y,
                width,
                height,
                format,
                pixel_type,
                pixels: Payload::Uint32(self),
            },
        }
    }

    fn store_pixels(&mut self, reply: &Reply) -> (r: Result<(), ForeignError>) {
        match reply {
            Reply::Data(Elements::Uint32(pixels)) => {
                if pixels.len() == self.len() {
                    overwrite(self, pixels);
                    Ok(())
                } else {
                    Err(ForeignError::Unexpected)
                }
            },
            Reply::Thrown(message) => Err(ForeignError::Thrown(message.clone())),
            _ => Err(ForeignError::Unexpected),
        }
    }
}

impl Buffer for Vec<i32> {
    open spec fn payload(&self) -> Payload<'_> {
        Payload::Int32(self)
    }

    fn buffer_data<'a>(
        &'a self,
        context: &'a WebGL2RenderingContext,
        target: BufferKind,
        usage: DataHint,
    ) -> (c: Call<'a>) {
        Call {
            context,
            op: Op::BufferData {
                target,
                data: Payload::Int32(self),
                usage,
            },
        }
    }

    fn buffer_sub_data<'a>(
        &'a self,
        context: &'a WebGL2RenderingContext,
        target: BufferKind,
        offset: i64,
    ) -> (c: Call<'a>) {
        Call {
            context,
            op: Op::BufferSubData {
                target,
                offset,
                data: Payload::Int32(self),
            },
        }
    }
}

impl Image for Vec<i32> {
    fn tex_image_2d<'a>(
        &'a self,
        context: &'a WebGL2RenderingContext,
        target: TextureBindPoint,
        level: u32,
        internalformat: PixelCopyFormat,
        width: u32,
        height: u32,
        format: PixelCopyFormat,
        pixel_type: PixelType,
    ) -> (c: Call<'a>) {
        Call {
            context,
            op: Op::TexImage2D {
                target,
                level,
                internalformat,
                width,
                height,
                border: 0,
                format,
                pixel_type,
                data: Payload::Int32(self),
            },
        }
    }

    fn tex_sub_image_2d<'a>(
        &'a self,
        context: &'a WebGL2RenderingContext,
        target: TextureBindPoint,
        level: u32,
        xoffset: u32,
        yoffset: u32,
        width: u32,
        height: u32,
        format: PixelCopyFormat,
        pixel_type: PixelType,
    ) -> (c: Call<'a>) {
        Call {
            context,
            op: Op::TexSubImage2D {
                target,
                level,
                xoffset,
                yoffset,
                width,
                height,
                format,
                pixel_type,
                data: Payload::Int32(self),
            },
        }
    }

    fn read_pixels<'a>(
        &'a self,
        context: &'a WebGL2RenderingContext,
        x: u32,
        y: u32,
        width: u32,
        height: u32,
        format: PixelReadFormat,
        pixel_type: PixelType,
    ) -> (c: Call<'a>) {
        Call {
            context,
            op: Op::ReadPixels {
                x,
                y,
                width,
                height,
                format,
                pixel_type,
                pixels: Payload::Int32(self),
            },
        }
    }

    fn store_pixels(&mut self, reply: &Reply) -> (r: Result<(), ForeignError>) {
        match reply {
            Reply::Data(Elements::Int32(pixels)) => {
                if pixels.len() == self.len() {
                    overwrite(self, pixels);
                    Ok(())
                } else {
                    Err(ForeignError::Unexpected)
                }
            },
            Reply::Thrown(message) => Err(ForeignError::Thrown(message.clone())),
            _ => Err(ForeignError::Unexpected),
        }
    }
}

impl Buffer for Vec<Float32> {
    open spec fn payload(&self) -> Payload<'_> {
        Payload::Float32(self)
    }

    fn buffer_data<'a>(
        &'a self,
        context: &'a WebGL2RenderingContext,
        target: BufferKind,
        usage: DataHint,
    ) -> (c: Call<'a>) {
        Call {
            context,
            op: Op::BufferData {
                target,
                data: Payload::Float32(self),
                usage,
            },
        }
    }

    fn buffer_sub_data<'a>(
        &'a self,
        context: &'a WebGL2RenderingContext,
        target: BufferKind,
        offset: i64,
    ) -> (c: Call<'a>) {
        Call {
            context,
            op: Op::BufferSubData {
                target,
                offset,
                data: Payload::Float32(self),
            },
        }
    }
}

impl Image for Vec<Float32> {
    fn tex_image_2d<'a>(
        &'a self,
        context: &'a WebGL2RenderingContext,
        target: TextureBindPoint,
        level: u32,
        internalformat: PixelCopyFormat,
        width: u32,
        height: u32,
        format: PixelCopyFormat,
        pixel_type: PixelType,
    ) -> (c: Call<'a>) {
        Call {
            context,
            op: Op::TexImage2D {
                target,
                level,
                internalformat,
                width,
                height,
                border: 0,
                format,
                pixel_type,
                data: Payload::Float32(self),
            },
        }
    }

    fn tex_sub_image_2d<'a>(
        &'a self,
        context: &'a WebGL2RenderingContext,
        target: TextureBindPoint,
        level: u32,
        xoffset: u32,
        yoffset: u32,
        width: u32,
        height: u32,
        format: PixelCopyFormat,
        pixel_type: PixelType,
    ) -> (c: Call<'a>) {
        Call {
            context,
            op: Op::TexSubImage2D {
                target,
                level,
                xoffset,
                yoffset,
                width,
                height,
                format,
                pixel_type,
                data: Payload::Float32(self),
            },
        }
    }

    fn read_pixels<'a>(
        &'a self,
        context: &'a WebGL2RenderingContext,
        x: u32,
        y: u32,
        width: u32,
        height: u32,
        format: PixelReadFormat,
        pixel_type: PixelType,
    ) -> (c: Call<'a>) {
        Call {
            context,
            op: Op::ReadPixels {
                x,
                y,
                width,
                height,
                format,
                pixel_type,
                pixels: Payload::Float32(self),
            },
        }
    }

    fn store_pixels(&mut self, reply: &Reply) -> (r: Result<(), ForeignError>) {
        match reply {
            Reply::Data(Elements::Float32(pixels)) => {
                if pixels.len() == self.len() {
                    overwrite(self, pixels);
                    Ok(())
                } else {
                    Err(ForeignError::Unexpected)
                }
            },
            Reply::Thrown(message) => Err(ForeignError::Thrown(message.clone())),
            _ => Err(ForeignError::Unexpected),
        }
    }
}

impl Buffer for Vec<Float64> {
    open spec fn payload(&self) -> Payload<'_> {
        Payload::Float64(self)
    }

    fn buffer_data<'a>(
        &'a self,
        context: &'a WebGL2RenderingContext,
        target: BufferKind,
        usage: DataHint,
    ) -> (c: Call<'a>) {
        Call {
            context,
            op: Op::BufferData {
                target,
                data: Payload::Float64(self),
                usage,
            },
        }
    }

    fn buffer_sub_data<'a>(
        &'a self,
        context: &'a WebGL2RenderingContext,
        target: BufferKind,
        offset: i64,
    ) -> (c: Call<'a>) {
        Call {
            context,
            op: Op::BufferSubData {
                target,
                offset,
                data: Payload::Float64(self),
            },
        }
    }
}

} // verus!
