//! The catalog of symbolic constants, each a closed set of values with the
//! number by which the graphics context knows it.
use vstd::prelude::*;

verus! {

/// A closed set of symbolic values, each standing for one number of the
/// graphics context.
pub trait GlEnum: Sized {
    /// The set that the type holds.
    spec fn catalog() -> Catalog;

    /// The number that stands for this value.
    spec fn code(self) -> u32;

    /// Gives the number that stands for this value.
    fn to_gl(self) -> (c: u32)
        ensures
            c == self.code(),
    ;

    /// Gives the value that `c` stands for, and none where the set has no
    /// such value.
    fn from_gl(c: u32) -> (v: Option<Self>)
        ensures
            match v {
                Some(e) => e.code() == c,
                None => forall|e: Self| #[trigger] e.code() != c,
            },
    ;

    /// No two values of the set stand for the same number.
    proof fn lemma_injective(a: Self, b: Self)
        requires
            a.code() == b.code(),
        ensures
            a == b,
    ;
}

/// Whether some value of the set `E` stands for `c`.
pub open spec fn is_code<E: GlEnum>(c: u32) -> bool {
    exists|e: E| #[trigger] e.code() == c
}

/// The value of the set `E` that `c` stands for, if there is one.
pub open spec fn decode<E: GlEnum>(c: u32) -> Option<E> {
    if is_code::<E>(c) {
        Some(choose|e: E| #[trigger] e.code() == c)
    } else {
        None
    }
}

/// A number is turned into the value that stands for it.
pub proof fn lemma_decode_of_code<E: GlEnum>(c: u32, e: E)
    requires
        e.code() == c,
    ensures
        decode::<E>(c) == Some(e),
{
    assert(is_code::<E>(c));
    let d = decode::<E>(c)->0;
    assert(d.code() == c);
    E::lemma_injective(d, e);
}

/// What `from_gl` hands back for a number, which is any `v` that meets what
/// `from_gl` promises, is the value that the number stands for.
pub proof fn lemma_from_gl_decodes<E: GlEnum>(c: u32, v: Option<E>)
    requires
        match v {
            Some(e) => e.code() == c,
            None => forall|e: E| #[trigger] e.code() != c,
        },
    ensures
        v == decode::<E>(c),
{
    if v is Some {
        lemma_decode_of_code::<E>(c, v->0);
    }
}

/// Turning a value into its number and the number back into a value gives
/// the value one started from.
pub proof fn lemma_round_trip<E: GlEnum>(e: E)
    ensures
        decode::<E>(e.code()) == Some(e),
{
    lemma_decode_of_code::<E>(e.code(), e);
}

/// A number is turned into a value exactly when some value stands for it, and
/// then into a value that stands for it.
pub proof fn lemma_decode_exact<E: GlEnum>(c: u32)
    ensures
        decode::<E>(c) is Some <==> is_code::<E>(c),
        decode::<E>(c) is Some ==> decode::<E>(c)->0.code() == c,
{
}

/// Two numbers that are turned into the same value are the same number.
pub proof fn lemma_decode_injective<E: GlEnum>(c: u32, d: u32)
    requires
        decode::<E>(c) is Some,
        decode::<E>(c) == decode::<E>(d),
    ensures
        c == d,
{
}

/// Binding points of buffer objects.
#[derive(Clone, Copy, Debug, PartialEq, Eq, Structural)]
pub enum BufferKind {
    /// `ARRAY_BUFFER`
    Array,
    /// `ELEMENT_ARRAY_BUFFER`
    ElementArray,
    /// `COPY_READ_BUFFER`
    CopyRead,
    /// `COPY_WRITE_BUFFER`
    CopyWrite,
    /// `TRANSFORM_FEEDBACK_BUFFER`
    TransformFeedback,
    /// `UNIFORM_BUFFER`
    Uniform,
    /// `PIXEL_PACK_BUFFER`
    PixelPack,
    /// `PIXEL_UNPACK_BUFFER`
    PixelUnpack,
}

impl GlEnum for BufferKind {
    open spec fn catalog() -> Catalog {
        Catalog::BufferKind
    }

    open spec fn code(self) -> u32 {
        match self {
            BufferKind::Array => 0x8892,
            BufferKind::ElementArray => 0x8893,
            BufferKind::CopyRead => 0x8F36,
            BufferKind::CopyWrite => 0x8F37,
            BufferKind::TransformFeedback => 0x8C8E,
            BufferKind::Uniform => 0x8A11,
            BufferKind::PixelPack => 0x88EB,
            BufferKind::PixelUnpack => 0x88EC,
        }
    }

    fn to_gl(self) -> (c: u32) {
        match self {
            BufferKind::Array => 0x8892,
            BufferKind::ElementArray => 0x8893,
            BufferKind::CopyRead => 0x8F36,
            BufferKind::CopyWrite => 0x8F37,
            BufferKind::TransformFeedback => 0x8C8E,
            BufferKind::Uniform => 0x8A11,
            BufferKind::PixelPack => 0x88EB,
            BufferKind::PixelUnpack => 0x88EC,
        }
    }

    fn from_gl(c: u32) -> (v: Option<Self>) {
        match c {
            0x8892 => Some(BufferKind::Array),
            0x8893 => Some(BufferKind::ElementArray),
            0x88EB => Some(BufferKind::PixelPack),
            0x88EC => Some(BufferKind::PixelUnpack),
            0x8A11 => Some(BufferKind::Uniform),
            0x8C8E => Some(BufferKind::TransformFeedback),
            0x8F36 => Some(BufferKind::CopyRead),
            0x8F37 => Some(BufferKind::CopyWrite),
            _ => None,
        }
    }

    proof fn lemma_injective(a: Self, b: Self) {
    }
}

/// Indexed binding points of buffer objects.
#[derive(Clone, Copy, Debug, PartialEq, Eq, Structural)]
pub enum BufferBase {
    /// `TRANSFORM_FEEDBACK_BUFFER`
    TransformFeedback,
    /// `UNIFORM_BUFFER`
    Uniform,
}

impl GlEnum for BufferBase {
    open spec fn catalog() -> Catalog {
        Catalog::BufferBase
    }

    open spec fn code(self) -> u32 {
        match self {
            BufferBase::TransformFeedback => 0x8C8E,
            BufferBase::Uniform => 0x8A11,
        }
    }

    fn to_gl(self) -> (c: u32) {
        match self {
            BufferBase::TransformFeedback => 0x8C8E,
            BufferBase::Uniform => 0x8A11,
        }
    }

    fn from_gl(c: u32) -> (v: Option<Self>) {
        match c {
            0x8A11 => Some(BufferBase::Uniform),
            0x8C8E => Some(BufferBase::TransformFeedback),
            _ => None,
        }
    }

    proof fn lemma_injective(a: Self, b: Self) {
    }
}

/// Usage hints of a buffer's data store.
#[derive(Clone, Copy, Debug, PartialEq, Eq, Structural)]
pub enum DataHint {
    /// `STREAM_DRAW`
    StreamDraw,
    /// `STREAM_READ`
    StreamRead,
    /// `STREAM_COPY`
    StreamCopy,
    /// `STATIC_DRAW`
    StaticDraw,
    /// `STATIC_READ`
    StaticRead,
    /// `STATIC_COPY`
    StaticCopy,
    /// `DYNAMIC_DRAW`
    DynamicDraw,
    /// `DYNAMIC_READ`
    DynamicRead,
    /// `DYNAMIC_COPY`
    DynamicCopy,
}

impl GlEnum for DataHint {
    open spec fn catalog() -> Catalog {
        Catalog::DataHint
    }

    open spec fn code(self) -> u32 {
        match self {
            DataHint::StreamDraw => 0x88E0,
            DataHint::StreamRead => 0x88E1,
            DataHint::StreamCopy => 0x88E2,
            DataHint::StaticDraw => 0x88E4,
            DataHint::StaticRead => 0x88E5,
            DataHint::StaticCopy => 0x88E6,
            DataHint::DynamicDraw => 0x88E8,
            DataHint::DynamicRead => 0x88E9,
            DataHint::DynamicCopy => 0x88EA,
        }
    }

    fn to_gl(self) -> (c: u32) {
        match self {
            DataHint::StreamDraw => 0x88E0,
            DataHint::StreamRead => 0x88E1,
            DataHint::StreamCopy => 0x88E2,
            DataHint::StaticDraw => 0x88E4,
            DataHint::StaticRead => 0x88E5,
            DataHint::StaticCopy => 0x88E6,
            DataHint::DynamicDraw => 0x88E8,
            DataHint::DynamicRead => 0x88E9,
            DataHint::DynamicCopy => 0x88EA,
        }
    }

    fn from_gl(c: u32) -> (v: Option<Self>) {
        match c {
            0x88E0 => Some(DataHint::StreamDraw),
            0x88E1 => Some(DataHint::StreamRead),
            0x88E2 => Some(DataHint::StreamCopy),
            0x88E4 => Some(DataHint::StaticDraw),
            0x88E5 => Some(DataHint::StaticRead),
            0x88E6 => Some(DataHint::StaticCopy),
            0x88E8 => Some(DataHint::DynamicDraw),
            0x88E9 => Some(DataHint::DynamicRead),
            0x88EA => Some(DataHint::DynamicCopy),
            _ => None,
        }
    }

    proof fn lemma_injective(a: Self, b: Self) {
    }
}

/// Parameters of a bound buffer.
#[derive(Clone, Copy, Debug, PartialEq, Eq, Structural)]
pub enum BufferParameter {
    /// `BUFFER_SIZE`
    Size,
    /// `BUFFER_USAGE`
    Usage,
}

impl GlEnum for BufferParameter {
    open spec fn catalog() -> Catalog {
        Catalog::BufferParameter
    }

    open spec fn code(self) -> u32 {
        match self {
            BufferParameter::Size => 0x8764,
            BufferParameter::Usage => 0x8765,
        }
    }

    fn to_gl(self) -> (c: u32) {
        match self {
            BufferParameter::Size => 0x8764,
            BufferParameter::Usage => 0x8765,
        }
    }

    fn from_gl(c: u32) -> (v: Option<Self>) {
        match c {
            0x8764 => Some(BufferParameter::Size),
            0x8765 => Some(BufferParameter::Usage),
            _ => None,
        }
    }

    proof fn lemma_injective(a: Self, b: Self) {
    }
}

/// Binding points of framebuffer objects.
#[derive(Clone, Copy, Debug, PartialEq, Eq, Structural)]
pub enum FramebufferKind {
    /// `FRAMEBUFFER`
    Framebuffer,
    /// `DRAW_FRAMEBUFFER`
    DrawFramebuffer,
    /// `READ_FRAMEBUFFER`
    ReadFramebuffer,
}

impl GlEnum for FramebufferKind {
    open spec fn catalog() -> Catalog {
        Catalog::FramebufferKind
    }

    open spec fn code(self) -> u32 {
        match self {
            FramebufferKind::Framebuffer => 0x8D40,
            FramebufferKind::DrawFramebuffer => 0x8CA9,
            FramebufferKind::ReadFramebuffer => 0x8CA8,
        }
    }

    fn to_gl(self) -> (c: u32) {
        match self {
            FramebufferKind::Framebuffer => 0x8D40,
            FramebufferKind::DrawFramebuffer => 0x8CA9,
            FramebufferKind::ReadFramebuffer => 0x8CA8,
        }
    }

    fn from_gl(c: u32) -> (v: Option<Self>) {
        match c {
            0x8CA8 => Some(FramebufferKind::ReadFramebuffer),
            0x8CA9 => Some(FramebufferKind::DrawFramebuffer),
            0x8D40 => Some(FramebufferKind::Framebuffer),
            _ => None,
        }
    }

    proof fn lemma_injective(a: Self, b: Self) {
    }
}

/// Completeness states of a framebuffer.
#[derive(Clone, Copy, Debug, PartialEq, Eq, Structural)]
pub enum FramebufferStatus {
    /// `FRAMEBUFFER_COMPLETE`
    Complete,
    /// `FRAMEBUFFER_INCOMPLETE_ATTACHMENT`
    IncompleteAttachment,
    /// `FRAMEBUFFER_INCOMPLETE_MISSING_ATTACHMENT`
    IncompleteMissingAttachment,
    /// `FRAMEBUFFER_INCOMPLETE_DIMENSIONS`
    IncompleteDimensions,
    /// `FRAMEBUFFER_UNSUPPORTED`
    Unsupported,
    /// `FRAMEBUFFER_INCOMPLETE_MULTISAMPLE`
    IncompleteMultisample,
}

impl GlEnum for FramebufferStatus {
    open spec fn catalog() -> Catalog {
        Catalog::FramebufferStatus
    }

    open spec fn code(self) -> u32 {
        match self {
            FramebufferStatus::Complete => 0x8CD5,
            FramebufferStatus::IncompleteAttachment => 0x8CD6,
            FramebufferStatus::IncompleteMissingAttachment => 0x8CD7,
            FramebufferStatus::IncompleteDimensions => 0x8CD9,
            FramebufferStatus::Unsupported => 0x8CDD,
            FramebufferStatus::IncompleteMultisample => 0x8D56,
        }
    }

    fn to_gl(self) -> (c: u32) {
        match self {
            FramebufferStatus::Complete => 0x8CD5,
            FramebufferStatus::IncompleteAttachment => 0x8CD6,
            FramebufferStatus::IncompleteMissingAttachment => 0x8CD7,
            FramebufferStatus::IncompleteDimensions => 0x8CD9,
            FramebufferStatus::Unsupported => 0x8CDD,
            FramebufferStatus::IncompleteMultisample => 0x8D56,
        }
    }

    fn from_gl(c: u32) -> (v: Option<Self>) {
        match c {
            0x8CD5 => Some(FramebufferStatus::Complete),
            0x8CD6 => Some(FramebufferStatus::IncompleteAttachment),
            0x8CD7 => Some(FramebufferStatus::IncompleteMissingAttachment),
            0x8CD9 => Some(FramebufferStatus::IncompleteDimensions),
            0x8CDD => Some(FramebufferStatus::Unsupported),
            0x8D56 => Some(FramebufferStatus::IncompleteMultisample),
            _ => None,
        }
    }

    proof fn lemma_injective(a: Self, b: Self) {
    }
}

/// Binding points of renderbuffer objects.
#[derive(Clone, Copy, Debug, PartialEq, Eq, Structural)]
pub enum RenderbufferKind {
    /// `RENDERBUFFER`
    Renderbuffer,
}

impl GlEnum for RenderbufferKind {
    open spec fn catalog() -> Catalog {
        Catalog::RenderbufferKind
    }

    open spec fn code(self) -> u32 {
        match self {
            RenderbufferKind::Renderbuffer => 0x8D41,
        }
    }

    fn to_gl(self) -> (c: u32) {
        match self {
            RenderbufferKind::Renderbuffer => 0x8D41,
        }
    }

    fn from_gl(c: u32) -> (v: Option<Self>) {
        match c {
            0x8D41 => Some(RenderbufferKind::Renderbuffer),
            _ => None,
        }
    }

    proof fn lemma_injective(a: Self, b: Self) {
    }
}

/// Internal formats of a renderbuffer.
#[derive(Clone, Copy, Debug, PartialEq, Eq, Structural)]
pub enum RenderbufferFormat {
    /// `RGBA4`
    Rgba4,
    /// `RGB565`
    Rgb565,
    /// `RGB5_A1`
    Rgb5A1,
    /// `DEPTH_COMPONENT16`
    DepthComponent16,
    /// `STENCIL_INDEX8`
    StencilIndex8,
    /// `DEPTH_STENCIL`
    DepthStencil,
    /// `R8`
    R8,
    /// `R8UI`
    R8ui,
    /// `R8I`
    R8i,
    /// `R16UI`
    R16ui,
    /// `R16I`
    R16i,
    /// `R32UI`
    R32ui,
    /// `R32I`
    R32i,
    /// `RG8`
    Rg8,
    /// `RG8UI`
    Rg8ui,
    /// `RG8I`
    Rg8i,
    /// `RG16UI`
    Rg16ui,
    /// `RG16I`
    Rg16i,
    /// `RG32UI`
    Rg32ui,
    /// `RG32I`
    Rg32i,
    /// `RGB8`
    Rgb8,
    /// `RGBA8`
    Rgba8,
    /// `SRGB8_ALPHA8`
    Srgb8Alpha8,
    /// `RGB10_A2`
    Rgb10A2,
    /// `RGBA8UI`
    Rgba8ui,
    /// `RGBA8I`
    Rgba8i,
    /// `RGB10_A2UI`
    Rgb10A2ui,
    /// `RGBA16UI`
    Rgba16ui,
    /// `RGBA16I`
    Rgba16i,
    /// `RGBA32I`
    Rgba32i,
    /// `RGBA32UI`
    Rgba32ui,
    /// `DEPTH_COMPONENT24`
    DepthComponent24,
    /// `DEPTH_COMPONENT32F`
    DepthComponent32f,
    /// `DEPTH24_STENCIL8`
    Depth24Stencil8,
    /// `DEPTH32F_STENCIL8`
    Depth32fStencil8,
}

impl GlEnum for RenderbufferFormat {
    open spec fn catalog() -> Catalog {
        Catalog::RenderbufferFormat
    }

    open spec fn code(self) -> u32 {
        match self {
            RenderbufferFormat::Rgba4 => 0x8056,
            RenderbufferFormat::Rgb565 => 0x8D62,
            RenderbufferFormat::Rgb5A1 => 0x8057,
            RenderbufferFormat::DepthComponent16 => 0x81A5,
            RenderbufferFormat::StencilIndex8 => 0x8D48,
            RenderbufferFormat::DepthStencil => 0x84F9,
            RenderbufferFormat::R8 => 0x8229,
            RenderbufferFormat::R8ui => 0x8232,
            RenderbufferFormat::R8i => 0x8231,
            RenderbufferFormat::R16ui => 0x8234,
            RenderbufferFormat::R16i => 0x8233,
            RenderbufferFormat::R32ui => 0x8236,
            RenderbufferFormat::R32i => 0x8235,
            RenderbufferFormat::Rg8 => 0x822B,
            RenderbufferFormat::Rg8ui => 0x8238,
            RenderbufferFormat::Rg8i => 0x8237,
            RenderbufferFormat::Rg16ui => 0x823A,
            RenderbufferFormat::Rg16i => 0x8239,
            RenderbufferFormat::Rg32ui => 0x823C,
            RenderbufferFormat::Rg32i => 0x823B,
            RenderbufferFormat::Rgb8 => 0x8051,
            RenderbufferFormat::Rgba8 => 0x8058,
            RenderbufferFormat::Srgb8Alpha8 => 0x8C43,
            RenderbufferFormat::Rgb10A2 => 0x8059,
            RenderbufferFormat::Rgba8ui => 0x8D7C,
            RenderbufferFormat::Rgba8i => 0x8D8E,
            RenderbufferFormat::Rgb10A2ui => 0x906F,
            RenderbufferFormat::Rgba16ui => 0x8D76,
            RenderbufferFormat::Rgba16i => 0x8D88,
            RenderbufferFormat::Rgba32i => 0x8D82,
            RenderbufferFormat::Rgba32ui => 0x8D70,
            RenderbufferFormat::DepthComponent24 => 0x81A6,
            RenderbufferFormat::DepthComponent32f => 0x8CAC,
            RenderbufferFormat::Depth24Stencil8 => 0x88F0,
            RenderbufferFormat::Depth32fStencil8 => 0x8CAD,
        }
    }

    fn to_gl(self) -> (c: u32) {
        match self {
            RenderbufferFormat::Rgba4 => 0x8056,
            RenderbufferFormat::Rgb565 => 0x8D62,
            RenderbufferFormat::Rgb5A1 => 0x8057,
            RenderbufferFormat::DepthComponent16 => 0x81A5,
            RenderbufferFormat::StencilIndex8 => 0x8D48,
            RenderbufferFormat::DepthStencil => 0x84F9,
            RenderbufferFormat::R8 => 0x8229,
            RenderbufferFormat::R8ui => 0x8232,
            RenderbufferFormat::R8i => 0x8231,
            RenderbufferFormat::R16ui => 0x8234,
            RenderbufferFormat::R16i => 0x8233,
            RenderbufferFormat::R32ui => 0x8236,
            RenderbufferFormat::R32i => 0x8235,
            RenderbufferFormat::Rg8 => 0x822B,
            RenderbufferFormat::Rg8ui => 0x8238,
            RenderbufferFormat::Rg8i => 0x8237,
            RenderbufferFormat::Rg16ui => 0x823A,
            RenderbufferFormat::Rg16i => 0x8239,
            RenderbufferFormat::Rg32ui => 0x823C,
            RenderbufferFormat::Rg32i => 0x823B,
            RenderbufferFormat::Rgb8 => 0x8051,
            RenderbufferFormat::Rgba8 => 0x8058,
            RenderbufferFormat::Srgb8Alpha8 => 0x8C43,
            RenderbufferFormat::Rgb10A2 => 0x8059,
            RenderbufferFormat::Rgba8ui => 0x8D7C,
            RenderbufferFormat::Rgba8i => 0x8D8E,
            RenderbufferFormat::Rgb10A2ui => 0x906F,
            RenderbufferFormat::Rgba16ui => 0x8D76,
            RenderbufferFormat::Rgba16i => 0x8D88,
            RenderbufferFormat::Rgba32i => 0x8D82,
            RenderbufferFormat::Rgba32ui => 0x8D70,
            RenderbufferFormat::DepthComponent24 => 0x81A6,
            RenderbufferFormat::DepthComponent32f => 0x8CAC,
            RenderbufferFormat::Depth24Stencil8 => 0x88F0,
            RenderbufferFormat::Depth32fStencil8 => 0x8CAD,
        }
    }

    fn from_gl(c: u32) -> (v: Option<Self>) {
        match c {
            0x8051 => Some(RenderbufferFormat::Rgb8),
            0x8056 => Some(RenderbufferFormat::Rgba4),
            0x8057 => Some(RenderbufferFormat::Rgb5A1),
            0x8058 => Some(RenderbufferFormat::Rgba8),
            0x8059 => Some(RenderbufferFormat::Rgb10A2),
            0x81A5 => Some(RenderbufferFormat::DepthComponent16),
            0x81A6 => Some(RenderbufferFormat::DepthComponent24),
            0x8229 => Some(RenderbufferFormat::R8),
            0x822B => Some(RenderbufferFormat::Rg8),
            0x8231 => Some(RenderbufferFormat::R8i),
            0x8232 => Some(RenderbufferFormat::R8ui),
            0x8233 => Some(RenderbufferFormat::R16i),
            0x8234 => Some(RenderbufferFormat::R16ui),
            0x8235 => Some(RenderbufferFormat::R32i),
            0x8236 => Some(RenderbufferFormat::R32ui),
            0x8237 => Some(RenderbufferFormat::Rg8i),
            0x8238 => Some(RenderbufferFormat::Rg8ui),
            0x8239 => Some(RenderbufferFormat::Rg16i),
            0x823A => Some(RenderbufferFormat::Rg16ui),
            0x823B => Some(RenderbufferFormat::Rg32i),
            0x823C => Some(RenderbufferFormat::Rg32ui),
            0x84F9 => Some(RenderbufferFormat::DepthStencil),
            0x88F0 => Some(RenderbufferFormat::Depth24Stencil8),
            0x8C43 => Some(RenderbufferFormat::Srgb8Alpha8),
            0x8CAC => Some(RenderbufferFormat::DepthComponent32f),
            0x8CAD => Some(RenderbufferFormat::Depth32fStencil8),
            0x8D48 => Some(RenderbufferFormat::StencilIndex8),
            0x8D62 => Some(RenderbufferFormat::Rgb565),
            0x8D70 => Some(RenderbufferFormat::Rgba32ui),
            0x8D76 => Some(RenderbufferFormat::Rgba16ui),
            0x8D7C => Some(RenderbufferFormat::Rgba8ui),
            0x8D82 => Some(RenderbufferFormat::Rgba32i),
            0x8D88 => Some(RenderbufferFormat::Rgba16i),
            0x8D8E => Some(RenderbufferFormat::Rgba8i),
            0x906F => Some(RenderbufferFormat::Rgb10A2ui),
            _ => None,
        }
    }

    proof fn lemma_injective(a: Self, b: Self) {
    }
}

/// Parameters of a bound renderbuffer.
#[derive(Clone, Copy, Debug, PartialEq, Eq, Structural)]
pub enum RenderbufferParameter {
    /// `RENDERBUFFER_WIDTH`
    Width,
    /// `RENDERBUFFER_HEIGHT`
    Height,
    /// `RENDERBUFFER_INTERNAL_FORMAT`
    Format,
    /// `RENDERBUFFER_RED_SIZE`
    RedSize,
    /// `RENDERBUFFER_GREEN_SIZE`
    GreenSize,
    /// `RENDERBUFFER_BLUE_SIZE`
    BlueSize,
    /// `RENDERBUFFER_ALPHA_SIZE`
    AlphaSize,
    /// `RENDERBUFFER_DEPTH_SIZE`
    DepthSize,
    /// `RENDERBUFFER_STENCIL_SIZE`
    StencilSize,
    /// `RENDERBUFFER_SAMPLES`
    Samples,
}

impl GlEnum for RenderbufferParameter {
    open spec fn catalog() -> Catalog {
        Catalog::RenderbufferParameter
    }

    open spec fn code(self) -> u32 {
        match self {
            RenderbufferParameter::Width => 0x8D42,
            RenderbufferParameter::Height => 0x8D43,
            RenderbufferParameter::Format => 0x8D44,
            RenderbufferParameter::RedSize => 0x8D50,
            RenderbufferParameter::GreenSize => 0x8D51,
            RenderbufferParameter::BlueSize => 0x8D52,
            RenderbufferParameter::AlphaSize => 0x8D53,
            RenderbufferParameter::DepthSize => 0x8D54,
            RenderbufferParameter::StencilSize => 0x8D55,
            RenderbufferParameter::Samples => 0x8CAB,
        }
    }

    fn to_gl(self) -> (c: u32) {
        match self {
            RenderbufferParameter::Width => 0x8D42,
            RenderbufferParameter::Height => 0x8D43,
            RenderbufferParameter::Format => 0x8D44,
            RenderbufferParameter::RedSize => 0x8D50,
            RenderbufferParameter::GreenSize => 0x8D51,
            RenderbufferParameter::BlueSize => 0x8D52,
            RenderbufferParameter::AlphaSize => 0x8D53,
            RenderbufferParameter::DepthSize => 0x8D54,
            RenderbufferParameter::StencilSize => 0x8D55,
            RenderbufferParameter::Samples => 0x8CAB,
        }
    }

    fn from_gl(c: u32) -> (v: Option<Self>) {
        match c {
            0x8CAB => Some(RenderbufferParameter::Samples),
            0x8D42 => Some(RenderbufferParameter::Width),
            0x8D43 => Some(RenderbufferParameter::Height),
            0x8D44 => Some(RenderbufferParameter::Format),
            0x8D50 => Some(RenderbufferParameter::RedSize),
            0x8D51 => Some(RenderbufferParameter::GreenSize),
            0x8D52 => Some(RenderbufferParameter::BlueSize),
            0x8D53 => Some(RenderbufferParameter::AlphaSize),
            0x8D54 => Some(RenderbufferParameter::DepthSize),
            0x8D55 => Some(RenderbufferParameter::StencilSize),
            _ => None,
        }
    }

    proof fn lemma_injective(a: Self, b: Self) {
    }
}

/// Attachment points of a framebuffer.
#[derive(Clone, Copy, Debug, PartialEq, Eq, Structural)]
pub enum Attachment {
    /// `COLOR_ATTACHMENT0`
    Color0,
    /// `COLOR_ATTACHMENT1`
    Color1,
    /// `COLOR_ATTACHMENT2`
    Color2,
    /// `COLOR_ATTACHMENT3`
    Color3,
    /// `COLOR_ATTACHMENT4`
    Color4,
    /// `COLOR_ATTACHMENT5`
    Color5,
    /// `COLOR_ATTACHMENT6`
    Color6,
    /// `COLOR_ATTACHMENT7`
    Color7,
    /// `COLOR_ATTACHMENT8`
    Color8,
    /// `COLOR_ATTACHMENT9`
    Color9,
    /// `COLOR_ATTACHMENT10`
    Color10,
    /// `COLOR_ATTACHMENT11`
    Color11,
    /// `COLOR_ATTACHMENT12`
    Color12,
    /// `COLOR_ATTACHMENT13`
    Color13,
    /// `COLOR_ATTACHMENT14`
    Color14,
    /// `COLOR_ATTACHMENT15`
    Color15,
    /// `DEPTH_ATTACHMENT`
    Depth,
    /// `STENCIL_ATTACHMENT`
    Stencil,
    /// `DEPTH_STENCIL_ATTACHMENT`
    DepthStencil,
}

impl GlEnum for Attachment {
    open spec fn catalog() -> Catalog {
        Catalog::Attachment
    }

    open spec fn code(self) -> u32 {
        match self {
            Attachment::Color0 => 0x8CE0,
            Attachment::Color1 => 0x8CE1,
            Attachment::Color2 => 0x8CE2,
            Attachment::Color3 => 0x8CE3,
            Attachment::Color4 => 0x8CE4,
            Attachment::Color5 => 0x8CE5,
            Attachment::Color6 => 0x8CE6,
            Attachment::Color7 => 0x8CE7,
            Attachment::Color8 => 0x8CE8,
            Attachment::Color9 => 0x8CE9,
            Attachment::Color10 => 0x8CEA,
            Attachment::Color11 => 0x8CEB,
            Attachment::Color12 => 0x8CEC,
            Attachment::Color13 => 0x8CED,
            Attachment::Color14 => 0x8CEE,
            Attachment::Color15 => 0x8CEF,
            Attachment::Depth => 0x8D00,
            Attachment::Stencil => 0x8D20,
            Attachment::DepthStencil => 0x821A,
        }
    }

    fn to_gl(self) -> (c: u32) {
        match self {
            Attachment::Color0 => 0x8CE0,
            Attachment::Color1 => 0x8CE1,
            Attachment::Color2 => 0x8CE2,
            Attachment::Color3 => 0x8CE3,
            Attachment::Color4 => 0x8CE4,
            Attachment::Color5 => 0x8CE5,
            Attachment::Color6 => 0x8CE6,
            Attachment::Color7 => 0x8CE7,
            Attachment::Color8 => 0x8CE8,
            Attachment::Color9 => 0x8CE9,
            Attachment::Color10 => 0x8CEA,
            Attachment::Color11 => 0x8CEB,
            Attachment::Color12 => 0x8CEC,
            Attachment::Color13 => 0x8CED,
            Attachment::Color14 => 0x8CEE,
            Attachment::Color15 => 0x8CEF,
            Attachment::Depth => 0x8D00,
            Attachment::Stencil => 0x8D20,
            Attachment::DepthStencil => 0x821A,
        }
    }

    fn from_gl(c: u32) -> (v: Option<Self>) {
        match c {
            0x821A => Some(Attachment::DepthStencil),
            0x8CE0 => Some(Attachment::Color0),
            0x8CE1 => Some(Attachment::Color1),
            0x8CE2 => Some(Attachment::Color2),
            0x8CE3 => Some(Attachment::Color3),
            0x8CE4 => Some(Attachment::Color4),
            0x8CE5 => Some(Attachment::Color5),
            0x8CE6 => Some(Attachment::Color6),
            0x8CE7 => Some(Attachment::Color7),
            0x8CE8 => Some(Attachment::Color8),
            0x8CE9 => Some(Attachment::Color9),
            0x8CEA => Some(Attachment::Color10),
            0x8CEB => Some(Attachment::Color11),
            0x8CEC => Some(Attachment::Color12),
            0x8CED => Some(Attachment::Color13),
            0x8CEE => Some(Attachment::Color14),
            0x8CEF => Some(Attachment::Color15),
            0x8D00 => Some(Attachment::Depth),
            0x8D20 => Some(Attachment::Stencil),
            _ => None,
        }
    }

    proof fn lemma_injective(a: Self, b: Self) {
    }
}

/// Color buffers that can be read from or drawn to.
#[derive(Clone, Copy, Debug, PartialEq, Eq, Structural)]
pub enum ColorBuffer {
    /// `NONE`
    NoBuffer,
    /// `BACK`
    Back,
    /// `COLOR_ATTACHMENT0`
    ColorAttachment0,
    /// `COLOR_ATTACHMENT1`
    ColorAttachment1,
    /// `COLOR_ATTACHMENT2`
    ColorAttachment2,
    /// `COLOR_ATTACHMENT3`
    ColorAttachment3,
    /// `COLOR_ATTACHMENT4`
    ColorAttachment4,
    /// `COLOR_ATTACHMENT5`
    ColorAttachment5,
    /// `COLOR_ATTACHMENT6`
    ColorAttachment6,
    /// `COLOR_ATTACHMENT7`
    ColorAttachment7,
    /// `COLOR_ATTACHMENT8`
    ColorAttachment8,
    /// `COLOR_ATTACHMENT9`
    ColorAttachment9,
    /// `COLOR_ATTACHMENT10`
    ColorAttachment10,
    /// `COLOR_ATTACHMENT11`
    ColorAttachment11,
    /// `COLOR_ATTACHMENT12`
    ColorAttachment12,
    /// `COLOR_ATTACHMENT13`
    ColorAttachment13,
    /// `COLOR_ATTACHMENT14`
    ColorAttachment14,
    /// `COLOR_ATTACHMENT15`
    ColorAttachment15,
}

impl GlEnum for ColorBuffer {
    open spec fn catalog() -> Catalog {
        Catalog::ColorBuffer
    }

    open spec fn code(self) -> u32 {
        match self {
            ColorBuffer::NoBuffer => 0,
            ColorBuffer::Back => 0x0405,
            ColorBuffer::ColorAttachment0 => 0x8CE0,
            ColorBuffer::ColorAttachment1 => 0x8CE1,
            ColorBuffer::ColorAttachment2 => 0x8CE2,
            ColorBuffer::ColorAttachment3 => 0x8CE3,
            ColorBuffer::ColorAttachment4 => 0x8CE4,
            ColorBuffer::ColorAttachment5 => 0x8CE5,
            ColorBuffer::ColorAttachment6 => 0x8CE6,
            ColorBuffer::ColorAttachment7 => 0x8CE7,
            ColorBuffer::ColorAttachment8 => 0x8CE8,
            ColorBuffer::ColorAttachment9 => 0x8CE9,
            ColorBuffer::ColorAttachment10 => 0x8CEA,
            ColorBuffer::ColorAttachment11 => 0x8CEB,
            ColorBuffer::ColorAttachment12 => 0x8CEC,
            ColorBuffer::ColorAttachment13 => 0x8CED,
            ColorBuffer::ColorAttachment14 => 0x8CEE,
            ColorBuffer::ColorAttachment15 => 0x8CEF,
        }
    }

    fn to_gl(self) -> (c: u32) {
        match self {
            ColorBuffer::NoBuffer => 0,
            ColorBuffer::Back => 0x0405,
            ColorBuffer::ColorAttachment0 => 0x8CE0,
            ColorBuffer::ColorAttachment1 => 0x8CE1,
            ColorBuffer::ColorAttachment2 => 0x8CE2,
            ColorBuffer::ColorAttachment3 => 0x8CE3,
            ColorBuffer::ColorAttachment4 => 0x8CE4,
            ColorBuffer::ColorAttachment5 => 0x8CE5,
            ColorBuffer::ColorAttachment6 => 0x8CE6,
            ColorBuffer::ColorAttachment7 => 0x8CE7,
            ColorBuffer::ColorAttachment8 => 0x8CE8,
            ColorBuffer::ColorAttachment9 => 0x8CE9,
            ColorBuffer::ColorAttachment10 => 0x8CEA,
            ColorBuffer::ColorAttachment11 => 0x8CEB,
            ColorBuffer::ColorAttachment12 => 0x8CEC,
            ColorBuffer::ColorAttachment13 => 0x8CED,
            ColorBuffer::ColorAttachment14 => 0x8CEE,
            ColorBuffer::ColorAttachment15 => 0x8CEF,
        }
    }

    fn from_gl(c: u32) -> (v: Option<Self>) {
        match c {
            0 => Some(ColorBuffer::NoBuffer),
            0x0405 => Some(ColorBuffer::Back),
            0x8CE0 => Some(ColorBuffer::ColorAttachment0),
            0x8CE1 => Some(ColorBuffer::ColorAttachment1),
            0x8CE2 => Some(ColorBuffer::ColorAttachment2),
            0x8CE3 => Some(ColorBuffer::ColorAttachment3),
            0x8CE4 => Some(ColorBuffer::ColorAttachment4),
            0x8CE5 => Some(ColorBuffer::ColorAttachment5),
            0x8CE6 => Some(ColorBuffer::ColorAttachment6),
            0x8CE7 => Some(ColorBuffer::ColorAttachment7),
            0x8CE8 => Some(ColorBuffer::ColorAttachment8),
            0x8CE9 => Some(ColorBuffer::ColorAttachment9),
            0x8CEA => Some(ColorBuffer::ColorAttachment10),
            0x8CEB => Some(ColorBuffer::ColorAttachment11),
            0x8CEC => Some(ColorBuffer::ColorAttachment12),
            0x8CED => Some(ColorBuffer::ColorAttachment13),
            0x8CEE => Some(ColorBuffer::ColorAttachment14),
            0x8CEF => Some(ColorBuffer::ColorAttachment15),
            _ => None,
        }
    }

    proof fn lemma_injective(a: Self, b: Self) {
    }
}

/// Binding points of texture objects.
#[derive(Clone, Copy, Debug, PartialEq, Eq, Structural)]
pub enum TextureKind {
    /// `TEXTURE_2D`
    Texture2d,
    /// `TEXTURE_CUBE_MAP`
    TextureCubeMap,
    /// `TEXTURE_3D`
    Texture3d,
    /// `TEXTURE_2D_ARRAY`
    Texture2dArray,
}

impl GlEnum for TextureKind {
    open spec fn catalog() -> Catalog {
        Catalog::TextureKind
    }

    open spec fn code(self) -> u32 {
        match self {
            TextureKind::Texture2d => 0x0DE1,
            TextureKind::TextureCubeMap => 0x8513,
            TextureKind::Texture3d => 0x806F,
            TextureKind::Texture2dArray => 0x8C1A,
        }
    }

    fn to_gl(self) -> (c: u32) {
        match self {
            TextureKind::Texture2d => 0x0DE1,
            TextureKind::TextureCubeMap => 0x8513,
            TextureKind::Texture3d => 0x806F,
            TextureKind::Texture2dArray => 0x8C1A,
        }
    }

    fn from_gl(c: u32) -> (v: Option<Self>) {
        match c {
            0x0DE1 => Some(TextureKind::Texture2d),
            0x806F => Some(TextureKind::Texture3d),
            0x8513 => Some(TextureKind::TextureCubeMap),
            0x8C1A => Some(TextureKind::Texture2dArray),
            _ => None,
        }
    }

    proof fn lemma_injective(a: Self, b: Self) {
    }
}

/// Binding points of textures with two-dimensional storage.
#[derive(Clone, Copy, Debug, PartialEq, Eq, Structural)]
pub enum Texture2DKind {
    /// `TEXTURE_2D`
    Texture2d,
    /// `TEXTURE_CUBE_MAP`
    TextureCubeMap,
}

impl GlEnum for Texture2DKind {
    open spec fn catalog() -> Catalog {
        Catalog::Texture2DKind
    }

    open spec fn code(self) -> u32 {
        match self {
            Texture2DKind::Texture2d => 0x0DE1,
            Texture2DKind::TextureCubeMap => 0x8513,
        }
    }

    fn to_gl(self) -> (c: u32) {
        match self {
            Texture2DKind::Texture2d => 0x0DE1,
            Texture2DKind::TextureCubeMap => 0x8513,
        }
    }

    fn from_gl(c: u32) -> (v: Option<Self>) {
        match c {
            0x0DE1 => Some(Texture2DKind::Texture2d),
            0x8513 => Some(Texture2DKind::TextureCubeMap),
            _ => None,
        }
    }

    proof fn lemma_injective(a: Self, b: Self) {
    }
}

/// Binding points of textures with three-dimensional storage.
#[derive(Clone, Copy, Debug, PartialEq, Eq, Structural)]
pub enum Texture3DKind {
    /// `TEXTURE_3D`
    Texture3d,
    /// `TEXTURE_2D_ARRAY`
    Texture2dArray,
}

impl GlEnum for Texture3DKind {
    open spec fn catalog() -> Catalog {
        Catalog::Texture3DKind
    }

    open spec fn code(self) -> u32 {
        match self {
            Texture3DKind::Texture3d => 0x806F,
            Texture3DKind::Texture2dArray => 0x8C1A,
        }
    }

    fn to_gl(self) -> (c: u32) {
        match self {
            Texture3DKind::Texture3d => 0x806F,
            Texture3DKind::Texture2dArray => 0x8C1A,
        }
    }

    fn from_gl(c: u32) -> (v: Option<Self>) {
        match c {
            0x806F => Some(Texture3DKind::Texture3d),
            0x8C1A => Some(Texture3DKind::Texture2dArray),
            _ => None,
        }
    }

    proof fn lemma_injective(a: Self, b: Self) {
    }
}

/// Targets of a two-dimensional image: the 2D texture or one face of a cube map.
#[derive(Clone, Copy, Debug, PartialEq, Eq, Structural)]
pub enum TextureBindPoint {
    /// `TEXTURE_2D`
    Texture2d,
    /// `TEXTURE_CUBE_MAP_POSITIVE_X`
    TextureCubeMapPositiveX,
    /// `TEXTURE_CUBE_MAP_NEGATIVE_X`
    TextureCubeMapNegativeX,
    /// `TEXTURE_CUBE_MAP_POSITIVE_Y`
    TextureCubeMapPositiveY,
    /// `TEXTURE_CUBE_MAP_NEGATIVE_Y`
    TextureCubeMapNegativeY,
    /// `TEXTURE_CUBE_MAP_POSITIVE_Z`
    TextureCubeMapPositiveZ,
    /// `TEXTURE_CUBE_MAP_NEGATIVE_Z`
    TextureCubeMapNegativeZ,
}

impl GlEnum for TextureBindPoint {
    open spec fn catalog() -> Catalog {
        Catalog::TextureBindPoint
    }

    open spec fn code(self) -> u32 {
        match self {
            TextureBindPoint::Texture2d => 0x0DE1,
            TextureBindPoint::TextureCubeMapPositiveX => 0x8515,
            TextureBindPoint::TextureCubeMapNegativeX => 0x8516,
            TextureBindPoint::TextureCubeMapPositiveY => 0x8517,
            TextureBindPoint::TextureCubeMapNegativeY => 0x8518,
            TextureBindPoint::TextureCubeMapPositiveZ => 0x8519,
            TextureBindPoint::TextureCubeMapNegativeZ => 0x851A,
        }
    }

    fn to_gl(self) -> (c: u32) {
        match self {
            TextureBindPoint::Texture2d => 0x0DE1,
            TextureBindPoint::TextureCubeMapPositiveX => 0x8515,
            TextureBindPoint::TextureCubeMapNegativeX => 0x8516,
            TextureBindPoint::TextureCubeMapPositiveY => 0x8517,
            TextureBindPoint::TextureCubeMapNegativeY => 0x8518,
            TextureBindPoint::TextureCubeMapPositiveZ => 0x8519,
            TextureBindPoint::TextureCubeMapNegativeZ => 0x851A,
        }
    }

    fn from_gl(c: u32) -> (v: Option<Self>) {
        match c {
            0x0DE1 => Some(TextureBindPoint::Texture2d),
            0x8515 => Some(TextureBindPoint::TextureCubeMapPositiveX),
            0x8516 => Some(TextureBindPoint::TextureCubeMapNegativeX),
            0x8517 => Some(TextureBindPoint::TextureCubeMapPositiveY),
            0x8518 => Some(TextureBindPoint::TextureCubeMapNegativeY),
            0x8519 => Some(TextureBindPoint::TextureCubeMapPositiveZ),
            0x851A => Some(TextureBindPoint::TextureCubeMapNegativeZ),
            _ => None,
        }
    }

    proof fn lemma_injective(a: Self, b: Self) {
    }
}

/// Texture units.
#[derive(Clone, Copy, Debug, PartialEq, Eq, Structural)]
pub enum TextureUnit {
    /// `TEXTURE0`
    Texture0,
    /// `TEXTURE1`
    Texture1,
    /// `TEXTURE2`
    Texture2,
    /// `TEXTURE3`
    Texture3,
    /// `TEXTURE4`
    Texture4,
    /// `TEXTURE5`
    Texture5,
    /// `TEXTURE6`
    Texture6,
    /// `TEXTURE7`
    Texture7,
    /// `TEXTURE8`
    Texture8,
    /// `TEXTURE9`
    Texture9,
    /// `TEXTURE10`
    Texture10,
    /// `TEXTURE11`
    Texture11,
    /// `TEXTURE12`
    Texture12,
    /// `TEXTURE13`
    Texture13,
    /// `TEXTURE14`
    Texture14,
    /// `TEXTURE15`
    Texture15,
    /// `TEXTURE16`
    Texture16,
    /// `TEXTURE17`
    Texture17,
    /// `TEXTURE18`
    Texture18,
    /// `TEXTURE19`
    Texture19,
    /// `TEXTURE20`
    Texture20,
    /// `TEXTURE21`
    Texture21,
    /// `TEXTURE22`
    Texture22,
    /// `TEXTURE23`
    Texture23,
    /// `TEXTURE24`
    Texture24,
    /// `TEXTURE25`
    Texture25,
    /// `TEXTURE26`
    Texture26,
    /// `TEXTURE27`
    Texture27,
    /// `TEXTURE28`
    Texture28,
    /// `TEXTURE29`
    Texture29,
    /// `TEXTURE30`
    Texture30,
    /// `TEXTURE31`
    Texture31,
}

impl GlEnum for TextureUnit {
    open spec fn catalog() -> Catalog {
        Catalog::TextureUnit
    }

    open spec fn code(self) -> u32 {
        match self {
            TextureUnit::Texture0 => 0x84C0,
            TextureUnit::Texture1 => 0x84C1,
            TextureUnit::Texture2 => 0x84C2,
            TextureUnit::Texture3 => 0x84C3,
            TextureUnit::Texture4 => 0x84C4,
            TextureUnit::Texture5 => 0x84C5,
            TextureUnit::Texture6 => 0x84C6,
            TextureUnit::Texture7 => 0x84C7,
            TextureUnit::Texture8 => 0x84C8,
            TextureUnit::Texture9 => 0x84C9,
            TextureUnit::Texture10 => 0x84CA,
            TextureUnit::Texture11 => 0x84CB,
            TextureUnit::Texture12 => 0x84CC,
            TextureUnit::Texture13 => 0x84CD,
            TextureUnit::Texture14 => 0x84CE,
            TextureUnit::Texture15 => 0x84CF,
            TextureUnit::Texture16 => 0x84D0,
            TextureUnit::Texture17 => 0x84D1,
            TextureUnit::Texture18 => 0x84D2,
            TextureUnit::Texture19 => 0x84D3,
            TextureUnit::Texture20 => 0x84D4,
            TextureUnit::Texture21 => 0x84D5,
            TextureUnit::Texture22 => 0x84D6,
            TextureUnit::Texture23 => 0x84D7,
            TextureUnit::Texture24 => 0x84D8,
            TextureUnit::Texture25 => 0x84D9,
            TextureUnit::Texture26 => 0x84DA,
            TextureUnit::Texture27 => 0x84DB,
            TextureUnit::Texture28 => 0x84DC,
            TextureUnit::Texture29 => 0x84DD,
            TextureUnit::Texture30 => 0x84DE,
            TextureUnit::Texture31 => 0x84DF,
        }
    }

    fn to_gl(self) -> (c: u32) {
        match self {
            TextureUnit::Texture0 => 0x84C0,
            TextureUnit::Texture1 => 0x84C1,
            TextureUnit::Texture2 => 0x84C2,
            TextureUnit::Texture3 => 0x84C3,
            TextureUnit::Texture4 => 0x84C4,
            TextureUnit::Texture5 => 0x84C5,
            TextureUnit::Texture6 => 0x84C6,
            TextureUnit::Texture7 => 0x84C7,
            TextureUnit::Texture8 => 0x84C8,
            TextureUnit::Texture9 => 0x84C9,
            TextureUnit::Texture10 => 0x84CA,
            TextureUnit::Texture11 => 0x84CB,
            TextureUnit::Texture12 => 0x84CC,
            TextureUnit::Texture13 => 0x84CD,
            TextureUnit::Texture14 => 0x84CE,
            TextureUnit::Texture15 => 0x84CF,
            TextureUnit::Texture16 => 0x84D0,
            TextureUnit::Texture17 => 0x84D1,
            TextureUnit::Texture18 => 0x84D2,
            TextureUnit::Texture19 => 0x84D3,
            TextureUnit::Texture20 => 0x84D4,
            TextureUnit::Texture21 => 0x84D5,
            TextureUnit::Texture22 => 0x84D6,
            TextureUnit::Texture23 => 0x84D7,
            TextureUnit::Texture24 => 0x84D8,
            TextureUnit::Texture25 => 0x84D9,
            TextureUnit::Texture26 => 0x84DA,
            TextureUnit::Texture27 => 0x84DB,
            TextureUnit::Texture28 => 0x84DC,
            TextureUnit::Texture29 => 0x84DD,
            TextureUnit::Texture30 => 0x84DE,
            TextureUnit::Texture31 => 0x84DF,
        }
    }

    fn from_gl(c: u32) -> (v: Option<Self>) {
        match c {
            0x84C0 => Some(TextureUnit::Texture0),
            0x84C1 => Some(TextureUnit::Texture1),
            0x84C2 => Some(TextureUnit::Texture2),
            0x84C3 => Some(TextureUnit::Texture3),
            0x84C4 => Some(TextureUnit::Texture4),
            0x84C5 => Some(TextureUnit::Texture5),
            0x84C6 => Some(TextureUnit::Texture6),
            0x84C7 => Some(TextureUnit::Texture7),
            0x84C8 => Some(TextureUnit::Texture8),
            0x84C9 => Some(TextureUnit::Texture9),
            0x84CA => Some(TextureUnit::Texture10),
            0x84CB => Some(TextureUnit::Texture11),
            0x84CC => Some(TextureUnit::Texture12),
            0x84CD => Some(TextureUnit::Texture13),
            0x84CE => Some(TextureUnit::Texture14),
            0x84CF => Some(TextureUnit::Texture15),
            0x84D0 => Some(TextureUnit::Texture16),
            0x84D1 => Some(TextureUnit::Texture17),
            0x84D2 => Some(TextureUnit::Texture18),
            0x84D3 => Some(TextureUnit::Texture19),
            0x84D4 => Some(TextureUnit::Texture20),
            0x84D5 => Some(TextureUnit::Texture21),
            0x84D6 => Some(TextureUnit::Texture22),
            0x84D7 => Some(TextureUnit::Texture23),
            0x84D8 => Some(TextureUnit::Texture24),
            0x84D9 => Some(TextureUnit::Texture25),
            0x84DA => Some(TextureUnit::Texture26),
            0x84DB => Some(TextureUnit::Texture27),
            0x84DC => Some(TextureUnit::Texture28),
            0x84DD => Some(TextureUnit::Texture29),
            0x84DE => Some(TextureUnit::Texture30),
            0x84DF => Some(TextureUnit::Texture31),
            _ => None,
        }
    }

    proof fn lemma_injective(a: Self, b: Self) {
    }
}

/// Parameters of a texture or of a sampler.
#[derive(Clone, Copy, Debug, PartialEq, Eq, Structural)]
pub enum TextureParameter {
    /// `TEXTURE_MAG_FILTER`
    MagFilter,
    /// `TEXTURE_MIN_FILTER`
    MinFilter,
    /// `TEXTURE_WRAP_S`
    WrapS,
    /// `TEXTURE_WRAP_T`
    WrapT,
    /// `TEXTURE_WRAP_R`
    WrapR,
    /// `TEXTURE_BASE_LEVEL`
    BaseLevel,
    /// `TEXTURE_MAX_LEVEL`
    MaxLevel,
    /// `TEXTURE_MIN_LOD`
    MinLod,
    /// `TEXTURE_MAX_LOD`
    MaxLod,
    /// `TEXTURE_COMPARE_MODE`
    CompareMode,
    /// `TEXTURE_COMPARE_FUNC`
    CompareFunc,
    /// `TEXTURE_IMMUTABLE_FORMAT`
    ImmutableFormat,
    /// `TEXTURE_IMMUTABLE_LEVELS`
    ImmutableLevels,
}

impl GlEnum for TextureParameter {
    open spec fn catalog() -> Catalog {
        Catalog::TextureParameter
    }

    open spec fn code(self) -> u32 {
        match self {
            TextureParameter::MagFilter => 0x2800,
            TextureParameter::MinFilter => 0x2801,
            TextureParameter::WrapS => 0x2802,
            TextureParameter::WrapT => 0x2803,
            TextureParameter::WrapR => 0x8072,
            TextureParameter::BaseLevel => 0x813C,
            TextureParameter::MaxLevel => 0x813D,
            TextureParameter::MinLod => 0x813A,
            TextureParameter::MaxLod => 0x813B,
            TextureParameter::CompareMode => 0x884C,
            TextureParameter::CompareFunc => 0x884D,
            TextureParameter::ImmutableFormat => 0x912F,
            TextureParameter::ImmutableLevels => 0x82DF,
        }
    }

    fn to_gl(self) -> (c: u32) {
        match self {
            TextureParameter::MagFilter => 0x2800,
            TextureParameter::MinFilter => 0x2801,
            TextureParameter::WrapS => 0x2802,
            TextureParameter::WrapT => 0x2803,
            TextureParameter::WrapR => 0x8072,
            TextureParameter::BaseLevel => 0x813C,
            TextureParameter::MaxLevel => 0x813D,
            TextureParameter::MinLod => 0x813A,
            TextureParameter::MaxLod => 0x813B,
            TextureParameter::CompareMode => 0x884C,
            TextureParameter::CompareFunc => 0x884D,
            TextureParameter::ImmutableFormat => 0x912F,
            TextureParameter::ImmutableLevels => 0x82DF,
        }
    }

    fn from_gl(c: u32) -> (v: Option<Self>) {
        match c {
            0x2800 => Some(TextureParameter::MagFilter),
            0x2801 => Some(TextureParameter::MinFilter),
            0x2802 => Some(TextureParameter::WrapS),
            0x2803 => Some(TextureParameter::WrapT),
            0x8072 => Some(TextureParameter::WrapR),
            0x813A => Some(TextureParameter::MinLod),
            0x813B => Some(TextureParameter::MaxLod),
            0x813C => Some(TextureParameter::BaseLevel),
            0x813D => Some(TextureParameter::MaxLevel),
            0x82DF => Some(TextureParameter::ImmutableLevels),
            0x884C => Some(TextureParameter::CompareMode),
            0x884D => Some(TextureParameter::CompareFunc),
            0x912F => Some(TextureParameter::ImmutableFormat),
            _ => None,
        }
    }

    proof fn lemma_injective(a: Self, b: Self) {
    }
}

/// Magnification filters.
#[derive(Clone, Copy, Debug, PartialEq, Eq, Structural)]
pub enum TextureMagFilter {
    /// `NEAREST`
    Nearest,
    /// `LINEAR`
    Linear,
}

impl GlEnum for TextureMagFilter {
    open spec fn catalog() -> Catalog {
        Catalog::TextureMagFilter
    }

    open spec fn code(self) -> u32 {
        match self {
            TextureMagFilter::Nearest => 0x2600,
            TextureMagFilter::Linear => 0x2601,
        }
    }

    fn to_gl(self) -> (c: u32) {
        match self {
            TextureMagFilter::Nearest => 0x2600,
            TextureMagFilter::Linear => 0x2601,
        }
    }

    fn from_gl(c: u32) -> (v: Option<Self>) {
        match c {
            0x2600 => Some(TextureMagFilter::Nearest),
            0x2601 => Some(TextureMagFilter::Linear),
            _ => None,
        }
    }

    proof fn lemma_injective(a: Self, b: Self) {
    }
}

/// Minification filters.
#[derive(Clone, Copy, Debug, PartialEq, Eq, Structural)]
pub enum TextureMinFilter {
    /// `NEAREST`
    Nearest,
    /// `LINEAR`
    Linear,
    /// `NEAREST_MIPMAP_NEAREST`
    NearestMipmapNearest,
    /// `LINEAR_MIPMAP_NEAREST`
    LinearMipmapNearest,
    /// `NEAREST_MIPMAP_LINEAR`
    NearestMipmapLinear,
    /// `LINEAR_MIPMAP_LINEAR`
    LinearMipmapLinear,
}

impl GlEnum for TextureMinFilter {
    open spec fn catalog() -> Catalog {
        Catalog::TextureMinFilter
    }

    open spec fn code(self) -> u32 {
        match self {
            TextureMinFilter::Nearest => 0x2600,
            TextureMinFilter::Linear => 0x2601,
            TextureMinFilter::NearestMipmapNearest => 0x2700,
            TextureMinFilter::LinearMipmapNearest => 0x2701,
            TextureMinFilter::NearestMipmapLinear => 0x2702,
            TextureMinFilter::LinearMipmapLinear => 0x2703,
        }
    }

    fn to_gl(self) -> (c: u32) {
        match self {
            TextureMinFilter::Nearest => 0x2600,
            TextureMinFilter::Linear => 0x2601,
            TextureMinFilter::NearestMipmapNearest => 0x2700,
            TextureMinFilter::LinearMipmapNearest => 0x2701,
            TextureMinFilter::NearestMipmapLinear => 0x2702,
            TextureMinFilter::LinearMipmapLinear => 0x2703,
        }
    }

    fn from_gl(c: u32) -> (v: Option<Self>) {
        match c {
            0x2600 => Some(TextureMinFilter::Nearest),
            0x2601 => Some(TextureMinFilter::Linear),
            0x2700 => Some(TextureMinFilter::NearestMipmapNearest),
            0x2701 => Some(TextureMinFilter::LinearMipmapNearest),
            0x2702 => Some(TextureMinFilter::NearestMipmapLinear),
            0x2703 => Some(TextureMinFilter::LinearMipmapLinear),
            _ => None,
        }
    }

    proof fn lemma_injective(a: Self, b: Self) {
    }
}

/// Wrapping functions of texture coordinates.
#[derive(Clone, Copy, Debug, PartialEq, Eq, Structural)]
pub enum TextureWrap {
    /// `REPEAT`
    Repeat,
    /// `CLAMP_TO_EDGE`
    ClampToEdge,
    /// `MIRRORED_REPEAT`
    MirroredRepeat,
}

impl GlEnum for TextureWrap {
    open spec fn catalog() -> Catalog {
        Catalog::TextureWrap
    }

    open spec fn code(self) -> u32 {
        match self {
            TextureWrap::Repeat => 0x2901,
            TextureWrap::ClampToEdge => 0x812F,
            TextureWrap::MirroredRepeat => 0x8370,
        }
    }

    fn to_gl(self) -> (c: u32) {
        match self {
            TextureWrap::Repeat => 0x2901,
            TextureWrap::ClampToEdge => 0x812F,
            TextureWrap::MirroredRepeat => 0x8370,
        }
    }

    fn from_gl(c: u32) -> (v: Option<Self>) {
        match c {
            0x2901 => Some(TextureWrap::Repeat),
            0x812F => Some(TextureWrap::ClampToEdge),
            0x8370 => Some(TextureWrap::MirroredRepeat),
            _ => None,
        }
    }

    proof fn lemma_injective(a: Self, b: Self) {
    }
}

/// Comparison functions of the depth test and of texture comparison.
#[derive(Clone, Copy, Debug, PartialEq, Eq, Structural)]
pub enum DepthTest {
    /// `NEVER`
    Never,
    /// `LESS`
    Less,
    /// `EQUAL`
    Equal,
    /// `LEQUAL`
    Lequal,
    /// `GREATER`
    Greater,
    /// `NOTEQUAL`
    Notequal,
    /// `GEQUAL`
    Gequal,
    /// `ALWAYS`
    Always,
}

impl GlEnum for DepthTest {
    open spec fn catalog() -> Catalog {
        Catalog::DepthTest
    }

    open spec fn code(self) -> u32 {
        match self {
            DepthTest::Never => 0x0200,
            DepthTest::Less => 0x0201,
            DepthTest::Equal => 0x0202,
            DepthTest::Lequal => 0x0203,
            DepthTest::Greater => 0x0204,
            DepthTest::Notequal => 0x0205,
            DepthTest::Gequal => 0x0206,
            DepthTest::Always => 0x0207,
        }
    }

    fn to_gl(self) -> (c: u32) {
        match self {
            DepthTest::Never => 0x0200,
            DepthTest::Less => 0x0201,
            DepthTest::Equal => 0x0202,
            DepthTest::Lequal => 0x0203,
            DepthTest::Greater => 0x0204,
            DepthTest::Notequal => 0x0205,
            DepthTest::Gequal => 0x0206,
            DepthTest::Always => 0x0207,
        }
    }

    fn from_gl(c: u32) -> (v: Option<Self>) {
        match c {
            0x0200 => Some(DepthTest::Never),
            0x0201 => Some(DepthTest::Less),
            0x0202 => Some(DepthTest::Equal),
            0x0203 => Some(DepthTest::Lequal),
            0x0204 => Some(DepthTest::Greater),
            0x0205 => Some(DepthTest::Notequal),
            0x0206 => Some(DepthTest::Gequal),
            0x0207 => Some(DepthTest::Always),
            _ => None,
        }
    }

    proof fn lemma_injective(a: Self, b: Self) {
    }
}

/// Comparison functions of the stencil test.
#[derive(Clone, Copy, Debug, PartialEq, Eq, Structural)]
pub enum StencilTest {
    /// `NEVER`
    Never,
    /// `LESS`
    Less,
    /// `EQUAL`
    Equal,
    /// `LEQUAL`
    Lequal,
    /// `GREATER`
    Greater,
    /// `NOTEQUAL`
    Notequal,
    /// `GEQUAL`
    Gequal,
    /// `ALWAYS`
    Always,
}

impl GlEnum for StencilTest {
    open spec fn catalog() -> Catalog {
        Catalog::StencilTest
    }

    open spec fn code(self) -> u32 {
        match self {
            StencilTest::Never => 0x0200,
            StencilTest::Less => 0x0201,
            StencilTest::Equal => 0x0202,
            StencilTest::Lequal => 0x0203,
            StencilTest::Greater => 0x0204,
            StencilTest::Notequal => 0x0205,
            StencilTest::Gequal => 0x0206,
            StencilTest::Always => 0x0207,
        }
    }

    fn to_gl(self) -> (c: u32) {
        match self {
            StencilTest::Never => 0x0200,
            StencilTest::Less => 0x0201,
            StencilTest::Equal => 0x0202,
            StencilTest::Lequal => 0x0203,
            StencilTest::Greater => 0x0204,
            StencilTest::Notequal => 0x0205,
            StencilTest::Gequal => 0x0206,
            StencilTest::Always => 0x0207,
        }
    }

    fn from_gl(c: u32) -> (v: Option<Self>) {
        match c {
            0x0200 => Some(StencilTest::Never),
            0x0201 => Some(StencilTest::Less),
            0x0202 => Some(StencilTest::Equal),
            0x0203 => Some(StencilTest::Lequal),
            0x0204 => Some(StencilTest::Greater),
            0x0205 => Some(StencilTest::Notequal),
            0x0206 => Some(StencilTest::Gequal),
            0x0207 => Some(StencilTest::Always),
            _ => None,
        }
    }

    proof fn lemma_injective(a: Self, b: Self) {
    }
}

/// Actions on the stencil buffer.
#[derive(Clone, Copy, Debug, PartialEq, Eq, Structural)]
pub enum StencilAction {
    /// `KEEP`
    Keep,
    /// `ZERO`
    Zero,
    /// `REPLACE`
    Replace,
    /// `INCR`
    Incr,
    /// `INCR_WRAP`
    IncrWrap,
    /// `DECR`
    Decr,
    /// `DECR_WRAP`
    DecrWrap,
    /// `INVERT`
    Invert,
}

impl GlEnum for StencilAction {
    open spec fn catalog() -> Catalog {
        Catalog::StencilAction
    }

    open spec fn code(self) -> u32 {
        match self {
            StencilAction::Keep => 0x1E00,
            StencilAction::Zero => 0,
            StencilAction::Replace => 0x1E01,
            StencilAction::Incr => 0x1E02,
            StencilAction::IncrWrap => 0x8507,
            StencilAction::Decr => 0x1E03,
            StencilAction::DecrWrap => 0x8508,
            StencilAction::Invert => 0x150A,
        }
    }

    fn to_gl(self) -> (c: u32) {
        match self {
            StencilAction::Keep => 0x1E00,
            StencilAction::Zero => 0,
            StencilAction::Replace => 0x1E01,
            StencilAction::Incr => 0x1E02,
            StencilAction::IncrWrap => 0x8507,
            StencilAction::Decr => 0x1E03,
            StencilAction::DecrWrap => 0x8508,
            StencilAction::Invert => 0x150A,
        }
    }

    fn from_gl(c: u32) -> (v: Option<Self>) {
        match c {
            0 => Some(StencilAction::Zero),
            0x150A => Some(StencilAction::Invert),
            0x1E00 => Some(StencilAction::Keep),
            0x1E01 => Some(StencilAction::Replace),
            0x1E02 => Some(StencilAction::Incr),
            0x1E03 => Some(StencilAction::Decr),
            0x8507 => Some(StencilAction::IncrWrap),
            0x8508 => Some(StencilAction::DecrWrap),
            _ => None,
        }
    }

    proof fn lemma_injective(a: Self, b: Self) {
    }
}

/// Texture comparison modes.
#[derive(Clone, Copy, Debug, PartialEq, Eq, Structural)]
pub enum CompareMode {
    /// `NONE`
    NoCompare,
    /// `COMPARE_REF_TO_TEXTURE`
    CompareRefToTexture,
}

impl GlEnum for CompareMode {
    open spec fn catalog() -> Catalog {
        Catalog::CompareMode
    }

    open spec fn code(self) -> u32 {
        match self {
            CompareMode::NoCompare => 0,
            CompareMode::CompareRefToTexture => 0x884E,
        }
    }

    fn to_gl(self) -> (c: u32) {
        match self {
            CompareMode::NoCompare => 0,
            CompareMode::CompareRefToTexture => 0x884E,
        }
    }

    fn from_gl(c: u32) -> (v: Option<Self>) {
        match c {
            0 => Some(CompareMode::NoCompare),
            0x884E => Some(CompareMode::CompareRefToTexture),
            _ => None,
        }
    }

    proof fn lemma_injective(a: Self, b: Self) {
    }
}

/// Formats of texel data and of a texture's color components.
#[derive(Clone, Copy, Debug, PartialEq, Eq, Structural)]
pub enum PixelCopyFormat {
    /// `ALPHA`
    Alpha,
    /// `RGB`
    Rgb,
    /// `RGBA`
    Rgba,
    /// `LUMINANCE`
    Luminance,
    /// `LUMINANCE_ALPHA`
    LuminanceAlpha,
    /// `DEPTH_COMPONENT`
    DepthComponent,
    /// `DEPTH_STENCIL`
    DepthStencil,
    /// `RED`
    Red,
    /// `RG`
    Rg,
    /// `RED_INTEGER`
    RedInteger,
    /// `RG_INTEGER`
    RgInteger,
    /// `RGB_INTEGER`
    RgbInteger,
    /// `RGBA_INTEGER`
    RgbaInteger,
    /// `R8`
    R8,
    /// `R8_SNORM`
    R8Snorm,
    /// `R16F`
    R16f,
    /// `R32F`
    R32f,
    /// `R8UI`
    R8ui,
    /// `R8I`
    R8i,
    /// `R16UI`
    R16ui,
    /// `R16I`
    R16i,
    /// `R32UI`
    R32ui,
    /// `R32I`
    R32i,
    /// `RG8`
    Rg8,
    /// `RG8_SNORM`
    Rg8Snorm,
    /// `RG16F`
    Rg16f,
    /// `RG32F`
    Rg32f,
    /// `RG8UI`
    Rg8ui,
    /// `RG8I`
    Rg8i,
    /// `RG16UI`
    Rg16ui,
    /// `RG16I`
    Rg16i,
    /// `RG32UI`
    Rg32ui,
    /// `RG32I`
    Rg32i,
    /// `RGB8`
    Rgb8,
    /// `SRGB8`
    Srgb8,
    /// `RGB565`
    Rgb565,
    /// `RGB8_SNORM`
    Rgb8Snorm,
    /// `R11F_G11F_B10F`
    R11fG11fB10f,
    /// `RGB9_E5`
    Rgb9E5,
    /// `RGB16F`
    Rgb16f,
    /// `RGB32F`
    Rgb32f,
    /// `RGB8UI`
    Rgb8ui,
    /// `RGB8I`
    Rgb8i,
    /// `RGB16UI`
    Rgb16ui,
    /// `RGB16I`
    Rgb16i,
    /// `RGB32UI`
    Rgb32ui,
    /// `RGB32I`
    Rgb32i,
    /// `RGBA8`
    Rgba8,
    /// `SRGB8_ALPHA8`
    Srgb8Alpha8,
    /// `RGBA8_SNORM`
    Rgba8Snorm,
    /// `RGB5_A1`
    Rgb5A1,
    /// `RGBA4`
    Rgba4,
    /// `RGB10_A2`
    Rgb10A2,
    /// `RGBA16F`
    Rgba16f,
    /// `RGBA32F`
    Rgba32f,
    /// `RGBA8UI`
    Rgba8ui,
    /// `RGBA8I`
    Rgba8i,
    /// `RGB10_A2UI`
    Rgb10A2ui,
    /// `RGBA16UI`
    Rgba16ui,
    /// `RGBA16I`
    Rgba16i,
    /// `RGBA32I`
    Rgba32i,
    /// `RGBA32UI`
    Rgba32ui,
    /// `DEPTH_COMPONENT16`
    DepthComponent16,
    /// `DEPTH_COMPONENT24`
    DepthComponent24,
    /// `DEPTH_COMPONENT32F`
    DepthComponent32f,
    /// `DEPTH24_STENCIL8`
    Depth24Stencil8,
    /// `DEPTH32F_STENCIL8`
    Depth32fStencil8,
}

impl GlEnum for PixelCopyFormat {
    open spec fn catalog() -> Catalog {
        Catalog::PixelCopyFormat
    }

    open spec fn code(self) -> u32 {
        match self {
            PixelCopyFormat::Alpha => 0x1906,
            PixelCopyFormat::Rgb => 0x1907,
            PixelCopyFormat::Rgba => 0x1908,
            PixelCopyFormat::Luminance => 0x1909,
            PixelCopyFormat::LuminanceAlpha => 0x190A,
            PixelCopyFormat::DepthComponent => 0x1902,
            PixelCopyFormat::DepthStencil => 0x84F9,
            PixelCopyFormat::Red => 0x1903,
            PixelCopyFormat::Rg => 0x8227,
            PixelCopyFormat::RedInteger => 0x8D94,
            PixelCopyFormat::RgInteger => 0x8228,
            PixelCopyFormat::RgbInteger => 0x8D98,
            PixelCopyFormat::RgbaInteger => 0x8D99,
            PixelCopyFormat::R8 => 0x8229,
            PixelCopyFormat::R8Snorm => 0x8F94,
            PixelCopyFormat::R16f => 0x822D,
            PixelCopyFormat::R32f => 0x822E,
            PixelCopyFormat::R8ui => 0x8232,
            PixelCopyFormat::R8i => 0x8231,
            PixelCopyFormat::R16ui => 0x8234,
            PixelCopyFormat::R16i => 0x8233,
            PixelCopyFormat::R32ui => 0x8236,
            PixelCopyFormat::R32i => 0x8235,
            PixelCopyFormat::Rg8 => 0x822B,
            PixelCopyFormat::Rg8Snorm => 0x8F95,
            PixelCopyFormat::Rg16f => 0x822F,
            PixelCopyFormat::Rg32f => 0x8230,
            PixelCopyFormat::Rg8ui => 0x8238,
            PixelCopyFormat::Rg8i => 0x8237,
            PixelCopyFormat::Rg16ui => 0x823A,
            PixelCopyFormat::Rg16i => 0x8239,
            PixelCopyFormat::Rg32ui => 0x823C,
            PixelCopyFormat::Rg32i => 0x823B,
            PixelCopyFormat::Rgb8 => 0x8051,
            PixelCopyFormat::Srgb8 => 0x8C41,
            PixelCopyFormat::Rgb565 => 0x8D62,
            PixelCopyFormat::Rgb8Snorm => 0x8F96,
            PixelCopyFormat::R11fG11fB10f => 0x8C3A,
            PixelCopyFormat::Rgb9E5 => 0x8C3D,
            PixelCopyFormat::Rgb16f => 0x881B,
            PixelCopyFormat::Rgb32f => 0x8815,
            PixelCopyFormat::Rgb8ui => 0x8D7D,
            PixelCopyFormat::Rgb8i => 0x8D8F,
            PixelCopyFormat::Rgb16ui => 0x8D77,
            PixelCopyFormat::Rgb16i => 0x8D89,
            PixelCopyFormat::Rgb32ui => 0x8D71,
            PixelCopyFormat::Rgb32i => 0x8D83,
            PixelCopyFormat::Rgba8 => 0x8058,
            PixelCopyFormat::Srgb8Alpha8 => 0x8C43,
            PixelCopyFormat::Rgba8Snorm => 0x8F97,
            PixelCopyFormat::Rgb5A1 => 0x8057,
            PixelCopyFormat::Rgba4 => 0x8056,
            PixelCopyFormat::Rgb10A2 => 0x8059,
            PixelCopyFormat::Rgba16f => 0x881A,
            PixelCopyFormat::Rgba32f => 0x8814,
            PixelCopyFormat::Rgba8ui => 0x8D7C,
            PixelCopyFormat::Rgba8i => 0x8D8E,
            PixelCopyFormat::Rgb10A2ui => 0x906F,
            PixelCopyFormat::Rgba16ui => 0x8D76,
            PixelCopyFormat::Rgba16i => 0x8D88,
            PixelCopyFormat::Rgba32i => 0x8D82,
            PixelCopyFormat::Rgba32ui => 0x8D70,
            PixelCopyFormat::DepthComponent16 => 0x81A5,
            PixelCopyFormat::DepthComponent24 => 0x81A6,
            PixelCopyFormat::DepthComponent32f => 0x8CAC,
            PixelCopyFormat::Depth24Stencil8 => 0x88F0,
            PixelCopyFormat::Depth32fStencil8 => 0x8CAD,
        }
    }

    fn to_gl(self) -> (c: u32) {
        match self {
            PixelCopyFormat::Alpha => 0x1906,
            PixelCopyFormat::Rgb => 0x1907,
            PixelCopyFormat::Rgba => 0x1908,
            PixelCopyFormat::Luminance => 0x1909,
            PixelCopyFormat::LuminanceAlpha => 0x190A,
            PixelCopyFormat::DepthComponent => 0x1902,
            PixelCopyFormat::DepthStencil => 0x84F9,
            PixelCopyFormat::Red => 0x1903,
            PixelCopyFormat::Rg => 0x8227,
            PixelCopyFormat::RedInteger => 0x8D94,
            PixelCopyFormat::RgInteger => 0x8228,
            PixelCopyFormat::RgbInteger => 0x8D98,
            PixelCopyFormat::RgbaInteger => 0x8D99,
            PixelCopyFormat::R8 => 0x8229,
            PixelCopyFormat::R8Snorm => 0x8F94,
            PixelCopyFormat::R16f => 0x822D,
            PixelCopyFormat::R32f => 0x822E,
            PixelCopyFormat::R8ui => 0x8232,
            PixelCopyFormat::R8i => 0x8231,
            PixelCopyFormat::R16ui => 0x8234,
            PixelCopyFormat::R16i => 0x8233,
            PixelCopyFormat::R32ui => 0x8236,
            PixelCopyFormat::R32i => 0x8235,
            PixelCopyFormat::Rg8 => 0x822B,
            PixelCopyFormat::Rg8Snorm => 0x8F95,
            PixelCopyFormat::Rg16f => 0x822F,
            PixelCopyFormat::Rg32f => 0x8230,
            PixelCopyFormat::Rg8ui => 0x8238,
            PixelCopyFormat::Rg8i => 0x8237,
            PixelCopyFormat::Rg16ui => 0x823A,
            PixelCopyFormat::Rg16i => 0x8239,
            PixelCopyFormat::Rg32ui => 0x823C,
            PixelCopyFormat::Rg32i => 0x823B,
            PixelCopyFormat::Rgb8 => 0x8051,
            PixelCopyFormat::Srgb8 => 0x8C41,
            PixelCopyFormat::Rgb565 => 0x8D62,
            PixelCopyFormat::Rgb8Snorm => 0x8F96,
            PixelCopyFormat::R11fG11fB10f => 0x8C3A,
            PixelCopyFormat::Rgb9E5 => 0x8C3D,
            PixelCopyFormat::Rgb16f => 0x881B,
            PixelCopyFormat::Rgb32f => 0x8815,
            PixelCopyFormat::Rgb8ui => 0x8D7D,
            PixelCopyFormat::Rgb8i => 0x8D8F,
            PixelCopyFormat::Rgb16ui => 0x8D77,
            PixelCopyFormat::Rgb16i => 0x8D89,
            PixelCopyFormat::Rgb32ui => 0x8D71,
            PixelCopyFormat::Rgb32i => 0x8D83,
            PixelCopyFormat::Rgba8 => 0x8058,
            PixelCopyFormat::Srgb8Alpha8 => 0x8C43,
            PixelCopyFormat::Rgba8Snorm => 0x8F97,
            PixelCopyFormat::Rgb5A1 => 0x8057,
            PixelCopyFormat::Rgba4 => 0x8056,
            PixelCopyFormat::Rgb10A2 => 0x8059,
            PixelCopyFormat::Rgba16f => 0x881A,
            PixelCopyFormat::Rgba32f => 0x8814,
            PixelCopyFormat::Rgba8ui => 0x8D7C,
            PixelCopyFormat::Rgba8i => 0x8D8E,
            PixelCopyFormat::Rgb10A2ui => 0x906F,
            PixelCopyFormat::Rgba16ui => 0x8D76,
            PixelCopyFormat::Rgba16i => 0x8D88,
            PixelCopyFormat::Rgba32i => 0x8D82,
            PixelCopyFormat::Rgba32ui => 0x8D70,
            PixelCopyFormat::DepthComponent16 => 0x81A5,
            PixelCopyFormat::DepthComponent24 => 0x81A6,
            PixelCopyFormat::DepthComponent32f => 0x8CAC,
            PixelCopyFormat::Depth24Stencil8 => 0x88F0,
            PixelCopyFormat::Depth32fStencil8 => 0x8CAD,
        }
    }

    fn from_gl(c: u32) -> (v: Option<Self>) {
        match c {
            0x1902 => Some(PixelCopyFormat::DepthComponent),
            0x1903 => Some(PixelCopyFormat::Red),
            0x1906 => Some(PixelCopyFormat::Alpha),
            0x1907 => Some(PixelCopyFormat::Rgb),
            0x1908 => Some(PixelCopyFormat::Rgba),
            0x1909 => Some(PixelCopyFormat::Luminance),
            0x190A => Some(PixelCopyFormat::LuminanceAlpha),
            0x8051 => Some(PixelCopyFormat::Rgb8),
            0x8056 => Some(PixelCopyFormat::Rgba4),
            0x8057 => Some(PixelCopyFormat::Rgb5A1),
            0x8058 => Some(PixelCopyFormat::Rgba8),
            0x8059 => Some(PixelCopyFormat::Rgb10A2),
            0x81A5 => Some(PixelCopyFormat::DepthComponent16),
            0x81A6 => Some(PixelCopyFormat::DepthComponent24),
            0x8227 => Some(PixelCopyFormat::Rg),
            0x8228 => Some(PixelCopyFormat::RgInteger),
            0x8229 => Some(PixelCopyFormat::R8),
            0x822B => Some(PixelCopyFormat::Rg8),
            0x822D => Some(PixelCopyFormat::R16f),
            0x822E => Some(PixelCopyFormat::R32f),
            0x822F => Some(PixelCopyFormat::Rg16f),
            0x8230 => Some(PixelCopyFormat::Rg32f),
            0x8231 => Some(PixelCopyFormat::R8i),
            0x8232 => Some(PixelCopyFormat::R8ui),
            0x8233 => Some(PixelCopyFormat::R16i),
            0x8234 => Some(PixelCopyFormat::R16ui),
            0x8235 => Some(PixelCopyFormat::R32i),
            0x8236 => Some(PixelCopyFormat::R32ui),
            0x8237 => Some(PixelCopyFormat::Rg8i),
            0x8238 => Some(PixelCopyFormat::Rg8ui),
            0x8239 => Some(PixelCopyFormat::Rg16i),
            0x823A => Some(PixelCopyFormat::Rg16ui),
            0x823B => Some(PixelCopyFormat::Rg32i),
            0x823C => Some(PixelCopyFormat::Rg32ui),
            0x84F9 => Some(PixelCopyFormat::DepthStencil),
            0x8814 => Some(PixelCopyFormat::Rgba32f),
            0x8815 => Some(PixelCopyFormat::Rgb32f),
            0x881A => Some(PixelCopyFormat::Rgba16f),
            0x881B => Some(PixelCopyFormat::Rgb16f),
            0x88F0 => Some(PixelCopyFormat::Depth24Stencil8),
            0x8C3A => Some(PixelCopyFormat::R11fG11fB10f),
            0x8C3D => Some(PixelCopyFormat::Rgb9E5),
            0x8C41 => Some(PixelCopyFormat::Srgb8),
            0x8C43 => Some(PixelCopyFormat::Srgb8Alpha8),
            0x8CAC => Some(PixelCopyFormat::DepthComponent32f),
            0x8CAD => Some(PixelCopyFormat::Depth32fStencil8),
            0x8D62 => Some(PixelCopyFormat::Rgb565),
            0x8D70 => Some(PixelCopyFormat::Rgba32ui),
            0x8D71 => Some(PixelCopyFormat::Rgb32ui),
            0x8D76 => Some(PixelCopyFormat::Rgba16ui),
            0x8D77 => Some(PixelCopyFormat::Rgb16ui),
            0x8D7C => Some(PixelCopyFormat::Rgba8ui),
            0x8D7D => Some(PixelCopyFormat::Rgb8ui),
            0x8D82 => Some(PixelCopyFormat::Rgba32i),
            0x8D83 => Some(PixelCopyFormat::Rgb32i),
            0x8D88 => Some(PixelCopyFormat::Rgba16i),
            0x8D89 => Some(PixelCopyFormat::Rgb16i),
            0x8D8E => Some(PixelCopyFormat::Rgba8i),
            0x8D8F => Some(PixelCopyFormat::Rgb8i),
            0x8D94 => Some(PixelCopyFormat::RedInteger),
            0x8D98 => Some(PixelCopyFormat::RgbInteger),
            0x8D99 => Some(PixelCopyFormat::RgbaInteger),
            0x8F94 => Some(PixelCopyFormat::R8Snorm),
            0x8F95 => Some(PixelCopyFormat::Rg8Snorm),
            0x8F96 => Some(PixelCopyFormat::Rgb8Snorm),
            0x8F97 => Some(PixelCopyFormat::Rgba8Snorm),
            0x906F => Some(PixelCopyFormat::Rgb10A2ui),
            _ => None,
        }
    }

    proof fn lemma_injective(a: Self, b: Self) {
    }
}

/// Formats in which pixels are read back.
#[derive(Clone, Copy, Debug, PartialEq, Eq, Structural)]
pub enum PixelReadFormat {
    /// `ALPHA`
    Alpha,
    /// `RGB`
    Rgb,
    /// `RGBA`
    Rgba,
    /// `RED`
    Red,
    /// `RG`
    Rg,
    /// `RED_INTEGER`
    RedInteger,
    /// `RG_INTEGER`
    RgInteger,
    /// `RGB_INTEGER`
    RgbInteger,
    /// `RGBA_INTEGER`
    RgbaInteger,
}

impl GlEnum for PixelReadFormat {
    open spec fn catalog() -> Catalog {
        Catalog::PixelReadFormat
    }

    open spec fn code(self) -> u32 {
        match self {
            PixelReadFormat::Alpha => 0x1906,
            PixelReadFormat::Rgb => 0x1907,
            PixelReadFormat::Rgba => 0x1908,
            PixelReadFormat::Red => 0x1903,
            PixelReadFormat::Rg => 0x8227,
            PixelReadFormat::RedInteger => 0x8D94,
            PixelReadFormat::RgInteger => 0x8228,
            PixelReadFormat::RgbInteger => 0x8D98,
            PixelReadFormat::RgbaInteger => 0x8D99,
        }
    }

    fn to_gl(self) -> (c: u32) {
        match self {
            PixelReadFormat::Alpha => 0x1906,
            PixelReadFormat::Rgb => 0x1907,
            PixelReadFormat::Rgba => 0x1908,
            PixelReadFormat::Red => 0x1903,
            PixelReadFormat::Rg => 0x8227,
            PixelReadFormat::RedInteger => 0x8D94,
            PixelReadFormat::RgInteger => 0x8228,
            PixelReadFormat::RgbInteger => 0x8D98,
            PixelReadFormat::RgbaInteger => 0x8D99,
        }
    }

    fn from_gl(c: u32) -> (v: Option<Self>) {
        match c {
            0x1903 => Some(PixelReadFormat::Red),
            0x1906 => Some(PixelReadFormat::Alpha),
            0x1907 => Some(PixelReadFormat::Rgb),
            0x1908 => Some(PixelReadFormat::Rgba),
            0x8227 => Some(PixelReadFormat::Rg),
            0x8228 => Some(PixelReadFormat::RgInteger),
            0x8D94 => Some(PixelReadFormat::RedInteger),
            0x8D98 => Some(PixelReadFormat::RgbInteger),
            0x8D99 => Some(PixelReadFormat::RgbaInteger),
            _ => None,
        }
    }

    proof fn lemma_injective(a: Self, b: Self) {
    }
}

/// Data types of pixel data.
#[derive(Clone, Copy, Debug, PartialEq, Eq, Structural)]
pub enum PixelType {
    /// `UNSIGNED_BYTE`
    UnsignedByte,
    /// `BYTE`
    Byte,
    /// `UNSIGNED_SHORT`
    UnsignedShort,
    /// `SHORT`
    Short,
    /// `UNSIGNED_INT`
    UnsignedInt,
    /// `INT`
    Int,
    /// `HALF_FLOAT`
    HalfFloat,
    /// `FLOAT`
    Float,
    /// `UNSIGNED_SHORT_5_6_5`
    UnsignedShort565,
    /// `UNSIGNED_SHORT_4_4_4_4`
    UnsignedShort4444,
    /// `UNSIGNED_SHORT_5_5_5_1`
    UnsignedShort5551,
    /// `UNSIGNED_INT_2_10_10_10_REV`
    UnsignedInt2101010Rev,
    /// `UNSIGNED_INT_10F_11F_11F_REV`
    UnsignedInt10f11f11fRev,
    /// `UNSIGNED_INT_5_9_9_9_REV`
    UnsignedInt5999Rev,
    /// `UNSIGNED_INT_24_8`
    UnsignedInt248,
    /// `FLOAT_32_UNSIGNED_INT_24_8_REV`
    Float32UnsignedInt248Rev,
}

impl GlEnum for PixelType {
    open spec fn catalog() -> Catalog {
        Catalog::PixelType
    }

    open spec fn code(self) -> u32 {
        match self {
            PixelType::UnsignedByte => 0x1401,
            PixelType::Byte => 0x1400,
            PixelType::UnsignedShort => 0x1403,
            PixelType::Short => 0x1402,
            PixelType::UnsignedInt => 0x1405,
            PixelType::Int => 0x1404,
            PixelType::HalfFloat => 0x140B,
            PixelType::Float => 0x1406,
            PixelType::UnsignedShort565 => 0x8363,
            PixelType::UnsignedShort4444 => 0x8033,
            PixelType::UnsignedShort5551 => 0x8034,
            PixelType::UnsignedInt2101010Rev => 0x8368,
            PixelType::UnsignedInt10f11f11fRev => 0x8C3B,
            PixelType::UnsignedInt5999Rev => 0x8C3E,
            PixelType::UnsignedInt248 => 0x84FA,
            PixelType::Float32UnsignedInt248Rev => 0x8DAD,
        }
    }

    fn to_gl(self) -> (c: u32) {
        match self {
            PixelType::UnsignedByte => 0x1401,
            PixelType::Byte => 0x1400,
            PixelType::UnsignedShort => 0x1403,
            PixelType::Short => 0x1402,
            PixelType::UnsignedInt => 0x1405,
            PixelType::Int => 0x1404,
            PixelType::HalfFloat => 0x140B,
            PixelType::Float => 0x1406,
            PixelType::UnsignedShort565 => 0x8363,
            PixelType::UnsignedShort4444 => 0x8033,
            PixelType::UnsignedShort5551 => 0x8034,
            PixelType::UnsignedInt2101010Rev => 0x8368,
            PixelType::UnsignedInt10f11f11fRev => 0x8C3B,
            PixelType::UnsignedInt5999Rev => 0x8C3E,
            PixelType::UnsignedInt248 => 0x84FA,
            PixelType::Float32UnsignedInt248Rev => 0x8DAD,
        }
    }

    fn from_gl(c: u32) -> (v: Option<Self>) {
        match c {
            0x1400 => Some(PixelType::Byte),
            0x1401 => Some(PixelType::UnsignedByte),
            0x1402 => Some(PixelType::Short),
            0x1403 => Some(PixelType::UnsignedShort),
            0x1404 => Some(PixelType::Int),
            0x1405 => Some(PixelType::UnsignedInt),
            0x1406 => Some(PixelType::Float),
            0x140B => Some(PixelType::HalfFloat),
            0x8033 => Some(PixelType::UnsignedShort4444),
            0x8034 => Some(PixelType::UnsignedShort5551),
            0x8363 => Some(PixelType::UnsignedShort565),
            0x8368 => Some(PixelType::UnsignedInt2101010Rev),
            0x84FA => Some(PixelType::UnsignedInt248),
            0x8C3B => Some(PixelType::UnsignedInt10f11f11fRev),
            0x8C3E => Some(PixelType::UnsignedInt5999Rev),
            0x8DAD => Some(PixelType::Float32UnsignedInt248Rev),
            _ => None,
        }
    }

    proof fn lemma_injective(a: Self, b: Self) {
    }
}

/// Pixel storage parameters.
#[derive(Clone, Copy, Debug, PartialEq, Eq, Structural)]
pub enum PixelStorageMode {
    /// `PACK_ALIGNMENT`
    PackAlignment,
    /// `UNPACK_ALIGNMENT`
    UnpackAlignment,
    /// `UNPACK_FLIP_Y_WEBGL`
    UnpackFlipY,
    /// `UNPACK_PREMULTIPLY_ALPHA_WEBGL`
    UnpackPremultiplyAlpha,
    /// `UNPACK_COLORSPACE_CONVERSION_WEBGL`
    UnpackColorspaceConversion,
    /// `PACK_ROW_LENGTH`
    PackRowLength,
    /// `PACK_SKIP_PIXELS`
    PackSkipPixels,
    /// `PACK_SKIP_ROWS`
    PackSkipRows,
    /// `UNPACK_ROW_LENGTH`
    UnpackRowLength,
    /// `UNPACK_IMAGE_HEIGHT`
    UnpackImageHeight,
    /// `UNPACK_SKIP_PIXELS`
    UnpackSkipPixels,
    /// `UNPACK_SKIP_ROWS`
    UnpackSkipRows,
    /// `UNPACK_SKIP_IMAGES`
    UnpackSkipImages,
}

impl GlEnum for PixelStorageMode {
    open spec fn catalog() -> Catalog {
        Catalog::PixelStorageMode
    }

    open spec fn code(self) -> u32 {
        match self {
            PixelStorageMode::PackAlignment => 0x0D05,
            PixelStorageMode::UnpackAlignment => 0x0CF5,
            PixelStorageMode::UnpackFlipY => 0x9240,
            PixelStorageMode::UnpackPremultiplyAlpha => 0x9241,
            PixelStorageMode::UnpackColorspaceConversion => 0x9243,
            PixelStorageMode::PackRowLength => 0x0D02,
            PixelStorageMode::PackSkipPixels => 0x0D04,
            PixelStorageMode::PackSkipRows => 0x0D03,
            PixelStorageMode::UnpackRowLength => 0x0CF2,
            PixelStorageMode::UnpackImageHeight => 0x806E,
            PixelStorageMode::UnpackSkipPixels => 0x0CF4,
            PixelStorageMode::UnpackSkipRows => 0x0CF3,
            PixelStorageMode::UnpackSkipImages => 0x806D,
        }
    }

    fn to_gl(self) -> (c: u32) {
        match self {
            PixelStorageMode::PackAlignment => 0x0D05,
            PixelStorageMode::UnpackAlignment => 0x0CF5,
            PixelStorageMode::UnpackFlipY => 0x9240,
            PixelStorageMode::UnpackPremultiplyAlpha => 0x9241,
            PixelStorageMode::UnpackColorspaceConversion => 0x9243,
            PixelStorageMode::PackRowLength => 0x0D02,
            PixelStorageMode::PackSkipPixels => 0x0D04,
            PixelStorageMode::PackSkipRows => 0x0D03,
            PixelStorageMode::UnpackRowLength => 0x0CF2,
            PixelStorageMode::UnpackImageHeight => 0x806E,
            PixelStorageMode::UnpackSkipPixels => 0x0CF4,
            PixelStorageMode::UnpackSkipRows => 0x0CF3,
            PixelStorageMode::UnpackSkipImages => 0x806D,
        }
    }

    fn from_gl(c: u32) -> (v: Option<Self>) {
        match c {
            0x0CF2 => Some(PixelStorageMode::UnpackRowLength),
            0x0CF3 => Some(PixelStorageMode::UnpackSkipRows),
            0x0CF4 => Some(PixelStorageMode::UnpackSkipPixels),
            0x0CF5 => Some(PixelStorageMode::UnpackAlignment),
            0x0D02 => Some(PixelStorageMode::PackRowLength),
            0x0D03 => Some(PixelStorageMode::PackSkipRows),
            0x0D04 => Some(PixelStorageMode::PackSkipPixels),
            0x0D05 => Some(PixelStorageMode::PackAlignment),
            0x806D => Some(PixelStorageMode::UnpackSkipImages),
            0x806E => Some(PixelStorageMode::UnpackImageHeight),
            0x9240 => Some(PixelStorageMode::UnpackFlipY),
            0x9241 => Some(PixelStorageMode::UnpackPremultiplyAlpha),
            0x9243 => Some(PixelStorageMode::UnpackColorspaceConversion),
            _ => None,
        }
    }

    proof fn lemma_injective(a: Self, b: Self) {
    }
}

/// Kinds of shaders.
#[derive(Clone, Copy, Debug, PartialEq, Eq, Structural)]
pub enum ShaderKind {
    /// `FRAGMENT_SHADER`
    Fragment,
    /// `VERTEX_SHADER`
    Vertex,
}

impl GlEnum for ShaderKind {
    open spec fn catalog() -> Catalog {
        Catalog::ShaderKind
    }

    open spec fn code(self) -> u32 {
        match self {
            ShaderKind::Fragment => 0x8B30,
            ShaderKind::Vertex => 0x8B31,
        }
    }

    fn to_gl(self) -> (c: u32) {
        match self {
            ShaderKind::Fragment => 0x8B30,
            ShaderKind::Vertex => 0x8B31,
        }
    }

    fn from_gl(c: u32) -> (v: Option<Self>) {
        match c {
            0x8B30 => Some(ShaderKind::Fragment),
            0x8B31 => Some(ShaderKind::Vertex),
            _ => None,
        }
    }

    proof fn lemma_injective(a: Self, b: Self) {
    }
}

/// Parameters of a shader.
#[derive(Clone, Copy, Debug, PartialEq, Eq, Structural)]
pub enum ShaderParameter {
    /// `DELETE_STATUS`
    DeleteStatus,
    /// `COMPILE_STATUS`
    CompileStatus,
    /// `SHADER_TYPE`
    ShaderType,
}

impl GlEnum for ShaderParameter {
    open spec fn catalog() -> Catalog {
        Catalog::ShaderParameter
    }

    open spec fn code(self) -> u32 {
        match self {
            ShaderParameter::DeleteStatus => 0x8B80,
            ShaderParameter::CompileStatus => 0x8B81,
            ShaderParameter::ShaderType => 0x8B4F,
        }
    }

    fn to_gl(self) -> (c: u32) {
        match self {
            ShaderParameter::DeleteStatus => 0x8B80,
            ShaderParameter::CompileStatus => 0x8B81,
            ShaderParameter::ShaderType => 0x8B4F,
        }
    }

    fn from_gl(c: u32) -> (v: Option<Self>) {
        match c {
            0x8B4F => Some(ShaderParameter::ShaderType),
            0x8B80 => Some(ShaderParameter::DeleteStatus),
            0x8B81 => Some(ShaderParameter::CompileStatus),
            _ => None,
        }
    }

    proof fn lemma_injective(a: Self, b: Self) {
    }
}

/// Precision types of shader numbers.
#[derive(Clone, Copy, Debug, PartialEq, Eq, Structural)]
pub enum ShaderPrecision {
    /// `LOW_FLOAT`
    LowFloat,
    /// `MEDIUM_FLOAT`
    MediumFloat,
    /// `HIGH_FLOAT`
    HighFloat,
    /// `LOW_INT`
    LowInt,
    /// `MEDIUM_INT`
    MediumInt,
    /// `HIGH_INT`
    HighInt,
}

impl GlEnum for ShaderPrecision {
    open spec fn catalog() -> Catalog {
        Catalog::ShaderPrecision
    }

    open spec fn code(self) -> u32 {
        match self {
            ShaderPrecision::LowFloat => 0x8DF0,
            ShaderPrecision::MediumFloat => 0x8DF1,
            ShaderPrecision::HighFloat => 0x8DF2,
            ShaderPrecision::LowInt => 0x8DF3,
            ShaderPrecision::MediumInt => 0x8DF4,
            ShaderPrecision::HighInt => 0x8DF5,
        }
    }

    fn to_gl(self) -> (c: u32) {
        match self {
            ShaderPrecision::LowFloat => 0x8DF0,
            ShaderPrecision::MediumFloat => 0x8DF1,
            ShaderPrecision::HighFloat => 0x8DF2,
            ShaderPrecision::LowInt => 0x8DF3,
            ShaderPrecision::MediumInt => 0x8DF4,
            ShaderPrecision::HighInt => 0x8DF5,
        }
    }

    fn from_gl(c: u32) -> (v: Option<Self>) {
        match c {
            0x8DF0 => Some(ShaderPrecision::LowFloat),
            0x8DF1 => Some(ShaderPrecision::MediumFloat),
            0x8DF2 => Some(ShaderPrecision::HighFloat),
            0x8DF3 => Some(ShaderPrecision::LowInt),
            0x8DF4 => Some(ShaderPrecision::MediumInt),
            0x8DF5 => Some(ShaderPrecision::HighInt),
            _ => None,
        }
    }

    proof fn lemma_injective(a: Self, b: Self) {
    }
}

/// Parameters of a program.
#[derive(Clone, Copy, Debug, PartialEq, Eq, Structural)]
pub enum ProgramParameter {
    /// `DELETE_STATUS`
    DeleteStatus,
    /// `LINK_STATUS`
    LinkStatus,
    /// `VALIDATE_STATUS`
    ValidateStatus,
    /// `ATTACHED_SHADERS`
    AttachedShaders,
    /// `ACTIVE_ATTRIBUTES`
    ActiveAttributes,
    /// `ACTIVE_UNIFORMS`
    ActiveUniforms,
    /// `TRANSFORM_FEEDBACK_BUFFER_MODE`
    TransformFeedbackBufferMode,
    /// `TRANSFORM_FEEDBACK_VARYINGS`
    TransformFeedbackVaryings,
    /// `ACTIVE_UNIFORM_BLOCKS`
    ActiveUniformBlocks,
}

impl GlEnum for ProgramParameter {
    open spec fn catalog() -> Catalog {
        Catalog::ProgramParameter
    }

    open spec fn code(self) -> u32 {
        match self {
            ProgramParameter::DeleteStatus => 0x8B80,
            ProgramParameter::LinkStatus => 0x8B82,
            ProgramParameter::ValidateStatus => 0x8B83,
            ProgramParameter::AttachedShaders => 0x8B85,
            ProgramParameter::ActiveAttributes => 0x8B89,
            ProgramParameter::ActiveUniforms => 0x8B86,
            ProgramParameter::TransformFeedbackBufferMode => 0x8C7F,
            ProgramParameter::TransformFeedbackVaryings => 0x8C83,
            ProgramParameter::ActiveUniformBlocks => 0x8A36,
        }
    }

    fn to_gl(self) -> (c: u32) {
        match self {
            ProgramParameter::DeleteStatus => 0x8B80,
            ProgramParameter::LinkStatus => 0x8B82,
            ProgramParameter::ValidateStatus => 0x8B83,
            ProgramParameter::AttachedShaders => 0x8B85,
            ProgramParameter::ActiveAttributes => 0x8B89,
            ProgramParameter::ActiveUniforms => 0x8B86,
            ProgramParameter::TransformFeedbackBufferMode => 0x8C7F,
            ProgramParameter::TransformFeedbackVaryings => 0x8C83,
            ProgramParameter::ActiveUniformBlocks => 0x8A36,
        }
    }

    fn from_gl(c: u32) -> (v: Option<Self>) {
        match c {
            0x8A36 => Some(ProgramParameter::ActiveUniformBlocks),
            0x8B80 => Some(ProgramParameter::DeleteStatus),
            0x8B82 => Some(ProgramParameter::LinkStatus),
            0x8B83 => Some(ProgramParameter::ValidateStatus),
            0x8B85 => Some(ProgramParameter::AttachedShaders),
            0x8B86 => Some(ProgramParameter::ActiveUniforms),
            0x8B89 => Some(ProgramParameter::ActiveAttributes),
            0x8C7F => Some(ProgramParameter::TransformFeedbackBufferMode),
            0x8C83 => Some(ProgramParameter::TransformFeedbackVaryings),
            _ => None,
        }
    }

    proof fn lemma_injective(a: Self, b: Self) {
    }
}

/// Buffer modes of transform feedback.
#[derive(Clone, Copy, Debug, PartialEq, Eq, Structural)]
pub enum TransformFeedbackBufferMode {
    /// `INTERLEAVED_ATTRIBS`
    InterleavedAttribs,
    /// `SEPARATE_ATTRIBS`
    SeparateAttribs,
}

impl GlEnum for TransformFeedbackBufferMode {
    open spec fn catalog() -> Catalog {
        Catalog::TransformFeedbackBufferMode
    }

    open spec fn code(self) -> u32 {
        match self {
            TransformFeedbackBufferMode::InterleavedAttribs => 0x8C8C,
            TransformFeedbackBufferMode::SeparateAttribs => 0x8C8D,
        }
    }

    fn to_gl(self) -> (c: u32) {
        match self {
            TransformFeedbackBufferMode::InterleavedAttribs => 0x8C8C,
            TransformFeedbackBufferMode::SeparateAttribs => 0x8C8D,
        }
    }

    fn from_gl(c: u32) -> (v: Option<Self>) {
        match c {
            0x8C8C => Some(TransformFeedbackBufferMode::InterleavedAttribs),
            0x8C8D => Some(TransformFeedbackBufferMode::SeparateAttribs),
            _ => None,
        }
    }

    proof fn lemma_injective(a: Self, b: Self) {
    }
}

/// Binding points of transform feedback objects.
#[derive(Clone, Copy, Debug, PartialEq, Eq, Structural)]
pub enum TransformFeedback {
    /// `TRANSFORM_FEEDBACK`
    TransformFeedback,
}

impl GlEnum for TransformFeedback {
    open spec fn catalog() -> Catalog {
        Catalog::TransformFeedback
    }

    open spec fn code(self) -> u32 {
        match self {
            TransformFeedback::TransformFeedback => 0x8E22,
        }
    }

    fn to_gl(self) -> (c: u32) {
        match self {
            TransformFeedback::TransformFeedback => 0x8E22,
        }
    }

    fn from_gl(c: u32) -> (v: Option<Self>) {
        match c {
            0x8E22 => Some(TransformFeedback::TransformFeedback),
            _ => None,
        }
    }

    proof fn lemma_injective(a: Self, b: Self) {
    }
}

/// Primitive modes captured by transform feedback.
#[derive(Clone, Copy, Debug, PartialEq, Eq, Structural)]
pub enum TransformFeedbackMode {
    /// `POINTS`
    Points,
    /// `LINES`
    Lines,
    /// `TRIANGLES`
    Triangles,
}

impl GlEnum for TransformFeedbackMode {
    open spec fn catalog() -> Catalog {
        Catalog::TransformFeedbackMode
    }

    open spec fn code(self) -> u32 {
        match self {
            TransformFeedbackMode::Points => 0,
            TransformFeedbackMode::Lines => 1,
            TransformFeedbackMode::Triangles => 4,
        }
    }

    fn to_gl(self) -> (c: u32) {
        match self {
            TransformFeedbackMode::Points => 0,
            TransformFeedbackMode::Lines => 1,
            TransformFeedbackMode::Triangles => 4,
        }
    }

    fn from_gl(c: u32) -> (v: Option<Self>) {
        match c {
            0 => Some(TransformFeedbackMode::Points),
            1 => Some(TransformFeedbackMode::Lines),
            4 => Some(TransformFeedbackMode::Triangles),
            _ => None,
        }
    }

    proof fn lemma_injective(a: Self, b: Self) {
    }
}

/// Targets of a query.
#[derive(Clone, Copy, Debug, PartialEq, Eq, Structural)]
pub enum QueryTarget {
    /// `ANY_SAMPLES_PASSED`
    AnySamplesPassed,
    /// `ANY_SAMPLES_PASSED_CONSERVATIVE`
    AnySamplesPassedConservative,
    /// `TRANSFORM_FEEDBACK_PRIMITIVES_WRITTEN`
    TransformFeedbackPrimitivesWritten,
}

impl GlEnum for QueryTarget {
    open spec fn catalog() -> Catalog {
        Catalog::QueryTarget
    }

    open spec fn code(self) -> u32 {
        match self {
            QueryTarget::AnySamplesPassed => 0x8C2F,
            QueryTarget::AnySamplesPassedConservative => 0x8D6A,
            QueryTarget::TransformFeedbackPrimitivesWritten => 0x8C88,
        }
    }

    fn to_gl(self) -> (c: u32) {
        match self {
            QueryTarget::AnySamplesPassed => 0x8C2F,
            QueryTarget::AnySamplesPassedConservative => 0x8D6A,
            QueryTarget::TransformFeedbackPrimitivesWritten => 0x8C88,
        }
    }

    fn from_gl(c: u32) -> (v: Option<Self>) {
        match c {
            0x8C2F => Some(QueryTarget::AnySamplesPassed),
            0x8C88 => Some(QueryTarget::TransformFeedbackPrimitivesWritten),
            0x8D6A => Some(QueryTarget::AnySamplesPassedConservative),
            _ => None,
        }
    }

    proof fn lemma_injective(a: Self, b: Self) {
    }
}

/// Information asked of a query target.
#[derive(Clone, Copy, Debug, PartialEq, Eq, Structural)]
pub enum Query {
    /// `CURRENT_QUERY`
    Current,
}

impl GlEnum for Query {
    open spec fn catalog() -> Catalog {
        Catalog::Query
    }

    open spec fn code(self) -> u32 {
        match self {
            Query::Current => 0x8865,
        }
    }

    fn to_gl(self) -> (c: u32) {
        match self {
            Query::Current => 0x8865,
        }
    }

    fn from_gl(c: u32) -> (v: Option<Self>) {
        match c {
            0x8865 => Some(Query::Current),
            _ => None,
        }
    }

    proof fn lemma_injective(a: Self, b: Self) {
    }
}

/// Parameters of a query object.
#[derive(Clone, Copy, Debug, PartialEq, Eq, Structural)]
pub enum QueryParameter {
    /// `QUERY_RESULT`
    Result,
    /// `QUERY_RESULT_AVAILABLE`
    ResultAvailable,
}

impl GlEnum for QueryParameter {
    open spec fn catalog() -> Catalog {
        Catalog::QueryParameter
    }

    open spec fn code(self) -> u32 {
        match self {
            QueryParameter::Result => 0x8866,
            QueryParameter::ResultAvailable => 0x8867,
        }
    }

    fn to_gl(self) -> (c: u32) {
        match self {
            QueryParameter::Result => 0x8866,
            QueryParameter::ResultAvailable => 0x8867,
        }
    }

    fn from_gl(c: u32) -> (v: Option<Self>) {
        match c {
            0x8866 => Some(QueryParameter::Result),
            0x8867 => Some(QueryParameter::ResultAvailable),
            _ => None,
        }
    }

    proof fn lemma_injective(a: Self, b: Self) {
    }
}

/// Conditions that signal a sync object.
#[derive(Clone, Copy, Debug, PartialEq, Eq, Structural)]
pub enum GPUState {
    /// `SYNC_GPU_COMMANDS_COMPLETE`
    CommandsComplete,
}

impl GlEnum for GPUState {
    open spec fn catalog() -> Catalog {
        Catalog::GPUState
    }

    open spec fn code(self) -> u32 {
        match self {
            GPUState::CommandsComplete => 0x9117,
        }
    }

    fn to_gl(self) -> (c: u32) {
        match self {
            GPUState::CommandsComplete => 0x9117,
        }
    }

    fn from_gl(c: u32) -> (v: Option<Self>) {
        match c {
            0x9117 => Some(GPUState::CommandsComplete),
            _ => None,
        }
    }

    proof fn lemma_injective(a: Self, b: Self) {
    }
}

/// Parameters of a sync object.
#[derive(Clone, Copy, Debug, PartialEq, Eq, Structural)]
pub enum SyncParameter {
    /// `OBJECT_TYPE`
    Type,
    /// `SYNC_STATUS`
    Status,
    /// `SYNC_CONDITION`
    Condition,
    /// `SYNC_FLAGS`
    Flags,
}

impl GlEnum for SyncParameter {
    open spec fn catalog() -> Catalog {
        Catalog::SyncParameter
    }

    open spec fn code(self) -> u32 {
        match self {
            SyncParameter::Type => 0x9112,
            SyncParameter::Status => 0x9114,
            SyncParameter::Condition => 0x9113,
            SyncParameter::Flags => 0x9115,
        }
    }

    fn to_gl(self) -> (c: u32) {
        match self {
            SyncParameter::Type => 0x9112,
            SyncParameter::Status => 0x9114,
            SyncParameter::Condition => 0x9113,
            SyncParameter::Flags => 0x9115,
        }
    }

    fn from_gl(c: u32) -> (v: Option<Self>) {
        match c {
            0x9112 => Some(SyncParameter::Type),
            0x9113 => Some(SyncParameter::Condition),
            0x9114 => Some(SyncParameter::Status),
            0x9115 => Some(SyncParameter::Flags),
            _ => None,
        }
    }

    proof fn lemma_injective(a: Self, b: Self) {
    }
}

/// Kinds of sync objects.
#[derive(Clone, Copy, Debug, PartialEq, Eq, Structural)]
pub enum SyncType {
    /// `SYNC_FENCE`
    Fence,
}

impl GlEnum for SyncType {
    open spec fn catalog() -> Catalog {
        Catalog::SyncType
    }

    open spec fn code(self) -> u32 {
        match self {
            SyncType::Fence => 0x9116,
        }
    }

    fn to_gl(self) -> (c: u32) {
        match self {
            SyncType::Fence => 0x9116,
        }
    }

    fn from_gl(c: u32) -> (v: Option<Self>) {
        match c {
            0x9116 => Some(SyncType::Fence),
            _ => None,
        }
    }

    proof fn lemma_injective(a: Self, b: Self) {
    }
}

/// States of a sync object.
#[derive(Clone, Copy, Debug, PartialEq, Eq, Structural)]
pub enum SyncStatus {
    /// `SIGNALED`
    Signaled,
    /// `UNSIGNALED`
    Unsignaled,
}

impl GlEnum for SyncStatus {
    open spec fn catalog() -> Catalog {
        Catalog::SyncStatus
    }

    open spec fn code(self) -> u32 {
        match self {
            SyncStatus::Signaled => 0x9119,
            SyncStatus::Unsignaled => 0x9118,
        }
    }

    fn to_gl(self) -> (c: u32) {
        match self {
            SyncStatus::Signaled => 0x9119,
            SyncStatus::Unsignaled => 0x9118,
        }
    }

    fn from_gl(c: u32) -> (v: Option<Self>) {
        match c {
            0x9118 => Some(SyncStatus::Unsignaled),
            0x9119 => Some(SyncStatus::Signaled),
            _ => None,
        }
    }

    proof fn lemma_injective(a: Self, b: Self) {
    }
}

/// Outcomes of waiting on a sync object.
#[derive(Clone, Copy, Debug, PartialEq, Eq, Structural)]
pub enum WaitStatus {
    /// `ALREADY_SIGNALED`
    AlreadySignaled,
    /// `TIMEOUT_EXPIRED`
    TimeoutExpired,
    /// `CONDITION_SATISFIED`
    ConditionSatisfied,
    /// `WAIT_FAILED`
    WaitFailed,
}

impl GlEnum for WaitStatus {
    open spec fn catalog() -> Catalog {
        Catalog::WaitStatus
    }

    open spec fn code(self) -> u32 {
        match self {
            WaitStatus::AlreadySignaled => 0x911A,
            WaitStatus::TimeoutExpired => 0x911B,
            WaitStatus::ConditionSatisfied => 0x911C,
            WaitStatus::WaitFailed => 0x911D,
        }
    }

    fn to_gl(self) -> (c: u32) {
        match self {
            WaitStatus::AlreadySignaled => 0x911A,
            WaitStatus::TimeoutExpired => 0x911B,
            WaitStatus::ConditionSatisfied => 0x911C,
            WaitStatus::WaitFailed => 0x911D,
        }
    }

    fn from_gl(c: u32) -> (v: Option<Self>) {
        match c {
            0x911A => Some(WaitStatus::AlreadySignaled),
            0x911B => Some(WaitStatus::TimeoutExpired),
            0x911C => Some(WaitStatus::ConditionSatisfied),
            0x911D => Some(WaitStatus::WaitFailed),
            _ => None,
        }
    }

    proof fn lemma_injective(a: Self, b: Self) {
    }
}

/// Equations that combine source and destination colors.
#[derive(Clone, Copy, Debug, PartialEq, Eq, Structural)]
pub enum BlendEquation {
    /// `FUNC_ADD`
    FuncAdd,
    /// `FUNC_SUBTRACT`
    FuncSubtract,
    /// `FUNC_REVERSE_SUBTRACT`
    FuncReverseSubtract,
    /// `MIN`
    Min,
    /// `MAX`
    Max,
}

impl GlEnum for BlendEquation {
    open spec fn catalog() -> Catalog {
        Catalog::BlendEquation
    }

    open spec fn code(self) -> u32 {
        match self {
            BlendEquation::FuncAdd => 0x8006,
            BlendEquation::FuncSubtract => 0x800A,
            BlendEquation::FuncReverseSubtract => 0x800B,
            BlendEquation::Min => 0x8007,
            BlendEquation::Max => 0x8008,
        }
    }

    fn to_gl(self) -> (c: u32) {
        match self {
            BlendEquation::FuncAdd => 0x8006,
            BlendEquation::FuncSubtract => 0x800A,
            BlendEquation::FuncReverseSubtract => 0x800B,
            BlendEquation::Min => 0x8007,
            BlendEquation::Max => 0x8008,
        }
    }

    fn from_gl(c: u32) -> (v: Option<Self>) {
        match c {
            0x8006 => Some(BlendEquation::FuncAdd),
            0x8007 => Some(BlendEquation::Min),
            0x8008 => Some(BlendEquation::Max),
            0x800A => Some(BlendEquation::FuncSubtract),
            0x800B => Some(BlendEquation::FuncReverseSubtract),
            _ => None,
        }
    }

    proof fn lemma_injective(a: Self, b: Self) {
    }
}

/// Blending factors.
#[derive(Clone, Copy, Debug, PartialEq, Eq, Structural)]
pub enum BlendMode {
    /// `ZERO`
    Zero,
    /// `ONE`
    One,
    /// `SRC_COLOR`
    SrcColor,
    /// `ONE_MINUS_SRC_COLOR`
    OneMinusSrcColor,
    /// `SRC_ALPHA`
    SrcAlpha,
    /// `ONE_MINUS_SRC_ALPHA`
    OneMinusSrcAlpha,
    /// `DST_ALPHA`
    DstAlpha,
    /// `ONE_MINUS_DST_ALPHA`
    OneMinusDstAlpha,
    /// `DST_COLOR`
    DstColor,
    /// `ONE_MINUS_DST_COLOR`
    OneMinusDstColor,
    /// `SRC_ALPHA_SATURATE`
    SrcAlphaSaturate,
    /// `CONSTANT_COLOR`
    ConstantColor,
    /// `ONE_MINUS_CONSTANT_COLOR`
    OneMinusConstantColor,
    /// `CONSTANT_ALPHA`
    ConstantAlpha,
    /// `ONE_MINUS_CONSTANT_ALPHA`
    OneMinusConstantAlpha,
}

impl GlEnum for BlendMode {
    open spec fn catalog() -> Catalog {
        Catalog::BlendMode
    }

    open spec fn code(self) -> u32 {
        match self {
            BlendMode::Zero => 0,
            BlendMode::One => 1,
            BlendMode::SrcColor => 0x0300,
            BlendMode::OneMinusSrcColor => 0x0301,
            BlendMode::SrcAlpha => 0x0302,
            BlendMode::OneMinusSrcAlpha => 0x0303,
            BlendMode::DstAlpha => 0x0304,
            BlendMode::OneMinusDstAlpha => 0x0305,
            BlendMode::DstColor => 0x0306,
            BlendMode::OneMinusDstColor => 0x0307,
            BlendMode::SrcAlphaSaturate => 0x0308,
            BlendMode::ConstantColor => 0x8001,
            BlendMode::OneMinusConstantColor => 0x8002,
            BlendMode::ConstantAlpha => 0x8003,
            BlendMode::OneMinusConstantAlpha => 0x8004,
        }
    }

    fn to_gl(self) -> (c: u32) {
        match self {
            BlendMode::Zero => 0,
            BlendMode::One => 1,
            BlendMode::SrcColor => 0x0300,
            BlendMode::OneMinusSrcColor => 0x0301,
            BlendMode::SrcAlpha => 0x0302,
            BlendMode::OneMinusSrcAlpha => 0x0303,
            BlendMode::DstAlpha => 0x0304,
            BlendMode::OneMinusDstAlpha => 0x0305,
            BlendMode::DstColor => 0x0306,
            BlendMode::OneMinusDstColor => 0x0307,
            BlendMode::SrcAlphaSaturate => 0x0308,
            BlendMode::ConstantColor => 0x8001,
            BlendMode::OneMinusConstantColor => 0x8002,
            BlendMode::ConstantAlpha => 0x8003,
            BlendMode::OneMinusConstantAlpha => 0x8004,
        }
    }

    fn from_gl(c: u32) -> (v: Option<Self>) {
        match c {
            0 => Some(BlendMode::Zero),
            1 => Some(BlendMode::One),
            0x0300 => Some(BlendMode::SrcColor),
            0x0301 => Some(BlendMode::OneMinusSrcColor),
            0x0302 => Some(BlendMode::SrcAlpha),
            0x0303 => Some(BlendMode::OneMinusSrcAlpha),
            0x0304 => Some(BlendMode::DstAlpha),
            0x0305 => Some(BlendMode::OneMinusDstAlpha),
            0x0306 => Some(BlendMode::DstColor),
            0x0307 => Some(BlendMode::OneMinusDstColor),
            0x0308 => Some(BlendMode::SrcAlphaSaturate),
            0x8001 => Some(BlendMode::ConstantColor),
            0x8002 => Some(BlendMode::OneMinusConstantColor),
            0x8003 => Some(BlendMode::ConstantAlpha),
            0x8004 => Some(BlendMode::OneMinusConstantAlpha),
            _ => None,
        }
    }

    proof fn lemma_injective(a: Self, b: Self) {
    }
}

/// Faces of a polygon.
#[derive(Clone, Copy, Debug, PartialEq, Eq, Structural)]
pub enum Culling {
    /// `FRONT`
    Front,
    /// `BACK`
    Back,
    /// `FRONT_AND_BACK`
    FrontAndBack,
}

impl GlEnum for Culling {
    open spec fn catalog() -> Catalog {
        Catalog::Culling
    }

    open spec fn code(self) -> u32 {
        match self {
            Culling::Front => 0x0404,
            Culling::Back => 0x0405,
            Culling::FrontAndBack => 0x0408,
        }
    }

    fn to_gl(self) -> (c: u32) {
        match self {
            Culling::Front => 0x0404,
            Culling::Back => 0x0405,
            Culling::FrontAndBack => 0x0408,
        }
    }

    fn from_gl(c: u32) -> (v: Option<Self>) {
        match c {
            0x0404 => Some(Culling::Front),
            0x0405 => Some(Culling::Back),
            0x0408 => Some(Culling::FrontAndBack),
            _ => None,
        }
    }

    proof fn lemma_injective(a: Self, b: Self) {
    }
}

/// Winding orders.
#[derive(Clone, Copy, Debug, PartialEq, Eq, Structural)]
pub enum FrontFaceDirection {
    /// `CW`
    Cw,
    /// `CCW`
    Ccw,
}

impl GlEnum for FrontFaceDirection {
    open spec fn catalog() -> Catalog {
        Catalog::FrontFaceDirection
    }

    open spec fn code(self) -> u32 {
        match self {
            FrontFaceDirection::Cw => 0x0900,
            FrontFaceDirection::Ccw => 0x0901,
        }
    }

    fn to_gl(self) -> (c: u32) {
        match self {
            FrontFaceDirection::Cw => 0x0900,
            FrontFaceDirection::Ccw => 0x0901,
        }
    }

    fn from_gl(c: u32) -> (v: Option<Self>) {
        match c {
            0x0900 => Some(FrontFaceDirection::Cw),
            0x0901 => Some(FrontFaceDirection::Ccw),
            _ => None,
        }
    }

    proof fn lemma_injective(a: Self, b: Self) {
    }
}

/// Capabilities of the context that can be switched on and off.
#[derive(Clone, Copy, Debug, PartialEq, Eq, Structural)]
pub enum Flag {
    /// `BLEND`
    Blend,
    /// `CULL_FACE`
    CullFace,
    /// `DEPTH_TEST`
    DepthTest,
    /// `DITHER`
    Dither,
    /// `POLYGON_OFFSET_FILL`
    PolygonOffsetFill,
    /// `SAMPLE_ALPHA_TO_COVERAGE`
    SampleAlphaToCoverage,
    /// `SAMPLE_COVERAGE`
    SampleCoverage,
    /// `SCISSOR_TEST`
    ScissorTest,
    /// `STENCIL_TEST`
    StencilTest,
    /// `RASTERIZER_DISCARD`
    RasterizerDiscard,
}

impl GlEnum for Flag {
    open spec fn catalog() -> Catalog {
        Catalog::Flag
    }

    open spec fn code(self) -> u32 {
        match self {
            Flag::Blend => 0x0BE2,
            Flag::CullFace => 0x0B44,
            Flag::DepthTest => 0x0B71,
            Flag::Dither => 0x0BD0,
            Flag::PolygonOffsetFill => 0x8037,
            Flag::SampleAlphaToCoverage => 0x809E,
            Flag::SampleCoverage => 0x80A0,
            Flag::ScissorTest => 0x0C11,
            Flag::StencilTest => 0x0B90,
            Flag::RasterizerDiscard => 0x8C89,
        }
    }

    fn to_gl(self) -> (c: u32) {
        match self {
            Flag::Blend => 0x0BE2,
            Flag::CullFace => 0x0B44,
            Flag::DepthTest => 0x0B71,
            Flag::Dither => 0x0BD0,
            Flag::PolygonOffsetFill => 0x8037,
            Flag::SampleAlphaToCoverage => 0x809E,
            Flag::SampleCoverage => 0x80A0,
            Flag::ScissorTest => 0x0C11,
            Flag::StencilTest => 0x0B90,
            Flag::RasterizerDiscard => 0x8C89,
        }
    }

    fn from_gl(c: u32) -> (v: Option<Self>) {
        match c {
            0x0B44 => Some(Flag::CullFace),
            0x0B71 => Some(Flag::DepthTest),
            0x0B90 => Some(Flag::StencilTest),
            0x0BD0 => Some(Flag::Dither),
            0x0BE2 => Some(Flag::Blend),
            0x0C11 => Some(Flag::ScissorTest),
            0x8037 => Some(Flag::PolygonOffsetFill),
            0x809E => Some(Flag::SampleAlphaToCoverage),
            0x80A0 => Some(Flag::SampleCoverage),
            0x8C89 => Some(Flag::RasterizerDiscard),
            _ => None,
        }
    }

    proof fn lemma_injective(a: Self, b: Self) {
    }
}

/// Error codes of the context.
#[derive(Clone, Copy, Debug, PartialEq, Eq, Structural)]
pub enum Error {
    /// `NO_ERROR`
    NoError,
    /// `INVALID_ENUM`
    InvalidEnum,
    /// `INVALID_VALUE`
    InvalidValue,
    /// `INVALID_OPERATION`
    InvalidOperation,
    /// `OUT_OF_MEMORY`
    OutOfMemory,
    /// `INVALID_FRAMEBUFFER_OPERATION`
    InvalidFramebufferOperation,
    /// `CONTEXT_LOST_WEBGL`
    ContextLost,
}

impl GlEnum for Error {
    open spec fn catalog() -> Catalog {
        Catalog::Error
    }

    open spec fn code(self) -> u32 {
        match self {
            Error::NoError => 0,
            Error::InvalidEnum => 0x0500,
            Error::InvalidValue => 0x0501,
            Error::InvalidOperation => 0x0502,
            Error::OutOfMemory => 0x0505,
            Error::InvalidFramebufferOperation => 0x0506,
            Error::ContextLost => 0x9242,
        }
    }

    fn to_gl(self) -> (c: u32) {
        match self {
            Error::NoError => 0,
            Error::InvalidEnum => 0x0500,
            Error::InvalidValue => 0x0501,
            Error::InvalidOperation => 0x0502,
            Error::OutOfMemory => 0x0505,
            Error::InvalidFramebufferOperation => 0x0506,
            Error::ContextLost => 0x9242,
        }
    }

    fn from_gl(c: u32) -> (v: Option<Self>) {
        match c {
            0 => Some(Error::NoError),
            0x0500 => Some(Error::InvalidEnum),
            0x0501 => Some(Error::InvalidValue),
            0x0502 => Some(Error::InvalidOperation),
            0x0505 => Some(Error::OutOfMemory),
            0x0506 => Some(Error::InvalidFramebufferOperation),
            0x9242 => Some(Error::ContextLost),
            _ => None,
        }
    }

    proof fn lemma_injective(a: Self, b: Self) {
    }
}

/// Behaviors that take a hint.
#[derive(Clone, Copy, Debug, PartialEq, Eq, Structural)]
pub enum HintTarget {
    /// `GENERATE_MIPMAP_HINT`
    GenerateMipmap,
    /// `FRAGMENT_SHADER_DERIVATIVE_HINT`
    FragmentShaderDerivative,
}

impl GlEnum for HintTarget {
    open spec fn catalog() -> Catalog {
        Catalog::HintTarget
    }

    open spec fn code(self) -> u32 {
        match self {
            HintTarget::GenerateMipmap => 0x8192,
            HintTarget::FragmentShaderDerivative => 0x8B8B,
        }
    }

    fn to_gl(self) -> (c: u32) {
        match self {
            HintTarget::GenerateMipmap => 0x8192,
            HintTarget::FragmentShaderDerivative => 0x8B8B,
        }
    }

    fn from_gl(c: u32) -> (v: Option<Self>) {
        match c {
            0x8192 => Some(HintTarget::GenerateMipmap),
            0x8B8B => Some(HintTarget::FragmentShaderDerivative),
            _ => None,
        }
    }

    proof fn lemma_injective(a: Self, b: Self) {
    }
}

/// Hints.
#[derive(Clone, Copy, Debug, PartialEq, Eq, Structural)]
pub enum HintMode {
    /// `FASTEST`
    Fastest,
    /// `NICEST`
    Nicest,
    /// `DONT_CARE`
    DontCare,
}

impl GlEnum for HintMode {
    open spec fn catalog() -> Catalog {
        Catalog::HintMode
    }

    open spec fn code(self) -> u32 {
        match self {
            HintMode::Fastest => 0x1101,
            HintMode::Nicest => 0x1102,
            HintMode::DontCare => 0x1100,
        }
    }

    fn to_gl(self) -> (c: u32) {
        match self {
            HintMode::Fastest => 0x1101,
            HintMode::Nicest => 0x1102,
            HintMode::DontCare => 0x1100,
        }
    }

    fn from_gl(c: u32) -> (v: Option<Self>) {
        match c {
            0x1100 => Some(HintMode::DontCare),
            0x1101 => Some(HintMode::Fastest),
            0x1102 => Some(HintMode::Nicest),
            _ => None,
        }
    }

    proof fn lemma_injective(a: Self, b: Self) {
    }
}

/// Parameters of a vertex attribute.
#[derive(Clone, Copy, Debug, PartialEq, Eq, Structural)]
pub enum VertexAttrib {
    /// `VERTEX_ATTRIB_ARRAY_BUFFER_BINDING`
    BufferBinding,
    /// `VERTEX_ATTRIB_ARRAY_ENABLED`
    Enabled,
    /// `VERTEX_ATTRIB_ARRAY_SIZE`
    Size,
    /// `VERTEX_ATTRIB_ARRAY_STRIDE`
    Stride,
    /// `VERTEX_ATTRIB_ARRAY_TYPE`
    Type,
    /// `VERTEX_ATTRIB_ARRAY_NORMALIZED`
    Normalized,
    /// `VERTEX_ATTRIB_ARRAY_POINTER`
    Pointer,
    /// `CURRENT_VERTEX_ATTRIB`
    Current,
    /// `VERTEX_ATTRIB_ARRAY_INTEGER`
    Integer,
    /// `VERTEX_ATTRIB_ARRAY_DIVISOR`
    Divisor,
}

impl GlEnum for VertexAttrib {
    open spec fn catalog() -> Catalog {
        Catalog::VertexAttrib
    }

    open spec fn code(self) -> u32 {
        match self {
            VertexAttrib::BufferBinding => 0x889F,
            VertexAttrib::Enabled => 0x8622,
            VertexAttrib::Size => 0x8623,
            VertexAttrib::Stride => 0x8624,
            VertexAttrib::Type => 0x8625,
            VertexAttrib::Normalized => 0x886A,
            VertexAttrib::Pointer => 0x8645,
            VertexAttrib::Current => 0x8626,
            VertexAttrib::Integer => 0x88FD,
            VertexAttrib::Divisor => 0x88FE,
        }
    }

    fn to_gl(self) -> (c: u32) {
        match self {
            VertexAttrib::BufferBinding => 0x889F,
            VertexAttrib::Enabled => 0x8622,
            VertexAttrib::Size => 0x8623,
            VertexAttrib::Stride => 0x8624,
            VertexAttrib::Type => 0x8625,
            VertexAttrib::Normalized => 0x886A,
            VertexAttrib::Pointer => 0x8645,
            VertexAttrib::Current => 0x8626,
            VertexAttrib::Integer => 0x88FD,
            VertexAttrib::Divisor => 0x88FE,
        }
    }

    fn from_gl(c: u32) -> (v: Option<Self>) {
        match c {
            0x8622 => Some(VertexAttrib::Enabled),
            0x8623 => Some(VertexAttrib::Size),
            0x8624 => Some(VertexAttrib::Stride),
            0x8625 => Some(VertexAttrib::Type),
            0x8626 => Some(VertexAttrib::Current),
            0x8645 => Some(VertexAttrib::Pointer),
            0x886A => Some(VertexAttrib::Normalized),
            0x889F => Some(VertexAttrib::BufferBinding),
            0x88FD => Some(VertexAttrib::Integer),
            0x88FE => Some(VertexAttrib::Divisor),
            _ => None,
        }
    }

    proof fn lemma_injective(a: Self, b: Self) {
    }
}

/// Numbers of components of a vertex attribute.
#[derive(Clone, Copy, Debug, PartialEq, Eq, Structural)]
pub enum AttributeSize {
    /// 1 component.
    One,
    /// 2 components.
    Two,
    /// 3 components.
    Three,
    /// 4 components.
    Four,
}

impl GlEnum for AttributeSize {
    open spec fn catalog() -> Catalog {
        Catalog::AttributeSize
    }

    open spec fn code(self) -> u32 {
        match self {
            AttributeSize::One => 1,
            AttributeSize::Two => 2,
            AttributeSize::Three => 3,
            AttributeSize::Four => 4,
        }
    }

    fn to_gl(self) -> (c: u32) {
        match self {
            AttributeSize::One => 1,
            AttributeSize::Two => 2,
            AttributeSize::Three => 3,
            AttributeSize::Four => 4,
        }
    }

    fn from_gl(c: u32) -> (v: Option<Self>) {
        match c {
            1 => Some(AttributeSize::One),
            2 => Some(AttributeSize::Two),
            3 => Some(AttributeSize::Three),
            4 => Some(AttributeSize::Four),
            _ => None,
        }
    }

    proof fn lemma_injective(a: Self, b: Self) {
    }
}

/// Data types of the components of a vertex attribute.
#[derive(Clone, Copy, Debug, PartialEq, Eq, Structural)]
pub enum AttributeType {
    /// `BYTE`
    Byte,
    /// `UNSIGNED_BYTE`
    UnsignedByte,
    /// `SHORT`
    Short,
    /// `UNSIGNED_SHORT`
    UnsignedShort,
    /// `INT`
    Int,
    /// `UNSIGNED_INT`
    UnsignedInt,
    /// `FLOAT`
    Float,
    /// `HALF_FLOAT`
    HalfFloat,
}

impl GlEnum for AttributeType {
    open spec fn catalog() -> Catalog {
        Catalog::AttributeType
    }

    open spec fn code(self) -> u32 {
        match self {
            AttributeType::Byte => 0x1400,
            AttributeType::UnsignedByte => 0x1401,
            AttributeType::Short => 0x1402,
            AttributeType::UnsignedShort => 0x1403,
            AttributeType::Int => 0x1404,
            AttributeType::UnsignedInt => 0x1405,
            AttributeType::Float => 0x1406,
            AttributeType::HalfFloat => 0x140B,
        }
    }

    fn to_gl(self) -> (c: u32) {
        match self {
            AttributeType::Byte => 0x1400,
            AttributeType::UnsignedByte => 0x1401,
            AttributeType::Short => 0x1402,
            AttributeType::UnsignedShort => 0x1403,
            AttributeType::Int => 0x1404,
            AttributeType::UnsignedInt => 0x1405,
            AttributeType::Float => 0x1406,
            AttributeType::HalfFloat => 0x140B,
        }
    }

    fn from_gl(c: u32) -> (v: Option<Self>) {
        match c {
            0x1400 => Some(AttributeType::Byte),
            0x1401 => Some(AttributeType::UnsignedByte),
            0x1402 => Some(AttributeType::Short),
            0x1403 => Some(AttributeType::UnsignedShort),
            0x1404 => Some(AttributeType::Int),
            0x1405 => Some(AttributeType::UnsignedInt),
            0x1406 => Some(AttributeType::Float),
            0x140B => Some(AttributeType::HalfFloat),
            _ => None,
        }
    }

    proof fn lemma_injective(a: Self, b: Self) {
    }
}

/// Data types of the indices of an element array.
#[derive(Clone, Copy, Debug, PartialEq, Eq, Structural)]
pub enum DataType {
    /// `UNSIGNED_BYTE`
    UnsignedByte,
    /// `UNSIGNED_SHORT`
    UnsignedShort,
    /// `UNSIGNED_INT`
    UnsignedInt,
}

impl GlEnum for DataType {
    open spec fn catalog() -> Catalog {
        Catalog::DataType
    }

    open spec fn code(self) -> u32 {
        match self {
            DataType::UnsignedByte => 0x1401,
            DataType::UnsignedShort => 0x1403,
            DataType::UnsignedInt => 0x1405,
        }
    }

    fn to_gl(self) -> (c: u32) {
        match self {
            DataType::UnsignedByte => 0x1401,
            DataType::UnsignedShort => 0x1403,
            DataType::UnsignedInt => 0x1405,
        }
    }

    fn from_gl(c: u32) -> (v: Option<Self>) {
        match c {
            0x1401 => Some(DataType::UnsignedByte),
            0x1403 => Some(DataType::UnsignedShort),
            0x1405 => Some(DataType::UnsignedInt),
            _ => None,
        }
    }

    proof fn lemma_injective(a: Self, b: Self) {
    }
}

/// Buffers of the drawing surface, as bits of a mask.
#[derive(Clone, Copy, Debug, PartialEq, Eq, Structural)]
pub enum BufferBit {
    /// `DEPTH_BUFFER_BIT`
    Depth,
    /// `STENCIL_BUFFER_BIT`
    Stencil,
    /// `COLOR_BUFFER_BIT`
    Color,
}

impl GlEnum for BufferBit {
    open spec fn catalog() -> Catalog {
        Catalog::BufferBit
    }

    open spec fn code(self) -> u32 {
        match self {
            BufferBit::Depth => 0x0100,
            BufferBit::Stencil => 0x0400,
            BufferBit::Color => 0x4000,
        }
    }

    fn to_gl(self) -> (c: u32) {
        match self {
            BufferBit::Depth => 0x0100,
            BufferBit::Stencil => 0x0400,
            BufferBit::Color => 0x4000,
        }
    }

    fn from_gl(c: u32) -> (v: Option<Self>) {
        match c {
            0x0100 => Some(BufferBit::Depth),
            0x0400 => Some(BufferBit::Stencil),
            0x4000 => Some(BufferBit::Color),
            _ => None,
        }
    }

    proof fn lemma_injective(a: Self, b: Self) {
    }
}

/// Buffers of a framebuffer that can be cleared one at a time.
#[derive(Clone, Copy, Debug, PartialEq, Eq, Structural)]
pub enum ClearBuffer {
    /// `COLOR`
    Color,
    /// `DEPTH`
    Depth,
    /// `STENCIL`
    Stencil,
    /// `DEPTH_STENCIL`
    DepthStencil,
}

impl GlEnum for ClearBuffer {
    open spec fn catalog() -> Catalog {
        Catalog::ClearBuffer
    }

    open spec fn code(self) -> u32 {
        match self {
            ClearBuffer::Color => 0x1800,
            ClearBuffer::Depth => 0x1801,
            ClearBuffer::Stencil => 0x1802,
            ClearBuffer::DepthStencil => 0x84F9,
        }
    }

    fn to_gl(self) -> (c: u32) {
        match self {
            ClearBuffer::Color => 0x1800,
            ClearBuffer::Depth => 0x1801,
            ClearBuffer::Stencil => 0x1802,
            ClearBuffer::DepthStencil => 0x84F9,
        }
    }

    fn from_gl(c: u32) -> (v: Option<Self>) {
        match c {
            0x1800 => Some(ClearBuffer::Color),
            0x1801 => Some(ClearBuffer::Depth),
            0x1802 => Some(ClearBuffer::Stencil),
            0x84F9 => Some(ClearBuffer::DepthStencil),
            _ => None,
        }
    }

    proof fn lemma_injective(a: Self, b: Self) {
    }
}

/// Kinds of primitives to draw.
#[derive(Clone, Copy, Debug, PartialEq, Eq, Structural)]
pub enum Primitives {
    /// `POINTS`
    Points,
    /// `LINES`
    Lines,
    /// `LINE_LOOP`
    LineLoop,
    /// `LINE_STRIP`
    LineStrip,
    /// `TRIANGLES`
    Triangles,
    /// `TRIANGLE_STRIP`
    TriangleStrip,
    /// `TRIANGLE_FAN`
    TriangleFan,
}

impl GlEnum for Primitives {
    open spec fn catalog() -> Catalog {
        Catalog::Primitives
    }

    open spec fn code(self) -> u32 {
        match self {
            Primitives::Points => 0,
            Primitives::Lines => 1,
            Primitives::LineLoop => 2,
            Primitives::LineStrip => 3,
            Primitives::Triangles => 4,
            Primitives::TriangleStrip => 5,
            Primitives::TriangleFan => 6,
        }
    }

    fn to_gl(self) -> (c: u32) {
        match self {
            Primitives::Points => 0,
            Primitives::Lines => 1,
            Primitives::LineLoop => 2,
            Primitives::LineStrip => 3,
            Primitives::Triangles => 4,
            Primitives::TriangleStrip => 5,
            Primitives::TriangleFan => 6,
        }
    }

    fn from_gl(c: u32) -> (v: Option<Self>) {
        match c {
            0 => Some(Primitives::Points),
            1 => Some(Primitives::Lines),
            2 => Some(Primitives::LineLoop),
            3 => Some(Primitives::LineStrip),
            4 => Some(Primitives::Triangles),
            5 => Some(Primitives::TriangleStrip),
            6 => Some(Primitives::TriangleFan),
            _ => None,
        }
    }

    proof fn lemma_injective(a: Self, b: Self) {
    }
}

/// Information asked about an internal format.
#[derive(Clone, Copy, Debug, PartialEq, Eq, Structural)]
pub enum InformationType {
    /// `SAMPLES`
    Samples,
}

impl GlEnum for InformationType {
    open spec fn catalog() -> Catalog {
        Catalog::InformationType
    }

    open spec fn code(self) -> u32 {
        match self {
            InformationType::Samples => 0x80A9,
        }
    }

    fn to_gl(self) -> (c: u32) {
        match self {
            InformationType::Samples => 0x80A9,
        }
    }

    fn from_gl(c: u32) -> (v: Option<Self>) {
        match c {
            0x80A9 => Some(InformationType::Samples),
            _ => None,
        }
    }

    proof fn lemma_injective(a: Self, b: Self) {
    }
}

/// The sets of the catalog, by name.
#[derive(Clone, Copy, Debug, PartialEq, Eq, Structural)]
pub enum Catalog {
    BufferKind,
    BufferBase,
    DataHint,
    BufferParameter,
    FramebufferKind,
    FramebufferStatus,
    RenderbufferKind,
    RenderbufferFormat,
    RenderbufferParameter,
    Attachment,
    ColorBuffer,
    TextureKind,
    Texture2DKind,
    Texture3DKind,
    TextureBindPoint,
    TextureUnit,
    TextureParameter,
    TextureMagFilter,
    TextureMinFilter,
    TextureWrap,
    DepthTest,
    StencilTest,
    StencilAction,
    CompareMode,
    PixelCopyFormat,
    PixelReadFormat,
    PixelType,
    PixelStorageMode,
    ShaderKind,
    ShaderParameter,
    ShaderPrecision,
    ProgramParameter,
    TransformFeedbackBufferMode,
    TransformFeedback,
    TransformFeedbackMode,
    QueryTarget,
    Query,
    QueryParameter,
    GPUState,
    SyncParameter,
    SyncType,
    SyncStatus,
    WaitStatus,
    BlendEquation,
    BlendMode,
    Culling,
    FrontFaceDirection,
    Flag,
    Error,
    HintTarget,
    HintMode,
    VertexAttrib,
    AttributeSize,
    AttributeType,
    DataType,
    BufferBit,
    ClearBuffer,
    Primitives,
    InformationType,
}

impl Catalog {
    /// Whether some value of the set stands for `c`.
    pub open spec fn holds(self, c: u32) -> bool {
        match self {
            Catalog::BufferKind => is_code::<BufferKind>(c),
            Catalog::BufferBase => is_code::<BufferBase>(c),
            Catalog::DataHint => is_code::<DataHint>(c),
            Catalog::BufferParameter => is_code::<BufferParameter>(c),
            Catalog::FramebufferKind => is_code::<FramebufferKind>(c),
            Catalog::FramebufferStatus => is_code::<FramebufferStatus>(c),
            Catalog::RenderbufferKind => is_code::<RenderbufferKind>(c),
            Catalog::RenderbufferFormat => is_code::<RenderbufferFormat>(c),
            Catalog::RenderbufferParameter => is_code::<RenderbufferParameter>(c),
            Catalog::Attachment => is_code::<Attachment>(c),
            Catalog::ColorBuffer => is_code::<ColorBuffer>(c),
            Catalog::TextureKind => is_code::<TextureKind>(c),
            Catalog::Texture2DKind => is_code::<Texture2DKind>(c),
            Catalog::Texture3DKind => is_code::<Texture3DKind>(c),
            Catalog::TextureBindPoint => is_code::<TextureBindPoint>(c),
            Catalog::TextureUnit => is_code::<TextureUnit>(c),
            Catalog::TextureParameter => is_code::<TextureParameter>(c),
            Catalog::TextureMagFilter => is_code::<TextureMagFilter>(c),
            Catalog::TextureMinFilter => is_code::<TextureMinFilter>(c),
            Catalog::TextureWrap => is_code::<TextureWrap>(c),
            Catalog::DepthTest => is_code::<DepthTest>(c),
            Catalog::StencilTest => is_code::<StencilTest>(c),
            Catalog::StencilAction => is_code::<StencilAction>(c),
            Catalog::CompareMode => is_code::<CompareMode>(c),
            Catalog::PixelCopyFormat => is_code::<PixelCopyFormat>(c),
            Catalog::PixelReadFormat => is_code::<PixelReadFormat>(c),
            Catalog::PixelType => is_code::<PixelType>(c),
            Catalog::PixelStorageMode => is_code::<PixelStorageMode>(c),
            Catalog::ShaderKind => is_code::<ShaderKind>(c),
            Catalog::ShaderParameter => is_code::<ShaderParameter>(c),
            Catalog::ShaderPrecision => is_code::<ShaderPrecision>(c),
            Catalog::ProgramParameter => is_code::<ProgramParameter>(c),
            Catalog::TransformFeedbackBufferMode => is_code::<TransformFeedbackBufferMode>(c),
            Catalog::TransformFeedback => is_code::<TransformFeedback>(c),
            Catalog::TransformFeedbackMode => is_code::<TransformFeedbackMode>(c),
            Catalog::QueryTarget => is_code::<QueryTarget>(c),
            Catalog::Query => is_code::<Query>(c),
            Catalog::QueryParameter => is_code::<QueryParameter>(c),
            Catalog::GPUState => is_code::<GPUState>(c),
            Catalog::SyncParameter => is_code::<SyncParameter>(c),
            Catalog::SyncType => is_code::<SyncType>(c),
            Catalog::SyncStatus => is_code::<SyncStatus>(c),
            Catalog::WaitStatus => is_code::<WaitStatus>(c),
            Catalog::BlendEquation => is_code::<BlendEquation>(c),
            Catalog::BlendMode => is_code::<BlendMode>(c),
            Catalog::Culling => is_code::<Culling>(c),
            Catalog::FrontFaceDirection => is_code::<FrontFaceDirection>(c),
            Catalog::Flag => is_code::<Flag>(c),
            Catalog::Error => is_code::<Error>(c),
            Catalog::HintTarget => is_code::<HintTarget>(c),
            Catalog::HintMode => is_code::<HintMode>(c),
            Catalog::VertexAttrib => is_code::<VertexAttrib>(c),
            Catalog::AttributeSize => is_code::<AttributeSize>(c),
            Catalog::AttributeType => is_code::<AttributeType>(c),
            Catalog::DataType => is_code::<DataType>(c),
            Catalog::BufferBit => is_code::<BufferBit>(c),
            Catalog::ClearBuffer => is_code::<ClearBuffer>(c),
            Catalog::Primitives => is_code::<Primitives>(c),
            Catalog::InformationType => is_code::<InformationType>(c),
        }
    }

    /// Says whether some value of the set stands for `c`.
    pub fn has(self, c: u32) -> (b: bool)
        ensures
            b == self.holds(c),
    {
        match self {
            Catalog::BufferKind => BufferKind::from_gl(c).is_some(),
            Catalog::BufferBase => BufferBase::from_gl(c).is_some(),
            Catalog::DataHint => DataHint::from_gl(c).is_some(),
            Catalog::BufferParameter => BufferParameter::from_gl(c).is_some(),
            Catalog::FramebufferKind => FramebufferKind::from_gl(c).is_some(),
            Catalog::FramebufferStatus => FramebufferStatus::from_gl(c).is_some(),
            Catalog::RenderbufferKind => RenderbufferKind::from_gl(c).is_some(),
            Catalog::RenderbufferFormat => RenderbufferFormat::from_gl(c).is_some(),
            Catalog::RenderbufferParameter => RenderbufferParameter::from_gl(c).is_some(),
            Catalog::Attachment => Attachment::from_gl(c).is_some(),
            Catalog::ColorBuffer => ColorBuffer::from_gl(c).is_some(),
            Catalog::TextureKind => TextureKind::from_gl(c).is_some(),
            Catalog::Texture2DKind => Texture2DKind::from_gl(c).is_some(),
            Catalog::Texture3DKind => Texture3DKind::from_gl(c).is_some(),
            Catalog::TextureBindPoint => TextureBindPoint::from_gl(c).is_some(),
            Catalog::TextureUnit => TextureUnit::from_gl(c).is_some(),
            Catalog::TextureParameter => TextureParameter::from_gl(c).is_some(),
            Catalog::TextureMagFilter => TextureMagFilter::from_gl(c).is_some(),
            Catalog::TextureMinFilter => TextureMinFilter::from_gl(c).is_some(),
            Catalog::TextureWrap => TextureWrap::from_gl(c).is_some(),
            Catalog::DepthTest => DepthTest::from_gl(c).is_some(),
            Catalog::StencilTest => StencilTest::from_gl(c).is_some(),
            Catalog::StencilAction => StencilAction::from_gl(c).is_some(),
            Catalog::CompareMode => CompareMode::from_gl(c).is_some(),
            Catalog::PixelCopyFormat => PixelCopyFormat::from_gl(c).is_some(),
            Catalog::PixelReadFormat => PixelReadFormat::from_gl(c).is_some(),
            Catalog::PixelType => PixelType::from_gl(c).is_some(),
            Catalog::PixelStorageMode => PixelStorageMode::from_gl(c).is_some(),
            Catalog::ShaderKind => ShaderKind::from_gl(c).is_some(),
            Catalog::ShaderParameter => ShaderParameter::from_gl(c).is_some(),
            Catalog::ShaderPrecision => ShaderPrecision::from_gl(c).is_some(),
            Catalog::ProgramParameter => ProgramParameter::from_gl(c).is_some(),
            Catalog::TransformFeedbackBufferMode => {
                TransformFeedbackBufferMode::from_gl(c).is_some()
            },
            Catalog::TransformFeedback => TransformFeedback::from_gl(c).is_some(),
            Catalog::TransformFeedbackMode => TransformFeedbackMode::from_gl(c).is_some(),
            Catalog::QueryTarget => QueryTarget::from_gl(c).is_some(),
            Catalog::Query => Query::from_gl(c).is_some(),
            Catalog::QueryParameter => QueryParameter::from_gl(c).is_some(),
            Catalog::GPUState => GPUState::from_gl(c).is_some(),
            Catalog::SyncParameter => SyncParameter::from_gl(c).is_some(),
            Catalog::SyncType => SyncType::from_gl(c).is_some(),
            Catalog::SyncStatus => SyncStatus::from_gl(c).is_some(),
            Catalog::WaitStatus => WaitStatus::from_gl(c).is_some(),
            Catalog::BlendEquation => BlendEquation::from_gl(c).is_some(),
            Catalog::BlendMode => BlendMode::from_gl(c).is_some(),
            Catalog::Culling => Culling::from_gl(c).is_some(),
            Catalog::FrontFaceDirection => FrontFaceDirection::from_gl(c).is_some(),
            Catalog::Flag => Flag::from_gl(c).is_some(),
            Catalog::Error => Error::from_gl(c).is_some(),
            Catalog::HintTarget => HintTarget::from_gl(c).is_some(),
            Catalog::HintMode => HintMode::from_gl(c).is_some(),
            Catalog::VertexAttrib => VertexAttrib::from_gl(c).is_some(),
            Catalog::AttributeSize => AttributeSize::from_gl(c).is_some(),
            Catalog::AttributeType => AttributeType::from_gl(c).is_some(),
            Catalog::DataType => DataType::from_gl(c).is_some(),
            Catalog::BufferBit => BufferBit::from_gl(c).is_some(),
            Catalog::ClearBuffer => ClearBuffer::from_gl(c).is_some(),
            Catalog::Primitives => Primitives::from_gl(c).is_some(),
            Catalog::InformationType => InformationType::from_gl(c).is_some(),
        }
    }
}

} // verus!
