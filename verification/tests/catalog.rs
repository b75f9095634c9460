//! The catalog: every value with its number, there and back.
use webgl_rs::glenum::{
    Attachment, AttributeSize, AttributeType, BlendEquation, BlendMode, BufferBase, BufferBit,
    BufferKind, BufferParameter, Catalog, ClearBuffer, ColorBuffer, CompareMode, Culling, DataHint,
    DataType, DepthTest, Error, Flag, FramebufferKind, FramebufferStatus, FrontFaceDirection,
    GPUState, GlEnum, HintMode, HintTarget, InformationType, PixelCopyFormat, PixelReadFormat,
    PixelStorageMode, PixelType, Primitives, ProgramParameter, Query, QueryParameter, QueryTarget,
    RenderbufferFormat, RenderbufferKind, RenderbufferParameter, ShaderKind, ShaderParameter,
    ShaderPrecision, StencilAction, StencilTest, SyncParameter, SyncStatus, SyncType,
    Texture2DKind, Texture3DKind, TextureBindPoint, TextureKind, TextureMagFilter,
    TextureMinFilter, TextureParameter, TextureUnit, TextureWrap, TransformFeedback,
    TransformFeedbackBufferMode, TransformFeedbackMode, VertexAttrib, WaitStatus,
};

/// Checks a whole set: each value gives its number, each number gives its
/// value back, no number stands for two values, and a number outside the
/// set gives no value.
fn check<E: GlEnum + Copy + PartialEq + std::fmt::Debug>(catalog: Catalog, table: &[(E, u32)]) {
    for (value, number) in table {
        assert_eq!(value.to_gl(), *number);
        assert_eq!(E::from_gl(*number), Some(*value));
        assert_eq!(E::from_gl(value.to_gl()), Some(*value));
        assert!(catalog.has(*number));
    }
    for (i, (a, _)) in table.iter().enumerate() {
        for (b, _) in &table[i + 1..] {
            assert_ne!(a, b);
            assert_ne!(a.to_gl(), b.to_gl());
        }
    }
    for outside in [0x0003u32, 0x7777, 0xFFFF_FFFF] {
        if table.iter().all(|(_, number)| *number != outside) {
            assert_eq!(E::from_gl(outside), None);
            assert!(!catalog.has(outside));
        }
    }
}

#[test]
fn buffer_kind_there_and_back() {
    check(
        Catalog::BufferKind,
        &[
            (BufferKind::Array, 0x8892),
            (BufferKind::ElementArray, 0x8893),
            (BufferKind::CopyRead, 0x8F36),
            (BufferKind::CopyWrite, 0x8F37),
            (BufferKind::TransformFeedback, 0x8C8E),
            (BufferKind::Uniform, 0x8A11),
            (BufferKind::PixelPack, 0x88EB),
            (BufferKind::PixelUnpack, 0x88EC),
        ],
    );
}

#[test]
fn buffer_base_there_and_back() {
    check(
        Catalog::BufferBase,
        &[
            (BufferBase::TransformFeedback, 0x8C8E),
            (BufferBase::Uniform, 0x8A11),
        ],
    );
}

#[test]
fn data_hint_there_and_back() {
    check(
        Catalog::DataHint,
        &[
            (DataHint::StreamDraw, 0x88E0),
            (DataHint::StreamRead, 0x88E1),
            (DataHint::StreamCopy, 0x88E2),
            (DataHint::StaticDraw, 0x88E4),
            (DataHint::StaticRead, 0x88E5),
            (DataHint::StaticCopy, 0x88E6),
            (DataHint::DynamicDraw, 0x88E8),
            (DataHint::DynamicRead, 0x88E9),
            (DataHint::DynamicCopy, 0x88EA),
        ],
    );
}

#[test]
fn buffer_parameter_there_and_back() {
    check(
        Catalog::BufferParameter,
        &[
            (BufferParameter::Size, 0x8764),
            (BufferParameter::Usage, 0x8765),
        ],
    );
}

#[test]
fn framebuffer_kind_there_and_back() {
    check(
        Catalog::FramebufferKind,
        &[
            (FramebufferKind::Framebuffer, 0x8D40),
            (FramebufferKind::DrawFramebuffer, 0x8CA9),
            (FramebufferKind::ReadFramebuffer, 0x8CA8),
        ],
    );
}

#[test]
fn framebuffer_status_there_and_back() {
    check(
        Catalog::FramebufferStatus,
        &[
            (FramebufferStatus::Complete, 0x8CD5),
            (FramebufferStatus::IncompleteAttachment, 0x8CD6),
            (FramebufferStatus::IncompleteMissingAttachment, 0x8CD7),
            (FramebufferStatus::IncompleteDimensions, 0x8CD9),
            (FramebufferStatus::Unsupported, 0x8CDD),
            (FramebufferStatus::IncompleteMultisample, 0x8D56),
        ],
    );
}

#[test]
fn renderbuffer_kind_there_and_back() {
    check(
        Catalog::RenderbufferKind,
        &[
            (RenderbufferKind::Renderbuffer, 0x8D41),
        ],
    );
}

#[test]
fn renderbuffer_format_there_and_back() {
    check(
        Catalog::RenderbufferFormat,
        &[
            (RenderbufferFormat::Rgba4, 0x8056),
            (RenderbufferFormat::Rgb565, 0x8D62),
            (RenderbufferFormat::Rgb5A1, 0x8057),
            (RenderbufferFormat::DepthComponent16, 0x81A5),
            (RenderbufferFormat::StencilIndex8, 0x8D48),
            (RenderbufferFormat::DepthStencil, 0x84F9),
            (RenderbufferFormat::R8, 0x8229),
            (RenderbufferFormat::R8ui, 0x8232),
            (RenderbufferFormat::R8i, 0x8231),
            (RenderbufferFormat::R16ui, 0x8234),
            (RenderbufferFormat::R16i, 0x8233),
            (RenderbufferFormat::R32ui, 0x8236),
            (RenderbufferFormat::R32i, 0x8235),
            (RenderbufferFormat::Rg8, 0x822B),
            (RenderbufferFormat::Rg8ui, 0x8238),
            (RenderbufferFormat::Rg8i, 0x8237),
            (RenderbufferFormat::Rg16ui, 0x823A),
            (RenderbufferFormat::Rg16i, 0x8239),
            (RenderbufferFormat::Rg32ui, 0x823C),
            (RenderbufferFormat::Rg32i, 0x823B),
            (RenderbufferFormat::Rgb8, 0x8051),
            (RenderbufferFormat::Rgba8, 0x8058),
            (RenderbufferFormat::Srgb8Alpha8, 0x8C43),
            (RenderbufferFormat::Rgb10A2, 0x8059),
            (RenderbufferFormat::Rgba8ui, 0x8D7C),
            (RenderbufferFormat::Rgba8i, 0x8D8E),
            (RenderbufferFormat::Rgb10A2ui, 0x906F),
            (RenderbufferFormat::Rgba16ui, 0x8D76),
            (RenderbufferFormat::Rgba16i, 0x8D88),
            (RenderbufferFormat::Rgba32i, 0x8D82),
            (RenderbufferFormat::Rgba32ui, 0x8D70),
            (RenderbufferFormat::DepthComponent24, 0x81A6),
            (RenderbufferFormat::DepthComponent32f, 0x8CAC),
            (RenderbufferFormat::Depth24Stencil8, 0x88F0),
            (RenderbufferFormat::Depth32fStencil8, 0x8CAD),
        ],
    );
}

#[test]
fn renderbuffer_parameter_there_and_back() {
    check(
        Catalog::RenderbufferParameter,
        &[
            (RenderbufferParameter::Width, 0x8D42),
            (RenderbufferParameter::Height, 0x8D43),
            (RenderbufferParameter::Format, 0x8D44),
            (RenderbufferParameter::RedSize, 0x8D50),
            (RenderbufferParameter::GreenSize, 0x8D51),
            (RenderbufferParameter::BlueSize, 0x8D52),
            (RenderbufferParameter::AlphaSize, 0x8D53),
            (RenderbufferParameter::DepthSize, 0x8D54),
            (RenderbufferParameter::StencilSize, 0x8D55),
            (RenderbufferParameter::Samples, 0x8CAB),
        ],
    );
}

#[test]
fn attachment_there_and_back() {
    check(
        Catalog::Attachment,
        &[
            (Attachment::Color0, 0x8CE0),
            (Attachment::Color1, 0x8CE1),
            (Attachment::Color2, 0x8CE2),
            (Attachment::Color3, 0x8CE3),
            (Attachment::Color4, 0x8CE4),
            (Attachment::Color5, 0x8CE5),
            (Attachment::Color6, 0x8CE6),
            (Attachment::Color7, 0x8CE7),
            (Attachment::Color8, 0x8CE8),
            (Attachment::Color9, 0x8CE9),
            (Attachment::Color10, 0x8CEA),
            (Attachment::Color11, 0x8CEB),
            (Attachment::Color12, 0x8CEC),
            (Attachment::Color13, 0x8CED),
            (Attachment::Color14, 0x8CEE),
            (Attachment::Color15, 0x8CEF),
            (Attachment::Depth, 0x8D00),
            (Attachment::Stencil, 0x8D20),
            (Attachment::DepthStencil, 0x821A),
        ],
    );
}

#[test]
fn color_buffer_there_and_back() {
    check(
        Catalog::ColorBuffer,
        &[
            (ColorBuffer::NoBuffer, 0),
            (ColorBuffer::Back, 0x0405),
            (ColorBuffer::ColorAttachment0, 0x8CE0),
            (ColorBuffer::ColorAttachment1, 0x8CE1),
            (ColorBuffer::ColorAttachment2, 0x8CE2),
            (ColorBuffer::ColorAttachment3, 0x8CE3),
            (ColorBuffer::ColorAttachment4, 0x8CE4),
            (ColorBuffer::ColorAttachment5, 0x8CE5),
            (ColorBuffer::ColorAttachment6, 0x8CE6),
            (ColorBuffer::ColorAttachment7, 0x8CE7),
            (ColorBuffer::ColorAttachment8, 0x8CE8),
            (ColorBuffer::ColorAttachment9, 0x8CE9),
            (ColorBuffer::ColorAttachment10, 0x8CEA),
            (ColorBuffer::ColorAttachment11, 0x8CEB),
            (ColorBuffer::ColorAttachment12, 0x8CEC),
            (ColorBuffer::ColorAttachment13, 0x8CED),
            (ColorBuffer::ColorAttachment14, 0x8CEE),
            (ColorBuffer::ColorAttachment15, 0x8CEF),
        ],
    );
}

#[test]
fn texture_kind_there_and_back() {
    check(
        Catalog::TextureKind,
        &[
            (TextureKind::Texture2d, 0x0DE1),
            (TextureKind::TextureCubeMap, 0x8513),
            (TextureKind::Texture3d, 0x806F),
            (TextureKind::Texture2dArray, 0x8C1A),
        ],
    );
}

#[test]
fn texture2dkind_there_and_back() {
    check(
        Catalog::Texture2DKind,
        &[
            (Texture2DKind::Texture2d, 0x0DE1),
            (Texture2DKind::TextureCubeMap, 0x8513),
        ],
    );
}

#[test]
fn texture3dkind_there_and_back() {
    check(
        Catalog::Texture3DKind,
        &[
            (Texture3DKind::Texture3d, 0x806F),
            (Texture3DKind::Texture2dArray, 0x8C1A),
        ],
    );
}

#[test]
fn texture_bind_point_there_and_back() {
    check(
        Catalog::TextureBindPoint,
        &[
            (TextureBindPoint::Texture2d, 0x0DE1),
            (TextureBindPoint::TextureCubeMapPositiveX, 0x8515),
            (TextureBindPoint::TextureCubeMapNegativeX, 0x8516),
            (TextureBindPoint::TextureCubeMapPositiveY, 0x8517),
            (TextureBindPoint::TextureCubeMapNegativeY, 0x8518),
            (TextureBindPoint::TextureCubeMapPositiveZ, 0x8519),
            (TextureBindPoint::TextureCubeMapNegativeZ, 0x851A),
        ],
    );
}

#[test]
fn texture_unit_there_and_back() {
    check(
        Catalog::TextureUnit,
        &[
            (TextureUnit::Texture0, 0x84C0),
            (TextureUnit::Texture1, 0x84C1),
            (TextureUnit::Texture2, 0x84C2),
            (TextureUnit::Texture3, 0x84C3),
            (TextureUnit::Texture4, 0x84C4),
            (TextureUnit::Texture5, 0x84C5),
            (TextureUnit::Texture6, 0x84C6),
            (TextureUnit::Texture7, 0x84C7),
            (TextureUnit::Texture8, 0x84C8),
            (TextureUnit::Texture9, 0x84C9),
            (TextureUnit::Texture10, 0x84CA),
            (TextureUnit::Texture11, 0x84CB),
            (TextureUnit::Texture12, 0x84CC),
            (TextureUnit::Texture13, 0x84CD),
            (TextureUnit::Texture14, 0x84CE),
            (TextureUnit::Texture15, 0x84CF),
            (TextureUnit::Texture16, 0x84D0),
            (TextureUnit::Texture17, 0x84D1),
            (TextureUnit::Texture18, 0x84D2),
            (TextureUnit::Texture19, 0x84D3),
            (TextureUnit::Texture20, 0x84D4),
            (TextureUnit::Texture21, 0x84D5),
            (TextureUnit::Texture22, 0x84D6),
            (TextureUnit::Texture23, 0x84D7),
            (TextureUnit::Texture24, 0x84D8),
            (TextureUnit::Texture25, 0x84D9),
            (TextureUnit::Texture26, 0x84DA),
            (TextureUnit::Texture27, 0x84DB),
            (TextureUnit::Texture28, 0x84DC),
            (TextureUnit::Texture29, 0x84DD),
            (TextureUnit::Texture30, 0x84DE),
            (TextureUnit::Texture31, 0x84DF),
        ],
    );
}

#[test]
fn texture_parameter_there_and_back() {
    check(
        Catalog::TextureParameter,
        &[
            (TextureParameter::MagFilter, 0x2800),
            (TextureParameter::MinFilter, 0x2801),
            (TextureParameter::WrapS, 0x2802),
            (TextureParameter::WrapT, 0x2803),
            (TextureParameter::WrapR, 0x8072),
            (TextureParameter::BaseLevel, 0x813C),
            (TextureParameter::MaxLevel, 0x813D),
            (TextureParameter::MinLod, 0x813A),
            (TextureParameter::MaxLod, 0x813B),
            (TextureParameter::CompareMode, 0x884C),
            (TextureParameter::CompareFunc, 0x884D),
            (TextureParameter::ImmutableFormat, 0x912F),
            (TextureParameter::ImmutableLevels, 0x82DF),
        ],
    );
}

#[test]
fn texture_mag_filter_there_and_back() {
    check(
        Catalog::TextureMagFilter,
        &[
            (TextureMagFilter::Nearest, 0x2600),
            (TextureMagFilter::Linear, 0x2601),
        ],
    );
}

#[test]
fn texture_min_filter_there_and_back() {
    check(
        Catalog::TextureMinFilter,
        &[
            (TextureMinFilter::Nearest, 0x2600),
            (TextureMinFilter::Linear, 0x2601),
            (TextureMinFilter::NearestMipmapNearest, 0x2700),
            (TextureMinFilter::LinearMipmapNearest, 0x2701),
            (TextureMinFilter::NearestMipmapLinear, 0x2702),
            (TextureMinFilter::LinearMipmapLinear, 0x2703),
        ],
    );
}

#[test]
fn texture_wrap_there_and_back() {
    check(
        Catalog::TextureWrap,
        &[
            (TextureWrap::Repeat, 0x2901),
            (TextureWrap::ClampToEdge, 0x812F),
            (TextureWrap::MirroredRepeat, 0x8370),
        ],
    );
}

#[test]
fn depth_test_there_and_back() {
    check(
        Catalog::DepthTest,
        &[
            (DepthTest::Never, 0x0200),
            (DepthTest::Less, 0x0201),
            (DepthTest::Equal, 0x0202),
            (DepthTest::Lequal, 0x0203),
            (DepthTest::Greater, 0x0204),
            (DepthTest::Notequal, 0x0205),
            (DepthTest::Gequal, 0x0206),
            (DepthTest::Always, 0x0207),
        ],
    );
}

#[test]
fn stencil_test_there_and_back() {
    check(
        Catalog::StencilTest,
        &[
            (StencilTest::Never, 0x0200),
            (StencilTest::Less, 0x0201),
            (StencilTest::Equal, 0x0202),
            (StencilTest::Lequal, 0x0203),
            (StencilTest::Greater, 0x0204),
            (StencilTest::Notequal, 0x0205),
            (StencilTest::Gequal, 0x0206),
            (StencilTest::Always, 0x0207),
        ],
    );
}

#[test]
fn stencil_action_there_and_back() {
    check(
        Catalog::StencilAction,
        &[
            (StencilAction::Keep, 0x1E00),
            (StencilAction::Zero, 0),
            (StencilAction::Replace, 0x1E01),
            (StencilAction::Incr, 0x1E02),
            (StencilAction::IncrWrap, 0x8507),
            (StencilAction::Decr, 0x1E03),
            (StencilAction::DecrWrap, 0x8508),
            (StencilAction::Invert, 0x150A),
        ],
    );
}

#[test]
fn compare_mode_there_and_back() {
    check(
        Catalog::CompareMode,
        &[
            (CompareMode::NoCompare, 0),
            (CompareMode::CompareRefToTexture, 0x884E),
        ],
    );
}

#[test]
fn pixel_copy_format_there_and_back() {
    check(
        Catalog::PixelCopyFormat,
        &[
            (PixelCopyFormat::Alpha, 0x1906),
            (PixelCopyFormat::Rgb, 0x1907),
            (PixelCopyFormat::Rgba, 0x1908),
            (PixelCopyFormat::Luminance, 0x1909),
            (PixelCopyFormat::LuminanceAlpha, 0x190A),
            (PixelCopyFormat::DepthComponent, 0x1902),
            (PixelCopyFormat::DepthStencil, 0x84F9),
            (PixelCopyFormat::Red, 0x1903),
            (PixelCopyFormat::Rg, 0x8227),
            (PixelCopyFormat::RedInteger, 0x8D94),
            (PixelCopyFormat::RgInteger, 0x8228),
            (PixelCopyFormat::RgbInteger, 0x8D98),
            (PixelCopyFormat::RgbaInteger, 0x8D99),
            (PixelCopyFormat::R8, 0x8229),
            (PixelCopyFormat::R8Snorm, 0x8F94),
            (PixelCopyFormat::R16f, 0x822D),
            (PixelCopyFormat::R32f, 0x822E),
            (PixelCopyFormat::R8ui, 0x8232),
            (PixelCopyFormat::R8i, 0x8231),
            (PixelCopyFormat::R16ui, 0x8234),
            (PixelCopyFormat::R16i, 0x8233),
            (PixelCopyFormat::R32ui, 0x8236),
            (PixelCopyFormat::R32i, 0x8235),
            (PixelCopyFormat::Rg8, 0x822B),
            (PixelCopyFormat::Rg8Snorm, 0x8F95),
            (PixelCopyFormat::Rg16f, 0x822F),
            (PixelCopyFormat::Rg32f, 0x8230),
            (PixelCopyFormat::Rg8ui, 0x8238),
            (PixelCopyFormat::Rg8i, 0x8237),
            (PixelCopyFormat::Rg16ui, 0x823A),
            (PixelCopyFormat::Rg16i, 0x8239),
            (PixelCopyFormat::Rg32ui, 0x823C),
            (PixelCopyFormat::Rg32i, 0x823B),
            (PixelCopyFormat::Rgb8, 0x8051),
            (PixelCopyFormat::Srgb8, 0x8C41),
            (PixelCopyFormat::Rgb565, 0x8D62),
            (PixelCopyFormat::Rgb8Snorm, 0x8F96),
            (PixelCopyFormat::R11fG11fB10f, 0x8C3A),
            (PixelCopyFormat::Rgb9E5, 0x8C3D),
            (PixelCopyFormat::Rgb16f, 0x881B),
            (PixelCopyFormat::Rgb32f, 0x8815),
            (PixelCopyFormat::Rgb8ui, 0x8D7D),
            (PixelCopyFormat::Rgb8i, 0x8D8F),
            (PixelCopyFormat::Rgb16ui, 0x8D77),
            (PixelCopyFormat::Rgb16i, 0x8D89),
            (PixelCopyFormat::Rgb32ui, 0x8D71),
            (PixelCopyFormat::Rgb32i, 0x8D83),
            (PixelCopyFormat::Rgba8, 0x8058),
            (PixelCopyFormat::Srgb8Alpha8, 0x8C43),
            (PixelCopyFormat::Rgba8Snorm, 0x8F97),
            (PixelCopyFormat::Rgb5A1, 0x8057),
            (PixelCopyFormat::Rgba4, 0x8056),
            (PixelCopyFormat::Rgb10A2, 0x8059),
            (PixelCopyFormat::Rgba16f, 0x881A),
            (PixelCopyFormat::Rgba32f, 0x8814),
            (PixelCopyFormat::Rgba8ui, 0x8D7C),
            (PixelCopyFormat::Rgba8i, 0x8D8E),
            (PixelCopyFormat::Rgb10A2ui, 0x906F),
            (PixelCopyFormat::Rgba16ui, 0x8D76),
            (PixelCopyFormat::Rgba16i, 0x8D88),
            (PixelCopyFormat::Rgba32i, 0x8D82),
            (PixelCopyFormat::Rgba32ui, 0x8D70),
            (PixelCopyFormat::DepthComponent16, 0x81A5),
            (PixelCopyFormat::DepthComponent24, 0x81A6),
            (PixelCopyFormat::DepthComponent32f, 0x8CAC),
            (PixelCopyFormat::Depth24Stencil8, 0x88F0),
            (PixelCopyFormat::Depth32fStencil8, 0x8CAD),
        ],
    );
}

#[test]
fn pixel_read_format_there_and_back() {
    check(
        Catalog::PixelReadFormat,
        &[
            (PixelReadFormat::Alpha, 0x1906),
            (PixelReadFormat::Rgb, 0x1907),
            (PixelReadFormat::Rgba, 0x1908),
            (PixelReadFormat::Red, 0x1903),
            (PixelReadFormat::Rg, 0x8227),
            (PixelReadFormat::RedInteger, 0x8D94),
            (PixelReadFormat::RgInteger, 0x8228),
            (PixelReadFormat::RgbInteger, 0x8D98),
            (PixelReadFormat::RgbaInteger, 0x8D99),
        ],
    );
}

#[test]
fn pixel_type_there_and_back() {
    check(
        Catalog::PixelType,
        &[
            (PixelType::UnsignedByte, 0x1401),
            (PixelType::Byte, 0x1400),
            (PixelType::UnsignedShort, 0x1403),
            (PixelType::Short, 0x1402),
            (PixelType::UnsignedInt, 0x1405),
            (PixelType::Int, 0x1404),
            (PixelType::HalfFloat, 0x140B),
            (PixelType::Float, 0x1406),
            (PixelType::UnsignedShort565, 0x8363),
            (PixelType::UnsignedShort4444, 0x8033),
            (PixelType::UnsignedShort5551, 0x8034),
            (PixelType::UnsignedInt2101010Rev, 0x8368),
            (PixelType::UnsignedInt10f11f11fRev, 0x8C3B),
            (PixelType::UnsignedInt5999Rev, 0x8C3E),
            (PixelType::UnsignedInt248, 0x84FA),
            (PixelType::Float32UnsignedInt248Rev, 0x8DAD),
        ],
    );
}

#[test]
fn pixel_storage_mode_there_and_back() {
    check(
        Catalog::PixelStorageMode,
        &[
            (PixelStorageMode::PackAlignment, 0x0D05),
            (PixelStorageMode::UnpackAlignment, 0x0CF5),
            (PixelStorageMode::UnpackFlipY, 0x9240),
            (PixelStorageMode::UnpackPremultiplyAlpha, 0x9241),
            (PixelStorageMode::UnpackColorspaceConversion, 0x9243),
            (PixelStorageMode::PackRowLength, 0x0D02),
            (PixelStorageMode::PackSkipPixels, 0x0D04),
            (PixelStorageMode::PackSkipRows, 0x0D03),
            (PixelStorageMode::UnpackRowLength, 0x0CF2),
            (PixelStorageMode::UnpackImageHeight, 0x806E),
            (PixelStorageMode::UnpackSkipPixels, 0x0CF4),
            (PixelStorageMode::UnpackSkipRows, 0x0CF3),
            (PixelStorageMode::UnpackSkipImages, 0x806D),
        ],
    );
}

#[test]
fn shader_kind_there_and_back() {
    check(
        Catalog::ShaderKind,
        &[
            (ShaderKind::Fragment, 0x8B30),
            (ShaderKind::Vertex, 0x8B31),
        ],
    );
}

#[test]
fn shader_parameter_there_and_back() {
    check(
        Catalog::ShaderParameter,
        &[
            (ShaderParameter::DeleteStatus, 0x8B80),
            (ShaderParameter::CompileStatus, 0x8B81),
            (ShaderParameter::ShaderType, 0x8B4F),
        ],
    );
}

#[test]
fn shader_precision_there_and_back() {
    check(
        Catalog::ShaderPrecision,
        &[
            (ShaderPrecision::LowFloat, 0x8DF0),
            (ShaderPrecision::MediumFloat, 0x8DF1),
            (ShaderPrecision::HighFloat, 0x8DF2),
            (ShaderPrecision::LowInt, 0x8DF3),
            (ShaderPrecision::MediumInt, 0x8DF4),
            (ShaderPrecision::HighInt, 0x8DF5),
        ],
    );
}

#[test]
fn program_parameter_there_and_back() {
    check(
        Catalog::ProgramParameter,
        &[
            (ProgramParameter::DeleteStatus, 0x8B80),
            (ProgramParameter::LinkStatus, 0x8B82),
            (ProgramParameter::ValidateStatus, 0x8B83),
            (ProgramParameter::AttachedShaders, 0x8B85),
            (ProgramParameter::ActiveAttributes, 0x8B89),
            (ProgramParameter::ActiveUniforms, 0x8B86),
            (ProgramParameter::TransformFeedbackBufferMode, 0x8C7F),
            (ProgramParameter::TransformFeedbackVaryings, 0x8C83),
            (ProgramParameter::ActiveUniformBlocks, 0x8A36),
        ],
    );
}

#[test]
fn transform_feedback_buffer_mode_there_and_back() {
    check(
        Catalog::TransformFeedbackBufferMode,
        &[
            (TransformFeedbackBufferMode::InterleavedAttribs, 0x8C8C),
            (TransformFeedbackBufferMode::SeparateAttribs, 0x8C8D),
        ],
    );
}

#[test]
fn transform_feedback_there_and_back() {
    check(
        Catalog::TransformFeedback,
        &[
            (TransformFeedback::TransformFeedback, 0x8E22),
        ],
    );
}

#[test]
fn transform_feedback_mode_there_and_back() {
    check(
        Catalog::TransformFeedbackMode,
        &[
            (TransformFeedbackMode::Points, 0),
            (TransformFeedbackMode::Lines, 1),
            (TransformFeedbackMode::Triangles, 4),
        ],
    );
}

#[test]
fn query_target_there_and_back() {
    check(
        Catalog::QueryTarget,
        &[
            (QueryTarget::AnySamplesPassed, 0x8C2F),
            (QueryTarget::AnySamplesPassedConservative, 0x8D6A),
            (QueryTarget::TransformFeedbackPrimitivesWritten, 0x8C88),
        ],
    );
}

#[test]
fn query_there_and_back() {
    check(
        Catalog::Query,
        &[
            (Query::Current, 0x8865),
        ],
    );
}

#[test]
fn query_parameter_there_and_back() {
    check(
        Catalog::QueryParameter,
        &[
            (QueryParameter::Result, 0x8866),
            (QueryParameter::ResultAvailable, 0x8867),
        ],
    );
}

#[test]
fn gpustate_there_and_back() {
    check(
        Catalog::GPUState,
        &[
            (GPUState::CommandsComplete, 0x9117),
        ],
    );
}

#[test]
fn sync_parameter_there_and_back() {
    check(
        Catalog::SyncParameter,
        &[
            (SyncParameter::Type, 0x9112),
            (SyncParameter::Status, 0x9114),
            (SyncParameter::Condition, 0x9113),
            (SyncParameter::Flags, 0x9115),
        ],
    );
}

#[test]
fn sync_type_there_and_back() {
    check(
        Catalog::SyncType,
        &[
            (SyncType::Fence, 0x9116),
        ],
    );
}

#[test]
fn sync_status_there_and_back() {
    check(
        Catalog::SyncStatus,
        &[
            (SyncStatus::Signaled, 0x9119),
            (SyncStatus::Unsignaled, 0x9118),
        ],
    );
}

#[test]
fn wait_status_there_and_back() {
    check(
        Catalog::WaitStatus,
        &[
            (WaitStatus::AlreadySignaled, 0x911A),
            (WaitStatus::TimeoutExpired, 0x911B),
            (WaitStatus::ConditionSatisfied, 0x911C),
            (WaitStatus::WaitFailed, 0x911D),
        ],
    );
}

#[test]
fn blend_equation_there_and_back() {
    check(
        Catalog::BlendEquation,
        &[
            (BlendEquation::FuncAdd, 0x8006),
            (BlendEquation::FuncSubtract, 0x800A),
            (BlendEquation::FuncReverseSubtract, 0x800B),
            (BlendEquation::Min, 0x8007),
            (BlendEquation::Max, 0x8008),
        ],
    );
}

#[test]
fn blend_mode_there_and_back() {
    check(
        Catalog::BlendMode,
        &[
            (BlendMode::Zero, 0),
            (BlendMode::One, 1),
            (BlendMode::SrcColor, 0x0300),
            (BlendMode::OneMinusSrcColor, 0x0301),
            (BlendMode::SrcAlpha, 0x0302),
            (BlendMode::OneMinusSrcAlpha, 0x0303),
            (BlendMode::DstAlpha, 0x0304),
            (BlendMode::OneMinusDstAlpha, 0x0305),
            (BlendMode::DstColor, 0x0306),
            (BlendMode::OneMinusDstColor, 0x0307),
            (BlendMode::SrcAlphaSaturate, 0x0308),
            (BlendMode::ConstantColor, 0x8001),
            (BlendMode::OneMinusConstantColor, 0x8002),
            (BlendMode::ConstantAlpha, 0x8003),
            (BlendMode::OneMinusConstantAlpha, 0x8004),
        ],
    );
}

#[test]
fn culling_there_and_back() {
    check(
        Catalog::Culling,
        &[
            (Culling::Front, 0x0404),
            (Culling::Back, 0x0405),
            (Culling::FrontAndBack, 0x0408),
        ],
    );
}

#[test]
fn front_face_direction_there_and_back() {
    check(
        Catalog::FrontFaceDirection,
        &[
            (FrontFaceDirection::Cw, 0x0900),
            (FrontFaceDirection::Ccw, 0x0901),
        ],
    );
}

#[test]
fn flag_there_and_back() {
    check(
        Catalog::Flag,
        &[
            (Flag::Blend, 0x0BE2),
            (Flag::CullFace, 0x0B44),
            (Flag::DepthTest, 0x0B71),
            (Flag::Dither, 0x0BD0),
            (Flag::PolygonOffsetFill, 0x8037),
            (Flag::SampleAlphaToCoverage, 0x809E),
            (Flag::SampleCoverage, 0x80A0),
            (Flag::ScissorTest, 0x0C11),
            (Flag::StencilTest, 0x0B90),
            (Flag::RasterizerDiscard, 0x8C89),
        ],
    );
}

#[test]
fn error_there_and_back() {
    check(
        Catalog::Error,
        &[
            (Error::NoError, 0),
            (Error::InvalidEnum, 0x0500),
            (Error::InvalidValue, 0x0501),
            (Error::InvalidOperation, 0x0502),
            (Error::OutOfMemory, 0x0505),
            (Error::InvalidFramebufferOperation, 0x0506),
            (Error::ContextLost, 0x9242),
        ],
    );
}

#[test]
fn hint_target_there_and_back() {
    check(
        Catalog::HintTarget,
        &[
            (HintTarget::GenerateMipmap, 0x8192),
            (HintTarget::FragmentShaderDerivative, 0x8B8B),
        ],
    );
}

#[test]
fn hint_mode_there_and_back() {
    check(
        Catalog::HintMode,
        &[
            (HintMode::Fastest, 0x1101),
            (HintMode::Nicest, 0x1102),
            (HintMode::DontCare, 0x1100),
        ],
    );
}

#[test]
fn vertex_attrib_there_and_back() {
    check(
        Catalog::VertexAttrib,
        &[
            (VertexAttrib::BufferBinding, 0x889F),
            (VertexAttrib::Enabled, 0x8622),
            (VertexAttrib::Size, 0x8623),
            (VertexAttrib::Stride, 0x8624),
            (VertexAttrib::Type, 0x8625),
            (VertexAttrib::Normalized, 0x886A),
            (VertexAttrib::Pointer, 0x8645),
            (VertexAttrib::Current, 0x8626),
            (VertexAttrib::Integer, 0x88FD),
            (VertexAttrib::Divisor, 0x88FE),
        ],
    );
}

#[test]
fn attribute_size_there_and_back() {
    check(
        Catalog::AttributeSize,
        &[
            (AttributeSize::One, 1),
            (AttributeSize::Two, 2),
            (AttributeSize::Three, 3),
            (AttributeSize::Four, 4),
        ],
    );
}

#[test]
fn attribute_type_there_and_back() {
    check(
        Catalog::AttributeType,
        &[
            (AttributeType::Byte, 0x1400),
            (AttributeType::UnsignedByte, 0x1401),
            (AttributeType::Short, 0x1402),
            (AttributeType::UnsignedShort, 0x1403),
            (AttributeType::Int, 0x1404),
            (AttributeType::UnsignedInt, 0x1405),
            (AttributeType::Float, 0x1406),
            (AttributeType::HalfFloat, 0x140B),
        ],
    );
}

#[test]
fn data_type_there_and_back() {
    check(
        Catalog::DataType,
        &[
            (DataType::UnsignedByte, 0x1401),
            (DataType::UnsignedShort, 0x1403),
            (DataType::UnsignedInt, 0x1405),
        ],
    );
}

#[test]
fn buffer_bit_there_and_back() {
    check(
        Catalog::BufferBit,
        &[
            (BufferBit::Depth, 0x0100),
            (BufferBit::Stencil, 0x0400),
            (BufferBit::Color, 0x4000),
        ],
    );
}

#[test]
fn clear_buffer_there_and_back() {
    check(
        Catalog::ClearBuffer,
        &[
            (ClearBuffer::Color, 0x1800),
            (ClearBuffer::Depth, 0x1801),
            (ClearBuffer::Stencil, 0x1802),
            (ClearBuffer::DepthStencil, 0x84F9),
        ],
    );
}

#[test]
fn primitives_there_and_back() {
    check(
        Catalog::Primitives,
        &[
            (Primitives::Points, 0),
            (Primitives::Lines, 1),
            (Primitives::LineLoop, 2),
            (Primitives::LineStrip, 3),
            (Primitives::Triangles, 4),
            (Primitives::TriangleStrip, 5),
            (Primitives::TriangleFan, 6),
        ],
    );
}

#[test]
fn information_type_there_and_back() {
    check(
        Catalog::InformationType,
        &[
            (InformationType::Samples, 0x80A9),
        ],
    );
}

#[test]
fn numbers_of_the_graphics_interface() {
    assert_eq!(BufferKind::Array.to_gl(), 34962);
    assert_eq!(BufferKind::ElementArray.to_gl(), 34963);
    assert_eq!(DataHint::StaticDraw.to_gl(), 35044);
    assert_eq!(DataHint::DynamicDraw.to_gl(), 35048);
    assert_eq!(TextureKind::Texture2d.to_gl(), 3553);
    assert_eq!(TextureUnit::Texture0.to_gl(), 33984);
    assert_eq!(TextureUnit::Texture31.to_gl(), 33984 + 31);
    assert_eq!(Attachment::Color0.to_gl(), 36064);
    assert_eq!(Attachment::Color15.to_gl(), 36064 + 15);
    assert_eq!(FramebufferKind::Framebuffer.to_gl(), 36160);
    assert_eq!(RenderbufferKind::Renderbuffer.to_gl(), 36161);
    assert_eq!(ShaderKind::Fragment.to_gl(), 35632);
    assert_eq!(ShaderKind::Vertex.to_gl(), 35633);
    assert_eq!(PixelType::UnsignedByte.to_gl(), 5121);
    assert_eq!(PixelType::Float.to_gl(), 5126);
    assert_eq!(PixelCopyFormat::Rgba.to_gl(), 6408);
    assert_eq!(Primitives::Triangles.to_gl(), 4);
    assert_eq!(BufferBit::Color.to_gl(), 16384);
    assert_eq!(Error::NoError.to_gl(), 0);
    assert_eq!(Error::InvalidEnum.to_gl(), 1280);
    assert_eq!(WaitStatus::AlreadySignaled.to_gl(), 37146);
    assert_eq!(Flag::DepthTest.to_gl(), 2929);
    assert_eq!(DepthTest::Less.to_gl(), 513);
}

#[test]
fn one_number_can_stand_in_several_sets() {
    assert_eq!(TextureMagFilter::from_gl(0x2600), Some(TextureMagFilter::Nearest));
    assert_eq!(TextureMinFilter::from_gl(0x2600), Some(TextureMinFilter::Nearest));
    assert_eq!(TextureMagFilter::from_gl(0x2700), None);
    assert_eq!(TextureMinFilter::from_gl(0x2700), Some(TextureMinFilter::NearestMipmapNearest));
    assert_eq!(BlendMode::from_gl(0), Some(BlendMode::Zero));
    assert_eq!(Primitives::from_gl(0), Some(Primitives::Points));
    assert_eq!(DataHint::from_gl(0), None);
    assert!(Catalog::BlendMode.has(1));
    assert!(!Catalog::DataHint.has(1));
}
