//! Per-output blend space for mixed SDR/HDR support.
//!
//! An output is either SDR (electrical sRGB, the default) or HDR (the framebuffer holds PQ/BT.2020
//! electrical values and the connector is signalled accordingly). On HDR outputs:
//! - SDR content is encoded into the blend space at the SDR brightness;
//! - PQ content is reference-matched, then tonemapped against the maximum luminance;
//! - extended-linear and Windows-scRGB content is scaled to reference white, then tonemapped.
//!
//! The library holds the decisions: how a buffer's content is classified, which uniforms a draw
//! gets, what a renderer is told when a frame's blend changes, and how the texture program override
//! is swapped around a draw. Luminances are carried as an opaque type `L`, so that every statement
//! holds for whatever number type the caller draws with.
pub mod content;
pub mod description;
pub mod element;
pub mod frame;
pub mod laws;
pub mod log;
pub mod renderer;

pub use content::{
    content_kind_for_buffer, content_kind_from_description, is_fp16_fourcc, ContentKind,
};
pub use description::{ImageDescription, Primaries, TransferFunction};
pub use element::{BlendSurfaceRenderElement, OverrideSwap};
pub use frame::{
    BlendLuminances, FrameBlendState, Scale, Uniform, UniformName, UniformValue,
    DEFAULT_REFERENCE_LUMINANCE, PQ_PEAK_NITS,
};
pub use log::{ContentKindLog, KindLabel};
pub use renderer::{
    set_frame_blend, set_sdr_capture_blend, MissingShader, RendererUpdate, TexProgramUpdate,
};
