//! How a buffer's pixels are encoded relative to the output blend space.
use drm_fourcc::DrmFourcc as Fourcc;
use vstd::prelude::*;

use crate::description::{ImageDescription, TransferFunction};

verus! {

/// `drm_fourcc::DrmFourcc`, the pixel formats of DRM, with its variants and their codes as the
/// crate declares them. Nothing is claimed of it.
#[verifier::external_type_specification]
pub struct ExFourcc(Fourcc);

/// Windows-scRGB absolute scale in cd/m2: electrical 1.0 is 80 cd/m2.
///
/// Do not remap 1.0 to paper white (203): that is identical to treating 1.0 as 203 nits and lifts
/// midtones. Games place paper white around 2 to 3 (160 to 240 nits) on this scale.
pub const WINDOWS_LINEAR_REFERENCE_NITS: u32 = 80;

/// Peak luminance in cd/m2 assumed for Windows HDR and scRGB content without metadata.
pub const WINDOWS_LINEAR_PEAK_NITS: u32 = 1000;

/// Peak luminance in cd/m2 assumed for PQ content without metadata.
pub const DEFAULT_PQ_PEAK_NITS: u32 = 1000;

/// How a draw's pixels are encoded relative to the output blend space.
#[derive(Debug, Clone, Copy, PartialEq)]
pub enum ContentKind<L> {
    /// Electrical sRGB or untagged: encode into HDR at paper white when the frame is HDR.
    Sdr,
    /// Already PQ/BT.2020: reference-match and tonemap. `peak_nits` is the content's peak.
    Hdr { peak_nits: L },
    /// Extended-linear or Windows-scRGB: scale 1.0 to `reference_nits`, tonemap against
    /// `peak_nits`.
    Linear { reference_nits: L, peak_nits: L },
    /// Content already in the output blend space (e.g. a sampled framebuffer effect).
    Passthrough,
}

impl<L> ContentKind<L> {
    /// PQ or linear content.
    pub open spec fn is_high_range(&self) -> bool {
        self is Hdr || self is Linear
    }

    /// The same kind with its luminances in another number type.
    pub fn map_nits<M, F: Fn(L) -> M>(self, convert: F) -> (kind: ContentKind<M>)
        requires
            match self {
                ContentKind::Hdr { peak_nits } => call_requires(convert, (peak_nits,)),
                ContentKind::Linear { reference_nits, peak_nits } => {
                    call_requires(convert, (reference_nits,)) && call_requires(
                        convert,
                        (peak_nits,),
                    )
                },
                _ => true,
            },
        ensures
            match (self, kind) {
                (ContentKind::Sdr, ContentKind::Sdr) => true,
                (ContentKind::Hdr { peak_nits: p }, ContentKind::Hdr { peak_nits: q }) => {
                    call_ensures(convert, (p,), q)
                },
                (
                    ContentKind::Linear { reference_nits: r, peak_nits: p },
                    ContentKind::Linear { reference_nits: s, peak_nits: q },
                ) => call_ensures(convert, (r,), s) && call_ensures(convert, (p,), q),
                (ContentKind::Passthrough, ContentKind::Passthrough) => true,
                _ => false,
            },
    {
        match self {
            ContentKind::Sdr => ContentKind::Sdr,
            ContentKind::Hdr { peak_nits } => ContentKind::Hdr { peak_nits: convert(peak_nits) },
            ContentKind::Linear { reference_nits, peak_nits } => ContentKind::Linear {
                reference_nits: convert(reference_nits),
                peak_nits: convert(peak_nits),
            },
            ContentKind::Passthrough => ContentKind::Passthrough,
        }
    }
}

impl ContentKind<u32> {
    /// Linear content with the luminances that `desc` declares, and the Windows-scRGB ones where it
    /// declares none or zero.
    pub open spec fn linear(desc: Option<ImageDescription>) -> Self {
        match desc {
            Some(d) => ContentKind::Linear {
                reference_nits: positive_or(
                    d.declared_reference(),
                    WINDOWS_LINEAR_REFERENCE_NITS,
                ),
                peak_nits: positive_or(d.declared_peak(), WINDOWS_LINEAR_PEAK_NITS),
            },
            None => ContentKind::Linear {
                reference_nits: WINDOWS_LINEAR_REFERENCE_NITS,
                peak_nits: WINDOWS_LINEAR_PEAK_NITS,
            },
        }
    }

    /// The kind that an image description alone stands for.
    pub open spec fn of_description(desc: Option<ImageDescription>) -> Self {
        match desc {
            Some(d) => if d.is_linear() {
                Self::linear(desc)
            } else if d.transfer is St2084Pq {
                ContentKind::Hdr {
                    peak_nits: match d.declared_peak() {
                        Some(nits) => nits,
                        None => DEFAULT_PQ_PEAK_NITS,
                    },
                }
            } else {
                ContentKind::Sdr
            },
            None => ContentKind::Sdr,
        }
    }

    /// The kind of a buffer: a 16-bit float format makes it linear, whatever the description says.
    pub open spec fn of_buffer(desc: Option<ImageDescription>, format: Option<Fourcc>) -> Self {
        if format matches Some(code) && fp16(code) {
            Self::linear(desc)
        } else {
            Self::of_description(desc)
        }
    }
}

/// `value` where it is there and positive, else `default`.
pub open spec fn positive_or(value: Option<u32>, default: u32) -> u32 {
    match value {
        Some(nits) if nits > 0 => nits,
        _ => default,
    }
}

/// The 16-bit float formats.
pub open spec fn fp16(code: Fourcc) -> bool {
    ||| code is Argb16161616f
    ||| code is Abgr16161616f
    ||| code is Xrgb16161616f
    ||| code is Xbgr16161616f
}

fn declared_peak(d: &ImageDescription) -> (peak: Option<u32>)
    ensures
        peak == d.declared_peak(),
{
    match d.max_cll {
        Some(cll) => Some(cll),
        None => match d.mastering_luminance {
            Some((_, max)) => Some(max),
            None => None,
        },
    }
}

/// The peak luminance of linear content with this description.
pub fn linear_peak_from_description(d: &ImageDescription) -> (nits: u32)
    ensures
        nits == positive_or(d.declared_peak(), WINDOWS_LINEAR_PEAK_NITS),
{
    match declared_peak(d) {
        Some(peak) if peak > 0 => peak,
        _ => WINDOWS_LINEAR_PEAK_NITS,
    }
}

/// The luminance that 1.0 stands for in linear content with this description.
pub fn linear_reference_from_description(d: &ImageDescription) -> (nits: u32)
    ensures
        nits == positive_or(d.declared_reference(), WINDOWS_LINEAR_REFERENCE_NITS),
{
    match d.luminances {
        Some((_, _, reference)) if reference > 0 => reference,
        _ => WINDOWS_LINEAR_REFERENCE_NITS,
    }
}

/// Linear content with the luminances of the description.
pub fn windows_linear_kind(d: &ImageDescription) -> (kind: ContentKind<u32>)
    ensures
        kind == ContentKind::linear(Some(*d)),
{
    ContentKind::Linear {
        reference_nits: linear_reference_from_description(d),
        peak_nits: linear_peak_from_description(d),
    }
}

/// Maps a committed surface image description to the blend-space content kind.
pub fn content_kind_from_description(desc: Option<ImageDescription>) -> (kind: ContentKind<u32>)
    ensures
        kind == ContentKind::of_description(desc),
{
    match desc {
        Some(d) if d.is_windows_scrgb() => windows_linear_kind(&d),
        Some(d) if matches!(d.transfer, TransferFunction::ExtLinear) => windows_linear_kind(&d),
        Some(d) if d.is_pq() => ContentKind::Hdr {
            peak_nits: match declared_peak(&d) {
                Some(nits) => nits,
                None => DEFAULT_PQ_PEAK_NITS,
            },
        },
        _ => ContentKind::Sdr,
    }
}

/// True for the 16-bit float DRM formats, used by scRGB and extended-linear swapchains.
pub fn is_fp16_fourcc(code: Fourcc) -> (is_fp16: bool)
    ensures
        is_fp16 == fp16(code),
{
    matches!(
        code,
        Fourcc::Argb16161616f
            | Fourcc::Abgr16161616f
            | Fourcc::Xrgb16161616f
            | Fourcc::Xbgr16161616f
    )
}

/// Resolves the content kind from the image description, then applies the FP16 heuristic: real
/// HDR10 is 10-bit UNORM, so an FP16 swapchain is extended-linear no matter how (or whether) the
/// client tagged it. Windows/DXVK scRGB buffers often arrive untagged, and reading those as
/// electrical sRGB overflows the PQ encode at highlights.
pub fn content_kind_for_buffer(
    desc: Option<ImageDescription>,
    buffer_fourcc: Option<Fourcc>,
) -> (kind: ContentKind<u32>)
    ensures
        kind == ContentKind::of_buffer(desc, buffer_fourcc),
{
    let kind = content_kind_from_description(desc);
    let is_fp16 = match buffer_fourcc {
        Some(code) => is_fp16_fourcc(code),
        None => false,
    };
    if is_fp16 && !matches!(kind, ContentKind::Linear { .. }) {
        match desc {
            Some(d) => windows_linear_kind(&d),
            None => ContentKind::Linear {
                reference_nits: WINDOWS_LINEAR_REFERENCE_NITS,
                peak_nits: WINDOWS_LINEAR_PEAK_NITS,
            },
        }
    } else {
        kind
    }
}

/// A 16-bit float buffer is linear content, no matter how or whether the client tagged it: it has
/// the kind that its description would have with the extended-linear transfer function, and
/// untagged it has the kind of Windows-scRGB.
pub proof fn fp16_buffers_are_linear(desc: Option<ImageDescription>, code: Fourcc)
    requires
        fp16(code),
    ensures
        ContentKind::of_buffer(desc, Some(code)) is Linear,
        desc matches Some(d) ==> ContentKind::of_buffer(desc, Some(code))
            == ContentKind::of_description(
            Some(ImageDescription { transfer: TransferFunction::ExtLinear, ..d }),
        ),
        desc is None ==> ContentKind::of_buffer(desc, Some(code)) == ContentKind::of_description(
            Some(ImageDescription::spec_windows_scrgb()),
        ),
{
}

/// Buffers of any other format, and those of unknown format, keep the meaning of their
/// description.
pub proof fn other_buffers_keep_their_description(
    desc: Option<ImageDescription>,
    format: Option<Fourcc>,
)
    requires
        format matches Some(code) ==> !fp16(code),
    ensures
        ContentKind::of_buffer(desc, format) == ContentKind::of_description(desc),
{
}

/// The format never changes the kind of content that its description already says is linear.
pub proof fn linear_descriptions_fix_the_kind(
    desc: ImageDescription,
    first: Option<Fourcc>,
    second: Option<Fourcc>,
)
    requires
        desc.is_linear(),
    ensures
        ContentKind::of_buffer(Some(desc), first) == ContentKind::of_buffer(Some(desc), second),
{
}

/// Linear content has a positive reference and a positive peak, whatever zeros a client declares.
pub proof fn linear_luminances_are_positive(desc: Option<ImageDescription>, format: Option<Fourcc>)
    ensures
        ContentKind::of_buffer(desc, format) matches ContentKind::Linear {
            reference_nits,
            peak_nits,
        } ==> reference_nits > 0 && peak_nits > 0,
{
}

/// No buffer is taken to be in the output blend space already.
pub proof fn buffers_are_never_passthrough(desc: Option<ImageDescription>, format: Option<Fourcc>)
    ensures
        !(ContentKind::of_buffer(desc, format) is Passthrough),
{
}

/// Windows-scRGB outranks the transfer function, and the extended-linear transfer function and PQ
/// are the only ones that are not read as SDR.
pub proof fn high_range_descriptions(desc: ImageDescription)
    ensures
        ContentKind::of_description(Some(desc)).is_high_range() <==> desc.is_linear()
            || desc.transfer is St2084Pq,
        desc.windows_scrgb ==> ContentKind::of_description(Some(desc)) is Linear,
{
}

} // verus!
