//! Laws of the classification of buffers.
use drm_fourcc::DrmFourcc as Fourcc;
use vstd::prelude::*;

use crate::content::{
    content_kind_for_buffer, content_kind_from_description, is_fp16_fourcc,
    linear_peak_from_description, linear_reference_from_description, windows_linear_kind,
    ContentKind,
};
use crate::description::{ImageDescription, Primaries, TransferFunction};

verus! {

/// The format is known, and its DRM code ends in the bytes `4H`.
pub open spec fn half_float(format: Option<Fourcc>) -> bool {
    format matches Some(code) && code as u32 / 0x10000 == 0x4834
}

/// The half-float formats are exactly the four whose DRM code ends in the bytes `4H`, and none of
/// them is a 10-bit or an 8-bit one.
pub proof fn half_float_formats(code: Fourcc, is_fp16: bool)
    requires
        call_ensures(is_fp16_fourcc, (code,), is_fp16),
    ensures
        is_fp16 == (code as u32 >> 16 == 0x4834),
        is_fp16 == half_float(Some(code)),
        is_fp16 <==> code == Fourcc::Argb16161616f || code == Fourcc::Abgr16161616f || code
            == Fourcc::Xrgb16161616f || code == Fourcc::Xbgr16161616f,
{
    let c = code as u32;
    assert(c >> 16 == c / 0x10000) by (bit_vector);
}

/// An untagged buffer is SDR, unless its format is half-float: it is then linear, with 1.0 at 80 and
/// the peak at 1000.
pub proof fn untagged_buffers(format: Option<Fourcc>, kind: ContentKind<u32>)
    requires
        call_ensures(content_kind_for_buffer, (None, format), kind),
    ensures
        !half_float(format) ==> kind is Sdr,
        half_float(format) ==> kind == (ContentKind::Linear {
            reference_nits: 80u32,
            peak_nits: 1000u32,
        }),
{
}

/// A buffer tagged PQ, and not as Windows-scRGB, is PQ content in every format that is not
/// half-float. Its peak is the content light level; without one, the maximum of the mastering
/// display; without either, 1000.
pub proof fn pq_buffers(desc: ImageDescription, format: Option<Fourcc>, kind: ContentKind<u32>)
    requires
        call_ensures(content_kind_for_buffer, (Some(desc), format), kind),
        desc.transfer == TransferFunction::St2084Pq,
        !desc.windows_scrgb,
        !half_float(format),
    ensures
        kind matches ContentKind::Hdr { peak_nits } && {
            &&& desc.max_cll matches Some(c) ==> peak_nits == c
            &&& desc.max_cll is None ==> (desc.mastering_luminance matches Some((_, m))
                ==> peak_nits == m)
            &&& desc.max_cll is None && desc.mastering_luminance is None ==> peak_nits == 1000
        },
{
}

/// A tagged buffer is linear content where it is tagged as Windows-scRGB or extended-linear, and,
/// whatever its tag, where its format is half-float. Its luminances are those of linear content with
/// its description.
pub proof fn linear_buffers(
    desc: ImageDescription,
    format: Option<Fourcc>,
    kind: ContentKind<u32>,
    reference: u32,
    peak: u32,
)
    requires
        call_ensures(content_kind_for_buffer, (Some(desc), format), kind),
        call_ensures(linear_reference_from_description, (&desc,), reference),
        call_ensures(linear_peak_from_description, (&desc,), peak),
        desc.windows_scrgb || desc.transfer == TransferFunction::ExtLinear || half_float(format),
    ensures
        kind == (ContentKind::Linear { reference_nits: reference, peak_nits: peak }),
{
}

/// The reference of linear content is the reference of the declared luminances, whatever their
/// minimum and maximum are; 80 where it is zero.
pub proof fn declared_reference(desc: ImageDescription, lo: u32, hi: u32, r: u32, reference: u32)
    requires
        desc.luminances == Some((lo, hi, r)),
        call_ensures(linear_reference_from_description, (&desc,), reference),
    ensures
        r > 0 ==> reference == r,
        r == 0 ==> reference == 80,
{
}

/// The reference of linear content without declared luminances is 80, whatever else is declared.
pub proof fn undeclared_reference(desc: ImageDescription, reference: u32)
    requires
        desc.luminances is None,
        call_ensures(linear_reference_from_description, (&desc,), reference),
    ensures
        reference == 80,
{
}

/// The peak of linear content is the content light level, whatever the frame-average light level
/// and the mastering display are; 1000 where it is zero, even where the mastering display has a
/// maximum.
pub proof fn declared_light_level(desc: ImageDescription, c: u32, peak: u32)
    requires
        desc.max_cll == Some(c),
        call_ensures(linear_peak_from_description, (&desc,), peak),
    ensures
        c > 0 ==> peak == c,
        c == 0 ==> peak == 1000,
{
}

/// The peak of linear content without a content light level is the maximum of the mastering
/// display, whatever its minimum and the frame-average light level are; 1000 where it is zero or not
/// declared.
pub proof fn mastering_maximum(desc: ImageDescription, peak: u32)
    requires
        desc.max_cll is None,
        call_ensures(linear_peak_from_description, (&desc,), peak),
    ensures
        forall|lo: u32, m: u32|
            desc.mastering_luminance == Some((lo, m)) && m > 0 ==> peak == m,
        forall|lo: u32| desc.mastering_luminance == Some((lo, 0u32)) ==> peak == 1000,
        desc.mastering_luminance is None ==> peak == 1000,
{
}

/// A tagged buffer is SDR for every other transfer function.
pub proof fn sdr_buffers(desc: ImageDescription, format: Option<Fourcc>, kind: ContentKind<u32>)
    requires
        call_ensures(content_kind_for_buffer, (Some(desc), format), kind),
        desc.transfer != TransferFunction::St2084Pq,
        desc.transfer != TransferFunction::ExtLinear,
        !desc.windows_scrgb,
        !half_float(format),
    ensures
        kind is Sdr,
{
}

/// The description alone says what it says of a buffer of unknown format, and the same as in every
/// format that is not half-float.
pub proof fn descriptions_stand_for_buffers(
    desc: Option<ImageDescription>,
    format: Option<Fourcc>,
    described: ContentKind<u32>,
    kind: ContentKind<u32>,
)
    requires
        call_ensures(content_kind_from_description, (desc,), described),
        call_ensures(content_kind_for_buffer, (desc, format), kind),
        !half_float(format),
    ensures
        kind == described,
{
}

/// Windows-scRGB and extended-linear descriptions, and no others, are of linear content; PQ ones that
/// are not Windows-scRGB, and no others, are of PQ content, with the peak that they declare. None is
/// passthrough.
pub proof fn described_kinds(
    desc: ImageDescription,
    kind: ContentKind<u32>,
    reference: u32,
    peak: u32,
)
    requires
        call_ensures(content_kind_from_description, (Some(desc),), kind),
        call_ensures(linear_reference_from_description, (&desc,), reference),
        call_ensures(linear_peak_from_description, (&desc,), peak),
    ensures
        desc.windows_scrgb || desc.transfer == TransferFunction::ExtLinear <==> kind is Linear,
        desc.transfer == TransferFunction::St2084Pq && !desc.windows_scrgb <==> kind is Hdr,
        kind is Linear ==> kind == (ContentKind::Linear {
            reference_nits: reference,
            peak_nits: peak,
        }),
        kind matches ContentKind::Hdr { peak_nits } ==> {
            &&& desc.max_cll matches Some(c) ==> peak_nits == c
            &&& desc.max_cll is None ==> (desc.mastering_luminance matches Some((_, m))
                ==> peak_nits == m)
            &&& desc.max_cll is None && desc.mastering_luminance is None ==> peak_nits == 1000
        },
        !(kind is Passthrough),
{
}

/// No description is SDR.
pub proof fn no_description(kind: ContentKind<u32>)
    requires
        call_ensures(content_kind_from_description, (None,), kind),
    ensures
        kind is Sdr,
{
}

/// A half-float buffer is classified as one whose description says extended-linear instead.
pub proof fn half_float_retags(
    desc: ImageDescription,
    code: Fourcc,
    retagged: ImageDescription,
    kind: ContentKind<u32>,
    described: ContentKind<u32>,
)
    requires
        half_float(Some(code)),
        retagged == (ImageDescription { transfer: TransferFunction::ExtLinear, ..desc }),
        call_ensures(content_kind_for_buffer, (Some(desc), Some(code)), kind),
        call_ensures(content_kind_from_description, (Some(retagged),), described),
    ensures
        kind == described,
{
}

/// The primaries, the frame-average light level, the minimum luminances and the maximum of the
/// description's own luminances are never read: buffers whose descriptions agree in the rest have
/// the same kind.
pub proof fn unread_metadata(
    first: ImageDescription,
    second: ImageDescription,
    format: Option<Fourcc>,
    first_kind: ContentKind<u32>,
    second_kind: ContentKind<u32>,
)
    requires
        call_ensures(content_kind_for_buffer, (Some(first), format), first_kind),
        call_ensures(content_kind_for_buffer, (Some(second), format), second_kind),
        first.windows_scrgb == second.windows_scrgb,
        first.transfer == second.transfer,
        first.max_cll == second.max_cll,
        first.mastering_luminance is Some == second.mastering_luminance is Some,
        first.mastering_luminance is Some ==> (first.mastering_luminance->0).1
            == (second.mastering_luminance->0).1,
        first.luminances is Some == second.luminances is Some,
        first.luminances is Some ==> (first.luminances->0).2 == (second.luminances->0).2,
    ensures
        first_kind == second_kind,
{
}

/// A content light level hides the mastering display, and PQ content does not read the description's
/// own luminances.
pub proof fn hidden_metadata(
    first: ImageDescription,
    second: ImageDescription,
    first_kind: ContentKind<u32>,
    second_kind: ContentKind<u32>,
)
    requires
        call_ensures(content_kind_from_description, (Some(first),), first_kind),
        call_ensures(content_kind_from_description, (Some(second),), second_kind),
        first.max_cll is Some,
        second == (ImageDescription {
            mastering_luminance: second.mastering_luminance,
            luminances: second.luminances,
            ..first
        }),
    ensures
        first_kind is Hdr ==> second_kind == first_kind,
        first.luminances == second.luminances ==> second_kind == first_kind,
{
}

/// Linear content has the two luminances that are found one by one, and neither is ever zero.
pub proof fn linear_luminances(
    desc: ImageDescription,
    reference: u32,
    peak: u32,
    kind: ContentKind<u32>,
)
    requires
        call_ensures(linear_reference_from_description, (&desc,), reference),
        call_ensures(linear_peak_from_description, (&desc,), peak),
        call_ensures(windows_linear_kind, (&desc,), kind),
    ensures
        reference > 0,
        peak > 0,
        kind == (ContentKind::Linear { reference_nits: reference, peak_nits: peak }),
{
}

/// A description is HDR exactly where its kind is PQ or linear; PQ ones that are not Windows-scRGB
/// are of PQ kind, and Windows-scRGB ones of linear kind.
pub proof fn description_predicates(
    desc: ImageDescription,
    kind: ContentKind<u32>,
    hdr: bool,
    pq: bool,
    scrgb: bool,
)
    requires
        call_ensures(content_kind_from_description, (Some(desc),), kind),
        call_ensures(ImageDescription::is_hdr, (&desc,), hdr),
        call_ensures(ImageDescription::is_pq, (&desc,), pq),
        call_ensures(ImageDescription::is_windows_scrgb, (&desc,), scrgb),
    ensures
        hdr <==> kind is Hdr || kind is Linear,
        pq <==> desc.transfer == TransferFunction::St2084Pq,
        scrgb <==> desc.windows_scrgb,
        pq && !scrgb <==> kind is Hdr,
        scrgb ==> kind is Linear,
{
}

/// The sRGB preset is SDR, the Windows-scRGB preset is linear with 1.0 at 80 and the peak at 1000,
/// and neither has any luminance metadata.
pub proof fn presets(
    srgb: ImageDescription,
    scrgb: ImageDescription,
    srgb_kind: ContentKind<u32>,
    scrgb_kind: ContentKind<u32>,
)
    requires
        call_ensures(ImageDescription::srgb, (), srgb),
        call_ensures(ImageDescription::windows_scrgb, (), scrgb),
        call_ensures(content_kind_from_description, (Some(srgb),), srgb_kind),
        call_ensures(content_kind_from_description, (Some(scrgb),), scrgb_kind),
    ensures
        srgb_kind is Sdr,
        scrgb_kind == (ContentKind::Linear { reference_nits: 80u32, peak_nits: 1000u32 }),
        srgb.max_cll is None && srgb.max_fall is None && srgb.mastering_luminance is None
            && srgb.luminances is None,
        scrgb == (ImageDescription {
            transfer: TransferFunction::ExtLinear,
            windows_scrgb: true,
            ..srgb
        }),
        srgb.transfer == TransferFunction::Srgb,
        srgb.primaries == Primaries::Srgb,
        !srgb.windows_scrgb,
{
}

/// Converting luminances by a function keeps the variant and converts each luminance where it
/// stands.
pub proof fn converted_luminances<L, M, F: Fn(L) -> M>(
    kind: ContentKind<L>,
    convert: F,
    function: spec_fn(L) -> M,
    converted: ContentKind<M>,
)
    requires
        call_ensures(ContentKind::<L>::map_nits::<M, F>, (kind, convert), converted),
        forall|nits: L, result: M|
            #[trigger] call_ensures(convert, (nits,), result) ==> result == function(nits),
    ensures
        kind is Sdr ==> converted is Sdr,
        kind is Passthrough ==> converted is Passthrough,
        kind matches ContentKind::Hdr { peak_nits } ==> converted == (ContentKind::Hdr {
            peak_nits: function(peak_nits),
        }),
        kind matches ContentKind::Linear { reference_nits, peak_nits } ==> converted == (
        ContentKind::Linear {
            reference_nits: function(reference_nits),
            peak_nits: function(peak_nits),
        }),
{
}

} // verus!
