//! Surface image descriptions, as a client commits them.
use vstd::prelude::*;

verus! {

/// Named transfer functions of the Wayland color-management protocol.
#[derive(Debug, Clone, Copy, PartialEq, Eq)]
pub enum TransferFunction {
    Bt1886,
    Gamma22,
    Gamma28,
    St240,
    ExtLinear,
    Log100,
    Log316,
    Xvycc,
    Srgb,
    ExtSrgb,
    St2084Pq,
    St428,
    Hlg,
}

/// Named primaries of the Wayland color-management protocol.
#[derive(Debug, Clone, Copy, PartialEq, Eq)]
pub enum Primaries {
    Srgb,
    PalM,
    Pal,
    Ntsc,
    GenericFilm,
    Bt2020,
    Cie1931Xyz,
    DciP3,
    DisplayP3,
    AdobeRgb,
}

/// How a client says that a surface's pixels are encoded. Luminances are in cd/m2.
#[derive(Debug, Clone, Copy, PartialEq, Eq)]
pub struct ImageDescription {
    pub transfer: TransferFunction,
    pub primaries: Primaries,
    /// Maximum content light level.
    pub max_cll: Option<u32>,
    /// Maximum frame-average light level.
    pub max_fall: Option<u32>,
    /// Minimum (in units of 0.0001 cd/m2) and maximum luminance of the mastering display.
    pub mastering_luminance: Option<(u32, u32)>,
    /// Minimum (in units of 0.0001 cd/m2), maximum and reference luminance.
    pub luminances: Option<(u32, u32, u32)>,
    /// The description is the protocol's predefined Windows-scRGB one.
    pub windows_scrgb: bool,
}

impl ImageDescription {
    /// Plain sRGB, with no luminance metadata.
    pub fn srgb() -> (description: ImageDescription)
        ensures
            description == (ImageDescription {
                transfer: TransferFunction::Srgb,
                primaries: Primaries::Srgb,
                max_cll: None,
                max_fall: None,
                mastering_luminance: None,
                luminances: None,
                windows_scrgb: false,
            }),
    {
        ImageDescription {
            transfer: TransferFunction::Srgb,
            primaries: Primaries::Srgb,
            max_cll: None,
            max_fall: None,
            mastering_luminance: None,
            luminances: None,
            windows_scrgb: false,
        }
    }

    /// The predefined Windows-scRGB description: extended-linear with sRGB primaries, with no
    /// luminance metadata.
    pub fn windows_scrgb() -> (description: ImageDescription)
        ensures
            description == Self::spec_windows_scrgb(),
    {
        ImageDescription {
            transfer: TransferFunction::ExtLinear,
            primaries: Primaries::Srgb,
            max_cll: None,
            max_fall: None,
            mastering_luminance: None,
            luminances: None,
            windows_scrgb: true,
        }
    }

    /// What [`ImageDescription::windows_scrgb`] returns.
    pub open spec fn spec_windows_scrgb() -> ImageDescription {
        ImageDescription {
            transfer: TransferFunction::ExtLinear,
            primaries: Primaries::Srgb,
            max_cll: None,
            max_fall: None,
            mastering_luminance: None,
            luminances: None,
            windows_scrgb: true,
        }
    }

    /// The content light level, or the mastering display's maximum where there is none.
    pub open spec fn declared_peak(&self) -> Option<u32> {
        match (self.max_cll, self.mastering_luminance) {
            (Some(cll), _) => Some(cll),
            (None, Some((_, max))) => Some(max),
            (None, None) => None,
        }
    }

    /// The reference luminance.
    pub open spec fn declared_reference(&self) -> Option<u32> {
        match self.luminances {
            Some((_, _, reference)) => Some(reference),
            None => None,
        }
    }

    /// Pixels are extended-linear light: Windows-scRGB, or the extended-linear transfer function.
    pub open spec fn is_linear(&self) -> bool {
        self.windows_scrgb || self.transfer is ExtLinear
    }

    /// True for the predefined Windows-scRGB description.
    pub fn is_windows_scrgb(&self) -> (scrgb: bool)
        ensures
            scrgb == self.windows_scrgb,
    {
        self.windows_scrgb
    }

    /// True where pixels are encoded with the PQ transfer function.
    pub fn is_pq(&self) -> (pq: bool)
        ensures
            pq == (self.transfer is St2084Pq),
    {
        matches!(self.transfer, TransferFunction::St2084Pq)
    }

    /// True where the description is of PQ or extended-linear content.
    pub fn is_hdr(&self) -> (hdr: bool)
        ensures
            hdr == (self.is_linear() || self.transfer is St2084Pq),
    {
        self.is_windows_scrgb() || self.is_pq() || matches!(
            self.transfer,
            TransferFunction::ExtLinear
        )
    }
}

} // verus!
