use vstd::prelude::*;

verus! {

/// Resampling filter used when the preview image is scaled to the window.
#[derive(Clone, Copy, Debug, PartialEq, Eq)]
pub enum PreviewFilterType {
    Point,
    Bilinear,
    Hamming,
    CatmullRom,
    Mitchell,
    Lanczos3,
}

impl Default for PreviewFilterType {
    /// Defaults to `Point`.
    fn default() -> (f: Self)
        ensures
            f == PreviewFilterType::Point,
    {
        PreviewFilterType::Point
    }
}

/// The filters of the image resizer that the preview uses.
#[derive(Clone, Copy, Debug, PartialEq, Eq)]
pub enum ResizeFilterType {
    Box,
    Bilinear,
    Hamming,
    CatmullRom,
    Mitchell,
    Lanczos3,
}

/// The resizer filter for a preview filter: `Point` resizes with `Box`,
/// every other filter with the filter of the same name.
pub open spec fn resize_filter_of(f: PreviewFilterType) -> ResizeFilterType {
    match f {
        PreviewFilterType::Point => ResizeFilterType::Box,
        PreviewFilterType::Bilinear => ResizeFilterType::Bilinear,
        PreviewFilterType::Hamming => ResizeFilterType::Hamming,
        PreviewFilterType::CatmullRom => ResizeFilterType::CatmullRom,
        PreviewFilterType::Mitchell => ResizeFilterType::Mitchell,
        PreviewFilterType::Lanczos3 => ResizeFilterType::Lanczos3,
    }
}

impl PreviewFilterType {
    /// The resizer filter that scales the preview image with this filter.
    pub fn resize_filter(self) -> (r: ResizeFilterType)
        ensures
            r == resize_filter_of(self),
    {
        match self {
            PreviewFilterType::Point => ResizeFilterType::Box,
            PreviewFilterType::Bilinear => ResizeFilterType::Bilinear,
            PreviewFilterType::Hamming => ResizeFilterType::Hamming,
            PreviewFilterType::CatmullRom => ResizeFilterType::CatmullRom,
            PreviewFilterType::Mitchell => ResizeFilterType::Mitchell,
            PreviewFilterType::Lanczos3 => ResizeFilterType::Lanczos3,
        }
    }
}

} // verus!
