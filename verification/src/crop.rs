use vstd::prelude::*;
use crate::error::{result_view, CaptureError, CaptureErrorView};

verus! {

/// A pixel position clamped to the edges `0` and `length` of an image axis.
pub open spec fn clamp_to_axis(v: int, length: int) -> int {
    if v < 0 {
        0
    } else if v > length {
        length
    } else {
        v
    }
}

/// The span of one image axis that a crop takes, as `(start, length)`.
///
/// `scaled_start` and `scaled_end` are the selection's edges already scaled
/// into image pixels and rounded; `display_length_positive` says whether the
/// display's physical length on this axis is positive.
pub open spec fn crop_span_spec(
    display_length_positive: bool,
    image_length: u32,
    scaled_start: i64,
    scaled_end: i64,
) -> Result<(u32, u32), CaptureErrorView> {
    if !display_length_positive || image_length == 0 {
        Err(CaptureErrorView::Unavailable("Invalid display dimensions"@))
    } else {
        let start = clamp_to_axis(scaled_start as int, image_length as int);
        let end = clamp_to_axis(scaled_end as int, image_length as int);
        if end <= start {
            Err(CaptureErrorView::OutsideDisplay)
        } else {
            Ok((start as u32, (end - start) as u32))
        }
    }
}

/// What a crop span promises, stated from the inputs: with no positive
/// display length or an empty image it is unavailable; otherwise the span runs
/// from the scaled start to the scaled end, each held inside `0..=image_length`,
/// and it is outside the display exactly when nothing is left between them.
pub open spec fn crop_span_law(
    display_length_positive: bool,
    image_length: u32,
    scaled_start: i64,
    scaled_end: i64,
    r: Result<(u32, u32), CaptureErrorView>,
) -> bool {
    let first = if scaled_start < 0 {
        0
    } else if scaled_start > image_length {
        image_length as int
    } else {
        scaled_start as int
    };
    let last = if scaled_end < 0 {
        0
    } else if scaled_end > image_length {
        image_length as int
    } else {
        scaled_end as int
    };
    &&& (!display_length_positive || image_length == 0) ==> r == Err::<(u32, u32), CaptureErrorView>(
        CaptureErrorView::Unavailable("Invalid display dimensions"@),
    )
    &&& display_length_positive && image_length != 0 && last <= first ==> r == Err::<
        (u32, u32),
        CaptureErrorView,
    >(CaptureErrorView::OutsideDisplay)
    &&& display_length_positive && image_length != 0 && first < last ==> r is Ok && r->Ok_0.0
        == first && r->Ok_0.1 == last - first
}

/// The crop span keeps the promises of `crop_span_law`.
pub proof fn lemma_crop_span_law(
    display_length_positive: bool,
    image_length: u32,
    scaled_start: i64,
    scaled_end: i64,
)
    ensures
        crop_span_law(
            display_length_positive,
            image_length,
            scaled_start,
            scaled_end,
            crop_span_spec(display_length_positive, image_length, scaled_start, scaled_end),
        ),
{
}

fn clamp_i64(v: i64, length: u32) -> (r: u32)
    ensures
        r == clamp_to_axis(v as int, length as int),
{
    if v < 0 {
        0
    } else if v > length as i64 {
        length
    } else {
        v as u32
    }
}

/// Maps one axis of a physical selection onto the captured image: clamps the
/// scaled edges to the image and fails when nothing of the selection is left.
pub fn crop_span(
    display_length_positive: bool,
    image_length: u32,
    scaled_start: i64,
    scaled_end: i64,
) -> (r: Result<(u32, u32), CaptureError>)
    ensures
        result_view(r) == crop_span_spec(
            display_length_positive,
            image_length,
            scaled_start,
            scaled_end,
        ),
        crop_span_law(
            display_length_positive,
            image_length,
            scaled_start,
            scaled_end,
            result_view(r),
        ),
        // a crop that succeeds is never empty and stays inside the image
        r matches Ok((start, length)) ==> 0 < length && start + length <= image_length,
{
    if !display_length_positive || image_length == 0 {
        return Err(CaptureError::Unavailable(String::from_str("Invalid display dimensions")));
    }
    let start = clamp_i64(scaled_start, image_length);
    let end = clamp_i64(scaled_end, image_length);
    if end <= start {
        return Err(CaptureError::OutsideDisplay);
    }
    Ok((start, end - start))
}

} // verus!
