use vstd::prelude::*;

verus! {

/// Why a capture could not be completed.
#[derive(Debug, PartialEq, Eq)]
pub enum CaptureError {
    Unavailable(String),
    EmptySelection,
    OutsideDisplay,
    Save(String),
}

/// What an error says, with its reason as text.
pub enum CaptureErrorView {
    Unavailable(Seq<char>),
    EmptySelection,
    OutsideDisplay,
    Save(Seq<char>),
}

impl View for CaptureError {
    type V = CaptureErrorView;

    open spec fn view(&self) -> CaptureErrorView {
        match self {
            CaptureError::Unavailable(reason) => CaptureErrorView::Unavailable(reason@),
            CaptureError::EmptySelection => CaptureErrorView::EmptySelection,
            CaptureError::OutsideDisplay => CaptureErrorView::OutsideDisplay,
            CaptureError::Save(reason) => CaptureErrorView::Save(reason@),
        }
    }
}

/// A result whose error is taken by its view.
pub open spec fn result_view<T>(r: Result<T, CaptureError>) -> Result<T, CaptureErrorView> {
    match r {
        Ok(v) => Ok(v),
        Err(e) => Err(e@),
    }
}

/// The message shown to the user for an error.
pub open spec fn error_message(e: CaptureError) -> Seq<char> {
    match e {
        CaptureError::Unavailable(reason) => "Screen capture is unavailable: "@ + reason@,
        CaptureError::EmptySelection => "The selection must have a positive width and height"@,
        CaptureError::OutsideDisplay => "The selection lies outside the active display"@,
        CaptureError::Save(reason) => "Could not save the captured image: "@ + reason@,
    }
}

impl CaptureError {
    /// The user-facing message of this error.
    pub fn message(&self) -> (text: String)
        ensures
            text@ == error_message(*self),
    {
        match self {
            CaptureError::Unavailable(reason) => {
                let mut text = String::from_str("Screen capture is unavailable: ");
                text.append(reason.as_str());
                text
            },
            CaptureError::EmptySelection => String::from_str(
                "The selection must have a positive width and height",
            ),
            CaptureError::OutsideDisplay => String::from_str(
                "The selection lies outside the active display",
            ),
            CaptureError::Save(reason) => {
                let mut text = String::from_str("Could not save the captured image: ");
                text.append(reason.as_str());
                text
            },
        }
    }
}

} // verus!
