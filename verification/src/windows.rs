use vstd::prelude::*;
use crate::text::str_equal;

verus! {

/// The application's windows.
#[derive(Clone, Copy, Debug, PartialEq, Eq, Structural)]
pub enum WindowLabel {
    Main,
    CaptureSelector,
    OcrOverlay,
    TranslationPopup,
}

impl WindowLabel {
    /// The label under which the window is registered.
    pub open spec fn label_spec(self) -> Seq<char> {
        match self {
            WindowLabel::Main => "main"@,
            WindowLabel::CaptureSelector => "capture-selector"@,
            WindowLabel::OcrOverlay => "ocr-overlay"@,
            WindowLabel::TranslationPopup => "translation-popup"@,
        }
    }

    /// The label under which the window is registered.
    pub fn label(&self) -> (s: &'static str)
        ensures
            s@ == self.label_spec(),
    {
        match self {
            WindowLabel::Main => "main",
            WindowLabel::CaptureSelector => "capture-selector",
            WindowLabel::OcrOverlay => "ocr-overlay",
            WindowLabel::TranslationPopup => "translation-popup",
        }
    }
}

/// The translation popup hides, rather than closes, when it loses the focus,
/// so that its label stays free for the next popup; no other window reacts.
pub fn hides_when_unfocused(label: &str, focused: bool) -> (hide: bool)
    ensures
        hide == (label@ == WindowLabel::TranslationPopup.label_spec() && !focused),
        hide == (label@ == "translation-popup"@ && !focused),
{
    !focused && str_equal(label, WindowLabel::TranslationPopup.label())
}

/// Each window has a label of its own, so a lookup by label finds only it.
pub proof fn lemma_labels_distinct(a: WindowLabel, b: WindowLabel)
    ensures
        a != b ==> a.label_spec() != b.label_spec(),
{
    reveal_strlit("main");
    reveal_strlit("capture-selector");
    reveal_strlit("ocr-overlay");
    reveal_strlit("translation-popup");
    assert(a != b ==> a.label_spec().len() != b.label_spec().len());
}

/// Which windows exist when a command starts.
#[derive(Clone, Copy, Debug, PartialEq, Eq, Structural)]
pub struct OpenWindows {
    pub main: bool,
    pub capture_selector: bool,
    pub ocr_overlay: bool,
    pub translation_popup: bool,
}

impl OpenWindows {
    pub open spec fn is_open(self, l: WindowLabel) -> bool {
        match l {
            WindowLabel::Main => self.main,
            WindowLabel::CaptureSelector => self.capture_selector,
            WindowLabel::OcrOverlay => self.ocr_overlay,
            WindowLabel::TranslationPopup => self.translation_popup,
        }
    }
}

/// One operation on a window. A failing step ends the command with the
/// failure's message, except `CloseQuietly`, whose failure is ignored.
#[derive(Clone, Copy, Debug, PartialEq, Eq, Structural)]
pub enum WindowStep {
    /// Close the window.
    Close(WindowLabel),
    /// Close the window, ignoring a failure.
    CloseQuietly(WindowLabel),
    Minimize(WindowLabel),
    Unminimize(WindowLabel),
    /// Build the window, hidden, transparent and undecorated, on its page.
    Create(WindowLabel),
    /// Load the window's page with a new query.
    Navigate(WindowLabel),
    /// Move and resize the window onto its geometry.
    Place(WindowLabel),
    Show(WindowLabel),
    Focus(WindowLabel),
}

/// The steps a command performs in order, and the failure it ends with once
/// they all succeeded, if any.
pub struct WindowPlan {
    pub steps: Vec<WindowStep>,
    pub failure: Option<String>,
}

/// The window a step acts on.
pub open spec fn step_target(s: WindowStep) -> WindowLabel {
    match s {
        WindowStep::Close(l) => l,
        WindowStep::CloseQuietly(l) => l,
        WindowStep::Minimize(l) => l,
        WindowStep::Unminimize(l) => l,
        WindowStep::Create(l) => l,
        WindowStep::Navigate(l) => l,
        WindowStep::Place(l) => l,
        WindowStep::Show(l) => l,
        WindowStep::Focus(l) => l,
    }
}

/// The step closes the window.
pub open spec fn step_closes(s: WindowStep, l: WindowLabel) -> bool {
    s == WindowStep::Close(l) || s == WindowStep::CloseQuietly(l)
}

/// The window exists just before step `i`: it existed at the start or was
/// created by an earlier step, and no step since has closed it.
pub open spec fn live_before(
    open: OpenWindows,
    steps: Seq<WindowStep>,
    i: int,
    l: WindowLabel,
) -> bool {
    ||| open.is_open(l) && forall|j: int| 0 <= j < i ==> !step_closes(#[trigger] steps[j], l)
    ||| exists|j: int|
        0 <= j < i && #[trigger] steps[j] == WindowStep::Create(l) && forall|k: int|
            j < k < i ==> !step_closes(#[trigger] steps[k], l)
}

/// Every step acts on a window that exists at that point, and no step builds
/// a window whose label is still taken.
pub open spec fn acts_on_live_windows(open: OpenWindows, steps: Seq<WindowStep>) -> bool {
    forall|i: int|
        0 <= i < steps.len() ==> {
            let s = #[trigger] steps[i];
            if s is Create {
                !live_before(open, steps, i, step_target(s))
            } else {
                live_before(open, steps, i, step_target(s))
            }
        }
}

/// The one-step plan fragment for a step that is taken only if `c`.
pub open spec fn step_if(c: bool, s: WindowStep) -> Seq<WindowStep> {
    if c {
        seq![s]
    } else {
        Seq::empty()
    }
}

/// Opening the capture selector: the main window must exist; the overlay and
/// the popup are closed; an existing selector is shown again, else a new one
/// is built over the display; the main window is minimised and the selector
/// takes the focus.
pub open spec fn show_selector_steps(open: OpenWindows) -> Seq<WindowStep> {
    if !open.main {
        Seq::empty()
    } else {
        step_if(open.ocr_overlay, WindowStep::Close(WindowLabel::OcrOverlay)) + step_if(
            open.translation_popup,
            WindowStep::Close(WindowLabel::TranslationPopup),
        ) + if open.capture_selector {
            seq![
                WindowStep::Minimize(WindowLabel::Main),
                WindowStep::Show(WindowLabel::CaptureSelector),
                WindowStep::Focus(WindowLabel::CaptureSelector),
            ]
        } else {
            seq![
                WindowStep::Create(WindowLabel::CaptureSelector),
                WindowStep::Place(WindowLabel::CaptureSelector),
                WindowStep::Show(WindowLabel::CaptureSelector),
                WindowStep::Minimize(WindowLabel::Main),
                WindowStep::Focus(WindowLabel::CaptureSelector),
            ]
        }
    }
}

/// Cancelling the selection: the selector is closed and the main window is
/// restored and focused.
pub open spec fn cancel_selector_steps(open: OpenWindows) -> Seq<WindowStep> {
    step_if(open.capture_selector, WindowStep::Close(WindowLabel::CaptureSelector)) + if open.main {
        seq![WindowStep::Unminimize(WindowLabel::Main), WindowStep::Focus(WindowLabel::Main)]
    } else {
        Seq::empty()
    }
}

/// Showing the OCR overlay: any popup and earlier overlay are closed, their
/// failures ignored, and a new overlay is built, placed and shown.
pub open spec fn show_overlay_steps(open: OpenWindows) -> Seq<WindowStep> {
    step_if(open.translation_popup, WindowStep::CloseQuietly(WindowLabel::TranslationPopup))
        + step_if(open.ocr_overlay, WindowStep::CloseQuietly(WindowLabel::OcrOverlay)) + seq![
        WindowStep::Create(WindowLabel::OcrOverlay),
        WindowStep::Place(WindowLabel::OcrOverlay),
        WindowStep::Show(WindowLabel::OcrOverlay),
    ]
}

/// Showing the translation popup: an existing popup is reused and navigated
/// to the new query (a closed label may still be taken for a moment), else a
/// popup is built; then it is placed, shown and focused.
pub open spec fn show_popup_steps(open: OpenWindows) -> Seq<WindowStep> {
    seq![
        if open.translation_popup {
            WindowStep::Navigate(WindowLabel::TranslationPopup)
        } else {
            WindowStep::Create(WindowLabel::TranslationPopup)
        },
        WindowStep::Place(WindowLabel::TranslationPopup),
        WindowStep::Show(WindowLabel::TranslationPopup),
        WindowStep::Focus(WindowLabel::TranslationPopup),
    ]
}

/// Closing the OCR overlay: the popup, then the overlay, where they exist.
pub open spec fn close_overlay_steps(open: OpenWindows) -> Seq<WindowStep> {
    step_if(open.translation_popup, WindowStep::Close(WindowLabel::TranslationPopup)) + step_if(
        open.ocr_overlay,
        WindowStep::Close(WindowLabel::OcrOverlay),
    )
}

fn push_if(steps: &mut Vec<WindowStep>, c: bool, s: WindowStep)
    ensures
        final(steps)@ == old(steps)@ + step_if(c, s),
{
    if c {
        steps.push(s);
    }
    assert(steps@ =~= old(steps)@ + step_if(c, s));
}

/// The plan of the command that opens the capture selector.
pub fn show_selector_plan(open: OpenWindows) -> (plan: WindowPlan)
    ensures
        plan.steps@ == show_selector_steps(open),
        plan.failure matches Some(m) ==> m@ == "main window is unavailable"@,
        plan.failure is Some <==> !open.main,
        selector_plan_law(open, plan.steps@),
{
    proof {
        lemma_plan_laws(open);
    }
    let mut steps: Vec<WindowStep> = Vec::new();
    if !open.main {
        assert(steps@ =~= show_selector_steps(open));
        return WindowPlan { steps, failure: Some(String::from_str("main window is unavailable")) };
    }
    push_if(&mut steps, open.ocr_overlay, WindowStep::Close(WindowLabel::OcrOverlay));
    push_if(&mut steps, open.translation_popup, WindowStep::Close(WindowLabel::TranslationPopup));
    if open.capture_selector {
        steps.push(WindowStep::Minimize(WindowLabel::Main));
        steps.push(WindowStep::Show(WindowLabel::CaptureSelector));
        steps.push(WindowStep::Focus(WindowLabel::CaptureSelector));
    } else {
        steps.push(WindowStep::Create(WindowLabel::CaptureSelector));
        steps.push(WindowStep::Place(WindowLabel::CaptureSelector));
        steps.push(WindowStep::Show(WindowLabel::CaptureSelector));
        steps.push(WindowStep::Minimize(WindowLabel::Main));
        steps.push(WindowStep::Focus(WindowLabel::CaptureSelector));
    }
    assert(steps@ =~= show_selector_steps(open));
    WindowPlan { steps, failure: None }
}

/// The plan of the command that cancels the capture selection.
pub fn cancel_selector_plan(open: OpenWindows) -> (plan: WindowPlan)
    ensures
        plan.steps@ == cancel_selector_steps(open),
        plan.failure matches Some(m) ==> m@ == "Main window is unavailable"@,
        plan.failure is Some <==> !open.main,
        cancel_plan_law(open, plan.steps@),
{
    proof {
        lemma_plan_laws(open);
    }
    let mut steps: Vec<WindowStep> = Vec::new();
    push_if(&mut steps, open.capture_selector, WindowStep::Close(WindowLabel::CaptureSelector));
    if !open.main {
        assert(steps@ =~= cancel_selector_steps(open));
        return WindowPlan { steps, failure: Some(String::from_str("Main window is unavailable")) };
    }
    steps.push(WindowStep::Unminimize(WindowLabel::Main));
    steps.push(WindowStep::Focus(WindowLabel::Main));
    assert(steps@ =~= cancel_selector_steps(open));
    WindowPlan { steps, failure: None }
}

/// The plan of the command that shows the OCR overlay.
pub fn show_overlay_plan(open: OpenWindows) -> (plan: WindowPlan)
    ensures
        plan.steps@ == show_overlay_steps(open),
        plan.failure is None,
        overlay_plan_law(open, plan.steps@),
{
    proof {
        lemma_plan_laws(open);
    }
    let mut steps: Vec<WindowStep> = Vec::new();
    push_if(
        &mut steps,
        open.translation_popup,
        WindowStep::CloseQuietly(WindowLabel::TranslationPopup),
    );
    push_if(&mut steps, open.ocr_overlay, WindowStep::CloseQuietly(WindowLabel::OcrOverlay));
    steps.push(WindowStep::Create(WindowLabel::OcrOverlay));
    steps.push(WindowStep::Place(WindowLabel::OcrOverlay));
    steps.push(WindowStep::Show(WindowLabel::OcrOverlay));
    assert(steps@ =~= show_overlay_steps(open));
    WindowPlan { steps, failure: None }
}

/// The plan of the command that shows the translation popup.
pub fn show_popup_plan(open: OpenWindows) -> (plan: WindowPlan)
    ensures
        plan.steps@ == show_popup_steps(open),
        plan.failure is None,
        popup_plan_law(open, plan.steps@),
{
    proof {
        lemma_plan_laws(open);
    }
    let mut steps: Vec<WindowStep> = Vec::new();
    if open.translation_popup {
        steps.push(WindowStep::Navigate(WindowLabel::TranslationPopup));
    } else {
        steps.push(WindowStep::Create(WindowLabel::TranslationPopup));
    }
    steps.push(WindowStep::Place(WindowLabel::TranslationPopup));
    steps.push(WindowStep::Show(WindowLabel::TranslationPopup));
    steps.push(WindowStep::Focus(WindowLabel::TranslationPopup));
    assert(steps@ =~= show_popup_steps(open));
    WindowPlan { steps, failure: None }
}

/// The plan of the command that closes the OCR overlay.
pub fn close_overlay_plan(open: OpenWindows) -> (plan: WindowPlan)
    ensures
        plan.steps@ == close_overlay_steps(open),
        plan.failure is None,
        close_plan_law(open, plan.steps@),
{
    proof {
        lemma_plan_laws(open);
    }
    let mut steps: Vec<WindowStep> = Vec::new();
    push_if(&mut steps, open.translation_popup, WindowStep::Close(WindowLabel::TranslationPopup));
    push_if(&mut steps, open.ocr_overlay, WindowStep::Close(WindowLabel::OcrOverlay));
    WindowPlan { steps, failure: None }
}

proof fn lemma_selector_plan_live(open: OpenWindows)
    ensures
        acts_on_live_windows(open, show_selector_steps(open)),
{
    let sel = show_selector_steps(open);
    assert forall|i: int| 0 <= i < sel.len() implies {
        let s = #[trigger] sel[i];
        if s is Create {
            !live_before(open, sel, i, step_target(s))
        } else {
            live_before(open, sel, i, step_target(s))
        }
    } by {
        let head = step_if(open.ocr_overlay, WindowStep::Close(WindowLabel::OcrOverlay)) + step_if(
            open.translation_popup,
            WindowStep::Close(WindowLabel::TranslationPopup),
        );
        let n = head.len() as int;
        if i >= n && !open.capture_selector && i > n {
            assert(sel[n] == WindowStep::Create(WindowLabel::CaptureSelector));
        }
    }
}

proof fn lemma_cancel_plan_live(open: OpenWindows)
    ensures
        acts_on_live_windows(open, cancel_selector_steps(open)),
{
}

proof fn lemma_overlay_plan_live(open: OpenWindows)
    ensures
        acts_on_live_windows(open, show_overlay_steps(open)),
{
    let overlay = show_overlay_steps(open);
    assert forall|i: int| 0 <= i < overlay.len() implies {
        let s = #[trigger] overlay[i];
        if s is Create {
            !live_before(open, overlay, i, step_target(s))
        } else {
            live_before(open, overlay, i, step_target(s))
        }
    } by {
        let n = (step_if(
            open.translation_popup,
            WindowStep::CloseQuietly(WindowLabel::TranslationPopup),
        ) + step_if(open.ocr_overlay, WindowStep::CloseQuietly(WindowLabel::OcrOverlay))).len() as int;
        if i > n {
            assert(overlay[n] == WindowStep::Create(WindowLabel::OcrOverlay));
        }
        if i == n {
            if open.ocr_overlay {
                assert(step_closes(overlay[n - 1], WindowLabel::OcrOverlay));
            }
            assert forall|j: int| 0 <= j < n implies #[trigger] overlay[j] is CloseQuietly by {}
        }
    }
}

proof fn lemma_popup_plan_live(open: OpenWindows)
    ensures
        acts_on_live_windows(open, show_popup_steps(open)),
{
    let popup = show_popup_steps(open);
    assert forall|i: int| 0 <= i < popup.len() implies {
        let s = #[trigger] popup[i];
        if s is Create {
            !live_before(open, popup, i, step_target(s))
        } else {
            live_before(open, popup, i, step_target(s))
        }
    } by {
        if i > 0 && !open.translation_popup {
            assert(popup[0] == WindowStep::Create(WindowLabel::TranslationPopup));
        }
    }
}

proof fn lemma_close_plan_live(open: OpenWindows)
    ensures
        acts_on_live_windows(open, close_overlay_steps(open)),
{
}

/// Every command acts only on windows that exist at that point, and never
/// builds a window whose label is still taken: it reuses or first closes it.
pub proof fn lemma_plans_act_on_live_windows(open: OpenWindows)
    ensures
        acts_on_live_windows(open, show_selector_steps(open)),
        acts_on_live_windows(open, cancel_selector_steps(open)),
        acts_on_live_windows(open, show_overlay_steps(open)),
        acts_on_live_windows(open, show_popup_steps(open)),
        acts_on_live_windows(open, close_overlay_steps(open)),
{
    lemma_selector_plan_live(open);
    lemma_cancel_plan_live(open);
    lemma_overlay_plan_live(open);
    lemma_popup_plan_live(open);
    lemma_close_plan_live(open);
}

/// What showing the overlay does, stated from the open windows: it closes
/// the popup and the old overlay where they are open, and only those, then
/// builds, places and shows the overlay, which is its last step.
pub open spec fn overlay_plan_law(open: OpenWindows, steps: Seq<WindowStep>) -> bool {
    let n = steps.len();
    &&& n >= 3
    &&& steps[n - 3] == WindowStep::Create(WindowLabel::OcrOverlay)
    &&& steps[n - 2] == WindowStep::Place(WindowLabel::OcrOverlay)
    &&& steps[n - 1] == WindowStep::Show(WindowLabel::OcrOverlay)
    &&& forall|i: int|
        0 <= i < n - 3 ==> (#[trigger] steps[i] == WindowStep::CloseQuietly(
            WindowLabel::TranslationPopup,
        ) && open.translation_popup) || (steps[i] == WindowStep::CloseQuietly(
            WindowLabel::OcrOverlay,
        ) && open.ocr_overlay)
    &&& open.translation_popup ==> steps.contains(
        WindowStep::CloseQuietly(WindowLabel::TranslationPopup),
    )
    &&& open.ocr_overlay ==> steps.contains(WindowStep::CloseQuietly(WindowLabel::OcrOverlay))
}

/// What showing the popup does: whether it reuses the open popup (navigating
/// it) or builds one, it then places, shows and focuses it, in that order.
pub open spec fn popup_plan_law(open: OpenWindows, steps: Seq<WindowStep>) -> bool {
    &&& steps.len() == 4
    &&& open.translation_popup ==> steps[0] == WindowStep::Navigate(WindowLabel::TranslationPopup)
    &&& !open.translation_popup ==> steps[0] == WindowStep::Create(WindowLabel::TranslationPopup)
    &&& steps[1] == WindowStep::Place(WindowLabel::TranslationPopup)
    &&& steps[2] == WindowStep::Show(WindowLabel::TranslationPopup)
    &&& steps[3] == WindowStep::Focus(WindowLabel::TranslationPopup)
}

/// What closing the overlay does: it closes every open window among the
/// popup and the overlay, the popup first, and does nothing else.
pub open spec fn close_plan_law(open: OpenWindows, steps: Seq<WindowStep>) -> bool {
    &&& open.translation_popup ==> steps.contains(WindowStep::Close(WindowLabel::TranslationPopup))
    &&& open.ocr_overlay ==> steps.contains(WindowStep::Close(WindowLabel::OcrOverlay))
    &&& forall|i: int|
        0 <= i < steps.len() ==> (#[trigger] steps[i] == WindowStep::Close(
            WindowLabel::TranslationPopup,
        ) && open.translation_popup && i == 0) || (steps[i] == WindowStep::Close(
            WindowLabel::OcrOverlay,
        ) && open.ocr_overlay && i == steps.len() - 1)
    &&& steps.len() <= 2
}

/// What opening the selector does: without a main window, nothing, and it
/// fails; otherwise it closes the overlay and the popup where they are open,
/// builds the selector only where there is none, minimises the main window,
/// shows the selector and ends by focusing it.
pub open spec fn selector_plan_law(open: OpenWindows, steps: Seq<WindowStep>) -> bool {
    &&& !open.main ==> steps.len() == 0
    &&& open.main ==> {
        &&& steps.len() >= 3
        &&& steps[steps.len() - 1] == WindowStep::Focus(WindowLabel::CaptureSelector)
        &&& steps.contains(WindowStep::Minimize(WindowLabel::Main))
        &&& steps.contains(WindowStep::Show(WindowLabel::CaptureSelector))
        &&& (open.ocr_overlay <==> steps.contains(WindowStep::Close(WindowLabel::OcrOverlay)))
        &&& (open.translation_popup <==> steps.contains(
            WindowStep::Close(WindowLabel::TranslationPopup),
        ))
        &&& (!open.capture_selector <==> steps.contains(
            WindowStep::Create(WindowLabel::CaptureSelector),
        ))
    }
}

/// What cancelling the selection does: it closes the selector where it is
/// open, and where the main window exists, restores it and ends by focusing it.
pub open spec fn cancel_plan_law(open: OpenWindows, steps: Seq<WindowStep>) -> bool {
    &&& (open.capture_selector <==> steps.contains(
        WindowStep::Close(WindowLabel::CaptureSelector),
    ))
    &&& open.main ==> steps.len() >= 2 && steps[steps.len() - 1] == WindowStep::Focus(
        WindowLabel::Main,
    ) && steps.contains(WindowStep::Unminimize(WindowLabel::Main))
    &&& !open.main ==> !steps.contains(WindowStep::Unminimize(WindowLabel::Main))
        && !steps.contains(WindowStep::Focus(WindowLabel::Main))
}

proof fn lemma_step_if_parts(c: bool, s: WindowStep)
    ensures
        c ==> step_if(c, s) == seq![s],
        !c ==> step_if(c, s).len() == 0,
{
}

/// Each command's steps keep the promises stated of it.
pub proof fn lemma_plan_laws(open: OpenWindows)
    ensures
        selector_plan_law(open, show_selector_steps(open)),
        cancel_plan_law(open, cancel_selector_steps(open)),
        overlay_plan_law(open, show_overlay_steps(open)),
        popup_plan_law(open, show_popup_steps(open)),
        close_plan_law(open, close_overlay_steps(open)),
{
    lemma_selector_law(open);
    lemma_cancel_law(open);
    lemma_overlay_law(open);
    lemma_popup_law(open);
    lemma_close_law(open);
}

proof fn lemma_selector_law(open: OpenWindows)
    ensures
        selector_plan_law(open, show_selector_steps(open)),
{
    let steps = show_selector_steps(open);
    if open.main {
        let a = step_if(open.ocr_overlay, WindowStep::Close(WindowLabel::OcrOverlay));
        let b = step_if(open.translation_popup, WindowStep::Close(WindowLabel::TranslationPopup));
        lemma_step_if_parts(open.ocr_overlay, WindowStep::Close(WindowLabel::OcrOverlay));
        lemma_step_if_parts(
            open.translation_popup,
            WindowStep::Close(WindowLabel::TranslationPopup),
        );
        let n = (a + b).len() as int;
        if open.ocr_overlay {
            assert(steps[0] == WindowStep::Close(WindowLabel::OcrOverlay));
        }
        if open.translation_popup {
            assert(steps[n - 1] == WindowStep::Close(WindowLabel::TranslationPopup));
        }
        if open.capture_selector {
            assert(steps[n] == WindowStep::Minimize(WindowLabel::Main));
            assert(steps[n + 1] == WindowStep::Show(WindowLabel::CaptureSelector));
        } else {
            assert(steps[n] == WindowStep::Create(WindowLabel::CaptureSelector));
            assert(steps[n + 2] == WindowStep::Show(WindowLabel::CaptureSelector));
            assert(steps[n + 3] == WindowStep::Minimize(WindowLabel::Main));
        }
        assert forall|i: int| 0 <= i < steps.len() implies {
            &&& (steps[i] == WindowStep::Close(WindowLabel::OcrOverlay) ==> open.ocr_overlay)
            &&& (steps[i] == WindowStep::Close(WindowLabel::TranslationPopup)
                ==> open.translation_popup)
            &&& (steps[i] == WindowStep::Create(WindowLabel::CaptureSelector)
                ==> !open.capture_selector)
        } by {
            if i < n {
                if open.ocr_overlay && i == 0 {
                } else {
                    assert(steps[i] == WindowStep::Close(WindowLabel::TranslationPopup));
                }
            }
        }
    }
}

proof fn lemma_cancel_law(open: OpenWindows)
    ensures
        cancel_plan_law(open, cancel_selector_steps(open)),
{
    let steps = cancel_selector_steps(open);
    lemma_step_if_parts(open.capture_selector, WindowStep::Close(WindowLabel::CaptureSelector));
    if open.capture_selector {
        assert(steps[0] == WindowStep::Close(WindowLabel::CaptureSelector));
    }
    let n = step_if(open.capture_selector, WindowStep::Close(WindowLabel::CaptureSelector)).len() as int;
    if open.main {
        assert(steps[n] == WindowStep::Unminimize(WindowLabel::Main));
    }
    assert forall|i: int| 0 <= i < steps.len() implies {
        &&& (steps[i] == WindowStep::Close(WindowLabel::CaptureSelector) ==> open.capture_selector)
        &&& (steps[i] == WindowStep::Unminimize(WindowLabel::Main) ==> open.main)
        &&& (steps[i] == WindowStep::Focus(WindowLabel::Main) ==> open.main)
    } by {}
}

proof fn lemma_overlay_law(open: OpenWindows)
    ensures
        overlay_plan_law(open, show_overlay_steps(open)),
{
    let steps = show_overlay_steps(open);
    let a = step_if(open.translation_popup, WindowStep::CloseQuietly(WindowLabel::TranslationPopup));
    let b = step_if(open.ocr_overlay, WindowStep::CloseQuietly(WindowLabel::OcrOverlay));
    lemma_step_if_parts(
        open.translation_popup,
        WindowStep::CloseQuietly(WindowLabel::TranslationPopup),
    );
    lemma_step_if_parts(open.ocr_overlay, WindowStep::CloseQuietly(WindowLabel::OcrOverlay));
    let n = (a + b).len() as int;
    assert(steps.len() == n + 3);
    if open.translation_popup {
        assert(steps[0] == WindowStep::CloseQuietly(WindowLabel::TranslationPopup));
    }
    if open.ocr_overlay {
        assert(steps[n - 1] == WindowStep::CloseQuietly(WindowLabel::OcrOverlay));
    }
}

proof fn lemma_popup_law(open: OpenWindows)
    ensures
        popup_plan_law(open, show_popup_steps(open)),
{
}

proof fn lemma_close_law(open: OpenWindows)
    ensures
        close_plan_law(open, close_overlay_steps(open)),
{
    let steps = close_overlay_steps(open);
    lemma_step_if_parts(open.translation_popup, WindowStep::Close(WindowLabel::TranslationPopup));
    lemma_step_if_parts(open.ocr_overlay, WindowStep::Close(WindowLabel::OcrOverlay));
    if open.translation_popup {
        assert(steps[0] == WindowStep::Close(WindowLabel::TranslationPopup));
    }
    if open.ocr_overlay {
        assert(steps[steps.len() - 1] == WindowStep::Close(WindowLabel::OcrOverlay));
    }
}

} // verus!
