use yomimado::{
    cancel_selector_plan, close_overlay_plan, hides_when_unfocused, show_overlay_plan,
    show_popup_plan, show_selector_plan, OpenWindows, WindowLabel, WindowStep,
};
use yomimado::WindowLabel::{CaptureSelector, Main, OcrOverlay, TranslationPopup};
use yomimado::WindowStep::{
    Close, CloseQuietly, Create, Focus, Minimize, Navigate, Place, Show, Unminimize,
};

fn open(main: bool, capture_selector: bool, ocr_overlay: bool, translation_popup: bool) -> OpenWindows {
    OpenWindows { main, capture_selector, ocr_overlay, translation_popup }
}

#[test]
fn selector_plan_closes_overlays_and_builds_the_selector() {
    let plan = show_selector_plan(open(true, false, true, true));
    assert_eq!(
        plan.steps,
        vec![
            Close(OcrOverlay),
            Close(TranslationPopup),
            Create(CaptureSelector),
            Place(CaptureSelector),
            Show(CaptureSelector),
            Minimize(Main),
            Focus(CaptureSelector),
        ]
    );
    assert_eq!(plan.failure, None);
}

#[test]
fn selector_plan_reuses_an_open_selector() {
    let plan = show_selector_plan(open(true, true, false, false));
    assert_eq!(plan.steps, vec![Minimize(Main), Show(CaptureSelector), Focus(CaptureSelector)]);
    let plan = show_selector_plan(open(false, true, true, true));
    assert!(plan.steps.is_empty());
    assert_eq!(plan.failure, Some("main window is unavailable".to_string()));
}

#[test]
fn cancel_plan_restores_the_main_window() {
    let plan = cancel_selector_plan(open(true, true, false, false));
    assert_eq!(plan.steps, vec![Close(CaptureSelector), Unminimize(Main), Focus(Main)]);
    assert_eq!(plan.failure, None);
    let plan = cancel_selector_plan(open(false, true, false, false));
    assert_eq!(plan.steps, vec![Close(CaptureSelector)]);
    assert_eq!(plan.failure, Some("Main window is unavailable".to_string()));
}

#[test]
fn overlay_plan_replaces_the_overlay() {
    let plan = show_overlay_plan(open(true, false, true, true));
    assert_eq!(
        plan.steps,
        vec![
            CloseQuietly(TranslationPopup),
            CloseQuietly(OcrOverlay),
            Create(OcrOverlay),
            Place(OcrOverlay),
            Show(OcrOverlay),
        ]
    );
    let plan = close_overlay_plan(open(true, false, true, false));
    assert_eq!(plan.steps, vec![Close(OcrOverlay)]);
}

#[test]
fn popup_plan_navigates_an_existing_popup() {
    let plan = show_popup_plan(open(true, false, true, true));
    assert_eq!(
        plan.steps,
        vec![
            Navigate(TranslationPopup),
            Place(TranslationPopup),
            Show(TranslationPopup),
            Focus(TranslationPopup),
        ]
    );
    let plan = show_popup_plan(open(true, false, true, false));
    assert_eq!(plan.steps[0], Create(TranslationPopup));
}

#[test]
fn only_the_popup_hides_on_blur() {
    assert!(hides_when_unfocused("translation-popup", false));
    assert!(!hides_when_unfocused("translation-popup", true));
    assert!(!hides_when_unfocused("ocr-overlay", false));
    assert!(!hides_when_unfocused("translation-popu", false));
    assert_eq!(WindowLabel::CaptureSelector.label(), "capture-selector");
    assert_eq!(WindowLabel::Main.label(), "main");
}
