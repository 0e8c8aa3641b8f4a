//! Verified core of the YomiMado desktop capture layer: the integer and
//! text logic behind region capture, monitor lookup, overlay placement,
//! the translation popup query and the window plans of the commands.

mod crop;
mod error;
mod imaging;
mod monitor;
mod overlay;
mod popup;
mod text;
mod windows;

pub use crop::{clamp_to_axis, crop_span, crop_span_law, crop_span_spec, lemma_crop_span_law};
pub use error::{error_message, result_view, CaptureError, CaptureErrorView};
pub use imaging::{
    base64_char, base64_decode, base64_standard, base64_value, lemma_base64_round_trip, crop_and_encode, crop_extent, crop_origin, cropped_rgba, encoded_view,
    lemma_cropped_pixels, png_data_url, png_encoding, EncodedCapture,
};
pub use monitor::{
    at_position, capture_file_name, chosen_monitor, display_identity, first_at, first_named,
    has_name, lemma_chosen_monitor_unique, lemma_monitor_lookup_law, monitor_lookup_law, none_at,
    none_named, origin_is, select_monitor, MonitorCandidate,
};
pub use overlay::{
    is_i32, layout_fits_i32, lemma_overlay_window_law, lemma_small_layouts_fit, max_int, min_int, overlay_pixels,
    overlay_window_law, LayoutPixels, OverlayPixels,
};
pub use popup::{
    check_popup_region, hex_digit_value, hex_lower, hex_upper, is_unreserved, json_escape,
    json_escape_char, json_short_escape_value, json_string, json_unescape,
    lemma_json_escape_round_trip, lemma_percent_encoding_round_trip,
    lemma_popup_query_preserves_text, no_bare_quote, overlay_page, percent_decode, percent_encode, percent_encode_byte,
    popup_page, popup_query, popup_state, popup_state_json, translation_popup_query,
};
pub use text::{
    decimal, decimal_value, digit_char, digit_value, lemma_decimal_reads_back, lemma_signed_decimal_reads_back, push_decimal,
    push_signed_decimal, signed_decimal, str_equal,
};
pub use windows::{
    acts_on_live_windows, cancel_selector_plan, cancel_selector_steps, close_overlay_plan,
    cancel_plan_law, close_overlay_steps, close_plan_law, hides_when_unfocused, lemma_labels_distinct, lemma_plan_laws,
    lemma_plans_act_on_live_windows, live_before, overlay_plan_law, popup_plan_law,
    selector_plan_law,
    show_overlay_plan, show_overlay_steps, show_popup_plan, show_popup_steps, show_selector_plan,
    show_selector_steps, step_closes, step_if, step_target, OpenWindows, WindowLabel, WindowPlan,
    WindowStep,
};
