use yomimado::{
    capture_file_name, crop_and_encode, crop_span, display_identity, png_data_url,
    select_monitor, CaptureError, MonitorCandidate,
};

/// Scales one axis of a physical selection into image pixels the way the
/// capture command does, then takes the crop span from the library.
fn crop_axis(
    physical_start: f64,
    physical_length: f64,
    display_physical_length: f64,
    image_length: u32,
) -> Result<(u32, u32), CaptureError> {
    let ratio = f64::from(image_length) / display_physical_length;
    crop_span(
        !(display_physical_length <= 0.0),
        image_length,
        (physical_start * ratio).round() as i64,
        ((physical_start + physical_length) * ratio).round() as i64,
    )
}

#[test]
fn crop_uses_actual_xcap_image_size() {
    assert_eq!(crop_axis(100.0, 400.0, 1920.0, 3840).unwrap(), (200, 800));
    assert_eq!(crop_axis(100.0, 400.0, 1920.0, 1920).unwrap(), (100, 400));
}

#[test]
fn selector_inset_below_menu_bar_moves_capture_and_crop_together() {
    // The physical selection that the selector inset yields for this display.
    let (physical_y, physical_height) = (666.0, 300.0);
    let display_height = 1912.0;
    assert_eq!(crop_axis(physical_y, physical_height, display_height, 1912).unwrap(), (666, 300));
    assert_eq!(crop_axis(physical_y, physical_height, display_height, 956).unwrap(), (333, 150));
}

#[test]
fn crop_span_clamps_and_rejects() {
    assert_eq!(crop_span(true, 100, -20, 30), Ok((0, 30)));
    assert_eq!(crop_span(true, 100, 90, 400), Ok((90, 10)));
    assert_eq!(crop_span(true, 100, 120, 400), Err(CaptureError::OutsideDisplay));
    assert_eq!(crop_span(true, 100, 40, 40), Err(CaptureError::OutsideDisplay));
    assert_eq!(
        crop_span(false, 100, 0, 10),
        Err(CaptureError::Unavailable("Invalid display dimensions".to_string()))
    );
    assert_eq!(
        crop_span(true, 0, 0, 10),
        Err(CaptureError::Unavailable("Invalid display dimensions".to_string()))
    );
    assert_eq!(crop_span(true, 3840, i64::MIN, i64::MAX), Ok((0, 3840)));
}

fn monitor(x: Option<i32>, y: Option<i32>, name: Option<&str>) -> MonitorCandidate {
    MonitorCandidate { x, y, name: name.map(|n| n.to_string()) }
}

#[test]
fn monitor_found_by_physical_origin_first() {
    let monitors = vec![
        monitor(Some(0), Some(0), Some("A")),
        monitor(Some(-1920), Some(0), Some("B")),
        monitor(Some(-960), Some(0), Some("C")),
    ];
    let name = "C".to_string();
    assert_eq!(select_monitor(&monitors, -1920, 0, -960, 0, &name), Some(1));
}

#[test]
fn monitor_found_by_logical_origin_then_name_then_alone() {
    let monitors = vec![
        monitor(Some(0), Some(0), Some("A")),
        monitor(Some(-960), Some(0), Some("B")),
        monitor(None, None, Some("C")),
    ];
    assert_eq!(select_monitor(&monitors, -1920, 0, -960, 0, &"C".to_string()), Some(1));
    assert_eq!(select_monitor(&monitors, 5, 5, 7, 7, &"C".to_string()), Some(2));
    assert_eq!(select_monitor(&monitors, 5, 5, 7, 7, &"Z".to_string()), None);
    let single = vec![monitor(None, Some(0), None)];
    assert_eq!(select_monitor(&single, 5, 5, 7, 7, &"Z".to_string()), Some(0));
    assert_eq!(select_monitor(&Vec::new(), 0, 0, 0, 0, &"Z".to_string()), None);
}

#[test]
fn display_identity_falls_back_to_origin() {
    assert_eq!(
        display_identity(Some("Built-in".to_string()), 0, 0),
        ("Built-in".to_string(), "Built-in".to_string())
    );
    assert_eq!(
        display_identity(None, -1920, 37),
        ("-1920,37".to_string(), "Unnamed display".to_string())
    );
    assert_eq!(
        display_identity(None, i32::MIN, 0),
        ("-2147483648,0".to_string(), "Unnamed display".to_string())
    );
}

#[test]
fn capture_file_name_holds_the_timestamp() {
    assert_eq!(capture_file_name(1725029869123), "capture-1725029869123.png");
    assert_eq!(capture_file_name(0), "capture-0.png");
    assert_eq!(capture_file_name(u128::MAX), format!("capture-{}.png", u128::MAX));
}

#[test]
fn data_url_is_standard_base64() {
    assert_eq!(png_data_url(&vec![]), "data:image/png;base64,");
    assert_eq!(png_data_url(&b"M".to_vec()), "data:image/png;base64,TQ==");
    assert_eq!(png_data_url(&b"Ma".to_vec()), "data:image/png;base64,TWE=");
    assert_eq!(png_data_url(&b"Man?>".to_vec()), "data:image/png;base64,TWFuPz4=");
    assert_eq!(png_data_url(&vec![0xfb, 0xff]), "data:image/png;base64,+/8=");
}

#[test]
fn crop_and_encode_keeps_the_selected_pixels() {
    let (width, height) = (4u32, 3u32);
    let mut screenshot = Vec::new();
    for y in 0..height {
        for x in 0..width {
            screenshot.extend_from_slice(&[x as u8, y as u8, (x * 10 + y) as u8, 255]);
        }
    }
    let encoded = crop_and_encode(screenshot, width, height, (1, 2), (1, 5)).unwrap();
    assert_eq!((encoded.width, encoded.height), (2, 2));
    assert_eq!(&encoded.png[..8], &[0x89, b'P', b'N', b'G', 0x0d, 0x0a, 0x1a, 0x0a]);
    let decoded = image::load_from_memory(&encoded.png).unwrap().to_rgba8();
    assert_eq!(decoded.dimensions(), (2, 2));
    assert_eq!(decoded.into_raw(), vec![1, 1, 11, 255, 2, 1, 21, 255, 1, 2, 12, 255, 2, 2, 22, 255]);
    assert_eq!(encoded.data_url, png_data_url(&encoded.png));
    assert!(encoded.data_url.starts_with("data:image/png;base64,iVBORw0KGgo"));
}

#[test]
fn error_messages() {
    assert_eq!(
        CaptureError::Unavailable("gone".to_string()).message(),
        "Screen capture is unavailable: gone"
    );
    assert_eq!(
        CaptureError::EmptySelection.message(),
        "The selection must have a positive width and height"
    );
    assert_eq!(
        CaptureError::OutsideDisplay.message(),
        "The selection lies outside the active display"
    );
    assert_eq!(
        CaptureError::Save("disk full".to_string()).message(),
        "Could not save the captured image: disk full"
    );
}

#[test]
fn encoder_failure_is_a_save_error_with_its_message() {
    let screenshot = vec![0u8; 2 * 2 * 4];
    match crop_and_encode(screenshot, 2, 2, (1, 0), (0, 2)) {
        Err(CaptureError::Save(message)) => assert!(message.contains("Zero width"), "{message}"),
        _ => panic!("a crop without width cannot be encoded"),
    }
}
