use scanner_signature_app::assets::decode_image_asset;
use scanner_signature_app::raster::signature_png;
use scanner_signature_app::state::{AppScreen, AppState, ScanData, SignatureData};

#[test]
fn encoded_signature_decodes_back() {
    let png = signature_png(&vec![vec![(0, 0), (2, 0)]], 3, 2).unwrap();
    let img = decode_image_asset(&png).unwrap();
    assert_eq!((img.width, img.height), (3, 2));
    assert_eq!(
        img.rgba,
        vec![
            20, 20, 20, 255, 20, 20, 20, 255, 20, 20, 20, 255, //
            255, 255, 255, 255, 255, 255, 255, 255, 255, 255, 255, 255,
        ]
    );
}

#[test]
fn garbage_is_not_an_image() {
    assert!(decode_image_asset(&[1, 2, 3, 4]).is_none());
    assert!(decode_image_asset(&[]).is_none());
}

#[test]
fn flow_state_starts_at_launch() {
    let s: AppState<(f32, f32)> = AppState::default();
    assert_eq!(s.current_screen, AppScreen::AppLaunch);
    assert!(s.scan_data.is_none() && s.signature_data.is_none());
    assert!(s.temp_signature_points.is_empty() && s.error_message.is_none());
}

#[test]
fn flow_records() {
    let scan = ScanData { scan_id: "1".to_string(), scan_result: "DOC".to_string(), timestamp: "t".to_string() };
    let copy = scan.clone();
    assert_eq!(copy.scan_result, "DOC");
    let sig = SignatureData { id: "s".to_string(), points: vec![(1.0f32, 2.0f32)], width: 300, height: 100 };
    assert_eq!(sig.clone().points.len(), 1);
}
