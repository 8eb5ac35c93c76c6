//! The record types of the scan-and-sign flow: a scan, a saved signature,
//! the screens of the flow, and the state that holds them.

use vstd::prelude::*;

verus! {

/// A QR or barcode scan.
#[derive(Clone, Debug)]
pub struct ScanData {
    pub scan_id: String,
    pub scan_result: String,
    pub timestamp: String,
}

/// A signature: its id, its points and the size of the pad it was drawn on.
#[derive(Clone, Debug)]
pub struct SignatureData<P> {
    pub id: String,
    pub points: Vec<P>,
    pub width: u32,
    pub height: u32,
}

/// The screens of the flow.
#[derive(Clone, Copy, Debug, PartialEq, Eq, Structural)]
pub enum AppScreen {
    AppLaunch,
    Scanner,
    SignatureInfo,
    SignaturePad,
    SignaturePreview,
    Success,
}

/// The state of the flow.
pub struct AppState<P> {
    pub current_screen: AppScreen,
    pub scan_data: Option<ScanData>,
    pub signature_data: Option<SignatureData<P>>,
    pub temp_signature_points: Vec<P>,
    pub error_message: Option<String>,
}

impl<P> Default for AppState<P> {
    /// The flow at its start: the launch screen, nothing scanned or drawn.
    fn default() -> (s: Self)
        ensures
            s.current_screen == AppScreen::AppLaunch,
            s.scan_data is None,
            s.signature_data is None,
            s.temp_signature_points@.len() == 0,
            s.error_message is None,
    {
        AppState {
            current_screen: AppScreen::AppLaunch,
            scan_data: None,
            signature_data: None,
            temp_signature_points: Vec::new(),
            error_message: None,
        }
    }
}

} // verus!
