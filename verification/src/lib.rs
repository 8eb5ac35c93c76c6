//! Verified core of the scanner / signature-capture application: the camera
//! runtime state (QR hand-off, frame buffer, permission flow), frame
//! conversion, QR decoding, signature rasterising and the screen state machine.

pub mod app_state;
pub mod assets;
pub mod camera;
pub mod camera_widget;
pub mod frame_convert;
pub mod laws;
pub mod qr_decode;
pub mod raster;
pub mod signature_pad;
pub mod state;

pub use app_state::{AppState, ScanMode, Screen};
