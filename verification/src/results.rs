//! The request and result records exchanged with the user interface.
use vstd::prelude::*;

verus! {

/// A device listed by `adb devices -l`.
pub struct AdbDevice {
    pub id: String,
    pub status: String,
    pub product: Option<String>,
    pub model: Option<String>,
    pub transport_id: Option<String>,
}

/// The devices known to ADB, or why they could not be listed.
pub struct AdbDevicesResult {
    pub success: bool,
    pub devices: Vec<AdbDevice>,
    pub error: Option<String>,
}

/// The outcome of one ADB command.
pub struct AdbActionResult {
    pub success: bool,
    pub output: String,
    pub error: Option<String>,
}

/// The outcome of an SSH connection attempt.
pub struct SshConnectResult {
    pub success: bool,
    pub output: String,
    pub error: Option<String>,
}

/// The outcome of a command run over SSH.
pub struct SshExecResult {
    pub success: bool,
    pub output: String,
    pub error: Option<String>,
}

/// The outcome of showing a pattern on the panel.
pub struct PatternResult {
    pub success: bool,
    pub message: String,
    pub error: Option<String>,
}

/// The outcome of a command, in the form most UI calls return.
pub struct GenericResult {
    pub success: bool,
    pub output: String,
    pub error: Option<String>,
}

/// What a probe of the connected board found.
pub struct DeviceProbeResult {
    pub success: bool,
    pub model: Option<String>,
    pub panel_name: Option<String>,
    pub virtual_size: Option<String>,
    pub bits_per_pixel: Option<String>,
    pub mipi_mode: Option<String>,
    pub mipi_lanes: Option<u32>,
    pub fb0_available: bool,
    pub vismpwr_available: bool,
    pub python3_available: bool,
    pub cpu_usage: Option<String>,
    pub memory_usage: Option<String>,
    pub temperature_c: Option<String>,
    pub error: Option<String>,
}

/// Text to draw on the panel.
pub struct TextDisplayRequest {
    pub text: String,
    pub subtitle: Option<String>,
    pub style: Option<String>,
}

/// A local image to upload and show.
pub struct ImageDisplayRequest {
    pub image_path: String,
    pub remote_name: Option<String>,
}

/// An image sent by the UI as base64.
pub struct ImageDisplayFromBase64Request {
    pub filename: String,
    pub base64_data: String,
    pub remote_name: Option<String>,
}

/// One of the board's built-in logic patterns.
pub struct LogicPatternRequest {
    pub pattern: u8,
}

/// A pattern drawn by the runtime pattern script.
pub struct RuntimePatternRequest {
    pub pattern: String,
}

/// A video to play from the board's movie directory.
pub struct PlayVideoRequest {
    pub video_path: String,
    pub zoom_mode: i32,
    pub show_framerate: i32,
}

/// `pause`, `resume` or `stop`.
pub struct VideoControlRequest {
    pub action: String,
}

/// Whether the board's video player is running.
pub struct VideoPlaybackStatus {
    pub success: bool,
    pub is_running: bool,
    pub output: String,
    pub error: Option<String>,
}

/// A static address for the board's primary interface.
pub struct StaticIpRequest {
    pub ip: String,
    pub gateway: String,
}

/// A panel configuration to download to the board.
pub struct DownloadOledConfigRequest {
    pub request: crate::timing::TimingBinRequest,
}

/// A panel configuration to export as JSON.
pub struct ExportOledConfigJsonRequest {
    pub request: crate::timing::TimingBinRequest,
}

/// One saved MIPI command preset.
pub struct CommandPresetItem {
    pub index: usize,
    pub name: String,
    pub content: String,
}

/// The saved MIPI command presets.
pub struct CommandPresetListResult {
    pub success: bool,
    pub items: Vec<CommandPresetItem>,
    pub error: Option<String>,
}

/// An image file found in a local directory.
pub struct LocalImageInfo {
    pub name: String,
    pub path: String,
    pub ext: String,
    pub modified_ms: Option<u128>,
}

/// The images of a local directory.
pub struct LocalImagesResult {
    pub success: bool,
    pub images: Vec<LocalImageInfo>,
    pub error: Option<String>,
}

/// A PNG thumbnail of a local image, as a data URL.
pub struct ImagePreviewResult {
    pub success: bool,
    pub data_url: Option<String>,
    pub width: Option<u32>,
    pub height: Option<u32>,
    pub error: Option<String>,
}

/// The device the user selected, if any.
pub struct ConnectionState {
    pub selected_device_id: Option<String>,
}

impl Default for ConnectionState {
    /// No device selected.
    fn default() -> (r: Self)
        ensures
            r.selected_device_id is None,
    {
        ConnectionState { selected_device_id: None }
    }
}


} // verus!
