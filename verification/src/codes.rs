//! Numeric codes of the CEF enumerations that the callbacks carry.

use vstd::prelude::*;

verus! {

/// CEF's resource type, carried as an opaque value.
#[verifier::external_type_specification]
#[verifier::external_body]
pub struct ExResourceType(cef::ResourceType);

/// CEF's cursor type, carried as an opaque value.
#[verifier::external_type_specification]
#[verifier::external_body]
pub struct ExCursorType(cef::CursorType);

/// CEF's paint element type, carried as an opaque value.
#[verifier::external_type_specification]
#[verifier::external_body]
pub struct ExPaintElementType(cef::PaintElementType);

/// CEF's termination status, carried as an opaque value.
#[verifier::external_type_specification]
#[verifier::external_body]
pub struct ExTerminationStatus(cef::TerminationStatus);

/// CEF's window disposition, carried as an opaque value.
#[verifier::external_type_specification]
#[verifier::external_body]
pub struct ExWindowOpenDisposition(cef::WindowOpenDisposition);

/// CEF's log severity, carried as an opaque value.
#[verifier::external_type_specification]
#[verifier::external_body]
pub struct ExLogSeverity(cef::LogSeverity);

/// CEF's network error code, carried as an opaque value.
#[verifier::external_type_specification]
#[verifier::external_body]
pub struct ExErrorcode(cef::Errorcode);

/// CEF's drag operation mask, carried as an opaque value.
#[verifier::external_type_specification]
#[verifier::external_body]
pub struct ExDragOperationsMask(cef::DragOperationsMask);

/// The integer that CEF gives a resource type.
pub uninterp spec fn resource_type_number(resource_type: cef::ResourceType) -> u32;

/// The integer that CEF gives a cursor type.
pub uninterp spec fn cursor_type_number(cursor: cef::CursorType) -> u32;

/// The integer that CEF gives a paint element type.
pub uninterp spec fn paint_element_number(element: cef::PaintElementType) -> u32;

/// The integer that CEF gives a termination status.
pub uninterp spec fn termination_status_number(status: cef::TerminationStatus) -> u32;

/// The integer that CEF gives a log severity.
pub uninterp spec fn log_severity_number(level: cef::LogSeverity) -> u32;

/// The integer that CEF gives a network error.
pub uninterp spec fn error_code_number(error: cef::Errorcode) -> i32;

/// The bits of a drag operation mask.
pub uninterp spec fn drag_operations_bits(operations: cef::DragOperationsMask) -> u32;

/// Reads the integer of a resource type with `cef::ResourceType::get_raw`,
/// which is a function of the value alone.
#[verifier::external_body]
pub(crate) fn resource_type_code(resource_type: &cef::ResourceType) -> (code: u32)
    ensures
        code == resource_type_number(*resource_type),
{
    resource_type.get_raw() as u32
}

/// Reads the integer of a cursor type with `cef::CursorType::get_raw`, which
/// is a function of the value alone.
#[verifier::external_body]
pub(crate) fn cursor_type_code(cursor: &cef::CursorType) -> (code: u32)
    ensures
        code == cursor_type_number(*cursor),
{
    cursor.get_raw() as u32
}

/// Reads the integer of a paint element type with
/// `cef::PaintElementType::get_raw`, which is a function of the value alone.
#[verifier::external_body]
pub(crate) fn paint_element_code(element: &cef::PaintElementType) -> (code: u32)
    ensures
        code == paint_element_number(*element),
{
    element.get_raw() as u32
}

/// Reads the integer of a termination status with
/// `cef::TerminationStatus::get_raw`, which is a function of the value alone.
#[verifier::external_body]
pub(crate) fn termination_status_code(status: &cef::TerminationStatus) -> (code: u32)
    ensures
        code == termination_status_number(*status),
{
    status.get_raw() as u32
}

/// Reads the integer of a log severity with `cef::LogSeverity::get_raw`, which
/// is a function of the value alone.
#[verifier::external_body]
pub(crate) fn log_severity_code(level: &cef::LogSeverity) -> (code: u32)
    ensures
        code == log_severity_number(*level),
{
    level.get_raw() as u32
}

/// Reads the integer of a network error with `cef::Errorcode::get_raw`, which
/// is a function of the value alone.
#[verifier::external_body]
pub(crate) fn error_code(error: &cef::Errorcode) -> (code: i32)
    ensures
        code == error_code_number(*error),
{
    error.get_raw()
}

/// Reads the bits of a drag operation mask through its `AsRef` view of the
/// CEF integer, which is a function of the value alone.
#[verifier::external_body]
pub(crate) fn drag_ops_to_u32(operations: &cef::DragOperationsMask) -> (bits: u32)
    ensures
        bits == drag_operations_bits(*operations),
{
    operations.as_ref().0 as u32
}

/// What a media access request can ask for.
#[derive(Clone, Copy, Debug, PartialEq, Eq, Structural)]
pub enum MediaPermission {
    /// No permission.
    Nothing,
    /// A microphone.
    DeviceAudioCapture,
    /// A camera.
    DeviceVideoCapture,
    /// The sound of the desktop.
    DesktopAudioCapture,
    /// The picture of the desktop.
    DesktopVideoCapture,
}

/// What a permission prompt can ask for, as far as the client has a name for it.
#[derive(Clone, Copy, Debug, PartialEq, Eq, Structural)]
pub enum PromptPermission {
    /// A camera stream.
    CameraStream,
    /// A microphone stream.
    MicStream,
    /// The position of the device.
    Geolocation,
    /// The clipboard.
    Clipboard,
    /// Notifications.
    Notifications,
    /// System exclusive MIDI messages.
    MidiSysex,
    /// The pointer.
    PointerLock,
    /// The keyboard.
    KeyboardLock,
}

impl MediaPermission {
    /// The bit of this permission in a media access mask.
    pub open spec fn bit(self) -> u32 {
        match self {
            MediaPermission::Nothing => 0u32,
            MediaPermission::DeviceAudioCapture => 1u32,
            MediaPermission::DeviceVideoCapture => 2u32,
            MediaPermission::DesktopAudioCapture => 4u32,
            MediaPermission::DesktopVideoCapture => 8u32,
        }
    }
}

impl PromptPermission {
    /// The bit of this permission in a prompt mask.
    pub open spec fn bit(self) -> u32 {
        match self {
            PromptPermission::CameraStream => 0x4u32,
            PromptPermission::MicStream => 0x1000u32,
            PromptPermission::Geolocation => 0x100u32,
            PromptPermission::Clipboard => 0x10u32,
            PromptPermission::Notifications => 0x8000u32,
            PromptPermission::MidiSysex => 0x2000u32,
            PromptPermission::PointerLock => 0x20000u32,
            PromptPermission::KeyboardLock => 0x10000u32,
        }
    }
}

/// Reads the bit of a media permission with
/// `cef::MediaAccessPermissionTypes::get_raw`: the constants that CEF defines
/// for the five permissions have the values of `MediaPermission::bit`.
#[verifier::external_body]
pub(crate) fn media_permission_to_u32(permission: MediaPermission) -> (bit: u32)
    ensures
        bit == permission.bit(),
{
    let raw = match permission {
        MediaPermission::Nothing => cef::MediaAccessPermissionTypes::NONE,
        MediaPermission::DeviceAudioCapture => cef::MediaAccessPermissionTypes::DEVICE_AUDIO_CAPTURE,
        MediaPermission::DeviceVideoCapture => cef::MediaAccessPermissionTypes::DEVICE_VIDEO_CAPTURE,
        MediaPermission::DesktopAudioCapture => cef::MediaAccessPermissionTypes::DESKTOP_AUDIO_CAPTURE,
        MediaPermission::DesktopVideoCapture => cef::MediaAccessPermissionTypes::DESKTOP_VIDEO_CAPTURE,
    };
    raw.get_raw() as u32
}

/// Reads the bit of a prompt permission with
/// `cef::PermissionRequestTypes::get_raw`: the constants that CEF defines for
/// the eight permissions have the values of `PromptPermission::bit`.
#[verifier::external_body]
pub(crate) fn prompt_permission_to_u32(permission: PromptPermission) -> (bit: u32)
    ensures
        bit == permission.bit(),
{
    let raw = match permission {
        PromptPermission::CameraStream => cef::PermissionRequestTypes::CAMERA_STREAM,
        PromptPermission::MicStream => cef::PermissionRequestTypes::MIC_STREAM,
        PromptPermission::Geolocation => cef::PermissionRequestTypes::GEOLOCATION,
        PromptPermission::Clipboard => cef::PermissionRequestTypes::CLIPBOARD,
        PromptPermission::Notifications => cef::PermissionRequestTypes::NOTIFICATIONS,
        PromptPermission::MidiSysex => cef::PermissionRequestTypes::MIDI_SYSEX,
        PromptPermission::PointerLock => cef::PermissionRequestTypes::POINTER_LOCK,
        PromptPermission::KeyboardLock => cef::PermissionRequestTypes::KEYBOARD_LOCK,
    };
    raw.get_raw() as u32
}

} // verus!
