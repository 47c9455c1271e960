//! What the render callbacks compute: the geometry of the view, the caret of a
//! text composition, and what is painted where.

use crate::codes::{paint_element_code, paint_element_number};
use crate::events::{EventQueues, EventQueuesModel, ImeCompositionRange};
use crate::pixels::{bgra_to_rgba, rgba_of};
use vstd::prelude::*;

verus! {

/// A rectangle in view coordinates.
#[derive(Clone, Copy, Debug, PartialEq, Eq, Structural)]
pub struct Rect {
    pub x: i32,
    pub y: i32,
    pub width: i32,
    pub height: i32,
}

/// The size of the view in logical pixels.
#[derive(Clone, Copy, Debug, PartialEq, Eq, Structural)]
pub struct LogicalSize {
    pub width: i32,
    pub height: i32,
}

/// Gives the view rectangle the size of the view and leaves its origin alone.
/// Where the size is not known or not positive, the rectangle stays as it is.
pub fn compute_view_rect(size: Option<LogicalSize>, rect: Option<&mut Rect>)
    ensures
        rect matches Some(rect) ==> *final(rect) == (match size {
            Some(size) => Rect { width: size.width, height: size.height, ..*rect },
            None => *rect,
        }),
{
    if let Some(rect) = rect {
        if let Some(size) = size {
            rect.width = size.width;
            rect.height = size.height;
        }
    }
}

/// Fills in the scale factor of the screen and returns whether there was a
/// place to put it.
pub fn compute_screen_info<F>(device_scale_factor: Option<&mut F>, scale: F) -> (filled: i32)
    ensures
        filled == (if device_scale_factor is Some {
            1i32
        } else {
            0i32
        }),
        device_scale_factor matches Some(factor) ==> *final(factor) == scale,
{
    if let Some(factor) = device_scale_factor {
        *factor = scale;
        return 1;
    }
    0
}

/// Translates a point of the view to the screen. The view is the screen here,
/// so the point stays where it is.
pub fn compute_screen_point(
    view_x: i32,
    view_y: i32,
    screen_x: Option<&mut i32>,
    screen_y: Option<&mut i32>,
) -> (translated: i32)
    ensures
        translated == 1,
        screen_x matches Some(x) ==> *final(x) == view_x,
        screen_y matches Some(y) ==> *final(y) == view_y,
{
    if let Some(screen_x) = screen_x {
        *screen_x = view_x;
    }
    if let Some(screen_y) = screen_y {
        *screen_y = view_y;
    }
    1
}

/// A change of the popup widget that the browser draws over the page.
#[derive(Clone, Copy, Debug, PartialEq, Eq, Structural)]
pub enum PopupChange {
    /// The popup appears or disappears.
    SetVisible { visible: bool },
    /// The popup moves to a rectangle.
    SetRect { x: i32, y: i32, width: i32, height: i32 },
}

/// The popup is shown or hidden.
pub fn handle_popup_show(show: i32) -> (change: PopupChange)
    ensures
        change == (PopupChange::SetVisible { visible: show != 0 }),
{
    PopupChange::SetVisible { visible: show != 0 }
}

/// The popup has a new rectangle, where one is given.
pub fn handle_popup_size(rect: Option<Rect>) -> (change: Option<PopupChange>)
    ensures
        change == (match rect {
            Some(rect) => Some(
                PopupChange::SetRect {
                    x: rect.x,
                    y: rect.y,
                    width: rect.width,
                    height: rect.height,
                },
            ),
            None => None,
        }),
{
    match rect {
        Some(rect) => Some(
            PopupChange::SetRect { x: rect.x, y: rect.y, width: rect.width, height: rect.height },
        ),
        None => None,
    }
}

/// The caret that belongs to some character bounds: it stands at the last one.
pub open spec fn caret_of(bounds: Seq<Rect>) -> ImeCompositionRange
    recommends
        bounds.len() > 0,
{
    ImeCompositionRange {
        caret_x: bounds.last().x,
        caret_y: bounds.last().y,
        caret_height: bounds.last().height,
    }
}

/// The queues after a composition has moved. Without character bounds nothing
/// changes.
pub open spec fn caret_moved(
    queues: EventQueuesModel,
    character_bounds: Option<&[Rect]>,
) -> EventQueuesModel {
    match character_bounds {
        Some(bounds) => if bounds@.len() > 0 {
            queues.with_ime_composition_range(caret_of(bounds@))
        } else {
            queues
        },
        None => queues,
    }
}

/// The characters of an ongoing composition have moved.
pub fn on_ime_composition_range_changed(
    character_bounds: Option<&[Rect]>,
    event_queues: Option<&mut EventQueues>,
)
    ensures
        event_queues matches Some(queues) ==> final(queues)@ == caret_moved(
            queues@,
            character_bounds,
        ),
{
    if let Some(bounds) = character_bounds {
        if bounds.len() > 0 {
            let last: Rect = bounds[bounds.len() - 1];
            if let Some(queues) = event_queues {
                queues.ime_composition_range = Some(
                    ImeCompositionRange {
                        caret_x: last.x,
                        caret_y: last.y,
                        caret_height: last.height,
                    },
                );
            }
        }
    }
}

/// CEF's number for the page itself.
pub const PAINT_VIEW: u32 = 0;

/// CEF's number for the popup widget.
pub const PAINT_POPUP: u32 = 1;

/// What a paint callback has painted.
#[derive(Clone, Copy, Debug, PartialEq, Eq, Structural)]
pub enum PaintTarget {
    /// The page.
    View,
    /// The popup widget over it.
    Popup,
}

/// The element that a CEF number stands for.
pub open spec fn painted_element(code: u32) -> Option<PaintTarget> {
    if code == PAINT_VIEW {
        Some(PaintTarget::View)
    } else if code == PAINT_POPUP {
        Some(PaintTarget::Popup)
    } else {
        None
    }
}

/// Finds the element that a CEF number stands for.
pub fn paint_target(code: u32) -> (target: Option<PaintTarget>)
    ensures
        target == painted_element(code),
{
    if code == PAINT_VIEW {
        Some(PaintTarget::View)
    } else if code == PAINT_POPUP {
        Some(PaintTarget::Popup)
    } else {
        None
    }
}

/// Pixels in RGBA order, with their extent.
#[derive(Debug, PartialEq)]
pub struct PaintedPixels {
    pub rgba: Vec<u8>,
    pub width: u32,
    pub height: u32,
}

/// A paint callback carries an extent with an area.
pub open spec fn has_area(width: i32, height: i32) -> bool {
    width > 0 && height > 0
}

/// The number of bytes of a painted buffer, where it has an area.
pub fn paint_buffer_size(width: i32, height: i32) -> (size: Option<usize>)
    requires
        has_area(width, height) ==> width * height * 4 <= u32::MAX,
    ensures
        size is Some <==> has_area(width, height),
        size matches Some(bytes) ==> bytes == width * height * 4,
{
    if width <= 0 || height <= 0 {
        return None;
    }
    let columns: u32 = width as u32;
    let rows: u32 = height as u32;
    assert(columns * rows <= columns * rows * 4) by (nonlinear_arith);
    let pixels: u32 = columns * rows;
    let bytes: u32 = pixels * 4;
    Some(bytes as usize)
}

/// What a paint callback hands on: the pixels of a buffer that is there and has
/// an area, in RGBA order.
pub open spec fn hands_on(
    painted: Option<PaintedPixels>,
    wanted: bool,
    buffer: Option<&[u8]>,
    width: i32,
    height: i32,
) -> bool {
    match painted {
        Some(pixels) => {
            &&& wanted
            &&& has_area(width, height)
            &&& buffer matches Some(bgra)
            &&& pixels.rgba@ == rgba_of(bgra@)
            &&& pixels.width == width
            &&& pixels.height == height
        },
        None => !wanted || buffer is None || !has_area(width, height),
    }
}

/// Converts a painted buffer that is there and has an area.
fn convert_buffer(buffer: Option<&[u8]>, width: i32, height: i32) -> (painted: Option<
    PaintedPixels,
>)
    ensures
        hands_on(painted, true, buffer, width, height),
{
    if width <= 0 || height <= 0 {
        return None;
    }
    match buffer {
        Some(bgra) => Some(
            PaintedPixels {
                rgba: bgra_to_rgba(bgra),
                width: width as u32,
                height: height as u32,
            },
        ),
        None => None,
    }
}

/// Takes what the software renderer painted: the page or the popup.
pub fn on_software_paint(
    element: &cef::PaintElementType,
    buffer: Option<&[u8]>,
    width: i32,
    height: i32,
) -> (painted: Option<(PaintTarget, PaintedPixels)>)
    ensures
        match painted {
            Some(paint) => painted_element(paint_element_number(*element)) == Some(paint.0)
                && hands_on(Some(paint.1), true, buffer, width, height),
            None => hands_on(
                None,
                painted_element(paint_element_number(*element)) is Some,
                buffer,
                width,
                height,
            ),
        },
{
    match paint_target(paint_element_code(element)) {
        Some(target) => match convert_buffer(buffer, width, height) {
            Some(pixels) => Some((target, pixels)),
            None => None,
        },
        None => None,
    }
}

/// Takes what the accelerated renderer painted into memory: only the popup.
pub fn on_accelerated_popup_paint(
    element: &cef::PaintElementType,
    buffer: Option<&[u8]>,
    width: i32,
    height: i32,
) -> (painted: Option<PaintedPixels>)
    ensures
        hands_on(
            painted,
            painted_element(paint_element_number(*element)) == Some(PaintTarget::Popup),
            buffer,
            width,
            height,
        ),
{
    match paint_target(paint_element_code(element)) {
        Some(PaintTarget::Popup) => convert_buffer(buffer, width, height),
        _ => None,
    }
}

} // verus!
