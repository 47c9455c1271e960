//! What the render callbacks compute, stated over what they are given.

use crate::codes::paint_element_number;
use crate::events::{EventQueues, EventQueuesModel};
use crate::pixels::bgra_to_rgba;
use crate::render::{
    compute_screen_info, compute_screen_point, compute_view_rect, handle_popup_show,
    handle_popup_size, on_accelerated_popup_paint, on_ime_composition_range_changed,
    on_software_paint, paint_buffer_size, paint_target, LogicalSize, PaintTarget, PaintedPixels,
    PopupChange, Rect,
};
use vstd::prelude::*;

verus! {

/// The conversion keeps the length of a buffer; in every whole pixel red and
/// blue change places while green and alpha stay; and bytes behind the last
/// whole pixel become zero.
pub proof fn the_conversion_swaps_red_and_blue(
    bgra: &[u8],
    rgba: Vec<u8>,
    pixel: int,
    rest: int,
)
    requires
        call_ensures(bgra_to_rgba, (bgra,), rgba),
    ensures
        rgba@.len() == bgra@.len(),
        0 <= pixel && 4 * pixel + 4 <= bgra@.len() ==> {
            &&& rgba@[4 * pixel] == bgra@[4 * pixel + 2]
            &&& rgba@[4 * pixel + 1] == bgra@[4 * pixel + 1]
            &&& rgba@[4 * pixel + 2] == bgra@[4 * pixel]
            &&& rgba@[4 * pixel + 3] == bgra@[4 * pixel + 3]
        },
        0 <= rest < bgra@.len() && bgra@.len() < 4 * (rest / 4) + 4 ==> rgba@[rest] == 0,
{
}

/// The two CEF numbers for painted elements stand for the page and the popup,
/// and no other number stands for anything.
pub proof fn paint_numbers_have_their_targets(code: u32, target: Option<PaintTarget>)
    requires
        call_ensures(paint_target, (code,), target),
    ensures
        target == Some(PaintTarget::View) <==> code == 0,
        target == Some(PaintTarget::Popup) <==> code == 1,
        target is None <==> code > 1,
{
}

/// A painted buffer has four bytes for each pixel, where its extent has an area.
pub proof fn a_painted_buffer_has_four_bytes_a_pixel(
    width: i32,
    height: i32,
    size: Option<usize>,
)
    requires
        call_ensures(paint_buffer_size, (width, height), size),
    ensures
        size is Some <==> width > 0 && height > 0,
        size is Some ==> size->0 == 4 * (width * height),
{
    assert(width * height * 4 == 4 * (width * height)) by (nonlinear_arith);
}

/// The software renderer's pixels are handed on exactly where the element is the
/// page or the popup, the buffer is there and the extent has an area.
pub proof fn software_pixels_are_handed_on(
    element: &cef::PaintElementType,
    buffer: Option<&[u8]>,
    width: i32,
    height: i32,
    painted: Option<(PaintTarget, PaintedPixels)>,
)
    requires
        call_ensures(on_software_paint, (element, buffer, width, height), painted),
    ensures
        painted is Some <==> paint_element_number(*element) <= 1 && buffer is Some && width > 0
            && height > 0,
        painted is Some ==> {
            &&& (painted->0).0 == PaintTarget::View <==> paint_element_number(*element) == 0
            &&& (painted->0).0 == PaintTarget::Popup <==> paint_element_number(*element) == 1
        },
{
}

/// The pixels that the software renderer hands on have the extent of the
/// callback, as many bytes as its buffer, and in every whole pixel the channels
/// of that buffer in RGBA order.
pub proof fn software_pixels_are_those_of_the_buffer(
    element: &cef::PaintElementType,
    buffer: Option<&[u8]>,
    width: i32,
    height: i32,
    painted: Option<(PaintTarget, PaintedPixels)>,
    pixel: int,
)
    requires
        call_ensures(on_software_paint, (element, buffer, width, height), painted),
        painted is Some,
    ensures
        (painted->0).1.width == width,
        (painted->0).1.height == height,
        (painted->0).1.rgba@.len() == buffer->0@.len(),
        0 <= pixel && 4 * pixel + 4 <= buffer->0@.len() ==> {
            &&& (painted->0).1.rgba@[4 * pixel] == buffer->0@[4 * pixel + 2]
            &&& (painted->0).1.rgba@[4 * pixel + 1] == buffer->0@[4 * pixel + 1]
            &&& (painted->0).1.rgba@[4 * pixel + 2] == buffer->0@[4 * pixel]
            &&& (painted->0).1.rgba@[4 * pixel + 3] == buffer->0@[4 * pixel + 3]
        },
{
}

/// The accelerated renderer's pixels are handed on exactly where the element is
/// the popup, the buffer is there and the extent has an area. They have the
/// extent of the callback and the channels of its buffer in RGBA order.
pub proof fn popup_pixels_are_those_of_the_buffer(
    element: &cef::PaintElementType,
    buffer: Option<&[u8]>,
    width: i32,
    height: i32,
    painted: Option<PaintedPixels>,
    pixel: int,
)
    requires
        call_ensures(on_accelerated_popup_paint, (element, buffer, width, height), painted),
    ensures
        painted is Some <==> paint_element_number(*element) == 1 && buffer is Some && width > 0
            && height > 0,
        painted is Some ==> painted->0.width == width && painted->0.height == height,
        painted is Some ==> painted->0.rgba@.len() == buffer->0@.len(),
        painted is Some && 0 <= pixel && 4 * pixel + 4 <= buffer->0@.len() ==> {
            &&& painted->0.rgba@[4 * pixel] == buffer->0@[4 * pixel + 2]
            &&& painted->0.rgba@[4 * pixel + 1] == buffer->0@[4 * pixel + 1]
            &&& painted->0.rgba@[4 * pixel + 2] == buffer->0@[4 * pixel]
            &&& painted->0.rgba@[4 * pixel + 3] == buffer->0@[4 * pixel + 3]
        },
{
}

/// Whoever paints, the pixels that are handed on are the buffer as
/// `bgra_to_rgba` converts it, byte for byte.
pub proof fn painted_pixels_are_converted(
    element: &cef::PaintElementType,
    bgra: &[u8],
    width: i32,
    height: i32,
    converted: Vec<u8>,
    in_software: Option<(PaintTarget, PaintedPixels)>,
    accelerated: Option<PaintedPixels>,
)
    requires
        call_ensures(bgra_to_rgba, (bgra,), converted),
        call_ensures(on_software_paint, (element, Some(bgra), width, height), in_software),
        call_ensures(on_accelerated_popup_paint, (element, Some(bgra), width, height), accelerated),
    ensures
        in_software is Some ==> (in_software->0).1.rgba@ == converted@,
        accelerated is Some ==> accelerated->0.rgba@ == converted@,
{
}

/// The view rectangle takes the size of the view and keeps its origin; where the
/// size is not known, it stays as it is.
pub proof fn the_view_rectangle_takes_the_size_of_the_view(
    size: Option<LogicalSize>,
    rect: Option<&mut Rect>,
)
    requires
        call_ensures(compute_view_rect, (size, rect), ()),
    ensures
        rect matches Some(r) ==> {
            &&& final(r).x == r.x
            &&& final(r).y == r.y
            &&& size is Some ==> final(r).width == size->0.width && final(r).height
                == size->0.height
            &&& size is None ==> final(r).width == r.width && final(r).height == r.height
        },
{
}

/// A scale factor is filled in with the given one, and the result tells whether
/// there was one to fill in.
pub proof fn the_scale_factor_is_filled_in<F>(factor: Option<&mut F>, scale: F, filled: i32)
    requires
        call_ensures(compute_screen_info::<F>, (factor, scale), filled),
    ensures
        factor is Some ==> filled == 1,
        factor is None ==> filled == 0,
        factor matches Some(f) ==> *final(f) == scale,
{
}

/// Points of the view are points of the screen, coordinate by coordinate.
pub proof fn screen_points_are_view_points(
    view_x: i32,
    view_y: i32,
    screen_x: Option<&mut i32>,
    screen_y: Option<&mut i32>,
    translated: i32,
)
    requires
        call_ensures(compute_screen_point, (view_x, view_y, screen_x, screen_y), translated),
    ensures
        translated == 1,
        screen_x matches Some(x) ==> *final(x) == view_x,
        screen_y matches Some(y) ==> *final(y) == view_y,
{
}

/// The popup is visible exactly where it is shown, and takes the rectangle that
/// it is given, side by side.
pub proof fn popups_follow_the_browser(
    show: i32,
    shown: PopupChange,
    rect: Option<Rect>,
    moved: Option<PopupChange>,
)
    requires
        call_ensures(handle_popup_show, (show,), shown),
        call_ensures(handle_popup_size, (rect,), moved),
    ensures
        shown matches PopupChange::SetVisible { visible } && (visible <==> show != 0),
        moved is Some <==> rect is Some,
        moved is Some ==> {
            &&& moved->0 matches PopupChange::SetRect { x, y, width, height }
            &&& x == rect->0.x
            &&& y == rect->0.y
            &&& width == rect->0.width
            &&& height == rect->0.height
        },
{
}

/// The caret of a composition stands where its last character stands and is as
/// high. Without characters it stays where it was, and no event comes or goes.
pub proof fn the_caret_stands_at_the_last_character(
    bounds: Option<&[Rect]>,
    queues: Option<&mut EventQueues>,
)
    requires
        call_ensures(on_ime_composition_range_changed, (bounds, queues), ()),
    ensures
        bounds is None || bounds->0@.len() == 0 ==> (queues matches Some(q) ==> final(q)@ == q@),
        bounds is Some && bounds->0@.len() > 0 ==> (queues matches Some(q) ==> {
            let after = final(q)@;
            let last = bounds->0@[bounds->0@.len() - 1];
            let caret = final(q).ime_composition_range;
            &&& after == (EventQueuesModel {
                ime_composition_range: after.ime_composition_range,
                ..q@
            })
            &&& caret is Some
            &&& caret->0.caret_x == last.x
            &&& caret->0.caret_y == last.y
            &&& caret->0.caret_height == last.height
        }),
{
}

} // verus!
