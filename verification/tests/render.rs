use gdcef::events::{EventQueues, ImeCompositionRange};
use gdcef::render::{
    compute_screen_info, compute_screen_point, compute_view_rect, handle_popup_show,
    handle_popup_size, on_accelerated_popup_paint, on_ime_composition_range_changed,
    on_software_paint, paint_buffer_size, paint_target, LogicalSize, PaintTarget, PaintedPixels,
    PopupChange, Rect,
};

#[test]
fn the_view_rectangle_takes_the_size_of_the_view() {
    let mut rect = Rect { x: 3, y: 4, width: 1, height: 2 };
    compute_view_rect(Some(LogicalSize { width: 640, height: 480 }), Some(&mut rect));
    assert_eq!(rect, Rect { x: 3, y: 4, width: 640, height: 480 });
    compute_view_rect(None, Some(&mut rect));
    assert_eq!(rect, Rect { x: 3, y: 4, width: 640, height: 480 });
    compute_view_rect(Some(LogicalSize { width: 1, height: 1 }), None);
}

#[test]
fn the_scale_factor_is_filled_in() {
    let mut factor = 1.0f32;
    assert_eq!(compute_screen_info(Some(&mut factor), 1.5), 1);
    assert_eq!(factor, 1.5);
    assert_eq!(compute_screen_info(None, 1.5f32), 0);
}

#[test]
fn screen_points_are_view_points() {
    let (mut x, mut y) = (0, 0);
    assert_eq!(compute_screen_point(-7, 9, Some(&mut x), Some(&mut y)), 1);
    assert_eq!((x, y), (-7, 9));
    assert_eq!(compute_screen_point(1, 2, None, Some(&mut y)), 1);
    assert_eq!((x, y), (-7, 2));
}

#[test]
fn popups_appear_and_move() {
    assert_eq!(handle_popup_show(1), PopupChange::SetVisible { visible: true });
    assert_eq!(handle_popup_show(-1), PopupChange::SetVisible { visible: true });
    assert_eq!(handle_popup_show(0), PopupChange::SetVisible { visible: false });
    assert_eq!(
        handle_popup_size(Some(Rect { x: 1, y: 2, width: 3, height: 4 })),
        Some(PopupChange::SetRect { x: 1, y: 2, width: 3, height: 4 })
    );
    assert_eq!(handle_popup_size(None), None);
}

#[test]
fn the_caret_stands_at_the_last_character() {
    let mut queues = EventQueues::new();
    let bounds = [
        Rect { x: 1, y: 2, width: 3, height: 4 },
        Rect { x: 5, y: 6, width: 7, height: 8 },
    ];
    on_ime_composition_range_changed(Some(&bounds), Some(&mut queues));
    let caret = Some(ImeCompositionRange { caret_x: 5, caret_y: 6, caret_height: 8 });
    assert_eq!(queues.ime_composition_range, caret);
    on_ime_composition_range_changed(Some(&[]), Some(&mut queues));
    on_ime_composition_range_changed(None, Some(&mut queues));
    assert_eq!(queues.ime_composition_range, caret);
}

#[test]
fn buffers_have_four_bytes_a_pixel() {
    assert_eq!(paint_buffer_size(640, 480), Some(640 * 480 * 4));
    assert_eq!(paint_buffer_size(0, 480), None);
    assert_eq!(paint_buffer_size(640, -1), None);
}

#[test]
fn software_paints_go_to_their_target() {
    let bgra = [1u8, 2, 3, 4];
    let pixels = || PaintedPixels { rgba: vec![3, 2, 1, 4], width: 1, height: 1 };
    assert_eq!(
        on_software_paint(&cef::PaintElementType::VIEW, Some(&bgra), 1, 1),
        Some((PaintTarget::View, pixels()))
    );
    assert_eq!(
        on_software_paint(&cef::PaintElementType::POPUP, Some(&bgra), 1, 1),
        Some((PaintTarget::Popup, pixels()))
    );
    assert_eq!(on_software_paint(&cef::PaintElementType::VIEW, None, 1, 1), None);
    assert_eq!(on_software_paint(&cef::PaintElementType::VIEW, Some(&bgra), 0, 1), None);
    assert_eq!(on_software_paint(&cef::PaintElementType::VIEW, Some(&bgra), 1, -1), None);
}

#[test]
fn accelerated_rendering_paints_popups_only() {
    let bgra = [1u8, 2, 3, 4];
    assert_eq!(
        on_accelerated_popup_paint(&cef::PaintElementType::POPUP, Some(&bgra), 1, 1),
        Some(PaintedPixels { rgba: vec![3, 2, 1, 4], width: 1, height: 1 })
    );
    assert_eq!(on_accelerated_popup_paint(&cef::PaintElementType::VIEW, Some(&bgra), 1, 1), None);
    assert_eq!(on_accelerated_popup_paint(&cef::PaintElementType::POPUP, None, 1, 1), None);
}

#[test]
fn paint_numbers_name_elements() {
    assert_eq!(paint_target(0), Some(PaintTarget::View));
    assert_eq!(paint_target(1), Some(PaintTarget::Popup));
    assert_eq!(paint_target(2), None);
}
