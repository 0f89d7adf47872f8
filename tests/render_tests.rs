use icmt::graphics::{Color, Dim, Elm, Fill, Node, Out, Pos, Rect, RenderOutcome, TextAtts};
use icmt::render::{
    byte_ceil, coord_ceil, draw_elm, nat_ceil, redraw, translate_color, translate_rect, DrawOp,
    PixelRect, Rgb,
};

fn rect(x: u64, y: u64, w: u64, h: u64) -> Rect {
    Rect { pos: Pos { x, y }, dim: Dim { width: w, height: h } }
}

fn red() -> Color {
    Color { r: 255, g: 0, b: 0 }
}

fn black_background(w: u32, h: u32) -> DrawOp {
    DrawOp::FillRect(PixelRect { x: 0, y: 0, width: w, height: h }, Rgb { r: 0, g: 0, b: 0 })
}

#[test]
fn screen_redraw_draws_one_red_rectangle() {
    let elm = Elm::Rect(rect(0, 0, 10, 10), Fill::Closed(red()));
    let rr = RenderOutcome::Success(Out::Redraw(vec![("screen".to_string(), elm)]));
    let frame = redraw(&Dim { width: 320, height: 240 }, &rr);
    assert!(!frame.skipped);
    assert_eq!(
        frame.ops,
        vec![
            black_background(320, 240),
            DrawOp::FillRect(PixelRect { x: 0, y: 0, width: 10, height: 10 }, Rgb { r: 255, g: 0, b: 0 }),
        ]
    );
}

#[test]
fn redraw_without_screen_entry_draws_nothing() {
    let elm = Elm::Rect(rect(0, 0, 10, 10), Fill::Closed(red()));
    let rr = RenderOutcome::Success(Out::Redraw(vec![("scoreboard".to_string(), elm)]));
    let frame = redraw(&Dim { width: 320, height: 240 }, &rr);
    assert!(frame.skipped);
    assert!(frame.ops.is_empty());
}

#[test]
fn redraw_with_two_entries_draws_nothing() {
    let a = Elm::Rect(rect(0, 0, 10, 10), Fill::Closed(red()));
    let b = Elm::Rect(rect(0, 0, 10, 10), Fill::Closed(red()));
    let rr = RenderOutcome::Success(Out::Redraw(vec![("screen".to_string(), a), ("screen".to_string(), b)]));
    let frame = redraw(&Dim { width: 320, height: 240 }, &rr);
    assert!(frame.skipped);
    assert!(frame.ops.is_empty());
}

#[test]
fn failed_draw_outcome_is_still_drawn() {
    let elm = Elm::Rect(rect(1, 2, 3, 4), Fill::Open(Color { r: 0, g: 255, b: 0 }, 7));
    let rr = RenderOutcome::Failure(Out::Draw(elm));
    let frame = redraw(&Dim { width: 5, height: 6 }, &rr);
    assert!(!frame.skipped);
    assert_eq!(
        frame.ops,
        vec![
            black_background(5, 6),
            DrawOp::OutlineRect(PixelRect { x: 1, y: 2, width: 3, height: 4 }, Rgb { r: 0, g: 255, b: 0 }),
        ]
    );
}

#[test]
fn color_channel_over_a_byte_saturates() {
    assert_eq!(byte_ceil(256), 255);
    assert_eq!(byte_ceil(1000), 255);
    assert_eq!(byte_ceil(255), 255);
    assert_eq!(byte_ceil(17), 17);
    assert_eq!(translate_color(&Color { r: 300, g: 256, b: 12 }), Rgb { r: 255, g: 255, b: 12 });
}

#[test]
fn zero_area_draws_nothing() {
    let mut ops = vec![];
    draw_elm(&mut ops, &Pos { x: 0, y: 0 }, &Elm::Rect(rect(3, 3, 0, 10), Fill::Closed(red())));
    draw_elm(&mut ops, &Pos { x: 0, y: 0 }, &Elm::Rect(rect(3, 3, 10, 0), Fill::Open(red(), 2)));
    assert!(ops.is_empty());
    let frame = redraw(&Dim { width: 0, height: 0 }, &RenderOutcome::Success(Out::Draw(Elm::Rect(rect(0, 0, 0, 0), Fill::Closed(red())))));
    assert!(frame.ops.is_empty());
}

#[test]
fn nodes_compose_offsets() {
    let child = Elm::Rect(rect(1, 2, 3, 4), Fill::Closed(red()));
    let inner = Elm::Node(Node { rect: rect(10, 20, 5, 5), fill: Fill::Blank, elms: vec![child] });
    let outer = Elm::Node(Node {
        rect: rect(100, 200, 50, 60),
        fill: Fill::Closed(Color { r: 1, g: 2, b: 3 }),
        elms: vec![inner, Elm::Text("hi".to_string(), TextAtts { zoom: 1, fg_color: red(), bg_color: red() })],
    });
    let mut ops = vec![];
    draw_elm(&mut ops, &Pos { x: 1000, y: 2000 }, &outer);
    assert_eq!(
        ops,
        vec![
            DrawOp::FillRect(PixelRect { x: 1100, y: 2200, width: 50, height: 60 }, Rgb { r: 1, g: 2, b: 3 }),
            DrawOp::FillRect(PixelRect { x: 1111, y: 2222, width: 3, height: 4 }, Rgb { r: 255, g: 0, b: 0 }),
        ]
    );
}

#[test]
fn outline_ignores_stroke_width() {
    let mut ops = vec![];
    draw_elm(&mut ops, &Pos { x: 0, y: 0 }, &Elm::Rect(rect(0, 0, 8, 8), Fill::Open(red(), 5)));
    assert_eq!(ops, vec![DrawOp::OutlineRect(PixelRect { x: 0, y: 0, width: 8, height: 8 }, Rgb { r: 255, g: 0, b: 0 })]);
}

#[test]
fn large_quantities_saturate_at_canvas_widths() {
    assert_eq!(nat_ceil(u64::MAX), u32::MAX);
    assert_eq!(nat_ceil(7), 7);
    assert_eq!(coord_ceil(u64::MAX), i32::MAX);
    assert_eq!(coord_ceil(1u64 << 31), i32::MAX);
    assert_eq!(coord_ceil(12), 12);
    let p = translate_rect(&Pos { x: u64::MAX, y: 5 }, &rect(u64::MAX, 6, 1u64 << 40, 9));
    assert_eq!(p, PixelRect { x: i32::MAX, y: 11, width: u32::MAX, height: 9 });
}
