//! Turns a scene tree into primitive draw operations for a pixel canvas.
//!
//! Scene quantities are wide integers; they saturate to the canvas's own
//! integer widths here, where they meet the canvas.
use vstd::prelude::*;
use crate::graphics::{nat_zero, Color, Dim, Elm, Fill, Out, Pos, Rect, RenderOutcome};

verus! {

/// Largest value of a canvas coordinate (a signed 32-bit integer).
pub const MAX_COORD: u64 = 0x7fff_ffff;

/// Largest value of a canvas extent (an unsigned 32-bit integer).
pub const MAX_EXTENT: u64 = 0xffff_ffff;

/// A color as the canvas takes it.
#[derive(Clone, Copy, Debug, PartialEq, Eq, Structural)]
pub struct Rgb {
    pub r: u8,
    pub g: u8,
    pub b: u8,
}

/// A rectangle as the canvas takes it.
#[derive(Clone, Copy, Debug, PartialEq, Eq, Structural)]
pub struct PixelRect {
    pub x: i32,
    pub y: i32,
    pub width: u32,
    pub height: u32,
}

/// One primitive canvas operation.
#[derive(Clone, Copy, Debug, PartialEq, Eq, Structural)]
pub enum DrawOp {
    FillRect(PixelRect, Rgb),
    /// An outline one unit wide.
    OutlineRect(PixelRect, Rgb),
}

/// The operations of one redraw; the canvas is presented once after them.
#[derive(Debug)]
pub struct Frame {
    pub ops: Vec<DrawOp>,
    /// The outcome named no recognised target and nothing was drawn.
    pub skipped: bool,
}

pub open spec fn clamp(n: int, hi: int) -> int {
    if n > hi {
        hi
    } else {
        n
    }
}

/// Sum of two scene quantities, saturating at the 64-bit bound.
pub open spec fn sat_add(a: u64, b: u64) -> u64 {
    clamp(a + b, u64::MAX as int) as u64
}

pub open spec fn origin() -> Pos {
    Pos { x: 0, y: 0 }
}

pub open spec fn color_spec(c: Color) -> Rgb {
    Rgb { r: clamp(c.r as int, 255) as u8, g: clamp(c.g as int, 255) as u8, b: clamp(c.b as int, 255) as u8 }
}

/// Rectangle `r` placed at offset `pos`, in canvas units.
pub open spec fn rect_spec(pos: Pos, r: Rect) -> PixelRect {
    PixelRect {
        x: clamp(pos.x + r.pos.x, MAX_COORD as int) as i32,
        y: clamp(pos.y + r.pos.y, MAX_COORD as int) as i32,
        width: clamp(r.dim.width as int, MAX_EXTENT as int) as u32,
        height: clamp(r.dim.height as int, MAX_EXTENT as int) as u32,
    }
}

/// What painting rectangle `r` at offset `pos` with fill `f` draws; an area
/// of zero width or height draws nothing.
pub open spec fn fill_ops(pos: Pos, r: Rect, f: Fill) -> Seq<DrawOp> {
    if r.dim.width == 0 || r.dim.height == 0 {
        seq![]
    } else {
        match f {
            Fill::Blank => seq![],
            Fill::Closed(c) => seq![DrawOp::FillRect(rect_spec(pos, r), color_spec(c))],
            Fill::Open(c, _) => seq![DrawOp::OutlineRect(rect_spec(pos, r), color_spec(c))],
        }
    }
}

/// Offset `pos` moved by `by`.
pub open spec fn offset(pos: Pos, by: Pos) -> Pos {
    Pos { x: sat_add(pos.x, by.x), y: sat_add(pos.y, by.y) }
}

/// What drawing element `e` at offset `pos` draws.
pub open spec fn elm_ops(pos: Pos, e: Elm) -> Seq<DrawOp>
    decreases e,
{
    match e {
        Elm::Node(n) => {
            let p = offset(pos, n.rect.pos);
            fill_ops(p, Rect { pos: origin(), dim: n.rect.dim }, n.fill) + elms_ops(p, n.elms@)
        },
        Elm::Rect(r, f) => fill_ops(pos, r, f),
        Elm::Text(_, _) => seq![],
    }
}

/// What drawing the elements `elms` in order at offset `pos` draws.
pub open spec fn elms_ops(pos: Pos, elms: Seq<Elm>) -> Seq<DrawOp>
    decreases elms,
{
    if elms.len() == 0 {
        seq![]
    } else {
        elms_ops(pos, elms.subrange(0, elms.len() - 1)) + elm_ops(pos, elms[elms.len() - 1])
    }
}

/// Clamps a color channel to a byte.
pub fn byte_ceil(n: u64) -> (r: u8)
    ensures
        r == clamp(n as int, 255),
{
    if n > 255 {
        255
    } else {
        n as u8
    }
}

/// Clamps an extent to the canvas's extent width.
pub fn nat_ceil(n: u64) -> (r: u32)
    ensures
        r == clamp(n as int, MAX_EXTENT as int),
{
    if n > MAX_EXTENT {
        MAX_EXTENT as u32
    } else {
        n as u32
    }
}

/// Clamps a coordinate to the canvas's coordinate width.
pub fn coord_ceil(n: u64) -> (r: i32)
    ensures
        r == clamp(n as int, MAX_COORD as int),
{
    if n > MAX_COORD {
        MAX_COORD as i32
    } else {
        n as i32
    }
}

pub fn translate_color(c: &Color) -> (r: Rgb)
    ensures
        r == color_spec(*c),
{
    Rgb { r: byte_ceil(c.r), g: byte_ceil(c.g), b: byte_ceil(c.b) }
}

pub fn translate_rect(pos: &Pos, r: &Rect) -> (p: PixelRect)
    ensures
        p == rect_spec(*pos, *r),
{
    PixelRect {
        x: coord_ceil(pos.x.saturating_add(r.pos.x)),
        y: coord_ceil(pos.y.saturating_add(r.pos.y)),
        width: nat_ceil(r.dim.width),
        height: nat_ceil(r.dim.height),
    }
}

/// Appends the operations that paint rectangle `r` at offset `pos` with fill `f`.
pub fn draw_rect(ops: &mut Vec<DrawOp>, pos: &Pos, r: &Rect, f: &Fill)
    ensures
        final(ops)@ == old(ops)@ + fill_ops(*pos, *r, *f),
{
    if r.dim.width == 0 || r.dim.height == 0 {
        assert(fill_ops(*pos, *r, *f) =~= seq![]);
        return;
    }
    match f {
        Fill::Blank => {
            assert(fill_ops(*pos, *r, *f) =~= seq![]);
        },
        Fill::Closed(c) => {
            ops.push(DrawOp::FillRect(translate_rect(pos, r), translate_color(c)));
        },
        Fill::Open(c, _) => {
            ops.push(DrawOp::OutlineRect(translate_rect(pos, r), translate_color(c)));
        },
    }
}

/// Appends the operations of a node at offset `pos`: its own rectangle of
/// extent `dim` with `fill`, then each child in order at the same offset.
pub fn draw_rect_elms(ops: &mut Vec<DrawOp>, pos: &Pos, dim: &Dim, fill: &Fill, elms: &Vec<Elm>)
    ensures
        final(ops)@ == old(ops)@ + fill_ops(*pos, Rect { pos: origin(), dim: *dim }, *fill)
            + elms_ops(*pos, elms@),
    decreases elms@,
{
    draw_rect(ops, pos, &Rect { pos: Pos { x: 0, y: 0 }, dim: *dim }, fill);
    let ghost start = ops@;
    let mut i: usize = 0;
    while i < elms.len()
        invariant
            i <= elms.len(),
            ops@ == start + elms_ops(*pos, elms@.subrange(0, i as int)),
        decreases elms.len() - i,
    {
        assert(decreases_to!(elms@ => elms@[i as int]));
        draw_elm(ops, pos, &elms[i]);
        assert(elms@.subrange(0, i + 1).subrange(0, i as int) =~= elms@.subrange(0, i as int));
        i += 1;
    }
    assert(elms@.subrange(0, elms@.len() as int) =~= elms@);
}

/// Appends the operations that draw element `elm` at offset `pos`. A node is
/// placed at the offset moved by its own position, and so are its children;
/// text is not drawn.
pub fn draw_elm(ops: &mut Vec<DrawOp>, pos: &Pos, elm: &Elm)
    ensures
        final(ops)@ == old(ops)@ + elm_ops(*pos, *elm),
    decreases elm,
{
    match elm {
        Elm::Node(node) => {
            let p = Pos {
                x: pos.x.saturating_add(node.rect.pos.x),
                y: pos.y.saturating_add(node.rect.pos.y),
            };
            assert(decreases_to!(elm => node.elms@));
            draw_rect_elms(ops, &p, &node.rect.dim, &node.fill, &node.elms);
        },
        Elm::Rect(r, f) => {
            draw_rect(ops, pos, r, f);
        },
        Elm::Text(_, _) => {},
    }
}

/// The unwrapped content of a render outcome, successful or not.
pub open spec fn outcome_out(rr: RenderOutcome) -> Out {
    match rr {
        RenderOutcome::Success(o) => o,
        RenderOutcome::Failure(o) => o,
    }
}

/// The black rectangle that clears a window of extent `dim`.
pub open spec fn background_ops(dim: Dim) -> Seq<DrawOp> {
    fill_ops(origin(), Rect { pos: origin(), dim }, Fill::Closed(Color { r: 0, g: 0, b: 0 }))
}

/// A redraw list is shown only when it holds exactly one entry, named `screen`.
pub open spec fn is_screen_list(entries: Seq<(String, Elm)>) -> bool {
    entries.len() == 1 && entries[0].0@ == "screen"@
}

/// Whether showing `rr` skips it, drawing nothing.
pub open spec fn redraw_skips(rr: RenderOutcome) -> bool {
    match outcome_out(rr) {
        Out::Draw(_) => false,
        Out::Redraw(entries) => !is_screen_list(entries@),
    }
}

/// What showing `rr` in a window of extent `dim` draws: the cleared window,
/// then the element, placed at the origin.
pub open spec fn redraw_ops(dim: Dim, rr: RenderOutcome) -> Seq<DrawOp> {
    match outcome_out(rr) {
        Out::Draw(e) => background_ops(dim) + elm_ops(origin(), e),
        Out::Redraw(entries) => if is_screen_list(entries@) {
            background_ops(dim) + elm_ops(origin(), entries@[0].1)
        } else {
            seq![]
        },
    }
}

/// The frame that shows render outcome `rr` in a window of extent `dim`.
pub fn redraw(dim: &Dim, rr: &RenderOutcome) -> (f: Frame)
    ensures
        f.ops@ == redraw_ops(*dim, *rr),
        f.skipped == redraw_skips(*rr),
{
    let out = match rr {
        RenderOutcome::Success(o) => o,
        RenderOutcome::Failure(o) => o,
    };
    let origin = Pos { x: nat_zero(), y: nat_zero() };
    let black = Fill::Closed(Color { r: 0, g: 0, b: 0 });
    let mut ops: Vec<DrawOp> = Vec::new();
    match out {
        Out::Draw(e) => {
            draw_rect(&mut ops, &origin, &Rect { pos: origin, dim: *dim }, &black);
            draw_elm(&mut ops, &origin, e);
            Frame { ops, skipped: false }
        },
        Out::Redraw(entries) => {
            let screen = String::from_str("screen");
            if entries.len() == 1 && entries[0].0 == screen {
                draw_rect(&mut ops, &origin, &Rect { pos: origin, dim: *dim }, &black);
                draw_elm(&mut ops, &origin, &entries[0].1);
                Frame { ops, skipped: false }
            } else {
                assert(ops@ =~= seq![]);
                Frame { ops, skipped: true }
            }
        },
    }
}

/// At the canvas boundary a color channel of 256 or more is drawn as 255,
/// and a rectangle of zero width or height draws nothing, whatever its fill.
pub proof fn lemma_boundaries(c: Color, pos: Pos, r: Rect, f: Fill)
    ensures
        c.r >= 256 ==> color_spec(c).r == 255,
        c.g >= 256 ==> color_spec(c).g == 255,
        c.b >= 256 ==> color_spec(c).b == 255,
        r.dim.width == 0 || r.dim.height == 0 ==> fill_ops(pos, r, f) == Seq::<DrawOp>::empty(),
        r.dim.width == 0 || r.dim.height == 0 ==> elm_ops(pos, Elm::Rect(r, f))
            == Seq::<DrawOp>::empty(),
{
}

} // verus!
