//! The redraw planner: decides, for a scroll offset and a terminal
//! size, exactly what every screen row must show.
//!
//! A redraw always covers the whole screen: the plan holds one entry
//! per terminal row, top to bottom. Rows past the end of the file get
//! an empty text, so stale content below a shorter view is cleared
//! rather than left standing.

use vstd::prelude::*;
use vstd::string::StringExecFns;
use crate::layout::{
    center_clip, graphemes_of, layout_row, left_pad_of, strip_newline, visible_of, CenteredLine,
};

verus! {

/// The graphemes shown on screen row `i` when `off` lines are skipped
/// from the top: line `off + i` without its terminating newline, or
/// nothing when that line lies past the end of the file.
pub open spec fn row_graphemes(lines: Seq<Seq<char>>, off: nat, i: nat) -> Seq<Seq<char>> {
    if off + i < lines.len() {
        strip_newline(graphemes_of(lines[(off + i) as int]))
    } else {
        Seq::empty()
    }
}

/// One row of a redraw plan: which screen row to address, how many
/// blank columns precede the text, and the text itself. The row's old
/// content is always cleared before the text is written, so an empty
/// text leaves the row blank.
pub struct RowPaint {
    pub row: usize,
    pub left_pad: usize,
    pub text: String,
}

/// What a correct plan entry for screen row `i` says: it addresses row
/// `i`, pads as the layout engine demands, and its text is the visible
/// graphemes of the line, concatenated.
pub open spec fn row_paint_ok(
    p: RowPaint,
    lines: Seq<Seq<char>>,
    off: nat,
    i: nat,
    w: nat,
) -> bool {
    let gs = row_graphemes(lines, off, i);
    &&& p.row == i
    &&& p.left_pad == left_pad_of(gs, w)
    &&& p.text@ == visible_of(gs, w).flatten()
}

/// Concatenates grapheme clusters back into one string.
fn join_graphemes(gs: &Vec<String>) -> (r: String)
    ensures
        r@ == gs.deep_view().flatten(),
{
    let mut r = String::new();
    let mut i: usize = 0;
    while i < gs.len()
        invariant
            i <= gs.len(),
            r@ == gs.deep_view().take(i as int).flatten(),
        decreases gs.len() - i,
    {
        r.append(gs[i].as_str());
        proof {
            let dv = gs.deep_view();
            assert(dv.take(i + 1) =~= dv.take(i as int).push(dv[i as int]));
            dv.take(i as int).lemma_flatten_push(dv[i as int]);
            assert(gs@[i as int]@ == dv[i as int]);
        }
        i = i + 1;
    }
    proof {
        assert(gs.deep_view().take(gs@.len() as int) =~= gs.deep_view());
    }
    r
}

/// Plans a full redraw: one entry per screen row, top to bottom,
/// exactly `height` of them whatever the file holds. Row `i` shows
/// line `offset + i` centered or clipped to `width` columns, and rows
/// past the last line are blank.
pub fn plan_redraw(lines: &Vec<String>, offset: usize, width: usize, height: usize) -> (r: Vec<
    RowPaint,
>)
    ensures
        r@.len() == height as int,
        forall|i: int|
            0 <= i < height ==> row_paint_ok(
                #[trigger] r@[i],
                lines.deep_view(),
                offset as nat,
                i as nat,
                width as nat,
            ),
{
    let n: usize = lines.len();
    let have: usize = if offset < n {
        n - offset
    } else {
        0
    };
    let mut r: Vec<RowPaint> = Vec::new();
    let mut i: usize = 0;
    while i < height
        invariant
            i <= height,
            r@.len() == i as int,
            n == lines@.len(),
            have == (if (offset as int) < lines@.len() {
                lines@.len() - offset
            } else {
                0
            }),
            forall|j: int|
                0 <= j < i ==> row_paint_ok(
                    #[trigger] r@[j],
                    lines.deep_view(),
                    offset as nat,
                    j as nat,
                    width as nat,
                ),
        decreases height - i,
    {
        let cl: CenteredLine = if i < have {
            proof {
                assert(offset + i < lines@.len());
                assert(lines.deep_view()[offset + i] == lines@[offset + i]@);
            }
            layout_row(lines[offset + i].as_str(), width)
        } else {
            let empty: Vec<String> = Vec::new();
            proof {
                assert(empty.deep_view() =~= Seq::<Seq<char>>::empty());
            }
            center_clip(empty, width)
        };
        let text = join_graphemes(&cl.visible);
        let ghost gs = row_graphemes(lines.deep_view(), offset as nat, i as nat);
        proof {
            assert(cl.visible.deep_view() == visible_of(gs, width as nat));
            assert(cl.left_pad == left_pad_of(gs, width as nat));
        }
        r.push(RowPaint { row: i, left_pad: cl.left_pad, text });
        i = i + 1;
    }
    r
}

} // verus!
