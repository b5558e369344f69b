//! The grapheme layout engine: centers a short line in a row of a given
//! width, or clips a long one symmetrically to exactly that width.
//!
//! The unit of width is the extended grapheme cluster — one
//! user-perceived character, however many code points it takes — and
//! every cluster is assumed to occupy one terminal column (wide glyphs
//! are a known, accepted simplification).

use vstd::prelude::*;
use vstd::string::StringExecFns;
use unicode_segmentation::UnicodeSegmentation;

verus! {

/// The extended grapheme clusters of a string, in order. What the
/// segmentation yields on given characters is fixed by Unicode's rules
/// and is not spelled out here; it depends on the characters alone.
pub uninterp spec fn graphemes_of(s: Seq<char>) -> Seq<Seq<char>>;

/// Relies on unicode_segmentation's `UnicodeSegmentation::graphemes`
/// with extended clusters: the segmentation is a function of the
/// characters alone, and the clusters partition the string, so
/// concatenating them gives the string back.
#[verifier::external_body]
fn split_graphemes(line: &str) -> (r: Vec<String>)
    ensures
        r.deep_view() == graphemes_of(line@),
        r.deep_view().flatten() == line@,
{
    line.graphemes(true).map(|g| g.to_string()).collect()
}

/// A line prepared for one screen row: the grapheme clusters left
/// visible, and the count of blank columns to their left.
pub struct CenteredLine {
    pub visible: Vec<String>,
    pub left_pad: usize,
}

/// Blank columns to the left of a line of `gs.len()` graphemes in a row
/// `w` columns wide: half the leftover space, rounded down, when the
/// line fits; none when it is clipped.
pub open spec fn left_pad_of(gs: Seq<Seq<char>>, w: nat) -> nat {
    if gs.len() < w {
        ((w - gs.len()) / 2) as nat
    } else {
        0
    }
}

/// The graphemes left visible in a row `w` columns wide: the whole line
/// when it is shorter than the row, else exactly `w` graphemes taken
/// after skipping half the excess, rounded down, from the start — so an
/// odd excess drops one more grapheme at the end than at the start.
pub open spec fn visible_of(gs: Seq<Seq<char>>, w: nat) -> Seq<Seq<char>> {
    if gs.len() < w {
        gs
    } else {
        let skip = ((gs.len() - w) / 2) as int;
        gs.subrange(skip, skip + w as int)
    }
}

/// Centers or clips an already-segmented line for a row of `max_width`
/// columns, as `visible_of` and `left_pad_of` say.
pub fn center_clip(graphemes: Vec<String>, max_width: usize) -> (r: CenteredLine)
    ensures
        r.visible.deep_view() == visible_of(graphemes.deep_view(), max_width as nat),
        r.left_pad == left_pad_of(graphemes.deep_view(), max_width as nat),
{
    let width = graphemes.len();
    if width < max_width {
        CenteredLine { visible: graphemes, left_pad: (max_width - width) / 2 }
    } else {
        let skip = (width - max_width) / 2;
        let mut visible: Vec<String> = Vec::new();
        let mut i: usize = 0;
        while i < max_width
            invariant
                i <= max_width,
                max_width <= width,
                width == graphemes.len(),
                skip == ((width - max_width) as nat) / 2,
                skip + max_width <= width,
                visible.deep_view() =~= graphemes.deep_view().subrange(
                    skip as int,
                    skip + i as int,
                ),
            decreases max_width - i,
        {
            let ghost prev = visible@;
            let ghost prev_dv = visible.deep_view();
            proof {
                assert(prev_dv == Seq::new(prev.len(), |k: int| prev[k].deep_view()));
                assert(prev.len() == i);
            }
            let g = graphemes[skip + i].clone();
            proof {
                assert(g@ == graphemes@[skip + i]@);
                assert(graphemes.deep_view()[skip + i] == graphemes@[skip + i]@);
            }
            visible.push(g);
            proof {
                assert(visible@ == prev.push(g));
                assert forall|j: int| 0 <= j <= i implies visible.deep_view()[j]
                    == graphemes.deep_view()[skip + j] by {
                    assert(visible.deep_view()[j] == visible@[j].deep_view());
                    if j < i {
                        assert(visible@[j] == prev[j]);
                        assert(prev[j].deep_view() == prev_dv[j]);
                        assert(prev_dv[j] == graphemes.deep_view().subrange(
                            skip as int,
                            skip + i as int,
                        )[j]);
                    } else {
                        assert(visible@[j] == g);
                    }
                }
                assert(visible.deep_view() =~= graphemes.deep_view().subrange(
                    skip as int,
                    skip + i + 1,
                ));
            }
            i = i + 1;
        }
        let r = CenteredLine { visible, left_pad: 0 };
        assert(r.visible.deep_view() =~= visible_of(graphemes.deep_view(), max_width as nat));
        r
    }
}

/// Centers or clips `line` for a row of `max_width` columns. Pure: the
/// result is a function of the line's graphemes and the width alone,
/// and no input is rejected.
pub fn layout(line: &str, max_width: usize) -> (r: CenteredLine)
    ensures
        r.visible.deep_view() == visible_of(graphemes_of(line@), max_width as nat),
        r.left_pad == left_pad_of(graphemes_of(line@), max_width as nat),
{
    center_clip(split_graphemes(line), max_width)
}

/// A grapheme cluster that is nothing but a line break: a bare line
/// feed, or the single cluster a carriage return and line feed form.
pub open spec fn is_newline_cluster(g: Seq<char>) -> bool {
    g == seq!['\n'] || g == seq!['\r', '\n']
}

/// A line's graphemes with the terminating newline cluster, if any,
/// removed: the newline that a line-oriented read keeps never takes
/// part in layout.
pub open spec fn strip_newline(gs: Seq<Seq<char>>) -> Seq<Seq<char>> {
    if gs.len() > 0 && is_newline_cluster(gs.last()) {
        gs.drop_last()
    } else {
        gs
    }
}

fn is_newline_grapheme(g: &String) -> (r: bool)
    ensures
        r == is_newline_cluster(g@),
{
    proof {
        reveal_strlit("\n");
        reveal_strlit("\r\n");
    }
    let lf: String = String::from_str("\n");
    let crlf: String = String::from_str("\r\n");
    let r = *g == lf || *g == crlf;
    proof {
        assert(seq!['\n'] =~= "\n"@);
        assert(seq!['\r', '\n'] =~= "\r\n"@);
    }
    r
}

/// Lays out one line as read from the file for a row of `max_width`
/// columns: the terminating newline, if the read kept one, is dropped
/// first, then the rest is centered or clipped as `layout` does.
pub fn layout_row(line: &str, max_width: usize) -> (r: CenteredLine)
    ensures
        r.visible.deep_view() == visible_of(strip_newline(graphemes_of(line@)), max_width as nat),
        r.left_pad == left_pad_of(strip_newline(graphemes_of(line@)), max_width as nat),
{
    let mut gs = split_graphemes(line);
    let ghost all = gs.deep_view();
    if gs.len() > 0 {
        let last_idx = gs.len() - 1;
        if is_newline_grapheme(&gs[last_idx]) {
            proof {
                assert(all[all.len() - 1] == gs@[last_idx as int]@);
                assert(is_newline_cluster(all.last()));
            }
            gs.pop();
            proof {
                let n = all.len() - 1;
                assert forall|j: int| 0 <= j < n implies gs.deep_view()[j] == all[j] by {
                    assert(gs.deep_view()[j] == gs@[j].deep_view());
                }
                assert(gs.deep_view() =~= all.drop_last());
            }
        }
    }
    proof {
        assert(gs.deep_view() == strip_newline(all));
    }
    center_clip(gs, max_width)
}

/// Centering determinism: the layout of a line is pinned uniquely by
/// its graphemes and the width, so any two results that meet the
/// layout contract on the same inputs are equal.
pub proof fn lemma_layout_deterministic(
    gs: Seq<Seq<char>>,
    w: nat,
    v1: Seq<Seq<char>>,
    p1: nat,
    v2: Seq<Seq<char>>,
    p2: nat,
)
    requires
        v1 == visible_of(gs, w),
        p1 == left_pad_of(gs, w),
        v2 == visible_of(gs, w),
        p2 == left_pad_of(gs, w),
    ensures
        v1 == v2,
        p1 == p2,
{
}

/// Width conservation, pad case: a line shorter than the row passes
/// through unchanged, and padding plus text stays strictly inside the
/// row — the right side is never padded.
pub proof fn lemma_pad_case(gs: Seq<Seq<char>>, w: nat)
    requires
        gs.len() < w,
    ensures
        visible_of(gs, w) == gs,
        left_pad_of(gs, w) + visible_of(gs, w).len() < w,
{
}

/// Width conservation, clip case: a line at least as long as the row is
/// cut to exactly the row's width, with no left padding.
pub proof fn lemma_clip_case(gs: Seq<Seq<char>>, w: nat)
    requires
        gs.len() >= w,
    ensures
        visible_of(gs, w).len() == w,
        left_pad_of(gs, w) == 0,
{
}

/// Tie-break: a line one grapheme longer than the row loses exactly
/// that one grapheme, and loses it from the end, not the start.
pub proof fn lemma_tie_break(gs: Seq<Seq<char>>, w: nat)
    requires
        gs.len() == w + 1,
    ensures
        visible_of(gs, w) == gs.take(w as int),
{
    assert(visible_of(gs, w) =~= gs.take(w as int));
}

} // verus!
