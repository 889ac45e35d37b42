use vstd::prelude::*;

use crate::candidate_list::CANDI_NUM;

verus! {

/// Width of the strip that marks the highlighted row on the window's left edge.
pub const CLIP_WIDTH: u64 = 3;

pub const LABEL_PADDING_TOP: u64 = 4;

pub const LABEL_PADDING_BOTTOM: u64 = 4;

pub const LABEL_PADDING_LEFT: u64 = 5;

pub const LABEL_PADDING_RIGHT: u64 = 6;

/// Space between an index label and its candidate.
pub const INDEX_CANDI_GAP: u64 = 6;

/// Room given to each text box beyond the width its text measured.
pub const TEXT_BOX_SLACK: u64 = 10;

/// How far an all-ASCII candidate is raised to sit on the Bengali baseline.
pub const ASCII_RAISE: u64 = 3;

/// The largest size a measured text may have.
pub const MAX_EXTENT: u64 = 0xffff_ffff;

/// The size of a measured text, in device pixels.
#[derive(Clone, Copy, Debug, PartialEq, Eq)]
pub struct Extent {
    pub width: u32,
    pub height: u32,
}

/// The measured sizes of one item: its index label ("1.") and its candidate text.
#[derive(Clone, Copy, Debug, PartialEq, Eq)]
pub struct ItemMetrics {
    pub index: Extent,
    pub candidate: Extent,
}

/// An axis-aligned rectangle, in device pixels from the window's top left corner.
#[derive(Clone, Copy, Debug, PartialEq, Eq)]
pub struct Rect {
    pub left: u64,
    pub top: u64,
    pub width: u64,
    pub height: u64,
}

/// The geometry of the whole window.
#[derive(Clone, Copy, Debug, PartialEq, Eq)]
pub struct Layout {
    pub width: u64,
    pub height: u64,
    /// The tallest text of all items.
    pub row_height: u64,
    /// The height of one row: `row_height` and the top and bottom padding.
    pub label_height: u64,
    /// The widest index label of all items.
    pub index_width: u64,
    pub highlight: Rect,
    pub clip: Rect,
}

/// Where one item's two texts are drawn, and whether it is the highlighted one.
#[derive(Clone, Copy, Debug, PartialEq, Eq)]
pub struct ItemPlacement {
    pub label: Rect,
    pub candidate: Rect,
    pub highlighted: bool,
}

pub open spec fn max_int(a: int, b: int) -> int {
    if a >= b {
        a
    } else {
        b
    }
}

/// The smallest whole number not below `a / b`.
pub open spec fn ceil_div(a: int, b: int) -> int
    recommends
        b > 0,
{
    (a + b - 1) / b
}

pub open spec fn max_index_width(m: Seq<ItemMetrics>) -> int
    decreases m.len(),
{
    if m.len() == 0 {
        0
    } else {
        max_int(max_index_width(m.drop_last()), m.last().index.width as int)
    }
}

pub open spec fn max_candidate_width(m: Seq<ItemMetrics>) -> int
    decreases m.len(),
{
    if m.len() == 0 {
        0
    } else {
        max_int(max_candidate_width(m.drop_last()), m.last().candidate.width as int)
    }
}

/// The tallest text, label or candidate, of all items.
pub open spec fn row_height(m: Seq<ItemMetrics>) -> int
    decreases m.len(),
{
    if m.len() == 0 {
        0
    } else {
        max_int(
            row_height(m.drop_last()),
            max_int(m.last().index.height as int, m.last().candidate.height as int),
        )
    }
}

pub open spec fn label_height(m: Seq<ItemMetrics>) -> int {
    LABEL_PADDING_TOP + row_height(m) + LABEL_PADDING_BOTTOM
}

/// The width one item takes in a row: padding, index label, gap, candidate, padding.
pub open spec fn item_span(index_width: int, candidate_width: int) -> int {
    LABEL_PADDING_LEFT + index_width + INDEX_CANDI_GAP + candidate_width + LABEL_PADDING_RIGHT
}

/// The summed widths of the first `k` items of a row.
pub open spec fn spans_before(m: Seq<ItemMetrics>, index_width: int, k: int) -> int
    decreases k,
{
    if k <= 0 {
        0
    } else {
        spans_before(m, index_width, k - 1) + item_span(
            index_width,
            m[k - 1].candidate.width as int,
        )
    }
}

pub open spec fn window_height(m: Seq<ItemMetrics>, vertical: bool) -> int {
    if vertical {
        m.len() * label_height(m)
    } else {
        label_height(m)
    }
}

/// A column is as wide as its widest label and widest candidate, and at least four fifths of
/// its height; a row is the clip strip and every item side by side.
pub open spec fn window_width(m: Seq<ItemMetrics>, vertical: bool) -> int {
    if vertical {
        max_int(
            CLIP_WIDTH + item_span(max_index_width(m), max_candidate_width(m)),
            ceil_div(4 * window_height(m, true), 5),
        )
    } else {
        CLIP_WIDTH + spans_before(m, max_index_width(m), m.len() as int)
    }
}

pub open spec fn rect_is(r: Rect, left: int, top: int, width: int, height: int) -> bool {
    r.left == left && r.top == top && r.width == width && r.height == height
}

/// The highlight spans the column in a column, and exactly the highlighted item in a row.
pub open spec fn highlight_matches(r: Rect, m: Seq<ItemMetrics>, vertical: bool, h: int) -> bool {
    if vertical {
        rect_is(
            r,
            CLIP_WIDTH as int,
            h * label_height(m),
            window_width(m, true) - CLIP_WIDTH,
            label_height(m),
        )
    } else {
        rect_is(
            r,
            CLIP_WIDTH + spans_before(m, max_index_width(m), h as int),
            0,
            item_span(max_index_width(m), m[h as int].candidate.width as int),
            label_height(m),
        )
    }
}

/// The clip strip stands beside the highlighted row in a column, at the left end of a row.
pub open spec fn clip_matches(r: Rect, m: Seq<ItemMetrics>, vertical: bool, h: int) -> bool {
    rect_is(
        r,
        0,
        if vertical {
            h * label_height(m)
        } else {
            0
        },
        CLIP_WIDTH as int,
        label_height(m),
    )
}

pub open spec fn layout_matches(r: Layout, m: Seq<ItemMetrics>, vertical: bool, h: int) -> bool {
    &&& r.width == window_width(m, vertical)
    &&& r.height == window_height(m, vertical)
    &&& r.row_height == row_height(m)
    &&& r.label_height == label_height(m)
    &&& r.index_width == max_index_width(m)
    &&& highlight_matches(r.highlight, m, vertical, h)
    &&& clip_matches(r.clip, m, vertical, h)
}

proof fn lemma_take_drop_last(m: Seq<ItemMetrics>, i: int)
    requires
        0 <= i < m.len(),
    ensures
        m.take(i + 1).drop_last() == m.take(i),
        m.take(i + 1).last() == m[i],
{
    assert(m.take(i + 1).drop_last() =~= m.take(i));
}

proof fn lemma_spans_bound(m: Seq<ItemMetrics>, iw: int, k: int)
    requires
        0 <= k <= m.len(),
        iw <= MAX_EXTENT,
    ensures
        spans_before(m, iw, k) <= k * 8589934607,
    decreases k,
{
    if k > 0 {
        lemma_spans_bound(m, iw, k - 1);
    }
}

/// Computes the window's geometry from the measured items, for a column (`vertical`) or a
/// row, with the item at `highlighted` highlighted.
pub fn layout(metrics: &Vec<ItemMetrics>, vertical: bool, highlighted: usize) -> (r: Layout)
    requires
        0 < metrics@.len() <= CANDI_NUM,
        highlighted < metrics@.len(),
    ensures
        layout_matches(r, metrics@, vertical, highlighted as int),
{
    let n = metrics.len();
    let ghost m = metrics@;
    let mut index_width: u64 = 0;
    let mut candidate_width: u64 = 0;
    let mut row: u64 = 0;
    let mut i: usize = 0;
    while i < n
        invariant
            n == m.len(),
            m == metrics@,
            i <= n,
            index_width == max_index_width(m.take(i as int)),
            candidate_width == max_candidate_width(m.take(i as int)),
            row == row_height(m.take(i as int)),
            index_width <= MAX_EXTENT,
            candidate_width <= MAX_EXTENT,
            row <= MAX_EXTENT,
        decreases n - i,
    {
        proof {
            lemma_take_drop_last(m, i as int);
        }
        let item = metrics[i];
        if item.index.width as u64 > index_width {
            index_width = item.index.width as u64;
        }
        if item.candidate.width as u64 > candidate_width {
            candidate_width = item.candidate.width as u64;
        }
        let tallest: u64 = if item.index.height >= item.candidate.height {
            item.index.height as u64
        } else {
            item.candidate.height as u64
        };
        if tallest > row {
            row = tallest;
        }
        i = i + 1;
    }
    assert(m.take(n as int) =~= m);
    let label = LABEL_PADDING_TOP + row + LABEL_PADDING_BOTTOM;

    // The summed widths of the items, and of those before the highlighted one.
    let mut spans: u64 = 0;
    let mut before: u64 = 0;
    let mut j: usize = 0;
    while j < n
        invariant
            n == m.len(),
            m == metrics@,
            n <= CANDI_NUM,
            highlighted < n,
            j <= n,
            index_width == max_index_width(m),
            index_width <= MAX_EXTENT,
            spans == spans_before(m, index_width as int, j as int),
            j > highlighted ==> before == spans_before(m, index_width as int, highlighted as int),
        decreases n - j,
    {
        proof {
            lemma_spans_bound(m, index_width as int, j + 1);
        }
        if j == highlighted {
            before = spans;
        }
        spans = spans + LABEL_PADDING_LEFT + index_width + INDEX_CANDI_GAP
            + metrics[j].candidate.width as u64 + LABEL_PADDING_RIGHT;
        j = j + 1;
    }
    proof {
        lemma_spans_bound(m, index_width as int, n as int);
        lemma_spans_bound(m, index_width as int, highlighted as int);
    }
    let h = metrics[highlighted].candidate.width as u64;
    let highlight_span = LABEL_PADDING_LEFT + index_width + INDEX_CANDI_GAP + h + LABEL_PADDING_RIGHT;
    if vertical {
        let count = n as u64;
        assert(count * label <= 9 * (MAX_EXTENT + 8)) by (nonlinear_arith)
            requires
                count <= 9,
                label <= MAX_EXTENT + 8,
        ;
        let height = count * label;
        let column = CLIP_WIDTH + LABEL_PADDING_LEFT + index_width + INDEX_CANDI_GAP
            + candidate_width + LABEL_PADDING_RIGHT;
        let floor = (4 * height + 4) / 5;
        let width = if column >= floor {
            column
        } else {
            floor
        };
        let hl = highlighted as u64;
        assert(hl * label <= 9 * (MAX_EXTENT + 8)) by (nonlinear_arith)
            requires
                hl <= 9,
                label <= MAX_EXTENT + 8,
        ;
        let top = hl * label;
        Layout {
            width,
            height,
            row_height: row,
            label_height: label,
            index_width,
            highlight: Rect { left: CLIP_WIDTH, top, width: width - CLIP_WIDTH, height: label },
            clip: Rect { left: 0, top, width: CLIP_WIDTH, height: label },
        }
    } else {
        Layout {
            width: CLIP_WIDTH + spans,
            height: label,
            row_height: row,
            label_height: label,
            index_width,
            highlight: Rect { left: CLIP_WIDTH + before, top: 0, width: highlight_span, height: label },
            clip: Rect { left: 0, top: 0, width: CLIP_WIDTH, height: label },
        }
    }
}

/// Every character is ASCII.
pub open spec fn all_ascii(s: Seq<char>) -> bool {
    forall|i: int| 0 <= i < s.len() ==> '\0' <= #[trigger] s[i] <= '\u{7f}'
}

/// Whether a text is all ASCII (English or Latin), which is drawn raised a little.
pub fn is_ascii_text(text: &str) -> (r: bool)
    ensures
        r == all_ascii(text@),
{
    text.is_ascii()
}

/// The index label's box: beside the clip strip, in the item's row or column.
pub open spec fn label_rect_matches(r: Rect, m: Seq<ItemMetrics>, vertical: bool, i: int) -> bool {
    rect_is(
        r,
        if vertical {
            CLIP_WIDTH + LABEL_PADDING_LEFT
        } else {
            CLIP_WIDTH + LABEL_PADDING_LEFT + spans_before(m, max_index_width(m), i)
        },
        if vertical {
            LABEL_PADDING_TOP + i * label_height(m)
        } else {
            LABEL_PADDING_TOP as int
        },
        max_index_width(m) + TEXT_BOX_SLACK,
        row_height(m),
    )
}

/// The candidate's box: right of the widest label and the gap, raised where its text is ASCII.
pub open spec fn candidate_rect_matches(
    r: Rect,
    label: Rect,
    m: Seq<ItemMetrics>,
    i: int,
    ascii: bool,
) -> bool {
    rect_is(
        r,
        label.left + max_index_width(m) + INDEX_CANDI_GAP,
        label.top - if ascii {
            ASCII_RAISE as int
        } else {
            0
        },
        m[i].candidate.width + TEXT_BOX_SLACK,
        row_height(m),
    )
}

pub open spec fn placement_matches(
    p: ItemPlacement,
    m: Seq<ItemMetrics>,
    text: Seq<char>,
    vertical: bool,
    h: int,
    i: int,
) -> bool {
    &&& label_rect_matches(p.label, m, vertical, i)
    &&& candidate_rect_matches(p.candidate, p.label, m, i, all_ascii(text))
    &&& p.highlighted == (i == h)
}

/// Places the texts of every item, given the window's layout.
pub fn place_items(
    candidates: &Vec<String>,
    metrics: &Vec<ItemMetrics>,
    lay: &Layout,
    vertical: bool,
    highlighted: usize,
) -> (r: Vec<ItemPlacement>)
    requires
        0 < metrics@.len() <= CANDI_NUM,
        candidates@.len() == metrics@.len(),
        highlighted < metrics@.len(),
        layout_matches(*lay, metrics@, vertical, highlighted as int),
    ensures
        r@.len() == metrics@.len(),
        forall|i: int|
            0 <= i < r@.len() ==> placement_matches(
                #[trigger] r@[i],
                metrics@,
                candidates@[i]@,
                vertical,
                highlighted as int,
                i,
            ),
{
    let n = metrics.len();
    let ghost m = metrics@;
    let ghost iw = max_index_width(m);
    proof {
        max_bounds(m);
    }
    let mut out: Vec<ItemPlacement> = Vec::new();
    let mut x: u64 = CLIP_WIDTH + LABEL_PADDING_LEFT;
    let mut i: usize = 0;
    while i < n
        invariant
            n == m.len(),
            m == metrics@,
            n <= CANDI_NUM,
            candidates@.len() == n,
            i <= n,
            layout_matches(*lay, m, vertical, highlighted as int),
            iw == max_index_width(m),
            0 <= iw <= MAX_EXTENT,
            0 <= row_height(m) <= MAX_EXTENT,
            x == CLIP_WIDTH + LABEL_PADDING_LEFT + spans_before(m, iw, i as int),
            out@.len() == i,
            forall|k: int|
                0 <= k < i ==> placement_matches(
                    #[trigger] out@[k],
                    m,
                    candidates@[k]@,
                    vertical,
                    highlighted as int,
                    k,
                ),
        decreases n - i,
    {
        proof {
            lemma_spans_bound(m, iw, i + 1);
        }
        let label_left: u64 = if vertical {
            CLIP_WIDTH + LABEL_PADDING_LEFT
        } else {
            x
        };
        let label_top: u64 = if vertical {
            let k = i as u64;
            let lh = lay.label_height;
            assert(k * lh <= 9 * (MAX_EXTENT + 8)) by (nonlinear_arith)
                requires
                    k <= 9,
                    lh <= MAX_EXTENT + 8,
            ;
            LABEL_PADDING_TOP + k * lh
        } else {
            LABEL_PADDING_TOP
        };
        let label = Rect {
            left: label_left,
            top: label_top,
            width: lay.index_width + TEXT_BOX_SLACK,
            height: lay.row_height,
        };
        let cw = metrics[i].candidate.width as u64;
        let raise: u64 = if is_ascii_text(candidates[i].as_str()) {
            ASCII_RAISE
        } else {
            0
        };
        let candidate = Rect {
            left: label_left + lay.index_width + INDEX_CANDI_GAP,
            top: label_top - raise,
            width: cw + TEXT_BOX_SLACK,
            height: lay.row_height,
        };
        out.push(ItemPlacement { label, candidate, highlighted: i == highlighted });
        x = x + LABEL_PADDING_LEFT + lay.index_width + INDEX_CANDI_GAP + cw + LABEL_PADDING_RIGHT;
        i = i + 1;
    }
    out
}

proof fn max_bounds(m: Seq<ItemMetrics>)
    ensures
        0 <= max_index_width(m) <= MAX_EXTENT,
        0 <= max_candidate_width(m) <= MAX_EXTENT,
        0 <= row_height(m) <= MAX_EXTENT,
    decreases m.len(),
{
    if m.len() > 0 {
        max_bounds(m.drop_last());
    }
}

/// What follows the number in an index label.
pub const CANDI_INDEX_SUFFIX: &'static str = ".";

/// The number, from one, that labels the item at `i`.
pub open spec fn index_digit(i: int) -> char {
    if i == 0 {
        '1'
    } else if i == 1 {
        '2'
    } else if i == 2 {
        '3'
    } else if i == 3 {
        '4'
    } else if i == 4 {
        '5'
    } else if i == 5 {
        '6'
    } else if i == 6 {
        '7'
    } else if i == 7 {
        '8'
    } else {
        '9'
    }
}

/// The label of the item at `i`: its number from one, then the suffix.
pub fn index_label(i: usize) -> (r: String)
    requires
        i < CANDI_NUM,
    ensures
        r@ == seq![index_digit(i as int), '.'],
{
    let digit: &str = if i == 0 {
        proof { reveal_strlit("1"); }
        "1"
    } else if i == 1 {
        proof { reveal_strlit("2"); }
        "2"
    } else if i == 2 {
        proof { reveal_strlit("3"); }
        "3"
    } else if i == 3 {
        proof { reveal_strlit("4"); }
        "4"
    } else if i == 4 {
        proof { reveal_strlit("5"); }
        "5"
    } else if i == 5 {
        proof { reveal_strlit("6"); }
        "6"
    } else if i == 6 {
        proof { reveal_strlit("7"); }
        "7"
    } else if i == 7 {
        proof { reveal_strlit("8"); }
        "8"
    } else {
        proof { reveal_strlit("9"); }
        "9"
    };
    let mut label = String::from_str(digit);
    label.append(CANDI_INDEX_SUFFIX);
    proof {
        reveal_strlit(".");
    }
    assert(label@ =~= seq![index_digit(i as int), '.']);
    label
}

/// The labels of the first `count` items, in order.
pub fn index_labels(count: usize) -> (r: Vec<String>)
    requires
        count <= CANDI_NUM,
    ensures
        r@.len() == count,
        forall|i: int| 0 <= i < count ==> #[trigger] r@[i]@ == seq![index_digit(i), '.'],
{
    let mut out: Vec<String> = Vec::new();
    let mut i: usize = 0;
    while i < count
        invariant
            count <= CANDI_NUM,
            i <= count,
            out@.len() == i,
            forall|k: int| 0 <= k < i ==> #[trigger] out@[k]@ == seq![index_digit(k), '.'],
        decreases count - i,
    {
        out.push(index_label(i));
        i = i + 1;
    }
    out
}

} // verus!
