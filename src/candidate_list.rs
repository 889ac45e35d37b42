use vstd::prelude::*;

use crate::layout::{
    index_digit, index_labels, layout, layout_matches, place_items, placement_matches, ItemMetrics,
    ItemPlacement, Layout,
};

verus! {

/// The most candidates the window ever lists.
pub const CANDI_NUM: usize = 9;

/// How far the window sits right of and below the point it is located at.
pub const POS_OFFSETX: i32 = 2;

pub const POS_OFFSETY: i32 = 2;

/// What the candidate window holds, as mathematical values.
pub struct WindowModel {
    pub candidates: Seq<Seq<char>>,
    pub highlighted: nat,
    pub visible: bool,
    pub origin: (int, int),
}

impl WindowModel {
    /// At most `CANDI_NUM` candidates, and the highlight on one of them (on 0 when there is none).
    pub open spec fn wf(self) -> bool {
        &&& self.candidates.len() <= CANDI_NUM
        &&& if self.candidates.len() == 0 {
            self.highlighted == 0
        } else {
            self.highlighted < self.candidates.len()
        }
    }
}

/// The views of a list of strings.
pub open spec fn strings_view(v: Seq<String>) -> Seq<Seq<char>> {
    v.map_values(|s: String| s@)
}

/// The part of a ranked list that the window shows: its first entries, at most `CANDI_NUM`.
pub open spec fn shown_prefix(s: Seq<Seq<char>>) -> Seq<Seq<char>> {
    if s.len() <= CANDI_NUM {
        s
    } else {
        s.take(CANDI_NUM as int)
    }
}

/// The index after `i` among `n`, wrapping to the first.
pub open spec fn next_index(i: nat, n: nat) -> nat
    recommends
        n > 0,
{
    (((i + 1) as int) % (n as int)) as nat
}

/// The index before `i` among `n`, wrapping to the last.
pub open spec fn prev_index(i: nat, n: nat) -> nat
    recommends
        n > 0,
{
    if i == 0 {
        (n - 1) as nat
    } else {
        (i - 1) as nat
    }
}

/// Everything a paint of the window draws: taken when the list or the highlight changes, and
/// consumed when the window is next drawn.
pub struct PaintArg {
    pub layout: Layout,
    pub items: Vec<ItemPlacement>,
    pub labels: Vec<String>,
    pub candidates: Vec<String>,
    pub highlighted_index: usize,
}

/// The floating overlay that lists the candidates, with one of them highlighted.
pub struct CandidateList {
    candidates: Vec<String>,
    highlighted_index: usize,
    visible: bool,
    origin: (i32, i32),
}

impl View for CandidateList {
    type V = WindowModel;

    closed spec fn view(&self) -> WindowModel {
        WindowModel {
            candidates: strings_view(self.candidates@),
            highlighted: self.highlighted_index as nat,
            visible: self.visible,
            origin: (self.origin.0 as int, self.origin.1 as int),
        }
    }
}

impl CandidateList {
    pub open spec fn wf(&self) -> bool {
        self@.wf()
    }

    /// A hidden window with no candidates, at the origin of the screen.
    pub fn new() -> (r: CandidateList)
        ensures
            r.wf(),
            r@ == (WindowModel { candidates: Seq::empty(), highlighted: 0, visible: false, origin: (0, 0) }),
    {
        let r = CandidateList { candidates: Vec::new(), highlighted_index: 0, visible: false, origin: (0, 0) };
        assert(r@.candidates =~= Seq::<Seq<char>>::empty());
        r
    }

    /// Moves the window next to the screen point `(x, y)`, keeping its size and contents.
    pub fn locate(&mut self, x: i32, y: i32)
        requires
            x <= i32::MAX - POS_OFFSETX,
            y <= i32::MAX - POS_OFFSETY,
        ensures
            final(self)@ == (WindowModel { origin: (x + POS_OFFSETX, y + POS_OFFSETY), ..old(self)@ }),
    {
        self.origin = (x + POS_OFFSETX, y + POS_OFFSETY);
    }

    /// Moves the highlight to the next candidate, wrapping around to the first.
    pub fn move_highlight_next(&mut self)
        requires
            old(self).wf(),
        ensures
            final(self).wf(),
            old(self)@.candidates.len() == 0 ==> final(self)@ == old(self)@,
            old(self)@.candidates.len() > 0 ==> final(self)@ == (WindowModel {
                highlighted: next_index(old(self)@.highlighted, old(self)@.candidates.len()),
                ..old(self)@
            }),
    {
        let count = self.candidates.len();
        if count == 0 {
            return ;
        }
        self.highlighted_index = (self.highlighted_index + 1) % count;
    }

    /// Moves the highlight to the previous candidate, wrapping around to the last.
    pub fn move_highlight_prev(&mut self)
        requires
            old(self).wf(),
        ensures
            final(self).wf(),
            old(self)@.candidates.len() == 0 ==> final(self)@ == old(self)@,
            old(self)@.candidates.len() > 0 ==> final(self)@ == (WindowModel {
                highlighted: prev_index(old(self)@.highlighted, old(self)@.candidates.len()),
                ..old(self)@
            }),
    {
        let count = self.candidates.len();
        if count == 0 {
            return ;
        }
        if self.highlighted_index == 0 {
            self.highlighted_index = count - 1;
        } else {
            self.highlighted_index = self.highlighted_index - 1;
        }
    }

    /// Highlights the candidate at `index`; refuses, changing nothing, where there is none.
    pub fn set_highlight(&mut self, index: usize) -> (r: bool)
        requires
            old(self).wf(),
        ensures
            final(self).wf(),
            r == (index < old(self)@.candidates.len()),
            r ==> final(self)@ == (WindowModel { highlighted: index as nat, ..old(self)@ }),
            !r ==> final(self)@ == old(self)@,
    {
        if index >= self.candidates.len() {
            return false;
        }
        self.highlighted_index = index;
        true
    }

    pub fn get_highlighted_index(&self) -> (r: usize)
        ensures
            r == self@.highlighted,
    {
        self.highlighted_index
    }

    pub fn get_candidate_count(&self) -> (r: usize)
        ensures
            r == self@.candidates.len(),
    {
        self.candidates.len()
    }

    /// The candidates listed, in order.
    pub fn candidates(&self) -> (r: &Vec<String>)
        ensures
            strings_view(r@) == self@.candidates,
    {
        &self.candidates
    }

    pub fn is_visible(&self) -> (r: bool)
        ensures
            r == self@.visible,
    {
        self.visible
    }

    /// Where the window's top left corner stands on the screen.
    pub fn origin(&self) -> (r: (i32, i32))
        ensures
            r.0 == self@.origin.0,
            r.1 == self@.origin.1,
    {
        self.origin
    }

    /// Puts the highlight back on the first candidate.
    pub fn reset_highlight(&mut self)
        requires
            old(self).wf(),
        ensures
            final(self).wf(),
            final(self)@ == (WindowModel { highlighted: 0, ..old(self)@ }),
    {
        self.highlighted_index = 0;
    }

    /// Lists the first `CANDI_NUM` of `suggs` with the first one highlighted, and reveals the
    /// window; an empty list leaves the window as visible or hidden as it was.
    pub fn show(&mut self, suggs: &Vec<String>)
        ensures
            final(self).wf(),
            final(self)@ == (WindowModel {
                candidates: shown_prefix(strings_view(suggs@)),
                highlighted: 0,
                visible: if suggs@.len() == 0 { old(self)@.visible } else { true },
                origin: old(self)@.origin,
            }),
    {
        let n: usize = if suggs.len() < CANDI_NUM { suggs.len() } else { CANDI_NUM };
        let mut list: Vec<String> = Vec::new();
        let mut i: usize = 0;
        while i < n
            invariant
                n <= suggs@.len(),
                n <= CANDI_NUM,
                i <= n,
                list@.len() == i,
                strings_view(list@) =~= strings_view(suggs@).take(i as int),
            decreases n - i,
        {
            let ghost before = list@;
            list.push(suggs[i].clone());
            assert(list@ == before.push(suggs@[i as int]));
            assert forall|k: int| 0 <= k < i + 1 implies #[trigger] strings_view(list@)[k]
                == strings_view(suggs@)[k] by {
                if k < i {
                    assert(strings_view(before)[k] == strings_view(suggs@).take(i as int)[k]);
                }
            }
            assert(strings_view(list@) =~= strings_view(suggs@).take(i + 1));
            i = i + 1;
        }
        assert(strings_view(list@) =~= shown_prefix(strings_view(suggs@)));
        self.candidates = list;
        self.highlighted_index = 0;
        if n > 0 {
            self.visible = true;
        }
    }

    /// Lays the window out anew from the measured items (one for each candidate, in order), as
    /// a column (`vertical`) or a row. There is nothing to draw while no candidate is listed.
    pub fn repaint(&self, metrics: &Vec<ItemMetrics>, vertical: bool) -> (r: Option<PaintArg>)
        requires
            self.wf(),
            metrics@.len() == self@.candidates.len(),
        ensures
            r.is_none() == (self@.candidates.len() == 0),
            r matches Some(a) ==> {
                &&& layout_matches(a.layout, metrics@, vertical, self@.highlighted as int)
                &&& a.highlighted_index == self@.highlighted
                &&& strings_view(a.candidates@) == self@.candidates
                &&& a.labels@.len() == self@.candidates.len()
                &&& forall|i: int|
                    0 <= i < a.labels@.len() ==> #[trigger] a.labels@[i]@ == seq![index_digit(i), '.']
                &&& a.items@.len() == self@.candidates.len()
                &&& forall|i: int|
                    0 <= i < a.items@.len() ==> placement_matches(
                        #[trigger] a.items@[i],
                        metrics@,
                        self@.candidates[i],
                        vertical,
                        self@.highlighted as int,
                        i,
                    )
            },
    {
        let n = self.candidates.len();
        if n == 0 {
            return None;
        }
        let lay = layout(metrics, vertical, self.highlighted_index);
        let items = place_items(&self.candidates, metrics, &lay, vertical, self.highlighted_index);
        let mut candidates: Vec<String> = Vec::new();
        let mut i: usize = 0;
        while i < n
            invariant
                n == self.candidates@.len(),
                i <= n,
                candidates@.len() == i,
                forall|k: int| 0 <= k < i ==> #[trigger] candidates@[k] == self.candidates@[k],
            decreases n - i,
        {
            candidates.push(self.candidates[i].clone());
            i = i + 1;
        }
        assert(candidates@ =~= self.candidates@);
        Some(
            PaintArg {
                layout: lay,
                items,
                labels: index_labels(n),
                candidates,
                highlighted_index: self.highlighted_index,
            },
        )
    }

    /// Conceals the window without forgetting its contents.
    pub fn hide_window(&mut self)
        requires
            old(self).wf(),
        ensures
            final(self).wf(),
            final(self)@ == (WindowModel { visible: false, ..old(self)@ }),
    {
        self.visible = false;
    }
}

/// Moving the highlight forward and then back, or back and then forward, returns it to where
/// it was, for any number of candidates and any highlighted one.
pub proof fn lemma_next_prev_round_trip(i: nat, n: nat)
    requires
        n > 0,
        i < n,
    ensures
        prev_index(next_index(i, n), n) == i,
        next_index(prev_index(i, n), n) == i,
{
    if i + 1 == n {
        assert(((i + 1) as int) % (n as int) == 0) by {
            vstd::arithmetic::div_mod::lemma_mod_self_0(n as int);
        }
    } else {
        vstd::arithmetic::div_mod::lemma_small_mod((i + 1) as nat, n);
    }
    if i == 0 {
        vstd::arithmetic::div_mod::lemma_mod_self_0(n as int);
    } else {
        vstd::arithmetic::div_mod::lemma_small_mod(i, n);
    }
}

} // verus!
