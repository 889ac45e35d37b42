use vstd::prelude::*;

use crate::candidate_list::strings_view;

verus! {

/// What the suggestion engine answers to a keystroke or a backspace.
pub enum CandidateSet {
    /// Exactly one interpretation: it is the preedit, and nothing needs choosing.
    Lonely { text: String },
    /// A ranked list to choose from, a text that sums it up, and the entry the engine would
    /// highlight again.
    Full { suggestions: Vec<String>, auxiliary: String, selection: usize },
}

impl CandidateSet {
    pub open spec fn lonely(&self) -> bool {
        self is Lonely
    }

    /// How many interpretations the set holds.
    pub open spec fn count(&self) -> nat {
        match self {
            CandidateSet::Lonely { .. } => 1,
            CandidateSet::Full { suggestions, .. } => suggestions@.len(),
        }
    }

    /// No character of the input was recognised.
    pub open spec fn empty(&self) -> bool {
        match self {
            CandidateSet::Lonely { text } => text@.len() == 0,
            CandidateSet::Full { suggestions, .. } => suggestions@.len() == 0,
        }
    }

    /// The interpretation at `index`; a lonely set has only the one.
    pub open spec fn text_at(&self, index: int) -> Seq<char> {
        match self {
            CandidateSet::Lonely { text } => text@,
            CandidateSet::Full { suggestions, .. } => suggestions@[index]@,
        }
    }

    pub open spec fn texts(&self) -> Seq<Seq<char>> {
        match self {
            CandidateSet::Lonely { text } => seq![text@],
            CandidateSet::Full { suggestions, .. } => strings_view(suggestions@),
        }
    }

    pub open spec fn aux(&self) -> Seq<char> {
        match self {
            CandidateSet::Lonely { .. } => Seq::empty(),
            CandidateSet::Full { auxiliary, .. } => auxiliary@,
        }
    }

    pub open spec fn prev(&self) -> nat {
        match self {
            CandidateSet::Lonely { .. } => 0,
            CandidateSet::Full { selection, .. } => *selection as nat,
        }
    }

    pub fn is_lonely(&self) -> (r: bool)
        ensures
            r == self.lonely(),
    {
        match self {
            CandidateSet::Lonely { .. } => true,
            CandidateSet::Full { .. } => false,
        }
    }

    pub fn is_empty(&self) -> (r: bool)
        ensures
            r == self.empty(),
    {
        match self {
            CandidateSet::Lonely { text } => text.as_str().is_empty(),
            CandidateSet::Full { suggestions, .. } => suggestions.len() == 0,
        }
    }

    pub fn len(&self) -> (r: usize)
        ensures
            r == self.count(),
    {
        match self {
            CandidateSet::Lonely { .. } => 1,
            CandidateSet::Full { suggestions, .. } => suggestions.len(),
        }
    }

    /// The interpretation at `index`, as the preedit would show it.
    pub fn get_pre_edit_text(&self, index: usize) -> (r: String)
        requires
            self.lonely() || index < self.count(),
        ensures
            r@ == self.text_at(index as int),
    {
        match self {
            CandidateSet::Lonely { text } => text.clone(),
            CandidateSet::Full { suggestions, .. } => suggestions[index].clone(),
        }
    }

    /// The text that sums up a list to choose from; a lonely set has none.
    pub fn get_auxiliary_text(&self) -> (r: String)
        ensures
            r@ == self.aux(),
    {
        match self {
            CandidateSet::Lonely { .. } => String::new(),
            CandidateSet::Full { auxiliary, .. } => auxiliary.clone(),
        }
    }

    /// The entry the engine would highlight again; 0 where it has no such hint.
    pub fn previously_selected_index(&self) -> (r: usize)
        ensures
            r == self.prev(),
    {
        match self {
            CandidateSet::Lonely { .. } => 0,
            CandidateSet::Full { selection, .. } => *selection,
        }
    }

    /// The ranked list; for a lonely set, its one interpretation.
    pub fn get_suggestions(&self) -> (r: Vec<String>)
        ensures
            strings_view(r@) == self.texts(),
    {
        match self {
            CandidateSet::Lonely { text } => {
                let v = vec![text.clone()];
                assert(strings_view(v@) =~= self.texts());
                v
            },
            CandidateSet::Full { suggestions, .. } => {
                let n = suggestions.len();
                let mut v: Vec<String> = Vec::new();
                let mut i: usize = 0;
                while i < n
                    invariant
                        n == suggestions@.len(),
                        i <= n,
                        v@.len() == i,
                        forall|k: int| 0 <= k < i ==> #[trigger] v@[k] == suggestions@[k],
                    decreases n - i,
                {
                    v.push(suggestions[i].clone());
                    i = i + 1;
                }
                assert(v@ =~= suggestions@);
                v
            },
        }
    }
}

} // verus!
