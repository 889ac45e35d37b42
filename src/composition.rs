use vstd::prelude::*;

use crate::candidates::CandidateSet;
use crate::candidate_list::{
    next_index, prev_index, shown_prefix, strings_view, CandidateList, WindowModel, POS_OFFSETX,
    POS_OFFSETY,
};

verus! {

/// A step that the host, the engine or the candidate overlay has to carry out, in the order
/// the session asks for them.
#[derive(Debug, PartialEq, Eq)]
pub enum HostAction {
    /// Open a composition in the host document.
    OpenComposition,
    /// Move the candidate window next to the caret, where the host can tell where it is.
    LocateCandidates,
    /// Show this text, underlined, as the composition.
    UpdatePreedit(String),
    /// Write this text over the composition, as plain text.
    SetText(String),
    /// Tell the engine which candidate was chosen.
    CandidateCommitted(usize),
    /// Lay out, resize, reveal and paint the candidate window as it now stands.
    ShowCandidates,
    /// Paint the candidate window again, keeping its size.
    RepaintCandidates,
    HideCandidates,
    /// Close the composition open in the host document.
    CloseComposition,
    /// Tell the engine the input session is over.
    FinishInputSession,
}

/// A `HostAction` with its texts as character sequences.
pub enum ActionModel {
    OpenComposition,
    LocateCandidates,
    UpdatePreedit(Seq<char>),
    SetText(Seq<char>),
    CandidateCommitted(nat),
    ShowCandidates,
    RepaintCandidates,
    HideCandidates,
    CloseComposition,
    FinishInputSession,
}

impl View for HostAction {
    type V = ActionModel;

    open spec fn view(&self) -> ActionModel {
        match self {
            HostAction::OpenComposition => ActionModel::OpenComposition,
            HostAction::LocateCandidates => ActionModel::LocateCandidates,
            HostAction::UpdatePreedit(s) => ActionModel::UpdatePreedit(s@),
            HostAction::SetText(s) => ActionModel::SetText(s@),
            HostAction::CandidateCommitted(i) => ActionModel::CandidateCommitted(*i as nat),
            HostAction::ShowCandidates => ActionModel::ShowCandidates,
            HostAction::RepaintCandidates => ActionModel::RepaintCandidates,
            HostAction::HideCandidates => ActionModel::HideCandidates,
            HostAction::CloseComposition => ActionModel::CloseComposition,
            HostAction::FinishInputSession => ActionModel::FinishInputSession,
        }
    }
}

pub open spec fn actions_view(v: Seq<HostAction>) -> Seq<ActionModel> {
    v.map_values(|a: HostAction| a@)
}

/// The session as mathematical values.
pub struct SessionModel {
    pub composing: bool,
    pub preedit: Seq<char>,
    pub suggestions: Option<CandidateSet>,
    pub window: WindowModel,
}

/// The state every ending of a composition leads to: nothing composed, the window hidden.
pub open spec fn idle_from(w: WindowModel) -> SessionModel {
    SessionModel {
        composing: false,
        preedit: Seq::empty(),
        suggestions: None,
        window: WindowModel { visible: false, ..w },
    }
}

/// The steps that end a composition: the host's is closed only where one is open, while the
/// engine's input session is always finished and the window hidden.
pub open spec fn ending_actions(composing: bool) -> Seq<ActionModel> {
    if composing {
        seq![
            ActionModel::CloseComposition,
            ActionModel::FinishInputSession,
            ActionModel::HideCandidates,
        ]
    } else {
        seq![ActionModel::FinishInputSession, ActionModel::HideCandidates]
    }
}

/// A text, with the character `append` after it where there is one.
pub open spec fn with_append(text: Seq<char>, append: Option<char>) -> Seq<char> {
    match append {
        Some(c) => text.push(c),
        None => text,
    }
}

/// The highlight a fresh list of `count` entries gets, given the engine's hint `prev`.
pub open spec fn resumed_highlight(prev: nat, count: nat) -> nat {
    if prev != 0 && prev < count {
        prev
    } else {
        0
    }
}

/// The window once it lists the ranked candidates of `s`, highlighted at `h`.
pub open spec fn window_listing(w: WindowModel, s: CandidateSet, h: nat) -> WindowModel {
    WindowModel { candidates: shown_prefix(s.texts()), highlighted: h, visible: true, origin: w.origin }
}

/// The session once it holds a lonely set: its one interpretation is the preedit.
pub open spec fn holding_lonely(m: SessionModel, s: CandidateSet) -> SessionModel {
    SessionModel {
        composing: m.composing,
        preedit: s.text_at(0),
        suggestions: Some(s),
        window: WindowModel { visible: false, ..m.window },
    }
}

/// What selecting the entry at `index` of the held set leads to: nothing at all where a list
/// has no such entry, else the entry (with `append`) written out and the composition ended.
pub open spec fn select_outcome(m: SessionModel, index: nat, append: Option<char>) -> (
    SessionModel,
    Seq<ActionModel>,
) {
    let s = m.suggestions.unwrap();
    if !s.lonely() && index >= s.count() {
        (m, Seq::empty())
    } else {
        (
            idle_from(m.window),
            seq![
                ActionModel::CandidateCommitted(index),
                ActionModel::SetText(with_append(s.text_at(index as int), append)),
            ] + ending_actions(m.composing),
        )
    }
}

/// Selecting past the end of a list to choose from changes nothing and asks for nothing.
pub proof fn lemma_select_out_of_range_is_noop(m: SessionModel, index: nat, append: Option<char>)
    requires
        m.suggestions is Some,
        !m.suggestions.unwrap().lonely(),
        index >= m.suggestions.unwrap().count(),
    ensures
        select_outcome(m, index, append) == (m, Seq::<ActionModel>::empty()),
{
}

/// The entry a commit finalises: the one interpretation of a lonely set, else the highlighted one.
pub open spec fn commit_index(m: SessionModel) -> nat {
    if m.suggestions.unwrap().lonely() {
        0
    } else {
        m.window.highlighted
    }
}

/// A caret position the host reports, unless it is the bogus one at or above the top left
/// corner of the screen.
pub open spec fn usable_position(pos: (i32, i32)) -> bool {
    !(pos.0 <= 0 && pos.1 <= 0)
}

/// Keeps a caret position the host reported, unless it cannot be a real one.
pub fn caret_position(pos: (i32, i32)) -> (r: Option<(i32, i32)>)
    ensures
        r == if usable_position(pos) {
            Some(pos)
        } else {
            None
        },
{
    if pos.0 <= 0 && pos.1 <= 0 {
        None
    } else {
        Some(pos)
    }
}

fn push_action(v: &mut Vec<HostAction>, a: HostAction)
    ensures
        actions_view(final(v)@) == actions_view(old(v)@).push(a@),
{
    v.push(a);
    assert(actions_view(v@) =~= actions_view(old(v)@).push(a@));
}

/// Relies on `String::push`: the character is added at the end.
#[verifier::external_body]
fn push_char(s: &mut String, c: char)
    ensures
        final(s)@ == old(s)@.push(c),
{
    s.push(c)
}

/// The composition session: the text being composed, the engine's latest answer, and the
/// candidate window.
pub struct TextServiceInner {
    composing: bool,
    preedit: String,
    suggestions: Option<CandidateSet>,
    candidate_list: CandidateList,
}

impl View for TextServiceInner {
    type V = SessionModel;

    closed spec fn view(&self) -> SessionModel {
        SessionModel {
            composing: self.composing,
            preedit: self.preedit@,
            suggestions: self.suggestions,
            window: self.candidate_list@,
        }
    }
}

impl TextServiceInner {
    /// The window is well formed, and outside a composition nothing is held and nothing shown.
    pub open spec fn wf(&self) -> bool {
        &&& self@.window.wf()
        &&& !self@.composing ==> {
            &&& self@.preedit.len() == 0
            &&& self@.suggestions is None
            &&& !self@.window.visible
        }
    }

    pub fn new() -> (r: TextServiceInner)
        ensures
            r.wf(),
            r@ == idle_from(
                WindowModel { candidates: Seq::empty(), highlighted: 0, visible: false, origin: (0, 0) },
            ),
    {
        let r = TextServiceInner {
            composing: false,
            preedit: String::new(),
            suggestions: None,
            candidate_list: CandidateList::new(),
        };
        r
    }

    pub fn is_composing(&self) -> (r: bool)
        ensures
            r == self@.composing,
    {
        self.composing
    }

    pub fn preedit(&self) -> (r: &String)
        ensures
            r@ == self@.preedit,
    {
        &self.preedit
    }

    pub fn suggestions(&self) -> (r: &Option<CandidateSet>)
        ensures
            *r == self@.suggestions,
    {
        &self.suggestions
    }

    pub fn candidate_list(&self) -> (r: &CandidateList)
        ensures
            r@ == self@.window,
    {
        &self.candidate_list
    }

    /// The highlighted index, as the engine takes it with a keystroke.
    pub fn selection_hint(&self) -> (r: u8)
        requires
            self.wf(),
        ensures
            r == self@.window.highlighted,
    {
        self.candidate_list.get_highlighted_index() as u8
    }

    /// Opens a composition; the candidate window goes next to the caret.
    pub fn start_composition(&mut self) -> (r: Vec<HostAction>)
        requires
            old(self).wf(),
        ensures
            final(self).wf(),
            final(self)@ == (SessionModel { composing: true, ..old(self)@ }),
            actions_view(r@) == seq![ActionModel::OpenComposition, ActionModel::LocateCandidates],
    {
        self.composing = true;
        let mut r: Vec<HostAction> = Vec::new();
        push_action(&mut r, HostAction::OpenComposition);
        push_action(&mut r, HostAction::LocateCandidates);
        assert(actions_view(r@) =~= seq![ActionModel::OpenComposition, ActionModel::LocateCandidates]);
        r
    }

    /// Moves the candidate window next to the caret at `(x, y)`.
    pub fn locate_candidates(&mut self, x: i32, y: i32)
        requires
            old(self).wf(),
            x <= i32::MAX - POS_OFFSETX,
            y <= i32::MAX - POS_OFFSETY,
        ensures
            final(self).wf(),
            final(self)@ == (SessionModel {
                window: WindowModel { origin: (x + POS_OFFSETX, y + POS_OFFSETY), ..old(self)@.window },
                ..old(self)@
            }),
    {
        self.candidate_list.locate(x, y);
    }

    /// Moves the highlight to the next candidate, wrapping around.
    pub fn move_highlight_next(&mut self)
        requires
            old(self).wf(),
        ensures
            final(self).wf(),
            old(self)@.window.candidates.len() == 0 ==> final(self)@ == old(self)@,
            old(self)@.window.candidates.len() > 0 ==> final(self)@ == (SessionModel {
                window: WindowModel {
                    highlighted: next_index(old(self)@.window.highlighted, old(self)@.window.candidates.len()),
                    ..old(self)@.window
                },
                ..old(self)@
            }),
    {
        self.candidate_list.move_highlight_next();
    }

    /// Moves the highlight to the previous candidate, wrapping around.
    pub fn move_highlight_prev(&mut self)
        requires
            old(self).wf(),
        ensures
            final(self).wf(),
            old(self)@.window.candidates.len() == 0 ==> final(self)@ == old(self)@,
            old(self)@.window.candidates.len() > 0 ==> final(self)@ == (SessionModel {
                window: WindowModel {
                    highlighted: prev_index(old(self)@.window.highlighted, old(self)@.window.candidates.len()),
                    ..old(self)@.window
                },
                ..old(self)@
            }),
    {
        self.candidate_list.move_highlight_prev();
    }

    /// Closes the host's composition where one is open, finishes the engine's input session,
    /// drops what the session held and hides the candidate window.
    pub fn end_composition(&mut self) -> (r: Vec<HostAction>)
        requires
            old(self).wf(),
        ensures
            final(self).wf(),
            final(self)@ == idle_from(old(self)@.window),
            actions_view(r@) == ending_actions(old(self)@.composing),
    {
        let mut r: Vec<HostAction> = Vec::new();
        self.end_into(&mut r);
        assert(actions_view(r@) =~= ending_actions(old(self)@.composing));
        r
    }

    fn end_into(&mut self, acts: &mut Vec<HostAction>)
        requires
            old(self).wf(),
        ensures
            final(self).wf(),
            final(self)@ == idle_from(old(self)@.window),
            actions_view(final(acts)@) == actions_view(old(acts)@) + ending_actions(
                old(self)@.composing,
            ),
    {
        if self.composing {
            push_action(acts, HostAction::CloseComposition);
        }
        push_action(acts, HostAction::FinishInputSession);
        push_action(acts, HostAction::HideCandidates);
        self.composing = false;
        self.preedit = String::new();
        self.suggestions = None;
        self.candidate_list.hide_window();
        assert(actions_view(acts@) =~= actions_view(old(acts)@) + ending_actions(
            old(self)@.composing,
        ));
    }

    /// Writes `text` over the composition and ends it.
    fn write_and_end(&mut self, text: String, acts: &mut Vec<HostAction>)
        requires
            old(self).wf(),
        ensures
            final(self).wf(),
            final(self)@ == idle_from(old(self)@.window),
            actions_view(final(acts)@) == actions_view(old(acts)@).push(ActionModel::SetText(text@))
                + ending_actions(old(self)@.composing),
    {
        push_action(acts, HostAction::SetText(text));
        self.end_into(acts);
    }

    /// Lists the ranked candidates of `list` in the window, or hides the window where the list
    /// is empty.
    fn update_candidate_list(&mut self, list: &Vec<String>, acts: &mut Vec<HostAction>)
        requires
            old(self).wf(),
            old(self)@.composing,
        ensures
            final(self).wf(),
            final(self)@.composing == old(self)@.composing,
            final(self)@.preedit == old(self)@.preedit,
            final(self)@.suggestions == old(self)@.suggestions,
            list@.len() == 0 ==> final(self)@.window == (WindowModel { visible: false, ..old(self)@.window }),
            list@.len() == 0 ==> actions_view(final(acts)@) == actions_view(old(acts)@).push(
                ActionModel::HideCandidates,
            ),
            list@.len() > 0 ==> final(self)@.window == (WindowModel {
                candidates: shown_prefix(strings_view(list@)),
                highlighted: 0,
                visible: true,
                origin: old(self)@.window.origin,
            }),
            list@.len() > 0 ==> actions_view(final(acts)@) == actions_view(old(acts)@).push(
                ActionModel::ShowCandidates,
            ).push(ActionModel::LocateCandidates),
    {
        if list.len() == 0 {
            self.candidate_list.hide_window();
            push_action(acts, HostAction::HideCandidates);
        } else {
            self.candidate_list.show(list);
            push_action(acts, HostAction::ShowCandidates);
            push_action(acts, HostAction::LocateCandidates);
        }
    }

    /// Takes the engine's answer to a keystroke. A lonely answer becomes the preedit and the
    /// window stays hidden; otherwise the preedit is the summary text, the window lists the
    /// candidates, and the engine's hint, where there is one, is highlighted again.
    pub fn keypress(&mut self, suggestion: CandidateSet) -> (r: Vec<HostAction>)
        requires
            old(self).wf(),
            old(self)@.composing,
        ensures
            final(self).wf(),
            suggestion.lonely() ==> final(self)@ == holding_lonely(old(self)@, suggestion),
            suggestion.lonely() ==> actions_view(r@) == seq![
                ActionModel::UpdatePreedit(suggestion.text_at(0)),
                ActionModel::HideCandidates,
            ],
            !suggestion.lonely() && suggestion.empty() ==> final(self)@ == (SessionModel {
                composing: true,
                preedit: suggestion.aux(),
                suggestions: Some(suggestion),
                window: WindowModel { visible: false, ..old(self)@.window },
            }),
            !suggestion.lonely() && suggestion.empty() ==> actions_view(r@) == seq![
                ActionModel::UpdatePreedit(suggestion.aux()),
                ActionModel::HideCandidates,
            ],
            !suggestion.lonely() && !suggestion.empty() ==> final(self)@ == (SessionModel {
                composing: true,
                preedit: suggestion.aux(),
                suggestions: Some(suggestion),
                window: window_listing(
                    old(self)@.window,
                    suggestion,
                    resumed_highlight(suggestion.prev(), shown_prefix(suggestion.texts()).len()),
                ),
            }),
            !suggestion.lonely() && !suggestion.empty() ==> actions_view(r@) == seq![
                ActionModel::UpdatePreedit(suggestion.aux()),
                ActionModel::ShowCandidates,
                ActionModel::LocateCandidates,
            ] + if resumed_highlight(suggestion.prev(), shown_prefix(suggestion.texts()).len()) != 0 {
                seq![ActionModel::RepaintCandidates]
            } else {
                Seq::empty()
            },
    {
        let mut r: Vec<HostAction> = Vec::new();
        if suggestion.is_lonely() {
            self.preedit = suggestion.get_pre_edit_text(0);
            push_action(&mut r, HostAction::UpdatePreedit(self.preedit.clone()));
            self.suggestions = Some(suggestion);
            self.candidate_list.hide_window();
            push_action(&mut r, HostAction::HideCandidates);
            assert(actions_view(r@) =~= seq![
                ActionModel::UpdatePreedit(suggestion.text_at(0)),
                ActionModel::HideCandidates,
            ]);
        } else {
            self.preedit = suggestion.get_auxiliary_text();
            let prev = suggestion.previously_selected_index();
            let list = suggestion.get_suggestions();
            self.suggestions = Some(suggestion);
            push_action(&mut r, HostAction::UpdatePreedit(self.preedit.clone()));
            self.update_candidate_list(&list, &mut r);
            if list.len() > 0 && prev != 0 {
                if self.candidate_list.set_highlight(prev) {
                    push_action(&mut r, HostAction::RepaintCandidates);
                }
            }
            proof {
                if suggestion.empty() {
                    assert(actions_view(r@) =~= seq![
                        ActionModel::UpdatePreedit(suggestion.aux()),
                        ActionModel::HideCandidates,
                    ]);
                } else {
                    assert(actions_view(r@) =~= seq![
                        ActionModel::UpdatePreedit(suggestion.aux()),
                        ActionModel::ShowCandidates,
                        ActionModel::LocateCandidates,
                    ] + if resumed_highlight(suggestion.prev(), shown_prefix(suggestion.texts()).len())
                        != 0 {
                        seq![ActionModel::RepaintCandidates]
                    } else {
                        Seq::empty()
                    });
                }
            }
        }
        r
    }

    /// Takes the engine's answer to a backspace. An empty answer clears the preedit and aborts;
    /// otherwise it is taken as a keystroke's answer is, but no earlier highlight comes back.
    pub fn pop(&mut self, suggestion: CandidateSet) -> (r: Vec<HostAction>)
        requires
            old(self).wf(),
            old(self)@.composing,
        ensures
            final(self).wf(),
            suggestion.empty() ==> final(self)@ == idle_from(old(self)@.window),
            suggestion.empty() ==> actions_view(r@) == seq![ActionModel::SetText(Seq::empty())]
                + ending_actions(true),
            !suggestion.empty() && suggestion.lonely() ==> final(self)@ == holding_lonely(
                old(self)@,
                suggestion,
            ),
            !suggestion.empty() && suggestion.lonely() ==> actions_view(r@) == seq![
                ActionModel::UpdatePreedit(suggestion.text_at(0)),
                ActionModel::HideCandidates,
            ],
            !suggestion.empty() && !suggestion.lonely() ==> final(self)@ == (SessionModel {
                composing: true,
                preedit: suggestion.aux(),
                suggestions: Some(suggestion),
                window: window_listing(old(self)@.window, suggestion, 0),
            }),
            !suggestion.empty() && !suggestion.lonely() ==> actions_view(r@) == seq![
                ActionModel::UpdatePreedit(suggestion.aux()),
                ActionModel::ShowCandidates,
                ActionModel::LocateCandidates,
            ],
    {
        if suggestion.is_empty() {
            self.preedit = String::new();
            return self.abort();
        }
        let mut r: Vec<HostAction> = Vec::new();
        if suggestion.is_lonely() {
            self.preedit = suggestion.get_pre_edit_text(0);
            self.suggestions = Some(suggestion);
            push_action(&mut r, HostAction::UpdatePreedit(self.preedit.clone()));
            self.candidate_list.hide_window();
            push_action(&mut r, HostAction::HideCandidates);
            assert(actions_view(r@) =~= seq![
                ActionModel::UpdatePreedit(suggestion.text_at(0)),
                ActionModel::HideCandidates,
            ]);
        } else {
            self.preedit = suggestion.get_auxiliary_text();
            let list = suggestion.get_suggestions();
            self.suggestions = Some(suggestion);
            push_action(&mut r, HostAction::UpdatePreedit(self.preedit.clone()));
            self.update_candidate_list(&list, &mut r);
            assert(actions_view(r@) =~= seq![
                ActionModel::UpdatePreedit(suggestion.aux()),
                ActionModel::ShowCandidates,
                ActionModel::LocateCandidates,
            ]);
        }
        r
    }

    /// Chooses the entry at `index`, with `append` written after it. Where a list to choose
    /// from has no such entry nothing happens; otherwise the engine learns the choice, the
    /// entry replaces the composition, and the composition ends.
    pub fn select(&mut self, index: usize, append: Option<char>) -> (r: Vec<HostAction>)
        requires
            old(self).wf(),
            old(self)@.suggestions is Some,
        ensures
            final(self).wf(),
            final(self)@ == select_outcome(old(self)@, index as nat, append).0,
            actions_view(r@) == select_outcome(old(self)@, index as nat, append).1,
    {
        let mut r: Vec<HostAction> = Vec::new();
        let mut text = match &self.suggestions {
            Some(s) => {
                if !s.is_lonely() && index >= s.len() {
                    assert(actions_view(r@) =~= Seq::<ActionModel>::empty());
                    return r;
                }
                s.get_pre_edit_text(index)
            },
            None => {
                return r;
            },
        };
        if let Some(c) = append {
            push_char(&mut text, c);
        }
        push_action(&mut r, HostAction::CandidateCommitted(index));
        self.write_and_end(text, &mut r);
        assert(actions_view(r@) =~= select_outcome(old(self)@, index as nat, append).1);
        r
    }

    /// Chooses the lonely interpretation, or else the highlighted entry; see `select`.
    pub fn commit(&mut self, append: Option<char>) -> (r: Vec<HostAction>)
        requires
            old(self).wf(),
            old(self)@.suggestions is Some,
        ensures
            final(self).wf(),
            final(self)@ == select_outcome(old(self)@, commit_index(old(self)@), append).0,
            actions_view(r@) == select_outcome(old(self)@, commit_index(old(self)@), append).1,
    {
        let lonely = match &self.suggestions {
            Some(s) => s.is_lonely(),
            None => true,
        };
        let selected: usize = if lonely {
            0
        } else {
            self.candidate_list.get_highlighted_index()
        };
        self.select(selected, append)
    }

    /// Ends the composition on a character the engine cannot take: where nothing was
    /// recognised, the character joins the raw preedit and both are written out; otherwise the
    /// first entry is written out, whatever is highlighted.
    pub fn force_commit(&mut self, ch: char) -> (r: Vec<HostAction>)
        requires
            old(self).wf(),
            old(self)@.suggestions is Some,
        ensures
            final(self).wf(),
            final(self)@ == idle_from(old(self)@.window),
            old(self)@.suggestions.unwrap().empty() ==> actions_view(r@) == seq![
                ActionModel::SetText(old(self)@.preedit.push(ch)),
            ] + ending_actions(old(self)@.composing),
            !old(self)@.suggestions.unwrap().empty() ==> actions_view(r@) == seq![
                ActionModel::SetText(old(self)@.suggestions.unwrap().text_at(0)),
            ] + ending_actions(old(self)@.composing),
    {
        let first = match &self.suggestions {
            Some(s) => {
                if s.is_empty() {
                    None
                } else {
                    Some(s.get_pre_edit_text(0))
                }
            },
            None => None,
        };
        match first {
            None => self.force_release(ch),
            Some(text) => {
                let mut r: Vec<HostAction> = Vec::new();
                self.write_and_end(text, &mut r);
                assert(actions_view(r@) =~= seq![
                    ActionModel::SetText(old(self)@.suggestions.unwrap().text_at(0)),
                ] + ending_actions(old(self)@.composing));
                r
            },
        }
    }

    fn force_release(&mut self, ch: char) -> (r: Vec<HostAction>)
        requires
            old(self).wf(),
            old(self)@.composing,
        ensures
            final(self).wf(),
            final(self)@ == idle_from(old(self)@.window),
            actions_view(r@) == seq![ActionModel::SetText(old(self)@.preedit.push(ch))]
                + ending_actions(old(self)@.composing),
    {
        push_char(&mut self.preedit, ch);
        self.release()
    }

    /// Writes the raw preedit out as it stands and ends the composition.
    pub fn release(&mut self) -> (r: Vec<HostAction>)
        requires
            old(self).wf(),
        ensures
            final(self).wf(),
            final(self)@ == idle_from(old(self)@.window),
            actions_view(r@) == seq![ActionModel::SetText(old(self)@.preedit)] + ending_actions(
                old(self)@.composing,
            ),
    {
        let mut r: Vec<HostAction> = Vec::new();
        let text = self.preedit.clone();
        self.write_and_end(text, &mut r);
        assert(Seq::<ActionModel>::empty().push(ActionModel::SetText(old(self)@.preedit))
            =~= seq![ActionModel::SetText(old(self)@.preedit)]);
        r
    }

    /// Gives up the composition from any state: the preedit is written out as it stands, and
    /// the session is idle afterwards.
    pub fn abort(&mut self) -> (r: Vec<HostAction>)
        requires
            old(self).wf(),
        ensures
            final(self).wf(),
            !final(self)@.composing,
            final(self)@ == idle_from(old(self)@.window),
            actions_view(r@) == seq![ActionModel::SetText(old(self)@.preedit)] + ending_actions(
                old(self)@.composing,
            ),
    {
        self.release()
    }
}

} // verus!
