use openbangla_ime::candidates::CandidateSet;
use openbangla_ime::composition::{caret_position, HostAction, TextServiceInner};

fn full(items: &[&str], auxiliary: &str, selection: usize) -> CandidateSet {
    CandidateSet::Full {
        suggestions: items.iter().map(|s| s.to_string()).collect(),
        auxiliary: auxiliary.to_string(),
        selection,
    }
}

fn lonely(text: &str) -> CandidateSet {
    CandidateSet::Lonely { text: text.to_string() }
}

fn composing() -> TextServiceInner {
    let mut session = TextServiceInner::new();
    let actions = session.start_composition();
    assert_eq!(actions, vec![HostAction::OpenComposition, HostAction::LocateCandidates]);
    session
}

fn ending(mut before: Vec<HostAction>) -> Vec<HostAction> {
    before.push(HostAction::CloseComposition);
    before.push(HostAction::FinishInputSession);
    before.push(HostAction::HideCandidates);
    before
}

#[test]
fn lonely_suggestion_becomes_preedit_and_hides_window() {
    let mut session = composing();
    session.keypress(full(&["আমি", "আমী"], "ami", 0));
    assert!(session.candidate_list().is_visible());
    let actions = session.keypress(lonely("আমার"));
    assert_eq!(session.preedit(), "আমার");
    assert!(!session.candidate_list().is_visible());
    assert_eq!(
        actions,
        vec![HostAction::UpdatePreedit("আমার".to_string()), HostAction::HideCandidates]
    );
}

#[test]
fn full_suggestion_shows_the_list() {
    let mut session = composing();
    let actions = session.keypress(full(&["আমি", "আমী", "অমি"], "ami", 0));
    assert_eq!(session.preedit(), "ami");
    assert!(session.candidate_list().is_visible());
    assert_eq!(session.candidate_list().get_candidate_count(), 3);
    assert_eq!(session.candidate_list().get_highlighted_index(), 0);
    assert_eq!(
        actions,
        vec![
            HostAction::UpdatePreedit("ami".to_string()),
            HostAction::ShowCandidates,
            HostAction::LocateCandidates,
        ]
    );
}

#[test]
fn previous_selection_is_highlighted_again() {
    let mut session = composing();
    let actions = session.keypress(full(&["আমি", "আমী", "অমি"], "ami", 2));
    assert_eq!(session.candidate_list().get_highlighted_index(), 2);
    assert_eq!(session.selection_hint(), 2);
    assert_eq!(actions.last(), Some(&HostAction::RepaintCandidates));
    // a hint past the list is ignored
    session.keypress(full(&["আমি", "আমী"], "ami", 5));
    assert_eq!(session.candidate_list().get_highlighted_index(), 0);
}

#[test]
fn empty_full_suggestion_hides_window() {
    let mut session = composing();
    session.keypress(full(&["আমি"], "ami", 0));
    let actions = session.keypress(full(&[], "a", 0));
    assert!(!session.candidate_list().is_visible());
    assert_eq!(actions, vec![HostAction::UpdatePreedit("a".to_string()), HostAction::HideCandidates]);
}

#[test]
fn select_out_of_range_is_noop() {
    let mut session = composing();
    session.keypress(full(&["আমি", "আমী", "অমি"], "ami", 0));
    let actions = session.select(3, None);
    assert!(actions.is_empty());
    assert!(session.is_composing());
    assert_eq!(session.preedit(), "ami");
    assert!(session.candidate_list().is_visible());
    assert!(session.suggestions().is_some());
}

#[test]
fn select_writes_the_entry_and_ends() {
    let mut session = composing();
    session.keypress(full(&["আমি", "আমী", "অমি"], "ami", 0));
    let actions = session.select(1, Some(' '));
    assert_eq!(
        actions,
        ending(vec![HostAction::CandidateCommitted(1), HostAction::SetText("আমী ".to_string())])
    );
    assert!(!session.is_composing());
    assert_eq!(session.preedit(), "");
    assert!(session.suggestions().is_none());
    assert!(!session.candidate_list().is_visible());
}

#[test]
fn commit_takes_the_highlighted_entry() {
    let mut session = composing();
    session.keypress(full(&["আমি", "আমী", "অমি"], "ami", 0));
    session.move_highlight_next();
    session.move_highlight_next();
    let actions = session.commit(None);
    assert_eq!(
        actions,
        ending(vec![HostAction::CandidateCommitted(2), HostAction::SetText("অমি".to_string())])
    );
    assert!(!session.is_composing());
}

#[test]
fn commit_of_lonely_takes_its_text() {
    let mut session = composing();
    session.keypress(lonely("ক"));
    let actions = session.commit(Some('.'));
    assert_eq!(
        actions,
        ending(vec![HostAction::CandidateCommitted(0), HostAction::SetText("ক.".to_string())])
    );
}

#[test]
fn force_commit_writes_first_entry() {
    let mut session = composing();
    session.keypress(full(&["আমি", "আমী"], "ami", 0));
    session.move_highlight_next();
    let actions = session.force_commit('!');
    assert_eq!(actions, ending(vec![HostAction::SetText("আমি".to_string())]));
    assert!(!session.is_composing());
}

#[test]
fn force_commit_without_suggestions_releases_raw_text() {
    let mut session = composing();
    session.keypress(full(&[], "q", 0));
    let actions = session.force_commit('!');
    assert_eq!(actions, ending(vec![HostAction::SetText("q!".to_string())]));
    assert_eq!(session.preedit(), "");
}

#[test]
fn release_writes_raw_preedit() {
    let mut session = composing();
    session.keypress(full(&["আমি"], "ami", 0));
    let actions = session.release();
    assert_eq!(actions, ending(vec![HostAction::SetText("ami".to_string())]));
    assert!(!session.is_composing());
}

#[test]
fn abort_from_empty_preedit_goes_idle() {
    let mut session = composing();
    let actions = session.abort();
    assert_eq!(actions, ending(vec![HostAction::SetText(String::new())]));
    assert!(!session.is_composing());
    let mut idle = TextServiceInner::new();
    let actions = idle.abort();
    assert_eq!(
        actions,
        vec![
            HostAction::SetText(String::new()),
            HostAction::FinishInputSession,
            HostAction::HideCandidates,
        ]
    );
    assert!(!idle.is_composing());
}

#[test]
fn abort_with_candidates_goes_idle() {
    let mut session = composing();
    session.keypress(full(&["আমি", "আমী"], "ami", 0));
    let actions = session.abort();
    assert_eq!(actions, ending(vec![HostAction::SetText("ami".to_string())]));
    assert!(!session.is_composing());
    assert!(!session.candidate_list().is_visible());
}

#[test]
fn empty_backspace_clears_and_aborts() {
    let mut session = composing();
    session.keypress(full(&["আ"], "a", 0));
    let actions = session.pop(full(&[], "", 0));
    assert_eq!(actions, ending(vec![HostAction::SetText(String::new())]));
    assert_eq!(session.preedit(), "");
    assert!(!session.is_composing());
    assert!(!session.candidate_list().is_visible());
}

#[test]
fn backspace_does_not_restore_highlight() {
    let mut session = composing();
    session.keypress(full(&["আমি", "আমী"], "ami", 0));
    session.move_highlight_next();
    let actions = session.pop(full(&["আম", "অম"], "am", 1));
    assert_eq!(session.candidate_list().get_highlighted_index(), 0);
    assert_eq!(session.preedit(), "am");
    assert_eq!(
        actions,
        vec![
            HostAction::UpdatePreedit("am".to_string()),
            HostAction::ShowCandidates,
            HostAction::LocateCandidates,
        ]
    );
}

#[test]
fn backspace_to_lonely_hides_window() {
    let mut session = composing();
    session.keypress(full(&["আমি", "আমী"], "ami", 0));
    let actions = session.pop(lonely("আ"));
    assert_eq!(session.preedit(), "আ");
    assert!(!session.candidate_list().is_visible());
    assert_eq!(actions, vec![HostAction::UpdatePreedit("আ".to_string()), HostAction::HideCandidates]);
}

#[test]
fn end_composition_keeps_window_contents() {
    let mut session = composing();
    session.keypress(full(&["আমি", "আমী"], "ami", 0));
    let actions = session.end_composition();
    assert_eq!(
        actions,
        vec![
            HostAction::CloseComposition,
            HostAction::FinishInputSession,
            HostAction::HideCandidates,
        ]
    );
    assert_eq!(session.candidate_list().get_candidate_count(), 2);
    assert!(!session.candidate_list().is_visible());
}

#[test]
fn locate_candidates_moves_window() {
    let mut session = composing();
    session.locate_candidates(10, 20);
    assert_eq!(session.candidate_list().origin(), (12, 22));
}

#[test]
fn bogus_caret_positions_are_dropped() {
    assert_eq!(caret_position((0, 0)), None);
    assert_eq!(caret_position((-5, 0)), None);
    assert_eq!(caret_position((0, 7)), Some((0, 7)));
    assert_eq!(caret_position((40, -2)), Some((40, -2)));
}

#[test]
fn candidate_set_accessors() {
    let set = full(&["আমি", "আমী"], "ami", 1);
    assert!(!set.is_lonely());
    assert!(!set.is_empty());
    assert_eq!(set.len(), 2);
    assert_eq!(set.get_pre_edit_text(1), "আমী");
    assert_eq!(set.get_auxiliary_text(), "ami");
    assert_eq!(set.previously_selected_index(), 1);
    assert_eq!(set.get_suggestions(), vec!["আমি", "আমী"]);
    let one = lonely("ক");
    assert!(one.is_lonely());
    assert_eq!(one.len(), 1);
    assert_eq!(one.get_pre_edit_text(0), "ক");
    assert_eq!(one.previously_selected_index(), 0);
    assert!(lonely("").is_empty());
}

#[test]
fn ending_an_idle_session_closes_nothing() {
    let mut session = TextServiceInner::new();
    let actions = session.end_composition();
    assert_eq!(actions, vec![HostAction::FinishInputSession, HostAction::HideCandidates]);
    assert!(!actions.contains(&HostAction::CloseComposition));
    let actions = session.release();
    assert_eq!(
        actions,
        vec![
            HostAction::SetText(String::new()),
            HostAction::FinishInputSession,
            HostAction::HideCandidates,
        ]
    );
    assert!(!session.is_composing());
}
