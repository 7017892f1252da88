use marge::candidate::MergeCandidate;
use marge::events::{AppEvent, KeyCode, KeyInput};
use marge::state::{ActivePane, AppState, SortingState, WorkingState};
use marge::transition::transition_waiting_sort;

fn candidate(number: u64) -> MergeCandidate {
    MergeCandidate::new(number, format!("branch-{number}"), None, "main".to_string())
}

fn key(code: KeyCode) -> AppEvent {
    AppEvent::Input(KeyInput { code, modifiers: 0 })
}

fn sorting(unsorted: &[u64], current_index: usize, chain: &[u64]) -> SortingState {
    SortingState {
        unsorted: unsorted.iter().map(|n| candidate(*n)).collect(),
        current_index,
        merge_chain: chain.iter().map(|n| candidate(*n)).collect(),
    }
}

fn press(state: SortingState, code: KeyCode) -> AppState {
    let (next, launch) = transition_waiting_sort(&ActivePane::List, &key(code), state);
    assert_eq!(launch, None);
    next
}

#[test]
fn up_wraps_from_first_to_last() {
    assert_eq!(press(sorting(&[1, 2, 3], 0, &[]), KeyCode::Up), AppState::WaitingForSort(sorting(&[1, 2, 3], 2, &[])));
    assert_eq!(press(sorting(&[1, 2, 3], 2, &[]), KeyCode::Up), AppState::WaitingForSort(sorting(&[1, 2, 3], 1, &[])));
}

#[test]
fn down_wraps_from_last_to_first() {
    assert_eq!(press(sorting(&[1, 2, 3], 2, &[]), KeyCode::Down), AppState::WaitingForSort(sorting(&[1, 2, 3], 0, &[])));
    assert_eq!(press(sorting(&[1, 2, 3], 0, &[]), KeyCode::Down), AppState::WaitingForSort(sorting(&[1, 2, 3], 1, &[])));
}

#[test]
fn up_then_down_returns_the_cursor() {
    for start in 0..3 {
        let AppState::WaitingForSort(moved) = press(sorting(&[1, 2, 3], start, &[]), KeyCode::Up) else {
            panic!("left the ordering stage");
        };
        assert_eq!(press(moved, KeyCode::Down), AppState::WaitingForSort(sorting(&[1, 2, 3], start, &[])));
        let AppState::WaitingForSort(moved) = press(sorting(&[1, 2, 3], start, &[]), KeyCode::Down) else {
            panic!("left the ordering stage");
        };
        assert_eq!(press(moved, KeyCode::Up), AppState::WaitingForSort(sorting(&[1, 2, 3], start, &[])));
    }
}

#[test]
fn cursor_keys_on_an_empty_list_change_nothing() {
    assert_eq!(press(sorting(&[], 0, &[4]), KeyCode::Up), AppState::WaitingForSort(sorting(&[], 0, &[4])));
    assert_eq!(press(sorting(&[], 0, &[4]), KeyCode::Down), AppState::WaitingForSort(sorting(&[], 0, &[4])));
}

#[test]
fn enter_appends_the_selected_candidate() {
    assert_eq!(press(sorting(&[1, 2, 3], 1, &[9]), KeyCode::Enter), AppState::WaitingForSort(sorting(&[1, 3], 0, &[9, 2])));
    assert_eq!(press(sorting(&[], 0, &[9]), KeyCode::Enter), AppState::WaitingForSort(sorting(&[], 0, &[9])));
}

#[test]
fn escape_takes_back_the_end_of_the_chain() {
    assert_eq!(press(sorting(&[1], 0, &[9, 2]), KeyCode::Esc), AppState::WaitingForSort(sorting(&[1, 2], 0, &[9])));
    assert_eq!(press(sorting(&[1], 0, &[]), KeyCode::Esc), AppState::WaitingForSort(sorting(&[1], 0, &[])));
}

#[test]
fn enter_then_escape_restores_contents() {
    let AppState::WaitingForSort(entered) = press(sorting(&[1, 2, 3], 2, &[7]), KeyCode::Enter) else {
        panic!("left the ordering stage");
    };
    assert_eq!(press(entered, KeyCode::Esc), AppState::WaitingForSort(sorting(&[1, 2, 3], 0, &[7])));
    let AppState::WaitingForSort(entered) = press(sorting(&[1, 2, 3], 0, &[7]), KeyCode::Enter) else {
        panic!("left the ordering stage");
    };
    assert_eq!(press(entered, KeyCode::Esc), AppState::WaitingForSort(sorting(&[2, 3, 1], 0, &[7])));
}

#[test]
fn candidates_are_neither_lost_nor_made() {
    let mut state = sorting(&[1, 2, 3, 4], 0, &[]);
    for code in [KeyCode::Down, KeyCode::Enter, KeyCode::Up, KeyCode::Enter, KeyCode::Esc, KeyCode::Down, KeyCode::Enter] {
        let AppState::WaitingForSort(next) = press(state, code) else {
            panic!("left the ordering stage");
        };
        assert_eq!(next.unsorted.len() + next.merge_chain.len(), 4);
        assert!(next.unsorted.is_empty() || next.current_index < next.unsorted.len());
        state = next;
    }
}

#[test]
fn space_starts_the_chain_or_ends_an_empty_session() {
    assert_eq!(
        press(sorting(&[3], 0, &[2, 1]), KeyCode::Char(' ')),
        AppState::UpdatingCandidate(WorkingState { current_checkout: candidate(2), next: vec![candidate(1)], done: vec![] })
    );
    assert_eq!(press(sorting(&[1, 2], 1, &[]), KeyCode::Char(' ')), AppState::Done);
}

#[test]
fn other_keys_and_events_leave_the_ordering() {
    assert_eq!(press(sorting(&[1, 2], 1, &[3]), KeyCode::Char('x')), AppState::WaitingForSort(sorting(&[1, 2], 1, &[3])));
    assert_eq!(press(sorting(&[1, 2], 1, &[3]), KeyCode::Other), AppState::WaitingForSort(sorting(&[1, 2], 1, &[3])));
    let (next, _) = transition_waiting_sort(&ActivePane::List, &AppEvent::Tick, sorting(&[1, 2], 1, &[3]));
    assert_eq!(next, AppState::WaitingForSort(sorting(&[1, 2], 1, &[3])));
    let (next, _) = transition_waiting_sort(&ActivePane::List, &AppEvent::Signal, sorting(&[1, 2], 1, &[3]));
    assert_eq!(next, AppState::WaitingForSort(sorting(&[1, 2], 1, &[3])));
}

#[test]
fn focused_log_pane_ignores_keys() {
    let (next, launch) = transition_waiting_sort(&ActivePane::Log, &key(KeyCode::Enter), sorting(&[1, 2], 0, &[]));
    assert_eq!(next, AppState::WaitingForSort(sorting(&[1, 2], 0, &[])));
    assert_eq!(launch, None);
}

#[test]
fn error_event_fails_the_ordering() {
    let (next, _) = transition_waiting_sort(&ActivePane::Log, &AppEvent::Error("gone".to_string()), sorting(&[1], 0, &[]));
    assert_eq!(next, AppState::Failed);
}
