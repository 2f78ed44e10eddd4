use chill_overlay::window::{toggle_visibility, VisibilityChange};

fn visible_after(change: VisibilityChange) -> bool {
    match change {
        VisibilityChange::Hide => false,
        VisibilityChange::ShowAndFocus => true,
    }
}

#[test]
fn a_visible_window_is_hidden() {
    assert_eq!(toggle_visibility(Some(true)), VisibilityChange::Hide);
}

#[test]
fn a_hidden_window_is_shown_and_focused() {
    assert_eq!(toggle_visibility(Some(false)), VisibilityChange::ShowAndFocus);
}

#[test]
fn a_failed_query_counts_as_hidden() {
    assert_eq!(toggle_visibility(None), VisibilityChange::ShowAndFocus);
}

#[test]
fn toggling_twice_restores_visibility() {
    for before in [true, false] {
        let first = visible_after(toggle_visibility(Some(before)));
        assert_ne!(first, before);
        let second = visible_after(toggle_visibility(Some(first)));
        assert_eq!(second, before);
    }
}
