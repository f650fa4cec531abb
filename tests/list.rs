use floem_update::id::ViewId;
use floem_update::list::{
    click, effect_of, is_selected, list, navigate, EventPropagation, ListEffect, ListKey,
    ListReaction, ListUpdate,
};

fn stop(select: Option<usize>, message: Option<ListUpdate>) -> ListReaction {
    ListReaction { select, message, propagation: EventPropagation::Stop }
}

#[test]
fn navigation_of_five_items() {
    let l = list(ViewId { raw: 0 }, 5);
    let r = l.key_down(ListKey::ArrowUp);
    assert_eq!(r, stop(Some(4), Some(ListUpdate::ScrollToSelected)));
    assert_eq!(l.selection().get_untracked(), Some(4));
    assert_eq!(l.key_down(ListKey::End).select, Some(4));
    assert_eq!(l.selection().get_untracked(), Some(4));
    assert_eq!(l.key_down(ListKey::Home).select, Some(0));
    assert_eq!(l.selection().get_untracked(), Some(0));
    l.key_down(ListKey::End);
    let r = l.key_down(ListKey::ArrowDown);
    assert_eq!(r, stop(None, None));
    assert_eq!(l.selection().get_untracked(), Some(4));
}

#[test]
fn enter_accepts_every_time() {
    let l = list(ViewId { raw: 1 }, 5);
    for _ in 0..3 {
        assert_eq!(l.key_down(ListKey::Enter), stop(None, Some(ListUpdate::Accept)));
        assert_eq!(l.update(ListUpdate::Accept), ListEffect::Accept(None));
    }
    l.key_down(ListKey::Home);
    for _ in 0..2 {
        assert_eq!(l.key_down(ListKey::Enter), stop(None, Some(ListUpdate::Accept)));
        assert_eq!(l.update(ListUpdate::Accept), ListEffect::Accept(Some(0)));
    }
}

#[test]
fn other_keys_pass_through() {
    let l = list(ViewId { raw: 2 }, 3);
    let r = l.key_down(ListKey::Other);
    assert_eq!(r, ListReaction { select: None, message: None, propagation: EventPropagation::Continue });
    assert_eq!(l.selection().get_untracked(), None);
}

#[test]
fn empty_list_keys() {
    for key in [ListKey::Home, ListKey::End, ListKey::ArrowUp, ListKey::ArrowDown] {
        assert_eq!(navigate(key, 0, None), stop(None, None));
    }
    assert_eq!(navigate(ListKey::Enter, 0, None), stop(None, Some(ListUpdate::Accept)));
}

#[test]
fn arrows_move_by_one() {
    assert_eq!(navigate(ListKey::ArrowDown, 5, None), stop(Some(0), Some(ListUpdate::ScrollToSelected)));
    assert_eq!(navigate(ListKey::ArrowDown, 5, Some(2)), stop(Some(3), Some(ListUpdate::ScrollToSelected)));
    assert_eq!(navigate(ListKey::ArrowUp, 5, Some(2)), stop(Some(1), Some(ListUpdate::ScrollToSelected)));
    assert_eq!(navigate(ListKey::ArrowUp, 5, Some(0)), stop(None, None));
    assert_eq!(navigate(ListKey::ArrowDown, 5, Some(4)), stop(None, None));
    assert_eq!(navigate(ListKey::Home, 5, Some(3)), stop(Some(0), Some(ListUpdate::ScrollToSelected)));
}

#[test]
fn click_selects_and_accepts_once() {
    assert_eq!(click(2, None), stop(Some(2), Some(ListUpdate::Accept)));
    assert_eq!(click(2, Some(1)), stop(Some(2), Some(ListUpdate::Accept)));
    assert_eq!(click(2, Some(2)), stop(None, None));
    let l = list(ViewId { raw: 3 }, 4);
    assert_eq!(l.item_clicked(1), stop(Some(1), Some(ListUpdate::Accept)));
    assert_eq!(l.selection().get_untracked(), Some(1));
    assert_eq!(l.item_clicked(1), stop(None, None));
}

#[test]
fn update_effects() {
    assert_eq!(effect_of(ListUpdate::SelectionChanged, Some(1), 3), ListEffect::RestyleAll);
    assert_eq!(effect_of(ListUpdate::ScrollToSelected, Some(1), 3), ListEffect::ScrollTo(1));
    assert_eq!(effect_of(ListUpdate::ScrollToSelected, Some(3), 3), ListEffect::Nothing);
    assert_eq!(effect_of(ListUpdate::ScrollToSelected, None, 3), ListEffect::Nothing);
    assert_eq!(effect_of(ListUpdate::Accept, Some(2), 3), ListEffect::Accept(Some(2)));
    let l = list(ViewId { raw: 4 }, 3);
    l.key_down(ListKey::End);
    assert_eq!(l.update(ListUpdate::ScrollToSelected), ListEffect::ScrollTo(2));
    assert_eq!(l.update(ListUpdate::SelectionChanged), ListEffect::RestyleAll);
}

#[test]
fn selected_item() {
    assert!(is_selected(2, Some(2)));
    assert!(!is_selected(2, Some(1)));
    assert!(!is_selected(0, None));
}

#[test]
fn empty_list_keys_are_consumed() {
    let l = list(ViewId { raw: 5 }, 0);
    for key in [ListKey::Home, ListKey::End, ListKey::ArrowUp, ListKey::ArrowDown] {
        assert_eq!(l.key_down(key), stop(None, None));
    }
    assert_eq!(l.key_down(ListKey::Enter), stop(None, Some(ListUpdate::Accept)));
    assert_eq!(l.selection().get_untracked(), None);
}

#[test]
fn end_then_home_on_five_items() {
    let l = list(ViewId { raw: 6 }, 5);
    assert_eq!(l.key_down(ListKey::End), stop(Some(4), Some(ListUpdate::ScrollToSelected)));
    assert_eq!(l.key_down(ListKey::Home), stop(Some(0), Some(ListUpdate::ScrollToSelected)));
    assert_eq!(l.key_down(ListKey::ArrowUp), stop(None, None));
    assert_eq!(l.selection().get_untracked(), Some(0));
}
