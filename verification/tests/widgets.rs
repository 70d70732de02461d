use ironbar::modules::launcher::pagination::{PageChange, Pagination};
use ironbar::modules::workspaces::button::{Button, Classes};
use ironbar::modules::workspaces::open_state::OpenState;

#[test]
fn pagination_starts_on_the_first_page_with_both_buttons_off() {
    let pagination = Pagination::new(5);
    assert_eq!(pagination.offset(), 1);
    assert_eq!(pagination.page_size(), 5);
    assert!(!pagination.sensitive_back());
    assert!(!pagination.sensitive_fwd());
}

#[test]
fn paging_forward_moves_a_page_and_stops_at_the_last_child() {
    let mut pagination = Pagination::new(5);
    pagination.set_sensitive_fwd(true);
    // the controls and 12 items
    pagination.forward(13);
    assert_eq!(pagination.offset(), 6);
    assert!(pagination.sensitive_fwd());
    assert!(pagination.sensitive_back());
    pagination.forward(13);
    assert_eq!(pagination.offset(), 11);
    assert!(!pagination.sensitive_fwd());
    pagination.forward(13);
    assert_eq!(pagination.offset(), 12);
    assert!(!pagination.sensitive_fwd());
}

#[test]
fn paging_forward_leaves_an_insensitive_button_insensitive() {
    let mut pagination = Pagination::new(2);
    pagination.forward(10);
    assert_eq!(pagination.offset(), 3);
    assert!(!pagination.sensitive_fwd());
    assert!(pagination.sensitive_back());
}

#[test]
fn paging_forward_in_a_container_with_only_the_controls_goes_to_zero() {
    let mut pagination = Pagination::new(3);
    pagination.forward(1);
    assert_eq!(pagination.offset(), 0);
}

#[test]
fn paging_back_moves_a_page_and_stops_at_the_first_item() {
    let mut pagination = Pagination::new(5);
    pagination.set_sensitive_fwd(true);
    pagination.forward(20);
    pagination.forward(20);
    assert_eq!(pagination.offset(), 11);
    pagination.back();
    assert_eq!(pagination.offset(), 6);
    assert!(pagination.sensitive_back());
    assert!(pagination.sensitive_fwd());
    pagination.back();
    assert_eq!(pagination.offset(), 1);
    assert!(!pagination.sensitive_back());
    pagination.back();
    assert_eq!(pagination.offset(), 1);
    assert!(!pagination.sensitive_back());
    assert!(pagination.sensitive_fwd());
}

#[test]
fn paging_back_onto_the_item_of_the_page_size_turns_the_button_off() {
    let mut pagination = Pagination::new(5);
    pagination.set_sensitive_fwd(true);
    // capped by the last child: 1 -> 6 -> 10
    pagination.forward(11);
    pagination.forward(11);
    assert_eq!(pagination.offset(), 10);
    pagination.back();
    assert_eq!(pagination.offset(), 5);
    assert!(!pagination.sensitive_back());
}

#[test]
fn paging_back_to_less_than_a_page_from_the_start_turns_the_button_off() {
    let mut pagination = Pagination::new(5);
    pagination.set_sensitive_fwd(true);
    // capped by the last child: 1 -> 6 -> 7, and back from 7 lands on 2
    pagination.forward(8);
    pagination.forward(8);
    assert_eq!(pagination.offset(), 7);
    pagination.back();
    assert_eq!(pagination.offset(), 2);
    assert!(!pagination.sensitive_back());
}

#[test]
fn paging_stays_within_the_numbers() {
    let mut huge = Pagination::new(usize::MAX);
    huge.set_sensitive_fwd(true);
    huge.forward(3);
    assert_eq!(huge.offset(), 2);
    assert!(!huge.sensitive_fwd());
    huge.back();
    assert_eq!(huge.offset(), 1);
    assert!(!huge.sensitive_back());
    assert_eq!(
        Pagination::update_page(3, 1, usize::MAX),
        vec![PageChange::Keep, PageChange::Show, PageChange::Show]
    );
    assert_eq!(
        Pagination::update_page(3, usize::MAX, usize::MAX),
        vec![PageChange::Keep, PageChange::Hide, PageChange::Hide]
    );
}

#[test]
fn page_shows_its_items_and_leaves_the_controls_alone() {
    assert_eq!(
        Pagination::update_page(7, 3, 2),
        vec![
            PageChange::Keep,
            PageChange::Hide,
            PageChange::Hide,
            PageChange::Show,
            PageChange::Show,
            PageChange::Hide,
            PageChange::Hide,
        ]
    );
    assert_eq!(Pagination::update_page(2, 0, 5), vec![PageChange::Keep, PageChange::Show]);
    assert_eq!(Pagination::update_page(3, 1, 0), vec![PageChange::Keep, PageChange::Hide, PageChange::Hide]);
    assert_eq!(Pagination::update_page(0, 1, 5), vec![]);
}

#[test]
fn open_state_is_visible_when_visible_or_focused() {
    assert!(OpenState::Visible.is_visible());
    assert!(OpenState::Focused.is_visible());
    assert!(!OpenState::Hidden.is_visible());
    assert!(!OpenState::Closed.is_visible());
}

#[test]
fn button_is_labelled_with_the_mapped_name_if_there_is_one() {
    let plain = Button::new(3, "3", OpenState::Hidden, None);
    assert_eq!(plain.label(), "3");
    assert_eq!(plain.workspace_id(), 3);
    assert_eq!(plain.open_state(), OpenState::Hidden);
    let mapped = Button::new(3, "3", OpenState::Hidden, Some("web"));
    assert_eq!(mapped.label(), "web");
}

#[test]
fn button_classes_follow_the_open_state() {
    let mut button = Button::new(1, "1", OpenState::Focused, None);
    assert_eq!(button.update_classes(), Classes { visible: true, focused: true, inactive: false });
    button.set_open_state(OpenState::Visible);
    assert_eq!(button.update_classes(), Classes { visible: true, focused: false, inactive: false });
    button.set_open_state(OpenState::Hidden);
    assert_eq!(button.update_classes(), Classes { visible: false, focused: false, inactive: false });
    button.set_open_state(OpenState::Closed);
    assert_eq!(button.update_classes(), Classes { visible: false, focused: false, inactive: true });
    assert_eq!(button.open_state(), OpenState::Closed);
}

#[test]
fn button_can_stand_for_another_workspace() {
    let mut button = Button::new(1, "1", OpenState::Hidden, None);
    button.set_workspace_id(-5);
    assert_eq!(button.workspace_id(), -5);
    assert_eq!(button.label(), "1");
    assert_eq!(button.open_state(), OpenState::Hidden);
}
