use overlay_core::refine_input::{refine_bar_rect, RefineInput, RefineInputs, RefineMessage};

#[test]
fn submitting_and_polling_a_refine_bar() {
    let mut bar = RefineInput::new(11);
    assert_eq!(bar.on_message("submit:make it formal"), RefineMessage::Submitted);
    assert_eq!(bar.poll(), (true, false, "make it formal".to_string()));
    assert_eq!(bar.poll(), (false, false, String::new()));
    assert_eq!(bar.child, 11);
}

#[test]
fn cancel_dictate_and_unknown_messages() {
    let mut bar = RefineInput::new(1);
    assert_eq!(bar.on_message("mic"), RefineMessage::Dictate);
    assert_eq!(bar.on_message("hello"), RefineMessage::Ignored);
    assert_eq!(bar.poll(), (false, false, String::new()));
    assert_eq!(bar.on_message("cancel"), RefineMessage::Cancelled);
    assert_eq!(bar.poll(), (false, true, String::new()));
}

#[test]
fn the_table_of_refine_bars() {
    let mut bars = RefineInputs::new();
    assert!(!bars.is_any_refine_active());
    assert!(!bars.show_refine_input(100, 7));
    assert!(bars.show_refine_input(100, 8));
    assert_eq!(bars.child_of(100), Some(7));
    assert!(bars.is_refine_input_active(100));
    assert!(bars.is_any_refine_active());
    assert_eq!(bars.message(100, "submit:go"), RefineMessage::Submitted);
    assert_eq!(bars.message(200, "submit:go"), RefineMessage::Ignored);
    assert_eq!(bars.poll_refine_input(100), (true, false, "go".to_string()));
    assert_eq!(bars.poll_refine_input(100), (false, false, String::new()));
    assert_eq!(bars.poll_refine_input(200), (false, false, String::new()));
    assert_eq!(bars.hide_refine_input(100), Some(7));
    assert_eq!(bars.hide_refine_input(100), None);
    assert!(!bars.is_any_refine_active());
}

#[test]
fn refine_bar_placement() {
    assert_eq!(refine_bar_rect(400), (2, 2, 396, 40));
}

#[test]
fn polling_the_table_keeps_unsent_text() {
    let mut bars = RefineInputs::new();
    bars.show_refine_input(1, 9);
    assert_eq!(bars.poll_refine_input(1), (false, false, String::new()));
    assert_eq!(bars.message(1, "submit:abc"), RefineMessage::Submitted);
    assert_eq!(bars.poll_refine_input(1), (true, false, "abc".to_string()));
    assert_eq!(bars.inputs.get(&1).unwrap().text, "");
    assert_eq!(bars.child_of(1), Some(9));
}
