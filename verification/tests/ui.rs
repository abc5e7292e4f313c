use honeybee::card::View;
use honeybee::ui::{button_action, card_class, card_id, card_uri, ButtonAction};

#[test]
fn buttons() {
    assert_eq!(button_action("ob_delete"), ButtonAction::Delete);
    assert_eq!(button_action("ob_edit"), ButtonAction::Edit);
    assert_eq!(button_action("ob_status"), ButtonAction::Status);
    assert_eq!(button_action("ob_save"), ButtonAction::Save);
    assert_eq!(button_action("ob_close"), ButtonAction::Other);
    assert_eq!(button_action(""), ButtonAction::Other);
}

#[test]
fn card_elements() {
    assert_eq!(card_id("Alarm", "A 1"), "Alarm_A 1");
    assert_eq!(card_id("", ""), "_");
    assert_eq!(card_uri("/iris/api/alarm", "A 1"), "/iris/api/alarm/A%201");
    assert_eq!(card_class(View::Compact), "card");
    assert_eq!(card_class(View::CreateCompact), "card");
    assert_eq!(card_class(View::Edit), "form");
    assert_eq!(card_class(View::Status), "form");
}
