use calendula::calendar::{Calendar, CreateCalendarCommand, UpdateCalendarCommand};
use calendula::item::{CreateItemCommand, UpdateItemCommand};

#[test]
fn create_calendar_command_builds_the_calendar() {
    let cmd = CreateCalendarCommand {
        name: Some("Work".to_string()),
        description: None,
        color: Some("#FF0000".to_string()),
    };
    let c: Calendar = cmd.into_calendar("abc-123".to_string());
    assert_eq!(c.id, "abc-123");
    assert_eq!(c.display_name, Some("Work".to_string()));
    assert_eq!(c.description, None);
    assert_eq!(c.color, Some("#FF0000".to_string()));
}

#[test]
fn update_calendar_command_keeps_its_id() {
    let cmd = UpdateCalendarCommand {
        id: "cal-1".to_string(),
        name: Some("Home".to_string()),
        description: Some("family".to_string()),
        color: None,
    };
    let c = cmd.into_calendar();
    assert_eq!(c.id, "cal-1");
    assert_eq!(c.display_name, Some("Home".to_string()));
    assert_eq!(c.description, Some("family".to_string()));
    assert_eq!(c.color, None);
}

#[test]
fn item_commands_carry_payload_and_ids() {
    let create = CreateItemCommand { calendar_id: "cal-1".to_string() };
    let item = create.into_item("uid-9".to_string(), "BEGIN:VCALENDAR".to_string());
    assert_eq!(item.id, "uid-9");
    assert_eq!(item.calendar_id, "cal-1");
    assert_eq!(item.ical, "BEGIN:VCALENDAR");

    let update = UpdateItemCommand {
        calendar_id: "cal-1".to_string(),
        item_id: "uid-9".to_string(),
    };
    let item = update.into_item("END:VCALENDAR".to_string());
    assert_eq!(item.id, "uid-9");
    assert_eq!(item.calendar_id, "cal-1");
    assert_eq!(item.ical, "END:VCALENDAR");
}
