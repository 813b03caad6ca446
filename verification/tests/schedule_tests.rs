use topic_digest::schedule::{is_due, CustomEmail, Weekday};

fn all_days() -> Vec<Weekday> {
    vec![
        Weekday::Mon,
        Weekday::Tue,
        Weekday::Wed,
        Weekday::Thu,
        Weekday::Fri,
        Weekday::Sat,
        Weekday::Sun,
    ]
}

fn config_with(schedule: Vec<Weekday>) -> CustomEmail {
    CustomEmail {
        topic: "latest funding programs".to_string(),
        subject: "New opportunities".to_string(),
        schedule,
        send_to: "a@b.com".to_string(),
    }
}

#[test]
fn due_iff_member_over_every_day_and_singleton_set() {
    for member in all_days() {
        let config = config_with(vec![member]);
        for today in all_days() {
            assert_eq!(is_due(&config, today), today == member);
        }
    }
}

#[test]
fn due_iff_member_for_multi_day_schedule() {
    let config = config_with(vec![Weekday::Tue, Weekday::Wed, Weekday::Fri]);
    for today in all_days() {
        let expected =
            today == Weekday::Tue || today == Weekday::Wed || today == Weekday::Fri;
        assert_eq!(is_due(&config, today), expected);
    }
}

#[test]
fn empty_schedule_is_never_due() {
    let config = config_with(vec![]);
    for today in all_days() {
        assert!(!is_due(&config, today));
    }
}

#[test]
fn full_schedule_is_always_due() {
    let config = config_with(all_days());
    for today in all_days() {
        assert!(is_due(&config, today));
    }
}

#[test]
fn duplicate_entries_do_not_change_membership() {
    let config = config_with(vec![Weekday::Sat, Weekday::Sat]);
    assert!(is_due(&config, Weekday::Sat));
    assert!(!is_due(&config, Weekday::Sun));
}
