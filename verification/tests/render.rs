use kelvin::date::Date;
use kelvin::models::{Task, TaskState};
use kelvin::render::{
    colored_state, colored_state_padded, date_str, pad_right, state_rgb, title_width,
};

#[test]
fn state_colours() {
    assert_eq!(state_rgb(TaskState::Iced), (0xBB, 0xE8, 0xF2));
    assert_eq!(state_rgb(TaskState::Melting), (0x94, 0xD7, 0xF2));
    assert_eq!(state_rgb(TaskState::Melted), (0x55, 0xB3, 0xD9));
    assert_eq!(state_rgb(TaskState::Evaporated), (0x3F, 0x5F, 0x73));
}

#[test]
fn colored_state_holds_the_name() {
    assert!(colored_state(TaskState::Iced).contains("Iced"));
    assert!(colored_state(TaskState::Evaporated).contains("Evaporated"));
}

#[test]
fn colored_state_is_padded_by_what_is_seen() {
    for (state, spaces) in [
        (TaskState::Iced, 7),
        (TaskState::Melting, 4),
        (TaskState::Melted, 5),
        (TaskState::Evaporated, 1),
    ] {
        let plain = colored_state(state);
        let padded = colored_state_padded(state, 11);
        assert_eq!(padded, format!("{plain}{}", " ".repeat(spaces)));
    }
    let tight = colored_state_padded(TaskState::Melting, 3);
    assert_eq!(tight, colored_state(TaskState::Melting));
    let exact = colored_state_padded(TaskState::Melting, 7);
    assert_eq!(exact, colored_state(TaskState::Melting));
}

#[test]
fn pad_right_adds_spaces() {
    assert_eq!(pad_right("ab".to_string(), 3), "ab   ");
    assert_eq!(pad_right("ab".to_string(), 0), "ab");
    assert_eq!(pad_right(String::new(), 2), "  ");
}

#[test]
fn date_str_of_a_date_and_of_none() {
    assert_eq!(date_str(Date::from_ymd_opt(2026, 1, 8)), "2026-01-08");
    assert_eq!(date_str(None), "-");
}

fn titled(title: &str, state: TaskState) -> Task {
    Task {
        id: 1,
        title: title.to_string(),
        description: String::new(),
        state,
        thaw_date: None,
        due_date: None,
        created_at: Date::from_ymd_opt(2026, 1, 1).unwrap(),
    }
}

#[test]
fn title_width_is_that_of_the_longest_title_shown() {
    let tasks = vec![
        titled("Buy milk", TaskState::Melted),
        titled("A much longer title, put on ice", TaskState::Iced),
        titled("Done and dusted", TaskState::Evaporated),
        titled("Call", TaskState::Melting),
    ];
    assert_eq!(title_width(&tasks, false, false), 8);
    assert_eq!(title_width(&tasks, true, false), 31);
    assert_eq!(title_width(&tasks, false, true), 31);
    assert_eq!(title_width(&tasks[2..], false, false), 4);
    assert_eq!(title_width(&tasks[2..], false, true), 15);
    assert_eq!(title_width(&[], false, true), 4);
    assert_eq!(title_width(&[titled("ab", TaskState::Melted)], false, false), 4);
}

#[test]
fn title_width_counts_bytes() {
    let tasks = vec![titled("café au lait", TaskState::Melted)];
    assert_eq!(title_width(&tasks, false, false), 13);
}

#[test]
fn colored_state_is_the_name_plain_or_wrapped() {
    for state in
        [TaskState::Iced, TaskState::Melting, TaskState::Melted, TaskState::Evaporated]
    {
        let name = state.to_string();
        let shown = colored_state(state);
        assert!(shown == name || shown.ends_with(&format!("{name}\x1b[0m")), "{shown:?}");
    }
}

#[test]
fn colored_state_without_colours_is_the_name() {
    colored::control::set_override(false);
    assert_eq!(colored_state(TaskState::Iced), "Iced");
    assert_eq!(colored_state(TaskState::Evaporated), "Evaporated");
    colored::control::unset_override();
}

#[test]
fn colored_state_with_colours_wraps_the_name() {
    colored::control::set_override(true);
    let shown = colored_state(TaskState::Melting);
    colored::control::unset_override();
    assert!(shown.starts_with("\x1b["), "{shown:?}");
    assert!(shown.ends_with("mMelting\x1b[0m"), "{shown:?}");
    assert_ne!(shown, "Melting");
}
