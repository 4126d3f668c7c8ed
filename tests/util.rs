use tellmewhy::util::{
    get_input_prefix, get_input_suffix, insert_char_into_input, remove_char_from_input, truncate,
};
use tellmewhy::{Config, Role, State, Status};

#[test]
fn util_t_get_input_prefix() {
    assert_eq!(get_input_prefix(&String::from("test"), 4), String::from("test"));
    assert_eq!(get_input_prefix(&String::from("test"), 2), String::from("te"));
}

#[test]
fn util_t_get_input_suffix() {
    assert_eq!(get_input_suffix(&String::from("test"), 2), String::from("st"));
    assert_eq!(get_input_suffix(&String::from("test"), 4), String::from(""));
}

#[test]
fn util_t_insert_char_into_input_x_end() {
    let mut state: State<String> = State {
        input: Some("tes".into()),
        cursor_position: 4,
        role: Role::Active,
        status: Status::Neutral,
    };
    let config = Config {
        prompt_text: "".into(),
        prompt_hint: "".into(),
        max_display_width: None,
        max_length: None,
    };
    insert_char_into_input(&mut state, &config, 't');
    assert_eq!(state.input, Some("test".into()));
}

#[test]
fn util_t_insert_char_into_input_x_beginning() {
    let mut state: State<String> = State {
        input: Some("est".into()),
        cursor_position: 0,
        role: Role::Active,
        status: Status::Neutral,
    };
    let config = Config {
        prompt_text: "".into(),
        prompt_hint: "".into(),
        max_display_width: None,
        max_length: None,
    };
    insert_char_into_input(&mut state, &config, 't');
    assert_eq!(state.input, Some("test".into()));
}

#[test]
fn util_t_insert_char_into_input_x_middle() {
    let mut state: State<String> = State {
        input: Some("tst".into()),
        cursor_position: 1,
        role: Role::Active,
        status: Status::Neutral,
    };
    let config = Config {
        prompt_text: "".into(),
        prompt_hint: "".into(),
        max_display_width: None,
        max_length: None,
    };
    insert_char_into_input(&mut state, &config, 'e');
    assert_eq!(state.input, Some("test".into()));
}

#[test]
fn util_t_insert_char_into_input_x_reaching_limit() {
    let mut state: State<String> = State {
        input: Some("test".into()),
        cursor_position: 0,
        role: Role::Active,
        status: Status::Neutral,
    };
    let config = Config {
        prompt_text: "".into(),
        prompt_hint: "".into(),
        max_display_width: None,
        max_length: Some(4),
    };
    insert_char_into_input(&mut state, &config, 't');
    assert_eq!(state.input, Some("test".into()));
}

#[test]
fn util_t_remove_char_from_input_x_end() {
    let mut state: State<String> = State {
        input: Some("test".into()),
        cursor_position: 4,
        role: Role::Active,
        status: Status::Neutral,
    };
    let config = Config {
        prompt_text: "".into(),
        prompt_hint: "".into(),
        max_display_width: None,
        max_length: None,
    };
    remove_char_from_input(&mut state, &config);
    assert_eq!(state.input, Some("tes".into()));
}

#[test]
fn util_t_remove_char_from_input_x_beginning() {
    let mut state: State<String> = State {
        input: Some("test".into()),
        cursor_position: 0,
        role: Role::Active,
        status: Status::Neutral,
    };
    let config = Config {
        prompt_text: "".into(),
        prompt_hint: "".into(),
        max_display_width: None,
        max_length: None,
    };
    remove_char_from_input(&mut state, &config);
    assert_eq!(state.input, Some("test".into()));
}

#[test]
fn util_t_remove_char_from_input_x_middle() {
    let mut state: State<String> = State {
        input: Some("test".into()),
        cursor_position: 2,
        role: Role::Active,
        status: Status::Neutral,
    };
    let config = Config {
        prompt_text: "".into(),
        prompt_hint: "".into(),
        max_display_width: None,
        max_length: None,
    };
    remove_char_from_input(&mut state, &config);
    assert_eq!(state.input, Some("tst".into()));
}

#[test]
fn util_t_truncate_x_normal() {
    assert_eq!(truncate("test".into(), 2, 0), "te".to_string());
}

#[test]
fn util_t_truncate_x_scroll_middle() {
    assert_eq!(truncate("test123".into(), 2, 5), "t1".to_string());
}

#[test]
fn util_t_truncate_x_scroll_end() {
    assert_eq!(truncate("test123".into(), 2, 7), "23".to_string());
}

#[test]
fn util_t_truncate_x_normal_ellipsis() {
    assert_eq!(truncate("test123".into(), 4, 0), "test…".to_string());
}

#[test]
fn util_t_truncate_x_scroll_middle_ellipsis() {
    assert_eq!(truncate("test123".into(), 4, 5), "…st1…".to_string());
}

#[test]
fn util_t_truncate_x_scroll_end_ellipsis() {
    assert_eq!(truncate("test123".into(), 4, 7), "…123".to_string());
}
