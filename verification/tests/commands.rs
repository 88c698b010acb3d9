use titlebot::router::extraction_failure_reply;
use titlebot::router::help_text;
use titlebot::router::parse_command;
use titlebot::router::Command;

#[test]
fn every_command_token_is_recognized() {
    assert_eq!(parse_command("/start"), Some(Command::Start));
    assert_eq!(parse_command("/help"), Some(Command::Help));
    assert_eq!(parse_command("/roll"), Some(Command::Roll));
    assert_eq!(parse_command("/title @a b"), Some(Command::Title));
    assert_eq!(parse_command("/untitle @a"), Some(Command::UnTitle));
    assert_eq!(parse_command("/dinner A B"), Some(Command::Dinner));
}

#[test]
fn unrecognized_text_has_no_handler() {
    assert_eq!(parse_command(""), None);
    assert_eq!(parse_command("hello"), None);
    assert_eq!(parse_command("/frobnicate"), None);
    assert_eq!(parse_command("/titles"), None);
    assert_eq!(parse_command(" /title @a b"), None);
    assert_eq!(parse_command("/TITLE @a b"), None);
}

#[test]
fn the_token_ends_at_whitespace() {
    assert_eq!(parse_command("/roll\nnow"), Some(Command::Roll));
    assert_eq!(parse_command("/roll now"), Some(Command::Roll));
}

#[test]
fn help_text_lists_every_command() {
    let h = help_text();
    for needle in ["/help", "/roll", "/title", "/untitle", "/dinner"] {
        assert!(h.contains(needle), "help text misses {}", needle);
    }
}

#[test]
fn extraction_failure_replies_name_the_command() {
    assert_eq!(
        extraction_failure_reply(false),
        "指令解析失敗，請輸入選項 e.g. /title @user string"
    );
    assert_eq!(
        extraction_failure_reply(true),
        "指令解析失敗，請輸入選項 e.g. /untitle @user"
    );
}
