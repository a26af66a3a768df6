use zola::action::{Action, DEVLOG_CHANNEL};
use zola::events::{
    handle_heresy, heresy_directory, heresy_reply, message, ready, resume, unrecognised_command,
};

fn unreadable() -> Action {
    Action::LogError {
        line: "Could not unwrap entity in directory assets\\memes\\sense_heresy".to_string(),
    }
}

fn upload(path: &str) -> Action {
    Action::SendFile { path: path.to_string(), content: String::new() }
}

#[test]
fn ready_logs_and_notifies() {
    assert_eq!(
        ready(),
        vec![
            Action::LogInfo { line: "I am online. Notifying server.".to_string() },
            Action::Devlog { channel: 428757417535209472, content: "I am online.".to_string() },
        ]
    );
    assert_eq!(DEVLOG_CHANNEL, 428757417535209472);
}

#[test]
fn resume_logs() {
    assert_eq!(resume(), vec![Action::LogInfo { line: "Resumed".to_string() }]);
}

#[test]
fn unrecognised_command_names_the_command() {
    assert_eq!(
        unrecognised_command("dance"),
        vec![
            Action::Reply {
                content: "Nivix has not taught me how to help with 'dance'. Blame him."
                    .to_string(),
            },
        ]
    );
}

#[test]
fn keyword_sets_off_the_trigger() {
    assert!(message(false, "heresy"));
    assert!(message(false, "I sense HERESY here"));
    assert!(message(false, "HeReSy!"));
}

#[test]
fn keyword_is_ignored_from_bots_and_in_commands() {
    assert!(!message(true, "heresy"));
    assert!(!message(false, "!heresy"));
    assert!(!message(false, "!big heresy"));
    assert!(message(false, " !heresy"));
}

#[test]
fn messages_without_keyword_do_nothing() {
    assert!(!message(false, ""));
    assert!(!message(false, "here sy"));
    assert!(!message(false, "heres"));
    assert!(!message(false, "h\u{e9}r\u{e9}sy"));
}

#[test]
fn heresy_directory_is_fixed() {
    assert_eq!(heresy_directory(), "assets\\memes\\sense_heresy");
}

#[test]
fn heresy_without_directory_logs() {
    assert_eq!(
        handle_heresy(None),
        vec![
            Action::LogError {
                line: "Could not read heresy image directory assets\\memes\\sense_heresy"
                    .to_string(),
            },
        ]
    );
}

#[test]
fn heresy_in_an_empty_directory_does_nothing() {
    assert_eq!(handle_heresy(Some(&Vec::new())), Vec::<Action>::new());
}

#[test]
fn heresy_uploads_the_only_picture() {
    let entries = vec![Some("assets\\memes\\sense_heresy\\one.png".to_string())];
    assert_eq!(
        handle_heresy(Some(&entries)),
        vec![upload("assets\\memes\\sense_heresy\\one.png")]
    );
}

#[test]
fn heresy_logs_unreadable_entries_first() {
    let entries = vec![None, Some("a.png".to_string()), None];
    assert_eq!(handle_heresy(Some(&entries)), vec![unreadable(), unreadable(), upload("a.png")]);
    let none = vec![None];
    assert_eq!(handle_heresy(Some(&none)), vec![unreadable()]);
}

#[test]
fn heresy_uploads_one_of_the_pictures() {
    let entries =
        vec![Some("a.png".to_string()), Some("b.png".to_string()), Some("c.png".to_string())];
    for _ in 0..50 {
        let actions = handle_heresy(Some(&entries));
        assert_eq!(actions.len(), 1);
        assert!(
            actions[0] == upload("a.png")
                || actions[0] == upload("b.png")
                || actions[0] == upload("c.png")
        );
    }
}

#[test]
fn heresy_reply_uploads_the_chosen_picture() {
    let entries = vec![Some("a.png".to_string()), None, Some("b.png".to_string())];
    assert_eq!(
        heresy_reply(&entries, Some(&"b.png".to_string())),
        vec![unreadable(), upload("b.png")]
    );
    assert_eq!(heresy_reply(&entries, None), vec![unreadable()]);
}
