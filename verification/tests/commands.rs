use chrono::TimeZone;
use twitch_1337::ai::chat_history::{ChatHistoryEntry, ChatHistorySource};
use twitch_1337::commands::feedback::{feedback_line, feedback_reply, open_feedback};
use twitch_1337::commands::haiku::{
    format_haiku_for_chat, haiku_reply, is_valid_haiku_part, open_haiku, relevant_history,
    HaikuOpening, HaikuOutcome,
};
use twitch_1337::commands::suspend::{
    duration_error_message, is_exempt, lifted_reply, suspended_reply, ParseDurationError,
    SuspendCommand, SuspendStep, UnsuspendCommand,
};
use twitch_1337::commands::{is_admin, normalize_command_name, wait_reply};
use twitch_1337::startup::{
    plan_startup, running_message, Equipment, RUNNING_WITHOUT_SCHEDULES, RUNNING_WITH_SCHEDULES,
};
use twitch_1337::time::{parse_rfc3339, Timestamp};

fn words(s: &[&str]) -> Vec<String> {
    s.iter().map(|w| w.to_string()).collect()
}

#[test]
fn format_haiku_joins_slash_parts() {
    let out = format_haiku_for_chat("a / b / c").unwrap();
    assert_eq!(out, "a / b / c");
}

#[test]
fn format_haiku_joins_newlines() {
    let out = format_haiku_for_chat("a\nb\nc").unwrap();
    assert_eq!(out, "a / b / c");
}

#[test]
fn format_haiku_rejects_markdown() {
    assert!(format_haiku_for_chat("```\na\nb\nc").is_none());
}

#[test]
fn format_haiku_rejects_wrong_part_count() {
    assert!(format_haiku_for_chat("only one line").is_none());
}

#[test]
fn haikus_are_one_line() {
    assert_eq!(format_haiku_for_chat("a\nb / c / d").as_deref(), Some("a b / c / d"));
    assert_eq!(format_haiku_for_chat("a / b\r\nc / d").as_deref(), Some("a / b  c / d"));
}

#[test]
fn haiku_parts_are_trimmed_and_checked() {
    assert_eq!(
        format_haiku_for_chat(" eins /  zwei \n / / drei ").as_deref(),
        Some("eins / zwei / / drei")
    );
    assert_eq!(format_haiku_for_chat("a\r\n\r\n b \nc\r\n").as_deref(), Some("a / b / c"));
    assert!(format_haiku_for_chat("a / b").is_none());
    assert!(format_haiku_for_chat("a / b / c / d").is_none());
    assert!(is_valid_haiku_part(&"ä".repeat(80)));
    assert!(!is_valid_haiku_part(&"ä".repeat(81)));
    assert!(!is_valid_haiku_part(""));
    assert!(!is_valid_haiku_part("a ** b"));
    assert!(!is_valid_haiku_part("#tag"));
    assert!(!is_valid_haiku_part("a ``` b"));
    assert!(!is_valid_haiku_part("ICYMI: x"));
    assert!(is_valid_haiku_part("x icymi:"));
    assert!(!is_valid_haiku_part("x In den letzten 24H: y"));
}

fn entry(name: &str, text: &str) -> ChatHistoryEntry {
    ChatHistoryEntry {
        seq: 0,
        username: name.to_string(),
        display_name: None,
        user_id: None,
        text: text.to_string(),
        source: ChatHistorySource::User,
        timestamp: Timestamp::from_secs(0),
    }
}

#[test]
fn haikus_draw_on_what_was_said() {
    assert_eq!(relevant_history(None, "a", "!haiku"), None);
    assert_eq!(relevant_history(Some(&vec![entry("A", "!HAIKU")]), "a", "!haiku"), None);
    let chat = vec![entry("b", "hi"), entry("a", "!haiku")];
    assert_eq!(relevant_history(Some(&chat), "a", "!haiku"), Some(words(&["b: hi"])));
    let chat = vec![entry("a", "!haiku"), entry("b", "hi")];
    assert_eq!(
        relevant_history(Some(&chat), "a", "!haiku"),
        Some(words(&["a: !haiku", "b: hi"]))
    );
    let many: Vec<ChatHistoryEntry> = (0..100).map(|i| entry("u", &i.to_string())).collect();
    let lines = relevant_history(Some(&many), "a", "!haiku").unwrap();
    assert_eq!(lines.len(), 80);
    assert_eq!(lines[0], "u: 20");
    assert_eq!(lines[79], "u: 99");
}

#[test]
fn haikus_begin_with_a_question() {
    let chat = vec![entry("b", "hi"), entry("c", "yo")];
    match open_haiku(None, Some(&chat), "a", "!haiku") {
        HaikuOpening::Ask(s) => assert_eq!(
            s,
            "Schreibe ein Haiku zu einem Thema aus diesem Twitch-Chat.\nb: hi\nc: yo"
        ),
        other => panic!("{other:?}"),
    }
    assert!(matches!(
        open_haiku(Some("1m"), Some(&chat), "a", "!haiku"),
        HaikuOpening::Reply(s) if s == "Bitte warte noch 1m Waiting"
    ));
    assert!(matches!(
        open_haiku(None, None, "a", "!haiku"),
        HaikuOpening::Reply(s) if s == "Ich habe noch keinen Chat-Verlauf für ein Haiku FDM"
    ));
}

#[test]
fn haikus_end_with_an_answer() {
    assert_eq!(haiku_reply(&HaikuOutcome::Text(" a\nb\nc\n".to_string())), "a / b / c");
    assert_eq!(
        haiku_reply(&HaikuOutcome::Text("prosa".to_string())),
        "Da ist was schiefgelaufen FDM"
    );
    assert_eq!(haiku_reply(&HaikuOutcome::Failed), "Da ist was schiefgelaufen FDM");
    assert_eq!(haiku_reply(&HaikuOutcome::TimedOut), "Das hat zu lange gedauert Waiting");
}

#[test]
fn exempt_list_covers_required_commands() {
    assert!(is_exempt("suspend"));
    assert!(is_exempt("unsuspend"));
    assert!(is_exempt("p"));
}

#[test]
fn duration_error_messages_end_in_fdm() {
    for err in [
        ParseDurationError::Empty,
        ParseDurationError::InvalidNumber,
        ParseDurationError::UnknownUnit,
        ParseDurationError::Zero,
        ParseDurationError::TooLong,
    ] {
        let msg = duration_error_message(&err);
        assert!(msg.ends_with("FDM"), "expected FDM suffix, got: {msg}");
    }
}

#[test]
fn duration_errors_say_what_is_wrong() {
    assert_eq!(
        duration_error_message(&ParseDurationError::Empty),
        "Dauer fehlt. Nutze z.B. 30s, 10m, 2h, 1d FDM"
    );
    assert_eq!(
        duration_error_message(&ParseDurationError::InvalidNumber),
        "Ungültige Zahl. Nutze z.B. 30s, 10m, 2h, 1d FDM"
    );
    assert_eq!(
        duration_error_message(&ParseDurationError::UnknownUnit),
        "Unbekannte Einheit. Erlaubt: s, m, h, d FDM"
    );
    assert_eq!(
        duration_error_message(&ParseDurationError::Zero),
        "Dauer muss größer als 0 sein FDM"
    );
    assert_eq!(
        duration_error_message(&ParseDurationError::TooLong),
        "Dauer zu lang (max 7 Tage) FDM"
    );
}

#[test]
fn suspending_needs_rights_a_name_and_a_duration() {
    let cmd = SuspendCommand::new(words(&["7"]), 600);
    let mods = words(&["moderator"]);
    assert!(matches!(
        cmd.execute(&Vec::new(), "1", &words(&["ai"]), None),
        SuspendStep::Denied
    ));
    assert!(matches!(
        cmd.execute(&mods, "1", &Vec::new(), None),
        SuspendStep::Reply(s) if s == "Nutze: !suspend <command> [dauer]"
    ));
    assert!(matches!(
        cmd.execute(&Vec::new(), "7", &words(&["!!P"]), None),
        SuspendStep::Reply(s) if s == "Das kann nicht gesperrt werden FDM"
    ));
    assert!(matches!(
        cmd.execute(&mods, "1", &words(&["!AI"]), None),
        SuspendStep::Suspend { name, secs: 600 } if name == "ai"
    ));
    assert!(matches!(
        cmd.execute(&mods, "1", &words(&["ai", "10s"]), Some(Ok(10))),
        SuspendStep::Suspend { name, secs: 10 } if name == "ai"
    ));
    assert!(matches!(
        cmd.execute(&mods, "1", &words(&["ai", "0s"]), Some(Err(ParseDurationError::Zero))),
        SuspendStep::Reply(s) if s == "Dauer muss größer als 0 sein FDM"
    ));
    assert_eq!(suspended_reply("ai", "10m"), "!ai gesperrt für 10m");
}

#[test]
fn suspensions_are_lifted() {
    let cmd = UnsuspendCommand::new(Vec::new());
    let owner = words(&["broadcaster"]);
    assert!(matches!(
        cmd.execute(&words(&["vip"]), "1", &words(&["ai"])),
        SuspendStep::Denied
    ));
    assert!(matches!(
        cmd.execute(&owner, "1", &Vec::new()),
        SuspendStep::Reply(s) if s == "Nutze: !unsuspend <command>"
    ));
    assert!(matches!(
        cmd.execute(&owner, "1", &words(&["!Ai"])),
        SuspendStep::Lift { name } if name == "ai"
    ));
    assert_eq!(lifted_reply("ai", true), "!ai entsperrt Okayge");
    assert_eq!(lifted_reply("ai", false), "!ai war nicht gesperrt FDM");
}

#[test]
fn command_names_are_bare_and_small() {
    assert_eq!(normalize_command_name("!!Track"), "track");
    assert_eq!(normalize_command_name("a!B"), "a!b");
    let once = normalize_command_name("!!!");
    assert_eq!(once, "");
    assert_eq!(normalize_command_name(&once), once);
}

#[test]
fn administrators_are_known() {
    assert!(is_admin(&words(&["broadcaster"]), "1", &Vec::new()));
    assert!(is_admin(&words(&["moderator"]), "1", &Vec::new()));
    assert!(is_admin(&Vec::new(), "1", &words(&["1"])));
    assert!(!is_admin(&words(&["subscriber"]), "1", &words(&["2"])));
    assert_eq!(wait_reply("2m"), "Bitte warte noch 2m Waiting");
}

#[test]
fn feedback_is_taken_down() {
    assert_eq!(open_feedback(&words(&["toller", "bot"]), None), Ok("toller bot".to_string()));
    assert_eq!(
        open_feedback(&words(&[" "]), Some("5s")),
        Err("Benutzung: !fb <nachricht>".to_string())
    );
    assert_eq!(
        open_feedback(&words(&["x"]), Some("5s")),
        Err("Bitte warte noch 5s Waiting".to_string())
    );
    let at = chrono::Utc.with_ymd_and_hms(2026, 7, 31, 22, 4, 5).unwrap();
    let stamp = Timestamp::from_secs(at.timestamp());
    assert_eq!(feedback_line(stamp, "bob", "gut"), "2026-08-01T00:04:05 bob: gut\n");
    assert_eq!(
        feedback_line(stamp, "", ""),
        format!(
            "{} : \n",
            at.with_timezone(&chrono_tz::Europe::Berlin).format("%Y-%m-%dT%H:%M:%S")
        )
    );
    let leap = parse_rfc3339("2016-12-31T23:59:60Z").unwrap();
    assert_eq!(feedback_line(leap, "bob", "gut"), "2017-01-01T00:59:60 bob: gut\n");
    assert_eq!(feedback_reply(true), "Feedback gespeichert Okayge");
    assert_eq!(feedback_reply(false), "Da ist was schiefgelaufen FDM");
}

#[test]
fn the_bot_starts_what_it_has_the_means_for() {
    let full = Equipment { llm: true, ai_configured: true, emotes_configured: true, schedules: 2 };
    let plan = plan_startup(full);
    assert!(plan.memory && plan.emotes && plan.ritual && plan.scheduled_messages);
    assert_eq!(running_message(plan), RUNNING_WITH_SCHEDULES);
    let bare = Equipment { llm: false, ai_configured: true, emotes_configured: true, schedules: 0 };
    let plan = plan_startup(bare);
    assert!(plan.memory && !plan.emotes && !plan.ritual && !plan.scheduled_messages);
    assert_eq!(running_message(plan), RUNNING_WITHOUT_SCHEDULES);
}
