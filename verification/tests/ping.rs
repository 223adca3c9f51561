use twitch_1337::commands::ping_admin::{
    command_for, failure_reply, reply_for, AdminOp, AdminStep, PingAdminCommand,
};
use twitch_1337::commands::ping_trigger::{matches_ping, parse_ping_trigger, react, Reaction};
use twitch_1337::ping::{
    validate_template, NamedPing, Ping, PingError, PingManager, PingStore, TriggerDecision,
};
use twitch_1337::ping_actor::{needs_save, process, publishes_names, PingCommand, PingReply};
use twitch_1337::time::{Moment, Timestamp};

const SEC: u128 = 1_000_000_000;

fn now() -> Moment {
    Moment { nanos: 1_000_000_000_000 }
}

fn later(secs: u64) -> Moment {
    Moment { nanos: now().nanos + secs * 1_000_000_000 }
}

fn at() -> Timestamp {
    Timestamp::from_secs(1_770_000_000)
}

fn test_manager() -> PingManager {
    let mut mgr = PingManager::empty();
    mgr.create_ping("test", "Hey {mentions}!".to_string(), "admin".to_string(), None).unwrap();
    mgr
}

fn stored(name: &str, template: &str) -> NamedPing {
    NamedPing {
        name: name.to_string(),
        ping: Ping {
            template: template.to_string(),
            members: Vec::new(),
            cooldown: None,
            created_by: "admin".to_string(),
            last_fired_at: None,
            fire_count: 0,
        },
    }
}

#[test]
fn edit_template_updates_template() {
    let mut mgr = test_manager();
    mgr.edit_template("test", "New template {mentions}".to_string()).unwrap();
    assert_eq!(mgr.get("test").unwrap().template, "New template {mentions}");
}

#[test]
fn edit_template_preserves_members() {
    let mut mgr = test_manager();
    mgr.add_member("test", "alice").unwrap();
    mgr.add_member("test", "bob").unwrap();
    mgr.edit_template("test", "Updated {mentions}".to_string()).unwrap();
    let ping = mgr.get("test").unwrap();
    assert!(ping.members.contains(&"alice".to_string()));
    assert!(ping.members.contains(&"bob".to_string()));
    assert_eq!(ping.members.len(), 2);
}

#[test]
fn edit_template_nonexistent_ping_errors() {
    let mut mgr = test_manager();
    let result = mgr.edit_template("nope", "whatever".to_string());
    assert!(result.is_err());
    assert!(result.unwrap_err().message().contains("gibt es nicht"));
}

#[test]
fn create_ping_rejects_newline_in_template() {
    let mut mgr = PingManager::empty();
    let result = mgr.create_ping(
        "bad",
        "Hey {mentions}\r\nPRIVMSG #other :pwned".to_string(),
        "admin".to_string(),
        None,
    );
    assert!(result.is_err());
    assert!(mgr.get("bad").is_none());
}

#[test]
fn edit_template_rejects_control_chars() {
    let mut mgr = test_manager();
    let result = mgr.edit_template("test", "Hey\x00injection".to_string());
    assert!(result.is_err());
    assert_eq!(mgr.get("test").unwrap().template, "Hey {mentions}!");
}

#[test]
fn load_drops_pings_with_invalid_template_on_disk() {
    let mgr = PingManager::from_store(PingStore {
        pings: vec![
            stored("good", "Hey {mentions}!"),
            stored("bad", "Hey {mentions}\r\nPRIVMSG #other :pwned"),
        ],
    });
    assert!(mgr.get("good").is_some());
    assert!(mgr.get("bad").is_none(), "ping with control chars must be dropped on load");
}

#[test]
fn edit_template_persists_to_disk() {
    let mut mgr = test_manager();
    mgr.edit_template("test", "Persisted {mentions}".to_string()).unwrap();
    let mgr2 = PingManager::from_store(mgr.store);
    assert_eq!(mgr2.get("test").unwrap().template, "Persisted {mentions}");
}

#[test]
fn remaining_cooldown_returns_none_when_never_triggered() {
    let mut mgr = test_manager();
    mgr.add_member("test", "alice").unwrap();
    assert!(mgr.remaining_cooldown("test", 300 * SEC, now()).is_none());
}

#[test]
fn remaining_cooldown_returns_some_when_on_cooldown() {
    let mut mgr = test_manager();
    mgr.add_member("test", "alice").unwrap();
    mgr.record_trigger("test", now(), at());
    let remaining = mgr.remaining_cooldown("test", 300 * SEC, now());
    assert!(remaining.is_some());
    let secs = remaining.unwrap() / SEC;
    assert!(secs > 0 && secs <= 300, "expected 1..=300, got {secs}");
    assert_eq!(mgr.remaining_cooldown("test", 300 * SEC, later(100)), Some(200 * SEC));
    assert_eq!(mgr.remaining_cooldown("test", 300 * SEC, later(300)), None);
}

#[test]
fn remaining_cooldown_returns_none_for_nonexistent_ping() {
    let mgr = PingManager::empty();
    assert!(mgr.remaining_cooldown("nope", 300 * SEC, now()).is_none());
}

#[test]
fn try_record_trigger_is_atomic_across_consecutive_calls() {
    let mut mgr = test_manager();
    mgr.add_member("test", "alice").unwrap();
    mgr.add_member("test", "bob").unwrap();
    let first = mgr.try_record_trigger("test", "bob", 300 * SEC, false, now(), at());
    match first {
        TriggerDecision::Fire(rendered) => {
            assert!(rendered.contains("@alice"));
            assert!(rendered.contains("@bob"));
        }
        other => panic!("expected Fire on first call, got {other:?}"),
    }
    let second = mgr.try_record_trigger("test", "bob", 300 * SEC, false, now(), at());
    match second {
        TriggerDecision::OnCooldown(remaining) => {
            assert!(remaining / SEC <= 300);
        }
        other => panic!("expected OnCooldown on second call, got {other:?}"),
    }
    assert_eq!(mgr.get("test").unwrap().fire_count, 1);
    assert_eq!(mgr.get("test").unwrap().last_fired_at, Some(at()));
}

#[test]
fn try_record_trigger_respects_membership() {
    let mut mgr = test_manager();
    mgr.add_member("test", "alice").unwrap();
    let decision = mgr.try_record_trigger("test", "stranger", 300 * SEC, false, now(), at());
    assert!(matches!(decision, TriggerDecision::Skip));
    let decision = mgr.try_record_trigger("test", "alice", 300 * SEC, false, now(), at());
    assert!(
        matches!(decision, TriggerDecision::Fire(_)),
        "sole member with no {{sender}} in template should fire, got {decision:?}"
    );
}

#[test]
fn try_record_trigger_public_allows_non_members() {
    let mut mgr = test_manager();
    mgr.add_member("test", "alice").unwrap();
    let decision = mgr.try_record_trigger("test", "stranger", 300 * SEC, true, now(), at());
    assert!(
        matches!(decision, TriggerDecision::Fire(_)),
        "public=true should allow non-members to fire, got {decision:?}"
    );
}

fn group(template: &str, members: &[&str]) -> PingManager {
    let mut mgr = PingManager::empty();
    mgr.create_ping("grp", template.to_string(), "admin".to_string(), None).unwrap();
    for m in members {
        mgr.add_member("grp", m).unwrap();
    }
    mgr
}

#[test]
fn render_template_includes_sender_when_no_sender_placeholder() {
    let mgr = group("{mentions}", &["alice", "bob"]);
    let result = mgr.render_template("grp", "alice").unwrap();
    assert!(result.contains("@alice"));
    assert!(result.contains("@bob"));
}

#[test]
fn render_template_excludes_sender_when_template_has_sender_placeholder() {
    let mgr = group("{sender} pinged {mentions}", &["alice", "bob"]);
    let result = mgr.render_template("grp", "alice").unwrap();
    assert!(!result.contains("@alice @") && result.starts_with("@alice pinged"));
    assert!(result.contains("@bob"));
}

#[test]
fn render_template_fires_when_sender_is_sole_member_and_no_sender_placeholder() {
    let mgr = group("{mentions}", &["alice"]);
    let result = mgr.render_template("grp", "alice");
    assert!(result.is_some());
    assert!(result.unwrap().contains("@alice"));
}

#[test]
fn render_template_skips_when_sender_is_sole_member_and_template_has_sender_placeholder() {
    let mgr = group("{sender} pinged {mentions}", &["alice"]);
    let result = mgr.render_template("grp", "alice");
    assert!(result.is_none());
}

#[test]
fn refusals_say_why() {
    let mut mgr = test_manager();
    let create = |mgr: &mut PingManager, name: &str| {
        mgr.create_ping(name, "x".to_string(), "a".to_string(), None).unwrap_err().message()
    };
    assert_eq!(create(&mut mgr, ""), "Ping-Name darf nicht leer sein");
    assert_eq!(
        create(&mut mgr, "a b"),
        "Ping-Name darf nur Buchstaben, Zahlen, - und _ enthalten"
    );
    assert_eq!(create(&mut mgr, "test"), "Ping \"test\" gibt es schon");
    assert_eq!(mgr.delete_ping("x").unwrap_err().message(), "Ping \"x\" gibt es nicht");
    mgr.add_member("test", "Alice").unwrap();
    assert!(matches!(mgr.add_member("test", "alice"), Err(PingError::AlreadyMember { .. })));
    assert!(matches!(mgr.remove_member("test", "bob"), Err(PingError::NotMember { .. })));
    assert_eq!(
        validate_template("a\tb").unwrap_err().message(),
        "Template darf keine Steuerzeichen (z.B. Zeilenumbrüche) enthalten"
    );
    assert!(validate_template("fine ä").is_ok());
}

#[test]
fn leaving_undoes_joining() {
    let mut mgr = group("{mentions}", &["alice", "bob"]);
    mgr.add_member("grp", "Carol").unwrap();
    assert!(mgr.is_member("grp", "carol"));
    mgr.remove_member("grp", "CAROL").unwrap();
    assert!(!mgr.is_member("grp", "carol"));
    assert_eq!(mgr.get("grp").unwrap().members, vec!["alice".to_string(), "bob".to_string()]);
}

#[test]
fn pings_do_not_disturb_each_other() {
    let mut mgr = test_manager();
    mgr.add_member("test", "alice").unwrap();
    mgr.create_ping("other", "{mentions}".to_string(), "b".to_string(), Some(7)).unwrap();
    assert_eq!(mgr.get("test").unwrap().members, vec!["alice".to_string()]);
    mgr.delete_ping("other").unwrap();
    assert!(mgr.get("other").is_none());
    assert_eq!(mgr.get("test").unwrap().template, "Hey {mentions}!");
    assert_eq!(mgr.names(), vec!["test".to_string()]);
}

#[test]
fn pings_may_have_their_own_cooldown() {
    let mut mgr = PingManager::empty();
    mgr.create_ping("q", "x".to_string(), "b".to_string(), Some(5)).unwrap();
    mgr.record_trigger("q", now(), at());
    assert_eq!(mgr.remaining_cooldown("q", 300 * SEC, now()), Some(5 * SEC));
    assert_eq!(mgr.remaining_cooldown("q", 300 * SEC, later(5)), None);
}

#[test]
fn commands_are_processed_and_saved() {
    let mut mgr = PingManager::empty();
    let create = PingCommand::CreatePing {
        name: "Neu".to_string(),
        template: "{mentions}".to_string(),
        created_by: "a".to_string(),
        cooldown: None,
    };
    assert!(publishes_names(&create));
    let r = process(&mut mgr, create, now(), at());
    assert!(matches!(r, PingReply::Done(Ok(()))));
    assert!(needs_save(&r));
    let add = PingCommand::AddMember { ping_name: "neu".to_string(), username: "bob".to_string() };
    assert!(!publishes_names(&add));
    process(&mut mgr, add, now(), at());
    // Members are stored in lower case and looked up as they are given.
    for (username, names) in [("bob", vec!["neu".to_string()]), ("Bob", Vec::new())] {
        let list = PingCommand::ListForUser { username: username.to_string() };
        match process(&mut mgr, list, now(), at()) {
            PingReply::Names(n) => assert_eq!(n, names),
            other => panic!("{other:?}"),
        }
    }
    let fire = || PingCommand::TryRecordTrigger {
        ping_name: "neu".to_string(),
        sender: "bob".to_string(),
        default_cooldown: 10 * SEC,
        public: false,
    };
    let r = process(&mut mgr, fire(), now(), at());
    assert!(matches!(&r, PingReply::Decision(TriggerDecision::Fire(s)) if s == "@bob"));
    assert!(needs_save(&r));
    let r = process(&mut mgr, fire(), later(4), at());
    assert!(matches!(&r, PingReply::Decision(TriggerDecision::OnCooldown(n)) if *n == 6 * SEC));
    assert!(!needs_save(&r));
    match process(&mut mgr, PingCommand::Snapshot, now(), at()) {
        PingReply::Views(v) => {
            assert_eq!(v.len(), 1);
            assert_eq!(v[0].name, "neu");
            assert_eq!(v[0].fire_count, 1);
        }
        other => panic!("{other:?}"),
    }
    let one = PingCommand::GetOne { name: "gone".to_string() };
    assert!(matches!(process(&mut mgr, one, now(), at()), PingReply::One(None)));
    let member =
        PingCommand::IsMember { ping_name: "neu".to_string(), username: "bob".to_string() };
    assert!(matches!(process(&mut mgr, member, now(), at()), PingReply::Member(true)));
    let gone = PingCommand::DeletePing { name: "gone".to_string() };
    let r = process(&mut mgr, gone, now(), at());
    assert!(!needs_save(&r));
}

#[test]
fn words_call_pings() {
    assert_eq!(parse_ping_trigger("!Dota").as_deref(), Some("dota"));
    assert_eq!(parse_ping_trigger("!ÄRGER").as_deref(), Some("ärger"));
    assert_eq!(parse_ping_trigger("!"), None);
    assert_eq!(parse_ping_trigger("dota"), None);
    let names = vec!["dota".to_string(), "cs".to_string()];
    assert!(matches_ping("!DOTA", &names));
    assert!(!matches_ping("!lol", &names));
    assert!(!matches_ping("dota", &names));
    assert!(!matches_ping("!", &names));
}

#[test]
fn decisions_become_reactions() {
    assert!(matches!(react(&TriggerDecision::Skip, ""), Reaction::Nothing));
    assert!(matches!(
        react(&TriggerDecision::OnCooldown(1), "3s"),
        Reaction::Reply(s) if s == "Bitte warte noch 3s Waiting"
    ));
    assert!(matches!(
        react(&TriggerDecision::Fire("@a".to_string()), ""),
        Reaction::Say(s) if s == "@a"
    ));
}

fn words(s: &[&str]) -> Vec<String> {
    s.iter().map(|w| w.to_string()).collect()
}

/// Runs a call of the command from beginning to end.
fn chat(mgr: &mut PingManager, badges: &[&str], login: &str, args: &[&str]) -> String {
    let cmd = PingAdminCommand::new(vec!["99".to_string()]);
    let member = args.get(2).copied().unwrap_or("").to_lowercase();
    match cmd.execute(&words(badges), "1", &words(args), &member) {
        AdminStep::Denied => "denied".to_string(),
        AdminStep::Reply(s) => s,
        AdminStep::Run(op) => {
            let reply = process(mgr, command_for(&op, login), now(), at());
            reply_for(&op, &reply)
        }
    }
}

#[test]
fn administrators_manage_pings() {
    let mut mgr = PingManager::empty();
    let moderator = ["moderator"];
    let mut mods = |args: &[&str]| chat(&mut mgr, &moderator, "boss", args);
    assert_eq!(mods(&["create", "Dota", "Los", "{mentions}"]), "Ping \"dota\" erstellt Okayge");
    assert_eq!(mods(&["create", "dota", "x"]), "Ping \"dota\" gibt es schon FDM");
    assert_eq!(mods(&["create", "dota"]), "Nutze: !p create <name> <template>");
    assert_eq!(mods(&["edit", "dota", "Auf", "{mentions}"]), "Ping \"dota\" updated SeemsGood");
    assert_eq!(mods(&["edit", "dota"]), "Nutze: !p edit <name> <template>");
    assert_eq!(mods(&["add", "dota", "Bob"]), "bob zu \"dota\" hinzugefügt Okayge");
    assert_eq!(mods(&["add", "dota", "Bob"]), "bob ist schon in \"dota\" FDM");
    assert_eq!(mods(&["add", "dota"]), "Nutze: !p add <name> <user>");
    assert_eq!(mods(&["remove", "dota", "bob"]), "bob aus \"dota\" entfernt Okayge");
    assert_eq!(mods(&["remove", "dota"]), "Nutze: !p remove <name> <user>");
    assert_eq!(mods(&["delete"]), "Nutze: !p delete <name>");
    assert_eq!(mods(&["delete", "DOTA"]), "Ping \"dota\" gelöscht Okayge");
    assert_eq!(mods(&["delete", "dota"]), "Ping \"dota\" gibt es nicht FDM");
}

#[test]
fn users_manage_their_own_membership() {
    let mut mgr = test_manager();
    let mut user = |args: &[&str]| chat(&mut mgr, &[], "alice", args);
    assert_eq!(user(&["list"]), "Keine Pings");
    assert_eq!(user(&["join", "Test"]), "Hab ich gemacht Okayge");
    assert_eq!(user(&["join", "test"]), "Bist du schon FDM");
    assert_eq!(user(&["list"]), "test");
    assert_eq!(user(&["leave", "test"]), "Hab ich gemacht Okayge");
    assert_eq!(user(&["leave", "test"]), "Bist du nicht drin FDM");
    assert_eq!(user(&["join", "nope"]), "Ping \"nope\" gibt es nicht FDM");
    assert_eq!(user(&["join"]), "Nutze: !p join <name>");
    assert_eq!(user(&["leave"]), "Nutze: !p leave <name>");
    assert_eq!(user(&["create", "x", "y"]), "denied");
    assert_eq!(user(&["delete", "test"]), "denied");
    let usage = "Nutze: join, leave, list (oder create, delete, edit, add, remove als Mod)";
    assert_eq!(user(&[]), usage);
    assert_eq!(user(&["what"]), usage);
}

#[test]
fn hidden_administrators_count() {
    let cmd = PingAdminCommand::new(vec!["99".to_string()]);
    let step = cmd.execute(&Vec::new(), "99", &words(&["delete", "x"]), "");
    assert!(matches!(step, AdminStep::Run(AdminOp::Delete { .. })));
}

#[test]
fn failed_saves_are_told() {
    let cause = "Failed to save pings.ron";
    let delete = AdminOp::Delete { name: "x".to_string() };
    assert_eq!(failure_reply(&delete, cause), "Failed to save pings.ron FDM");
    let join = AdminOp::Join { name: "x".to_string() };
    assert_eq!(failure_reply(&join, cause), "Bist du schon FDM");
    let leave = AdminOp::Leave { name: "x".to_string() };
    assert_eq!(failure_reply(&leave, cause), "Bist du nicht drin FDM");
    assert_eq!(failure_reply(&leave, "Ping \"x\" gibt es nicht"), "Ping \"x\" gibt es nicht FDM");
}
