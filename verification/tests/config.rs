use twitch_1337::config::{
    default_enabled, validate_config, AiBootstrap, AviationstackBootstrap, Configuration,
    ScheduleConfig,
};

#[test]
fn web_disabled_skips_validation() {
    let cfg = Configuration::test_default();
    assert!(!cfg.web.enabled);
    validate_config(&cfg, &Vec::new()).expect("disabled web validates trivially");
}

#[test]
fn web_enabled_requires_https_public_url() {
    let mut cfg = Configuration::test_default();
    cfg.web.enabled = true;
    cfg.web.session_secret = "00".repeat(32);
    cfg.web.public_url = "http://insecure".into();
    let err = validate_config(&cfg, &Vec::new()).unwrap_err();
    assert!(err.contains("public_url"), "{err}");
    assert_eq!(
        err,
        "web.public_url must start with https:// when web.enabled = true (got \"http://insecure\")"
    );
}

#[test]
fn web_enabled_requires_32_byte_secret() {
    let mut cfg = Configuration::test_default();
    cfg.web.enabled = true;
    cfg.web.session_secret = "ab".into();
    cfg.web.public_url = "https://bot.test".into();
    let err = validate_config(&cfg, &Vec::new()).unwrap_err();
    assert!(err.contains("session_secret"), "{err}");
}

#[test]
fn secrets_are_pairs_of_hexadecimal_digits() {
    let mut cfg = Configuration::test_default();
    cfg.web.enabled = true;
    cfg.web.public_url = "https://bot.test".into();
    for (secret, good) in [
        ("aF".repeat(32), true),
        ("00".repeat(31), false),
        ("00".repeat(32) + "0", false),
        ("0g".repeat(32), false),
        ("ä".repeat(32), false),
        (String::new(), false),
    ] {
        cfg.web.session_secret = secret;
        assert_eq!(validate_config(&cfg, &Vec::new()).is_ok(), good);
    }
    let quoted = "x\"\u{7}";
    cfg.web.session_secret = "00".repeat(32);
    cfg.web.public_url = quoted.to_string();
    assert_eq!(
        validate_config(&cfg, &Vec::new()).unwrap_err(),
        format!("web.public_url must start with https:// when web.enabled = true (got {quoted:?})")
    );
}

fn schedule(name: &str, message: &str, interval: &str) -> ScheduleConfig {
    ScheduleConfig {
        name: name.to_string(),
        message: message.to_string(),
        interval: interval.to_string(),
        start_date: None,
        end_date: None,
        active_time_start: None,
        active_time_end: None,
        enabled: default_enabled(),
    }
}

#[test]
fn the_first_problem_is_named() {
    let check = |cfg: &Configuration, ok: &Vec<bool>| validate_config(cfg, ok).unwrap_err();
    let mut cfg = Configuration::test_default();
    cfg.twitch.channel = " ".to_string();
    cfg.twitch.username = String::new();
    assert_eq!(check(&cfg, &Vec::new()), "twitch.channel cannot be empty");
    cfg.twitch.channel = "c".to_string();
    assert_eq!(check(&cfg, &Vec::new()), "twitch.username cannot be empty");
    cfg.twitch.username = "u".to_string();
    cfg.aviationstack = Some(AviationstackBootstrap { api_key: "\t".to_string() });
    cfg.ai = Some(AiBootstrap { api_key: String::new() });
    assert_eq!(
        check(&cfg, &Vec::new()),
        "aviationstack.api_key cannot be empty when aviationstack is configured"
    );
    cfg.aviationstack = None;
    assert_eq!(check(&cfg, &Vec::new()), "ai.api_key cannot be empty");
    cfg.ai = None;
    cfg.schedules = vec![schedule("a", "m", "01:30"), schedule("", "m", "01:30")];
    assert_eq!(check(&cfg, &vec![true, true]), "Schedule name cannot be empty");
    assert_eq!(
        check(&cfg, &vec![false, true]),
        "Schedule 'a' has invalid interval format"
    );
    cfg.schedules = vec![schedule("a", " ", "01:30")];
    assert_eq!(check(&cfg, &vec![true]), "Schedule 'a' message cannot be empty");
    cfg.schedules = vec![schedule("a", "m", "")];
    assert_eq!(check(&cfg, &vec![true]), "Schedule 'a' interval cannot be empty");
    cfg.schedules = vec![schedule("a", "m", "01:30")];
    assert!(validate_config(&cfg, &vec![true]).is_ok());
}
