use chicken_coop::actuator_server::{
    allowed_origin, authorized, feed_duration, outcome_response, refusal, Action, AllowedOrigin,
};
use chicken_coop::actuators::{
    render_command, rpi_config_from_settings, select_backend, Backend, CoopDoor, FeederMotor,
    GpioStep, LocalActuatorDriver, PinLevel, RpiGpioConfig, RpiGpioSettings,
};
use chicken_coop::ai::VisionResult;
use chicken_coop::alerts::{predator_alert, warrants_alert, warrants_capture, Alert};
use chicken_coop::cache::DataCache;
use chicken_coop::camera::{capture_dir, detection_file_name, sanitize_label};
use chicken_coop::cli::{Cli, Commands, RunCommands, VisionSource};
use chicken_coop::score::Score;
use chicken_coop::sensors::{EggPresenceSensor, HumiditySensor, MotionSensor, TemperatureSensor};
use chicken_coop::settings::{
    parse_bool_setting, parse_u64_setting, parse_u8_setting, parse_unsigned,
};
use chicken_coop::text::{
    chars_of, contains_chars, decimal_string, endpoint_url, redact_key, replace_all, same_text,
};

fn score(value: f32) -> Score {
    Score::from_bits(value.to_bits())
}

fn detection(label: &str, confidence: f32, chicken: bool, predator: bool) -> VisionResult {
    VisionResult {
        label: label.to_string(),
        confidence: score(confidence),
        chicken_detected: chicken,
        predator_detected: predator,
    }
}

#[test]
fn cache_store_and_retrieve_round_trip() {
    let mut cache = DataCache::new("CACHE_KEY");
    cache.store("last_temp", "32.0C");

    assert_eq!(cache.retrieve("last_temp"), Some(&"32.0C".to_string()));
    assert_eq!(cache.retrieve("missing"), None);
}

#[test]
fn cache_keeps_the_last_value_and_the_other_entries() {
    let mut cache = DataCache::new("K");
    assert_eq!(cache.key, "K");
    cache.store("a", "1");
    cache.store("b", "2");
    cache.store("a", "3");
    assert_eq!(cache.retrieve("a"), Some(&"3".to_string()));
    assert_eq!(cache.retrieve("b"), Some(&"2".to_string()));
    assert_eq!(cache.retrieve(""), None);
}

#[test]
fn alert_can_be_sent() {
    let alert = Alert::new("Predator detected");
    assert_eq!(alert.name, "Predator detected");
    assert_eq!(alert.announcement(), "Sending alert: Predator detected");
}

#[test]
fn command_backend_is_default() {
    assert_eq!(select_backend(None), Ok(Backend::Command));
}

#[test]
fn backend_is_chosen_by_name() {
    assert_eq!(select_backend(Some("command")), Ok(Backend::Command));
    assert_eq!(select_backend(Some("rpi-gpio")), Ok(Backend::RpiGpio));
    assert_eq!(
        select_backend(Some("relay")),
        Err("unsupported ACTUATOR_BACKEND `relay` (expected `command` or `rpi-gpio`)".to_string())
    );
    assert!(select_backend(Some("")).is_err());
    assert!(select_backend(Some("Command")).is_err());
}

#[test]
fn alerts_need_a_predator_and_confidence() {
    let threshold = score(0.30);
    assert!(warrants_alert(&detection("fox", 0.95, false, true), threshold));
    assert!(warrants_alert(&detection("fox", 0.30, false, true), threshold));
    assert!(!warrants_alert(&detection("fox", 0.29, false, true), threshold));
    assert!(!warrants_alert(&detection("hen", 0.95, true, false), threshold));
    assert!(!warrants_alert(&detection("fox", f32::NAN, false, true), threshold));
    assert!(!warrants_alert(&detection("fox", 0.95, false, true), score(f32::NAN)));
    let alert = predator_alert(&detection("fox", 0.95, false, true), threshold, "image")
        .expect("an alert");
    assert_eq!(alert.name, "Predator detected in image");
    assert!(predator_alert(&detection("hen", 0.95, true, false), threshold, "image").is_none());
}

#[test]
fn frames_with_a_detection_are_kept() {
    assert!(warrants_capture(&detection("hen", 0.1, true, false)));
    assert!(warrants_capture(&detection("fox", 0.1, false, true)));
    assert!(warrants_capture(&detection("hen and dog", 0.1, true, true)));
    assert!(!warrants_capture(&detection("toaster", 0.9, false, false)));
}

#[test]
fn keys_are_redacted_after_four_characters() {
    assert_eq!(redact_key("SECRETKEY"), "SECR***");
    assert_eq!(redact_key("abcd"), "abcd***");
    assert_eq!(redact_key("ab"), "ab***");
    assert_eq!(redact_key(""), "***");
    assert_eq!(redact_key("\u{e9}\u{e8}\u{ea}\u{eb}\u{ec}"), "\u{e9}\u{e8}\u{ea}\u{eb}***");
}

#[test]
fn endpoint_urls_drop_the_slashes_of_the_base() {
    assert_eq!(
        endpoint_url("http://127.0.0.1:8080", "sensors/temperature"),
        "http://127.0.0.1:8080/sensors/temperature"
    );
    assert_eq!(endpoint_url("http://h///", "p"), "http://h/p");
    assert_eq!(endpoint_url("", "p"), "/p");
    assert_eq!(endpoint_url("//", ""), "/");
    assert_eq!(endpoint_url("a/b", "/c"), "a/b//c");
}

#[test]
fn chars_and_texts() {
    assert_eq!(chars_of("h\u{e9}n"), vec!['h', '\u{e9}', 'n']);
    assert!(same_text("on", "on"));
    assert!(!same_text("on", "ON"));
    assert!(!same_text("on", "one"));
    assert!(contains_chars(&['a', 'b', 'c'], &['b', 'c']));
    assert!(contains_chars(&['a', 'b', 'c'], &[]));
    assert!(contains_chars(&[], &[]));
    assert!(!contains_chars(&['a', 'b', 'c'], &['c', 'b']));
    assert!(!contains_chars(&['a'], &['a', 'a']));
}

#[test]
fn decimal_numerals() {
    assert_eq!(decimal_string(0), "0");
    assert_eq!(decimal_string(7), "7");
    assert_eq!(decimal_string(10), "10");
    assert_eq!(decimal_string(1200), "1200");
    assert_eq!(decimal_string(u128::MAX), u128::MAX.to_string());
}

#[test]
fn replace_all_agrees_with_str_replace() {
    let cases = [
        ("", "a", "b"),
        ("aaa", "a", "b"),
        ("aaa", "aa", "b"),
        ("abcabc", "bc", ""),
        ("abc", "abcd", "x"),
        ("{x}{x}", "{x}", "{x}{x}"),
        ("ab", "", "-"),
        ("", "", "-"),
        ("h\u{e9}h\u{e9}", "\u{e9}", "e"),
        ("aXbXc", "X", "XX"),
    ];
    for (hay, needle, with) in cases {
        assert_eq!(replace_all(hay, needle, with), hay.replace(needle, with), "{:?}", (hay, needle, with));
    }
}

#[test]
fn commands_are_rendered_from_templates() {
    assert_eq!(
        render_command("feed --dev {device_key} --ms {duration_ms}", "F1", Some(2500)),
        "feed --dev F1 --ms 2500"
    );
    assert_eq!(render_command("open {device_key} {duration_ms}", "D", None), "open D 0");
    assert_eq!(render_command("{device_key}{device_key}", "ab", Some(1)), "abab");
    assert_eq!(render_command("run {device_key}", "{duration_ms}", Some(9)), "run 9");
    assert_eq!(render_command("plain", "k", Some(9)), "plain");
}

#[test]
fn local_driver_plans_commands_and_tracks_the_door() {
    let mut driver = LocalActuatorDriver::new(
        Some("feed {device_key} {duration_ms}".to_string()),
        Some("open {device_key}".to_string()),
        None,
    );
    assert!(!driver.door_is_open);
    assert_eq!(driver.plan_feeder_activate("F", 300), Some("feed F 300".to_string()));
    assert!(!driver.door_is_open);
    assert_eq!(driver.plan_door_open("D"), Some("open D".to_string()));
    assert!(driver.door_is_open);
    assert_eq!(driver.plan_door_close("D"), None);
    assert!(!driver.door_is_open);
    assert_eq!(driver.door_open_cmd, Some("open {device_key}".to_string()));
}

#[test]
fn unsigned_numbers_parse_like_std() {
    let texts = [
        "", "0", "7", "007", "255", "256", "+5", "+", "-1", "-0", "1 ", " 1", "12a", "a", "++1",
        "18446744073709551615", "18446744073709551616", "000000000000000000000000000001",
        "99999999999999999999999", "\u{663}", "1_000", "1e3", "+255", "+256",
    ];
    for text in texts {
        assert_eq!(parse_unsigned(text, u64::MAX), text.parse::<u64>().ok(), "{:?}", text);
        assert_eq!(
            parse_unsigned(text, 255),
            text.parse::<u8>().ok().map(u64::from),
            "{:?}",
            text
        );
        assert_eq!(
            parse_u8_setting("N", Some(text), 3),
            text.parse::<u8>().map_err(|_| format!("invalid value for N: {text}")),
            "{:?}",
            text
        );
        assert_eq!(
            parse_u64_setting("N", Some(text), 3),
            text.parse::<u64>().map_err(|_| format!("invalid value for N: {text}")),
            "{:?}",
            text
        );
    }
    assert_eq!(parse_unsigned("5", 4), None);
    assert_eq!(parse_unsigned("4", 4), Some(4));
    assert_eq!(parse_unsigned("0", 0), Some(0));
    assert_eq!(parse_unsigned("9", 0), None);
}

#[test]
fn absent_settings_take_their_default() {
    assert_eq!(parse_u8_setting("FEEDER_GPIO_PIN", None, 17), Ok(17));
    assert_eq!(parse_u64_setting("DOOR_PULSE_MS", None, 1200), Ok(1200));
    assert_eq!(parse_bool_setting("ACTUATOR_ACTIVE_HIGH", None, true), Ok(true));
    assert_eq!(parse_bool_setting("ACTUATOR_ACTIVE_HIGH", None, false), Ok(false));
}

#[test]
fn switches_are_read_from_their_words() {
    for word in ["1", "true", "TRUE", "yes", "on"] {
        assert_eq!(parse_bool_setting("S", Some(word), false), Ok(true), "{}", word);
    }
    for word in ["0", "false", "FALSE", "no", "off"] {
        assert_eq!(parse_bool_setting("S", Some(word), true), Ok(false), "{}", word);
    }
    for word in ["", "True", "YES", "On", "2", "yes ", "o"] {
        assert_eq!(
            parse_bool_setting("S", Some(word), true),
            Err(format!("invalid value for S: {word}")),
            "{:?}",
            word
        );
    }
}

#[test]
fn gpio_wiring_is_read_from_settings() {
    let unset = RpiGpioSettings {
        feeder_pin: None,
        door_open_pin: None,
        door_close_pin: None,
        active_high: None,
        door_pulse_ms: None,
    };
    assert_eq!(
        rpi_config_from_settings(&unset),
        Ok(RpiGpioConfig {
            feeder_pin: 17,
            door_open_pin: 27,
            door_close_pin: 22,
            active_high: true,
            door_pulse_ms: 1200,
        })
    );
    let set = RpiGpioSettings {
        feeder_pin: Some("5"),
        door_open_pin: Some("6"),
        door_close_pin: Some("13"),
        active_high: Some("off"),
        door_pulse_ms: Some("800"),
    };
    assert_eq!(
        rpi_config_from_settings(&set),
        Ok(RpiGpioConfig {
            feeder_pin: 5,
            door_open_pin: 6,
            door_close_pin: 13,
            active_high: false,
            door_pulse_ms: 800,
        })
    );
    let broken = RpiGpioSettings {
        feeder_pin: Some("5"),
        door_open_pin: Some("300"),
        door_close_pin: Some("x"),
        active_high: Some("maybe"),
        door_pulse_ms: Some("-1"),
    };
    assert_eq!(
        rpi_config_from_settings(&broken),
        Err("invalid value for DOOR_OPEN_GPIO_PIN: 300".to_string())
    );
    let broken = RpiGpioSettings { active_high: Some("maybe"), ..unset };
    assert_eq!(
        rpi_config_from_settings(&broken),
        Err("invalid value for ACTUATOR_ACTIVE_HIGH: maybe".to_string())
    );
}

#[test]
fn gpio_steps_pulse_the_relays() {
    let config = RpiGpioConfig {
        feeder_pin: 17,
        door_open_pin: 27,
        door_close_pin: 22,
        active_high: true,
        door_pulse_ms: 1200,
    };
    assert_eq!(config.active_level(), PinLevel::High);
    assert_eq!(config.inactive_level(), PinLevel::Low);
    assert_eq!(
        config.setup_steps(),
        vec![
            GpioStep::Write { pin: 17, level: PinLevel::Low },
            GpioStep::Write { pin: 27, level: PinLevel::Low },
            GpioStep::Write { pin: 22, level: PinLevel::Low },
        ]
    );
    assert_eq!(
        config.feeder_steps(2500),
        vec![
            GpioStep::Write { pin: 17, level: PinLevel::High },
            GpioStep::Hold { ms: 2500 },
            GpioStep::Write { pin: 17, level: PinLevel::Low },
        ]
    );
    assert_eq!(
        config.door_open_steps(),
        vec![
            GpioStep::Write { pin: 22, level: PinLevel::Low },
            GpioStep::Write { pin: 27, level: PinLevel::High },
            GpioStep::Hold { ms: 1200 },
            GpioStep::Write { pin: 27, level: PinLevel::Low },
        ]
    );
    let inverted = RpiGpioConfig { active_high: false, ..config };
    assert_eq!(
        inverted.door_close_steps(),
        vec![
            GpioStep::Write { pin: 27, level: PinLevel::High },
            GpioStep::Write { pin: 22, level: PinLevel::Low },
            GpioStep::Hold { ms: 1200 },
            GpioStep::Write { pin: 22, level: PinLevel::High },
        ]
    );
}

#[test]
fn clients_know_their_paths() {
    let feeder = FeederMotor::new("FEEDER_DEVICE", "ACTUATOR_API_TOKEN");
    let door = CoopDoor::new("DOOR_DEVICE", "ACTUATOR_API_TOKEN");
    assert_eq!(feeder.key, "FEEDER_DEVICE");
    assert_eq!(feeder.api_key, "ACTUATOR_API_TOKEN");
    assert_eq!(door.key, "DOOR_DEVICE");
    assert_eq!(door.api_key, "ACTUATOR_API_TOKEN");
    assert_eq!(feeder.activate_path(), "actuators/feeder/activate");
    assert_eq!(door.open_path(), "actuators/door/open");
    assert_eq!(door.close_path(), "actuators/door/close");
    assert_eq!(
        endpoint_url("http://127.0.0.1:8081/", feeder.activate_path()),
        format!("http://127.0.0.1:8081{}", Action::FeederActivate.route())
    );
    assert_eq!(Action::DoorOpen.route(), "/actuators/door/open");
    assert_eq!(Action::DoorClose.route(), "/actuators/door/close");
}

#[test]
fn sensors_know_their_paths_and_fallbacks() {
    let temp = TemperatureSensor::new("TEMP");
    let humidity = HumiditySensor::new("HUM");
    let motion = MotionSensor::new("MOTION");
    let eggs = EggPresenceSensor::new("EGG");
    assert_eq!(temp.key, "TEMP");
    assert_eq!(humidity.key, "HUM");
    assert_eq!(motion.key, "MOTION");
    assert_eq!(eggs.key, "EGG");
    assert_eq!(temp.path(), "sensors/temperature");
    assert_eq!(humidity.path(), "sensors/humidity");
    assert_eq!(motion.path(), "sensors/motion");
    assert_eq!(eggs.path(), "sensors/eggs");
    assert!(motion.reading(Some(true)));
    assert!(!motion.reading(Some(false)));
    assert!(!motion.reading(None));
    assert!(eggs.reading(Some(true)));
    assert!(!eggs.reading(None));
}

#[test]
fn only_the_expected_key_is_authorized() {
    assert!(authorized(Some("KEY"), "KEY"));
    assert!(!authorized(Some("key"), "KEY"));
    assert!(!authorized(Some(""), "KEY"));
    assert!(!authorized(None, "KEY"));
    assert!(authorized(Some(""), ""));
    assert!(!authorized(None, ""));
    assert!(refusal(Some("KEY"), "KEY").is_none());
    let response = refusal(Some("nope"), "KEY").expect("a refusal");
    assert_eq!(response.code, 401);
    assert_eq!(response.status, "error");
    assert_eq!(response.message, "unauthorized");
    assert!(refusal(None, "KEY").is_some());
}

#[test]
fn outcomes_are_answered() {
    let done = outcome_response(Action::FeederActivate, Ok(()));
    assert_eq!((done.code, done.status.as_str(), done.message.as_str()), (200, "ok", "feeder activated"));
    let done = outcome_response(Action::DoorOpen, Ok(()));
    assert_eq!((done.code, done.status.as_str(), done.message.as_str()), (200, "ok", "door opened"));
    let done = outcome_response(Action::DoorClose, Ok(()));
    assert_eq!((done.code, done.status.as_str(), done.message.as_str()), (200, "ok", "door closed"));
    let failed = outcome_response(Action::DoorClose, Err("command failed with status: 1".to_string()));
    assert_eq!(
        (failed.code, failed.status.as_str(), failed.message.as_str()),
        (500, "error", "command failed with status: 1")
    );
    assert_eq!(feed_duration(None), 2500);
    assert_eq!(feed_duration(Some(10)), 10);
    assert_eq!(feed_duration(Some(0)), 0);
}

#[test]
fn allowed_origin_follows_the_header_rules() {
    assert!(matches!(allowed_origin(None), AllowedOrigin::Any));
    assert!(matches!(allowed_origin(Some("")), AllowedOrigin::Any));
    assert!(matches!(allowed_origin(Some("*")), AllowedOrigin::Any));
    match allowed_origin(Some("https://coop.example")) {
        AllowedOrigin::Exact(origin) => assert_eq!(origin, "https://coop.example"),
        AllowedOrigin::Any => panic!("a valid origin was not kept"),
    }
    let texts = [
        "https://coop.example",
        "a\tb",
        "a\nb",
        "a\u{7f}b",
        "a\u{0}",
        "\u{1f}",
        " ",
        "**",
        "h\u{e9}n",
        "\u{80}",
        "\u{3000}x",
        "~",
    ];
    for text in texts {
        let accepted = axum::http::HeaderValue::from_str(text).is_ok();
        let exact = matches!(allowed_origin(Some(text)), AllowedOrigin::Exact(_));
        assert_eq!(exact, accepted, "{:?}", text);
        let by_rule = text.chars().all(|c| c == '\t' || (c as u32 >= 32 && c as u32 != 127));
        assert_eq!(accepted, by_rule, "{:?}", text);
    }
}

#[test]
fn detection_frames_are_named() {
    assert_eq!(capture_dir(), "captures");
    assert_eq!(sanitize_label("Red Fox (juv.)"), "Red_Fox__juv__");
    assert_eq!(sanitize_label(""), "");
    assert_eq!(sanitize_label("h\u{e9}n-2"), "h_n_2");
    assert_eq!(
        detection_file_name(1700000000123, "red fox", "0.950"),
        "captures/1700000000123_red_fox_0.950.jpg"
    );
    assert_eq!(detection_file_name(0, "", ""), "captures/0__.jpg");
}

#[test]
fn vision_runs_on_a_file_or_the_camera() {
    let run = RunCommands::AiVision { image: Some("hen.jpg".to_string()), camera_index: 2, frames: 5 };
    match run.source() {
        VisionSource::File(path) => assert_eq!(path, "hen.jpg"),
        VisionSource::Camera { .. } => panic!("the file was not taken"),
    }
    let run = RunCommands::AiVision { image: None, camera_index: 2, frames: 5 };
    match run.source() {
        VisionSource::Camera { index, frames } => assert_eq!((index, frames), (2, 5)),
        VisionSource::File(_) => panic!("there is no file"),
    }
    let cli = Cli { command: Some(Commands::Run { action: run }) };
    assert!(matches!(cli.command, Some(Commands::Run { .. })));
}
