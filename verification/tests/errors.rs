use app_errors::errors::AppError;

struct SilentLogger;

impl log::Log for SilentLogger {
    fn enabled(&self, _metadata: &log::Metadata) -> bool {
        false
    }

    fn log(&self, _record: &log::Record) {}

    fn flush(&self) {}
}

#[test]
fn hex_conversion_is_deterministic_and_keeps_the_text() {
    let e = hex::decode("abc").unwrap_err();
    let a = AppError::from_hex_error(e);
    let b = AppError::from_hex_error(e);
    assert!(matches!(a, AppError::HexError(_)));
    assert!(matches!(b, AppError::HexError(_)));
    if let (AppError::HexError(ma), AppError::HexError(mb)) = (&a, &b) {
        assert_eq!(ma, &e.to_string());
        assert_eq!(mb, &e.to_string());
    } else {
        panic!("wrong variant");
    }
}

#[test]
fn hex_odd_length_scenario() {
    let e = hex::decode("abc").unwrap_err();
    let app = AppError::from_hex_error(e);
    let out = app.render();
    assert!(out.contains("Hex Error"));
    assert!(out.contains(&e.to_string()));
    assert_eq!(
        out,
        "\n\u{2718} Hex Error!\n\u{2718} Odd number of digits\n\u{2714} Exiting, goodbye!\n"
    );
}

#[test]
fn hex_invalid_character_keeps_position_and_character() {
    let e = hex::decode("zz").unwrap_err();
    let app = AppError::from_hex_error(e);
    if let AppError::HexError(m) = &app {
        assert_eq!(m, &e.to_string());
    } else {
        panic!("wrong variant");
    }
    let out = app.render();
    assert!(out.contains("Invalid character"));
}

#[test]
fn io_error_render_contains_the_io_text() {
    let e = std::io::Error::new(std::io::ErrorKind::Other, "disk offline");
    let text = e.to_string();
    let app = AppError::from_io_error(e);
    assert!(matches!(app, AppError::IOError(_)));
    let out = app.render();
    assert!(out.contains("I/O Error!"));
    assert!(out.contains(&text));
    assert!(out.contains("disk offline"));
}

#[test]
fn serde_json_error_render_contains_the_parser_text() {
    let e = serde_json::from_str::<serde_json::Value>("{").unwrap_err();
    let text = e.to_string();
    let app = AppError::from_serde_json_error(e);
    assert!(matches!(app, AppError::SerdeJsonError(_)));
    let out = app.render();
    assert!(out.contains("Serde-Json Error!"));
    assert!(out.contains(&text));
}

#[test]
fn logger_error_render_is_exact() {
    let logger: &'static SilentLogger = Box::leak(Box::new(SilentLogger));
    let _ = log::set_logger(logger);
    let e = log::set_logger(logger).unwrap_err();
    let app = AppError::from_logger_error(e);
    let out = app.render();
    assert_eq!(
        out,
        "\n\u{2718} Logger Error!\n\u{2718} SetLoggerError(())\n\u{2714} Exiting, goodbye!\n"
    );
}

#[test]
fn none_error_render_is_exact() {
    let app = AppError::from_none();
    assert!(matches!(app, AppError::NoneError(_)));
    let out = app.render();
    assert_eq!(
        out,
        "\n\u{2718} Nothing to unwrap!\n\u{2718} NoneError\n\u{2714} Exiting, goodbye!\n"
    );
}

#[test]
fn http_failure_scenario() {
    let client = reqwest::blocking::Client::builder()
        .timeout(std::time::Duration::from_millis(500))
        .build()
        .unwrap();
    let e = client.get("http://127.0.0.1:9/").send().unwrap_err();
    let text = e.to_string();
    let app = AppError::from_reqwest_error(e);
    assert!(matches!(app, AppError::ReqwestError(_)));
    let out = app.render();
    assert!(out.contains("HTTP Reqwest Error!"));
    assert!(out.contains(&text));
    assert!(out.contains("Please check your node & port settings and retry."));
    assert!(out.ends_with("\u{2714} Exiting, goodbye!\n"));
}

#[test]
fn custom_render_is_the_message_blank_line_wrapped() {
    let app = AppError::Custom(String::from("x"));
    let out = app.render();
    assert!(out.contains("x"));
    assert_eq!(out, "\nx\n\u{2714} Exiting, goodbye!\n");
}

#[test]
fn missing_field_scenario() {
    let app = AppError::Custom(String::from("missing field X"));
    let out = app.render();
    assert!(out.contains("missing field X"));
    assert_eq!(out, "\nmissing field X\n\u{2714} Exiting, goodbye!\n");
}

#[test]
fn description_is_the_same_constant_for_every_variant() {
    let expected = "\n\u{2718} Program Error!\n";
    let errors = vec![
        AppError::Custom(String::from("anything")),
        AppError::from_none(),
        AppError::from_hex_error(hex::decode("abc").unwrap_err()),
        AppError::from_io_error(std::io::Error::new(std::io::ErrorKind::Other, "e")),
        AppError::from_serde_json_error(
            serde_json::from_str::<serde_json::Value>("not json").unwrap_err(),
        ),
    ];
    for e in &errors {
        assert_eq!(e.description(), expected);
    }
}

#[test]
fn rendering_is_pure() {
    let errors = vec![
        AppError::Custom(String::from("twice")),
        AppError::from_none(),
        AppError::from_hex_error(hex::decode("abc").unwrap_err()),
        AppError::from_io_error(std::io::Error::new(std::io::ErrorKind::Other, "again")),
    ];
    for e in &errors {
        let first = e.render();
        let second = e.render();
        assert_eq!(first.as_bytes(), second.as_bytes());
    }
}
