use cursus::app::{parse_unsigned, ApplicationConfiguration};

fn s(v: &str) -> Option<String> {
    Some(v.to_string())
}

#[test]
fn the_defaults() {
    let c = ApplicationConfiguration::default();
    assert_eq!(c.database_url, "");
    assert_eq!(c.host, "0.0.0.0");
    assert_eq!(c.port, 8080);
    assert_eq!(c.workers, 4);
    assert_eq!(c.log_level, "info");
}

#[test]
fn the_database_url_must_be_set() {
    let r = ApplicationConfiguration::from_env_values(None, s("h"), s("1"), s("1"), s("debug"));
    assert_eq!(r.err(), Some("DATABASE_URL must be set".to_string()));
}

#[test]
fn values_override_and_bad_numbers_fall_back() {
    let c = ApplicationConfiguration::from_env_values(s("postgres://db"), s("127.0.0.1"), s("9000"), s("16"), s("debug"))
        .unwrap();
    assert_eq!(c.database_url, "postgres://db");
    assert_eq!(c.host, "127.0.0.1");
    assert_eq!(c.port, 9000);
    assert_eq!(c.workers, 16);
    assert_eq!(c.log_level, "debug");
    let c = ApplicationConfiguration::from_env_values(s("u"), None, s("70000"), s("many"), None).unwrap();
    assert_eq!(c.host, "0.0.0.0");
    assert_eq!(c.port, 8080);
    assert_eq!(c.workers, 4);
    assert_eq!(c.log_level, "info");
}

#[test]
fn unsigned_numbers_read_as_str_parse_reads_them() {
    for text in ["0", "7", "+42", "0065535", "65535", "65536", "", "+", "-1", " 1", "1 ", "1_0", "99999999999999999999999"] {
        let expected = text.parse::<u16>().ok().map(u64::from);
        assert_eq!(parse_unsigned(text, 65535), expected, "{text:?}");
        let expected = text.parse::<u64>().ok();
        assert_eq!(parse_unsigned(text, u64::MAX), expected, "{text:?}");
    }
}
