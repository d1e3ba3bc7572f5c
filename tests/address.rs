use ip_watch::address::{is_space_char, trim_address};
use ip_watch::config::{interval_from, parse_u64, Config, ConfigError, DEFAULT_INTERVAL_SECS};
use ip_watch::source::{choose_source, source_at, Source, SOURCE_COUNT};

#[test]
fn trim_removes_surrounding_space() {
    assert_eq!(trim_address("  1.2.3.4\n"), "1.2.3.4");
    assert_eq!(trim_address("1.2.3.4"), "1.2.3.4");
    assert_eq!(trim_address("\t\r\n 10.0.0.1 \r\n"), "10.0.0.1");
}

#[test]
fn trim_keeps_inner_space_and_empties_blank_text() {
    assert_eq!(trim_address(" a b "), "a b");
    assert_eq!(trim_address(""), "");
    assert_eq!(trim_address(" \n\t "), "");
}

#[test]
fn trim_agrees_with_std_on_unicode_space() {
    for s in ["\u{3000}x\u{85}", "\u{a0}\u{2028}y z\u{205f}", "\u{200b}q\u{200b}", "é "] {
        assert_eq!(trim_address(s), s.trim());
    }
    for c in ['\u{9}', '\u{d}', ' ', '\u{1680}', '\u{200a}', '\u{202f}', 'a', '\u{200b}', '\u{e}'] {
        assert_eq!(is_space_char(c), c.is_whitespace());
    }
}

#[test]
fn sources_have_their_urls() {
    assert_eq!(SOURCE_COUNT, 3);
    assert_eq!(source_at(0), Source::Ipify);
    assert_eq!(source_at(1), Source::IpInfo);
    assert_eq!(source_at(2), Source::AwsCheckIp);
    assert_eq!(Source::Ipify.url(), "https://api.ipify.org");
    assert_eq!(Source::IpInfo.url(), "https://ipinfo.io/ip");
    assert_eq!(Source::AwsCheckIp.url(), "https://checkip.amazonaws.com");
}

#[test]
fn random_choice_reaches_more_than_one_source() {
    let mut seen = Vec::new();
    for _ in 0..200 {
        let s = choose_source();
        if !seen.contains(&s) {
            seen.push(s);
        }
    }
    assert!(seen.len() >= 2);
}

#[test]
fn parse_reads_decimal_numbers() {
    assert_eq!(parse_u64("3600"), Some(3600));
    assert_eq!(parse_u64("+5"), Some(5));
    assert_eq!(parse_u64("0"), Some(0));
    assert_eq!(parse_u64("18446744073709551615"), Some(u64::MAX));
}

#[test]
fn parse_refuses_what_is_no_number() {
    assert_eq!(parse_u64(""), None);
    assert_eq!(parse_u64("+"), None);
    assert_eq!(parse_u64("-1"), None);
    assert_eq!(parse_u64("12a"), None);
    assert_eq!(parse_u64(" 12"), None);
    assert_eq!(parse_u64("18446744073709551616"), None);
    for s in ["", "+", "-1", "12a", " 12", "18446744073709551616", "99999999999999999999999"] {
        assert_eq!(parse_u64(s), s.parse::<u64>().ok());
    }
}

#[test]
fn interval_falls_back_to_default() {
    assert_eq!(DEFAULT_INTERVAL_SECS, 3600);
    assert_eq!(interval_from(None), 3600);
    assert_eq!(interval_from(Some("abc")), 3600);
    assert_eq!(interval_from(Some("3")), 3);
}

#[test]
fn missing_webhook_url_refuses_to_start() {
    let r = Config::from_values(Some("3".to_string()), None, vec![], true);
    assert!(matches!(r, Err(ConfigError::MissingWebhookUrl)));
}

#[test]
fn config_keeps_values_and_orders_notifiers() {
    let c = Config::from_values(
        None,
        Some("https://hook.example/x".to_string()),
        vec!["https://dns.example/a?ip=".to_string(), "https://dns.example/b?ip=".to_string()],
        false,
    )
    .unwrap();
    assert_eq!(c.interval_secs, 3600);
    assert_eq!(c.webhook_url, "https://hook.example/x");
    assert!(!c.announce_polls);
    let ns = c.notifiers();
    assert_eq!(ns.len(), 3);
    assert!(matches!(&ns[0], ip_watch::notify::Notifier::Webhook { url } if url == "https://hook.example/x"));
    assert!(matches!(&ns[1], ip_watch::notify::Notifier::DynDns { url_prefix } if url_prefix == "https://dns.example/a?ip="));
    assert!(matches!(&ns[2], ip_watch::notify::Notifier::DynDns { url_prefix } if url_prefix == "https://dns.example/b?ip="));
}
