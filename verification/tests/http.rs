use waywire::http::{
    asset_path, health, mime_for_extension, upgrade_decision, valid_origin, Origin, OriginError,
    SocketKind, UpgradeDecision, UrlParts, MAX_STREAM_MESSAGE_BYTES,
};
use waywire::outbound::MAX_CONTROL_MESSAGE_BYTES;

#[test]
fn canonical_origin_strips_path_and_rejects_foreign_shapes() {
    assert_eq!(
        Origin::parse("https://example.test/a")
            .expect("absolute HTTPS test URL should parse")
            .as_str(),
        "https://example.test"
    );
    assert!(Origin::parse("example.test").is_err());
    assert!(Origin::parse("https://u@example.test").is_err());
}

#[test]
fn origin_requires_one_exact_value() {
    let expected = Origin::parse("https://x.test").expect("test origin should parse");
    let null = || Some("null".to_owned());
    let exact = || Some("https://x.test".to_owned());
    assert!(!valid_origin(&vec![], &expected));
    assert!(!valid_origin(&vec![null()], &expected));
    assert!(valid_origin(&vec![exact()], &expected));
    assert!(!valid_origin(&vec![exact(), exact()], &expected));
    assert!(!valid_origin(&vec![None], &expected));
}

#[test]
fn vite_asset_extensions_have_nosniff_compatible_mime_types() {
    assert_eq!(mime_for_extension(Some("svg")), "image/svg+xml");
    assert_eq!(mime_for_extension(Some("png")), "image/png");
    assert_eq!(mime_for_extension(Some("ico")), "image/x-icon");
    assert_eq!(mime_for_extension(Some("woff2")), "font/woff2");
    assert_eq!(
        mime_for_extension(Some("json")),
        "application/json; charset=utf-8"
    );
    assert_eq!(
        mime_for_extension(Some("map")),
        "application/json; charset=utf-8"
    );
}

#[test]
fn every_origin_error_has_an_input() {
    assert!(matches!(
        Origin::parse("example.test"),
        Err(OriginError::Url(_))
    ));
    assert!(matches!(
        Origin::parse("ftp://example.test"),
        Err(OriginError::Scheme)
    ));
    assert!(matches!(
        Origin::parse("https://u:p@example.test"),
        Err(OriginError::Credentials)
    ));
    let hostless = UrlParts {
        scheme: "https".to_owned(),
        host: None,
        username: String::new(),
        password: None,
        port: None,
    };
    assert!(matches!(
        hostless.refusal(),
        Some(OriginError::MissingHost)
    ));
}

#[test]
fn origins_keep_ports_that_are_not_the_default() {
    for (raw, origin) in [
        ("http://example.test:80/", "http://example.test"),
        ("http://example.test:8080/x?y", "http://example.test:8080"),
        ("HTTPS://EXAMPLE.test", "https://example.test"),
        ("http://[0:0::1]:8080/", "http://[::1]:8080"),
        ("https://127.1:80", "https://127.0.0.1:80"),
    ] {
        assert_eq!(
            Origin::parse(raw).expect("test URL should parse").as_str(),
            origin
        );
    }
}

#[test]
fn upgrades_need_an_origin_and_a_place() {
    assert_eq!(
        upgrade_decision(false, true, SocketKind::Stream),
        UpgradeDecision::Forbidden
    );
    assert_eq!(
        upgrade_decision(true, false, SocketKind::Control),
        UpgradeDecision::Unavailable
    );
    assert_eq!(
        upgrade_decision(true, true, SocketKind::Stream),
        UpgradeDecision::Upgrade {
            max_message_bytes: MAX_STREAM_MESSAGE_BYTES
        }
    );
    assert_eq!(
        upgrade_decision(true, true, SocketKind::Control),
        UpgradeDecision::Upgrade {
            max_message_bytes: MAX_CONTROL_MESSAGE_BYTES
        }
    );
}

#[test]
fn health_and_the_index_page_are_served() {
    assert_eq!(health(true).0, 200);
    assert_eq!(health(false).0, 503);
    assert_eq!(asset_path("/"), "index.html");
    assert_eq!(asset_path("/assets/app.js"), "assets/app.js");
    assert_eq!(mime_for_extension(None), "application/octet-stream");
}
