use reestream::relay::config::{Config, ConfigBuilder, Orientation};
use reestream::relay::error::RelayError;
use reestream::relay::setup::{
    SetupPlatform, SetupRequest, config_from_setup, wizard_add_platform, wizard_answer, wizard_finish, wizard_orientation,
    wizard_port,
};
use reestream::relay::provider::StreamKey;
use reestream::weburl::UrlParts;

#[test]
fn test_config_builder_defaults() {
    let config = ConfigBuilder::new().stream_key("test-key").build();
    assert_eq!(config.rtmp_addr, "0.0.0.0");
    assert_eq!(config.rtmp_port, 1935);
    assert_eq!(config.stream_key, "test-key");
    assert!(config.platform.is_none());
}

#[test]
fn test_config_builder_full() {
    let config = ConfigBuilder::new()
        .addr("127.0.0.1")
        .port(9999)
        .stream_key("my-key")
        .add_platform(
            UrlParts::parse("rtmp://twitch.tv/app").unwrap(),
            "twitch-key",
            Orientation::Horizontal,
        )
        .add_platform(
            UrlParts::parse("rtmp://youtube.com/live2").unwrap(),
            "yt-key",
            Orientation::Vertical,
        )
        .build();
    assert_eq!(config.rtmp_addr, "127.0.0.1");
    assert_eq!(config.rtmp_port, 9999);
    let platforms = config.platform.unwrap();
    assert_eq!(platforms.len(), 2);
}

#[test]
fn test_config_builder_validate_ok() {
    let builder = ConfigBuilder::new().stream_key("key");
    assert!(builder.validate().is_ok());
}

#[test]
fn test_config_builder_validate_empty_key() {
    let builder = ConfigBuilder::new();
    assert!(builder.validate().is_err());
}

#[test]
fn test_config_builder_validate_zero_port() {
    let builder = ConfigBuilder::new().port(0).stream_key("key");
    assert!(builder.validate().is_err());
}

#[test]
fn test_config_builder_validate_empty_platform_key() {
    let builder = ConfigBuilder::new().stream_key("key").add_platform(
        UrlParts::parse("rtmp://twitch.tv/app").unwrap(),
        "",
        Orientation::Horizontal,
    );
    assert!(builder.validate().is_err());
}

#[test]
fn test_config_validate() {
    let config = ConfigBuilder::new().stream_key("key").build();
    assert!(config.validate().is_ok());

    let bad = ConfigBuilder::new().build();
    assert!(bad.validate().is_err());
}

#[test]
fn test_config_builder_default_trait() {
    let builder = ConfigBuilder::default();
    assert_eq!(builder.rtmp_addr, "0.0.0.0");
}

#[test]
fn test_config_builder_chaining() {
    let config = Config::builder()
        .addr("10.0.0.1")
        .port(8080)
        .stream_key("chain-key")
        .build();
    assert_eq!(config.rtmp_addr, "10.0.0.1");
    assert_eq!(config.rtmp_port, 8080);
}

#[test]
fn builder_validation_names_the_first_broken_rule() {
    assert_eq!(ConfigBuilder::new().validate().unwrap_err(), "stream_key cannot be empty");
    assert_eq!(
        ConfigBuilder::new().stream_key("k").port(0).validate().unwrap_err(),
        "rtmp_port cannot be 0"
    );
    assert_eq!(
        ConfigBuilder::new().stream_key("k").addr("").validate().unwrap_err(),
        "rtmp_addr cannot be empty"
    );
    let no_key = ConfigBuilder::new().stream_key("k").add_platform(
        UrlParts::parse("rtmp://a.example/app").unwrap(),
        "",
        Orientation::Horizontal,
    );
    assert_eq!(no_key.validate().unwrap_err(), "platform[0] key cannot be empty");
    let wrong_scheme = ConfigBuilder::new()
        .stream_key("k")
        .add_platform(UrlParts::parse("rtmp://a.example/app").unwrap(), "x", Orientation::Horizontal)
        .add_platform(UrlParts::parse("http://b.example/app").unwrap(), "y", Orientation::Vertical);
    assert_eq!(
        wrong_scheme.validate().unwrap_err(),
        "platform[1] url must use rtmp:// or rtmps://"
    );
    let no_host = ConfigBuilder::new().stream_key("k").add_platform(
        UrlParts::parse("rtmp:app").unwrap(),
        "x",
        Orientation::Horizontal,
    );
    assert_eq!(no_host.validate().unwrap_err(), "platform[0] url has no host");
}

#[test]
fn config_validation_messages() {
    let c = ConfigBuilder::new().stream_key("k").port(0).build();
    assert_eq!(c.validate().unwrap_err(), "rtmp_port cannot be 0");
    let c = ConfigBuilder::new().build();
    assert_eq!(c.validate().unwrap_err(), "stream_key cannot be empty");
}

#[test]
fn test_display_io() {
    let io_err = std::io::Error::new(std::io::ErrorKind::ConnectionRefused, "refused");
    let err = RelayError::Io(io_err);
    assert!(err.message().contains("IO error"));
    assert!(err.message().contains("refused"));
}

#[test]
fn test_display_handshake() {
    let err = RelayError::Handshake("bad handshake".into());
    assert_eq!(err.message(), "Handshake error: bad handshake");
}

#[test]
fn test_display_session() {
    let err = RelayError::Session("session expired".into());
    assert_eq!(err.message(), "Session error: session expired");
}

#[test]
fn test_display_connection() {
    let err = RelayError::Connection("timeout".into());
    assert_eq!(err.message(), "Connection error: timeout");
}

#[test]
fn test_display_timeout() {
    let err = RelayError::Timeout("30s".into());
    assert_eq!(err.message(), "Timeout: 30s");
}

#[test]
fn test_display_invalid_config() {
    let err = RelayError::InvalidConfig("missing field".into());
    assert_eq!(err.message(), "Invalid config: missing field");
}

#[test]
fn test_display_publish_rejected() {
    let err = RelayError::PublishRejected("bad key".into());
    assert_eq!(err.message(), "Publish rejected: bad key");
}

#[test]
fn test_error_trait_implemented() {
    let err = Box::new(RelayError::Handshake("test".into()));
    assert_eq!(err.message(), "Handshake error: test");
}

#[test]
fn test_relay_error_debug() {
    let err = RelayError::Connection("debug test".into());
    let debug = format!("{:?}", err);
    assert!(debug.contains("Connection"));
    assert!(debug.contains("debug test"));
}

#[test]
fn test_relay_error_all_variants_display() {
    let variants = vec![
        RelayError::Handshake("h".into()),
        RelayError::Session("s".into()),
        RelayError::Connection("c".into()),
        RelayError::Timeout("t".into()),
        RelayError::InvalidConfig("i".into()),
        RelayError::PublishRejected("p".into()),
    ];
    for err in variants {
        let msg = err.message();
        assert!(!msg.is_empty(), "Display should not be empty for {:?}", err);
    }
}

#[test]
fn test_from_io_error_various_kinds() {
    let kinds = vec![
        std::io::ErrorKind::NotFound,
        std::io::ErrorKind::PermissionDenied,
        std::io::ErrorKind::ConnectionRefused,
        std::io::ErrorKind::ConnectionReset,
        std::io::ErrorKind::TimedOut,
        std::io::ErrorKind::BrokenPipe,
        std::io::ErrorKind::AddrInUse,
        std::io::ErrorKind::AddrNotAvailable,
    ];
    for kind in kinds {
        let io_err = std::io::Error::new(kind, "test");
        let err: RelayError = io_err.into();
        assert!(matches!(err, RelayError::Io(_)));
        assert!(err.message().contains("IO error"));
    }
}

#[test]
fn test_result_type_alias() {
    let ok: reestream::relay::error::Result<i32> = Ok(42);
    assert!(ok.is_ok());

    let err: reestream::relay::error::Result<i32> = Err(RelayError::Timeout("test".into()));
    assert!(err.is_err());
}

#[test]
fn tls_error_message_names_rtmps() {
    let err = RelayError::Tls("handshake failed".into());
    assert_eq!(err.message(), "Tls on rtmps: handshake failed");
}

#[test]
fn test_stream_key_clone() {
    let key = StreamKey {
        key: "clone-test".to_string(),
        rtmp_url: "rtmp://test.com".to_string(),
    };
    let cloned = key.clone();
    assert_eq!(key.key, cloned.key);
    assert_eq!(key.rtmp_url, cloned.rtmp_url);
}

#[test]
fn reset_stream_key_gives_a_fresh_uuid_v4() {
    let mut config = Config { rtmp_addr: "0.0.0.0".into(), rtmp_port: 1935, stream_key: "old".into(), platform: None };
    let key = config.reset_stream_key();
    assert_eq!(config.stream_key, key);
    assert_eq!((config.rtmp_addr.as_str(), config.rtmp_port), ("0.0.0.0", 1935));
    let chars: Vec<char> = key.chars().collect();
    assert_eq!(chars.len(), 36);
    for (i, c) in chars.iter().enumerate() {
        if [8, 13, 18, 23].contains(&i) {
            assert_eq!(*c, '-');
        } else {
            assert!(c.is_ascii_digit() || ('a'..='f').contains(c));
        }
    }
    assert_eq!(chars[14], '4');
    assert!("89ab".contains(chars[19]));
    assert_ne!(config.reset_stream_key(), key);
}

#[test]
fn keys_are_masked_by_bytes() {
    assert_eq!(reestream::relay::setup::mask_key("abcd"), "****");
    assert_eq!(reestream::relay::setup::mask_key("abcdefghij"), "abcd\u{2026}ghij");
    assert_eq!(reestream::relay::setup::mask_key("ééééé"), "éé\u{2026}éé");
    assert_eq!(reestream::relay::setup::mask_key("éé"), "****");
}

#[test]
fn wizard_answers_mean_what_they_say() {
    assert_eq!(wizard_answer("  \n", "1935"), "1935");
    assert_eq!(wizard_answer(" 2000 \n", "1935"), "2000");
    assert_eq!(wizard_port("2000"), 2000);
    assert_eq!(wizard_port(""), 1935);
    assert_eq!(wizard_port("70000"), 1935);
    assert_eq!(wizard_orientation("V"), Orientation::Vertical);
    assert_eq!(wizard_orientation("9:16"), Orientation::Vertical);
    assert_eq!(wizard_orientation("Vertical"), Orientation::Vertical);
    assert_eq!(wizard_orientation("portrait"), Orientation::Horizontal);
    let b = ConfigBuilder::new().addr("0.0.0.0").port(1935).stream_key("k");
    let (b, added) = wizard_add_platform(b, "not a url", "x", Orientation::Horizontal);
    assert!(!added);
    assert!(b.platforms.is_empty());
    let (b, added) = wizard_add_platform(b, "rtmp://live.twitch.tv/app", "tk", Orientation::Vertical);
    assert!(added);
    assert_eq!(b.platforms[0].key, "tk");
    assert_eq!(b.platforms[0].orientation, Orientation::Vertical);
    let c = wizard_finish(b).unwrap();
    assert_eq!(c.platform.unwrap().len(), 1);
    let bad = ConfigBuilder::new().addr("0.0.0.0").port(1935).stream_key("");
    assert_eq!(wizard_finish(bad).unwrap_err(), "Config validation failed: stream_key cannot be empty");
}

#[test]
fn setup_requests_keep_each_destination() {
    let req = SetupRequest {
        rtmp_addr: None,
        rtmp_port: None,
        stream_key: "k".into(),
        platforms: vec![
            SetupPlatform { name: "a".into(), url: "rtmp://a.example/live".into(), key: "ka".into(), orientation: Some("vertical".into()) },
            SetupPlatform { name: "b".into(), url: "rtmp://b.example/live".into(), key: "kb".into(), orientation: None },
        ],
    };
    let c = config_from_setup(&req).unwrap();
    let ps = c.platform.unwrap();
    assert_eq!((ps[0].key.as_str(), ps[0].orientation), ("ka", Orientation::Vertical));
    assert_eq!((ps[1].key.as_str(), ps[1].orientation), ("kb", Orientation::Horizontal));
    assert!(ps[1].enabled);
    assert_eq!(ps[0].url.as_str(), "rtmp://a.example/live");
}
