use dragonfly_client::error::{DFError, ErrorType};
use dragonfly_client::id_generator::IDGenerator;

fn generator() -> IDGenerator {
    IDGenerator::new("10.0.0.1".to_string(), "host-a".to_string(), false)
}

fn seed_generator() -> IDGenerator {
    IDGenerator::new("10.0.0.1".to_string(), "host-a".to_string(), true)
}

#[test]
fn host_id_renders_ip_and_hostname() {
    assert_eq!(generator().host_id(), "10.0.0.1-host-a");
    assert_eq!(seed_generator().host_id(), "10.0.0.1-host-a-seed");
}

#[test]
fn host_id_is_pure() {
    let generator = generator();
    assert_eq!(generator.host_id(), generator.host_id());
    assert!(!generator.host_id().ends_with("-seed"));
    assert!(seed_generator().host_id().ends_with("-seed"));
}

#[test]
fn task_id_ignores_insignificant_query_params() {
    let generator = generator();
    let a = generator
        .task_id(
            "https://example.com/file?token=abc&version=2",
            None,
            None,
            None,
            4194304,
            vec!["version".to_string()],
        )
        .unwrap();
    let b = generator
        .task_id(
            "https://example.com/file?version=2&foo=bar",
            None,
            None,
            None,
            4194304,
            vec!["version".to_string()],
        )
        .unwrap();
    assert_eq!(a, b);
    assert_eq!(
        a,
        "db5782b56a034fbe4cf365b24466ddba1eff827fb644bd84a11d3f5570a88902"
    );
}

#[test]
fn task_id_depends_on_significant_query_params() {
    let generator = generator();
    let a = generator
        .task_id(
            "https://example.com/file?version=2",
            None,
            None,
            None,
            4194304,
            vec!["version".to_string()],
        )
        .unwrap();
    let b = generator
        .task_id(
            "https://example.com/file?version=3",
            None,
            None,
            None,
            4194304,
            vec!["version".to_string()],
        )
        .unwrap();
    assert_ne!(a, b);
}

#[test]
fn task_id_depends_on_piece_length() {
    let generator = generator();
    let a = generator
        .task_id(
            "https://example.com/file?token=abc&version=2",
            None,
            None,
            None,
            4194304,
            vec!["version".to_string()],
        )
        .unwrap();
    let b = generator
        .task_id(
            "https://example.com/file?token=abc&version=2",
            None,
            None,
            None,
            1048576,
            vec!["version".to_string()],
        )
        .unwrap();
    assert_ne!(a, b);
    assert_eq!(
        b,
        "66b7682948521d72937d488232871da633f63907ba1021028dab417c4a6b2aa4"
    );
}

#[test]
fn task_id_is_deterministic_and_hex_shaped() {
    let generator = generator();
    let a = generator
        .task_id(
            "https://example.com/file?version=2",
            Some("sha256:aa"),
            Some("tag"),
            Some("app"),
            4194304,
            vec!["version".to_string()],
        )
        .unwrap();
    let b = generator
        .task_id(
            "https://example.com/file?version=2",
            Some("sha256:aa"),
            Some("tag"),
            Some("app"),
            4194304,
            vec!["version".to_string()],
        )
        .unwrap();
    assert_eq!(a, b);
    assert_eq!(a.len(), 64);
    assert!(a.chars().all(|c| c.is_ascii_hexdigit() && !c.is_ascii_uppercase()));
}

#[test]
fn task_id_with_no_significant_params_drops_the_whole_query() {
    let generator = generator();
    let a = generator
        .task_id(
            "https://example.com/file?token=abc&version=2",
            None,
            None,
            None,
            4194304,
            vec![],
        )
        .unwrap();
    let b = generator
        .task_id(
            "https://example.com/file?other=1",
            None,
            None,
            None,
            4194304,
            vec![],
        )
        .unwrap();
    assert_eq!(a, b);
    assert_eq!(
        a,
        "8a857057979ac80c93792916c96575a9f6646297c65edc51dd3a9fbc9903f12b"
    );
}

#[test]
fn task_id_feeds_optional_fields_without_separators() {
    let generator = generator();
    let a = generator
        .task_id(
            "https://example.com/file",
            Some("sha:abc"),
            Some("mytag"),
            Some("myapp"),
            4194304,
            vec![],
        )
        .unwrap();
    assert_eq!(
        a,
        "030dfab3406fa956e5a6027a399d2198a6c46bc35197bb403a4e3f74923e03f3"
    );
    let split_differently = generator
        .task_id(
            "https://example.com/file",
            Some("sha:abcmytag"),
            None,
            Some("myapp"),
            4194304,
            vec![],
        )
        .unwrap();
    assert_eq!(a, split_differently);
}

#[test]
fn task_id_rejects_a_non_url() {
    let generator = generator();
    let err = generator
        .task_id("not a url", None, None, None, 4194304, vec![])
        .err()
        .unwrap();
    match err {
        DFError::ExternalError(e) => {
            assert_eq!(e.etype, ErrorType::ParseError);
            assert!(e.cause.is_some());
        }
        other => panic!("expected a parse-classified error, got {:?}", other),
    }
}

#[test]
fn peer_id_differs_between_calls_and_keeps_the_prefix() {
    let generator = generator();
    let a = generator.peer_id();
    let b = generator.peer_id();
    assert_ne!(a, b);
    assert!(a.starts_with("10.0.0.1-host-a-"));
    assert!(b.starts_with("10.0.0.1-host-a-"));
    assert_eq!(a.len(), "10.0.0.1-host-a-".len() + 36);
}

#[test]
fn peer_id_embeds_a_version_4_identifier() {
    let a = generator().peer_id();
    let uuid_part = &a["10.0.0.1-host-a-".len()..];
    assert_eq!(uuid_part.len(), 36);
    let chars: Vec<char> = uuid_part.chars().collect();
    for (i, c) in chars.iter().enumerate() {
        if i == 8 || i == 13 || i == 18 || i == 23 {
            assert_eq!(*c, '-');
        } else {
            assert!(c.is_ascii_hexdigit() && !c.is_ascii_uppercase());
        }
    }
    assert_eq!(chars[14], '4');
}

#[test]
fn seed_peer_id_ends_with_seed() {
    let a = seed_generator().peer_id();
    assert!(a.starts_with("10.0.0.1-host-a-"));
    assert!(a.ends_with("-seed"));
    assert_eq!(a.len(), "10.0.0.1-host-a-".len() + 36 + "-seed".len());
}
