use wire::agent::{agent_command, encode_keys, frame_payload, remote_command};
use wire::error::HiveLibError;
use wire::key::{
    command_content, command_parts, destination, keys_for_upload, literal_content,
    parse_permissions, process_key, should_upload, AgentKey, Error, Key, Source, UploadKeyAt,
};
use wire::push::{agent_outcome, prepare_push, split_lines, PushKeys};
use wire::select::Node;
use wire::text::decimal_string;

fn key(name: &str, at: UploadKeyAt, permissions: &str) -> Key {
    Key {
        name: name.to_string(),
        dest_dir: "/etc/keys".to_string(),
        path: format!("/etc/keys/{name}"),
        group: "root".to_string(),
        user: "root".to_string(),
        permissions: permissions.to_string(),
        source: Source::String("hello".to_string()),
        upload_at: at,
    }
}

fn node(user: &str, keys: Vec<Key>) -> Node {
    Node {
        name: "n".to_string(),
        host: "n.example".to_string(),
        user: user.to_string(),
        tags: vec![],
        keys,
    }
}

#[test]
fn pre_activation_key_goes_with_pre_activation_and_all_pushes() {
    assert!(should_upload(UploadKeyAt::PreActivation, UploadKeyAt::PreActivation));
    assert!(should_upload(UploadKeyAt::PreActivation, UploadKeyAt::All));
    assert!(!should_upload(UploadKeyAt::PreActivation, UploadKeyAt::PostActivation));
    assert!(should_upload(UploadKeyAt::All, UploadKeyAt::PostActivation));
}

#[test]
fn keys_for_upload_keeps_declaration_order() {
    let keys = vec![
        key("a", UploadKeyAt::PreActivation, "0600"),
        key("b", UploadKeyAt::PostActivation, "0600"),
        key("c", UploadKeyAt::All, "0600"),
    ];
    assert_eq!(keys_for_upload(&keys, UploadKeyAt::PreActivation), vec![0, 2]);
    assert_eq!(keys_for_upload(&keys, UploadKeyAt::PostActivation), vec![1, 2]);
    assert_eq!(keys_for_upload(&keys, UploadKeyAt::All), vec![0, 1, 2]);
}

#[test]
fn permissions_decode_as_octal() {
    assert_eq!(parse_permissions("0644"), Some(420));
    assert_eq!(parse_permissions("0755"), Some(493));
    assert_eq!(parse_permissions("0"), Some(0));
    assert_eq!(parse_permissions("37777777777"), Some(u32::MAX));
    assert_eq!(parse_permissions("40000000000"), None);
    assert_eq!(parse_permissions("0648"), None);
    assert_eq!(parse_permissions(""), None);
    assert_eq!(parse_permissions("rw"), None);
}

#[test]
fn destination_joins_directory_and_name() {
    assert_eq!(destination("/etc/keys", "api-token"), "/etc/keys/api-token");
    assert_eq!(destination("/etc/keys/", "api-token"), "/etc/keys/api-token");
    assert_eq!(destination("/etc/keys", "/abs/token"), "/abs/token");
    assert_eq!(destination("", "token"), "token");
}

#[test]
fn literal_source_gives_its_bytes() {
    let content = literal_content("hello");
    assert_eq!(content, b"hello".to_vec());
    let k = key("api-token", UploadKeyAt::PreActivation, "0644");
    let (meta, buf) = process_key("api-token", &k, content).ok().unwrap();
    assert_eq!(meta.length, 5);
    assert_eq!(meta.permissions, 420);
    assert_eq!(meta.destination, "/etc/keys/api-token");
    assert_eq!(meta.user, "root");
    assert_eq!(buf, b"hello".to_vec());
}

#[test]
fn bad_permissions_are_an_error() {
    let k = key("k", UploadKeyAt::All, "rw-r--r--");
    match process_key("k", &k, vec![1]) {
        Err(Error::Permissions(p)) => assert_eq!(p, "rw-r--r--"),
        other => panic!("unexpected {other:?}"),
    }
}

#[test]
fn failing_key_command_fails_the_push() {
    let r = command_content(false, Some(1), vec![], "boom".to_string());
    match &r {
        Err(Error::CommandError(code, text)) => {
            assert_eq!(*code, Some(1));
            assert_eq!(text, "boom");
        }
        other => panic!("unexpected {other:?}"),
    }
    let n = node("root", vec![key("k", UploadKeyAt::All, "0600")]);
    match prepare_push(&n, UploadKeyAt::All, "/agent", vec![r]) {
        Err(HiveLibError::KeyError(Error::CommandError(Some(1), text))) => assert_eq!(text, "boom"),
        other => panic!("unexpected {other:?}"),
    }
}

#[test]
fn successful_key_command_gives_its_output() {
    let r = command_content(true, Some(0), b"out".to_vec(), String::new());
    assert_eq!(r.ok().unwrap(), b"out".to_vec());
}

#[test]
fn empty_command_is_rejected() {
    assert!(matches!(command_parts(&vec![]), Err(Error::Empty)));
    let (p, rest) = command_parts(&vec!["cat".to_string(), "-n".to_string(), "f".to_string()])
        .ok()
        .unwrap();
    assert_eq!(p, "cat");
    assert_eq!(rest, vec!["-n".to_string(), "f".to_string()]);
}

#[test]
fn metadata_message_bytes() {
    let k = AgentKey {
        length: 5,
        user: "root".to_string(),
        group: "root".to_string(),
        permissions: 384,
        destination: "/etc/keys/a".to_string(),
    };
    let mut inner = vec![0x08, 0x05, 0x12, 4];
    inner.extend_from_slice(b"root");
    inner.extend_from_slice(&[0x1a, 4]);
    inner.extend_from_slice(b"root");
    inner.extend_from_slice(&[0x20, 0x80, 0x03, 0x2a, 11]);
    inner.extend_from_slice(b"/etc/keys/a");
    let mut expected = vec![0x0a, inner.len() as u8];
    expected.extend_from_slice(&inner);
    assert_eq!(encode_keys(&vec![k]), expected);
    assert_eq!(encode_keys(&vec![]), Vec::<u8>::new());
}

#[test]
fn empty_fields_are_left_out() {
    let k = AgentKey {
        length: 0,
        user: String::new(),
        group: String::new(),
        permissions: 0,
        destination: String::new(),
    };
    assert_eq!(encode_keys(&vec![k]), vec![0x0a, 0x00]);
}

#[test]
fn payload_is_message_then_contents() {
    let p = frame_payload(vec![9, 9], vec![b"ab".to_vec(), vec![], b"c".to_vec()]);
    assert_eq!(p, vec![9, 9, b'a', b'b', b'c']);
}

#[test]
fn agent_command_escalates_for_other_users() {
    assert_eq!(
        agent_command("deploy", "web1", "/agent", 42),
        vec!["-l", "deploy", "web1", "sudo", "-H", "--", "/agent/bin/key_agent", "42"]
    );
    assert_eq!(
        agent_command("root", "web1", "/agent", 7),
        vec!["-l", "root", "web1", "/agent/bin/key_agent", "7"]
    );
}

#[test]
fn push_frames_selected_keys_in_order() {
    let n = node(
        "deploy",
        vec![
            key("a", UploadKeyAt::PreActivation, "0600"),
            key("b", UploadKeyAt::PostActivation, "0644"),
            key("c", UploadKeyAt::All, "0400"),
        ],
    );
    let p = n
        .push_keys(UploadKeyAt::PreActivation, "/agent", vec![Ok(b"AA".to_vec()), Ok(b"C".to_vec())])
        .ok()
        .unwrap();
    assert_eq!(p.keys.len(), 2);
    assert_eq!(p.keys[0].destination, "/etc/keys/a");
    assert_eq!(p.keys[1].destination, "/etc/keys/c");
    assert_eq!(p.keys[1].permissions, 0o400);
    let message = encode_keys(&p.keys);
    let mut expected = message.clone();
    expected.extend_from_slice(b"AAC");
    assert_eq!(p.payload, expected);
    assert_eq!(p.args.last().unwrap(), &message.len().to_string());
    assert_eq!(p.args[3], "sudo");
}

#[test]
fn agent_failure_carries_error_lines() {
    assert!(agent_outcome("web1", true, "").is_ok());
    match agent_outcome("web1", false, "a\nb\n") {
        Err(HiveLibError::KeyCommandError(n, lines)) => {
            assert_eq!(n, "web1");
            assert_eq!(lines, vec!["a", "b", ""]);
        }
        other => panic!("unexpected {other:?}"),
    }
}

#[test]
fn split_lines_edges() {
    assert_eq!(split_lines(""), vec![""]);
    assert_eq!(split_lines("one"), vec!["one"]);
    assert_eq!(split_lines("\n\n"), vec!["", "", ""]);
}

#[test]
fn decimal_text() {
    assert_eq!(decimal_string(0), "0");
    assert_eq!(decimal_string(1234), "1234");
    assert_eq!(decimal_string(u64::MAX), u64::MAX.to_string());
}

#[test]
fn remote_command_wraps_any_program() {
    assert_eq!(
        remote_command("ops", "db1", vec!["/sys/bin/switch-to-configuration".to_string(), "boot".to_string()]),
        vec!["-l", "ops", "db1", "sudo", "-H", "--", "/sys/bin/switch-to-configuration", "boot"]
    );
    assert_eq!(remote_command("root", "db1", vec![]), vec!["-l", "root", "db1"]);
}

#[test]
fn first_failing_key_decides_the_error() {
    let n = node(
        "root",
        vec![
            key("a", UploadKeyAt::All, "0600"),
            key("b", UploadKeyAt::All, "07x0"),
            key("c", UploadKeyAt::All, "0600"),
        ],
    );
    let contents = vec![Ok(b"a".to_vec()), Ok(b"b".to_vec()), Err(Error::Empty)];
    match prepare_push(&n, UploadKeyAt::All, "/agent", contents) {
        Err(HiveLibError::KeyError(Error::Permissions(p))) => assert_eq!(p, "07x0"),
        other => panic!("unexpected {other:?}"),
    }
    let contents = vec![Ok(b"a".to_vec()), Err(Error::File("gone".to_string())), Err(Error::Empty)];
    match prepare_push(&n, UploadKeyAt::All, "/agent", contents) {
        Err(HiveLibError::KeyError(Error::File(f))) => assert_eq!(f, "gone"),
        other => panic!("unexpected {other:?}"),
    }
}
