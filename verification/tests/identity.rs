//! Identity keys, node IDs and where to find them.

use cdk_iroh::discovery::{
    iroh_node_id_from_mint_info, node_id_from_nut18_transport, node_id_from_text, parse_iroh_url,
    MintInfo, Transport, TransportType,
};
use cdk_iroh::identity::{
    key_step, load_or_generate_key, IdentityFile, KeyAction, KeyEvent, KeyState,
};
use cdk_iroh::{Error, IrohMintConfig, IrohMintServer};
use iroh::SecretKey;

fn identity_file(parent: Option<&str>) -> IdentityFile {
    IdentityFile {
        path: "/data/mint/identity.key".to_string(),
        parent: parent.map(|text| text.to_string()),
    }
}

fn identity_error(action: KeyAction) -> String {
    match action {
        KeyAction::Fail(Error::Identity(text)) => text,
        other => panic!("no identity error: {:?}", other),
    }
}

/// z-base-32 of the 32 bytes, five bits at a time.
fn z_base_32(bytes: &[u8; 32]) -> String {
    let alphabet = b"ybndrfg8ejkmcpqxot1uwisza345h769";
    let mut text = String::new();
    for group in 0..52 {
        let mut index: usize = 0;
        for bit in 0..5 {
            let place = group * 5 + bit;
            let value = if place < 256 { (bytes[place / 8] >> (7 - place % 8)) & 1 } else { 0 };
            index = index * 2 + value as usize;
        }
        text.push(alphabet[index] as char);
    }
    text
}

#[test]
fn without_a_file_a_key_is_generated() {
    assert!(IrohMintConfig::default().identity_path.is_none());
    let (state, action) = load_or_generate_key(None);
    assert!(matches!(action, KeyAction::Generate));
    let key = SecretKey::from_bytes(&[7; 32]);
    let (state, action) = key_step(state, KeyEvent::Generated(key.clone()));
    assert!(matches!(state, KeyState::Over));
    assert!(matches!(action, KeyAction::Use(used) if used.to_bytes() == key.to_bytes()));
}

#[test]
fn existing_file_is_read() {
    let (state, action) = load_or_generate_key(Some(identity_file(Some("/data/mint"))));
    assert!(matches!(action, KeyAction::Probe));
    let (state, action) = key_step(state, KeyEvent::Exists(true));
    assert!(matches!(action, KeyAction::Read));
    let bytes: Vec<u8> = (0u8..32).collect();
    let (_, action) = key_step(state, KeyEvent::Contents(bytes.clone()));
    assert!(matches!(action, KeyAction::Use(key) if key.to_bytes().to_vec() == bytes));
}

#[test]
fn file_of_wrong_length_is_refused() {
    for length in [0usize, 31, 33, 100] {
        let (state, _) = load_or_generate_key(Some(identity_file(None)));
        let (state, _) = key_step(state, KeyEvent::Exists(true));
        let (_, action) = key_step(state, KeyEvent::Contents(vec![1; length]));
        assert_eq!(
            identity_error(action),
            format!(
                "identity file /data/mint/identity.key has wrong length (expected 32, got {})",
                length
            )
        );
    }
}

#[test]
fn unreadable_file_is_an_error() {
    let (state, _) = load_or_generate_key(Some(identity_file(None)));
    let (state, _) = key_step(state, KeyEvent::Exists(true));
    let (_, action) = key_step(state, KeyEvent::Failed("permission denied".to_string()));
    assert_eq!(identity_error(action), "read /data/mint/identity.key: permission denied");
}

#[test]
fn generated_key_is_written_and_used_again() {
    let key = SecretKey::from_bytes(&[42; 32]);
    let (state, _) = load_or_generate_key(Some(identity_file(Some("/data/mint"))));
    let (state, action) = key_step(state, KeyEvent::Exists(false));
    assert!(matches!(action, KeyAction::Generate));
    let (state, action) = key_step(state, KeyEvent::Generated(key.clone()));
    assert!(matches!(action, KeyAction::CreateParent));
    let (state, action) = key_step(state, KeyEvent::Done);
    let written = match action {
        KeyAction::Write(bytes) => bytes,
        other => panic!("nothing written: {:?}", other),
    };
    assert_eq!(written, [42; 32]);
    let (_, action) = key_step(state, KeyEvent::Done);
    let first = match action {
        KeyAction::Use(key) => key.public(),
        other => panic!("no key: {:?}", other),
    };

    let (state, _) = load_or_generate_key(Some(identity_file(Some("/data/mint"))));
    let (state, _) = key_step(state, KeyEvent::Exists(true));
    let (_, action) = key_step(state, KeyEvent::Contents(written.to_vec()));
    assert!(matches!(action, KeyAction::Use(key) if key.public() == first));
}

#[test]
fn key_that_cannot_be_kept_is_not_used() {
    let key = SecretKey::from_bytes(&[42; 32]);
    let (state, _) = load_or_generate_key(Some(identity_file(Some("/data/mint"))));
    let (state, _) = key_step(state, KeyEvent::Exists(false));
    let (state, _) = key_step(state, KeyEvent::Generated(key.clone()));
    let (_, action) = key_step(state, KeyEvent::Failed("read-only".to_string()));
    assert_eq!(identity_error(action), "create dir /data/mint: read-only");

    let (state, _) = load_or_generate_key(Some(identity_file(None)));
    let (state, _) = key_step(state, KeyEvent::Exists(false));
    let (state, action) = key_step(state, KeyEvent::Generated(key));
    assert!(matches!(action, KeyAction::Write(bytes) if bytes == [42; 32]));
    let (_, action) = key_step(state, KeyEvent::Failed("disk full".to_string()));
    assert_eq!(identity_error(action), "write /data/mint/identity.key: disk full");
}

#[test]
fn server_is_known_by_its_key() {
    let key = SecretKey::from_bytes(&[3; 32]);
    let server = IrohMintServer::new("router", &key);
    assert_eq!(server.node_id(), key.public());
    assert_ne!(server.node_id().as_bytes(), &[3; 32]);
    assert_eq!(*server.router(), "router");
}

#[test]
fn iroh_url_holds_the_z32_node_id() {
    let key = SecretKey::from_bytes(&[3; 32]);
    let server = IrohMintServer::new((), &key);
    let url = server.iroh_url();
    assert_eq!(url, format!("iroh://{}", z_base_32(key.public().as_bytes())));
    assert_eq!(url.len(), 59);
    assert_eq!(parse_iroh_url(&url), Some(key.public()));
}

#[test]
fn other_urls_name_no_node() {
    let key = SecretKey::from_bytes(&[3; 32]);
    let text = z_base_32(key.public().as_bytes());
    assert_eq!(parse_iroh_url(""), None);
    assert_eq!(parse_iroh_url("iroh://"), None);
    assert_eq!(parse_iroh_url(&text), None);
    assert_eq!(parse_iroh_url(&format!("https://{}", text)), None);
    assert_eq!(parse_iroh_url(&format!("iroh://{}y", text)), None);
    assert_eq!(parse_iroh_url(&format!("iroh://{}", &text[2..])), None);
    assert_eq!(parse_iroh_url("iroh://not a node id"), None);
    assert_eq!(node_id_from_text(&text), Some(key.public()));
    assert_eq!(node_id_from_text(&text.repeat(2)), None);
}

#[test]
fn changed_urls_of_a_server_are_refused() {
    let server = IrohMintServer::new((), &SecretKey::from_bytes(&[6; 32]));
    let url = server.iroh_url();
    let text = url[7..].to_string();
    assert!(text.chars().all(|c| "ybndrfg8ejkmcpqxot1uwisza345h769".contains(c)));
    assert_eq!(parse_iroh_url(&url), Some(server.node_id()));
    for changed in [
        text.clone(),
        format!("IROH://{}", text),
        format!("iroh:/{}", text),
        format!("iroh://iroh://{}", text),
        format!("https://{}", text),
        format!("{}/", url),
    ] {
        assert_eq!(parse_iroh_url(&changed), None);
    }
}

#[test]
fn first_iroh_url_of_a_mint_is_found() {
    let first = IrohMintServer::new((), &SecretKey::from_bytes(&[1; 32]));
    let second = IrohMintServer::new((), &SecretKey::from_bytes(&[2; 32]));
    let info = MintInfo {
        urls: Some(vec![
            "https://mint.example".to_string(),
            "iroh://broken".to_string(),
            first.iroh_url(),
            second.iroh_url(),
        ]),
    };
    assert_eq!(iroh_node_id_from_mint_info(&info), Some(first.node_id()));
}

#[test]
fn mint_without_iroh_url_has_no_node() {
    assert_eq!(iroh_node_id_from_mint_info(&MintInfo { urls: None }), None);
    assert_eq!(iroh_node_id_from_mint_info(&MintInfo { urls: Some(Vec::new()) }), None);
    let info = MintInfo { urls: Some(vec!["https://mint.example".to_string()]) };
    assert_eq!(iroh_node_id_from_mint_info(&info), None);
}

#[test]
fn payment_request_names_a_node_only_for_iroh() {
    let key = SecretKey::from_bytes(&[9; 32]);
    let target = z_base_32(key.public().as_bytes());
    let iroh = Transport { _type: TransportType::Iroh, target: target.clone() };
    assert_eq!(node_id_from_nut18_transport(&iroh), Some(key.public()));
    let other = Transport { _type: TransportType::Other, target };
    assert_eq!(node_id_from_nut18_transport(&other), None);
    let broken = Transport { _type: TransportType::Iroh, target: "nprofile".to_string() };
    assert_eq!(node_id_from_nut18_transport(&broken), None);
}
