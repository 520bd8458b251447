use pinentry_wukong::keychain::{extract_keygrip, KeyringKeychain, NoopKeychain, SERVICE_NAME};
use pinentry_wukong::state::{PinentryState, SecretBytes};
use pinentry_wukong::text::{contains_str, format_u32, parse_u32};

#[test]
fn keygrip_drops_the_prefix() {
    assert_eq!(extract_keygrip("n/0123ABCD"), "0123ABCD");
    assert_eq!(extract_keygrip("0123ABCD"), "0123ABCD");
    assert_eq!(extract_keygrip("n/"), "");
    assert_eq!(extract_keygrip("n"), "n");
    assert_eq!(extract_keygrip("m/AB"), "m/AB");
    assert_eq!(SERVICE_NAME, "GnuPG");
}

#[test]
fn noop_keychain_keeps_nothing() {
    let k = NoopKeychain::new();
    assert!(k.lookup("AB").is_none());
    assert_eq!(k.save("AB", b"pw"), Ok(()));
    assert_eq!(k.clear("AB"), Ok(false));
    assert_eq!(KeyringKeychain::new(), KeyringKeychain);
}

#[test]
fn decimal_numbers() {
    assert_eq!(parse_u32("0"), Some(0));
    assert_eq!(parse_u32("007"), Some(7));
    assert_eq!(parse_u32("+12"), Some(12));
    assert_eq!(parse_u32("4294967295"), Some(u32::MAX));
    assert_eq!(parse_u32("4294967296"), None);
    assert_eq!(parse_u32(""), None);
    assert_eq!(parse_u32("+"), None);
    assert_eq!(parse_u32("-1"), None);
    assert_eq!(parse_u32("1 "), None);
    assert_eq!(format_u32(0), "0");
    assert_eq!(format_u32(4242), "4242");
    assert_eq!(format_u32(u32::MAX), "4294967295");
    for n in [0u32, 9, 10, 99, 100, 65535, 1_000_000, u32::MAX] {
        assert_eq!(parse_u32(&format_u32(n)), Some(n));
    }
}

#[test]
fn substring_search() {
    assert!(contains_str("x --one-button", "--one-button"));
    assert!(contains_str("abc", ""));
    assert!(!contains_str("--one", "--one-button"));
}

#[test]
fn secret_bytes_wipe() {
    let mut s = SecretBytes::from_vec(b"secret".to_vec());
    assert_eq!(s.len(), 6);
    assert!(!s.is_empty());
    assert_eq!(s.as_bytes(), b"secret");
    s.wipe();
    assert!(s.is_empty());
    assert_eq!(s.len(), 0);
    assert!(SecretBytes::new().is_empty());
    assert_eq!(SecretBytes::from(vec![1u8, 2, 3]).as_bytes(), &[1u8, 2, 3]);
    assert!(SecretBytes::default().is_empty());
}

#[test]
fn state_reset_keeps_the_session() {
    let mut s = PinentryState::new();
    s.description = Some("d".into());
    s.error = Some("e".into());
    s.prompt = "PIN:".into();
    s.ttyname = Some("/dev/pts/1".into());
    s.timeout = 10;
    s.grab = false;
    s.allow_external_password_cache = true;
    s.may_cache_password = true;
    s.reset();
    assert_eq!(s.description, None);
    assert_eq!(s.error, None);
    assert_eq!(s.prompt, "Passphrase:");
    assert!(!s.may_cache_password);
    // Session-level options survive a reset.
    assert!(s.allow_external_password_cache);
    assert_eq!(s.ttyname.as_deref(), Some("/dev/pts/1"));
    assert_eq!(s.timeout, 10);
    assert!(!s.grab);
}

#[test]
fn state_reset_twice_is_reset_once() {
    let mut s = PinentryState::new();
    s.title = Some("t".into());
    s.keyinfo = Some("n/AB".into());
    s.reset();
    let once = format!("{s:?}");
    s.reset();
    assert_eq!(format!("{s:?}"), once);
    assert_eq!(format!("{:?}", PinentryState::new()), {
        let mut fresh = PinentryState::new();
        fresh.reset();
        format!("{fresh:?}")
    });
}
