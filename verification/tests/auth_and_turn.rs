use visuara::auth::{
    alnum_text, device_id_from, generate_device_id, generate_one_time_password, generate_session_token, hash_password,
    one_time_password_from, random_alnum, verify_password,
};
use visuara::turn::{mint_credentials, mint_credentials_at, mint_credentials_with_clock, parse_turn_urls, TurnConfig};

#[test]
fn session_token_is_32_alphanumerics() {
    let t = generate_session_token();
    assert_eq!(t.len(), 32);
    assert!(t.chars().all(|c| c.is_ascii_alphanumeric()));
    assert_ne!(t, generate_session_token());
}

#[test]
fn one_time_password_and_device_id_shapes() {
    let otp = generate_one_time_password();
    assert_eq!(otp.len(), 9);
    assert_eq!(&otp[4..5], " ");
    assert!(otp[..4].chars().chain(otp[5..].chars()).all(|c| c.is_ascii_digit()));
    let id = generate_device_id();
    assert_eq!(id.len(), 11);
    assert_eq!(&id[3..4], " ");
    assert_eq!(&id[7..8], " ");
    assert!(id.chars().filter(|c| *c != ' ').all(|c| c.is_ascii_digit()));
}

#[test]
fn password_hash_verifies_only_its_password() {
    let h = hash_password("hunter2").expect("hash");
    assert!(h.starts_with("$argon2"));
    assert!(verify_password("hunter2", &h));
    assert!(!verify_password("hunter3", &h));
    assert!(!verify_password("hunter2", "not a hash"));
}

#[test]
fn turn_credentials_follow_the_rest_convention() {
    let cfg = TurnConfig { urls: vec!["turn:localhost:3478".to_string()], shared_secret: "s3cret".to_string() };
    let (user, pass) = mint_credentials_at(&cfg, "alice", 300, 1_700_000_000);
    assert_eq!(user, "1700000300:alice");
    assert_eq!(pass, "dVYbk8cykh3a9bC+gQyQQuc4Lbg=");
    let (user_now, pass_now) = mint_credentials(&cfg, "bob", 300).expect("clock after the epoch");
    let (expiry, label) = user_now.split_once(':').unwrap();
    assert_eq!(label, "bob");
    assert!(expiry.parse::<u64>().unwrap() > 1_700_000_000);
    let (_, recomputed) = mint_credentials_at(&cfg, "bob", 0, expiry.parse().unwrap());
    assert_eq!(pass_now, recomputed);
}

#[test]
fn turn_credentials_need_a_usable_clock() {
    let cfg = TurnConfig { urls: vec![], shared_secret: "s3cret".to_string() };
    assert_eq!(mint_credentials_with_clock(&cfg, "alice", 300, None), None);
    assert_eq!(mint_credentials_with_clock(&cfg, "alice", 300, Some(u64::MAX - 299)), None);
    assert_eq!(
        mint_credentials_with_clock(&cfg, "alice", 300, Some(1_700_000_000)),
        Some(("1700000300:alice".to_string(), "dVYbk8cykh3a9bC+gQyQQuc4Lbg=".to_string()))
    );
}

#[test]
fn drawn_groups_become_one_time_passwords_and_device_ids() {
    assert_eq!(one_time_password_from(42, 9137), "0042 9137");
    assert_eq!(one_time_password_from(0, 0), "0000 0000");
    assert_eq!(one_time_password_from(9999, 10), "9999 0010");
    assert_eq!(device_id_from(12, 345, 678), "012 345 678");
    assert_eq!(device_id_from(0, 7, 999), "000 007 999");
}

#[test]
fn sampled_bytes_become_the_token_text() {
    assert_eq!(alnum_text(&b"aZ09Qx".to_vec()), "aZ09Qx");
    assert_eq!(alnum_text(&Vec::new()), "");
    let t = random_alnum(12);
    assert_eq!(t.len(), 12);
    assert!(t.chars().all(|c| c.is_ascii_alphanumeric()));
}

#[test]
fn hashing_an_ordinary_password_succeeds() {
    for pw in ["", "hunter2", "pässwörd with spaces"] {
        let h = hash_password(pw).expect("hashing succeeds for any password Argon2 accepts");
        assert!(h.starts_with("$argon2id$"));
        assert!(verify_password(pw, &h));
        assert!(!verify_password("something else", &h));
    }
}

#[test]
fn turn_urls_split_on_commas_and_trim() {
    assert_eq!(parse_turn_urls("turn:localhost:3478"), vec!["turn:localhost:3478".to_string()]);
    assert_eq!(
        parse_turn_urls(" turn:a.example:3478 ,turns:b.example:5349 "),
        vec!["turn:a.example:3478".to_string(), "turns:b.example:5349".to_string()]
    );
    assert_eq!(parse_turn_urls("a,,b"), vec!["a".to_string(), String::new(), "b".to_string()]);
    assert_eq!(parse_turn_urls(""), vec![String::new()]);
}
