use starfish::failure::{Failure, FailureReason};
use starfish::utils::{create_avatar_url, create_client_secret, create_hash, create_random_code};

#[test]
fn uuid_text_is_hyphenated_lower_case() {
    let text = |id: u128| Failure::about_id(FailureReason::NOT_FOUND, "", id, "").message;
    assert_eq!(text(0xa1a2a3a4b1b2c1c2d1d2d3d4d5d6d7d8), "a1a2a3a4-b1b2-c1c2-d1d2-d3d4d5d6d7d8");
    assert_eq!(text(0), "00000000-0000-0000-0000-000000000000");
    assert_eq!(text(u128::MAX), "ffffffff-ffff-ffff-ffff-ffffffffffff");
}

#[test]
fn hash_of_empty_text_is_sha224_in_hex() {
    assert_eq!(create_hash::execute(""), "d14a028c2a3a2bc9476102bb288234c415a2b01f828ea62ac5b3e42f");
}

#[test]
fn hash_is_deterministic_and_56_digits() {
    let a = create_hash::execute("ABCDE12345");
    let b = create_hash::execute("ABCDE12345");
    assert_eq!(a, b);
    assert_eq!(a.len(), 56);
    assert_ne!(a, create_hash::execute("ABCDE12346"));
}

#[test]
fn avatar_url_is_gravatar_of_md5() {
    assert_eq!(
        create_avatar_url::execute("test@example.com"),
        "https://www.gravatar.com/avatar/55502f40dc8b7c769880b10874abc9d0?d=404"
    );
}

#[test]
fn random_code_is_ten_letters_or_digits() {
    for _ in 0..50 {
        let code = create_random_code::execute().expect("the system seeds the generator");
        assert_eq!(code.chars().count(), 10);
        assert!(code.chars().all(|c| c.is_ascii_uppercase() || c.is_ascii_digit()));
    }
}

#[test]
fn client_secret_from_known_bytes() {
    assert_eq!(create_client_secret::from_random_bytes("p_", &[0xfb, 0xff]), "p_-_8");
    assert_eq!(create_client_secret::from_random_bytes("", &[0, 0, 0]), "AAAA");
    assert_eq!(create_client_secret::from_random_bytes("x", b"Man"), "xTWFu");
    let zeros = [0u8; 32];
    assert_eq!(
        create_client_secret::from_random_bytes("starfish_cs_", &zeros),
        format!("starfish_cs_{}", "A".repeat(43))
    );
}

#[test]
fn client_secret_has_prefix_and_43_characters() {
    let secret = create_client_secret::execute("starfish_cs_").expect("the system gives random bytes");
    assert!(secret.starts_with("starfish_cs_"));
    assert_eq!(secret.len(), "starfish_cs_".len() + 43);
    let other = create_client_secret::execute("starfish_cs_").unwrap();
    assert_ne!(secret, other);
}

#[test]
fn code_from_draws_picks_alphabet_positions() {
    let draws: Vec<usize> = vec![0, 1, 25, 26, 35, 9, 10, 0, 34, 2];
    assert_eq!(create_random_code::code_from_draws(&draws), "ABZ09JKA8C");
    assert_eq!(create_random_code::code_from_draws(&vec![0; 10]), "AAAAAAAAAA");
}
