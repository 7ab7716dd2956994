use da_spammer::account::{
    account_id, derive_accounts, derive_sybil_keypair, keypair_error, keypair_for,
    names_dev_account, secret_uri_error, sybil_secret_uri, validate_account,
};
use da_spammer::text::{append_decimal, text_eq};

fn hex(bytes: &[u8; 32]) -> String {
    bytes.iter().map(|b| format!("{b:02x}")).collect()
}

#[test]
fn development_accounts_are_accepted() {
    for name in ["alice", "bob", "charlie", "dave", "eve", "ferdie", "one", "two"] {
        assert_eq!(validate_account(name), Ok(name.to_string()));
    }
}

#[test]
fn account_names_ignore_letter_case() {
    assert_eq!(validate_account("ALICE"), Ok("alice".to_string()));
    assert_eq!(validate_account("Ferdie"), Ok("ferdie".to_string()));
}

#[test]
fn a_validated_name_is_accepted_again() {
    let name = validate_account("TWO").unwrap();
    assert_eq!(validate_account(&name), Ok(name));
}

#[test]
fn unicode_capitals_are_lowered() {
    // The Kelvin sign lowers to an ASCII `k`, which is in none of the names.
    assert!(validate_account("\u{212a}").is_err());
    // A dotted capital I lowers to two characters.
    assert!(validate_account("al\u{130}ce").is_err());
}

#[test]
fn other_accounts_are_refused() {
    let message = "must be one of: alice,bob,charlie,dave,eve,ferdie,one,two".to_string();
    assert_eq!(validate_account("mallory"), Err(message.clone()));
    assert_eq!(validate_account(""), Err(message.clone()));
    assert_eq!(validate_account("alice "), Err(message));
}

#[test]
fn development_keys_are_the_well_known_ones() {
    assert_eq!(
        hex(&account_id(&keypair_for("alice"))),
        "d43593c715fdd31c61141abd04a99fd6822c8558854ccde39a5684e7a56da27d"
    );
    assert_eq!(
        hex(&account_id(&keypair_for("bob"))),
        "8eaf04151687736326c9fea17e25fc5287613693c912909cb226aa4794f26a48"
    );
}

#[test]
fn development_keys_come_from_their_uris() {
    let cases = [
        ("alice", "//Alice"),
        ("bob", "//Bob"),
        ("charlie", "//Charlie"),
        ("dave", "//Dave"),
        ("eve", "//Eve"),
        ("ferdie", "//Ferdie"),
        ("one", "//One"),
        ("two", "//Two"),
    ];
    for (name, suri) in cases {
        let uri: avail_rust_client::SecretUri = suri.parse().unwrap();
        let pair = avail_rust_client::Keypair::from_uri(&uri).unwrap();
        assert_eq!(account_id(&keypair_for(name)), pair.public_key().0, "{name}");
    }
}

#[test]
fn sybil_uris_carry_the_index() {
    assert_eq!(sybil_secret_uri(0), "//da-spammer/0");
    assert_eq!(sybil_secret_uri(10), "//da-spammer/10");
    assert_eq!(sybil_secret_uri(usize::MAX), format!("//da-spammer/{}", usize::MAX));
}

#[test]
fn decimals_are_rendered_without_leading_zeros() {
    for n in [0u64, 7, 9, 10, 99, 100, 1234567890, u64::MAX] {
        let mut out = "n=".to_string();
        append_decimal(&mut out, n);
        assert_eq!(out, format!("n={n}"));
    }
}

#[test]
fn texts_compare_by_contents() {
    assert!(text_eq("one", "one"));
    assert!(!text_eq("one", "One"));
    assert!(!text_eq("one", "ones"));
}

#[test]
fn sybil_accounts_are_reproducible() {
    let first = derive_sybil_keypair(7).unwrap();
    let second = derive_sybil_keypair(7).unwrap();
    assert_eq!(account_id(&first), account_id(&second));

    let uri: avail_rust_client::SecretUri = "//da-spammer/7".parse().unwrap();
    let pair = avail_rust_client::Keypair::from_uri(&uri).unwrap();
    assert_eq!(account_id(&first), pair.public_key().0);
}

#[test]
fn derived_accounts_come_in_order() {
    let pairs = derive_accounts(4).unwrap();
    assert_eq!(pairs.len(), 4);
    for (i, pair) in pairs.iter().enumerate() {
        assert_eq!(account_id(pair), account_id(&derive_sybil_keypair(i).unwrap()));
    }
    assert_ne!(account_id(&pairs[0]), account_id(&pairs[1]));
    assert!(derive_accounts(0).unwrap().is_empty());
}

#[test]
fn derivation_messages_name_the_uri() {
    assert_eq!(
        secret_uri_error("//da-spammer/3", "InvalidFormat"),
        "failed to parse secret URI //da-spammer/3: InvalidFormat"
    );
    assert_eq!(
        keypair_error("//da-spammer/3", "Invalid seed"),
        "failed to derive keypair for //da-spammer/3: Invalid seed"
    );
}

#[test]
fn lower_case_names_are_looked_up() {
    assert!(names_dev_account("charlie"));
    assert!(!names_dev_account("Charlie"));
    assert!(!names_dev_account("charl\u{131}e"));
    assert!(!names_dev_account(""));
}

#[test]
fn names_equal_up_to_letter_case_are_validated_alike() {
    for (a, b) in [("alice", "aLiCe"), ("\u{c9}ve", "\u{c9}VE"), ("\u{3a3}One", "\u{3a3}oNE")] {
        assert!(a.eq_ignore_ascii_case(b));
        assert_eq!(validate_account(a), validate_account(b));
    }
}
