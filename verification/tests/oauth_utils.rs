use chat_app::utils::oauth_utils::{derive_challenge, PkceChallenge};

fn fresh() -> PkceChallenge {
    PkceChallenge::new().expect("the operating system's random source is available")
}

#[test]
fn verifier_length_is_valid() {
    // RFC 7636 §4.1: 43–128 unreserved ASCII chars.
    let pkce = fresh();
    let len = pkce.code_verifier.len();
    assert!(len >= 43 && len <= 128, "verifier length {len} out of range");
}

#[test]
fn verifier_charset_is_unreserved() {
    // Only A-Z a-z 0-9 - _ . ~ are unreserved. We use - and _.
    let pkce = fresh();
    assert!(
        pkce.code_verifier.chars().all(|c| c.is_ascii_alphanumeric() || c == '-' || c == '_'),
        "verifier contains reserved characters"
    );
}

#[test]
fn challenge_is_derived_from_verifier() {
    let pkce = fresh();
    assert!(pkce.verify(&pkce.code_verifier));
}

#[test]
fn wrong_verifier_fails_verification() {
    let pkce = fresh();
    assert!(!pkce.verify("not-the-right-verifier"));
}

#[test]
fn method_is_s256() {
    let pkce = fresh();
    assert_eq!(pkce.code_challenge_method, "S256");
}

/// RFC 7636 Appendix B — known-answer test.
#[test]
fn rfc_known_answer() {
    let verifier = "dBjftJeZ4CVP-mB92K27uhbUJU1p1r_wW1gFWFOEjXk";
    let challenge = derive_challenge(verifier);
    assert_eq!(challenge, "E9Melhoa2OwvFrEMTJguCHaoeK1t8URWbuGJSstw-cM");
}

#[test]
fn rfc_verifier_from_its_octets() {
    // RFC 7636 Appendix B: the 32 octets whose encoding is the verifier above.
    let octets: [u8; 32] = [
        116, 24, 223, 180, 151, 153, 224, 37, 79, 250, 96, 125, 216, 173, 187, 186, 22, 212, 37,
        77, 105, 214, 191, 240, 91, 88, 5, 88, 83, 132, 141, 121,
    ];
    let pkce = PkceChallenge::from_verifier_bytes(&octets);
    assert_eq!(pkce.code_verifier, "dBjftJeZ4CVP-mB92K27uhbUJU1p1r_wW1gFWFOEjXk");
    assert_eq!(pkce.code_challenge, "E9Melhoa2OwvFrEMTJguCHaoeK1t8URWbuGJSstw-cM");
    assert_eq!(pkce.code_challenge_method, "S256");
}

#[test]
fn verifier_is_43_characters() {
    assert_eq!(fresh().code_verifier.len(), 43);
}

#[test]
fn short_inputs_encode_without_padding() {
    assert_eq!(PkceChallenge::from_verifier_bytes(&[]).code_verifier, "");
    assert_eq!(PkceChallenge::from_verifier_bytes(&[0xfb]).code_verifier, "-w");
    assert_eq!(PkceChallenge::from_verifier_bytes(&[0xfb, 0xff]).code_verifier, "-_8");
    assert_eq!(PkceChallenge::from_verifier_bytes(b"Man").code_verifier, "TWFu");
}

#[test]
fn two_fresh_pairs_differ() {
    assert_ne!(fresh().code_verifier, fresh().code_verifier);
}

#[test]
fn challenge_is_43_characters() {
    assert_eq!(derive_challenge("").len(), 43);
    assert_eq!(fresh().code_challenge.len(), 43);
}
