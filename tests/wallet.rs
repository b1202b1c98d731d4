use sol_wallet::instruction::{build_initialize_mint, initialize_mint_from_text, INITIALIZE_MINT2_TAG};
use sol_wallet::keys::{parse_public, parse_secret, parse_signature, verify, Keypair, PublicKey, Signature, WalletError};
use sol_wallet::service::{
    create_token, generate_keypair, sign_message, verify_message, CreateTokenRequest, SignMessageRequest,
    VerifyMessageRequest,
};

const RFC_SECRET_TEXT: &str =
    "49W385L4rePHy6PAaQUovbD2aacgN4HsKXSMeUzRg4fmwXszN91JuMFrQRj3vMDpZuRF3ZknQBuRBoWQJEfXstMw";
const RFC_PUBLIC_TEXT: &str = "FVen3X669xLzsi6N2V91DoiyzHzg1uAgqiT8jZ9nS96Z";
const RFC_EMPTY_SIGNATURE: &str =
    "5VZDAMNgrHKQhuLMgG6CioSHfx645dl02HPgZSJJAVVfuIIVkKM7rMYeOXAc+bRr0lv18FlbviRlUUFDjnoQCw==";
const TOKEN_PROGRAM: &str = "TokenkegQfeZyiNwAJbNbGKPFXCWuBvf9Ss623VQ5DA";

fn hex(s: &str) -> Vec<u8> {
    (0..s.len()).step_by(2).map(|i| u8::from_str_radix(&s[i..i + 2], 16).unwrap()).collect()
}

#[test]
fn generated_keypair_round_trips_through_text() {
    let resp = generate_keypair();
    assert!(resp.success);
    let kp = parse_secret(&resp.data.secret).unwrap();
    let pk = parse_public(&resp.data.pubkey).unwrap();
    assert_eq!(kp.as_bytes().len(), 64);
    assert_eq!(pk.as_bytes(), &kp.as_bytes()[32..]);
    assert_eq!(kp.to_text(), resp.data.secret);
    assert_eq!(pk.to_text(), resp.data.pubkey);
}

#[test]
fn generated_keypairs_differ() {
    let a = Keypair::generate();
    let b = Keypair::generate();
    assert_ne!(a.as_bytes(), b.as_bytes());
}

#[test]
fn rfc8032_key_and_signature() {
    let kp = parse_secret(RFC_SECRET_TEXT).unwrap();
    assert_eq!(kp.as_bytes()[..32].to_vec(), hex("9d61b19deffd5a60ba844af492ec2cc44449c5697b326919703bac031cae7f60"));
    assert_eq!(kp.public_key().as_bytes().to_vec(), hex("d75a980182b10ab7d54bfed3c964073a0ee172f3daa62325af021a68f707511a"));
    assert_eq!(kp.public_key().to_text(), RFC_PUBLIC_TEXT);
    let sig = kp.sign(b"");
    assert_eq!(sig.as_bytes().to_vec(), hex("e5564300c360ac729086e2cc806e828a84877f1eb8e5d974d873e065224901555fb8821590a33bacc61e39701cf9b46bd25bf5f0595bbe24655141438e7a100b"));
    assert_eq!(sig.to_text(), RFC_EMPTY_SIGNATURE);
    assert!(verify(b"", &sig, &kp.public_key()));
}

#[test]
fn sign_then_verify_holds() {
    let kp = Keypair::generate();
    for m in [&b""[..], b"hello", b"a longer message with \x00 bytes \xff"] {
        let sig = kp.sign(m);
        assert!(verify(m, &sig, &kp.public_key()));
        assert_eq!(sig.as_bytes(), kp.sign(m).as_bytes());
    }
}

#[test]
fn flipped_signature_bits_are_rejected() {
    let kp = Keypair::generate();
    let sig = kp.sign(b"hello");
    for byte in 0..64 {
        for bit in 0..8 {
            let mut bytes = sig.as_bytes().to_vec();
            bytes[byte] ^= 1 << bit;
            let tampered = Signature::from_bytes(&bytes).unwrap();
            assert!(!verify(b"hello", &tampered, &kp.public_key()));
        }
    }
}

#[test]
fn signature_under_other_key_is_rejected() {
    let k1 = Keypair::generate();
    let k2 = Keypair::generate();
    let sig = k1.sign(b"transfer");
    assert!(!verify(b"transfer", &sig, &k2.public_key()));
    assert!(!verify(b"transfeR", &sig, &k1.public_key()));
}

#[test]
fn hello_end_to_end() {
    let gen = generate_keypair();
    let signed = sign_message(&SignMessageRequest { message: "hello".to_string(), secret: gen.data.secret.clone() })
        .ok()
        .unwrap();
    assert!(signed.success);
    assert_eq!(signed.data.public_key, gen.data.pubkey);
    assert_eq!(signed.data.message, "hello");
    let ok = verify_message(&VerifyMessageRequest {
        message: "hello".to_string(),
        signature: signed.data.signature.clone(),
        pubkey: signed.data.public_key.clone(),
    })
    .ok()
    .unwrap();
    assert!(ok.success);
    assert!(ok.data.valid);
    assert_eq!(ok.data.pubkey, gen.data.pubkey);
    let other = generate_keypair();
    let bad = verify_message(&VerifyMessageRequest {
        message: "hello".to_string(),
        signature: signed.data.signature.clone(),
        pubkey: other.data.pubkey.clone(),
    })
    .ok()
    .unwrap();
    assert!(!bad.data.valid);
}

#[test]
fn sign_message_rfc_vector() {
    let signed = sign_message(&SignMessageRequest { message: "hello".to_string(), secret: RFC_SECRET_TEXT.to_string() })
        .ok()
        .unwrap();
    assert_eq!(
        signed.data.signature,
        "URykl8TUJwsJixr9WuTjuVGl2iydpunAUo9XYYg2duffbkwPDhtaCkRE9CmLGILdgi+xEzy9Sav7mWyHzVuFBg=="
    );
    assert_eq!(signed.data.public_key, RFC_PUBLIC_TEXT);
}

#[test]
fn base58_zero_is_rejected() {
    let text = "0VJ9JU1bJJE96FWSJKvHsmmFADCg4gpZQff4P3bkLKi";
    assert!(matches!(parse_public(text), Err(WalletError::InvalidEncoding)));
    assert!(matches!(parse_secret("0"), Err(WalletError::InvalidEncoding)));
    assert!(matches!(parse_public("l1"), Err(WalletError::InvalidEncoding)));
}

#[test]
fn public_key_lengths_are_checked() {
    assert!(matches!(parse_public("tVojvhToWjQ8Xvo4UPx2Xz9eRy7auyYMmZBjc2XfN"), Err(WalletError::InvalidKeyLength)));
    assert!(matches!(parse_public("JJEfe6DcPM2ziB2vfUWDV6aHVerXRGkv3TcyvJUNGHZz"), Err(WalletError::InvalidKeyLength)));
    assert!(matches!(parse_public(""), Err(WalletError::InvalidKeyLength)));
    let pk = parse_public("4vJ9JU1bJJE96FWSJKvHsmmFADCg4gpZQff4P3bkLKi").unwrap();
    assert_eq!(pk.as_bytes(), &[1u8; 32][..]);
    assert!(matches!(PublicKey::from_bytes(&[1u8; 31]), Err(WalletError::InvalidKeyLength)));
}

#[test]
fn secret_key_errors() {
    assert!(matches!(parse_secret(RFC_PUBLIC_TEXT), Err(WalletError::InvalidKeyLength)));
    let mismatched = "49W385L4rePHy6PAaQUovbD2aacgN4HsKXSMeUzRg4fmh79WTvPELhD5fotCLAQjdyU2JRyK4MRYuVivd4ZMC5b6";
    assert!(matches!(parse_secret(mismatched), Err(WalletError::InvalidKeyMaterial)));
    let mut long = parse_secret(RFC_SECRET_TEXT).unwrap().as_bytes().to_vec();
    long.push(0);
    assert!(matches!(Keypair::from_bytes(&long), Err(WalletError::InvalidKeyLength)));
}

#[test]
fn signature_parsing_errors() {
    assert!(matches!(parse_signature("not base64!"), Err(WalletError::InvalidEncoding)));
    let short = "AAAAAAAAAAAAAAAAAAAAAAAAAAAAAAAAAAAAAAAAAAAAAAAAAAAAAAAAAAAAAAAAAAAAAAAAAAAAAAAAAAAA";
    assert!(matches!(parse_signature(short), Err(WalletError::InvalidKeyLength)));
    let sig = parse_signature(RFC_EMPTY_SIGNATURE).unwrap();
    assert_eq!(sig.to_text(), RFC_EMPTY_SIGNATURE);
}

#[test]
fn verify_message_reports_decode_errors() {
    let bad_key = verify_message(&VerifyMessageRequest {
        message: "hello".to_string(),
        signature: RFC_EMPTY_SIGNATURE.to_string(),
        pubkey: "0OIl".to_string(),
    });
    let e = bad_key.err().unwrap();
    assert!(!e.success);
    assert_eq!(e.error, WalletError::InvalidEncoding);
    let bad_sig = verify_message(&VerifyMessageRequest {
        message: "hello".to_string(),
        signature: "@@@@".to_string(),
        pubkey: RFC_PUBLIC_TEXT.to_string(),
    });
    assert_eq!(bad_sig.err().unwrap().error, WalletError::InvalidEncoding);
    let rfc = verify_message(&VerifyMessageRequest {
        message: String::new(),
        signature: RFC_EMPTY_SIGNATURE.to_string(),
        pubkey: RFC_PUBLIC_TEXT.to_string(),
    });
    assert!(rfc.ok().unwrap().data.valid);
}

#[test]
fn sign_message_reports_key_errors() {
    let e = sign_message(&SignMessageRequest { message: "hi".to_string(), secret: "0".to_string() }).err().unwrap();
    assert!(!e.success);
    assert_eq!(e.error, WalletError::InvalidEncoding);
    let e = sign_message(&SignMessageRequest { message: "hi".to_string(), secret: RFC_PUBLIC_TEXT.to_string() })
        .err()
        .unwrap();
    assert_eq!(e.error, WalletError::InvalidKeyLength);
}

#[test]
fn initialize_mint_fixed_vector() {
    let mint = PublicKey::from_bytes(&[1u8; 32]).ok().unwrap();
    let authority = PublicKey::from_bytes(&[2u8; 32]).ok().unwrap();
    let ix = build_initialize_mint(&mint, &authority, 6);
    let mut expected = vec![INITIALIZE_MINT2_TAG, 6];
    expected.extend_from_slice(&[2u8; 32]);
    expected.push(1);
    expected.extend_from_slice(&[2u8; 32]);
    assert_eq!(ix.data, expected);
    assert_eq!(ix.data.len(), 67);
    assert_eq!(ix.program_id.to_text(), TOKEN_PROGRAM);
    assert_eq!(ix.accounts.len(), 1);
    assert_eq!(ix.accounts[0].pubkey.as_bytes(), &[1u8; 32][..]);
    assert!(!ix.accounts[0].is_signer);
    assert!(ix.accounts[0].is_writable);
}

#[test]
fn initialize_mint_is_deterministic() {
    let mint = Keypair::generate().public_key();
    let authority = Keypair::generate().public_key();
    let a = build_initialize_mint(&mint, &authority, 6);
    let b = build_initialize_mint(&mint, &authority, 6);
    assert_eq!(a.data, b.data);
    assert_eq!(a.accounts.len(), b.accounts.len());
    for (x, y) in a.accounts.iter().zip(b.accounts.iter()) {
        assert_eq!(x.pubkey.as_bytes(), y.pubkey.as_bytes());
        assert_eq!(x.is_signer, y.is_signer);
        assert_eq!(x.is_writable, y.is_writable);
    }
}

#[test]
fn create_token_response_text() {
    let resp = create_token(&CreateTokenRequest {
        mint_authority: "8qbHbw2BbbTHBW1sbeqakYXVKRQM8Ne7pLK7m6CVfeR".to_string(),
        mint: "4vJ9JU1bJJE96FWSJKvHsmmFADCg4gpZQff4P3bkLKi".to_string(),
        decimals: 6,
    })
    .ok()
    .unwrap();
    assert!(resp.success);
    assert_eq!(resp.data.program_id, TOKEN_PROGRAM);
    assert_eq!(
        resp.data.instruction_data,
        "FAYCAgICAgICAgICAgICAgICAgICAgICAgICAgICAgICAgECAgICAgICAgICAgICAgICAgICAgICAgICAgICAgICAg=="
    );
    assert_eq!(resp.data.accounts.len(), 1);
    assert_eq!(resp.data.accounts[0].pubkey, "4vJ9JU1bJJE96FWSJKvHsmmFADCg4gpZQff4P3bkLKi");
    assert!(!resp.data.accounts[0].is_signer);
    assert!(resp.data.accounts[0].is_writable);
}

#[test]
fn create_token_rejects_bad_addresses() {
    let e = create_token(&CreateTokenRequest {
        mint_authority: "8qbHbw2BbbTHBW1sbeqakYXVKRQM8Ne7pLK7m6CVfeR".to_string(),
        mint: "tVojvhToWjQ8Xvo4UPx2Xz9eRy7auyYMmZBjc2XfN".to_string(),
        decimals: 0,
    })
    .err()
    .unwrap();
    assert!(!e.success);
    assert_eq!(e.error, WalletError::InvalidAddress);
    assert!(matches!(initialize_mint_from_text("4vJ9JU1bJJE96FWSJKvHsmmFADCg4gpZQff4P3bkLKi", "0", 255), Err(WalletError::InvalidAddress)));
}

#[test]
fn error_messages_are_distinct() {
    let all = [
        WalletError::InvalidEncoding,
        WalletError::InvalidKeyLength,
        WalletError::InvalidKeyMaterial,
        WalletError::InvalidAddress,
    ];
    for (i, a) in all.iter().enumerate() {
        assert!(!a.message().is_empty());
        for b in &all[i + 1..] {
            assert_ne!(a.message(), b.message());
        }
    }
}

#[test]
fn keypair_from_rfc8032_seed() {
    let seed: [u8; 32] = hex("9d61b19deffd5a60ba844af492ec2cc44449c5697b326919703bac031cae7f60").try_into().unwrap();
    let kp = Keypair::from_seed(&seed);
    assert_eq!(kp.public_key().to_text(), RFC_PUBLIC_TEXT);
    assert_eq!(kp.to_text(), RFC_SECRET_TEXT);
}
