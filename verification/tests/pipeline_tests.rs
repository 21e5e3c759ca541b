use crypt_tool::{
    agree, agree_symmetric, decrypt, decrypt_command, derive_secret, dh_get_key, encrypt,
    encrypt_command, generate_sk, hex_decode, parse_public, public_from_secret, read_pk,
    round_trip, CryptError, PublicPoint, SharedSecret,
};

fn hx(s: &str) -> Vec<u8> {
    s.as_bytes().to_vec()
}

fn test_shared_secret() -> SharedSecret {
    let a = generate_sk(&hx("01")).unwrap();
    let b = generate_sk(&hx("02")).unwrap();
    let pk_b = public_from_secret(&b);
    agree(&a, &pk_b)
}

#[test]
fn hex_decode_lowercase() {
    let r = hex_decode(&hx("00ff10")).unwrap();
    assert_eq!(r, vec![0x00u8, 0xff, 0x10]);
}

#[test]
fn hex_decode_uppercase_and_mixed() {
    let r = hex_decode(&hx("ABcdEf")).unwrap();
    assert_eq!(r, vec![0xabu8, 0xcd, 0xef]);
}

#[test]
fn hex_decode_empty() {
    let r = hex_decode(&hx("")).unwrap();
    assert_eq!(r, Vec::<u8>::new());
}

#[test]
fn hex_decode_odd_length_rejected() {
    assert_eq!(hex_decode(&hx("abc")).unwrap_err(), CryptError::InvalidHex);
}

#[test]
fn hex_decode_bad_digit_rejected() {
    assert_eq!(hex_decode(&hx("zz")).unwrap_err(), CryptError::InvalidHex);
    assert_eq!(hex_decode(&hx("0g")).unwrap_err(), CryptError::InvalidHex);
}

#[test]
fn hex_decode_matches_hex_crate() {
    let text = "6e340b9cffb37a989ca544e6bb780a2c78901d3fb33738768511a30617afa01d";
    assert_eq!(hex_decode(&hx(text)).unwrap(), hex::decode(text).unwrap());
}

#[test]
fn derive_secret_deterministic() {
    let seed = vec![7u8, 8, 9];
    let a = derive_secret(&seed);
    let b = derive_secret(&seed);
    assert_eq!(a.bytes, b.bytes);
}

#[test]
fn derive_secret_zero_byte_vector() {
    // The SHA-256 digest of the single byte 0x00, from the published vector.
    let expected =
        hex::decode("6e340b9cffb37a989ca544e6bb780a2c78901d3fb33738768511a30617afa01d").unwrap();
    let sk = generate_sk(&hx("00")).unwrap();
    assert_eq!(sk.bytes.to_vec(), expected);
    let direct = <sha2::Sha256 as sha2::Digest>::digest([0u8]);
    assert_eq!(sk.bytes.to_vec(), direct.to_vec());
}

#[test]
fn derive_secret_is_not_the_seed() {
    let seed = vec![0u8; 32];
    let sk = derive_secret(&seed);
    assert_ne!(sk.bytes.to_vec(), seed);
}

#[test]
fn generate_sk_rejects_bad_hex() {
    assert_eq!(generate_sk(&hx("0")).err().unwrap(), CryptError::InvalidHex);
    assert_eq!(generate_sk(&hx("0x")).err().unwrap(), CryptError::InvalidHex);
}

#[test]
fn public_key_matches_x25519_crate() {
    let sk = generate_sk(&hx("01")).unwrap();
    let pk = public_from_secret(&sk);
    let direct =
        x25519_dalek::PublicKey::from(&x25519_dalek::StaticSecret::from(sk.bytes)).to_bytes();
    assert_eq!(pk.bytes, direct);
    assert_ne!(pk.bytes, sk.bytes);
}

#[test]
fn ecdh_symmetry_seeds_01_02() {
    let a = generate_sk(&hx("01")).unwrap();
    let b = generate_sk(&hx("02")).unwrap();
    let pk_a = public_from_secret(&a);
    let pk_b = public_from_secret(&b);
    let s_ab = agree(&a, &pk_b);
    let s_ba = agree(&b, &pk_a);
    assert_eq!(s_ab.bytes, s_ba.bytes);
    let (x, y) = agree_symmetric(&a, &b);
    assert_eq!(x.bytes, y.bytes);
    assert_eq!(x.bytes, s_ab.bytes);
}

#[test]
fn agree_matches_x25519_crate() {
    let a = generate_sk(&hx("01")).unwrap();
    let b = generate_sk(&hx("02")).unwrap();
    let pk_b = public_from_secret(&b);
    let s = agree(&a, &pk_b);
    let direct = x25519_dalek::StaticSecret::from(a.bytes)
        .diffie_hellman(&x25519_dalek::PublicKey::from(pk_b.bytes))
        .to_bytes();
    assert_eq!(s.bytes, direct);
    assert_ne!(s.bytes, a.bytes);
}

#[test]
fn parse_public_accepts_exactly_32_bytes() {
    let pk: PublicPoint = parse_public(&vec![5u8; 32]).unwrap();
    assert_eq!(pk.bytes, [5u8; 32]);
    assert_eq!(parse_public(&vec![5u8; 31]).err().unwrap(), CryptError::InvalidLength);
    assert_eq!(parse_public(&vec![5u8; 33]).err().unwrap(), CryptError::InvalidLength);
}

#[test]
fn read_pk_checks_hex_then_length() {
    let b = generate_sk(&hx("02")).unwrap();
    let pk_b = public_from_secret(&b);
    let text = hex::encode(pk_b.bytes);
    let read = read_pk(&hx(&text)).unwrap();
    assert_eq!(read.bytes, pk_b.bytes);
    assert_eq!(read_pk(&hx("xx")).err().unwrap(), CryptError::InvalidHex);
    assert_eq!(read_pk(&hx("0011")).err().unwrap(), CryptError::InvalidLength);
}

#[test]
fn encrypt_length_invariant() {
    let key = test_shared_secret();
    for n in [0usize, 1, 15, 16, 17, 100] {
        let pt = vec![0x5au8; n];
        let ct = encrypt(&key, &pt);
        assert_eq!(ct.len(), n + 16);
    }
}

#[test]
fn encrypt_is_deterministic() {
    let key = test_shared_secret();
    let pt = b"determinism".to_vec();
    assert_eq!(encrypt(&key, &pt), encrypt(&key, &pt));
}

#[test]
fn encrypt_matches_aes_siv_crate() {
    let key = test_shared_secret();
    let pt = b"cross-check".to_vec();
    let ct = encrypt(&key, &pt);
    let mut cipher = <aes_siv::siv::Aes128Siv as aes_siv::KeyInit>::new(&key.bytes.into());
    let header: [&[u8]; 1] = [&[]];
    let direct = cipher.encrypt(&header, pt.as_slice()).unwrap();
    assert_eq!(ct, direct);
}

#[test]
fn round_trip_various_lengths() {
    let key = test_shared_secret();
    for n in [0usize, 1, 15, 16, 17, 100] {
        let pt = vec![0xa7u8; n];
        let ct = encrypt(&key, &pt);
        assert_eq!(decrypt(&key, &ct).unwrap(), pt);
        assert_eq!(round_trip(&key, &pt), pt);
    }
}

#[test]
fn empty_plaintext_gives_iv_only_ciphertext() {
    let key = test_shared_secret();
    let ct = encrypt(&key, &Vec::new());
    assert_eq!(ct.len(), 16);
    assert_eq!(decrypt(&key, &ct).unwrap(), Vec::<u8>::new());
}

#[test]
fn short_ciphertext_is_malformed() {
    let key = test_shared_secret();
    for n in 0usize..16 {
        let ct = vec![0u8; n];
        assert_eq!(decrypt(&key, &ct).unwrap_err(), CryptError::MalformedCiphertext);
    }
}

#[test]
fn tampering_any_bit_fails_authentication() {
    let key = test_shared_secret();
    let pt = b"hello world".to_vec();
    let ct = encrypt(&key, &pt);
    for i in 0..ct.len() {
        for bit in 0..8u8 {
            let mut bad = ct.clone();
            bad[i] ^= 1 << bit;
            assert_eq!(decrypt(&key, &bad).unwrap_err(), CryptError::AuthenticationFailure);
        }
    }
}

#[test]
fn wrong_key_fails_authentication() {
    let key = test_shared_secret();
    let ct = encrypt(&key, &b"secret".to_vec());
    let other = {
        let a = generate_sk(&hx("03")).unwrap();
        let b = generate_sk(&hx("04")).unwrap();
        let pk_b = public_from_secret(&b);
        agree(&a, &pk_b)
    };
    assert_eq!(decrypt(&other, &ct).unwrap_err(), CryptError::AuthenticationFailure);
}

#[test]
fn dh_get_key_both_directions() {
    let a = generate_sk(&hx("01")).unwrap();
    let b = generate_sk(&hx("02")).unwrap();
    let pk_a_hex = hex::encode(public_from_secret(&a).bytes);
    let pk_b_hex = hex::encode(public_from_secret(&b).bytes);
    let k1 = dh_get_key(&hx("01"), &hx(&pk_b_hex)).unwrap();
    let k2 = dh_get_key(&hx("02"), &hx(&pk_a_hex)).unwrap();
    assert_eq!(k1.bytes, k2.bytes);
}

#[test]
fn dh_get_key_error_order() {
    let b = generate_sk(&hx("02")).unwrap();
    let pk_b_hex = hex::encode(public_from_secret(&b).bytes);
    assert_eq!(dh_get_key(&hx("0"), &hx("zz")).err().unwrap(), CryptError::InvalidHex);
    assert_eq!(dh_get_key(&hx("01"), &hx("zz")).err().unwrap(), CryptError::InvalidHex);
    assert_eq!(dh_get_key(&hx("01"), &hx("00ff")).err().unwrap(), CryptError::InvalidLength);
    assert!(dh_get_key(&hx("01"), &hx(&pk_b_hex)).is_ok());
}

#[test]
fn commands_round_trip_through_hex() {
    let a = generate_sk(&hx("01")).unwrap();
    let b = generate_sk(&hx("02")).unwrap();
    let pk_a_hex = hex::encode(public_from_secret(&a).bytes);
    let pk_b_hex = hex::encode(public_from_secret(&b).bytes);
    let ct = encrypt_command(&hx("01"), &hx(&pk_b_hex), &hx("deadbeef")).unwrap();
    let ct_hex = hex::encode(&ct);
    let pt = decrypt_command(&hx("02"), &hx(&pk_a_hex), &hx(&ct_hex)).unwrap();
    assert_eq!(pt, vec![0xdeu8, 0xad, 0xbe, 0xef]);
}

#[test]
fn encrypt_command_rejects_bad_inputs() {
    let b = generate_sk(&hx("02")).unwrap();
    let pk_b_hex = hex::encode(public_from_secret(&b).bytes);
    assert_eq!(
        encrypt_command(&hx("0"), &hx(&pk_b_hex), &hx("00")).unwrap_err(),
        CryptError::InvalidHex
    );
    assert_eq!(
        encrypt_command(&hx("01"), &hx("00"), &hx("00")).unwrap_err(),
        CryptError::InvalidLength
    );
    assert_eq!(
        encrypt_command(&hx("01"), &hx(&pk_b_hex), &hx("0")).unwrap_err(),
        CryptError::InvalidHex
    );
}

#[test]
fn decrypt_command_rejects_short_and_tampered() {
    let a = generate_sk(&hx("01")).unwrap();
    let b = generate_sk(&hx("02")).unwrap();
    let pk_a_hex = hex::encode(public_from_secret(&a).bytes);
    let pk_b_hex = hex::encode(public_from_secret(&b).bytes);
    assert_eq!(
        decrypt_command(&hx("02"), &hx(&pk_a_hex), &hx("00")).unwrap_err(),
        CryptError::MalformedCiphertext
    );
    let ct = encrypt_command(&hx("01"), &hx(&pk_b_hex), &hx("deadbeef")).unwrap();
    let mut bad = ct.clone();
    bad[0] ^= 1;
    assert_eq!(
        decrypt_command(&hx("02"), &hx(&pk_a_hex), &hx(&hex::encode(&bad))).unwrap_err(),
        CryptError::AuthenticationFailure
    );
}
