use signet::derivation::{
    authenticate_response, derive_address, derive_epsilon, derive_public_key, epsilon_input,
    response_address, RESPONSE_DERIVATION_PATH,
};
use signet::errors::VerificationError;
use signet::outcome::Outcome;
use signet::response::{hash_response, verify_response, verify_signature};
use signet::signature::{AffinePoint, Signature};
use signet::Pubkey;

const ROOT_SECRET: [u8; 32] = [
    0, 0, 0, 0, 0, 0, 0, 0, 0, 0, 0, 0, 0, 0, 0, 0, 0, 0, 0, 0, 0, 0, 0, 0, 0, 0, 0, 0, 0xde, 0xad,
    0xbe, 0xef,
];
const ROOT_KEY: [u8; 64] = [
    0x76, 0xd2, 0xfd, 0xf1, 0x30, 0x2d, 0x1f, 0xa9, 0x55, 0x6f, 0x4d, 0xf9,
    0x4e, 0xc8, 0x4c, 0xef, 0xba, 0x6d, 0x48, 0x2e, 0x54, 0xf4, 0x7c, 0x6c,
    0x2a, 0x23, 0x8c, 0x1b, 0xaa, 0x56, 0x0f, 0x0e, 0xb7, 0x54, 0xac, 0x7e,
    0x7a, 0x3e, 0x09, 0xc4, 0x41, 0x84, 0xcb, 0x45, 0x1a, 0x4f, 0x5f, 0xb5,
    0x57, 0xf3, 0x20, 0x53, 0xeb, 0x01, 0x5d, 0xff, 0xeb, 0xb6, 0x55, 0xb5,
    0xcf, 0xd5, 0x4d, 0x8a,
];
const REQUEST_ID: [u8; 32] = [0x11; 32];
const FAILED_OUTPUT: [u8; 5] = [0xde, 0xad, 0xbe, 0xef, 0x01];

fn requester() -> Pubkey {
    Pubkey::new_from_array([9u8; 32])
}

fn response_signature() -> Signature {
    Signature {
        big_r: AffinePoint {
            x: [
                0x58, 0xad, 0x83, 0x36, 0x87, 0x8c, 0x83, 0x95, 0xa6, 0x6f, 0xd3, 0x16,
                0xf0, 0x20, 0xe2, 0x63, 0xe7, 0x35, 0x56, 0x7b, 0x74, 0xb3, 0x7c, 0x54,
                0xa2, 0xe5, 0x47, 0x61, 0xa8, 0x42, 0x98, 0x87,
            ],
            y: [
                0x56, 0xcc, 0x14, 0x69, 0x28, 0xf6, 0xb8, 0xda, 0x51, 0x5c, 0x9f, 0x3e,
                0xa5, 0xf0, 0x6c, 0xbb, 0x8d, 0xa1, 0x90, 0xe0, 0x7f, 0xc4, 0xf6, 0x06,
                0xcd, 0xe9, 0xf6, 0x0e, 0x3a, 0x3b, 0xd8, 0xd7,
            ],
        },
        s: [
            0x45, 0xc8, 0x95, 0x62, 0x4a, 0x19, 0x03, 0x41, 0x43, 0x43, 0x83, 0xd5,
            0xff, 0xdb, 0x3a, 0xa8, 0xe6, 0xc8, 0x57, 0x45, 0x9a, 0xdc, 0xb5, 0xfd,
            0xaf, 0x9e, 0xfd, 0x8e, 0xf1, 0x66, 0x22, 0x3e,
        ],
        recovery_id: 1,
    }
}

fn raw(key: &libsecp256k1::PublicKey) -> [u8; 64] {
    let mut bytes = [0u8; 64];
    bytes.copy_from_slice(&key.serialize()[1..65]);
    bytes
}

fn derived_secret(key_version: u32, path: &str) -> libsecp256k1::SecretKey {
    let epsilon = derive_epsilon(key_version, &requester(), path);
    let mut secret = libsecp256k1::SecretKey::parse(&ROOT_SECRET).unwrap();
    secret.tweak_add_assign(&libsecp256k1::SecretKey::parse(&epsilon).unwrap()).unwrap();
    secret
}

fn signed(message_hash: &[u8; 32], secret: &libsecp256k1::SecretKey) -> Signature {
    let message = libsecp256k1::Message::parse(message_hash);
    let (signature, recovery_id) = libsecp256k1::sign(&message, secret);
    Signature {
        big_r: AffinePoint { x: signature.r.b32(), y: [0; 32] },
        s: signature.s.b32(),
        recovery_id: recovery_id.serialize(),
    }
}

#[test]
fn response_path_is_the_reserved_one() {
    assert_eq!(RESPONSE_DERIVATION_PATH, "solana response key");
}

#[test]
fn epsilon_input_is_version_requester_path() {
    let expected: Vec<u8> = vec![
        0x00, 0x00, 0x00, 0x03, 0x09, 0x09, 0x09, 0x09, 0x09, 0x09, 0x09, 0x09,
        0x09, 0x09, 0x09, 0x09, 0x09, 0x09, 0x09, 0x09, 0x09, 0x09, 0x09, 0x09,
        0x09, 0x09, 0x09, 0x09, 0x09, 0x09, 0x09, 0x09, 0x09, 0x09, 0x09, 0x09,
        0x65, 0x74, 0x68,
    ];
    assert_eq!(epsilon_input(3, &requester(), "eth"), expected);
    assert_eq!(epsilon_input(0, &Pubkey::default(), "").len(), 36);
}

#[test]
fn epsilon_matches_known_digest() {
    let of_response_path: [u8; 32] = [
        0xa7, 0x7a, 0xf4, 0xc4, 0x5d, 0x41, 0xf7, 0x8e, 0x7a, 0x1b, 0x9f, 0x2b,
        0xce, 0x14, 0xc3, 0xee, 0xd1, 0x99, 0x0b, 0x1f, 0x57, 0xb5, 0xa9, 0x3a,
        0x0c, 0x91, 0x1e, 0xa8, 0xdc, 0x24, 0x2f, 0x00,
    ];
    assert_eq!(derive_epsilon(3, &requester(), RESPONSE_DERIVATION_PATH), of_response_path);
    let of_user_path: [u8; 32] = [
        0xd9, 0xca, 0x5c, 0x8e, 0x61, 0x22, 0xf2, 0xe0, 0xc4, 0xd3, 0xc8, 0x6d,
        0x75, 0x56, 0xe7, 0xa1, 0xd2, 0xc8, 0x1b, 0x45, 0xc3, 0xa8, 0xa2, 0xea,
        0x35, 0x27, 0x22, 0xfb, 0x40, 0xd4, 0x2d, 0xd8,
    ];
    assert_eq!(derive_epsilon(3, &requester(), "eth"), of_user_path);
}

#[test]
fn root_key_is_the_key_of_the_root_secret() {
    let secret = libsecp256k1::SecretKey::parse(&ROOT_SECRET).unwrap();
    assert_eq!(raw(&libsecp256k1::PublicKey::from_secret_key(&secret)), ROOT_KEY);
}

#[test]
fn derived_key_matches_known_point() {
    let of_response_path: [u8; 64] = [
        0x52, 0x5c, 0xd9, 0x6a, 0x5a, 0x62, 0x53, 0xa6, 0xcd, 0x49, 0x49, 0xa9,
        0x73, 0x7b, 0x93, 0x34, 0xd1, 0x2b, 0x49, 0x83, 0xb4, 0x3c, 0xaf, 0x48,
        0x4c, 0x93, 0xbc, 0xcf, 0x43, 0xe8, 0x88, 0xbd, 0xba, 0x30, 0xd8, 0xdb,
        0x88, 0x9a, 0xa0, 0x7d, 0xe0, 0xe0, 0xca, 0x7f, 0x5d, 0xd3, 0x55, 0xa1,
        0x30, 0x8d, 0x52, 0x02, 0x65, 0x85, 0x1e, 0xa3, 0xfd, 0x22, 0x65, 0x9b,
        0xbf, 0x58, 0xc7, 0xba,
    ];
    assert_eq!(
        derive_public_key(&ROOT_KEY, 3, &requester(), RESPONSE_DERIVATION_PATH),
        Some(of_response_path)
    );
    let of_user_path: [u8; 64] = [
        0x00, 0x2e, 0x34, 0x6a, 0x83, 0xdd, 0x0c, 0x95, 0xf4, 0x39, 0x16, 0x76,
        0x9c, 0xda, 0x95, 0x7a, 0xfa, 0x5e, 0x8b, 0xa2, 0x84, 0x9f, 0xe6, 0x98,
        0xd3, 0x08, 0x5c, 0xba, 0x34, 0x71, 0x05, 0x6e, 0x4a, 0x24, 0x90, 0xa5,
        0xc9, 0xb6, 0x97, 0x95, 0x83, 0x7f, 0xae, 0x6d, 0x77, 0xcd, 0x14, 0x01,
        0x5d, 0x17, 0xd7, 0x49, 0xb6, 0x7f, 0xb9, 0xe0, 0x9b, 0x65, 0xa9, 0xc6,
        0x60, 0xe4, 0x31, 0xfa,
    ];
    assert_eq!(derive_public_key(&ROOT_KEY, 3, &requester(), "eth"), Some(of_user_path));
}

#[test]
fn derived_key_is_root_plus_epsilon_times_generator() {
    for (key_version, path) in [(0u32, "eth"), (1, "eth"), (1, ""), (7, "my_vault")] {
        let secret = derived_secret(key_version, path);
        let expected = raw(&libsecp256k1::PublicKey::from_secret_key(&secret));
        assert_eq!(derive_public_key(&ROOT_KEY, key_version, &requester(), path), Some(expected));
        assert_ne!(expected, ROOT_KEY);
    }
}

#[test]
fn derived_address_matches_known_address() {
    let of_response_path: [u8; 20] = [
        0xaf, 0x57, 0xb3, 0x71, 0xde, 0x88, 0xaa, 0x68, 0x52, 0xd9,
        0xe3, 0x26, 0xb0, 0x6c, 0x53, 0x21, 0x20, 0xdf, 0x2e, 0xe2,
    ];
    assert_eq!(response_address(&ROOT_KEY, 3, &requester()), Some(of_response_path));
    assert_eq!(
        derive_address(&ROOT_KEY, 3, &requester(), RESPONSE_DERIVATION_PATH),
        Some(of_response_path)
    );
    let of_user_path: [u8; 20] = [
        0xfd, 0x2a, 0x2c, 0x96, 0x5a, 0x14, 0x73, 0xcd, 0xd6, 0xcf,
        0x9a, 0x33, 0x16, 0xb0, 0xd6, 0xae, 0x4e, 0x95, 0xf0, 0xd3,
    ];
    assert_eq!(derive_address(&ROOT_KEY, 3, &requester(), "eth"), Some(of_user_path));
}

#[test]
fn no_key_derives_from_a_root_off_the_curve() {
    assert_eq!(derive_public_key(&[0u8; 64], 3, &requester(), "eth"), None);
    assert_eq!(derive_address(&[1u8; 64], 3, &requester(), "eth"), None);
    assert_eq!(response_address(&[0u8; 64], 3, &requester()), None);
}

#[test]
fn keys_differ_by_path_requester_and_version() {
    let base = derive_public_key(&ROOT_KEY, 3, &requester(), "eth").unwrap();
    let other_path = derive_public_key(&ROOT_KEY, 3, &requester(), "btc").unwrap();
    let other_version = derive_public_key(&ROOT_KEY, 4, &requester(), "eth").unwrap();
    let other = Pubkey::new_from_array([8u8; 32]);
    let other_requester = derive_public_key(&ROOT_KEY, 3, &other, "eth").unwrap();
    let response = derive_public_key(&ROOT_KEY, 3, &requester(), RESPONSE_DERIVATION_PATH).unwrap();
    assert_ne!(base, other_path);
    assert_ne!(base, other_version);
    assert_ne!(base, other_requester);
    assert_ne!(base, response);
}

#[test]
fn response_signed_with_the_response_key_is_authentic_and_read_as_failure() {
    let verified = authenticate_response(
        &ROOT_KEY,
        3,
        &requester(),
        &REQUEST_ID,
        &FAILED_OUTPUT,
        &response_signature(),
    );
    assert_eq!(verified, Ok(Outcome::Failure));
}

#[test]
fn response_signed_in_the_test_is_authentic() {
    let secret = derived_secret(3, RESPONSE_DERIVATION_PATH);
    let output = [0x2a, 0, 0, 0, 0, 0, 0, 0];
    let signature = signed(&hash_response(&REQUEST_ID, &output), &secret);
    let verified =
        authenticate_response(&ROOT_KEY, 3, &requester(), &REQUEST_ID, &output, &signature);
    assert_eq!(verified, Ok(Outcome::Success(output.to_vec())));
    let empty = signed(&hash_response(&REQUEST_ID, &[]), &secret);
    let verified = authenticate_response(&ROOT_KEY, 3, &requester(), &REQUEST_ID, &[], &empty);
    assert_eq!(verified, Ok(Outcome::Success(Vec::new())));
}

#[test]
fn response_signed_with_a_user_key_is_refused() {
    let secret = derived_secret(3, "eth");
    let signature = signed(&hash_response(&REQUEST_ID, &FAILED_OUTPUT), &secret);
    let verified = authenticate_response(
        &ROOT_KEY,
        3,
        &requester(),
        &REQUEST_ID,
        &FAILED_OUTPUT,
        &signature,
    );
    assert_eq!(verified, Err(VerificationError::InvalidSignature));
}

#[test]
fn response_signature_does_not_pass_for_another_path() {
    let message_hash = hash_response(&REQUEST_ID, &FAILED_OUTPUT);
    let signature = response_signature();
    let of_response_path = response_address(&ROOT_KEY, 3, &requester()).unwrap();
    assert_eq!(verify_signature(&message_hash, &signature, &of_response_path), Ok(()));
    for path in ["eth", "", "solana response key ", "Solana response key"] {
        let of_other_path = derive_address(&ROOT_KEY, 3, &requester(), path).unwrap();
        assert_eq!(
            verify_signature(&message_hash, &signature, &of_other_path),
            Err(VerificationError::InvalidSignature)
        );
        assert_eq!(
            verify_response(&REQUEST_ID, &FAILED_OUTPUT, &signature, &of_other_path),
            Err(VerificationError::InvalidSignature)
        );
    }
}

#[test]
fn response_is_refused_for_another_requester_or_version() {
    let other = Pubkey::new_from_array([8u8; 32]);
    let signature = response_signature();
    assert_eq!(
        authenticate_response(&ROOT_KEY, 3, &other, &REQUEST_ID, &FAILED_OUTPUT, &signature),
        Err(VerificationError::InvalidSignature)
    );
    assert_eq!(
        authenticate_response(&ROOT_KEY, 4, &requester(), &REQUEST_ID, &FAILED_OUTPUT, &signature),
        Err(VerificationError::InvalidSignature)
    );
    assert_eq!(
        authenticate_response(&[0; 64], 3, &requester(), &REQUEST_ID, &FAILED_OUTPUT, &signature),
        Err(VerificationError::InvalidSignature)
    );
}
