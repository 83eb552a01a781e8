use drcom::dialer::{
    ChallengeRequest, ChallengeResponse, DialerError, Field, LoginAccount, LoginResponse, Mismatch,
};
use drcom::digest::md5;
use drcom::heartbeater::{
    HeartbeatError, HeartbeatFlag, PhaseOneRequest, PhaseOneResponse, PhaseTwoRequest,
    PhaseTwoResponse,
};
use drcom::wire::{checksum, ror, xor_prefix};

fn sample_account() -> LoginAccount {
    let mut la = LoginAccount::new("usernameusername", "password", [1, 2, 3, 4]);
    la.ipaddresses(&[[10, 30, 22, 17]])
        .mac_address([0xb8, 0x88, 0xe3, 0x05, 0x16, 0x80]);
    la
}

#[test]
fn challenge_reply_yields_salt() {
    let cr = ChallengeResponse::from_bytes(&[2, 3, 4, 5, 6, 7, 8, 9, 10]).unwrap();
    assert_eq!(cr.hash_salt, [6, 7, 8, 9]);
}

#[test]
fn challenge_reply_wrong_tag_is_protocol_mismatch() {
    assert_eq!(
        ChallengeResponse::from_bytes(&[3, 3, 4, 5, 6, 7, 8, 9, 10]),
        Err(DialerError::ProtocolMismatch(Mismatch::WrongTag))
    );
}

#[test]
fn challenge_reply_too_short_is_protocol_mismatch() {
    assert_eq!(
        ChallengeResponse::from_bytes(&[2, 3, 4, 5, 6, 7, 8, 9]),
        Err(DialerError::ProtocolMismatch(Mismatch::TooShort))
    );
    assert_eq!(
        ChallengeResponse::from_bytes(&[]),
        Err(DialerError::ProtocolMismatch(Mismatch::TooShort))
    );
}

#[test]
fn challenge_request_round_trips() {
    for s in [0u16, 1, 9, 255, 256, 0x1234, 0xfffe, 0xffff] {
        let c = ChallengeRequest::new(Some(s));
        let bytes = c.as_bytes();
        assert_eq!(bytes.len(), 20);
        assert_eq!(ChallengeRequest::from_bytes(&bytes), Ok(c));
    }
}

#[test]
fn challenge_request_without_hint_writes_zero() {
    let bytes = ChallengeRequest::new(None).as_bytes();
    assert_eq!(bytes, vec![1, 2, 0, 0, 9, 0, 0, 0, 0, 0, 0, 0, 0, 0, 0, 0, 0, 0, 0, 0]);
}

#[test]
fn challenge_request_decode_errors() {
    assert_eq!(
        ChallengeRequest::from_bytes(&[1, 2, 0]),
        Err(DialerError::ProtocolMismatch(Mismatch::TooShort))
    );
    let mut bytes = ChallengeRequest::new(Some(7)).as_bytes();
    bytes.push(0);
    assert_eq!(ChallengeRequest::from_bytes(&bytes), Ok(ChallengeRequest::new(Some(7))));
    bytes[0] = 2;
    assert_eq!(
        ChallengeRequest::from_bytes(&bytes),
        Err(DialerError::ProtocolMismatch(Mismatch::WrongTag))
    );
}

#[test]
fn login_reply_errors() {
    let mut reply: Vec<u8> = (0u8..32).collect();
    assert_eq!(
        LoginResponse::from_bytes(&reply),
        Err(DialerError::ProtocolMismatch(Mismatch::WrongTag))
    );
    reply[0] = 4;
    assert_eq!(
        LoginResponse::from_bytes(&reply[..31]),
        Err(DialerError::ProtocolMismatch(Mismatch::TooShort))
    );
}

#[test]
fn md5_of_known_inputs() {
    assert_eq!(
        md5(b""),
        vec![
            0xd4, 0x1d, 0x8c, 0xd9, 0x8f, 0x00, 0xb2, 0x04, 0xe9, 0x80, 0x09, 0x98, 0xec, 0xf8,
            0x42, 0x7e
        ]
    );
    assert_eq!(
        md5(b"abc"),
        vec![
            0x90, 0x01, 0x50, 0x98, 0x3c, 0xd2, 0x4f, 0xb0, 0xd6, 0x96, 0x3f, 0x7d, 0x28, 0xe1,
            0x7f, 0x72
        ]
    );
}

#[test]
fn checksum_values() {
    // 1234 * 1968 = 2428512 = 0x00250e60
    assert_eq!(checksum(&[]), vec![0x60, 0x0e, 0x25, 0x00]);
    // (1234 ^ 1) * 1968 = 1235 * 1968 = 2430480 = 0x00251610
    assert_eq!(checksum(&[1, 0, 0, 0]), vec![0x10, 0x16, 0x25, 0x00]);
    // a trailing partial word is filled with zeros
    assert_eq!(checksum(&[1]), checksum(&[1, 0, 0, 0]));
    // (1234 ^ 0xffffffff) * 1968 mod 2^32
    let v = ((1234u32 ^ 0xffff_ffff) as u64 * 1968 % (1u64 << 32)) as u32;
    assert_eq!(checksum(&[0xff, 0xff, 0xff, 0xff]), v.to_le_bytes().to_vec());
}

#[test]
fn ror_rotates_xored_bytes() {
    // 174 ^ 'p' = 222 = 0b1101_1110, rotated left by three: 0b1111_0110 = 246
    assert_eq!(ror(&[174, 175], b"p"), vec![246]);
    assert_eq!(ror(&[0, 0, 0], &[1, 0x20, 0x80]), vec![8, 1, 4]);
}

#[test]
fn xor_prefix_masks() {
    assert_eq!(xor_prefix(&[0xff, 0x0f, 1], &[0x0f, 0x0f, 9], 2), vec![0xf0, 0x00]);
}

#[test]
fn login_layouts_share_fixed_section() {
    let mut la = sample_account();
    la.ror_version(false);
    let legacy = la.login_request().unwrap().as_bytes().unwrap();
    la.ror_version(true);
    let rotated = la.login_request().unwrap().as_bytes().unwrap();
    assert_eq!(legacy[..312], rotated[..312]);
    assert_ne!(legacy[312..], rotated[312..]);
    assert_eq!(rotated.len(), legacy.len() + 10);
}

#[test]
fn login_username_of_36_bytes_fits() {
    let name = "a".repeat(36);
    let mut la = LoginAccount::new(&name, "password", [1, 2, 3, 4]);
    let bytes = la.login_request().unwrap().as_bytes().unwrap();
    assert_eq!(bytes[3], 56);
    assert_eq!(&bytes[20..56], name.as_bytes());
    la.ror_version(true);
    assert!(la.login_request().is_ok());
}

#[test]
fn login_username_of_37_bytes_overflows() {
    let name = "a".repeat(37);
    let la = LoginAccount::new(&name, "password", [1, 2, 3, 4]);
    assert_eq!(
        la.login_request().unwrap_err(),
        DialerError::SerializationError(Field::Username)
    );
}

#[test]
fn login_other_overflows() {
    let mut la = sample_account();
    la.hostname("h".repeat(33));
    assert_eq!(la.login_request().unwrap_err(), DialerError::SerializationError(Field::Hostname));

    let mut la = sample_account();
    la.service_pack("s".repeat(33));
    assert_eq!(
        la.login_request().unwrap_err(),
        DialerError::SerializationError(Field::ServicePack)
    );

    let mut la = sample_account();
    la.ipaddresses(&[[1, 1, 1, 1], [2, 2, 2, 2], [3, 3, 3, 3], [4, 4, 4, 4], [5, 5, 5, 5]]);
    assert_eq!(
        la.login_request().unwrap_err(),
        DialerError::SerializationError(Field::IpAddresses)
    );

    let mut la = LoginAccount::new("user", &"p".repeat(17), [1, 2, 3, 4]);
    assert!(la.login_request().is_ok());
    la.ror_version(true);
    assert!(la.login_request().is_ok());
}

#[test]
fn rotated_layout_takes_long_passwords() {
    let pd: Vec<u8> = (0u8..16).collect();
    let sd: Vec<u8> = (16u8..32).collect();
    let cd: Vec<u8> = (32u8..48).collect();
    let mut la = LoginAccount::new("user", &"a".repeat(18), [9, 9, 9, 9]);
    la.ror_version(true);
    let address = la.address_section_bytes(&pd, &sd);
    let packet = la.packet_from_digests(&address, &cd, &pd);
    // the digest is repeated for the bytes past its sixteenth
    assert_eq!(
        packet[312..332],
        [0, 18, 11, 3, 27, 19, 43, 35, 59, 51, 75, 67, 91, 83, 107, 99, 123, 115, 11, 3]
    );
    assert_eq!(packet[332..334], [2, 12]);
    let full = la.login_request().unwrap().as_bytes().unwrap();
    assert_eq!(full.len(), 312 + 2 + 18 + 2 + 4 + 2 + 6 + 4);
}

#[test]
fn login_four_addresses_fill_every_slot() {
    let mut la = sample_account();
    la.ipaddresses(&[[1, 1, 1, 1], [2, 2, 2, 2], [3, 3, 3, 3], [4, 4, 4, 4]]);
    let bytes = la.login_request().unwrap().as_bytes().unwrap();
    assert_eq!(bytes[80], 4);
    assert_eq!(bytes[81..97], [1, 1, 1, 1, 2, 2, 2, 2, 3, 3, 3, 3, 4, 4, 4, 4]);
}

#[test]
fn login_trailer_flags() {
    let mut la = sample_account();
    la.auto_logout(true).broadcast_mode(true).random(0x0102).auth_extra_option(0x0304);
    let bytes = la.login_request().unwrap().as_bytes().unwrap();
    let n = bytes.len();
    assert_eq!(bytes[n - 4..], [1, 1, 2, 1]);
    assert_eq!(bytes[n - 12..n - 10], [4, 3]);
}

#[test]
fn phase_one_request_layout() {
    let bytes = PhaseOneRequest::new([1, 2, 3, 4], "password", &[5, 6, 7, 8], Some(123456789)).as_bytes();
    assert_eq!(bytes.len(), 28);
    assert_eq!(bytes[0], 0xff);
    assert_eq!(bytes[17..22], [0, 5, 6, 7, 8]);
    // 123456789 = 0x075bcd15, little-endian, then two zeros
    assert_eq!(bytes[22..], [21, 205, 91, 7, 0, 0]);
    let none = PhaseOneRequest::new([1, 2, 3, 4], "password", &[5, 6, 7, 8], None).as_bytes();
    assert_eq!(none[22..], [0, 0, 0, 0, 0, 0]);
    assert_eq!(none[..22], bytes[..22]);
}

#[test]
fn phase_two_request_variants() {
    let first1 = PhaseTwoRequest::new(1, [5, 6, 7, 8], &HeartbeatFlag::First, [1, 2, 3, 4], Some(1)).as_bytes();
    let first3 = PhaseTwoRequest::new(1, [5, 6, 7, 8], &HeartbeatFlag::First, [1, 2, 3, 4], Some(3)).as_bytes();
    let not3 = PhaseTwoRequest::new(1, [5, 6, 7, 8], &HeartbeatFlag::NotFirst, [1, 2, 3, 4], Some(3)).as_bytes();
    assert_eq!(first1.len(), 40);
    for i in 0..40 {
        if i != 5 {
            assert_eq!(first1[i], first3[i]);
        }
    }
    assert_eq!((first1[5], first3[5]), (1, 3));
    assert_eq!(first3[28..32], [0, 0, 0, 0]);
    assert_eq!(not3[28..32], [1, 2, 3, 4]);
    assert_eq!(not3[6..8], [0xdc, 0x02]);
    assert_eq!(first3[6..8], [0x0f, 0x27]);
    let not1 = PhaseTwoRequest::new(9, [5, 6, 7, 8], &HeartbeatFlag::NotFirst, [1, 2, 3, 4], None).as_bytes();
    assert_eq!(not1[1], 9);
    assert_eq!(not1[5], 1);
    assert_eq!(not1[28..32], [1, 2, 3, 4]);
}

#[test]
fn phase_two_reply_errors() {
    let mut reply: Vec<u8> = (0u8..50).collect();
    reply[0] = 7;
    reply[2] = 0x28;
    let ok = PhaseTwoResponse::from_bytes(&reply).unwrap();
    assert_eq!(ok.sequence, 1);
    assert_eq!(ok.keep_alive_key, [16, 17, 18, 19]);
    assert_eq!(
        PhaseTwoResponse::from_bytes(&reply[..19]),
        Err(HeartbeatError::ValidateError(Mismatch::TooShort))
    );
    reply[2] = 0x10;
    assert_eq!(
        PhaseTwoResponse::from_bytes(&reply),
        Err(HeartbeatError::ValidateError(Mismatch::WrongSubTag))
    );
    reply[0] = 8;
    assert_eq!(
        PhaseTwoResponse::from_bytes(&reply),
        Err(HeartbeatError::ValidateError(Mismatch::WrongTag))
    );
}

#[test]
fn phase_one_reply_errors() {
    assert_eq!(
        PhaseOneResponse::from_bytes(&[7, 0, 0]).unwrap_err(),
        HeartbeatError::ValidateError(Mismatch::TooShort)
    );
    assert_eq!(
        PhaseOneResponse::from_bytes(&[78, 3, 4, 5, 6, 7, 8, 9, 10]).unwrap_err(),
        HeartbeatError::ValidateError(Mismatch::WrongTag)
    );
    let ok = PhaseOneResponse::from_bytes(&[7, 3, 4, 5, 6, 7, 8, 9, 10]).unwrap();
    assert_eq!(ok.bytes, vec![7, 3, 4, 5, 6, 7, 8, 9, 10]);
}

#[test]
fn login_assembly_from_given_digests() {
    let pd: Vec<u8> = (0u8..16).collect();
    let sd: Vec<u8> = (16u8..32).collect();
    let cd: Vec<u8> = (32u8..48).collect();
    let mut la = LoginAccount::new("user", "pass", [9, 9, 9, 9]);
    la.mac_address([1, 2, 3, 4, 5, 6])
        .ipaddresses(&[[192, 168, 1, 2], [10, 0, 0, 1]])
        .ror_version(true);
    let address = la.address_section_bytes(&pd, &sd);
    let mut expected = vec![3, 1, 0, 24];
    expected.extend_from_slice(&pd);
    expected.extend_from_slice(b"user");
    expected.extend_from_slice(&[0; 32]);
    expected.extend_from_slice(&[32, 1, 1, 3, 1, 7, 1, 3]);
    expected.extend_from_slice(&sd);
    expected.extend_from_slice(&[2, 192, 168, 1, 2, 10, 0, 0, 1]);
    expected.extend_from_slice(&[0; 8]);
    assert_eq!(address, expected);

    let packet = la.packet_from_digests(&address, &cd, &pd);
    assert_eq!(packet[..97], address[..]);
    assert_eq!(packet[97..105], cd[..8]);
    assert_eq!(
        packet[312..],
        [0, 4, 131, 3, 139, 131, 2, 12, 16, 179, 160, 80, 0, 0, 1, 2, 3, 4, 5, 6, 0, 0, 233, 19]
    );
}

#[test]
fn phase_one_assembly_from_given_digest() {
    let digest: Vec<u8> = (100u8..116).collect();
    let bytes = drcom::heartbeater::phase_one_packet(&digest, &[1, 2, 3], Some(0x0403_0201));
    let mut expected = vec![0xff];
    expected.extend_from_slice(&digest);
    expected.extend_from_slice(&[0, 1, 2, 3, 1, 2, 3, 4, 0, 0]);
    assert_eq!(bytes, expected);
}
