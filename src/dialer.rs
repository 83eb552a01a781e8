//! The dial-up half of the protocol: the challenge exchange that hands out the
//! salt, and the login packet built from an account.

use vstd::prelude::*;
use vstd::string::StringSliceAdditionalSpecFns;
use vstd::utf8::encode_utf8;
use crate::digest::{md5, md5_block};
use crate::wire::{
    bytes_of, checksum, checksum_of, le16, push_bytes, push_le16, push_padded, push_prefix,
    push_zeros, read_le16, ror, ror_of, xor_of, xor_prefix, zero_pad, zeros,
};

verus! {

/// Why a received datagram was not the reply that was expected.
#[derive(Debug, Clone, Copy, PartialEq, Eq, Structural)]
pub enum Mismatch {
    /// Shorter than the least length of its family.
    TooShort,
    /// Its leading tag byte is not the family's.
    WrongTag,
    /// Its secondary tag byte is not the family's.
    WrongSubTag,
}

/// A field of the login account that does not fit its slot in the packet.
#[derive(Debug, Clone, Copy, PartialEq, Eq, Structural)]
pub enum Field {
    Username,
    Hostname,
    ServicePack,
    IpAddresses,
}

/// Errors of the dial-up exchange.
#[derive(Debug, Clone, Copy, PartialEq, Eq, Structural)]
pub enum DialerError {
    /// A reply failed its length or tag check.
    ProtocolMismatch(Mismatch),
    /// A field overflows its capacity while encoding.
    SerializationError(Field),
}

pub const CHALLENGE_REQUEST_TAG: u8 = 0x01;
pub const CHALLENGE_REPLY_TAG: u8 = 0x02;
pub const LOGIN_REQUEST_TAG: u8 = 0x03;
pub const LOGIN_REPLY_TAG: u8 = 0x04;
pub const CHALLENGE_REQUEST_LEN: usize = 20;
pub const CHALLENGE_REPLY_MIN_LEN: usize = 9;
pub const LOGIN_REPLY_MIN_LEN: usize = 32;

pub const USERNAME_CAP: usize = 36;
pub const HOSTNAME_CAP: usize = 32;
pub const SERVICE_PACK_CAP: usize = 32;
pub const IP_SLOTS: usize = 4;

/// The challenge that opens a session.
#[derive(Debug, Clone, Copy, PartialEq, Eq, Structural)]
pub struct ChallengeRequest {
    pub sequence: Option<u16>,
}

/// The sequence hint as written on the wire (none is written as zero).
pub open spec fn hint_value(sequence: Option<u16>) -> u16 {
    match sequence {
        Some(s) => s,
        None => 0u16,
    }
}

impl ChallengeRequest {
    /// The 20-byte datagram: tag, 0x02, the hint little-endian, 0x09, zeros.
    pub open spec fn wire(self) -> Seq<u8> {
        seq![CHALLENGE_REQUEST_TAG, 2u8] + le16(hint_value(self.sequence)) + seq![9u8] + zeros(15)
    }

    pub fn new(sequence: Option<u16>) -> (r: Self)
        ensures
            r.sequence == sequence,
    {
        ChallengeRequest { sequence }
    }

    pub fn as_bytes(&self) -> (r: Vec<u8>)
        ensures
            r@ == self.wire(),
            r@.len() == CHALLENGE_REQUEST_LEN,
    {
        let mut r: Vec<u8> = Vec::new();
        r.push(CHALLENGE_REQUEST_TAG);
        r.push(2u8);
        let hint: u16 = match self.sequence {
            Some(s) => s,
            None => 0u16,
        };
        push_le16(&mut r, hint);
        r.push(9u8);
        push_zeros(&mut r, 15);
        assert(r@ =~= self.wire());
        r
    }

    /// Reads a challenge datagram back.
    pub fn from_bytes(b: &[u8]) -> (r: Result<ChallengeRequest, DialerError>)
        ensures
            r == challenge_decode(b@),
    {
        if b.len() < CHALLENGE_REQUEST_LEN {
            return Err(DialerError::ProtocolMismatch(Mismatch::TooShort));
        }
        if b[0] != CHALLENGE_REQUEST_TAG {
            return Err(DialerError::ProtocolMismatch(Mismatch::WrongTag));
        }
        let v: u16 = (b[2] as u16) + 256 * (b[3] as u16);
        Ok(ChallengeRequest { sequence: Some(v) })
    }
}

/// A challenge datagram read back: at least 20 bytes under the challenge tag,
/// the hint coming back as present.
pub open spec fn challenge_decode(b: Seq<u8>) -> Result<ChallengeRequest, DialerError> {
    if b.len() < CHALLENGE_REQUEST_LEN {
        Err(DialerError::ProtocolMismatch(Mismatch::TooShort))
    } else if b[0] != CHALLENGE_REQUEST_TAG {
        Err(DialerError::ProtocolMismatch(Mismatch::WrongTag))
    } else {
        Ok(ChallengeRequest { sequence: Some(read_le16(b, 2)) })
    }
}

/// Encoding a challenge with a sequence hint and reading it back gives the
/// same challenge.
pub proof fn lemma_challenge_round_trip(s: u16)
    ensures
        challenge_decode((ChallengeRequest { sequence: Some(s) }).wire()) == Ok::<
            ChallengeRequest,
            DialerError,
        >(ChallengeRequest { sequence: Some(s) }),
{
    let w = (ChallengeRequest { sequence: Some(s) }).wire();
    assert(w[2] == (s % 256) as u8 && w[3] == (s / 256) as u8);
}

/// The server's answer to the challenge: the per-session salt.
#[derive(Debug, Clone, Copy, PartialEq, Eq)]
pub struct ChallengeResponse {
    pub hash_salt: [u8; 4],
}

impl ChallengeResponse {
    /// At least 9 bytes under the challenge-reply tag; the salt is bytes 4 to 7.
    pub fn from_bytes(b: &[u8]) -> (r: Result<ChallengeResponse, DialerError>)
        ensures
            b@.len() < CHALLENGE_REPLY_MIN_LEN ==> r == Err::<ChallengeResponse, DialerError>(
                DialerError::ProtocolMismatch(Mismatch::TooShort),
            ),
            b@.len() >= CHALLENGE_REPLY_MIN_LEN && b@[0] != CHALLENGE_REPLY_TAG ==> r == Err::<
                ChallengeResponse,
                DialerError,
            >(DialerError::ProtocolMismatch(Mismatch::WrongTag)),
            b@.len() >= CHALLENGE_REPLY_MIN_LEN && b@[0] == CHALLENGE_REPLY_TAG ==> r is Ok
                && r->Ok_0.hash_salt@ == b@.subrange(4, 8),
    {
        if b.len() < CHALLENGE_REPLY_MIN_LEN {
            return Err(DialerError::ProtocolMismatch(Mismatch::TooShort));
        }
        if b[0] != CHALLENGE_REPLY_TAG {
            return Err(DialerError::ProtocolMismatch(Mismatch::WrongTag));
        }
        let hash_salt: [u8; 4] = [b[4], b[5], b[6], b[7]];
        assert(hash_salt@ =~= b@.subrange(4, 8));
        Ok(ChallengeResponse { hash_salt })
    }
}

/// The server's answer to a login: the key that phase-one heartbeats echo.
#[derive(Debug, Clone, PartialEq, Eq)]
pub struct LoginResponse {
    pub keep_alive_key: [u8; 6],
}

impl LoginResponse {
    /// At least 32 bytes under the login-reply tag; the key is bytes 23 to 28.
    pub fn from_bytes(b: &[u8]) -> (r: Result<LoginResponse, DialerError>)
        ensures
            b@.len() < LOGIN_REPLY_MIN_LEN ==> r == Err::<LoginResponse, DialerError>(
                DialerError::ProtocolMismatch(Mismatch::TooShort),
            ),
            b@.len() >= LOGIN_REPLY_MIN_LEN && b@[0] != LOGIN_REPLY_TAG ==> r == Err::<
                LoginResponse,
                DialerError,
            >(DialerError::ProtocolMismatch(Mismatch::WrongTag)),
            b@.len() >= LOGIN_REPLY_MIN_LEN && b@[0] == LOGIN_REPLY_TAG ==> r is Ok
                && r->Ok_0.keep_alive_key@ == b@.subrange(23, 29),
    {
        if b.len() < LOGIN_REPLY_MIN_LEN {
            return Err(DialerError::ProtocolMismatch(Mismatch::TooShort));
        }
        if b[0] != LOGIN_REPLY_TAG {
            return Err(DialerError::ProtocolMismatch(Mismatch::WrongTag));
        }
        let keep_alive_key: [u8; 6] = [b[23], b[24], b[25], b[26], b[27], b[28]];
        assert(keep_alive_key@ =~= b@.subrange(23, 29));
        Ok(LoginResponse { keep_alive_key })
    }
}

/// The bytes of a list of IPv4 addresses, one after the other.
pub open spec fn ip_bytes(ips: Seq<[u8; 4]>) -> Seq<u8>
    decreases ips.len(),
{
    if ips.len() == 0 {
        Seq::<u8>::empty()
    } else {
        ip_bytes(ips.drop_last()) + ips.last()@
    }
}

pub proof fn lemma_ip_bytes_len(ips: Seq<[u8; 4]>)
    ensures
        ip_bytes(ips).len() == 4 * ips.len(),
    decreases ips.len(),
{
    if ips.len() > 0 {
        lemma_ip_bytes_len(ips.drop_last());
    }
}

/// A fresh vector holding the addresses of `ips`.
fn copy_ips(ips: &[[u8; 4]]) -> (r: Vec<[u8; 4]>)
    ensures
        r@ == ips@,
{
    let mut r: Vec<[u8; 4]> = Vec::new();
    let mut i: usize = 0;
    while i < ips.len()
        invariant
            i <= ips@.len(),
            r@ =~= ips@.subrange(0, i as int),
        decreases ips@.len() - i,
    {
        r.push(ips[i]);
        i = i + 1;
    }
    r
}

/// Host name sent when none is configured.
pub open spec fn default_hostname() -> Seq<u8> {
    seq![76u8, 73u8, 89u8, 85u8, 65u8, 78u8, 89u8, 85u8, 65u8, 78u8]
}

/// Service-pack string sent when none is configured.
pub open spec fn default_service_pack() -> Seq<u8> {
    seq![56u8, 48u8, 56u8, 57u8, 68u8]
}

/// The primary DNS server announced in the login packet, 114.114.114.114.
pub open spec fn primary_dns() -> Seq<u8> {
    seq![114u8, 114u8, 114u8, 114u8]
}

/// The operating-system block of the login packet: size, major, minor, build
/// and platform, each a little-endian 32-bit word.
pub open spec fn os_info() -> Seq<u8> {
    seq![
        0x94u8, 0u8, 0u8, 0u8, 5u8, 0u8, 0u8, 0u8, 1u8, 0u8, 0u8, 0u8, 0x28u8, 0x0au8, 0u8, 0u8,
        2u8, 0u8, 0u8, 0u8,
    ]
}

/// Length of the part of the login packet that does not depend on the trailer
/// layout.
pub const LOGIN_FIXED_LEN: usize = 312;

/// The attributes of a login; a builder whose setters can be chained.
#[derive(Debug, Clone)]
pub struct LoginAccount {
    pub username: Vec<u8>,
    pub password: Vec<u8>,
    pub hash_salt: [u8; 4],
    pub mac_address: [u8; 6],
    pub ipaddresses: Vec<[u8; 4]>,
    pub hostname: Vec<u8>,
    pub service_pack: Vec<u8>,
    pub dog_flag: u8,
    pub client_version: u8,
    pub dog_version: u8,
    pub adapter_count: u8,
    pub control_check_status: u8,
    pub auto_logout: bool,
    pub broadcast_mode: bool,
    pub random: u16,
    pub auth_extra_option: u16,
    pub ror_version: bool,
}

impl LoginAccount {
    /// Every field fits its slot of the packet.
    pub open spec fn fits(self) -> bool {
        &&& self.username@.len() <= USERNAME_CAP
        &&& self.hostname@.len() <= HOSTNAME_CAP
        &&& self.service_pack@.len() <= SERVICE_PACK_CAP
        &&& self.ipaddresses@.len() <= IP_SLOTS
    }

    /// The first field, in packet order, that does not fit.
    pub open spec fn overflowing_field(self) -> Field {
        if self.username@.len() > USERNAME_CAP {
            Field::Username
        } else if self.ipaddresses@.len() > IP_SLOTS {
            Field::IpAddresses
        } else if self.hostname@.len() > HOSTNAME_CAP {
            Field::Hostname
        } else {
            Field::ServicePack
        }
    }

    /// The same account with the trailer layout chosen by `rotated`.
    pub open spec fn with_ror(self, rotated: bool) -> LoginAccount {
        LoginAccount { ror_version: rotated, ..self }
    }

    /// Digest of 0x03 0x01, the salt and the password.
    pub open spec fn primary_digest(self) -> Seq<u8> {
        md5_block(seq![3u8, 1u8] + self.hash_salt@ + self.password@)
    }

    /// Digest of 0x01, the password, the salt and four zeros.
    pub open spec fn secondary_digest(self) -> Seq<u8> {
        md5_block(seq![1u8] + self.password@ + self.hash_salt@ + zeros(4))
    }

    /// Header, primary digest `pd`, username, status bytes, MAC address masked
    /// with `pd`, secondary digest `sd` and the address slots.
    pub open spec fn address_section_of(self, pd: Seq<u8>, sd: Seq<u8>) -> Seq<u8> {
        seq![LOGIN_REQUEST_TAG, 1u8, 0u8, (self.username@.len() + 20) as u8] + pd + zero_pad(
            self.username@,
            USERNAME_CAP as nat,
        ) + seq![self.control_check_status, self.adapter_count] + xor_of(
            pd.subrange(0, 6),
            self.mac_address@,
        ) + sd + seq![self.ipaddresses@.len() as u8] + ip_bytes(self.ipaddresses@) + zeros(
            (4 * (IP_SLOTS - self.ipaddresses@.len())) as nat,
        )
    }

    /// The address section with the account's own digests.
    pub open spec fn address_section(self) -> Seq<u8> {
        self.address_section_of(self.primary_digest(), self.secondary_digest())
    }

    /// The bytes whose digest follows the address section.
    pub open spec fn address_check_input(address: Seq<u8>) -> Seq<u8> {
        address + seq![0x14u8, 0u8, 7u8, 0x0bu8]
    }

    /// The address section, eight bytes of its digest `cd`, the host
    /// description and the client version.
    pub open spec fn fixed_section_of(self, address: Seq<u8>, cd: Seq<u8>) -> Seq<u8> {
        address + cd.subrange(0, 8) + seq![self.dog_flag] + zeros(4) + zero_pad(
            self.hostname@,
            HOSTNAME_CAP as nat,
        ) + primary_dns() + zeros(16) + os_info() + zero_pad(
            self.service_pack@,
            SERVICE_PACK_CAP as nat,
        ) + zeros(96) + seq![self.client_version, self.dog_version]
    }

    /// The part of the packet shared by both trailer layouts.
    pub open spec fn fixed_section(self) -> Seq<u8> {
        self.fixed_section_of(
            self.address_section(),
            md5_block(Self::address_check_input(self.address_section())),
        )
    }

    /// The packet from its address section, the digest `cd` of that section
    /// and the primary digest `pd`: the fixed section, then in the rotated
    /// layout the password obfuscated under `pd`, then the authentication
    /// extension (code, length, checksum, option, MAC address), the two mode
    /// flags and the nonce.
    pub open spec fn wire_of(self, address: Seq<u8>, cd: Seq<u8>, pd: Seq<u8>) -> Seq<u8> {
        self.body_of(address, cd, pd) + checksum_of(
            self.body_of(address, cd, pd) + seq![1u8, 0x26u8, 7u8, 0x11u8] + le16(
                self.auth_extra_option,
            ) + self.mac_address@,
        ) + le16(self.auth_extra_option) + self.mac_address@ + seq![
            self.auto_logout as u8,
            self.broadcast_mode as u8,
        ] + le16(self.random)
    }

    /// The fixed section, then in the rotated layout a zero, the password's
    /// length modulo 256 and the password obfuscated under `pd` (the digest
    /// repeated as often as a long password needs), then the extension's code
    /// and length.
    pub open spec fn body_of(self, address: Seq<u8>, cd: Seq<u8>, pd: Seq<u8>) -> Seq<u8> {
        self.fixed_section_of(address, cd) + (if self.ror_version {
            seq![0u8, (self.password@.len() % 256) as u8] + ror_of(pd, self.password@)
        } else {
            Seq::<u8>::empty()
        }) + seq![2u8, 12u8]
    }

    /// The whole login packet.
    pub open spec fn wire(self) -> Seq<u8> {
        self.wire_of(
            self.address_section(),
            md5_block(Self::address_check_input(self.address_section())),
            self.primary_digest(),
        )
    }

    /// The two accounts hold the same values in every field.
    pub open spec fn same_as(self, o: LoginAccount) -> bool {
        &&& self.username@ == o.username@
        &&& self.password@ == o.password@
        &&& self.hash_salt@ == o.hash_salt@
        &&& self.mac_address@ == o.mac_address@
        &&& self.ipaddresses@ == o.ipaddresses@
        &&& self.hostname@ == o.hostname@
        &&& self.service_pack@ == o.service_pack@
        &&& self.dog_flag == o.dog_flag
        &&& self.client_version == o.client_version
        &&& self.dog_version == o.dog_version
        &&& self.adapter_count == o.adapter_count
        &&& self.control_check_status == o.control_check_status
        &&& self.auto_logout == o.auto_logout
        &&& self.broadcast_mode == o.broadcast_mode
        &&& self.random == o.random
        &&& self.auth_extra_option == o.auth_extra_option
        &&& self.ror_version == o.ror_version
    }

    /// An independent copy of the account.
    fn snapshot(&self) -> (r: Self)
        ensures
            r.same_as(*self),
    {
        LoginAccount {
            username: bytes_of(self.username.as_slice()),
            password: bytes_of(self.password.as_slice()),
            hash_salt: self.hash_salt,
            mac_address: self.mac_address,
            ipaddresses: copy_ips(self.ipaddresses.as_slice()),
            hostname: bytes_of(self.hostname.as_slice()),
            service_pack: bytes_of(self.service_pack.as_slice()),
            dog_flag: self.dog_flag,
            client_version: self.client_version,
            dog_version: self.dog_version,
            adapter_count: self.adapter_count,
            control_check_status: self.control_check_status,
            auto_logout: self.auto_logout,
            broadcast_mode: self.broadcast_mode,
            random: self.random,
            auth_extra_option: self.auth_extra_option,
            ror_version: self.ror_version,
        }
    }

    pub proof fn lemma_fixed_section_of_len(self, address: Seq<u8>, cd: Seq<u8>)
        requires
            self.fits(),
            address.len() == 97,
            cd.len() == 16,
        ensures
            self.fixed_section_of(address, cd).len() == LOGIN_FIXED_LEN,
    {
        assert(zero_pad(self.hostname@, HOSTNAME_CAP as nat).len() == 32);
        assert(zero_pad(self.service_pack@, SERVICE_PACK_CAP as nat).len() == 32);
        assert(os_info().len() == 20);
        assert(primary_dns().len() == 4);
    }

    pub proof fn lemma_fixed_section_len(self)
        requires
            self.fits(),
        ensures
            self.address_section().len() == 97,
            self.fixed_section().len() == LOGIN_FIXED_LEN,
    {
        lemma_ip_bytes_len(self.ipaddresses@);
        let a = self.address_section();
        assert(zero_pad(self.username@, USERNAME_CAP as nat).len() == 36);
        assert(zero_pad(self.hostname@, HOSTNAME_CAP as nat).len() == 32);
        assert(zero_pad(self.service_pack@, SERVICE_PACK_CAP as nat).len() == 32);
        assert(md5_block(Self::address_check_input(a)).subrange(0, 8).len() == 8);
        assert(os_info().len() == 20);
        assert(primary_dns().len() == 4);
    }

    pub fn new(username: &str, password: &str, hash_salt: [u8; 4]) -> (r: Self)
        ensures
            r.username@ == username.spec_bytes(),
            r.password@ == password.spec_bytes(),
            r.hash_salt == hash_salt,
            r.mac_address@ == seq![0u8, 0u8, 0u8, 0u8, 0u8, 0u8],
            r.ipaddresses@.len() == 0,
            r.hostname@ == default_hostname(),
            r.service_pack@ == default_service_pack(),
            r.dog_flag == 1,
            r.client_version == 0x0a,
            r.dog_version == 0,
            r.adapter_count == 1,
            r.control_check_status == 0x20,
            !r.auto_logout,
            !r.broadcast_mode,
            r.random == 0x13e9,
            r.auth_extra_option == 0,
            !r.ror_version,
    {
        let hostname: Vec<u8> = vec![76u8, 73u8, 89u8, 85u8, 65u8, 78u8, 89u8, 85u8, 65u8, 78u8];
        let service_pack: Vec<u8> = vec![56u8, 48u8, 56u8, 57u8, 68u8];
        assert(hostname@ =~= default_hostname());
        assert(service_pack@ =~= default_service_pack());
        let mac_address: [u8; 6] = [0u8; 6];
        assert(mac_address@ =~= seq![0u8, 0u8, 0u8, 0u8, 0u8, 0u8]);
        LoginAccount {
            username: bytes_of(username.as_bytes()),
            password: bytes_of(password.as_bytes()),
            hash_salt,
            mac_address,
            ipaddresses: Vec::new(),
            hostname,
            service_pack,
            dog_flag: 1,
            client_version: 0x0a,
            dog_version: 0,
            adapter_count: 1,
            control_check_status: 0x20,
            auto_logout: false,
            broadcast_mode: false,
            random: 0x13e9,
            auth_extra_option: 0,
            ror_version: false,
        }
    }

    /// MAC address of the adapter.
    pub fn mac_address(&mut self, v: [u8; 6]) -> (r: &mut Self)
        ensures
            *r == (LoginAccount { mac_address: v, ..*old(self) }),
            *final(self) == *final(r),
    {
        self.mac_address = v;
        self
    }

    /// Flag byte that follows the address digest.
    pub fn dog_flag(&mut self, v: u8) -> (r: &mut Self)
        ensures
            *r == (LoginAccount { dog_flag: v, ..*old(self) }),
            *final(self) == *final(r),
    {
        self.dog_flag = v;
        self
    }

    /// First byte of the client version.
    pub fn client_version(&mut self, v: u8) -> (r: &mut Self)
        ensures
            *r == (LoginAccount { client_version: v, ..*old(self) }),
            *final(self) == *final(r),
    {
        self.client_version = v;
        self
    }

    /// Second byte of the client version.
    pub fn dog_version(&mut self, v: u8) -> (r: &mut Self)
        ensures
            *r == (LoginAccount { dog_version: v, ..*old(self) }),
            *final(self) == *final(r),
    {
        self.dog_version = v;
        self
    }

    /// Number of network adapters.
    pub fn adapter_count(&mut self, v: u8) -> (r: &mut Self)
        ensures
            *r == (LoginAccount { adapter_count: v, ..*old(self) }),
            *final(self) == *final(r),
    {
        self.adapter_count = v;
        self
    }

    /// Control-check status byte.
    pub fn control_check_status(&mut self, v: u8) -> (r: &mut Self)
        ensures
            *r == (LoginAccount { control_check_status: v, ..*old(self) }),
            *final(self) == *final(r),
    {
        self.control_check_status = v;
        self
    }

    /// Whether the server logs the client out on its own.
    pub fn auto_logout(&mut self, v: bool) -> (r: &mut Self)
        ensures
            *r == (LoginAccount { auto_logout: v, ..*old(self) }),
            *final(self) == *final(r),
    {
        self.auto_logout = v;
        self
    }

    /// Whether the client runs in broadcast mode.
    pub fn broadcast_mode(&mut self, v: bool) -> (r: &mut Self)
        ensures
            *r == (LoginAccount { broadcast_mode: v, ..*old(self) }),
            *final(self) == *final(r),
    {
        self.broadcast_mode = v;
        self
    }

    /// Nonce that closes the packet.
    pub fn random(&mut self, v: u16) -> (r: &mut Self)
        ensures
            *r == (LoginAccount { random: v, ..*old(self) }),
            *final(self) == *final(r),
    {
        self.random = v;
        self
    }

    /// Option word of the authentication extension.
    pub fn auth_extra_option(&mut self, v: u16) -> (r: &mut Self)
        ensures
            *r == (LoginAccount { auth_extra_option: v, ..*old(self) }),
            *final(self) == *final(r),
    {
        self.auth_extra_option = v;
        self
    }

    /// Chooses the rotated trailer layout (`true`) or the legacy one.
    pub fn ror_version(&mut self, v: bool) -> (r: &mut Self)
        ensures
            *r == (LoginAccount { ror_version: v, ..*old(self) }),
            *final(self) == *final(r),
    {
        self.ror_version = v;
        self
    }

    /// Addresses announced in the login packet, in order (at most four fit).
    pub fn ipaddresses(&mut self, v: &[[u8; 4]]) -> (r: &mut Self)
        ensures
            r.ipaddresses@ == v@,
            *r == (LoginAccount { ipaddresses: r.ipaddresses, ..*old(self) }),
            *final(self) == *final(r),
    {
        self.ipaddresses = copy_ips(v);
        self
    }

    /// Host name (at most 32 bytes fit).
    pub fn hostname(&mut self, v: String) -> (r: &mut Self)
        ensures
            r.hostname@ == encode_utf8(v@),
            *r == (LoginAccount { hostname: r.hostname, ..*old(self) }),
            *final(self) == *final(r),
    {
        self.hostname = bytes_of(v.as_str().as_bytes());
        self
    }

    /// Operating-system service-pack string (at most 32 bytes fit).
    pub fn service_pack(&mut self, v: String) -> (r: &mut Self)
        ensures
            r.service_pack@ == encode_utf8(v@),
            *r == (LoginAccount { service_pack: r.service_pack, ..*old(self) }),
            *final(self) == *final(r),
    {
        self.service_pack = bytes_of(v.as_str().as_bytes());
        self
    }

    /// Which field, if any, does not fit.
    pub fn check(&self) -> (r: Result<(), Field>)
        ensures
            r is Ok <==> self.fits(),
            r is Err ==> r->Err_0 == self.overflowing_field(),
    {
        if self.username.len() > USERNAME_CAP {
            Err(Field::Username)
        } else if self.ipaddresses.len() > IP_SLOTS {
            Err(Field::IpAddresses)
        } else if self.hostname.len() > HOSTNAME_CAP {
            Err(Field::Hostname)
        } else if self.service_pack.len() > SERVICE_PACK_CAP {
            Err(Field::ServicePack)
        } else {
            Ok(())
        }
    }

    /// Snapshot of the account, or the first field that does not fit.
    pub fn login_request(&self) -> (r: Result<LoginRequest, DialerError>)
        ensures
            self.fits() ==> r is Ok && r->Ok_0.account.same_as(*self),
            !self.fits() ==> r == Err::<LoginRequest, DialerError>(
                DialerError::SerializationError(self.overflowing_field()),
            ),
    {
        match self.check() {
            Ok(()) => Ok(LoginRequest { account: self.snapshot() }),
            Err(f) => Err(DialerError::SerializationError(f)),
        }
    }

    /// The login packet of an account whose fields all fit.
    pub fn encode(&self) -> (r: Vec<u8>)
        requires
            self.fits(),
        ensures
            r@ == self.wire(),
    {
        let mut pre: Vec<u8> = Vec::new();
        pre.push(3u8);
        pre.push(1u8);
        push_bytes(&mut pre, self.hash_salt.as_slice());
        push_bytes(&mut pre, self.password.as_slice());
        assert(pre@ =~= seq![3u8, 1u8] + self.hash_salt@ + self.password@);
        let pd = md5(pre.as_slice());
        let mut pre2: Vec<u8> = Vec::new();
        pre2.push(1u8);
        push_bytes(&mut pre2, self.password.as_slice());
        push_bytes(&mut pre2, self.hash_salt.as_slice());
        push_zeros(&mut pre2, 4);
        assert(pre2@ =~= seq![1u8] + self.password@ + self.hash_salt@ + zeros(4));
        let sd = md5(pre2.as_slice());
        let address = self.address_section_bytes(pd.as_slice(), sd.as_slice());
        let mut pre3: Vec<u8> = bytes_of(address.as_slice());
        pre3.push(0x14u8);
        pre3.push(0u8);
        pre3.push(7u8);
        pre3.push(0x0bu8);
        assert(pre3@ =~= Self::address_check_input(address@));
        let cd = md5(pre3.as_slice());
        self.packet_from_digests(address.as_slice(), cd.as_slice(), pd.as_slice())
    }

    /// The address section built from the primary digest `pd` and the
    /// secondary digest `sd`.
    pub fn address_section_bytes(&self, pd: &[u8], sd: &[u8]) -> (r: Vec<u8>)
        requires
            self.fits(),
            pd@.len() == 16,
            sd@.len() == 16,
        ensures
            r@ == self.address_section_of(pd@, sd@),
            r@.len() == 97,
    {
        proof {
            lemma_ip_bytes_len(self.ipaddresses@);
        }
        let mut d: Vec<u8> = Vec::new();
        d.push(LOGIN_REQUEST_TAG);
        d.push(1u8);
        d.push(0u8);
        d.push((self.username.len() + 20) as u8);
        push_bytes(&mut d, pd);
        push_padded(&mut d, self.username.as_slice(), USERNAME_CAP);
        d.push(self.control_check_status);
        d.push(self.adapter_count);
        let masked = xor_prefix(pd, self.mac_address.as_slice(), 6);
        push_bytes(&mut d, masked.as_slice());
        push_bytes(&mut d, sd);
        d.push(self.ipaddresses.len() as u8);
        let ghost before_ips = d@;
        let mut i: usize = 0;
        while i < self.ipaddresses.len()
            invariant
                i <= self.ipaddresses@.len(),
                d@ == before_ips + ip_bytes(self.ipaddresses@.subrange(0, i as int)),
            decreases self.ipaddresses@.len() - i,
        {
            let ip: [u8; 4] = self.ipaddresses[i];
            push_bytes(&mut d, ip.as_slice());
            assert(self.ipaddresses@.subrange(0, i + 1).drop_last() =~= self.ipaddresses@.subrange(
                0,
                i as int,
            ));
            i = i + 1;
        }
        assert(self.ipaddresses@.subrange(0, self.ipaddresses@.len() as int)
            =~= self.ipaddresses@);
        push_zeros(&mut d, 4 * (IP_SLOTS - self.ipaddresses.len()));
        assert(d@ =~= self.address_section_of(pd@, sd@));
        d
    }

    /// The login packet from its address section, the digest `cd` of that
    /// section and the primary digest `pd`.
    pub fn packet_from_digests(&self, address: &[u8], cd: &[u8], pd: &[u8]) -> (r: Vec<u8>)
        requires
            self.fits(),
            address@.len() == 97,
            cd@.len() == 16,
            pd@.len() == 16,
        ensures
            r@ == self.wire_of(address@, cd@, pd@),
    {
        proof {
            self.lemma_fixed_section_of_len(address@, cd@);
        }
        let mut d: Vec<u8> = bytes_of(address);
        push_prefix(&mut d, cd, 8);
        d.push(self.dog_flag);
        push_zeros(&mut d, 4);
        push_padded(&mut d, self.hostname.as_slice(), HOSTNAME_CAP);
        let dns: [u8; 4] = [114u8, 114u8, 114u8, 114u8];
        assert(dns@ =~= primary_dns());
        push_bytes(&mut d, dns.as_slice());
        push_zeros(&mut d, 16);
        let os: Vec<u8> = vec![
            0x94u8, 0u8, 0u8, 0u8, 5u8, 0u8, 0u8, 0u8, 1u8, 0u8, 0u8, 0u8, 0x28u8, 0x0au8, 0u8,
            0u8, 2u8, 0u8, 0u8, 0u8,
        ];
        assert(os@ =~= os_info());
        push_bytes(&mut d, os.as_slice());
        push_padded(&mut d, self.service_pack.as_slice(), SERVICE_PACK_CAP);
        push_zeros(&mut d, 96);
        d.push(self.client_version);
        d.push(self.dog_version);
        assert(d@ =~= self.fixed_section_of(address@, cd@));
        if self.ror_version {
            d.push(0u8);
            d.push((self.password.len() % 256) as u8);
            let rotated = ror(pd, self.password.as_slice());
            push_bytes(&mut d, rotated.as_slice());
        }
        d.push(2u8);
        d.push(12u8);
        assert(d@ =~= self.body_of(address@, cd@, pd@));
        let mut pre4: Vec<u8> = bytes_of(d.as_slice());
        pre4.push(1u8);
        pre4.push(0x26u8);
        pre4.push(7u8);
        pre4.push(0x11u8);
        push_le16(&mut pre4, self.auth_extra_option);
        push_bytes(&mut pre4, self.mac_address.as_slice());
        assert(pre4@ =~= self.body_of(address@, cd@, pd@) + seq![1u8, 0x26u8, 7u8, 0x11u8] + le16(
            self.auth_extra_option,
        ) + self.mac_address@);
        let sum = checksum(pre4.as_slice());
        push_bytes(&mut d, sum.as_slice());
        push_le16(&mut d, self.auth_extra_option);
        push_bytes(&mut d, self.mac_address.as_slice());
        d.push(if self.auto_logout { 1u8 } else { 0u8 });
        d.push(if self.broadcast_mode { 1u8 } else { 0u8 });
        push_le16(&mut d, self.random);
        assert(d@ =~= self.wire_of(address@, cd@, pd@));
        d
    }
}

/// A login snapshot taken from an account whose fields fit.
#[derive(Debug, Clone)]
pub struct LoginRequest {
    pub account: LoginAccount,
}

impl LoginRequest {
    /// The login packet, or the first field of the snapshot that does not fit.
    pub fn as_bytes(&self) -> (r: Result<Vec<u8>, DialerError>)
        ensures
            self.account.fits() ==> r is Ok && r->Ok_0@ == self.account.wire(),
            !self.account.fits() ==> r == Err::<Vec<u8>, DialerError>(
                DialerError::SerializationError(self.account.overflowing_field()),
            ),
    {
        match self.account.check() {
            Ok(()) => Ok(self.account.encode()),
            Err(f) => Err(DialerError::SerializationError(f)),
        }
    }
}

/// For an account whose fields fit their slots (the username at most 36 bytes),
/// both trailer layouts encode without overflow, and the two packets agree on
/// their first 312 bytes (header, digests, username, addresses and host
/// description): they differ only in the trailing section.
pub proof fn lemma_layouts_share_fixed_section(a: LoginAccount)
    requires
        a.username@.len() <= USERNAME_CAP,
        a.hostname@.len() <= HOSTNAME_CAP,
        a.service_pack@.len() <= SERVICE_PACK_CAP,
        a.ipaddresses@.len() <= IP_SLOTS,
    ensures
        a.with_ror(true).fits(),
        a.with_ror(false).fits(),
        a.with_ror(true).wire().len() > LOGIN_FIXED_LEN,
        a.with_ror(false).wire().len() > LOGIN_FIXED_LEN,
        a.with_ror(true).wire().subrange(0, LOGIN_FIXED_LEN as int) == a.with_ror(
            false,
        ).wire().subrange(0, LOGIN_FIXED_LEN as int),
        a.with_ror(true).wire().subrange(0, 20) == a.with_ror(false).wire().subrange(0, 20),
        a.with_ror(true).wire().subrange(20, 56) == zero_pad(a.username@, USERNAME_CAP as nat),
        a.with_ror(false).wire().subrange(20, 56) == zero_pad(a.username@, USERNAME_CAP as nat),
{
    let r = a.with_ror(true);
    let l = a.with_ror(false);
    r.lemma_fixed_section_len();
    l.lemma_fixed_section_len();
    assert(r.fixed_section() == l.fixed_section());
    assert(r.wire().subrange(0, LOGIN_FIXED_LEN as int) =~= r.fixed_section());
    assert(l.wire().subrange(0, LOGIN_FIXED_LEN as int) =~= l.fixed_section());
    assert(r.wire().subrange(0, 20) =~= r.fixed_section().subrange(0, 20));
    assert(l.wire().subrange(0, 20) =~= l.fixed_section().subrange(0, 20));
    assert(r.wire().subrange(20, 56) =~= zero_pad(a.username@, USERNAME_CAP as nat));
    assert(l.wire().subrange(20, 56) =~= zero_pad(a.username@, USERNAME_CAP as nat));
}

} // verus!
