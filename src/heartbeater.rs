//! The two heartbeat families that keep a session alive: phase one renews the
//! server's liveness timer, phase two carries the rotating key and sequence.

use vstd::prelude::*;
use vstd::string::StringSliceAdditionalSpecFns;
use crate::digest::{md5, md5_block};
use crate::dialer::Mismatch;
use crate::wire::{bytes_of, le32, le32_bytes, push_bytes, push_zeros, zeros};

verus! {

pub const PHASE_ONE_MARKER: u8 = 0xff;
pub const HEARTBEAT_REPLY_TAG: u8 = 0x07;
pub const PHASE_TWO_TAG: u8 = 0x07;
/// Second tag byte of a phase-two reply, the family's packet length.
pub const PHASE_TWO_SUB_TAG: u8 = 0x28;
pub const PHASE_TWO_LEN: usize = 40;
pub const PHASE_ONE_REPLY_MIN_LEN: usize = 9;
pub const PHASE_TWO_REPLY_MIN_LEN: usize = 20;

/// Whether a phase-two packet opens the session's handshake.
#[derive(Debug, Clone, Copy, PartialEq, Eq, Structural)]
pub enum HeartbeatFlag {
    First,
    NotFirst,
}

/// A heartbeat reply that must be discarded.
#[derive(Debug, Clone, Copy, PartialEq, Eq, Structural)]
pub enum HeartbeatError {
    /// The datagram failed structural validation.
    ValidateError(Mismatch),
}

/// The renewal tag as written (none is written as zero).
pub open spec fn renewal_value(renewal: Option<u32>) -> u32 {
    match renewal {
        Some(t) => t,
        None => 0u32,
    }
}

/// The phase-one datagram for a salt, password, key and renewal tag.
pub open spec fn phase_one_wire(
    hash_salt: Seq<u8>,
    password: Seq<u8>,
    keep_alive_key: Seq<u8>,
    renewal: Option<u32>,
) -> Seq<u8> {
    phase_one_wire_of(md5_block(seq![3u8, 1u8] + hash_salt + password), keep_alive_key, renewal)
}

/// The phase-one datagram around a password digest: marker, digest, one
/// zero, the key, the renewal tag little-endian, two zeros.
pub open spec fn phase_one_wire_of(digest: Seq<u8>, keep_alive_key: Seq<u8>, renewal: Option<u32>) -> Seq<u8> {
    seq![PHASE_ONE_MARKER] + digest + zeros(1) + keep_alive_key + le32(renewal_value(renewal))
        + zeros(2)
}

/// The phase-one datagram around the password digest `digest`.
pub fn phase_one_packet(digest: &[u8], keep_alive_key: &[u8], renewal: Option<u32>) -> (r: Vec<u8>)
    ensures
        r@ == phase_one_wire_of(digest@, keep_alive_key@, renewal),
        r@.len() == digest@.len() + keep_alive_key@.len() + 8,
{
    let mut r: Vec<u8> = Vec::new();
    r.push(PHASE_ONE_MARKER);
    push_bytes(&mut r, digest);
    push_zeros(&mut r, 1);
    push_bytes(&mut r, keep_alive_key);
    let tag: u32 = match renewal {
        Some(t) => t,
        None => 0u32,
    };
    let stamp = le32_bytes(tag);
    push_bytes(&mut r, stamp.as_slice());
    push_zeros(&mut r, 2);
    assert(r@ =~= phase_one_wire_of(digest@, keep_alive_key@, renewal));
    r
}

/// A phase-one heartbeat.
#[derive(Debug, Clone)]
pub struct PhaseOneRequest {
    pub hash_salt: [u8; 4],
    pub password: Vec<u8>,
    pub keep_alive_key: Vec<u8>,
    pub renewal: Option<u32>,
}

impl PhaseOneRequest {
    /// Marker, digest of 0x03 0x01 + salt + password, one zero, the key, the
    /// renewal tag little-endian, two zeros.
    pub open spec fn wire(self) -> Seq<u8> {
        phase_one_wire(self.hash_salt@, self.password@, self.keep_alive_key@, self.renewal)
    }

    pub fn new(hash_salt: [u8; 4], password: &str, keep_alive_key: &[u8], renewal: Option<u32>) -> (r: Self)
        ensures
            r.hash_salt == hash_salt,
            r.password@ == password.spec_bytes(),
            r.keep_alive_key@ == keep_alive_key@,
            r.renewal == renewal,
    {
        PhaseOneRequest {
            hash_salt,
            password: bytes_of(password.as_bytes()),
            keep_alive_key: bytes_of(keep_alive_key),
            renewal,
        }
    }

    pub fn as_bytes(&self) -> (r: Vec<u8>)
        ensures
            r@ == self.wire(),
            r@.len() == 24 + self.keep_alive_key@.len(),
    {
        let mut pre: Vec<u8> = Vec::new();
        pre.push(3u8);
        pre.push(1u8);
        push_bytes(&mut pre, self.hash_salt.as_slice());
        push_bytes(&mut pre, self.password.as_slice());
        assert(pre@ =~= seq![3u8, 1u8] + self.hash_salt@ + self.password@);
        let digest = md5(pre.as_slice());
        phase_one_packet(digest.as_slice(), self.keep_alive_key.as_slice(), self.renewal)
    }
}

/// An accepted phase-one reply, kept as received.
#[derive(Debug, Clone)]
pub struct PhaseOneResponse {
    pub bytes: Vec<u8>,
}

impl PhaseOneResponse {
    /// At least 9 bytes under the heartbeat-reply tag.
    pub fn from_bytes(b: &[u8]) -> (r: Result<PhaseOneResponse, HeartbeatError>)
        ensures
            b@.len() < PHASE_ONE_REPLY_MIN_LEN ==> r == Err::<PhaseOneResponse, HeartbeatError>(
                HeartbeatError::ValidateError(Mismatch::TooShort),
            ),
            b@.len() >= PHASE_ONE_REPLY_MIN_LEN && b@[0] != HEARTBEAT_REPLY_TAG ==> r == Err::<
                PhaseOneResponse,
                HeartbeatError,
            >(HeartbeatError::ValidateError(Mismatch::WrongTag)),
            b@.len() >= PHASE_ONE_REPLY_MIN_LEN && b@[0] == HEARTBEAT_REPLY_TAG ==> r is Ok
                && r->Ok_0.bytes@ == b@,
    {
        if b.len() < PHASE_ONE_REPLY_MIN_LEN {
            return Err(HeartbeatError::ValidateError(Mismatch::TooShort));
        }
        if b[0] != HEARTBEAT_REPLY_TAG {
            return Err(HeartbeatError::ValidateError(Mismatch::WrongTag));
        }
        Ok(PhaseOneResponse { bytes: bytes_of(b) })
    }
}

/// The step byte as written (none is step one).
pub open spec fn step_value(step: Option<u8>) -> u8 {
    match step {
        Some(s) => s,
        None => 1u8,
    }
}

/// The two flag bytes of a phase-two packet.
pub open spec fn flag_bytes(flag: HeartbeatFlag) -> Seq<u8> {
    match flag {
        HeartbeatFlag::First => seq![0x0fu8, 0x27u8],
        HeartbeatFlag::NotFirst => seq![0xdcu8, 0x02u8],
    }
}

/// The host-address slot: the address once the handshake is open, else zeros.
pub open spec fn ip_slot(flag: HeartbeatFlag, host_ip: Seq<u8>) -> Seq<u8> {
    match flag {
        HeartbeatFlag::First => zeros(4),
        HeartbeatFlag::NotFirst => host_ip,
    }
}

/// A phase-two heartbeat.
#[derive(Debug, Clone, Copy, PartialEq, Eq)]
pub struct PhaseTwoRequest {
    pub sequence: u8,
    pub keep_alive_key: [u8; 4],
    pub flag: HeartbeatFlag,
    pub host_ip: [u8; 4],
    pub step: Option<u8>,
}

impl PhaseTwoRequest {
    /// The 40-byte datagram: tag, sequence, 0x28 0x00 0x0b, step, flag bytes,
    /// 0x2f 0x12, six zeros, key, eight zeros, the address slot, eight zeros.
    pub open spec fn wire(self) -> Seq<u8> {
        seq![PHASE_TWO_TAG, self.sequence, 0x28u8, 0u8, 0x0bu8, step_value(self.step)]
            + flag_bytes(self.flag) + seq![0x2fu8, 0x12u8] + zeros(6) + self.keep_alive_key@
            + zeros(8) + ip_slot(self.flag, self.host_ip@) + zeros(8)
    }

    pub fn new(
        sequence: u8,
        keep_alive_key: [u8; 4],
        flag: &HeartbeatFlag,
        host_ip: [u8; 4],
        step: Option<u8>,
    ) -> (r: Self)
        ensures
            r == (PhaseTwoRequest { sequence, keep_alive_key, flag: *flag, host_ip, step }),
    {
        PhaseTwoRequest { sequence, keep_alive_key, flag: *flag, host_ip, step }
    }

    pub fn as_bytes(&self) -> (r: Vec<u8>)
        ensures
            r@ == self.wire(),
            r@.len() == PHASE_TWO_LEN,
    {
        let mut r: Vec<u8> = Vec::new();
        r.push(PHASE_TWO_TAG);
        r.push(self.sequence);
        r.push(0x28u8);
        r.push(0u8);
        r.push(0x0bu8);
        r.push(
            match self.step {
                Some(s) => s,
                None => 1u8,
            },
        );
        match self.flag {
            HeartbeatFlag::First => {
                r.push(0x0fu8);
                r.push(0x27u8);
            },
            HeartbeatFlag::NotFirst => {
                r.push(0xdcu8);
                r.push(0x02u8);
            },
        }
        r.push(0x2fu8);
        r.push(0x12u8);
        push_zeros(&mut r, 6);
        push_bytes(&mut r, self.keep_alive_key.as_slice());
        push_zeros(&mut r, 8);
        match self.flag {
            HeartbeatFlag::First => push_zeros(&mut r, 4),
            HeartbeatFlag::NotFirst => push_bytes(&mut r, self.host_ip.as_slice()),
        }
        push_zeros(&mut r, 8);
        assert(r@ =~= self.wire());
        r
    }
}

/// Two phase-two requests that differ only in their step encode to packets
/// that differ only in the step byte (offset 5); a `First` request leaves the
/// address slot (offsets 28 to 31) zero whatever its step, and a `NotFirst`
/// request carries the host address there.
pub proof fn lemma_phase_two_layout(p: PhaseTwoRequest, step: Option<u8>)
    ensures
        ({
            let q = PhaseTwoRequest { step, ..p };
            &&& p.wire().len() == PHASE_TWO_LEN
            &&& q.wire().len() == PHASE_TWO_LEN
            &&& forall|i: int| 0 <= i < PHASE_TWO_LEN && i != 5 ==> p.wire()[i] == q.wire()[i]
            &&& q.wire()[5] == step_value(step)
        }),
        p.flag == HeartbeatFlag::First ==> p.wire().subrange(28, 32) == zeros(4),
        p.flag == HeartbeatFlag::NotFirst ==> p.wire().subrange(28, 32) == p.host_ip@,
{
    let q = PhaseTwoRequest { step, ..p };
    assert(p.wire().subrange(28, 32) =~= ip_slot(p.flag, p.host_ip@));
}

/// An accepted phase-two reply: the server's sequence and the next key.
#[derive(Debug, Clone, Copy, PartialEq, Eq)]
pub struct PhaseTwoResponse {
    pub sequence: u8,
    pub keep_alive_key: [u8; 4],
}

impl PhaseTwoResponse {
    /// At least 20 bytes, the heartbeat-reply tag first and 0x28 third; the
    /// sequence is byte 1 and the key bytes 16 to 19.
    pub fn from_bytes(b: &[u8]) -> (r: Result<PhaseTwoResponse, HeartbeatError>)
        ensures
            b@.len() < PHASE_TWO_REPLY_MIN_LEN ==> r == Err::<PhaseTwoResponse, HeartbeatError>(
                HeartbeatError::ValidateError(Mismatch::TooShort),
            ),
            b@.len() >= PHASE_TWO_REPLY_MIN_LEN && b@[0] != HEARTBEAT_REPLY_TAG ==> r == Err::<
                PhaseTwoResponse,
                HeartbeatError,
            >(HeartbeatError::ValidateError(Mismatch::WrongTag)),
            b@.len() >= PHASE_TWO_REPLY_MIN_LEN && b@[0] == HEARTBEAT_REPLY_TAG && b@[2]
                != PHASE_TWO_SUB_TAG ==> r == Err::<PhaseTwoResponse, HeartbeatError>(
                HeartbeatError::ValidateError(Mismatch::WrongSubTag),
            ),
            b@.len() >= PHASE_TWO_REPLY_MIN_LEN && b@[0] == HEARTBEAT_REPLY_TAG && b@[2]
                == PHASE_TWO_SUB_TAG ==> r is Ok && r->Ok_0.sequence == b@[1]
                && r->Ok_0.keep_alive_key@ == b@.subrange(16, 20),
    {
        if b.len() < PHASE_TWO_REPLY_MIN_LEN {
            return Err(HeartbeatError::ValidateError(Mismatch::TooShort));
        }
        if b[0] != HEARTBEAT_REPLY_TAG {
            return Err(HeartbeatError::ValidateError(Mismatch::WrongTag));
        }
        if b[2] != PHASE_TWO_SUB_TAG {
            return Err(HeartbeatError::ValidateError(Mismatch::WrongSubTag));
        }
        let keep_alive_key: [u8; 4] = [b[16], b[17], b[18], b[19]];
        assert(keep_alive_key@ =~= b@.subrange(16, 20));
        Ok(PhaseTwoResponse { sequence: b[1], keep_alive_key })
    }
}

} // verus!
