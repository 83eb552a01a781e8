//! The session state machine: which packet goes out next, given what came
//! back. The caller owns the socket and the clock; it performs each action and
//! hands back the resulting event.

use vstd::prelude::*;
use crate::dialer::{
    ChallengeRequest, ChallengeResponse, DialerError, LoginAccount, LoginResponse, Mismatch,
    CHALLENGE_REPLY_MIN_LEN, CHALLENGE_REPLY_TAG, LOGIN_REPLY_MIN_LEN, LOGIN_REPLY_TAG,
};
use crate::heartbeater::{
    phase_one_wire, HeartbeatError, HeartbeatFlag, PhaseOneRequest, PhaseOneResponse,
    PhaseTwoRequest, PhaseTwoResponse, HEARTBEAT_REPLY_TAG, PHASE_ONE_REPLY_MIN_LEN,
    PHASE_TWO_REPLY_MIN_LEN, PHASE_TWO_SUB_TAG,
};
use crate::wire::bytes_of;

verus! {

/// The phase-two sequence counter stays below this value and wraps to zero.
pub const SEQUENCE_MODULUS: u8 = 0x7f;
/// How many times an unanswered packet is sent again before the session gives up.
pub const MAX_RETRIES: u32 = 5;
/// Seconds between two heartbeat rounds.
pub const HEARTBEAT_INTERVAL: u64 = 20;

/// How far the session has come; each stage names the exchange last completed,
/// and the packet that follows it is the one outstanding.
#[derive(Debug, Clone, Copy, PartialEq, Eq, Structural)]
pub enum Stage {
    Idle,
    Challenged,
    LoggedIn,
    Phase1Sent,
    Phase2Step1,
    Phase2Step3,
    SteadyHeartbeat,
}

/// Which exchange of a steady heartbeat round is outstanding.
#[derive(Debug, Clone, Copy, PartialEq, Eq, Structural)]
pub enum Round {
    Resting,
    PhaseOne,
    StepOne,
    StepThree,
}

/// Why a session ended.
#[derive(Debug, Clone, Copy, PartialEq, Eq, Structural)]
pub enum Failure {
    /// The challenge reply did not decode: no salt, no login.
    Challenge(DialerError),
    /// The login packet could not be built or its reply did not decode.
    Login(DialerError),
    /// The first phase-one reply did not decode.
    PhaseOne(HeartbeatError),
    /// A packet went unanswered through every retry.
    NoReply(Stage),
    /// The session had already ended.
    Closed,
}

/// What the caller does next.
#[derive(Debug, Clone, PartialEq, Eq)]
pub enum Action {
    /// Send this datagram, then wait for a reply.
    Send(Vec<u8>),
    /// Drop the datagram just received and keep waiting.
    Listen,
    /// Wait this many seconds, then report a tick.
    Sleep(u64),
    /// End the session.
    Abort(Failure),
}

/// The sequence number after `s`.
pub open spec fn next_seq(s: u8) -> u8 {
    ((s as int + 1) % SEQUENCE_MODULUS as int) as u8
}

/// The sequence number two after `s`.
pub open spec fn seq_after_round(s: u8) -> u8 {
    ((s as int + 2) % SEQUENCE_MODULUS as int) as u8
}

/// `b` is long enough and carries `tag` first.
pub open spec fn tagged(b: Seq<u8>, min: nat, tag: u8) -> bool {
    b.len() >= min && b[0] == tag
}

/// Why `b` failed a length-and-tag check.
pub open spec fn mismatch_of(b: Seq<u8>, min: nat) -> Mismatch {
    if b.len() < min {
        Mismatch::TooShort
    } else {
        Mismatch::WrongTag
    }
}

/// `b` decodes as a phase-two reply.
pub open spec fn phase_two_valid(b: Seq<u8>) -> bool {
    tagged(b, PHASE_TWO_REPLY_MIN_LEN as nat, HEARTBEAT_REPLY_TAG) && b[2] == PHASE_TWO_SUB_TAG
}

/// The phase-two datagram for these values.
pub open spec fn p2_wire(key: [u8; 4], host_ip: [u8; 4], seq: u8, flag: HeartbeatFlag, step: u8) -> Seq<u8> {
    (PhaseTwoRequest { sequence: seq, keep_alive_key: key, flag, host_ip, step: Some(step) }).wire()
}

/// The state of one session.
#[derive(Debug)]
pub struct Session {
    pub account: LoginAccount,
    pub host_ip: [u8; 4],
    pub stage: Stage,
    pub round: Round,
    /// Key handed out by the login reply, echoed by phase-one heartbeats.
    pub login_key: [u8; 6],
    pub sequence: u8,
    /// Key of the last accepted phase-two reply.
    pub keep_alive_key: [u8; 4],
    /// Times the outstanding packet has been sent again.
    pub retries: u32,
    /// The packet last sent, sent again when no reply comes.
    pub outstanding: Vec<u8>,
    pub closed: bool,
}

impl Session {
    /// The sequence counter is in range.
    pub open spec fn wf(self) -> bool {
        self.sequence < SEQUENCE_MODULUS
    }

    /// The phase-one datagram of this session.
    pub open spec fn phase_one_packet(self) -> Seq<u8> {
        phase_one_wire(self.account.hash_salt@, self.account.password@, self.login_key@, None)
    }

    /// `r` sends `bytes`, which became the outstanding packet with no retries.
    pub open spec fn sent(self, r: Action, bytes: Seq<u8>) -> bool {
        &&& r is Send
        &&& r->Send_0@ == bytes
        &&& self.outstanding@ == bytes
        &&& self.retries == 0
    }

    /// `n` is `self` closed, and `r` aborts with `f`.
    pub open spec fn aborted_to(self, n: Session, r: Action, f: Failure) -> bool {
        &&& n == (Session { closed: true, ..self })
        &&& r == Action::Abort(f)
    }

    /// Reply to the challenge (stage `Idle`).
    pub open spec fn challenge_step(self, n: Session, b: Seq<u8>, r: Action) -> bool {
        if tagged(b, CHALLENGE_REPLY_MIN_LEN as nat, CHALLENGE_REPLY_TAG) {
            &&& n.account.hash_salt@ == b.subrange(4, 8)
            &&& n.account == (LoginAccount { hash_salt: n.account.hash_salt, ..self.account })
            &&& if n.account.fits() {
                &&& n == (Session {
                    stage: Stage::Challenged,
                    account: n.account,
                    outstanding: n.outstanding,
                    retries: 0,
                    ..self
                })
                &&& n.sent(r, n.account.wire())
            } else {
                (Session { account: n.account, ..self }).aborted_to(
                    n,
                    r,
                    Failure::Login(DialerError::SerializationError(n.account.overflowing_field())),
                )
            }
        } else {
            self.aborted_to(
                n,
                r,
                Failure::Challenge(
                    DialerError::ProtocolMismatch(mismatch_of(b, CHALLENGE_REPLY_MIN_LEN as nat)),
                ),
            )
        }
    }

    /// Reply to the login (stage `Challenged`).
    pub open spec fn login_step(self, n: Session, b: Seq<u8>, r: Action) -> bool {
        if tagged(b, LOGIN_REPLY_MIN_LEN as nat, LOGIN_REPLY_TAG) {
            &&& n == (Session {
                stage: Stage::LoggedIn,
                login_key: n.login_key,
                outstanding: n.outstanding,
                retries: 0,
                ..self
            })
            &&& n.login_key@ == b.subrange(23, 29)
            &&& n.sent(r, n.phase_one_packet())
        } else {
            self.aborted_to(
                n,
                r,
                Failure::Login(DialerError::ProtocolMismatch(mismatch_of(b, LOGIN_REPLY_MIN_LEN as nat))),
            )
        }
    }

    /// Reply to the first phase-one heartbeat (stage `LoggedIn`).
    pub open spec fn phase_one_step(self, n: Session, b: Seq<u8>, r: Action) -> bool {
        if tagged(b, PHASE_ONE_REPLY_MIN_LEN as nat, HEARTBEAT_REPLY_TAG) {
            &&& n == (Session {
                stage: Stage::Phase1Sent,
                outstanding: n.outstanding,
                retries: 0,
                ..self
            })
            &&& n.sent(r, p2_wire(n.keep_alive_key, n.host_ip, n.sequence, HeartbeatFlag::First, 1))
        } else {
            self.aborted_to(
                n,
                r,
                Failure::PhaseOne(
                    HeartbeatError::ValidateError(mismatch_of(b, PHASE_ONE_REPLY_MIN_LEN as nat)),
                ),
            )
        }
    }

    /// Reply to the opening phase-two packet (stage `Phase1Sent`): a reply for
    /// sequence zero or for ours is accepted; another one moves our sequence on
    /// and the opening packet is sent again.
    pub open spec fn first_step(self, n: Session, b: Seq<u8>, r: Action) -> bool {
        if !phase_two_valid(b) {
            n == self && r is Listen
        } else if b[1] == 0 || b[1] == self.sequence {
            &&& n == (Session {
                stage: Stage::Phase2Step1,
                outstanding: n.outstanding,
                retries: 0,
                ..self
            })
            &&& n.sent(r, p2_wire(n.keep_alive_key, n.host_ip, n.sequence, HeartbeatFlag::NotFirst, 1))
        } else {
            &&& n == (Session {
                sequence: next_seq(self.sequence),
                outstanding: n.outstanding,
                retries: 0,
                ..self
            })
            &&& n.sent(r, p2_wire(n.keep_alive_key, n.host_ip, n.sequence, HeartbeatFlag::First, 1))
        }
    }

    /// Reply to a pairing phase-two packet (stage `Phase2Step1` or
    /// `Phase2Step3`): the key is taken and the sequence moves on; after the
    /// first pairing the closing packet (step three) goes out, after the
    /// second the session rests until the next heartbeat round.
    pub open spec fn pairing_step(self, n: Session, b: Seq<u8>, r: Action) -> bool {
        if !phase_two_valid(b) {
            n == self && r is Listen
        } else if self.stage == Stage::Phase2Step1 {
            &&& n == (Session {
                stage: Stage::Phase2Step3,
                sequence: next_seq(self.sequence),
                keep_alive_key: n.keep_alive_key,
                outstanding: n.outstanding,
                retries: 0,
                ..self
            })
            &&& n.keep_alive_key@ == b.subrange(16, 20)
            &&& n.sent(r, p2_wire(n.keep_alive_key, n.host_ip, n.sequence, HeartbeatFlag::NotFirst, 3))
        } else {
            &&& n == (Session {
                stage: Stage::SteadyHeartbeat,
                round: Round::Resting,
                sequence: next_seq(self.sequence),
                keep_alive_key: n.keep_alive_key,
                ..self
            })
            &&& n.keep_alive_key@ == b.subrange(16, 20)
            &&& r == Action::Sleep(HEARTBEAT_INTERVAL)
        }
    }

    /// A reply during the steady heartbeat: phase one, then step one with
    /// the current sequence, then step three with the next; each valid reply
    /// takes the key it carries, and a round moves the sequence on by two.
    /// Anything else is dropped.
    pub open spec fn steady_step(self, n: Session, b: Seq<u8>, r: Action) -> bool {
        match self.round {
            Round::Resting => n == self && r is Listen,
            Round::PhaseOne => if tagged(b, PHASE_ONE_REPLY_MIN_LEN as nat, HEARTBEAT_REPLY_TAG) {
                &&& n == (Session {
                    round: Round::StepOne,
                    outstanding: n.outstanding,
                    retries: 0,
                    ..self
                })
                &&& n.sent(r, p2_wire(n.keep_alive_key, n.host_ip, n.sequence, HeartbeatFlag::NotFirst, 1))
            } else {
                n == self && r is Listen
            },
            Round::StepOne => if phase_two_valid(b) {
                &&& n == (Session {
                    round: Round::StepThree,
                    keep_alive_key: n.keep_alive_key,
                    outstanding: n.outstanding,
                    retries: 0,
                    ..self
                })
                &&& n.keep_alive_key@ == b.subrange(16, 20)
                &&& n.sent(
                    r,
                    p2_wire(n.keep_alive_key, n.host_ip, next_seq(n.sequence), HeartbeatFlag::NotFirst, 3),
                )
            } else {
                n == self && r is Listen
            },
            Round::StepThree => if phase_two_valid(b) {
                &&& n == (Session {
                    round: Round::Resting,
                    sequence: seq_after_round(self.sequence),
                    keep_alive_key: n.keep_alive_key,
                    ..self
                })
                &&& n.keep_alive_key@ == b.subrange(16, 20)
                &&& r == Action::Sleep(HEARTBEAT_INTERVAL)
            } else {
                n == self && r is Listen
            },
        }
    }

    /// What a reply `b` does to the session in its current stage.
    pub open spec fn reply_step(self, n: Session, b: Seq<u8>, r: Action) -> bool {
        if self.closed {
            n == self && r == Action::Abort(Failure::Closed)
        } else {
            match self.stage {
                Stage::Idle => self.challenge_step(n, b, r),
                Stage::Challenged => self.login_step(n, b, r),
                Stage::LoggedIn => self.phase_one_step(n, b, r),
                Stage::Phase1Sent => self.first_step(n, b, r),
                Stage::Phase2Step1 => self.pairing_step(n, b, r),
                Stage::Phase2Step3 => self.pairing_step(n, b, r),
                Stage::SteadyHeartbeat => self.steady_step(n, b, r),
            }
        }
    }
}

impl Session {
    /// A fresh session in the `Idle` stage, with sequence zero and a zero key.
    pub fn new(account: LoginAccount, host_ip: [u8; 4]) -> (r: Session)
        ensures
            r.account == account,
            r.host_ip == host_ip,
            r.stage == Stage::Idle,
            r.round == Round::Resting,
            r.login_key@ == seq![0u8, 0u8, 0u8, 0u8, 0u8, 0u8],
            r.sequence == 0,
            r.keep_alive_key@ == seq![0u8, 0u8, 0u8, 0u8],
            r.retries == 0,
            r.outstanding@.len() == 0,
            !r.closed,
            r.wf(),
    {
        let login_key: [u8; 6] = [0u8; 6];
        let keep_alive_key: [u8; 4] = [0u8; 4];
        assert(login_key@ =~= seq![0u8, 0u8, 0u8, 0u8, 0u8, 0u8]);
        assert(keep_alive_key@ =~= seq![0u8, 0u8, 0u8, 0u8]);
        Session {
            account,
            host_ip,
            stage: Stage::Idle,
            round: Round::Resting,
            login_key,
            sequence: 0,
            keep_alive_key,
            retries: 0,
            outstanding: Vec::new(),
            closed: false,
        }
    }

    /// Sends `bytes` as the new outstanding packet.
    fn send(&mut self, bytes: Vec<u8>) -> (r: Action)
        ensures
            *final(self) == (Session {
                outstanding: final(self).outstanding,
                retries: 0,
                ..*old(self)
            }),
            final(self).sent(r, bytes@),
    {
        self.outstanding = bytes_of(bytes.as_slice());
        self.retries = 0;
        Action::Send(bytes)
    }

    /// Ends the session with `f`.
    fn close(&mut self, f: Failure) -> (r: Action)
        ensures
            old(self).aborted_to(*final(self), r, f),
    {
        self.closed = true;
        Action::Abort(f)
    }

    /// Sends a phase-two packet with the session's key and address.
    fn send_phase_two(&mut self, seq: u8, flag: HeartbeatFlag, step: u8) -> (r: Action)
        ensures
            *final(self) == (Session {
                outstanding: final(self).outstanding,
                retries: 0,
                ..*old(self)
            }),
            final(self).sent(r, p2_wire(old(self).keep_alive_key, old(self).host_ip, seq, flag, step)),
    {
        let req = PhaseTwoRequest::new(seq, self.keep_alive_key, &flag, self.host_ip, Some(step));
        let bytes = req.as_bytes();
        self.send(bytes)
    }

    /// The phase-one datagram of this session.
    fn phase_one_bytes(&self) -> (r: Vec<u8>)
        ensures
            r@ == self.phase_one_packet(),
    {
        let req = PhaseOneRequest {
            hash_salt: self.account.hash_salt,
            password: bytes_of(self.account.password.as_slice()),
            keep_alive_key: bytes_of(self.login_key.as_slice()),
            renewal: None,
        };
        req.as_bytes()
    }

    /// Opens the session by sending the challenge.
    pub fn start(&mut self) -> (r: Action)
        ensures
            old(self).closed ==> *final(self) == *old(self) && r == Action::Abort(Failure::Closed),
            !old(self).closed && old(self).stage != Stage::Idle ==> *final(self) == *old(self)
                && r is Listen,
            !old(self).closed && old(self).stage == Stage::Idle ==> *final(self) == (Session {
                outstanding: final(self).outstanding,
                retries: 0,
                ..*old(self)
            }) && final(self).sent(r, (ChallengeRequest { sequence: None }).wire()),
    {
        if self.closed {
            return Action::Abort(Failure::Closed);
        }
        if self.stage != Stage::Idle {
            return Action::Listen;
        }
        let bytes = ChallengeRequest::new(None).as_bytes();
        self.send(bytes)
    }

    fn on_challenge_reply(&mut self, b: &[u8]) -> (r: Action)
        requires
            !old(self).closed,
            old(self).stage == Stage::Idle,
        ensures
            old(self).challenge_step(*final(self), b@, r),
    {
        match ChallengeResponse::from_bytes(b) {
            Err(e) => self.close(Failure::Challenge(e)),
            Ok(c) => {
                self.account.hash_salt = c.hash_salt;
                match self.account.check() {
                    Err(f) => self.close(Failure::Login(DialerError::SerializationError(f))),
                    Ok(()) => {
                        let bytes = self.account.encode();
                        self.stage = Stage::Challenged;
                        self.send(bytes)
                    },
                }
            },
        }
    }

    fn on_login_reply(&mut self, b: &[u8]) -> (r: Action)
        requires
            !old(self).closed,
            old(self).stage == Stage::Challenged,
        ensures
            old(self).login_step(*final(self), b@, r),
    {
        match LoginResponse::from_bytes(b) {
            Err(e) => self.close(Failure::Login(e)),
            Ok(l) => {
                self.login_key = l.keep_alive_key;
                self.stage = Stage::LoggedIn;
                let bytes = self.phase_one_bytes();
                self.send(bytes)
            },
        }
    }

    fn on_phase_one_reply(&mut self, b: &[u8]) -> (r: Action)
        requires
            !old(self).closed,
            old(self).stage == Stage::LoggedIn,
        ensures
            old(self).phase_one_step(*final(self), b@, r),
    {
        match PhaseOneResponse::from_bytes(b) {
            Err(e) => self.close(Failure::PhaseOne(e)),
            Ok(_) => {
                self.stage = Stage::Phase1Sent;
                self.send_phase_two(self.sequence, HeartbeatFlag::First, 1)
            },
        }
    }

    fn on_first_reply(&mut self, b: &[u8]) -> (r: Action)
        requires
            !old(self).closed,
            old(self).stage == Stage::Phase1Sent,
        ensures
            old(self).first_step(*final(self), b@, r),
    {
        match PhaseTwoResponse::from_bytes(b) {
            Err(_) => Action::Listen,
            Ok(p) => {
                if p.sequence == 0 || p.sequence == self.sequence {
                    self.stage = Stage::Phase2Step1;
                    self.send_phase_two(self.sequence, HeartbeatFlag::NotFirst, 1)
                } else {
                    self.sequence = ((self.sequence as u16 + 1) % SEQUENCE_MODULUS as u16) as u8;
                    self.send_phase_two(self.sequence, HeartbeatFlag::First, 1)
                }
            },
        }
    }

    fn on_pairing_reply(&mut self, b: &[u8]) -> (r: Action)
        requires
            !old(self).closed,
            old(self).stage == Stage::Phase2Step1 || old(self).stage == Stage::Phase2Step3,
        ensures
            old(self).pairing_step(*final(self), b@, r),
    {
        match PhaseTwoResponse::from_bytes(b) {
            Err(_) => Action::Listen,
            Ok(p) => {
                self.keep_alive_key = p.keep_alive_key;
                self.sequence = ((self.sequence as u16 + 1) % SEQUENCE_MODULUS as u16) as u8;
                if self.stage == Stage::Phase2Step1 {
                    self.stage = Stage::Phase2Step3;
                    self.send_phase_two(self.sequence, HeartbeatFlag::NotFirst, 3)
                } else {
                    self.stage = Stage::SteadyHeartbeat;
                    self.round = Round::Resting;
                    Action::Sleep(HEARTBEAT_INTERVAL)
                }
            },
        }
    }

    fn on_steady_reply(&mut self, b: &[u8]) -> (r: Action)
        requires
            !old(self).closed,
            old(self).stage == Stage::SteadyHeartbeat,
        ensures
            old(self).steady_step(*final(self), b@, r),
    {
        match self.round {
            Round::Resting => Action::Listen,
            Round::PhaseOne => match PhaseOneResponse::from_bytes(b) {
                Err(_) => Action::Listen,
                Ok(_) => {
                    self.round = Round::StepOne;
                    self.send_phase_two(self.sequence, HeartbeatFlag::NotFirst, 1)
                },
            },
            Round::StepOne => match PhaseTwoResponse::from_bytes(b) {
                Err(_) => Action::Listen,
                Ok(p) => {
                    self.keep_alive_key = p.keep_alive_key;
                    self.round = Round::StepThree;
                    let next: u8 = ((self.sequence as u16 + 1) % SEQUENCE_MODULUS as u16) as u8;
                    self.send_phase_two(next, HeartbeatFlag::NotFirst, 3)
                },
            },
            Round::StepThree => match PhaseTwoResponse::from_bytes(b) {
                Err(_) => Action::Listen,
                Ok(p) => {
                    self.keep_alive_key = p.keep_alive_key;
                    self.round = Round::Resting;
                    self.sequence = ((self.sequence as u16 + 2) % SEQUENCE_MODULUS as u16) as u8;
                    Action::Sleep(HEARTBEAT_INTERVAL)
                },
            },
        }
    }

    /// Handles a datagram received while a packet is outstanding.
    pub fn on_reply(&mut self, reply: &[u8]) -> (r: Action)
        ensures
            old(self).reply_step(*final(self), reply@, r),
            old(self).wf() ==> final(self).wf(),
    {
        if self.closed {
            return Action::Abort(Failure::Closed);
        }
        match self.stage {
            Stage::Idle => self.on_challenge_reply(reply),
            Stage::Challenged => self.on_login_reply(reply),
            Stage::LoggedIn => self.on_phase_one_reply(reply),
            Stage::Phase1Sent => self.on_first_reply(reply),
            Stage::Phase2Step1 => self.on_pairing_reply(reply),
            Stage::Phase2Step3 => self.on_pairing_reply(reply),
            Stage::SteadyHeartbeat => self.on_steady_reply(reply),
        }
    }

    /// The heartbeat interval has passed: a resting session starts a round by
    /// sending phase one.
    pub fn on_tick(&mut self) -> (r: Action)
        ensures
            old(self).closed ==> *final(self) == *old(self) && r == Action::Abort(Failure::Closed),
            !old(self).closed && old(self).stage == Stage::SteadyHeartbeat && old(self).round
                == Round::Resting ==> *final(self) == (Session {
                round: Round::PhaseOne,
                outstanding: final(self).outstanding,
                retries: 0,
                ..*old(self)
            }) && final(self).sent(r, old(self).phase_one_packet()),
            !old(self).closed && !(old(self).stage == Stage::SteadyHeartbeat && old(self).round
                == Round::Resting) ==> *final(self) == *old(self) && r is Listen,
    {
        if self.closed {
            return Action::Abort(Failure::Closed);
        }
        if self.stage == Stage::SteadyHeartbeat && self.round == Round::Resting {
            self.round = Round::PhaseOne;
            let bytes = self.phase_one_bytes();
            self.send(bytes)
        } else {
            Action::Listen
        }
    }

    /// No reply came in time: the outstanding packet is sent again, up to
    /// `MAX_RETRIES` times, after which the session ends.
    pub fn on_timeout(&mut self) -> (r: Action)
        ensures
            old(self).closed ==> *final(self) == *old(self) && r == Action::Abort(Failure::Closed),
            !old(self).closed && old(self).stage == Stage::SteadyHeartbeat && old(self).round
                == Round::Resting ==> *final(self) == *old(self) && r is Listen,
            !old(self).closed && !(old(self).stage == Stage::SteadyHeartbeat && old(self).round
                == Round::Resting) && old(self).retries < MAX_RETRIES ==> *final(self) == (Session {
                retries: (old(self).retries + 1) as u32,
                ..*old(self)
            }) && r is Send && r->Send_0@ == old(self).outstanding@,
            !old(self).closed && !(old(self).stage == Stage::SteadyHeartbeat && old(self).round
                == Round::Resting) && old(self).retries >= MAX_RETRIES ==> old(self).aborted_to(
                *final(self),
                r,
                Failure::NoReply(old(self).stage),
            ),
    {
        if self.closed {
            return Action::Abort(Failure::Closed);
        }
        if self.stage == Stage::SteadyHeartbeat && self.round == Round::Resting {
            return Action::Listen;
        }
        if self.retries < MAX_RETRIES {
            self.retries = self.retries + 1;
            Action::Send(bytes_of(self.outstanding.as_slice()))
        } else {
            let stage = self.stage;
            self.close(Failure::NoReply(stage))
        }
    }
}

} // verus!

verus! {

/// A whole bootstrap: from an open `Idle` session whose account fits, a valid
/// challenge reply, login reply and phase-one reply, an opening phase-two
/// reply for sequence zero or ours, and two valid pairing replies leave the
/// session in `SteadyHeartbeat` with the sequence advanced by exactly two, the
/// key of the last reply, and a phase-one packet built from the salt and the
/// login key that the replies carried.
pub proof fn lemma_session_reaches_steady_heartbeat(
    s0: Session,
    s1: Session,
    s2: Session,
    s3: Session,
    s4: Session,
    s5: Session,
    s6: Session,
    b0: Seq<u8>,
    b1: Seq<u8>,
    b2: Seq<u8>,
    b3: Seq<u8>,
    b4: Seq<u8>,
    b5: Seq<u8>,
    r0: Action,
    r1: Action,
    r2: Action,
    r3: Action,
    r4: Action,
    r5: Action,
)
    requires
        s0.wf(),
        !s0.closed,
        s0.stage == Stage::Idle,
        s0.account.fits(),
        tagged(b0, CHALLENGE_REPLY_MIN_LEN as nat, CHALLENGE_REPLY_TAG),
        tagged(b1, LOGIN_REPLY_MIN_LEN as nat, LOGIN_REPLY_TAG),
        tagged(b2, PHASE_ONE_REPLY_MIN_LEN as nat, HEARTBEAT_REPLY_TAG),
        phase_two_valid(b3),
        b3[1] == 0 || b3[1] == s0.sequence,
        phase_two_valid(b4),
        phase_two_valid(b5),
        s0.reply_step(s1, b0, r0),
        s1.reply_step(s2, b1, r1),
        s2.reply_step(s3, b2, r2),
        s3.reply_step(s4, b3, r3),
        s4.reply_step(s5, b4, r4),
        s5.reply_step(s6, b5, r5),
    ensures
        s6.stage == Stage::SteadyHeartbeat,
        s6.round == Round::Resting,
        !s6.closed,
        s6.sequence == seq_after_round(s0.sequence),
        s6.keep_alive_key@ == b5.subrange(16, 20),
        r5 == Action::Sleep(HEARTBEAT_INTERVAL),
        s6.phase_one_packet() == phase_one_wire(
            b0.subrange(4, 8),
            s0.account.password@,
            b1.subrange(23, 29),
            None,
        ),
        s6.wf(),
{
    assert(s1.account.fits());
}

} // verus!
