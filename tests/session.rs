use drcom::dialer::{ChallengeRequest, DialerError, LoginAccount, Mismatch};
use drcom::heartbeater::{HeartbeatError, HeartbeatFlag, PhaseOneRequest, PhaseTwoRequest};
use drcom::session::{Action, Failure, Round, Session, Stage, HEARTBEAT_INTERVAL, MAX_RETRIES};

const HOST: [u8; 4] = [10, 30, 22, 17];

fn phase_two_reply(sequence: u8, key: [u8; 4]) -> Vec<u8> {
    let mut r = vec![0u8; 40];
    r[0] = 7;
    r[1] = sequence;
    r[2] = 0x28;
    r[16..20].copy_from_slice(&key);
    r
}

fn login_reply() -> Vec<u8> {
    let mut r: Vec<u8> = (0u8..32).collect();
    r[0] = 4;
    r
}

fn new_session() -> Session {
    Session::new(LoginAccount::new("usernameusername", "password", [0, 0, 0, 0]), HOST)
}

fn sent(a: Action) -> Vec<u8> {
    match a {
        Action::Send(b) => b,
        other => panic!("expected a send, got {:?}", other),
    }
}

fn p2(seq: u8, key: [u8; 4], flag: HeartbeatFlag, step: u8) -> Vec<u8> {
    PhaseTwoRequest::new(seq, key, &flag, HOST, Some(step)).as_bytes()
}

/// Runs the session up to the steady heartbeat and returns it.
fn bootstrap() -> Session {
    let mut s = new_session();
    assert_eq!(sent(s.start()), ChallengeRequest::new(None).as_bytes());

    let login = sent(s.on_reply(&[2, 3, 4, 5, 6, 7, 8, 9, 10]));
    assert_eq!(s.stage, Stage::Challenged);
    assert_eq!(s.account.hash_salt, [6, 7, 8, 9]);
    assert_eq!(login[..4], [3, 1, 0, 36]);
    let mut expected = LoginAccount::new("usernameusername", "password", [6, 7, 8, 9]);
    assert_eq!(login, expected.ror_version(false).login_request().unwrap().as_bytes().unwrap());

    let p1 = sent(s.on_reply(&login_reply()));
    assert_eq!(s.stage, Stage::LoggedIn);
    assert_eq!(s.login_key, [23, 24, 25, 26, 27, 28]);
    assert_eq!(
        p1,
        PhaseOneRequest::new([6, 7, 8, 9], "password", &[23, 24, 25, 26, 27, 28], None).as_bytes()
    );

    let first = sent(s.on_reply(&[7, 3, 4, 5, 6, 7, 8, 9, 10]));
    assert_eq!(s.stage, Stage::Phase1Sent);
    assert_eq!(first, p2(0, [0; 4], HeartbeatFlag::First, 1));

    let pair1 = sent(s.on_reply(&phase_two_reply(0, [9, 9, 9, 9])));
    assert_eq!(s.stage, Stage::Phase2Step1);
    assert_eq!(s.sequence, 0);
    assert_eq!(pair1, p2(0, [0; 4], HeartbeatFlag::NotFirst, 1));

    let pair3 = sent(s.on_reply(&phase_two_reply(0, [16, 17, 18, 19])));
    assert_eq!(s.stage, Stage::Phase2Step3);
    assert_eq!(s.sequence, 1);
    assert_eq!(pair3, p2(1, [16, 17, 18, 19], HeartbeatFlag::NotFirst, 3));

    assert_eq!(s.on_reply(&phase_two_reply(1, [40, 41, 42, 43])), Action::Sleep(HEARTBEAT_INTERVAL));
    s
}

#[test]
fn scripted_session_reaches_steady_heartbeat() {
    let s = bootstrap();
    assert_eq!(s.stage, Stage::SteadyHeartbeat);
    assert_eq!(s.round, Round::Resting);
    assert_eq!(s.sequence, 2);
    assert_eq!(s.keep_alive_key, [40, 41, 42, 43]);
    assert!(!s.closed);
}

#[test]
fn steady_round_advances_sequence_by_two() {
    let mut s = bootstrap();
    let p1 = sent(s.on_tick());
    assert_eq!(s.round, Round::PhaseOne);
    assert_eq!(
        p1,
        PhaseOneRequest::new([6, 7, 8, 9], "password", &[23, 24, 25, 26, 27, 28], None).as_bytes()
    );
    // a stray datagram is dropped
    assert_eq!(s.on_reply(&[1, 2, 3]), Action::Listen);
    assert_eq!(s.round, Round::PhaseOne);
    let step1 = sent(s.on_reply(&[7, 0, 0, 0, 0, 0, 0, 0, 0]));
    assert_eq!(step1, p2(2, [40, 41, 42, 43], HeartbeatFlag::NotFirst, 1));
    let step3 = sent(s.on_reply(&phase_two_reply(2, [50, 51, 52, 53])));
    assert_eq!(step3, p2(3, [50, 51, 52, 53], HeartbeatFlag::NotFirst, 3));
    assert_eq!(s.on_reply(&phase_two_reply(3, [60, 61, 62, 63])), Action::Sleep(HEARTBEAT_INTERVAL));
    assert_eq!(s.sequence, 4);
    assert_eq!(s.keep_alive_key, [60, 61, 62, 63]);
    assert_eq!(s.round, Round::Resting);
}

#[test]
fn steady_sequence_wraps() {
    let mut s = bootstrap();
    s.sequence = 126;
    sent(s.on_tick());
    sent(s.on_reply(&[7, 0, 0, 0, 0, 0, 0, 0, 0]));
    let step3 = sent(s.on_reply(&phase_two_reply(126, [1, 1, 1, 1])));
    assert_eq!(step3[1], 0);
    s.on_reply(&phase_two_reply(0, [2, 2, 2, 2]));
    assert_eq!(s.sequence, 1);
}

#[test]
fn opening_reply_for_other_sequence_resends() {
    let mut s = new_session();
    s.start();
    s.on_reply(&[2, 3, 4, 5, 6, 7, 8, 9, 10]);
    s.on_reply(&login_reply());
    s.on_reply(&[7, 3, 4, 5, 6, 7, 8, 9, 10]);
    assert_eq!(s.stage, Stage::Phase1Sent);
    let again = sent(s.on_reply(&phase_two_reply(5, [0; 4])));
    assert_eq!(s.stage, Stage::Phase1Sent);
    assert_eq!(s.sequence, 1);
    assert_eq!(again, p2(1, [0; 4], HeartbeatFlag::First, 1));
    sent(s.on_reply(&phase_two_reply(1, [0; 4])));
    assert_eq!(s.stage, Stage::Phase2Step1);
}

#[test]
fn invalid_heartbeat_reply_is_discarded() {
    let mut s = new_session();
    s.start();
    s.on_reply(&[2, 3, 4, 5, 6, 7, 8, 9, 10]);
    s.on_reply(&login_reply());
    s.on_reply(&[7, 3, 4, 5, 6, 7, 8, 9, 10]);
    let mut bad = phase_two_reply(0, [1, 2, 3, 4]);
    bad[0] = 8;
    assert_eq!(s.on_reply(&bad), Action::Listen);
    assert_eq!(s.stage, Stage::Phase1Sent);
    assert_eq!(s.sequence, 0);
}

#[test]
fn bad_challenge_reply_aborts() {
    let mut s = new_session();
    s.start();
    assert_eq!(
        s.on_reply(&[3, 3, 4, 5, 6, 7, 8, 9, 10]),
        Action::Abort(Failure::Challenge(DialerError::ProtocolMismatch(Mismatch::WrongTag)))
    );
    assert!(s.closed);
    assert_eq!(s.on_reply(&[2, 3, 4, 5, 6, 7, 8, 9, 10]), Action::Abort(Failure::Closed));
    assert_eq!(s.start(), Action::Abort(Failure::Closed));
}

#[test]
fn bad_login_reply_aborts() {
    let mut s = new_session();
    s.start();
    s.on_reply(&[2, 3, 4, 5, 6, 7, 8, 9, 10]);
    assert_eq!(
        s.on_reply(&[4, 0, 0]),
        Action::Abort(Failure::Login(DialerError::ProtocolMismatch(Mismatch::TooShort)))
    );
    assert!(s.closed);
}

#[test]
fn bad_phase_one_reply_aborts() {
    let mut s = new_session();
    s.start();
    s.on_reply(&[2, 3, 4, 5, 6, 7, 8, 9, 10]);
    s.on_reply(&login_reply());
    assert_eq!(
        s.on_reply(&[8, 3, 4, 5, 6, 7, 8, 9, 10]),
        Action::Abort(Failure::PhaseOne(HeartbeatError::ValidateError(Mismatch::WrongTag)))
    );
}

#[test]
fn oversized_username_aborts_login() {
    let name = "u".repeat(40);
    let mut s = Session::new(LoginAccount::new(&name, "password", [0; 4]), HOST);
    s.start();
    assert_eq!(
        s.on_reply(&[2, 3, 4, 5, 6, 7, 8, 9, 10]),
        Action::Abort(Failure::Login(DialerError::SerializationError(drcom::dialer::Field::Username)))
    );
}

#[test]
fn timeouts_resend_then_give_up() {
    let mut s = new_session();
    let challenge = sent(s.start());
    for i in 0..MAX_RETRIES {
        assert_eq!(sent(s.on_timeout()), challenge);
        assert_eq!(s.retries, i + 1);
    }
    assert_eq!(s.on_timeout(), Action::Abort(Failure::NoReply(Stage::Idle)));
    assert!(s.closed);
}

#[test]
fn resting_session_ignores_timeouts_and_stray_replies() {
    let mut s = bootstrap();
    assert_eq!(s.on_timeout(), Action::Listen);
    assert_eq!(s.on_reply(&phase_two_reply(9, [1, 1, 1, 1])), Action::Listen);
    assert_eq!(s.sequence, 2);
    assert_eq!(new_session().on_tick(), Action::Listen);
}
