use gittig::bridge::{
    backend_argv, backend_program, tail, BridgeAction, BridgeError, BridgeEvent, BridgeSession,
    Phase,
};
use gittig::service::Service;

fn exited(code: i32) -> BridgeEvent {
    BridgeEvent::Exited { code: Some(code) }
}

fn stderr(bytes: &[u8]) -> BridgeEvent {
    BridgeEvent::Stderr(bytes.to_vec())
}

fn non_zero(code: Option<i32>, stderr_tail: &[u8]) -> BridgeAction {
    BridgeAction::Fail {
        error: BridgeError::NonZeroExit { code, stderr_tail: stderr_tail.to_vec() },
        answered: false,
    }
}

fn failed(error: BridgeError) -> BridgeAction {
    BridgeAction::Fail { error, answered: false }
}

const SUCCEEDED: BridgeAction = BridgeAction::Succeed { answered: false };

#[test]
fn engine_is_git() {
    assert_eq!(backend_program(), "git");
}

#[test]
fn argv_of_an_advertisement() {
    assert_eq!(
        backend_argv(Service::AdvertiseUploadPack),
        vec!["upload-pack", "--stateless-rpc", "--advertise-refs", "."]
    );
    assert_eq!(
        backend_argv(Service::AdvertiseReceivePack),
        vec!["receive-pack", "--stateless-rpc", "--advertise-refs", "."]
    );
}

#[test]
fn argv_of_an_rpc() {
    assert_eq!(
        backend_argv(Service::ExecUploadPack),
        vec!["upload-pack", "--stateless-rpc", "."]
    );
    assert_eq!(
        backend_argv(Service::ExecReceivePack),
        vec!["receive-pack", "--stateless-rpc", "."]
    );
}

#[test]
fn tail_keeps_the_end() {
    assert_eq!(tail(b"fatal: not a git repository", 10), b"repository".to_vec());
    assert_eq!(tail(b"abc", 3), b"abc".to_vec());
    assert_eq!(tail(b"abc", 4), b"abc".to_vec());
    assert_eq!(tail(b"abc", 1), b"c".to_vec());
    assert_eq!(tail(b"abc", 0), Vec::<u8>::new());
    assert_eq!(tail(b"", 5), Vec::<u8>::new());
    assert_eq!(tail(b"abc", usize::MAX), b"abc".to_vec());
}

#[test]
fn new_session_is_idle() {
    let session = BridgeSession::new(Service::ExecUploadPack, 64);
    assert_eq!(session.phase(), Phase::Idle);
    assert_eq!(session.service(), Service::ExecUploadPack);
    assert!(!session.is_finished());
}

#[test]
fn rpc_pumps_then_closes_input_then_succeeds() {
    let mut session = BridgeSession::new(Service::ExecReceivePack, 64);
    assert_eq!(session.step(BridgeEvent::Spawned), BridgeAction::Pump);
    assert_eq!(session.phase(), Phase::Pumping);
    assert_eq!(session.step(BridgeEvent::InputDone), BridgeAction::CloseInput);
    assert_eq!(session.phase(), Phase::Draining);
    assert_eq!(session.step(exited(0)), SUCCEEDED);
    assert_eq!(session.phase(), Phase::Finished);
    assert!(session.is_finished());
}

#[test]
fn advertisement_writes_no_input() {
    let mut session = BridgeSession::new(Service::AdvertiseUploadPack, 64);
    assert_eq!(session.step(BridgeEvent::Spawned), BridgeAction::CloseInput);
    assert_eq!(session.phase(), Phase::Draining);
    assert_eq!(session.step(BridgeEvent::InputDone), BridgeAction::Continue);
    assert_eq!(session.step(stderr(b"warning")), BridgeAction::Continue);
    assert_eq!(session.step(exited(0)), SUCCEEDED);
    assert!(session.is_finished());
}

#[test]
fn spawn_failure_ends_the_session() {
    let mut session = BridgeSession::new(Service::ExecUploadPack, 64);
    assert_eq!(session.step(BridgeEvent::SpawnFailed), failed(BridgeError::SpawnFailed));
    assert!(session.is_finished());
}

#[test]
fn failed_write_closes_input_and_is_reported_at_the_end() {
    let mut session = BridgeSession::new(Service::ExecReceivePack, 64);
    assert_eq!(session.step(BridgeEvent::Spawned), BridgeAction::Pump);
    assert_eq!(session.step(BridgeEvent::WriteFailed), BridgeAction::CloseInput);
    assert_eq!(session.phase(), Phase::Draining);
    assert!(!session.is_finished());
    assert_eq!(session.step(exited(0)), failed(BridgeError::WriteFailed));
    assert!(session.is_finished());
}

#[test]
fn failed_write_comes_before_the_exit_status() {
    let mut session = BridgeSession::new(Service::ExecReceivePack, 64);
    session.step(BridgeEvent::Spawned);
    session.step(BridgeEvent::WriteFailed);
    session.step(stderr(b"fatal"));
    assert_eq!(session.step(exited(128)), failed(BridgeError::WriteFailed));
}

#[test]
fn exit_status_other_than_zero_fails() {
    let mut session = BridgeSession::new(Service::ExecUploadPack, 8);
    session.step(BridgeEvent::Spawned);
    session.step(BridgeEvent::InputDone);
    assert_eq!(session.step(stderr(b"fatal: not a git repository")), BridgeAction::Continue);
    assert_eq!(session.step(exited(128)), non_zero(Some(128), b"pository"));
    assert!(session.is_finished());
}

#[test]
fn negative_exit_code_fails() {
    let mut session = BridgeSession::new(Service::AdvertiseReceivePack, 8);
    session.step(BridgeEvent::Spawned);
    session.step(stderr(b"oops"));
    assert_eq!(session.step(exited(-1)), non_zero(Some(-1), b"oops"));
}

#[test]
fn exit_without_a_code_fails() {
    let mut session = BridgeSession::new(Service::AdvertiseUploadPack, 0);
    session.step(BridgeEvent::Spawned);
    session.step(stderr(b"killed"));
    assert_eq!(session.step(BridgeEvent::Exited { code: None }), non_zero(None, b""));
}

#[test]
fn silent_engine_leaves_an_empty_tail() {
    let mut session = BridgeSession::new(Service::AdvertiseUploadPack, 16);
    session.step(BridgeEvent::Spawned);
    assert_eq!(session.step(exited(1)), non_zero(Some(1), b""));
}

#[test]
fn stderr_is_kept_piece_by_piece() {
    let pieces: [&[u8]; 6] = [b"ab", b"", b"cdefg", b"h", b"ijklmnopqrstu", b"vw"];
    let all = b"abcdefghijklmnopqrstuvw";
    for keep in [0usize, 1, 2, 3, 5, 8, 13, 22, 23, 24, 100] {
        let mut session = BridgeSession::new(Service::ExecUploadPack, keep);
        session.step(BridgeEvent::Spawned);
        for piece in pieces {
            assert_eq!(session.step(stderr(piece)), BridgeAction::Continue);
        }
        assert_eq!(session.step(exited(2)), non_zero(Some(2), &tail(all, keep)));
    }
}

#[test]
fn stderr_counts_while_the_engine_runs_only() {
    let mut session = BridgeSession::new(Service::ExecUploadPack, 64);
    assert_eq!(session.step(stderr(b"before ")), BridgeAction::Continue);
    session.step(BridgeEvent::Spawned);
    session.step(stderr(b"while "));
    session.step(BridgeEvent::InputDone);
    session.step(stderr(b"draining"));
    assert_eq!(session.step(exited(3)), non_zero(Some(3), b"while draining"));
    assert_eq!(session.step(stderr(b" after")), BridgeAction::Continue);
    assert!(session.is_finished());
}

#[test]
fn engine_that_ends_while_input_is_open_ends_the_exchange() {
    let mut session = BridgeSession::new(Service::ExecUploadPack, 64);
    session.step(BridgeEvent::Spawned);
    session.step(stderr(b"early"));
    assert_eq!(session.step(exited(1)), non_zero(Some(1), b"early"));
    assert!(session.is_finished());
    assert_eq!(session.step(BridgeEvent::WriteFailed), BridgeAction::Continue);
    assert!(session.is_finished());
}

#[test]
fn client_that_goes_away_has_the_engine_killed_and_reaped() {
    let mut session = BridgeSession::new(Service::ExecReceivePack, 64);
    session.step(BridgeEvent::Spawned);
    assert_eq!(session.step(BridgeEvent::ClientGone), BridgeAction::Kill);
    assert_eq!(session.phase(), Phase::Cancelling);
    assert!(!session.is_finished());
    assert_eq!(session.step(BridgeEvent::InputDone), BridgeAction::Continue);
    assert_eq!(session.step(BridgeEvent::ClientGone), BridgeAction::Continue);
    assert_eq!(session.step(stderr(b"x")), BridgeAction::Continue);
    assert_eq!(session.phase(), Phase::Cancelling);
    assert_eq!(session.step(BridgeEvent::Exited { code: None }), BridgeAction::Abandon);
    assert!(session.is_finished());
}

#[test]
fn client_that_goes_away_while_draining_has_the_engine_killed() {
    let mut session = BridgeSession::new(Service::ExecUploadPack, 64);
    session.step(BridgeEvent::Spawned);
    session.step(BridgeEvent::InputDone);
    assert_eq!(session.step(BridgeEvent::ClientGone), BridgeAction::Kill);
    assert_eq!(session.step(exited(0)), BridgeAction::Abandon);
    assert!(session.is_finished());
}

#[test]
fn client_that_goes_away_before_the_spawn_starts_nothing() {
    let mut session = BridgeSession::new(Service::ExecUploadPack, 64);
    assert_eq!(session.step(BridgeEvent::ClientGone), BridgeAction::Abandon);
    assert!(session.is_finished());
    assert_eq!(session.step(BridgeEvent::Spawned), BridgeAction::Continue);
    assert!(session.is_finished());
}

#[test]
fn finished_session_takes_no_more_orders() {
    let mut session = BridgeSession::new(Service::ExecUploadPack, 64);
    session.step(BridgeEvent::Spawned);
    session.step(BridgeEvent::InputDone);
    session.step(exited(0));
    for event in [
        BridgeEvent::Spawned,
        BridgeEvent::SpawnFailed,
        BridgeEvent::InputDone,
        BridgeEvent::WriteFailed,
        BridgeEvent::Output,
        stderr(b"x"),
        exited(1),
        BridgeEvent::ClientGone,
    ] {
        assert_eq!(session.step(event), BridgeAction::Continue);
        assert_eq!(session.phase(), Phase::Finished);
    }
}

#[test]
fn events_out_of_turn_change_nothing() {
    let mut session = BridgeSession::new(Service::ExecUploadPack, 64);
    assert_eq!(session.step(BridgeEvent::InputDone), BridgeAction::Continue);
    assert_eq!(session.step(BridgeEvent::WriteFailed), BridgeAction::Continue);
    assert_eq!(session.step(exited(0)), BridgeAction::Continue);
    assert_eq!(session.phase(), Phase::Idle);
    session.step(BridgeEvent::Spawned);
    assert_eq!(session.step(BridgeEvent::Spawned), BridgeAction::Continue);
    assert_eq!(session.step(BridgeEvent::SpawnFailed), BridgeAction::Continue);
    assert_eq!(session.phase(), Phase::Pumping);
    session.step(BridgeEvent::InputDone);
    assert_eq!(session.step(BridgeEvent::InputDone), BridgeAction::Continue);
    assert_eq!(session.step(BridgeEvent::WriteFailed), BridgeAction::Continue);
    assert_eq!(session.phase(), Phase::Draining);
    assert_eq!(session.step(exited(0)), SUCCEEDED);
}

#[test]
fn each_order_is_given_once_whatever_comes() {
    let events = [
        BridgeEvent::Spawned,
        BridgeEvent::Output,
        BridgeEvent::WriteFailed,
        BridgeEvent::InputDone,
        BridgeEvent::Output,
        BridgeEvent::WriteFailed,
        BridgeEvent::ClientGone,
        BridgeEvent::Output,
        BridgeEvent::ClientGone,
        exited(0),
        exited(0),
    ];
    let mut session = BridgeSession::new(Service::ExecReceivePack, 64);
    let mut closes = 0;
    let mut kills = 0;
    let mut ends = 0;
    let mut answers = 0;
    for event in events {
        match session.step(event) {
            BridgeAction::CloseInput => closes += 1,
            BridgeAction::Kill => kills += 1,
            BridgeAction::Succeed { .. } | BridgeAction::Fail { .. } | BridgeAction::Abandon => {
                ends += 1
            }
            BridgeAction::Respond => answers += 1,
            BridgeAction::Pump | BridgeAction::Continue => {}
        }
    }
    assert_eq!((closes, kills, ends, answers), (1, 1, 1, 1));
    assert!(session.is_finished());
}

#[test]
fn rpc_is_answered_when_the_output_begins() {
    let mut session = BridgeSession::new(Service::ExecUploadPack, 64);
    assert!(!session.is_answered());
    assert_eq!(session.step(BridgeEvent::Output), BridgeAction::Continue);
    assert_eq!(session.step(BridgeEvent::Spawned), BridgeAction::Pump);
    assert!(!session.is_answered());
    assert_eq!(session.step(BridgeEvent::Output), BridgeAction::Respond);
    assert!(session.is_answered());
    assert_eq!(session.phase(), Phase::Pumping);
    assert_eq!(session.step(BridgeEvent::Output), BridgeAction::Continue);
    assert_eq!(session.step(BridgeEvent::InputDone), BridgeAction::CloseInput);
    assert_eq!(session.step(BridgeEvent::Output), BridgeAction::Continue);
    assert_eq!(session.step(exited(0)), BridgeAction::Succeed { answered: true });
    assert!(session.is_finished());
}

#[test]
fn rpc_is_answered_while_draining_too() {
    let mut session = BridgeSession::new(Service::ExecReceivePack, 64);
    session.step(BridgeEvent::Spawned);
    session.step(BridgeEvent::InputDone);
    assert_eq!(session.step(BridgeEvent::Output), BridgeAction::Respond);
    assert_eq!(session.phase(), Phase::Draining);
}

#[test]
fn late_failure_knows_that_the_client_was_answered() {
    let mut session = BridgeSession::new(Service::ExecReceivePack, 4);
    session.step(BridgeEvent::Spawned);
    session.step(BridgeEvent::Output);
    session.step(BridgeEvent::InputDone);
    session.step(stderr(b"fatal: bad"));
    assert_eq!(
        session.step(exited(1)),
        BridgeAction::Fail {
            error: BridgeError::NonZeroExit { code: Some(1), stderr_tail: b" bad".to_vec() },
            answered: true,
        }
    );
    let mut session = BridgeSession::new(Service::ExecReceivePack, 4);
    session.step(BridgeEvent::Spawned);
    session.step(BridgeEvent::Output);
    session.step(BridgeEvent::WriteFailed);
    assert_eq!(
        session.step(exited(0)),
        BridgeAction::Fail { error: BridgeError::WriteFailed, answered: true }
    );
}

#[test]
fn advertisement_is_answered_at_the_end_only() {
    let mut session = BridgeSession::new(Service::AdvertiseUploadPack, 64);
    session.step(BridgeEvent::Spawned);
    assert_eq!(session.step(BridgeEvent::Output), BridgeAction::Continue);
    assert_eq!(session.step(BridgeEvent::Output), BridgeAction::Continue);
    assert!(!session.is_answered());
    assert_eq!(session.step(exited(0)), SUCCEEDED);
}

#[test]
fn output_after_the_client_left_answers_nobody() {
    let mut session = BridgeSession::new(Service::ExecUploadPack, 64);
    session.step(BridgeEvent::Spawned);
    session.step(BridgeEvent::ClientGone);
    assert_eq!(session.step(BridgeEvent::Output), BridgeAction::Continue);
    assert!(!session.is_answered());
}

#[test]
fn output_after_a_failed_write_does_not_answer() {
    let mut session = BridgeSession::new(Service::ExecReceivePack, 64);
    session.step(BridgeEvent::Spawned);
    session.step(BridgeEvent::WriteFailed);
    assert_eq!(session.step(BridgeEvent::Output), BridgeAction::Continue);
    assert!(!session.is_answered());
    assert_eq!(session.step(exited(0)), failed(BridgeError::WriteFailed));
}
