use relay::packet_handler::{
    Direction, IdentityHandler, MaxLenHandler, PacketHandler, UppercaseForwardHandler,
};
use relay::pipe::{run_pipe, PipeError, PipeMachine, PipePhase};
use relay::server::accept_decision;
use relay::session::{run_session, SessionAction, SessionError, SessionMachine, SessionPhase};

#[test]
fn identity_forward_single_chunk() {
    let mut h = IdentityHandler;
    let sent = vec![b"PING".to_vec()];
    let delivered = run_pipe(&mut h, Direction::Forward, &sent).unwrap();
    assert_eq!(delivered, sent);
}

#[test]
fn identity_keeps_bytes_order_and_count() {
    let mut h = IdentityHandler;
    let sent = vec![b"ab".to_vec(), b"c".to_vec(), b"defg".to_vec(), b"c".to_vec()];
    let delivered = run_pipe(&mut h, Direction::Forward, &sent).unwrap();
    assert_eq!(delivered, sent);
    let replies = vec![vec![0u8, 255u8, 7u8], vec![1u8]];
    let delivered_back = run_pipe(&mut h, Direction::Backward, &replies).unwrap();
    assert_eq!(delivered_back, replies);
}

#[test]
fn identity_empty_stream() {
    let mut h = IdentityHandler;
    let sent: Vec<Vec<u8>> = vec![];
    let delivered = run_pipe(&mut h, Direction::Forward, &sent).unwrap();
    assert_eq!(delivered, sent);
}

#[test]
fn uppercase_forward_transforms_only_letters() {
    let mut h = UppercaseForwardHandler;
    let sent = vec![b"a1!Zz`{".to_vec()];
    let delivered = run_pipe(&mut h, Direction::Forward, &sent).unwrap();
    assert_eq!(delivered, vec![b"A1!ZZ`{".to_vec()]);
}

#[test]
fn uppercase_leaves_backward_untouched() {
    let mut h = UppercaseForwardHandler;
    let replies = vec![b"abc".to_vec()];
    let delivered = run_pipe(&mut h, Direction::Backward, &replies).unwrap();
    assert_eq!(delivered, replies);
}

#[test]
fn max_len_refusal_aborts_pipe() {
    let mut h = MaxLenHandler { max: 3 };
    let ok_sent = vec![b"abc".to_vec(), b"x".to_vec()];
    assert_eq!(run_pipe(&mut h, Direction::Forward, &ok_sent).unwrap(), ok_sent);
    let too_long = vec![b"ab".to_vec(), b"abcd".to_vec()];
    let err = run_pipe(&mut h, Direction::Forward, &too_long).unwrap_err();
    assert_eq!(err, PipeError::Inspect);
}

#[test]
fn handler_called_directly_refuses_and_passes() {
    let mut h = MaxLenHandler { max: 2 };
    assert_eq!(h.inspect(Direction::Backward, b"ab").unwrap(), b"ab".to_vec());
    assert!(h.inspect(Direction::Backward, b"abc").is_err());
}

#[test]
fn pipe_machine_clean_walk() {
    let mut m = PipeMachine::new(Direction::Forward);
    assert_eq!(m.phase, PipePhase::Reading);
    m.on_read_data(b"PING");
    assert_eq!(m.phase, PipePhase::Inspecting);
    m.on_inspect_ok(b"PING");
    assert_eq!(m.phase, PipePhase::Writing);
    m.on_write_ok();
    assert_eq!(m.phase, PipePhase::Reading);
    let outcome = m.on_read_eof();
    assert_eq!(outcome, Ok(()));
    assert_eq!(m.phase, PipePhase::Done(Ok(())));
}

#[test]
fn pipe_machine_read_error() {
    let mut m = PipeMachine::new(Direction::Backward);
    let outcome = m.on_read_error();
    assert_eq!(outcome, Err(PipeError::Read));
    assert_eq!(m.phase, PipePhase::Done(Err(PipeError::Read)));
}

#[test]
fn pipe_machine_inspect_error() {
    let mut m = PipeMachine::new(Direction::Forward);
    m.on_read_data(b"x");
    let outcome = m.on_inspect_error();
    assert_eq!(outcome, Err(PipeError::Inspect));
    assert_eq!(m.phase, PipePhase::Done(Err(PipeError::Inspect)));
}

#[test]
fn pipe_machine_write_error() {
    let mut m = PipeMachine::new(Direction::Forward);
    m.on_read_data(b"x");
    m.on_inspect_ok(b"x");
    let outcome = m.on_write_error();
    assert_eq!(outcome, Err(PipeError::Write));
    assert_eq!(m.phase, PipePhase::Done(Err(PipeError::Write)));
}

#[test]
fn session_clean_join() {
    let mut s = SessionMachine::new();
    assert_eq!(s.phase, SessionPhase::Dialing);
    assert_eq!(s.on_dial(true), SessionAction::StartPipes);
    assert_eq!(s.phase, SessionPhase::Running);
    assert_eq!(s.on_pipe_done(Direction::Forward, Ok(())), SessionAction::AwaitSibling);
    assert_eq!(s.phase, SessionPhase::HalfDone { finished: Direction::Forward });
    assert_eq!(s.on_pipe_done(Direction::Backward, Ok(())), SessionAction::CloseBoth);
    assert_eq!(s.phase, SessionPhase::Closed { outcome: Ok(()) });
}

#[test]
fn session_first_failure_cancels_sibling() {
    let mut s = SessionMachine::new();
    s.on_dial(true);
    let a = s.on_pipe_done(Direction::Backward, Err(PipeError::Read));
    assert_eq!(a, SessionAction::CancelAndClose);
    assert_eq!(
        s.phase,
        SessionPhase::Closed { outcome: Err(SessionError::Pipe(PipeError::Read)) }
    );
}

#[test]
fn session_second_failure_is_reported() {
    let mut s = SessionMachine::new();
    s.on_dial(true);
    s.on_pipe_done(Direction::Forward, Ok(()));
    let a = s.on_pipe_done(Direction::Backward, Err(PipeError::Write));
    assert_eq!(a, SessionAction::CloseBoth);
    assert_eq!(
        s.phase,
        SessionPhase::Closed { outcome: Err(SessionError::Pipe(PipeError::Write)) }
    );
}

#[test]
fn accept_failure_keeps_server_accepting() {
    let failed = accept_decision(false);
    assert!(!failed.spawn_session);
    assert!(failed.keep_accepting);
    let ok = accept_decision(true);
    assert!(ok.spawn_session);
    assert!(ok.keep_accepting);
}

#[test]
fn dial_failure_is_isolated() {
    // One session's backend is unreachable ...
    let mut unreachable = SessionMachine::new();
    assert_eq!(unreachable.on_dial(false), SessionAction::CloseClient);
    assert_eq!(
        unreachable.phase,
        SessionPhase::Closed { outcome: Err(SessionError::Dial) }
    );
    // ... while a concurrent session with a reachable backend still relays.
    let mut h = IdentityHandler;
    let mut reachable = SessionMachine::new();
    assert_eq!(reachable.on_dial(true), SessionAction::StartPipes);
    let sent = vec![b"PING".to_vec()];
    let delivered = run_pipe(&mut h, Direction::Forward, &sent).unwrap();
    assert_eq!(delivered, sent);
    reachable.on_pipe_done(Direction::Forward, Ok(()));
    reachable.on_pipe_done(Direction::Backward, Ok(()));
    assert_eq!(reachable.phase, SessionPhase::Closed { outcome: Ok(()) });
}

#[test]
fn ping_pong_identity_session() {
    // Client sends "PING"; the backend must receive "PING"; the backend
    // replies "PONG"; the client must receive "PONG"; after the client
    // half-closes, the session reports clean completion.
    let mut h = IdentityHandler;
    let mut s = SessionMachine::new();
    assert_eq!(s.on_dial(true), SessionAction::StartPipes);
    let client_sent = vec![b"PING".to_vec()];
    let backend_received = run_pipe(&mut h, Direction::Forward, &client_sent).unwrap();
    assert_eq!(backend_received, vec![b"PING".to_vec()]);
    let backend_replied = vec![b"PONG".to_vec()];
    let client_received = run_pipe(&mut h, Direction::Backward, &backend_replied).unwrap();
    assert_eq!(client_received, vec![b"PONG".to_vec()]);
    assert_eq!(s.on_pipe_done(Direction::Forward, Ok(())), SessionAction::AwaitSibling);
    assert_eq!(s.on_pipe_done(Direction::Backward, Ok(())), SessionAction::CloseBoth);
    assert_eq!(s.phase, SessionPhase::Closed { outcome: Ok(()) });
}

#[test]
fn run_session_ping_pong() {
    let mut h = IdentityHandler;
    let (outcome, to_backend, to_client) =
        run_session(&mut h, &vec![b"PING".to_vec()], &vec![b"PONG".to_vec()]);
    assert_eq!(outcome, Ok(()));
    assert_eq!(to_backend, vec![b"PING".to_vec()]);
    assert_eq!(to_client, vec![b"PONG".to_vec()]);
}

#[test]
fn run_session_uppercase_forward_only() {
    let mut h = UppercaseForwardHandler;
    let (outcome, to_backend, to_client) =
        run_session(&mut h, &vec![b"abc".to_vec()], &vec![b"xyz".to_vec()]);
    assert_eq!(outcome, Ok(()));
    assert_eq!(to_backend, vec![b"ABC".to_vec()]);
    assert_eq!(to_client, vec![b"xyz".to_vec()]);
}

#[test]
fn run_session_fail_fast_on_forward_refusal() {
    let mut h = MaxLenHandler { max: 1 };
    let (outcome, to_backend, to_client) =
        run_session(&mut h, &vec![b"ab".to_vec()], &vec![b"x".to_vec()]);
    assert_eq!(outcome, Err(SessionError::Pipe(PipeError::Inspect)));
    assert!(to_backend.is_empty());
    assert!(to_client.is_empty());
}

#[test]
fn uppercase_transform_session() {
    // Handler uppercases forward traffic only: the client's "abc" reaches the
    // backend as "ABC", the backend's "xyz" reaches the client unchanged.
    let mut h = UppercaseForwardHandler;
    let mut s = SessionMachine::new();
    assert_eq!(s.on_dial(true), SessionAction::StartPipes);
    let client_sent = vec![b"abc".to_vec()];
    let backend_received = run_pipe(&mut h, Direction::Forward, &client_sent).unwrap();
    assert_eq!(backend_received, vec![b"ABC".to_vec()]);
    let backend_replied = vec![b"xyz".to_vec()];
    let client_received = run_pipe(&mut h, Direction::Backward, &backend_replied).unwrap();
    assert_eq!(client_received, vec![b"xyz".to_vec()]);
    assert_eq!(s.on_pipe_done(Direction::Forward, Ok(())), SessionAction::AwaitSibling);
    assert_eq!(s.on_pipe_done(Direction::Backward, Ok(())), SessionAction::CloseBoth);
    assert_eq!(s.phase, SessionPhase::Closed { outcome: Ok(()) });
}
