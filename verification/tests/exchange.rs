use procon::controller::ProController;
use procon::exchange::Exchange;
use procon::frame::{is_reply_accepted, ReplyPolicy};
use procon::io::{Action, Event, Progress, ProtocolError};

fn done() -> Event {
    Event::Completed { data: Vec::new() }
}

fn failed(reason: &str) -> Event {
    Event::Failed { reason: String::from(reason) }
}

fn reply(len: usize, id: u8, echo: u8, mark: u8) -> Vec<u8> {
    let mut r = vec![0u8; len];
    r[0] = id;
    r[14] = echo;
    r[len - 1] = mark;
    r
}

fn read(data: Vec<u8>) -> Event {
    Event::Completed { data }
}

fn written(session: &mut ProController, sc: u8, len: usize) -> Exchange {
    let (exchange, _) = session.subcommand(sc, &[], len);
    match exchange.step(done()) {
        Progress::Continue { machine, action } => {
            assert_eq!(action, Action::ReadTimeout { len, millis: 100 });
            machine
        }
        other => panic!("unexpected {:?}", other),
    }
}

fn keep_polling(step: Progress<Exchange, Vec<u8>>, len: usize) -> Exchange {
    match step {
        Progress::Continue { machine, action } => {
            assert_eq!(action, Action::ReadTimeout { len, millis: 100 });
            machine
        }
        other => panic!("unexpected {:?}", other),
    }
}

#[test]
fn frame_has_report_id_sequence_rumble_subcommand_payload() {
    let mut session = ProController::new();
    let (_, action) = session.subcommand(0x10, &[0xA1, 0xB2, 0xC3], 48);
    let mut expected = vec![0u8; 48];
    expected[0] = 0x01;
    expected[1] = 0x00;
    expected[2..10].copy_from_slice(&[0x00, 0x01, 0x40, 0x40, 0x00, 0x01, 0x40, 0x40]);
    expected[10] = 0x10;
    expected[11] = 0xA1;
    expected[12] = 0xB2;
    expected[13] = 0xC3;
    assert_eq!(action, Action::Write { bytes: expected });
}

#[test]
fn frame_takes_a_payload_that_fills_it() {
    let mut session = ProController::new();
    let payload: Vec<u8> = (1..=37).collect();
    let (_, action) = session.subcommand(0x21, &payload, 48);
    match action {
        Action::Write { bytes } => {
            assert_eq!(bytes.len(), 48);
            assert_eq!(&bytes[11..], &payload[..]);
        }
        other => panic!("unexpected {:?}", other),
    }
}

#[test]
fn sequence_counts_up_and_wraps_after_fifteen() {
    let mut session = ProController::new();
    for round in 0..3 {
        for expected in 0u8..16 {
            assert_eq!(session.sequence(), expected);
            let (_, action) = session.subcommand(0x03, &[0x30], 16);
            match action {
                Action::Write { bytes } => assert_eq!(bytes[1], expected, "round {}", round),
                other => panic!("unexpected {:?}", other),
            }
            let after = if expected == 15 { 0 } else { expected + 1 };
            assert_eq!(session.sequence(), after);
        }
    }
}

#[test]
fn sequence_advances_even_when_the_write_fails() {
    let mut session = ProController::new();
    let (exchange, _) = session.subcommand(0x03, &[0x30], 16);
    assert_eq!(session.sequence(), 1);
    assert_eq!(
        exchange.step(failed("write: broken pipe")),
        Progress::Failed { error: ProtocolError::Transport { reason: String::from("write: broken pipe") } }
    );
    assert_eq!(session.sequence(), 1);
}

#[test]
fn matching_first_reply_ends_the_exchange() {
    let mut session = ProController::new();
    let exchange = written(&mut session, 0x10, 48);
    let frame = reply(48, 0x21, 0x10, 0x77);
    assert_eq!(exchange.step(read(frame.clone())), Progress::Finished { value: frame });
}

#[test]
fn tenth_read_matching_after_nine_mismatches_succeeds() {
    let mut session = ProController::new();
    let mut exchange = written(&mut session, 0x10, 48);
    for i in 0..9u8 {
        assert_eq!(exchange.tries(), i);
        exchange = keep_polling(exchange.step(read(reply(48, 0x30, 0x00, i))), 48);
    }
    assert_eq!(exchange.tries(), 9);
    let frame = reply(48, 0x21, 0x10, 0xEE);
    assert_eq!(exchange.step(read(frame.clone())), Progress::Finished { value: frame });
}

#[test]
fn tenth_read_mismatching_still_yields_its_buffer() {
    let mut session = ProController::new();
    let mut exchange = written(&mut session, 0x10, 48);
    for i in 0..9u8 {
        exchange = keep_polling(exchange.step(read(reply(48, 0x30, 0x00, i))), 48);
    }
    let last = reply(48, 0x30, 0x55, 0x99);
    assert_eq!(exchange.step(read(last.clone())), Progress::Finished { value: last });
}

#[test]
fn tenth_read_failing_fails_the_exchange() {
    let mut session = ProController::new();
    let mut exchange = written(&mut session, 0x10, 48);
    for i in 0..9u8 {
        exchange = keep_polling(exchange.step(read(reply(48, 0x30, 0x00, i))), 48);
    }
    assert_eq!(
        exchange.step(failed("read: gone")),
        Progress::Failed { error: ProtocolError::Transport { reason: String::from("read: gone") } }
    );
}

#[test]
fn early_read_failure_is_passed_over() {
    let mut session = ProController::new();
    let exchange = written(&mut session, 0x48, 16);
    let exchange = keep_polling(exchange.step(failed("read: hiccup")), 16);
    assert_eq!(exchange.tries(), 1);
    let frame = reply(16, 0x21, 0x48, 0x01);
    assert_eq!(exchange.step(read(frame.clone())), Progress::Finished { value: frame });
}

#[test]
fn read_failure_on_accepted_buffer_fails_the_exchange() {
    let mut session = ProController::with_options(ReplyPolicy::AcceptEither, None);
    let exchange = written(&mut session, 0x00, 16);
    assert_eq!(
        exchange.step(failed("read: gone")),
        Progress::Failed { error: ProtocolError::Transport { reason: String::from("read: gone") } }
    );
}

#[test]
fn timeouts_leave_the_buffer_and_count_as_tries() {
    let mut session = ProController::new();
    let mut exchange = written(&mut session, 0x10, 48);
    for _ in 0..9 {
        exchange = keep_polling(exchange.step(done()), 48);
    }
    assert_eq!(exchange.step(done()), Progress::Finished { value: vec![0u8; 48] });
}

#[test]
fn short_read_overwrites_only_the_front_of_the_buffer() {
    let mut session = ProController::new();
    let exchange = written(&mut session, 0x10, 48);
    let exchange = keep_polling(exchange.step(read(reply(48, 0x30, 0x10, 0xAA))), 48);
    let mut expected = reply(48, 0x21, 0x10, 0xAA);
    expected[1] = 0x05;
    assert_eq!(
        exchange.step(read(vec![0x21, 0x05])),
        Progress::Finished { value: expected }
    );
}

#[test]
fn long_read_is_cut_to_the_buffer() {
    let mut session = ProController::new();
    let exchange = written(&mut session, 0x10, 16);
    let long = reply(64, 0x21, 0x10, 0xAA);
    assert_eq!(
        exchange.step(read(long.clone())),
        Progress::Finished { value: long[..16].to_vec() }
    );
}

#[test]
fn report_id_alone_is_not_enough_by_default() {
    let mut session = ProController::new();
    assert_eq!(session.reply_policy(), ReplyPolicy::RequireBoth);
    let exchange = written(&mut session, 0x10, 48);
    let exchange = keep_polling(exchange.step(read(reply(48, 0x21, 0x03, 0))), 48);
    let exchange = keep_polling(exchange.step(read(reply(48, 0x30, 0x10, 0))), 48);
    assert_eq!(exchange.tries(), 2);
    assert_eq!(exchange.subcommand_id(), 0x10);
}

#[test]
fn either_field_is_enough_when_asked_for() {
    let mut session = ProController::with_options(ReplyPolicy::AcceptEither, None);
    let exchange = written(&mut session, 0x10, 48);
    let frame = reply(48, 0x21, 0x03, 0);
    assert_eq!(exchange.step(read(frame.clone())), Progress::Finished { value: frame });
    let exchange = written(&mut session, 0x10, 48);
    let frame = reply(48, 0x30, 0x10, 0);
    assert_eq!(exchange.step(read(frame.clone())), Progress::Finished { value: frame });
    let exchange = written(&mut session, 0x10, 48);
    keep_polling(exchange.step(read(reply(48, 0x30, 0x03, 0))), 48);
}

#[test]
fn zero_subcommand_matches_an_untouched_buffer_when_either_field_is_enough() {
    let mut session = ProController::with_options(ReplyPolicy::AcceptEither, None);
    let exchange = written(&mut session, 0x00, 16);
    assert_eq!(exchange.step(done()), Progress::Finished { value: vec![0u8; 16] });
}

#[test]
fn reply_acceptance_by_policy() {
    let both = reply(48, 0x21, 0x10, 0);
    let id_only = reply(48, 0x21, 0x11, 0);
    let echo_only = reply(48, 0x20, 0x10, 0);
    let neither = reply(48, 0x20, 0x11, 0);
    assert!(is_reply_accepted(ReplyPolicy::RequireBoth, &both, 0x10));
    assert!(!is_reply_accepted(ReplyPolicy::RequireBoth, &id_only, 0x10));
    assert!(!is_reply_accepted(ReplyPolicy::RequireBoth, &echo_only, 0x10));
    assert!(!is_reply_accepted(ReplyPolicy::RequireBoth, &neither, 0x10));
    assert!(is_reply_accepted(ReplyPolicy::AcceptEither, &both, 0x10));
    assert!(is_reply_accepted(ReplyPolicy::AcceptEither, &id_only, 0x10));
    assert!(is_reply_accepted(ReplyPolicy::AcceptEither, &echo_only, 0x10));
    assert!(!is_reply_accepted(ReplyPolicy::AcceptEither, &neither, 0x10));
}

#[test]
fn void_exchange_reads_into_sixteen_bytes() {
    let mut session = ProController::new();
    let (exchange, _) = session.void_subcommand(0x30, &[0x08]);
    match exchange.step(done()) {
        Progress::Continue { action, .. } => {
            assert_eq!(action, Action::ReadTimeout { len: 16, millis: 100 })
        }
        other => panic!("unexpected {:?}", other),
    }
}

fn frame_of(action: Action) -> Vec<u8> {
    match action {
        Action::Write { bytes } => bytes,
        other => panic!("unexpected {:?}", other),
    }
}

#[test]
fn named_subcommands_carry_their_id_and_argument() {
    let mut session = ProController::new();
    let f = frame_of(session.reset().1);
    assert_eq!((f[10], f[11], f[12]), (0x06, 0x04, 0x00));
    let f = frame_of(session.set_imu(true).1);
    assert_eq!((f[1], f[10], f[11]), (1, 0x40, 0x01));
    let f = frame_of(session.set_imu(false).1);
    assert_eq!((f[1], f[10], f[11]), (2, 0x40, 0x00));
    let f = frame_of(session.set_vibration(true).1);
    assert_eq!((f[10], f[11]), (0x48, 0x01));
    let f = frame_of(session.set_vibration(false).1);
    assert_eq!((f[10], f[11]), (0x48, 0x00));
    let f = frame_of(session.set_report_mode(0x3f).1);
    assert_eq!((f[10], f[11]), (0x03, 0x3f));
    let f = frame_of(session.set_player_lights(0b0000_1000).1);
    assert_eq!((f[10], f[11]), (0x30, 0x08));
    assert_eq!(f.len(), 48);
    assert_eq!(session.sequence(), 7);
}
