use procon::exchange::Pending;
use procon::frame::{build_handshake_frame, build_probe_frame};
use procon::handshake::{Handshake, HandshakeStep};
use procon::io::{Action, Event, Progress, ProtocolError};

fn done() -> Event {
    Event::Completed { data: Vec::new() }
}

fn failed(reason: &str) -> Event {
    Event::Failed { reason: String::from(reason) }
}

fn frame(code: u8) -> Vec<u8> {
    let mut f = vec![0u8; 64];
    f[0] = 0x80;
    f[1] = code;
    f
}

#[test]
fn handshake_frame_is_report_id_code_and_padding() {
    assert_eq!(build_handshake_frame(0x02), frame(0x02));
    assert_eq!(build_handshake_frame(0x03), frame(0x03));
    assert_eq!(build_handshake_frame(0x04), frame(0x04));
    assert_eq!(build_handshake_frame(0x04).len(), 64);
}

#[test]
fn probe_frame_is_two_bytes() {
    assert_eq!(build_probe_frame(), vec![0x80, 0x01]);
}

#[test]
fn step_codes_and_order() {
    assert_eq!(HandshakeStep::Request.wire_code(), 0x02);
    assert_eq!(HandshakeStep::HighBaud.wire_code(), 0x03);
    assert_eq!(HandshakeStep::Confirm.wire_code(), 0x02);
    assert_eq!(HandshakeStep::HidOnly.wire_code(), 0x04);
    assert_eq!(HandshakeStep::Request.successor(), Some(HandshakeStep::HighBaud));
    assert_eq!(HandshakeStep::HighBaud.successor(), Some(HandshakeStep::Confirm));
    assert_eq!(HandshakeStep::Confirm.successor(), Some(HandshakeStep::HidOnly));
    assert_eq!(HandshakeStep::HidOnly.successor(), None);
}

#[test]
fn negotiation_writes_four_frames_each_followed_by_a_drain() {
    let (mut machine, mut action) = Handshake::start();
    let mut writes = Vec::new();
    let mut drains = 0;
    loop {
        let event = match action {
            Action::Write { bytes } => {
                writes.push(bytes);
                done()
            }
            Action::ReadTimeout { len, millis } => {
                assert_eq!((len, millis), (0, 100));
                drains += 1;
                done()
            }
            other => panic!("unexpected {:?}", other),
        };
        match machine.step(event) {
            Progress::Continue { machine: m, action: a } => {
                machine = m;
                action = a;
            }
            Progress::Finished { value: () } => break,
            other => panic!("unexpected {:?}", other),
        }
    }
    assert_eq!(writes, vec![frame(0x02), frame(0x03), frame(0x02), frame(0x04)]);
    assert_eq!(drains, 4);
}

#[test]
fn failed_drain_is_ignored() {
    let (machine, _) = Handshake::start();
    let machine = match machine.step(done()) {
        Progress::Continue { machine, .. } => machine,
        other => panic!("unexpected {:?}", other),
    };
    assert_eq!(machine, Handshake { step: HandshakeStep::Request, pending: Pending::Read });
    assert_eq!(
        machine.step(failed("read: timeout")),
        Progress::Continue {
            machine: Handshake { step: HandshakeStep::HighBaud, pending: Pending::Write },
            action: Action::Write { bytes: frame(0x03) },
        }
    );
}

#[test]
fn drained_data_is_ignored() {
    let machine = Handshake { step: HandshakeStep::Confirm, pending: Pending::Read };
    assert_eq!(
        machine.step(Event::Completed { data: vec![0x81, 0x02, 0x03] }),
        Progress::Continue {
            machine: Handshake { step: HandshakeStep::HidOnly, pending: Pending::Write },
            action: Action::Write { bytes: frame(0x04) },
        }
    );
}

#[test]
fn failed_write_aborts_at_every_step() {
    for step in [
        HandshakeStep::Request,
        HandshakeStep::HighBaud,
        HandshakeStep::Confirm,
        HandshakeStep::HidOnly,
    ] {
        let machine = Handshake { step, pending: Pending::Write };
        assert_eq!(
            machine.step(failed("write: unplugged")),
            Progress::Failed {
                error: ProtocolError::Transport { reason: String::from("write: unplugged") }
            }
        );
    }
}

#[test]
fn last_drain_ends_the_negotiation_even_when_it_fails() {
    let machine = Handshake { step: HandshakeStep::HidOnly, pending: Pending::Read };
    assert_eq!(machine.step(failed("read: timeout")), Progress::Finished { value: () });
}
