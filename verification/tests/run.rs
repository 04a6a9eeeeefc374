use flipper::fifo::FifoEvent;
use flipper::run::{run_commands, Command, CommandKind, RunEnd};

fn fifo(bytes: &[u8]) -> Command {
    Command { kind: CommandKind::Fifo, payload: bytes.to_vec() }
}

fn other(kind: CommandKind) -> Command {
    Command { kind, payload: vec![0x00] }
}

#[test]
fn empty_list_is_done() {
    let (events, end) = run_commands(&[], 0);
    assert!(events.is_empty());
    assert_eq!(end, RunEnd::Done);
}

#[test]
fn streams_run_in_order() {
    let cmds = [fifo(&[0x00]), other(CommandKind::UpdateVertex), fifo(&[0x48, 0x22])];
    let (events, end) = run_commands(&cmds, 3);
    assert_eq!(
        events,
        vec![
            FifoEvent::Nop,
            FifoEvent::InvalidateVertexCache,
            FifoEvent::Unknown { opcode: 0x22 },
        ]
    );
    assert_eq!(end, RunEnd::Done);
}

#[test]
fn only_announced_commands_run() {
    let cmds = [fifo(&[0x00]), other(CommandKind::Unknown)];
    let (events, end) = run_commands(&cmds, 1);
    assert_eq!(events, vec![FifoEvent::Nop]);
    assert_eq!(end, RunEnd::Done);
}

#[test]
fn unknown_kind_stops_the_list() {
    let cmds = [fifo(&[0x00]), other(CommandKind::Unknown), fifo(&[0x48])];
    let (events, end) = run_commands(&cmds, 3);
    assert_eq!(events, vec![FifoEvent::Nop]);
    assert_eq!(end, RunEnd::InvalidCommand);
}

#[test]
fn truncated_stream_faults() {
    let cmds = [fifo(&[0x00, 0x61, 0x01]), fifo(&[0x48])];
    let (events, end) = run_commands(&cmds, 2);
    assert_eq!(events, vec![FifoEvent::Nop]);
    assert_eq!(end, RunEnd::Fault);
}

#[test]
fn count_overflow_is_reported() {
    let cmds = [fifo(&[0x10, 0xff, 0xff, 0x00, 0x00])];
    let (events, end) = run_commands(&cmds, 1);
    assert!(events.is_empty());
    assert_eq!(end, RunEnd::CountOverflow);
}

#[test]
fn announcing_too_many_commands() {
    let cmds = [fifo(&[0x00])];
    let (events, end) = run_commands(&cmds, 2);
    assert_eq!(events, vec![FifoEvent::Nop]);
    assert_eq!(end, RunEnd::OutOfRange);
}
