//! Execution of a command-list request: a list of commands, each of which is
//! either a command FIFO stream to decode or a vertex update.

use vstd::prelude::*;
use crate::fifo::{FifoEnd, FifoEvent, decode_fifo, fifo_events};

verus! {

/// The kind of one entry of a command list.
#[derive(Clone, Copy, Debug, PartialEq, Eq, Structural)]
pub enum CommandKind {
    /// A command FIFO stream.
    Fifo,
    /// A vertex-buffer update; it is accepted and has no effect.
    UpdateVertex,
    /// A command kind that the driver does not know.
    Unknown,
}

/// One entry of a command list with the bytes of its payload that could be read.
pub struct Command {
    pub kind: CommandKind,
    pub payload: Vec<u8>,
}

/// How a command list ended.
#[derive(Clone, Copy, Debug, PartialEq, Eq, Structural)]
pub enum RunEnd {
    /// Every listed command was run.
    Done,
    /// A FIFO stream ended inside a command.
    Fault,
    /// A command of unknown kind was met; it and the commands after it were not run.
    InvalidCommand,
    /// A FIFO stream held an XF load whose word count overflows its counter.
    CountOverflow,
    /// The list announced more commands than it holds.
    OutOfRange,
}

/// Running commands `i..n` of `cmds`: the FIFO events in order, and how the
/// run ended.
pub open spec fn run_from(cmds: Seq<Command>, n: int, i: int) -> (Seq<FifoEvent>, RunEnd)
    decreases n - i,
{
    if i < 0 || i >= n {
        (Seq::empty(), RunEnd::Done)
    } else if i >= cmds.len() {
        (Seq::empty(), RunEnd::OutOfRange)
    } else {
        match cmds[i].kind {
            CommandKind::Fifo => {
                let f = fifo_events(cmds[i].payload@);
                match f.1 {
                    FifoEnd::Complete => {
                        let rest = run_from(cmds, n, i + 1);
                        (f.0 + rest.0, rest.1)
                    },
                    FifoEnd::Truncated => (f.0, RunEnd::Fault),
                    FifoEnd::CountOverflow => (f.0, RunEnd::CountOverflow),
                }
            },
            CommandKind::UpdateVertex => run_from(cmds, n, i + 1),
            CommandKind::Unknown => (Seq::empty(), RunEnd::InvalidCommand),
        }
    }
}

/// Running the first `n` commands of `cmds`.
pub open spec fn run_list(cmds: Seq<Command>, n: int) -> (Seq<FifoEvent>, RunEnd) {
    run_from(cmds, n, 0)
}

/// Runs the first `count` commands of `cmds`: the FIFO events that they
/// produce, in order, and how the run ended.
pub fn run_commands(cmds: &[Command], count: usize) -> (r: (Vec<FifoEvent>, RunEnd))
    ensures
        r.0@ == run_list(cmds@, count as int).0,
        r.1 == run_list(cmds@, count as int).1,
{
    let mut events: Vec<FifoEvent> = Vec::new();
    let mut i: usize = 0;
    while i < count
        invariant
            i <= count,
            events@ + run_from(cmds@, count as int, i as int).0 == run_list(cmds@, count as int).0,
            run_from(cmds@, count as int, i as int).1 == run_list(cmds@, count as int).1,
        decreases count - i,
    {
        if i >= cmds.len() {
            assert(events@ =~= run_list(cmds@, count as int).0);
            return (events, RunEnd::OutOfRange);
        }
        let ghost before = events@;
        match cmds[i].kind {
            CommandKind::Fifo => {
                let (mut evs, end) = decode_fifo(cmds[i].payload.as_slice());
                let ghost fevs = evs@;
                events.append(&mut evs);
                assert(events@ == before + fevs);
                match end {
                    FifoEnd::Complete => {
                        assert(events@ + run_from(cmds@, count as int, i + 1).0
                            =~= before + run_from(cmds@, count as int, i as int).0);
                    },
                    FifoEnd::Truncated => {
                        return (events, RunEnd::Fault);
                    },
                    FifoEnd::CountOverflow => {
                        return (events, RunEnd::CountOverflow);
                    },
                }
            },
            CommandKind::UpdateVertex => {},
            CommandKind::Unknown => {
                assert(events@ =~= run_list(cmds@, count as int).0);
                return (events, RunEnd::InvalidCommand);
            },
        }
        i = i + 1;
    }
    assert(events@ =~= run_list(cmds@, count as int).0);
    (events, RunEnd::Done)
}


/// A command that runs to its end: a known kind and, for a FIFO stream, one
/// that decodes completely.
pub open spec fn command_ok(c: Command) -> bool {
    &&& c.kind != CommandKind::Unknown
    &&& (c.kind == CommandKind::Fifo ==> fifo_events(c.payload@).1 == FifoEnd::Complete)
}

/// Commands `i..n` run to the end exactly when they are all present and each
/// of them runs to its end.
proof fn lemma_run_from_done(cmds: Seq<Command>, n: int, i: int)
    requires
        0 <= i <= n,
    ensures
        run_from(cmds, n, i).1 == RunEnd::Done
            <==> (i == n || n <= cmds.len()) && forall|j: int| i <= j < n ==> #[trigger] command_ok(cmds[j]),
    decreases n - i,
{
    if i < n {
        lemma_run_from_done(cmds, n, i + 1);
        if i < cmds.len() && command_ok(cmds[i]) {
            assert(run_from(cmds, n, i).1 == run_from(cmds, n, i + 1).1);
            if forall|j: int| i + 1 <= j < n ==> #[trigger] command_ok(cmds[j]) {
                assert forall|j: int| i <= j < n implies #[trigger] command_ok(cmds[j]) by {
                    if j > i {
                        assert(i + 1 <= j < n);
                    }
                }
            }
        } else {
            assert(run_from(cmds, n, i).1 != RunEnd::Done);
            if i < cmds.len() {
                assert(!command_ok(cmds[i]));
            }
        }
    }
}

/// A command list succeeds exactly when it holds at least the announced
/// number of commands and each of them is of a known kind and, if it is a
/// FIFO stream, decodes completely.
pub proof fn lemma_run_done_iff(cmds: Seq<Command>, n: nat)
    ensures
        run_list(cmds, n as int).1 == RunEnd::Done
            <==> n <= cmds.len() && forall|j: int| 0 <= j < n ==> #[trigger] command_ok(cmds[j]),
{
    lemma_run_from_done(cmds, n as int, 0);
}


/// What one command contributes to a run when it is reached: a FIFO stream
/// its decoded events, ending the run with a fault or an overflow if the
/// stream does; a vertex update nothing; a command of unknown kind nothing,
/// ending the run as invalid.
pub open spec fn command_result(c: Command) -> (Seq<FifoEvent>, RunEnd) {
    match c.kind {
        CommandKind::Fifo => {
            let f = fifo_events(c.payload@);
            (f.0, match f.1 {
                FifoEnd::Complete => RunEnd::Done,
                FifoEnd::Truncated => RunEnd::Fault,
                FifoEnd::CountOverflow => RunEnd::CountOverflow,
            })
        },
        CommandKind::UpdateVertex => (Seq::empty(), RunEnd::Done),
        CommandKind::Unknown => (Seq::empty(), RunEnd::InvalidCommand),
    }
}

/// Announcing one command more, starting from `i`.
proof fn lemma_run_from_extend(cmds: Seq<Command>, n: int, i: int)
    requires
        0 <= i <= n,
    ensures
        run_from(cmds, n, i).1 != RunEnd::Done ==> run_from(cmds, n + 1, i) == run_from(cmds, n, i),
        run_from(cmds, n, i).1 == RunEnd::Done && n >= cmds.len()
            ==> run_from(cmds, n + 1, i) == (run_from(cmds, n, i).0, RunEnd::OutOfRange),
        run_from(cmds, n, i).1 == RunEnd::Done && n < cmds.len()
            ==> run_from(cmds, n + 1, i) == (run_from(cmds, n, i).0 + command_result(cmds[n]).0,
                command_result(cmds[n]).1),
    decreases n - i,
{
    if i == n {
        if n < cmds.len() {
            let r = run_from(cmds, n + 1, n + 1);
            assert(r.0 =~= Seq::<FifoEvent>::empty());
            assert(Seq::<FifoEvent>::empty() + command_result(cmds[n]).0 =~= command_result(cmds[n]).0);
            if cmds[n].kind == CommandKind::Fifo {
                assert(fifo_events(cmds[n].payload@).0 + r.0 =~= fifo_events(cmds[n].payload@).0);
            }
        }
    } else if i < cmds.len() {
        lemma_run_from_extend(cmds, n, i + 1);
        if cmds[i].kind == CommandKind::Fifo && fifo_events(cmds[i].payload@).1 == FifoEnd::Complete {
            let f = fifo_events(cmds[i].payload@).0;
            let rn = run_from(cmds, n, i + 1);
            if rn.1 == RunEnd::Done && n < cmds.len() {
                assert(f + (rn.0 + command_result(cmds[n]).0) =~= (f + rn.0) + command_result(cmds[n]).0);
            }
        }
    }
}

/// A run is built command by command: announcing no command runs nothing;
/// once a run has stopped, announcing one command more changes nothing; and
/// a run that got through its first `n` commands, given one more, appends
/// that command's events and ends as that command ends, or stops out of range
/// when the list holds no such command.
pub proof fn law_run_extend(cmds: Seq<Command>, n: nat)
    ensures
        run_list(cmds, 0) == (Seq::<FifoEvent>::empty(), RunEnd::Done),
        run_list(cmds, n as int).1 != RunEnd::Done ==> run_list(cmds, n + 1int) == run_list(cmds, n as int),
        run_list(cmds, n as int).1 == RunEnd::Done && n >= cmds.len()
            ==> run_list(cmds, n + 1int) == (run_list(cmds, n as int).0, RunEnd::OutOfRange),
        run_list(cmds, n as int).1 == RunEnd::Done && n < cmds.len()
            ==> run_list(cmds, n + 1int) == (run_list(cmds, n as int).0 + command_result(cmds[n as int]).0,
                command_result(cmds[n as int]).1),
{
    lemma_run_from_extend(cmds, n as int, 0);
}

} // verus!
