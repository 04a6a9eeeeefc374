//! Decoding of GX command FIFO streams.
//!
//! A stream is a sequence of commands, each introduced by a one-byte opcode and
//! followed by big-endian operands. The decoder turns the stream into a flat
//! sequence of [`FifoEvent`]s, one per header, data word or vertex, in stream
//! order, and reports how the stream ended.

use vstd::prelude::*;
use crate::bytes::{be16, be32, read_be16, read_be32};

verus! {

/// Opcode of the no-operation command.
pub const OP_NOP: u8 = 0x00;

/// Opcode of a transform-unit (XF) register load.
pub const OP_LOAD_XF: u8 = 0x10;

/// Opcode that invalidates the vertex cache.
pub const OP_INVALIDATE_VERTEX_CACHE: u8 = 0x48;

/// Opcode of a blitting-processor (BP) register load.
pub const OP_LOAD_BP: u8 = 0x61;

/// Opcode that draws triangles.
pub const OP_DRAW_TRIANGLES: u8 = 0x90;

/// The BP register that holds the external framebuffer address.
pub const BP_XFB_REG: u8 = 0x4b;

/// The value that every BP load of the framebuffer register in a command
/// stream is replaced with: the address `0x1774_0000` in 32-byte units.
/// Uploads to the BP register file use another value, `mem::XFB_VALUE`
/// (`0x0177_4000` in 32-byte units, a sixteenth of this one); the two paths
/// redirect the framebuffer to different addresses.
pub const FIFO_XFB_VALUE: u32 = 0x1774_0000 / 32;

/// One decoded item of a command stream.
#[derive(Clone, Copy, Debug, PartialEq, Eq, Structural)]
pub enum FifoEvent {
    /// A no-operation command.
    Nop,
    /// The header of an XF load: `count` words go to the registers from `reg` on.
    XfHeader { count: u16, start_reg: u16 },
    /// One data word of the XF load whose header came last.
    XfWord { data: u32 },
    /// A vertex-cache invalidation.
    InvalidateVertexCache,
    /// A BP register load; `patched` is set when the framebuffer register was
    /// redirected and `value` then holds the replacement.
    Bp { reg: u8, value: u32, patched: bool },
    /// The header of a triangle draw with `vertices` vertices.
    DrawHeader { vertices: u16 },
    /// One vertex (two index bytes) of the draw whose header came last.
    Vertex { a: u8, b: u8 },
    /// An opcode that the decoder does not know; it carries no operands.
    Unknown { opcode: u8 },
}

/// How a command stream ended.
#[derive(Clone, Copy, Debug, PartialEq, Eq, Structural)]
pub enum FifoEnd {
    /// The stream ended between two commands.
    Complete,
    /// The stream ended inside a command.
    Truncated,
    /// An XF load announced `0xffff + 1` words, a count that does not fit the
    /// 16-bit counter the format uses.
    CountOverflow,
}

/// The result of decoding the command that starts at some position.
pub enum Step {
    /// The command was complete; decoding goes on at the given position.
    Next(Seq<FifoEvent>, int),
    /// Decoding stops, having produced the given events.
    Stop(Seq<FifoEvent>, FifoEnd),
}

/// The data words of an XF load: `n` big-endian words from position `d` on.
pub open spec fn xf_words(s: Seq<u8>, d: int, n: int) -> Seq<FifoEvent> {
    Seq::new(n as nat, |k: int| FifoEvent::XfWord { data: be32(s, d + 4 * k) as u32 })
}

/// The vertices of a draw: `n` byte pairs from position `d` on.
pub open spec fn draw_vertices(s: Seq<u8>, d: int, n: int) -> Seq<FifoEvent> {
    Seq::new(n as nat, |k: int| FifoEvent::Vertex { a: s[d + 2 * k], b: s[d + 2 * k + 1] })
}

/// The event for a BP load of the 32-bit word `data` (register in the top
/// byte, value in the low 24 bits).
pub open spec fn bp_event(data: int) -> FifoEvent {
    let reg = data / 0x100_0000;
    if reg == BP_XFB_REG {
        FifoEvent::Bp { reg: reg as u8, value: FIFO_XFB_VALUE, patched: true }
    } else {
        FifoEvent::Bp { reg: reg as u8, value: (data % 0x100_0000) as u32, patched: false }
    }
}

/// Decoding of the command whose opcode stands at `pos` (`pos < s.len()`).
pub open spec fn step(s: Seq<u8>, pos: int) -> Step {
    let op = s[pos];
    let p = pos + 1;
    if op == OP_NOP {
        Step::Next(seq![FifoEvent::Nop], p)
    } else if op == OP_INVALIDATE_VERTEX_CACHE {
        Step::Next(seq![FifoEvent::InvalidateVertexCache], p)
    } else if op == OP_LOAD_BP {
        if p + 4 <= s.len() {
            Step::Next(seq![bp_event(be32(s, p))], p + 4)
        } else {
            Step::Stop(Seq::empty(), FifoEnd::Truncated)
        }
    } else if op == OP_LOAD_XF {
        if p + 4 <= s.len() {
            let num = be16(s, p);
            if num == 0xffff {
                Step::Stop(Seq::empty(), FifoEnd::CountOverflow)
            } else {
                let count = num + 1;
                let header = FifoEvent::XfHeader { count: count as u16, start_reg: be16(s, p + 2) as u16 };
                let d = p + 4;
                let avail = (s.len() - d) / 4;
                if count <= avail {
                    Step::Next(seq![header] + xf_words(s, d, count), d + 4 * count)
                } else {
                    Step::Stop(seq![header] + xf_words(s, d, avail), FifoEnd::Truncated)
                }
            }
        } else {
            Step::Stop(Seq::empty(), FifoEnd::Truncated)
        }
    } else if op == OP_DRAW_TRIANGLES {
        if p + 2 <= s.len() {
            let n = be16(s, p);
            let header = FifoEvent::DrawHeader { vertices: n as u16 };
            let d = p + 2;
            let avail = (s.len() - d) / 2;
            if n <= avail {
                Step::Next(seq![header] + draw_vertices(s, d, n), d + 2 * n)
            } else {
                Step::Stop(seq![header] + draw_vertices(s, d, avail), FifoEnd::Truncated)
            }
        } else {
            Step::Stop(Seq::empty(), FifoEnd::Truncated)
        }
    } else {
        Step::Next(seq![FifoEvent::Unknown { opcode: op }], p)
    }
}

/// Decoding of the stream `s` from position `pos` on.
pub open spec fn parse_from(s: Seq<u8>, pos: int) -> (Seq<FifoEvent>, FifoEnd)
    decreases s.len() - pos,
{
    if pos < 0 || pos >= s.len() {
        (Seq::empty(), FifoEnd::Complete)
    } else {
        match step(s, pos) {
            Step::Next(evs, np) => {
                if pos < np {
                    let rest = parse_from(s, np);
                    (evs + rest.0, rest.1)
                } else {
                    (evs, FifoEnd::Complete)
                }
            },
            Step::Stop(evs, end) => (evs, end),
        }
    }
}

/// Decoding of a whole stream.
pub open spec fn fifo_events(s: Seq<u8>) -> (Seq<FifoEvent>, FifoEnd) {
    parse_from(s, 0)
}

/// A command never ends before the position it started at, nor after the end
/// of the stream.
pub proof fn lemma_step_advances(s: Seq<u8>, pos: int)
    requires
        0 <= pos < s.len(),
    ensures
        step(s, pos) matches Step::Next(_, np) ==> pos < np <= s.len(),
{
}


/// Whether `r` and the events appended to `events` are what `step(s, pos)` gives.
pub open spec fn step_matches(s: Seq<u8>, pos: int, before: Seq<FifoEvent>, after: Seq<FifoEvent>, r: Result<usize, FifoEnd>) -> bool {
    match step(s, pos) {
        Step::Next(evs, np) => after == before + evs && r == Ok::<usize, FifoEnd>(np as usize),
        Step::Stop(evs, end) => after == before + evs && r == Err::<usize, FifoEnd>(end),
    }
}

/// The BP event for the word `data`.
fn make_bp_event(data: u32) -> (e: FifoEvent)
    ensures
        e == bp_event(data as int),
{
    let reg = (data / 0x100_0000) as u8;
    if reg == BP_XFB_REG {
        FifoEvent::Bp { reg, value: FIFO_XFB_VALUE, patched: true }
    } else {
        FifoEvent::Bp { reg, value: data % 0x100_0000, patched: false }
    }
}

/// Decodes the XF load whose operands start at `p` and appends its events.
fn decode_xf(s: &[u8], p: usize, events: &mut Vec<FifoEvent>) -> (r: Result<usize, FifoEnd>)
    requires
        1 <= p <= s.len(),
        s[p - 1] == OP_LOAD_XF,
    ensures
        step_matches(s@, p - 1, old(events)@, final(events)@, r),
{
    if s.len() - p < 4 {
        return Err(FifoEnd::Truncated);
    }
    let num = read_be16(s, p);
    let reg = read_be16(s, p + 2);
    if num == 0xffff {
        return Err(FifoEnd::CountOverflow);
    }
    let count = num + 1;
    let ghost before = events@;
    let header = FifoEvent::XfHeader { count, start_reg: reg };
    events.push(header);
    let d = p + 4;
    let mut k: u16 = 0;
    let mut q = d;
    while k < count
        invariant
            d == p + 4,
            d <= s.len(),
            1 <= p,
            s[p - 1] == OP_LOAD_XF,
            before == old(events)@,
            num == be16(s@, p as int),
            reg == be16(s@, p + 2),
            num != 0xffff,
            count == num + 1,
            header == (FifoEvent::XfHeader { count, start_reg: reg }),
            k <= count,
            q == d + 4 * k,
            q <= s.len(),
            events@ == before + seq![header] + xf_words(s@, d as int, k as int),
        decreases count - k,
    {
        if s.len() - q < 4 {
            assert((s.len() - d) / 4 == k as int);
            assert(events@ =~= before + (seq![header] + xf_words(s@, d as int, k as int)));
            return Err(FifoEnd::Truncated);
        }
        let data = read_be32(s, q);
        events.push(FifoEvent::XfWord { data });
        assert(xf_words(s@, d as int, k as int).push(FifoEvent::XfWord { data })
            =~= xf_words(s@, d as int, k + 1));
        q = q + 4;
        k = k + 1;
    }
    assert(count as int <= (s.len() - d) / 4);
    assert(events@ =~= before + (seq![header] + xf_words(s@, d as int, count as int)));
    Ok(q)
}

/// Decodes the triangle draw whose operands start at `p` and appends its events.
fn decode_draw(s: &[u8], p: usize, events: &mut Vec<FifoEvent>) -> (r: Result<usize, FifoEnd>)
    requires
        1 <= p <= s.len(),
        s[p - 1] == OP_DRAW_TRIANGLES,
    ensures
        step_matches(s@, p - 1, old(events)@, final(events)@, r),
{
    if s.len() - p < 2 {
        return Err(FifoEnd::Truncated);
    }
    let n = read_be16(s, p);
    let ghost before = events@;
    let header = FifoEvent::DrawHeader { vertices: n };
    events.push(header);
    let d = p + 2;
    let mut k: u16 = 0;
    let mut q = d;
    while k < n
        invariant
            d == p + 2,
            d <= s.len(),
            1 <= p,
            s[p - 1] == OP_DRAW_TRIANGLES,
            before == old(events)@,
            n == be16(s@, p as int),
            header == (FifoEvent::DrawHeader { vertices: n }),
            k <= n,
            q == d + 2 * k,
            q <= s.len(),
            events@ == before + seq![header] + draw_vertices(s@, d as int, k as int),
        decreases n - k,
    {
        if s.len() - q < 2 {
            assert((s.len() - d) / 2 == k as int);
            assert(events@ =~= before + (seq![header] + draw_vertices(s@, d as int, k as int)));
            return Err(FifoEnd::Truncated);
        }
        let a = s[q];
        let b = s[q + 1];
        events.push(FifoEvent::Vertex { a, b });
        assert(draw_vertices(s@, d as int, k as int).push(FifoEvent::Vertex { a, b })
            =~= draw_vertices(s@, d as int, k + 1));
        q = q + 2;
        k = k + 1;
    }
    assert(n as int <= (s.len() - d) / 2);
    assert(events@ =~= before + (seq![header] + draw_vertices(s@, d as int, n as int)));
    Ok(q)
}

/// Decodes the command whose opcode stands at `pos` and appends its events.
fn decode_step(s: &[u8], pos: usize, events: &mut Vec<FifoEvent>) -> (r: Result<usize, FifoEnd>)
    requires
        pos < s.len(),
    ensures
        step_matches(s@, pos as int, old(events)@, final(events)@, r),
{
    let op = s[pos];
    let p = pos + 1;
    let ghost before = events@;
    if op == OP_NOP {
        events.push(FifoEvent::Nop);
        assert(events@ =~= before + seq![FifoEvent::Nop]);
        Ok(p)
    } else if op == OP_INVALIDATE_VERTEX_CACHE {
        events.push(FifoEvent::InvalidateVertexCache);
        assert(events@ =~= before + seq![FifoEvent::InvalidateVertexCache]);
        Ok(p)
    } else if op == OP_LOAD_BP {
        if s.len() - p < 4 {
            Err(FifoEnd::Truncated)
        } else {
            let data = read_be32(s, p);
            let e = make_bp_event(data);
            events.push(e);
            assert(events@ =~= before + seq![e]);
            Ok(p + 4)
        }
    } else if op == OP_LOAD_XF {
        decode_xf(s, p, events)
    } else if op == OP_DRAW_TRIANGLES {
        decode_draw(s, p, events)
    } else {
        events.push(FifoEvent::Unknown { opcode: op });
        assert(events@ =~= before + seq![FifoEvent::Unknown { opcode: op }]);
        Ok(p)
    }
}

/// Decodes a whole command stream: the events in stream order, and how the
/// stream ended.
pub fn decode_fifo(s: &[u8]) -> (r: (Vec<FifoEvent>, FifoEnd))
    ensures
        r.0@ == fifo_events(s@).0,
        r.1 == fifo_events(s@).1,
{
    let mut events: Vec<FifoEvent> = Vec::new();
    let mut pos: usize = 0;
    while pos < s.len()
        invariant
            pos <= s.len(),
            events@ + parse_from(s@, pos as int).0 == fifo_events(s@).0,
            parse_from(s@, pos as int).1 == fifo_events(s@).1,
        decreases s.len() - pos,
    {
        let ghost before = events@;
        proof { lemma_step_advances(s@, pos as int); }
        match decode_step(s, pos, &mut events) {
            Ok(np) => {
                assert(events@ + parse_from(s@, np as int).0 == before + parse_from(s@, pos as int).0);
                pos = np;
            },
            Err(end) => {
                assert(events@ == before + parse_from(s@, pos as int).0);
                return (events, end);
            },
        }
    }
    assert(events@ == fifo_events(s@).0);
    (events, FifoEnd::Complete)
}


/// A decoded event is well formed: a BP load carries a 24-bit value, it is
/// marked patched exactly when it targets the framebuffer register and then
/// carries the driver's framebuffer address, and an XF load announces at
/// least one word.
pub open spec fn event_ok(e: FifoEvent) -> bool {
    match e {
        FifoEvent::Bp { reg, value, patched } => {
            &&& value < 0x100_0000
            &&& (patched <==> reg == BP_XFB_REG)
            &&& (patched ==> value == FIFO_XFB_VALUE)
        },
        FifoEvent::XfHeader { count, .. } => count >= 1,
        _ => true,
    }
}

/// Every event that one command produces is well formed.
proof fn lemma_step_events_ok(s: Seq<u8>, pos: int)
    requires
        0 <= pos < s.len(),
    ensures
        match step(s, pos) {
            Step::Next(evs, _) => forall|i: int| 0 <= i < evs.len() ==> event_ok(#[trigger] evs[i]),
            Step::Stop(evs, _) => forall|i: int| 0 <= i < evs.len() ==> event_ok(#[trigger] evs[i]),
        },
{
    let p = pos + 1;
    if s[pos] == OP_LOAD_BP && p + 4 <= s.len() {
        let data = be32(s, p);
        assert(0 <= data < 0x1_0000_0000);
        assert(data / 0x100_0000 < 256);
    }
}

/// Decoding from `pos` on yields only well-formed events.
proof fn lemma_parse_events_ok(s: Seq<u8>, pos: int)
    ensures
        forall|i: int| 0 <= i < parse_from(s, pos).0.len() ==> event_ok(#[trigger] parse_from(s, pos).0[i]),
    decreases s.len() - pos,
{
    if 0 <= pos < s.len() {
        lemma_step_events_ok(s, pos);
        lemma_step_advances(s, pos);
        match step(s, pos) {
            Step::Next(evs, np) => {
                lemma_parse_events_ok(s, np);
                let rest = parse_from(s, np).0;
                assert forall|i: int| 0 <= i < (evs + rest).len() implies event_ok(#[trigger] (evs + rest)[i]) by {
                    if i >= evs.len() {
                        assert((evs + rest)[i] == rest[i - evs.len()]);
                    }
                }
            },
            Step::Stop(evs, end) => {},
        }
    }
}

/// Whatever bytes a stream holds, every event decoded from it is well formed:
/// in particular no BP load reaches the hardware with more than 24 bits of
/// value, and the framebuffer register is always pointed at the driver's
/// framebuffer.
pub proof fn lemma_fifo_events_ok(s: Seq<u8>)
    ensures
        forall|i: int| 0 <= i < fifo_events(s).0.len() ==> event_ok(#[trigger] fifo_events(s).0[i]),
{
    lemma_parse_events_ok(s, 0);
}

/// A command decodes the same when other bytes stand before it.
proof fn lemma_step_shift(a: Seq<u8>, b: Seq<u8>, q: int)
    requires
        0 <= q < b.len(),
    ensures
        match step(b, q) {
            Step::Next(evs, np) => step(a + b, a.len() + q) == Step::Next(evs, a.len() + np),
            Step::Stop(evs, end) => step(a + b, a.len() + q) == Step::Stop(evs, end),
        },
{
    let c = a + b;
    let l = a.len() as int;
    assert forall|i: int| 0 <= i < b.len() implies c[l + i] == b[i] by {}
    let p = q + 1;
    let op = b[q];
    assert(c[l + q] == op);
    if op == OP_LOAD_BP && p + 4 <= b.len() {
        assert(be32(c, l + p) == be32(b, p));
    } else if op == OP_LOAD_XF && p + 4 <= b.len() {
        assert(be16(c, l + p) == be16(b, p));
        assert(be16(c, l + p + 2) == be16(b, p + 2));
        let d = p + 4;
        let count = be16(b, p) + 1;
        let avail = (b.len() - d) / 4;
        assert((c.len() - (l + d)) / 4 == avail);
        let m = if count <= avail { count } else { avail };
        assert(xf_words(c, l + d, m) =~= xf_words(b, d, m));
    } else if op == OP_DRAW_TRIANGLES && p + 2 <= b.len() {
        assert(be16(c, l + p) == be16(b, p));
        let d = p + 2;
        let n = be16(b, p);
        let avail = (b.len() - d) / 2;
        assert((c.len() - (l + d)) / 2 == avail);
        let m = if n <= avail { n } else { avail };
        assert(draw_vertices(c, l + d, m) =~= draw_vertices(b, d, m));
    }
}

/// A complete command decodes the same when other bytes follow it.
proof fn lemma_step_prefix(a: Seq<u8>, b: Seq<u8>, pos: int)
    requires
        0 <= pos < a.len(),
        step(a, pos) is Next,
    ensures
        step(a + b, pos) == step(a, pos),
{
    let c = a + b;
    assert forall|i: int| 0 <= i < a.len() implies c[i] == a[i] by {}
    let p = pos + 1;
    let op = a[pos];
    if op == OP_LOAD_BP {
        assert(be32(c, p) == be32(a, p));
    } else if op == OP_LOAD_XF {
        assert(be16(c, p) == be16(a, p));
        assert(be16(c, p + 2) == be16(a, p + 2));
        let d = p + 4;
        let count = be16(a, p) + 1;
        assert(count <= (c.len() - d) / 4);
        assert(xf_words(c, d, count) =~= xf_words(a, d, count));
    } else if op == OP_DRAW_TRIANGLES {
        assert(be16(c, p) == be16(a, p));
        let d = p + 2;
        let n = be16(a, p);
        assert(n <= (c.len() - d) / 2);
        assert(draw_vertices(c, d, n) =~= draw_vertices(a, d, n));
    }
}

/// Decoding from position `a.len() + q` of `a + b` is decoding from `q` of `b`.
proof fn lemma_parse_shift(a: Seq<u8>, b: Seq<u8>, q: int)
    requires
        0 <= q,
    ensures
        parse_from(a + b, a.len() + q) == parse_from(b, q),
    decreases b.len() - q,
{
    if q < b.len() {
        lemma_step_shift(a, b, q);
        lemma_step_advances(b, q);
        match step(b, q) {
            Step::Next(evs, np) => {
                lemma_parse_shift(a, b, np);
            },
            Step::Stop(evs, end) => {},
        }
    }
}

/// Decoding from `pos` of `a + b`, when `a` decodes completely from `pos`.
proof fn lemma_parse_prefix(a: Seq<u8>, b: Seq<u8>, pos: int)
    requires
        0 <= pos <= a.len(),
        parse_from(a, pos).1 == FifoEnd::Complete,
    ensures
        parse_from(a + b, pos).0 == parse_from(a, pos).0 + fifo_events(b).0,
        parse_from(a + b, pos).1 == fifo_events(b).1,
    decreases a.len() - pos,
{
    if pos == a.len() {
        lemma_parse_shift(a, b, 0);
        assert(parse_from(a, pos).0 + fifo_events(b).0 =~= fifo_events(b).0);
    } else {
        lemma_step_advances(a, pos);
        lemma_step_prefix(a, b, pos);
        match step(a, pos) {
            Step::Next(evs, np) => {
                lemma_parse_prefix(a, b, np);
                assert(evs + (parse_from(a, np).0 + fifo_events(b).0)
                    =~= (evs + parse_from(a, np).0) + fifo_events(b).0);
            },
            Step::Stop(evs, end) => {},
        }
    }
}

/// Commands are self-delimiting: when a stream `a` decodes completely, the
/// stream `a` followed by `b` decodes to the events of `a` followed by those
/// of `b`, and ends as `b` does.
pub proof fn lemma_fifo_concat(a: Seq<u8>, b: Seq<u8>)
    requires
        fifo_events(a).1 == FifoEnd::Complete,
    ensures
        fifo_events(a + b).0 == fifo_events(a).0 + fifo_events(b).0,
        fifo_events(a + b).1 == fifo_events(b).1,
{
    lemma_parse_prefix(a, b, 0);
}


/// A command `a` that decodes to `evs` and ends exactly where `a` ends
/// contributes `evs` to any stream it begins.
proof fn lemma_first_command(a: Seq<u8>, rest: Seq<u8>, evs: Seq<FifoEvent>)
    requires
        a.len() > 0,
        step(a + rest, 0) == Step::Next(evs, a.len() as int),
    ensures
        fifo_events(a + rest).0 == evs + fifo_events(rest).0,
        fifo_events(a + rest).1 == fifo_events(rest).1,
{
    lemma_parse_shift(a, rest, 0);
}

/// The empty stream decodes to nothing and is complete.
pub proof fn law_empty_stream()
    ensures
        fifo_events(Seq::empty()) == (Seq::<FifoEvent>::empty(), FifoEnd::Complete),
{
}

/// A no-operation byte yields one `Nop` and decoding resumes right after it.
pub proof fn law_nop(rest: Seq<u8>)
    ensures
        fifo_events(seq![0x00u8] + rest).0 == seq![FifoEvent::Nop] + fifo_events(rest).0,
        fifo_events(seq![0x00u8] + rest).1 == fifo_events(rest).1,
{
    lemma_first_command(seq![0x00u8], rest, seq![FifoEvent::Nop]);
}

/// A vertex-cache invalidation byte yields one event and decoding resumes
/// right after it.
pub proof fn law_invalidate_vertex_cache(rest: Seq<u8>)
    ensures
        fifo_events(seq![0x48u8] + rest).0 == seq![FifoEvent::InvalidateVertexCache] + fifo_events(rest).0,
        fifo_events(seq![0x48u8] + rest).1 == fifo_events(rest).1,
{
    lemma_first_command(seq![0x48u8], rest, seq![FifoEvent::InvalidateVertexCache]);
}

/// An opcode the decoder does not know takes no operands: it yields one
/// `Unknown` event carrying it, and decoding resumes at the very next byte.
pub proof fn law_unknown_opcode(op: u8, rest: Seq<u8>)
    requires
        op != 0x00,
        op != 0x10,
        op != 0x48,
        op != 0x61,
        op != 0x90,
    ensures
        fifo_events(seq![op] + rest).0 == seq![FifoEvent::Unknown { opcode: op }] + fifo_events(rest).0,
        fifo_events(seq![op] + rest).1 == fifo_events(rest).1,
{
    lemma_first_command(seq![op], rest, seq![FifoEvent::Unknown { opcode: op }]);
}

/// A BP load is the opcode and four bytes: the first names the register, the
/// other three are the big-endian 24-bit value, except that a load of the
/// framebuffer register carries the driver's framebuffer address instead.
/// Decoding resumes after the five bytes.
pub proof fn law_bp_load(r: u8, b1: u8, b2: u8, b3: u8, rest: Seq<u8>)
    ensures
        ({
            let e = if r == 0x4b {
                FifoEvent::Bp { reg: r, value: FIFO_XFB_VALUE, patched: true }
            } else {
                FifoEvent::Bp { reg: r, value: (b1 * 0x1_0000 + b2 * 0x100 + b3) as u32, patched: false }
            };
            &&& fifo_events(seq![0x61u8, r, b1, b2, b3] + rest).0 == seq![e] + fifo_events(rest).0
            &&& fifo_events(seq![0x61u8, r, b1, b2, b3] + rest).1 == fifo_events(rest).1
        }),
{
    let a = seq![0x61u8, r, b1, b2, b3];
    let s = a + rest;
    let data = r * 0x100_0000 + b1 * 0x1_0000 + b2 * 0x100 + b3;
    assert(be32(s, 1) == data);
    assert(data / 0x100_0000 == r as int);
    assert(data % 0x100_0000 == b1 * 0x1_0000 + b2 * 0x100 + b3);
    let e = if r == 0x4b {
        FifoEvent::Bp { reg: r, value: FIFO_XFB_VALUE, patched: true }
    } else {
        FifoEvent::Bp { reg: r, value: (b1 * 0x1_0000 + b2 * 0x100 + b3) as u32, patched: false }
    };
    assert(step(s, 0) == Step::Next(seq![e], 5));
    lemma_first_command(a, rest, seq![e]);
}

/// A BP load cut short, with fewer than four operand bytes, yields nothing and
/// ends the stream as truncated.
pub proof fn law_bp_load_truncated(tail: Seq<u8>)
    requires
        tail.len() < 4,
    ensures
        fifo_events(seq![0x61u8] + tail) == (Seq::<FifoEvent>::empty(), FifoEnd::Truncated),
{
}

/// The `n` vertices spelt by the bytes `v`, two index bytes each.
pub open spec fn vertices_of(v: Seq<u8>, n: int) -> Seq<FifoEvent> {
    Seq::new(n as nat, |k: int| FifoEvent::Vertex { a: v[2 * k], b: v[2 * k + 1] })
}

/// A triangle draw is the opcode, a big-endian 16-bit vertex count and two
/// index bytes per vertex: it yields a header with that count and exactly
/// that many vertices, and decoding resumes after its last vertex.
pub proof fn law_draw(hi: u8, lo: u8, v: Seq<u8>, rest: Seq<u8>)
    requires
        v.len() == 2 * (hi * 256 + lo),
    ensures
        ({
            let n = hi * 256 + lo;
            let evs = seq![FifoEvent::DrawHeader { vertices: n as u16 }] + vertices_of(v, n);
            &&& fifo_events(seq![0x90u8, hi, lo] + v + rest).0 == evs + fifo_events(rest).0
            &&& fifo_events(seq![0x90u8, hi, lo] + v + rest).1 == fifo_events(rest).1
        }),
{
    let n = hi * 256 + lo;
    let a = seq![0x90u8, hi, lo] + v;
    let s = a + rest;
    assert(s =~= seq![0x90u8, hi, lo] + v + rest);
    assert(be16(s, 1) == n);
    assert(draw_vertices(s, 3, n) =~= vertices_of(v, n));
    let evs = seq![FifoEvent::DrawHeader { vertices: n as u16 }] + vertices_of(v, n);
    assert(step(s, 0) == Step::Next(evs, a.len() as int));
    lemma_first_command(a, rest, evs);
}

/// A triangle draw whose vertices run past the end of the stream yields its
/// header and every whole vertex that the stream holds, and ends it as
/// truncated.
pub proof fn law_draw_truncated(hi: u8, lo: u8, v: Seq<u8>)
    requires
        v.len() < 2 * (hi * 256 + lo),
    ensures
        ({
            let n = hi * 256 + lo;
            let evs = seq![FifoEvent::DrawHeader { vertices: n as u16 }] + vertices_of(v, v.len() as int / 2);
            fifo_events(seq![0x90u8, hi, lo] + v) == (evs, FifoEnd::Truncated)
        }),
{
    let n = hi * 256 + lo;
    let s = seq![0x90u8, hi, lo] + v;
    assert(be16(s, 1) == n);
    assert(draw_vertices(s, 3, v.len() as int / 2) =~= vertices_of(v, v.len() as int / 2));
}

/// The `c` big-endian words spelt by the bytes `w`, as XF data.
pub open spec fn xf_words_of(w: Seq<u8>, c: int) -> Seq<FifoEvent> {
    Seq::new(
        c as nat,
        |k: int| FifoEvent::XfWord {
            data: (w[4 * k] * 0x100_0000 + w[4 * k + 1] * 0x1_0000 + w[4 * k + 2] * 0x100 + w[4 * k + 3]) as u32,
        },
    )
}

/// An XF load is the opcode, a big-endian 16-bit number `num`, a big-endian
/// 16-bit first register and `num + 1` big-endian data words: it yields a
/// header announcing `num + 1` words and exactly those words, and decoding
/// resumes after the last of them.
pub proof fn law_xf_load(n_hi: u8, n_lo: u8, r_hi: u8, r_lo: u8, w: Seq<u8>, rest: Seq<u8>)
    requires
        n_hi * 256 + n_lo < 0xffff,
        w.len() == 4 * (n_hi * 256 + n_lo + 1),
    ensures
        ({
            let c = n_hi * 256 + n_lo + 1;
            let evs = seq![FifoEvent::XfHeader { count: c as u16, start_reg: (r_hi * 256 + r_lo) as u16 }]
                + xf_words_of(w, c);
            &&& fifo_events(seq![0x10u8, n_hi, n_lo, r_hi, r_lo] + w + rest).0 == evs + fifo_events(rest).0
            &&& fifo_events(seq![0x10u8, n_hi, n_lo, r_hi, r_lo] + w + rest).1 == fifo_events(rest).1
        }),
{
    let c = n_hi * 256 + n_lo + 1;
    let a = seq![0x10u8, n_hi, n_lo, r_hi, r_lo] + w;
    let s = a + rest;
    assert(s =~= seq![0x10u8, n_hi, n_lo, r_hi, r_lo] + w + rest);
    assert(be16(s, 1) == n_hi * 256 + n_lo);
    assert(be16(s, 3) == r_hi * 256 + r_lo);
    assert(xf_words(s, 5, c) =~= xf_words_of(w, c));
    let evs = seq![FifoEvent::XfHeader { count: c as u16, start_reg: (r_hi * 256 + r_lo) as u16 }]
        + xf_words_of(w, c);
    assert(step(s, 0) == Step::Next(evs, a.len() as int));
    lemma_first_command(a, rest, evs);
}

/// An XF load whose data runs past the end of the stream yields its header
/// and every whole word that the stream holds, and ends it as truncated.
pub proof fn law_xf_load_truncated(n_hi: u8, n_lo: u8, r_hi: u8, r_lo: u8, w: Seq<u8>)
    requires
        n_hi * 256 + n_lo < 0xffff,
        w.len() < 4 * (n_hi * 256 + n_lo + 1),
    ensures
        ({
            let c = n_hi * 256 + n_lo + 1;
            let evs = seq![FifoEvent::XfHeader { count: c as u16, start_reg: (r_hi * 256 + r_lo) as u16 }]
                + xf_words_of(w, w.len() as int / 4);
            fifo_events(seq![0x10u8, n_hi, n_lo, r_hi, r_lo] + w) == (evs, FifoEnd::Truncated)
        }),
{
    let s = seq![0x10u8, n_hi, n_lo, r_hi, r_lo] + w;
    assert(be16(s, 1) == n_hi * 256 + n_lo);
    assert(be16(s, 3) == r_hi * 256 + r_lo);
    assert(xf_words(s, 5, w.len() as int / 4) =~= xf_words_of(w, w.len() as int / 4));
}

/// An XF load announcing `0xffff + 1` words stops decoding with nothing more,
/// whatever follows.
pub proof fn law_xf_count_overflow(r_hi: u8, r_lo: u8, rest: Seq<u8>)
    ensures
        fifo_events(seq![0x10u8, 0xffu8, 0xffu8, r_hi, r_lo] + rest)
            == (Seq::<FifoEvent>::empty(), FifoEnd::CountOverflow),
{
    let s = seq![0x10u8, 0xffu8, 0xffu8, r_hi, r_lo] + rest;
    assert(be16(s, 1) == 0xffff);
}

/// An XF load cut short inside its four header bytes yields nothing and ends
/// the stream as truncated.
pub proof fn law_xf_header_truncated(tail: Seq<u8>)
    requires
        tail.len() < 4,
    ensures
        fifo_events(seq![0x10u8] + tail) == (Seq::<FifoEvent>::empty(), FifoEnd::Truncated),
{
}

/// A triangle draw cut short inside its two count bytes yields nothing and
/// ends the stream as truncated.
pub proof fn law_draw_header_truncated(tail: Seq<u8>)
    requires
        tail.len() < 2,
    ensures
        fifo_events(seq![0x90u8] + tail) == (Seq::<FifoEvent>::empty(), FifoEnd::Truncated),
{
}

} // verus!
