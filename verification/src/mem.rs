//! Decoding of register-file uploads: the payload of a memory write request,
//! a sequence of little-endian 32-bit words, one per register.

use vstd::prelude::*;
use crate::bytes::{le32, read_le32};

verus! {

/// The register file that an upload targets.
#[derive(Clone, Copy, Debug, PartialEq, Eq, Structural)]
pub enum MemType {
    /// Blitting-processor registers; values are 24 bits wide.
    Bp,
    /// Command-processor registers.
    Cp,
    /// Transform-unit memory, from address 0 on.
    Xf,
    /// Transform-unit registers, from address `XF_REGS_BASE` on.
    XfRegs,
    /// Texture memory; uploads to it are accepted and ignored.
    TexMem,
    /// A memory type that the driver does not know.
    Unknown,
}

/// The first transform-unit register address.
pub const XF_REGS_BASE: usize = 0x1000;

/// The BP register that holds the external framebuffer address.
pub const BP_XFB_INDEX: usize = 0x4b;

/// The value that an upload of the BP framebuffer register is replaced with:
/// the address `0x0177_4000` in 32-byte units. BP loads in command streams use
/// another value, `fifo::FIFO_XFB_VALUE`, sixteen times this one.
pub const XFB_VALUE: u32 = 0x0177_4000 / 32;

/// The first value that does not fit a 24-bit BP register.
pub const BP_VALUE_LIMIT: u32 = 0x100_0000;

/// One register assignment of an upload.
#[derive(Clone, Copy, Debug, PartialEq, Eq, Structural)]
pub struct RegWrite {
    /// The register address within the targeted register file.
    pub reg: usize,
    /// The value assigned.
    pub value: u32,
    /// For a redirected framebuffer register: the byte address that the
    /// upload asked for (its value times 32).
    pub xfb_request: Option<u32>,
}

/// How an upload ended.
#[derive(Clone, Copy, Debug, PartialEq, Eq, Structural)]
pub enum MemEnd {
    /// Every word was decoded.
    Done,
    /// A BP word did not fit 24 bits; decoding stopped before it.
    InvalidValue,
    /// The payload ended before the announced number of words.
    Truncated,
    /// The memory type is unknown.
    UnknownType,
}

/// The assignment made by word `k` of value `w` of an upload to `t`.
pub open spec fn mem_write(t: MemType, k: int, w: int) -> RegWrite {
    match t {
        MemType::Bp => if k == BP_XFB_INDEX {
            RegWrite { reg: k as usize, value: XFB_VALUE, xfb_request: Some((w * 32) as u32) }
        } else {
            RegWrite { reg: k as usize, value: w as u32, xfb_request: None }
        },
        MemType::XfRegs => RegWrite { reg: (XF_REGS_BASE + k) as usize, value: w as u32, xfb_request: None },
        _ => RegWrite { reg: k as usize, value: w as u32, xfb_request: None },
    }
}

/// Decoding of words `k..n` of an upload of `s` to `t`.
pub open spec fn decode_words(t: MemType, s: Seq<u8>, n: int, k: int) -> (Seq<RegWrite>, MemEnd)
    decreases n - k,
{
    if k < 0 || k >= n {
        (Seq::empty(), MemEnd::Done)
    } else if 4 * k + 4 > s.len() {
        (Seq::empty(), MemEnd::Truncated)
    } else {
        let w = le32(s, 4 * k);
        if t == MemType::Bp && w >= BP_VALUE_LIMIT {
            (Seq::empty(), MemEnd::InvalidValue)
        } else {
            let rest = decode_words(t, s, n, k + 1);
            (seq![mem_write(t, k, w)] + rest.0, rest.1)
        }
    }
}

/// Decoding of an upload of `size` bytes (`size / 4` words) to `t`, of which
/// the bytes `s` could be read.
pub open spec fn upload(t: MemType, size: int, s: Seq<u8>) -> (Seq<RegWrite>, MemEnd) {
    match t {
        MemType::TexMem => (Seq::empty(), MemEnd::Done),
        MemType::Unknown => (Seq::empty(), MemEnd::UnknownType),
        _ => decode_words(t, s, size / 4, 0),
    }
}

/// The number of payload bytes that an upload of `size` bytes to `t` reads:
/// its whole words for a register file, none otherwise.
pub open spec fn upload_len(t: MemType, size: int) -> int {
    match t {
        MemType::TexMem => 0,
        MemType::Unknown => 0,
        _ => 4 * (size / 4),
    }
}

/// The number of payload bytes that an upload of `size` bytes to `t` reads.
pub fn upload_byte_count(t: MemType, size: usize) -> (r: usize)
    ensures
        r == upload_len(t, size as int),
{
    match t {
        MemType::TexMem | MemType::Unknown => 0,
        _ => size / 4 * 4,
    }
}

/// Decoding looks at no payload byte past `upload_len`: an upload decodes the
/// same from any buffer that agrees with `s` on its first `upload_len` bytes.
pub proof fn lemma_upload_reads_prefix(t: MemType, size: nat, s: Seq<u8>)
    requires
        upload_len(t, size as int) <= s.len(),
    ensures
        upload(t, size as int, s) == upload(t, size as int, s.take(upload_len(t, size as int))),
{
    if t != MemType::TexMem && t != MemType::Unknown {
        lemma_decode_words_prefix(t, s, s.take(upload_len(t, size as int)), size as int / 4, 0);
    }
}

/// Two payloads that agree on their first `4 * n` bytes and both hold them
/// decode words `k..n` alike.
proof fn lemma_decode_words_prefix(t: MemType, s: Seq<u8>, u: Seq<u8>, n: int, k: int)
    requires
        0 <= k,
        4 * n <= s.len(),
        4 * n <= u.len(),
        forall|i: int| 0 <= i < 4 * n ==> s[i] == u[i],
    ensures
        decode_words(t, s, n, k) == decode_words(t, u, n, k),
    decreases n - k,
{
    if k < n {
        assert(le32(s, 4 * k) == le32(u, 4 * k)) by {
            assert(s[4 * k] == u[4 * k]);
            assert(s[4 * k + 1] == u[4 * k + 1]);
            assert(s[4 * k + 2] == u[4 * k + 2]);
            assert(s[4 * k + 3] == u[4 * k + 3]);
        }
        lemma_decode_words_prefix(t, s, u, n, k + 1);
    }
}

/// The assignment made by word `k` of value `w`.
fn make_write(t: MemType, k: usize, w: u32) -> (r: RegWrite)
    requires
        k <= usize::MAX / 4,
        t == MemType::Bp ==> w < BP_VALUE_LIMIT,
    ensures
        r == mem_write(t, k as int, w as int),
{
    match t {
        MemType::Bp => if k == BP_XFB_INDEX {
            RegWrite { reg: k, value: XFB_VALUE, xfb_request: Some(w * 32) }
        } else {
            RegWrite { reg: k, value: w, xfb_request: None }
        },
        MemType::XfRegs => RegWrite { reg: XF_REGS_BASE + k, value: w, xfb_request: None },
        _ => RegWrite { reg: k, value: w, xfb_request: None },
    }
}

/// Decodes an upload of `size` bytes to the register file `t`, given the
/// bytes `s` of it that could be read: the register assignments in order,
/// and how the upload ended.
pub fn decode_upload(t: MemType, size: usize, s: &[u8]) -> (r: (Vec<RegWrite>, MemEnd))
    ensures
        r.0@ == upload(t, size as int, s@).0,
        r.1 == upload(t, size as int, s@).1,
{
    let mut writes: Vec<RegWrite> = Vec::new();
    match t {
        MemType::TexMem => return (writes, MemEnd::Done),
        MemType::Unknown => return (writes, MemEnd::UnknownType),
        _ => {},
    }
    let n = size / 4;
    let mut k: usize = 0;
    let mut pos: usize = 0;
    while k < n
        invariant
            t != MemType::TexMem,
            t != MemType::Unknown,
            n == size / 4,
            k <= n,
            pos == 4 * k,
            pos <= s.len(),
            writes@ + decode_words(t, s@, n as int, k as int).0 == upload(t, size as int, s@).0,
            decode_words(t, s@, n as int, k as int).1 == upload(t, size as int, s@).1,
        decreases n - k,
    {
        if s.len() - pos < 4 {
            return (writes, MemEnd::Truncated);
        }
        let w = read_le32(s, pos);
        if t == MemType::Bp && w >= BP_VALUE_LIMIT {
            return (writes, MemEnd::InvalidValue);
        }
        let ghost before = writes@;
        let e = make_write(t, k, w);
        writes.push(e);
        assert(writes@ + decode_words(t, s@, n as int, k + 1).0
            =~= before + decode_words(t, s@, n as int, k as int).0);
        k = k + 1;
        pos = pos + 4;
    }
    assert(writes@ =~= upload(t, size as int, s@).0);
    (writes, MemEnd::Done)
}


/// Decoding words `k..n` stops at the first word that is missing or invalid:
/// every assignment it makes comes from the word at its position, in order,
/// and the end it reports is exactly the reason it stopped.
proof fn lemma_decode_words_shape(t: MemType, s: Seq<u8>, n: int, k: int)
    requires
        0 <= k <= n,
    ensures
        ({
            let (w, end) = decode_words(t, s, n, k);
            &&& w.len() <= n - k
            &&& forall|i: int| 0 <= i < w.len() ==> {
                &&& 4 * (k + i) + 4 <= s.len()
                &&& (t == MemType::Bp ==> le32(s, 4 * (k + i)) < BP_VALUE_LIMIT)
                &&& #[trigger] w[i] == mem_write(t, k + i, le32(s, 4 * (k + i)))
            }
            &&& (end == MemEnd::Done <==> w.len() == n - k)
            &&& (end == MemEnd::Truncated ==> k + w.len() < n && 4 * (k + w.len()) + 4 > s.len())
            &&& (end == MemEnd::InvalidValue ==> {
                &&& t == MemType::Bp
                &&& k + w.len() < n
                &&& 4 * (k + w.len()) + 4 <= s.len()
                &&& le32(s, 4 * (k + w.len())) >= BP_VALUE_LIMIT
            })
            &&& end != MemEnd::UnknownType
        }),
    decreases n - k,
{
    if k < n && 4 * k + 4 <= s.len() {
        let w = le32(s, 4 * k);
        if !(t == MemType::Bp && w >= BP_VALUE_LIMIT) {
            lemma_decode_words_shape(t, s, n, k + 1);
            let rest = decode_words(t, s, n, k + 1);
            let all = decode_words(t, s, n, k);
            assert forall|i: int| 0 <= i < all.0.len() implies {
                &&& 4 * (k + i) + 4 <= s.len()
                &&& (t == MemType::Bp ==> le32(s, 4 * (k + i)) < BP_VALUE_LIMIT)
                &&& #[trigger] all.0[i] == mem_write(t, k + i, le32(s, 4 * (k + i)))
            } by {
                if i > 0 {
                    assert(all.0[i] == rest.0[i - 1]);
                    assert(k + 1 + (i - 1) == k + i);
                }
            }
        }
    }
}

/// An upload to a register file makes its assignments in address order, one
/// per little-endian word of the payload, and stops at the first word that is
/// missing or, for the BP, wider than 24 bits. It succeeds exactly when all
/// `size / 4` words were assigned. Uploads to texture memory always succeed
/// without an assignment; uploads of unknown type fail without one.
pub proof fn lemma_upload_shape(t: MemType, size: nat, s: Seq<u8>)
    ensures
        ({
            let (w, end) = upload(t, size as int, s);
            let n = size as int / 4;
            &&& (t == MemType::TexMem ==> w.len() == 0 && end == MemEnd::Done)
            &&& (t == MemType::Unknown ==> w.len() == 0 && end == MemEnd::UnknownType)
            &&& (t != MemType::TexMem && t != MemType::Unknown ==> {
                &&& w.len() <= n
                &&& forall|i: int| 0 <= i < w.len() ==> {
                    &&& 4 * i + 4 <= s.len()
                    &&& (t == MemType::Bp ==> le32(s, 4 * i) < BP_VALUE_LIMIT)
                    &&& #[trigger] w[i] == mem_write(t, i, le32(s, 4 * i))
                }
                &&& (end == MemEnd::Done <==> w.len() == n)
                &&& (end == MemEnd::Truncated ==> w.len() < n && 4 * w.len() + 4 > s.len())
                &&& (end == MemEnd::InvalidValue ==> {
                    &&& t == MemType::Bp
                    &&& w.len() < n
                    &&& 4 * w.len() + 4 <= s.len()
                    &&& le32(s, 4 * w.len() as int) >= BP_VALUE_LIMIT
                })
                &&& end != MemEnd::UnknownType
            })
        }),
{
    if t != MemType::TexMem && t != MemType::Unknown {
        lemma_decode_words_shape(t, s, size as int / 4, 0);
    }
}

/// Every BP assignment fits the 24-bit registers, and the framebuffer register
/// never receives the value that was uploaded for it: it is always pointed at
/// the driver's framebuffer, and the address that was asked for is reported.
pub proof fn lemma_bp_upload_safe(size: usize, s: Seq<u8>)
    ensures
        forall|i: int| 0 <= i < upload(MemType::Bp, size as int, s).0.len() ==> {
            let w = #[trigger] upload(MemType::Bp, size as int, s).0[i];
            &&& w.value < BP_VALUE_LIMIT
            &&& w.reg == i
            &&& (w.reg == BP_XFB_INDEX ==> w.value == XFB_VALUE
                && w.xfb_request == Some((le32(s, 4 * i) * 32) as u32))
            &&& (w.reg != BP_XFB_INDEX ==> w.value == le32(s, 4 * i) && w.xfb_request is None)
        },
{
    lemma_upload_shape(MemType::Bp, size as nat, s);
    let w = upload(MemType::Bp, size as int, s).0;
    assert forall|i: int| 0 <= i < w.len() implies {
        let e = #[trigger] w[i];
        &&& e.value < BP_VALUE_LIMIT
        &&& e.reg == i
        &&& (e.reg == BP_XFB_INDEX ==> e.value == XFB_VALUE
            && e.xfb_request == Some((le32(s, 4 * i) * 32) as u32))
        &&& (e.reg != BP_XFB_INDEX ==> e.value == le32(s, 4 * i) && e.xfb_request is None)
    } by {
        assert(w[i] == mem_write(MemType::Bp, i, le32(s, 4 * i)));
    }
}


/// An upload to the CP, the XF memory or the XF registers carries each
/// payload word whole: assignment `i` sets register `i` (from `0x1000` on for
/// the XF registers) to the little-endian word in bytes `4i..4i+4`, with no
/// framebuffer request. It assigns as many words as the announced size and
/// the payload both hold, and succeeds exactly when the payload holds them
/// all; otherwise it is truncated.
pub proof fn law_register_upload(t: MemType, size: usize, s: Seq<u8>)
    requires
        t == MemType::Cp || t == MemType::Xf || t == MemType::XfRegs,
    ensures
        ({
            let (w, end) = upload(t, size as int, s);
            let n = size as int / 4;
            &&& w.len() == if n <= s.len() as int / 4 { n } else { s.len() as int / 4 }
            &&& forall|i: int| 0 <= i < w.len() ==> #[trigger] w[i] == RegWrite {
                reg: (if t == MemType::XfRegs { 0x1000 + i } else { i }) as usize,
                value: (s[4 * i] + s[4 * i + 1] * 0x100 + s[4 * i + 2] * 0x1_0000 + s[4 * i + 3] * 0x100_0000) as u32,
                xfb_request: None,
            }
            &&& (end == MemEnd::Done <==> 4 * n <= s.len())
            &&& (end != MemEnd::Done ==> end == MemEnd::Truncated)
        }),
{
    lemma_upload_shape(t, size as nat, s);
    let (w, end) = upload(t, size as int, s);
    let n = size as int / 4;
    if end == MemEnd::Done {
        if n > 0 {
            assert(4 * (n - 1) + 4 <= s.len()) by {
                let _ = w[n - 1];
            }
        }
    } else {
        assert(end == MemEnd::Truncated);
        if w.len() > 0 {
            let _ = w[w.len() - 1];
        }
    }
}

/// A BP upload assigns register `i` the little-endian word in bytes
/// `4i..4i+4`, which must fit 24 bits (its top byte, byte `4i+3`, is zero);
/// register `0x4b` is pointed at the driver's framebuffer instead, and the
/// byte address asked for (the word times 32) is reported. Decoding stops at
/// the first word that is missing (truncated) or has a nonzero top byte
/// (invalid), and succeeds exactly when all `size / 4` words were assigned.
pub proof fn law_bp_upload(size: usize, s: Seq<u8>)
    ensures
        ({
            let (w, end) = upload(MemType::Bp, size as int, s);
            let n = size as int / 4;
            &&& w.len() <= n
            &&& forall|i: int| 0 <= i < w.len() ==> {
                let word = s[4 * i] + s[4 * i + 1] * 0x100 + s[4 * i + 2] * 0x1_0000 + s[4 * i + 3] * 0x100_0000;
                &&& 4 * i + 4 <= s.len()
                &&& s[4 * i + 3] == 0
                &&& #[trigger] w[i] == if i == 0x4b {
                    RegWrite { reg: 0x4b, value: XFB_VALUE, xfb_request: Some((word * 32) as u32) }
                } else {
                    RegWrite { reg: i as usize, value: word as u32, xfb_request: None }
                }
            }
            &&& (end == MemEnd::Done <==> w.len() == n)
            &&& (end == MemEnd::Truncated ==> w.len() < n && s.len() < 4 * w.len() + 4)
            &&& (end == MemEnd::InvalidValue ==> w.len() < n && 4 * w.len() + 4 <= s.len()
                && s[4 * w.len() as int + 3] != 0)
            &&& end != MemEnd::UnknownType
        }),
{
    lemma_upload_shape(MemType::Bp, size as nat, s);
    let (w, end) = upload(MemType::Bp, size as int, s);
    assert forall|i: int| 0 <= i < w.len() implies {
        let word = s[4 * i] + s[4 * i + 1] * 0x100 + s[4 * i + 2] * 0x1_0000 + s[4 * i + 3] * 0x100_0000;
        &&& 4 * i + 4 <= s.len()
        &&& s[4 * i + 3] == 0
        &&& #[trigger] w[i] == if i == 0x4b {
            RegWrite { reg: 0x4b, value: XFB_VALUE, xfb_request: Some((word * 32) as u32) }
        } else {
            RegWrite { reg: i as usize, value: word as u32, xfb_request: None }
        }
    } by {
        assert(w[i] == mem_write(MemType::Bp, i, le32(s, 4 * i)));
    }
}

} // verus!
