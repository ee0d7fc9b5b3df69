//! The remote memory reader: byte-range and C-string reads out of the
//! child's address space, specified against a partial map from addresses to
//! bytes.

use vstd::prelude::*;
use crate::target::TraceTarget;

verus! {

/// Why a remote read failed: the range was not accessible, or no string
/// terminator was found within the scan bound.
#[derive(Clone, Copy, PartialEq, Eq, Structural, Debug)]
pub enum MemError {
    ReadFailed,
    Unterminated,
}

/// Every address in `[base, base + len)` is mapped in `m`.
pub open spec fn range_readable(m: Map<int, u8>, base: int, len: int) -> bool {
    forall|a: int| base <= a < base + len ==> m.dom().contains(a)
}

/// The `len` bytes of `m` starting at `base`.
pub open spec fn range_bytes(m: Map<int, u8>, base: int, len: int) -> Seq<u8> {
    Seq::new(if len >= 0 { len as nat } else { 0 }, |i: int| m[base + i])
}

/// Whether `s` contains a zero byte.
pub open spec fn has_zero(s: Seq<u8>) -> bool {
    exists|i: int| 0 <= i < s.len() && s[i] == 0
}

/// The index of the first zero byte of `s`, or `s.len()` if there is none.
pub open spec fn first_zero(s: Seq<u8>) -> int
    decreases s.len(),
{
    if s.len() == 0 {
        0
    } else if s[0] == 0 {
        0
    } else {
        1 + first_zero(s.subrange(1, s.len() as int))
    }
}

/// The outcome of the chunked C-string scan: the bytes before the first
/// zero byte, an exhausted scan bound, or an unreadable chunk.
pub enum ScanResult {
    Found(Seq<u8>),
    Unterminated,
    Fault,
}

/// Prepend already-accumulated bytes to a scan outcome.
pub open spec fn scan_extend(prefix: Seq<u8>, r: ScanResult) -> ScanResult {
    match r {
        ScanResult::Found(rest) => ScanResult::Found(prefix + rest),
        other => other,
    }
}

/// The chunked C-string scan over memory `m` from `base`: read whole chunks
/// of `chunk` bytes while at most `budget` bytes have been accumulated,
/// stopping at the first chunk that contains a zero byte and yielding
/// everything before that zero.
pub open spec fn cstr_scan(m: Map<int, u8>, base: int, chunk: int, budget: int) -> ScanResult
    decreases budget,
{
    if budget <= 0 || chunk <= 0 {
        ScanResult::Unterminated
    } else if !range_readable(m, base, chunk) {
        ScanResult::Fault
    } else {
        let c = range_bytes(m, base, chunk);
        if has_zero(c) {
            ScanResult::Found(c.take(first_zero(c)))
        } else if budget - chunk <= 0 {
            ScanResult::Unterminated
        } else {
            scan_extend(c, cstr_scan(m, base + chunk, chunk, budget - chunk))
        }
    }
}

/// `first_zero` really is the first zero: if `s[p]` is zero and nothing
/// before it is, then `first_zero(s) == p`.
pub proof fn lemma_first_zero_at(s: Seq<u8>, p: int)
    requires
        0 <= p < s.len(),
        s[p] == 0,
        forall|j: int| 0 <= j < p ==> s[j] != 0,
    ensures
        first_zero(s) == p,
        has_zero(s),
    decreases s.len(),
{
    assert(has_zero(s));
    if p == 0 {
    } else {
        let t = s.subrange(1, s.len() as int);
        assert(t[p - 1] == 0);
        assert forall|j: int| 0 <= j < p - 1 implies t[j] != 0 by {
            assert(t[j] == s[j + 1]);
        }
        lemma_first_zero_at(t, p - 1);
    }
}

/// When the first zero byte of the region at `base` sits at offset `p`,
/// within the scan bound, and memory is mapped through the chunk that
/// contains it, the chunked scan finds exactly the bytes before that zero,
/// however the string falls across chunk boundaries.
pub proof fn lemma_scan_finds_prefix(m: Map<int, u8>, base: int, chunk: int, max: int, p: int)
    requires
        1 <= chunk,
        0 <= p < max,
        m[base + p] == 0,
        forall|j: int| 0 <= j < p ==> #[trigger] m[base + j] != 0,
        range_readable(m, base, p + chunk),
    ensures
        cstr_scan(m, base, chunk, max) == ScanResult::Found(range_bytes(m, base, p)),
    decreases max,
{
    let c = range_bytes(m, base, chunk);
    assert(range_readable(m, base, chunk));
    if p < chunk {
        assert(c[p] == 0);
        assert forall|j: int| 0 <= j < p implies c[j] != 0 by {
            assert(c[j] == m[base + j]);
        }
        lemma_first_zero_at(c, p);
        assert(c.take(p) =~= range_bytes(m, base, p));
    } else {
        assert forall|j: int| 0 <= j < chunk implies c[j] != 0 by {
            assert(c[j] == m[base + j]);
        }
        if has_zero(c) {
            let w = choose|i: int| 0 <= i < c.len() && c[i] == 0;
            assert(c[w] != 0);
        }
        assert(!has_zero(c));
        assert forall|j: int| 0 <= j < p - chunk implies #[trigger] m[(base + chunk) + j] != 0 by {
            assert(m[base + (chunk + j)] != 0);
        }
        assert forall|a: int|
            base + chunk <= a < base + chunk + (p - chunk) + chunk implies m.dom().contains(a) by {
            assert(range_readable(m, base, p + chunk));
        }
        lemma_scan_finds_prefix(m, base + chunk, chunk, max - chunk, p - chunk);
        assert(c + range_bytes(m, base + chunk, p - chunk) =~= range_bytes(m, base, p));
    }
}

/// A mapped region with no zero byte within the scan bound makes the
/// chunked scan give up explicitly rather than read on without end.
pub proof fn lemma_scan_unterminated(m: Map<int, u8>, base: int, chunk: int, max: int)
    requires
        1 <= chunk,
        range_readable(m, base, max + chunk),
        forall|j: int| 0 <= j < max + chunk ==> #[trigger] m[base + j] != 0,
    ensures
        cstr_scan(m, base, chunk, max) == ScanResult::Unterminated,
    decreases max,
{
    if max <= 0 {
    } else {
        assert(range_readable(m, base, chunk));
        let c = range_bytes(m, base, chunk);
        assert forall|j: int| 0 <= j < chunk implies c[j] != 0 by {
            assert(c[j] == m[base + j]);
        }
        if has_zero(c) {
            let w = choose|i: int| 0 <= i < c.len() && c[i] == 0;
            assert(c[w] != 0);
        }
        assert(!has_zero(c));
        if max - chunk > 0 {
            assert forall|a: int|
                base + chunk <= a < base + chunk + (max - chunk) + chunk implies m.dom().contains(
                a,
            ) by {
                assert(range_readable(m, base, max + chunk));
            }
            assert forall|j: int| 0 <= j < (max - chunk) + chunk implies #[trigger] m[(base
                + chunk) + j] != 0 by {
                assert(m[base + (chunk + j)] != 0);
            }
            lemma_scan_unterminated(m, base + chunk, chunk, max - chunk);
        }
    }
}

/// The reference chunk size of the C-string scan.
pub const CSTR_CHUNK: usize = 255;

/// The default bound on how many bytes a C-string scan may accumulate
/// before it gives up with an explicit failure.
pub const CSTR_MAX: usize = 4096;

/// What `String::from_utf8_lossy` decodes the given bytes to: a function of
/// the bytes alone.
pub uninterp spec fn lossy_decode(bytes: Seq<u8>) -> Seq<char>;

/// Relies on String::from_utf8_lossy: decodes bytes permissively, replacing
/// invalid sequences with a replacement marker and never failing; the
/// result depends on the bytes alone.
#[verifier::external_body]
fn utf8_lossy(bytes: &[u8]) -> (r: String)
    ensures
        r@ == lossy_decode(bytes@),
{
    String::from_utf8_lossy(bytes).into_owned()
}

/// The index of the first zero byte of `v`, if any.
fn find_first_zero(v: &Vec<u8>) -> (r: Option<usize>)
    ensures
        match r {
            Some(i) => i < v@.len() && v@[i as int] == 0 && (forall|j: int|
                0 <= j < i ==> v@[j] != 0),
            None => !has_zero(v@),
        },
{
    let n = v.len();
    let mut i: usize = 0;
    while i < n
        invariant
            n == v@.len(),
            i <= n,
            forall|j: int| 0 <= j < i ==> v@[j] != 0,
        decreases n - i,
    {
        if v[i] == 0 {
            return Some(i);
        }
        i = i + 1;
    }
    None
}

/// Read exactly `len` bytes at `base` out of the child. On a reliable
/// target this succeeds exactly when the whole range is mapped, and then
/// returns exactly the modelled bytes.
pub fn read_fixed<T: TraceTarget>(target: &T, base: usize, len: usize) -> (r: Result<
    Vec<u8>,
    MemError,
>)
    ensures
        match r {
            Ok(v) => v@.len() == len && (target.mem_reliable() ==> range_readable(
                target.mem(),
                base as int,
                len as int,
            ) && v@ == range_bytes(target.mem(), base as int, len as int)),
            Err(_) => target.mem_reliable() ==> !range_readable(
                target.mem(),
                base as int,
                len as int,
            ),
        },
{
    target.read_chunk(base, len)
}

/// Read the C string at `base` out of the child, scanning whole chunks of
/// `chunk` bytes and giving up with an explicit failure once `max` bytes
/// have accumulated without a zero byte. On a reliable target the result
/// follows the chunked scan exactly: the decoded bytes before the first
/// zero byte, `Unterminated` when the bound is exhausted, and `ReadFailed`
/// when a needed chunk is unmapped.
pub fn read_c_string_chunked<T: TraceTarget>(
    target: &T,
    base: usize,
    chunk: usize,
    max: usize,
) -> (r: Result<String, MemError>)
    requires
        1 <= chunk,
        base + max + chunk <= usize::MAX,
    ensures
        target.mem_reliable() ==> (match (
            cstr_scan(target.mem(), base as int, chunk as int, max as int),
            r,
        ) {
            (ScanResult::Found(prefix), Ok(s)) => s@ == lossy_decode(prefix),
            (ScanResult::Unterminated, Err(e)) => e == MemError::Unterminated,
            (ScanResult::Fault, Err(e)) => e == MemError::ReadFailed,
            _ => false,
        }),
{
    let mut buf: Vec<u8> = Vec::new();
    let mut cur: usize = base;
    loop
        invariant
            1 <= chunk,
            base + max + chunk <= usize::MAX,
            cur == base + buf@.len(),
            buf@.len() < max + chunk,
            !has_zero(buf@),
            target.mem_reliable() ==> {
                &&& range_readable(target.mem(), base as int, buf@.len() as int)
                &&& buf@ == range_bytes(target.mem(), base as int, buf@.len() as int)
                &&& cstr_scan(target.mem(), base as int, chunk as int, max as int) == scan_extend(
                    buf@,
                    cstr_scan(
                        target.mem(),
                        cur as int,
                        chunk as int,
                        max as int - buf@.len() as int,
                    ),
                )
            },
        decreases max + chunk - buf@.len(),
    {
        if buf.len() >= max {
            return Err(MemError::Unterminated);
        }
        let ghost m = target.mem();
        let ghost len0 = buf@.len() as int;
        let ghost rem = max as int - len0;
        match target.read_chunk(cur, chunk) {
            Err(_) => {
                proof {
                    if target.mem_reliable() {
                        assert(cstr_scan(m, cur as int, chunk as int, rem)
                            == ScanResult::Fault);
                    }
                }
                return Err(MemError::ReadFailed);
            },
            Ok(mut v) => {
                let ghost c = v@;
                let ghost buf0 = buf@;
                buf.append(&mut v);
                cur = cur + chunk;
                proof {
                    if target.mem_reliable() {
                        assert(c == range_bytes(m, base + len0, chunk as int));
                        assert forall|a: int|
                            base <= a < base + buf@.len() implies m.dom().contains(a) by {
                            if a < base + len0 {
                                assert(range_readable(m, base as int, len0));
                            } else {
                                assert(range_readable(m, base + len0, chunk as int));
                            }
                        }
                        assert(buf@ =~= range_bytes(m, base as int, buf@.len() as int));
                    }
                }
                match find_first_zero(&buf) {
                    Some(idx) => {
                        proof {
                            if target.mem_reliable() {
                                assert(idx >= len0) by {
                                    if (idx as int) < len0 {
                                        assert(buf0[idx as int] == buf@[idx as int]);
                                    }
                                }
                                let fz = idx as int - len0;
                                assert(c[fz] == buf@[idx as int] && c[fz] == 0);
                                assert forall|j: int| 0 <= j < fz implies c[j] != 0 by {
                                    assert(c[j] == buf@[len0 + j]);
                                }
                                lemma_first_zero_at(c, fz);
                                assert(cstr_scan(m, base + len0, chunk as int, rem)
                                    == ScanResult::Found(c.take(fz)));
                                assert(buf0 + c.take(fz) =~= buf@.take(idx as int));
                                assert(cstr_scan(m, base as int, chunk as int, max as int)
                                    == ScanResult::Found(buf@.take(idx as int)));
                            }
                        }
                        let prefix = vstd::slice::slice_subrange(buf.as_slice(), 0, idx);
                        let s = utf8_lossy(prefix);
                        proof {
                            assert(prefix@ =~= buf@.take(idx as int));
                        }
                        return Ok(s);
                    },
                    None => {
                        proof {
                            if target.mem_reliable() {
                                assert forall|j: int| 0 <= j < chunk implies c[j] != 0 by {
                                    assert(c[j] == buf@[len0 + j]);
                                }
                                assert(!has_zero(c));
                                let sub = cstr_scan(
                                    m,
                                    base + len0 + chunk,
                                    chunk as int,
                                    rem - chunk,
                                );
                                assert(cstr_scan(m, base + len0, chunk as int, rem)
                                    == scan_extend(c, sub)) by {
                                    if rem - chunk <= 0 {
                                        assert(cstr_scan(m, base + len0, chunk as int, rem)
                                            == ScanResult::Unterminated);
                                        assert(sub == ScanResult::Unterminated);
                                    }
                                }
                                assert(scan_extend(buf0, scan_extend(c, sub)) == scan_extend(
                                    buf@,
                                    sub,
                                )) by {
                                    match sub {
                                        ScanResult::Found(rest) => {
                                            assert(buf0 + (c + rest) =~= buf@ + rest);
                                        },
                                        _ => {},
                                    }
                                }
                            }
                        }
                    },
                }
            },
        }
    }
}

/// Read the C string at `base` with the reference chunk size and the
/// default scan bound.
pub fn read_c_string<T: TraceTarget>(target: &T, base: usize) -> (r: Result<String, MemError>)
    requires
        base + CSTR_MAX + CSTR_CHUNK <= usize::MAX,
    ensures
        target.mem_reliable() ==> (match (
            cstr_scan(target.mem(), base as int, CSTR_CHUNK as int, CSTR_MAX as int),
            r,
        ) {
            (ScanResult::Found(prefix), Ok(s)) => s@ == lossy_decode(prefix),
            (ScanResult::Unterminated, Err(e)) => e == MemError::Unterminated,
            (ScanResult::Fault, Err(e)) => e == MemError::ReadFailed,
            _ => false,
        }),
{
    read_c_string_chunked(target, base, CSTR_CHUNK, CSTR_MAX)
}

/// Read `len` bytes at `base` and decode them permissively to text, as a
/// handler does for a buffer argument whose length is known from the call.
pub fn get_child_buffer<T: TraceTarget>(target: &T, base: usize, len: usize) -> (r: Result<
    String,
    MemError,
>)
    ensures
        match r {
            Ok(s) => target.mem_reliable() ==> range_readable(
                target.mem(),
                base as int,
                len as int,
            ) && s@ == lossy_decode(range_bytes(target.mem(), base as int, len as int)),
            Err(_) => target.mem_reliable() ==> !range_readable(
                target.mem(),
                base as int,
                len as int,
            ),
        },
{
    match read_fixed(target, base, len) {
        Ok(v) => Ok(utf8_lossy(v.as_slice())),
        Err(e) => Err(e),
    }
}

/// Read the C string at `base` with the reference chunk size, as a handler
/// does for a path argument.
pub fn get_child_buffer_cstr<T: TraceTarget>(target: &T, base: usize) -> (r: Result<
    String,
    MemError,
>)
    requires
        base + CSTR_MAX + CSTR_CHUNK <= usize::MAX,
    ensures
        target.mem_reliable() ==> (match (
            cstr_scan(target.mem(), base as int, CSTR_CHUNK as int, CSTR_MAX as int),
            r,
        ) {
            (ScanResult::Found(prefix), Ok(s)) => s@ == lossy_decode(prefix),
            (ScanResult::Unterminated, Err(e)) => e == MemError::Unterminated,
            (ScanResult::Fault, Err(e)) => e == MemError::ReadFailed,
            _ => false,
        }),
{
    read_c_string(target, base)
}

} // verus!
