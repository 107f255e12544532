//! The pieces of the big-endian CDR encoding that the key material uses:
//! runs of plain octets, 32-bit numbers, and octet sequences with a 32-bit
//! length in front. A 32-bit number starts at a multiple of four bytes from
//! the start of the encoding; the bytes that fill the gap before it are
//! written as zero and skipped unread.

use byteorder::{BigEndian, ByteOrder};
use vstd::prelude::*;

verus! {

/// The four bytes of a 32-bit number, most significant first.
pub open spec fn be_u32_bytes(n: u32) -> Seq<u8> {
    seq![
        (n / 0x100_0000) as u8,
        (n / 0x1_0000 % 0x100) as u8,
        (n / 0x100 % 0x100) as u8,
        (n % 0x100) as u8,
    ]
}

/// The number that the first four bytes of `b` spell, most significant first.
pub open spec fn be_u32_value(b: Seq<u8>) -> int {
    b[0] * 0x100_0000 + b[1] * 0x1_0000 + b[2] * 0x100 + b[3]
}

/// Spelling a number and reading the spelling gives the number back.
pub proof fn lemma_be_u32_value_of_bytes(n: u32)
    ensures
        be_u32_bytes(n).len() == 4,
        be_u32_value(be_u32_bytes(n)) == n,
{
}

/// `byteorder::BigEndian::read_u32`: the number that the first four bytes of
/// `buf` spell in big-endian order. It panics on fewer than four bytes, which
/// the precondition leaves out.
#[verifier::external_body]
fn read_u32_be(buf: &[u8]) -> (n: u32)
    requires
        buf@.len() >= 4,
    ensures
        n == be_u32_value(buf@),
{
    BigEndian::read_u32(buf)
}

/// `byteorder::BigEndian::write_u32` on a fresh buffer of four bytes: the
/// buffer then holds the big-endian spelling of `n`.
#[verifier::external_body]
fn u32_to_be(n: u32) -> (out: [u8; 4])
    ensures
        out@ == be_u32_bytes(n),
{
    let mut out = [0u8; 4];
    BigEndian::write_u32(&mut out, n);
    out
}

/// The number of bytes between position `pos` and the next multiple of four.
pub open spec fn spec_padding(pos: int) -> int {
    (4 - pos % 4) % 4
}

/// `n` zero bytes.
pub open spec fn zeros(n: int) -> Seq<u8> {
    Seq::new(n as nat, |i: int| 0u8)
}

/// `prefix` filled up with zero bytes to a multiple of four.
pub open spec fn append_padding(prefix: Seq<u8>) -> Seq<u8> {
    prefix + zeros(spec_padding(prefix.len() as int))
}

/// `prefix` followed by the 32-bit number `n` at the next multiple of four.
pub open spec fn append_u32(prefix: Seq<u8>, n: u32) -> Seq<u8> {
    append_padding(prefix) + be_u32_bytes(n)
}

/// `prefix` followed by the octet sequence `data`: its length as a 32-bit
/// number, then its bytes.
pub open spec fn append_octets(prefix: Seq<u8>, data: Seq<u8>) -> Seq<u8> {
    append_u32(prefix, data.len() as u32) + data
}

/// Reads `n` plain octets at `pos`: the octets and the position behind them,
/// or nothing where the input ends before.
pub open spec fn parse_fixed(bytes: Seq<u8>, pos: int, n: int) -> Option<(Seq<u8>, int)> {
    if 0 <= pos && 0 <= n && pos + n <= bytes.len() {
        Some((bytes.subrange(pos, pos + n), pos + n))
    } else {
        None
    }
}

/// Reads a 32-bit number at the first multiple of four from `pos` on.
pub open spec fn parse_u32(bytes: Seq<u8>, pos: int) -> Option<(u32, int)> {
    let start = pos + spec_padding(pos);
    if 0 <= pos && start + 4 <= bytes.len() {
        Some((be_u32_value(bytes.subrange(start, start + 4)) as u32, start + 4))
    } else {
        None
    }
}

/// Reads an octet sequence of at most `bound` bytes at `pos`. A length above
/// the bound, or one that reaches past the end of the input, gives nothing.
pub open spec fn parse_octets(bytes: Seq<u8>, pos: int, bound: int) -> Option<(Seq<u8>, int)> {
    match parse_u32(bytes, pos) {
        Some((n, start)) => if n <= bound && start + n <= bytes.len() {
            Some((bytes.subrange(start, start + n), start + n))
        } else {
            None
        },
        None => None,
    }
}

/// Appends plain octets to an encoding.
pub fn write_fixed(out: &mut Vec<u8>, data: &[u8])
    ensures
        final(out)@ == old(out)@ + data@,
{
    let ghost before = out@;
    let mut i: usize = 0;
    while i < data.len()
        invariant
            i <= data@.len(),
            out@ == before + data@.subrange(0, i as int),
        decreases data@.len() - i,
    {
        out.push(data[i]);
        i += 1;
    }
}

/// Fills an encoding up with zero bytes to a multiple of four.
pub fn write_padding(out: &mut Vec<u8>)
    ensures
        final(out)@ == append_padding(old(out)@),
{
    let ghost before = out@;
    let gap: usize = (4 - out.len() % 4) % 4;
    let mut i: usize = 0;
    while i < gap
        invariant
            i <= gap,
            gap == spec_padding(before.len() as int),
            out@ == before + zeros(i as int),
        decreases gap - i,
    {
        out.push(0u8);
        i += 1;
    }
}

/// Appends a 32-bit number to an encoding, at the next multiple of four.
pub fn write_u32(out: &mut Vec<u8>, n: u32)
    ensures
        final(out)@ == append_u32(old(out)@, n),
{
    write_padding(out);
    let spelled = u32_to_be(n);
    write_fixed(out, spelled.as_slice());
}

/// Appends an octet sequence to an encoding.
pub fn write_octets(out: &mut Vec<u8>, data: &[u8])
    requires
        data@.len() <= u32::MAX,
    ensures
        final(out)@ == append_octets(old(out)@, data@),
{
    write_u32(out, data.len() as u32);
    write_fixed(out, data);
}

/// Reads `n` plain octets at `pos`.
pub fn read_fixed<'a>(bytes: &'a [u8], pos: usize, n: usize) -> (r: Option<(&'a [u8], usize)>)
    ensures
        match r {
            Some((data, next)) => parse_fixed(bytes@, pos as int, n as int) == Some((data@, next as int)),
            None => parse_fixed(bytes@, pos as int, n as int) is None,
        },
{
    if pos > bytes.len() || bytes.len() - pos < n {
        return None;
    }
    let data = vstd::slice::slice_subrange(bytes, pos, pos + n);
    Some((data, pos + n))
}

/// Reads a 32-bit number at the first multiple of four from `pos` on.
pub fn read_u32(bytes: &[u8], pos: usize) -> (r: Option<(u32, usize)>)
    ensures
        match r {
            Some((n, next)) => parse_u32(bytes@, pos as int) == Some((n, next as int)),
            None => parse_u32(bytes@, pos as int) is None,
        },
{
    let gap: usize = (4 - pos % 4) % 4;
    if pos > bytes.len() || bytes.len() - pos < gap + 4 {
        return None;
    }
    let start: usize = pos + gap;
    let spelled = vstd::slice::slice_subrange(bytes, start, start + 4);
    let n = read_u32_be(spelled);
    Some((n, start + 4))
}

/// Reads an octet sequence of at most `bound` bytes at `pos`.
pub fn read_octets<'a>(bytes: &'a [u8], pos: usize, bound: u32) -> (r: Option<(&'a [u8], usize)>)
    ensures
        match r {
            Some((data, next)) => parse_octets(bytes@, pos as int, bound as int) == Some(
                (data@, next as int),
            ),
            None => parse_octets(bytes@, pos as int, bound as int) is None,
        },
{
    match read_u32(bytes, pos) {
        None => None,
        Some((n, start)) => {
            if n > bound {
                return None;
            }
            match read_fixed(bytes, start, n as usize) {
                None => None,
                Some((data, next)) => Some((data, next)),
            }
        },
    }
}

/// Whether two runs of octets are the same. Runs of one length are compared
/// to their end, also behind the first difference.
pub fn same_octets(a: &[u8], b: &[u8]) -> (same: bool)
    ensures
        same == (a@ == b@),
{
    if a.len() != b.len() {
        return false;
    }
    let mut same = true;
    let mut i: usize = 0;
    assert(a@.subrange(0, 0) =~= b@.subrange(0, 0));
    while i < a.len()
        invariant
            i <= a@.len(),
            a@.len() == b@.len(),
            same == (a@.subrange(0, i as int) == b@.subrange(0, i as int)),
        decreases a@.len() - i,
    {
        let equal_here = a[i] == b[i];
        proof {
            let before_a = a@.subrange(0, i as int);
            let before_b = b@.subrange(0, i as int);
            let now_a = a@.subrange(0, i + 1);
            let now_b = b@.subrange(0, i + 1);
            assert(now_a.drop_last() =~= before_a);
            assert(now_b.drop_last() =~= before_b);
            assert(now_b.last() == b@[i as int]);
            if before_a == before_b && a@[i as int] == b@[i as int] {
                assert(now_a =~= now_b);
            }
        }
        same = same && equal_here;
        i += 1;
    }
    assert(a@.subrange(0, i as int) =~= a@);
    assert(b@.subrange(0, i as int) =~= b@);
    same
}

/// Copies `N` octets into an array.
pub(crate) fn octets_to_array<const N: usize>(data: &[u8]) -> (a: [u8; N])
    requires
        data@.len() == N,
    ensures
        a@ == data@,
{
    let mut a: [u8; N] = [0u8; N];
    let mut i: usize = 0;
    while i < N
        invariant
            i <= N,
            data@.len() == N,
            forall|j: int| 0 <= j < i ==> a@[j] == data@[j],
        decreases N - i,
    {
        a[i] = data[i];
        i += 1;
    }
    a
}

/// Plain octets that were appended to a prefix are read back behind it,
/// whatever follows them.
pub proof fn lemma_parse_fixed_of_append(bytes: Seq<u8>, prefix: Seq<u8>, data: Seq<u8>)
    requires
        (prefix + data).is_prefix_of(bytes),
    ensures
        parse_fixed(bytes, prefix.len() as int, data.len() as int) == Some(
            (data, (prefix + data).len() as int),
        ),
{
    let enc = prefix + data;
    let lo = prefix.len() as int;
    assert(bytes.subrange(lo, lo + data.len()) =~= data) by {
        assert forall|i: int| 0 <= i < data.len() implies bytes.subrange(lo, lo + data.len())[i]
            == data[i] by {
            assert(bytes.subrange(0, enc.len() as int)[lo + i] == enc[lo + i]);
        }
    }
}

/// A 32-bit number that was appended to a prefix is read back behind it.
pub proof fn lemma_parse_u32_of_append(bytes: Seq<u8>, prefix: Seq<u8>, n: u32)
    requires
        append_u32(prefix, n).is_prefix_of(bytes),
    ensures
        parse_u32(bytes, prefix.len() as int) == Some((n, append_u32(prefix, n).len() as int)),
{
    let padded = append_padding(prefix);
    lemma_be_u32_value_of_bytes(n);
    lemma_parse_fixed_of_append(bytes, padded, be_u32_bytes(n));
}

/// An octet sequence within the bound that was appended to a prefix is read
/// back behind it.
pub proof fn lemma_parse_octets_of_append(bytes: Seq<u8>, prefix: Seq<u8>, data: Seq<u8>, bound: int)
    requires
        data.len() <= bound <= u32::MAX,
        append_octets(prefix, data).is_prefix_of(bytes),
    ensures
        parse_octets(bytes, prefix.len() as int, bound) == Some(
            (data, append_octets(prefix, data).len() as int),
        ),
{
    let n = data.len() as u32;
    let head = append_u32(prefix, n);
    assert(head.is_prefix_of(bytes)) by {
        lemma_prefix_of_append(head, data, bytes);
    }
    lemma_parse_u32_of_append(bytes, prefix, n);
    lemma_parse_fixed_of_append(bytes, head, data);
}

/// The prefix of an appended octet sequence begins whatever the whole begins.
pub proof fn lemma_prefix_of_append_octets(prefix: Seq<u8>, data: Seq<u8>, bytes: Seq<u8>)
    requires
        append_octets(prefix, data).is_prefix_of(bytes),
    ensures
        prefix.is_prefix_of(bytes),
{
    let n = data.len() as u32;
    lemma_prefix_of_append(append_u32(prefix, n), data, bytes);
    lemma_prefix_of_append(append_padding(prefix), be_u32_bytes(n), bytes);
    lemma_prefix_of_append(prefix, zeros(spec_padding(prefix.len() as int)), bytes);
}

/// What begins an encoding that begins the input begins the input.
pub proof fn lemma_prefix_of_append(head: Seq<u8>, tail: Seq<u8>, bytes: Seq<u8>)
    requires
        (head + tail).is_prefix_of(bytes),
    ensures
        head.is_prefix_of(bytes),
{
    assert(bytes.subrange(0, head.len() as int) =~= head);
}

} // verus!
