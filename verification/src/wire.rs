//! Protocol-buffer style field encoding used for the signing bytes and the
//! wire form of every mesh message.

use vstd::prelude::*;
use vstd::utf8::encode_utf8;

verus! {

/// Base-128 little-endian variable-length encoding of a natural number.
pub open spec fn varint(n: nat) -> Seq<u8>
    decreases n,
{
    if n < 128 {
        seq![n as u8]
    } else {
        seq![(n % 128 + 128) as u8] + varint(n / 128)
    }
}

/// Appends the varint encoding of `n` to `buf`.
pub fn put_varint(buf: &mut Vec<u8>, n: u64)
    ensures
        final(buf)@ == old(buf)@ + varint(n as nat),
{
    let mut v: u64 = n;
    while v >= 128
        invariant
            buf@ + varint(v as nat) == old(buf)@ + varint(n as nat),
        decreases v,
    {
        let b: u8 = (v % 128 + 128) as u8;
        let ghost before = buf@;
        buf.push(b);
        proof {
            assert(varint(v as nat) == seq![b] + varint((v / 128) as nat));
            assert(buf@ + varint((v / 128) as nat) =~= before + varint(v as nat));
        }
        v = v / 128;
    }
    let ghost before = buf@;
    buf.push(v as u8);
    proof {
        assert(varint(v as nat) == seq![v as u8]);
        assert(buf@ =~= before + varint(v as nat));
    }
}


/// Key of a field: its tag and wire type packed as a varint.
pub open spec fn field_key(tag: nat, wire_type: nat) -> Seq<u8> {
    varint(tag * 8 + wire_type)
}

/// A length-delimited field (wire type 2).
pub open spec fn len_delimited(tag: nat, data: Seq<u8>) -> Seq<u8> {
    field_key(tag, 2) + varint(data.len()) + data
}

/// A string field; the empty string is the default and is left out.
pub open spec fn string_field(tag: nat, s: Seq<char>) -> Seq<u8> {
    if s.len() == 0 {
        Seq::empty()
    } else {
        len_delimited(tag, encode_utf8(s))
    }
}

/// A bytes field; empty bytes are the default and are left out.
pub open spec fn bytes_field(tag: nat, b: Seq<u8>) -> Seq<u8> {
    if b.len() == 0 {
        Seq::empty()
    } else {
        len_delimited(tag, b)
    }
}

/// An unsigned varint field (wire type 0); zero is left out.
pub open spec fn uint_field(tag: nat, v: nat) -> Seq<u8> {
    if v == 0 {
        Seq::empty()
    } else {
        field_key(tag, 0) + varint(v)
    }
}

/// The 64-bit two's complement value under which an `int32` is encoded.
pub open spec fn int32_bits(v: i32) -> nat {
    if v >= 0 {
        v as nat
    } else {
        (v + 0x1_0000_0000_0000_0000int) as nat
    }
}

/// An `int32` or enum field; zero is left out.
pub open spec fn int32_field(tag: nat, v: i32) -> Seq<u8> {
    uint_field(tag, int32_bits(v))
}

/// A `bool` field; `false` is left out.
pub open spec fn bool_field(tag: nat, b: bool) -> Seq<u8> {
    if b {
        field_key(tag, 0) + seq![1u8]
    } else {
        Seq::empty()
    }
}

/// A repeated string field: one length-delimited entry per element.
pub open spec fn repeated_string(tag: nat, ss: Seq<String>) -> Seq<u8>
    decreases ss.len(),
{
    if ss.len() == 0 {
        Seq::empty()
    } else {
        repeated_string(tag, ss.drop_last()) + len_delimited(tag, encode_utf8(ss.last()@))
    }
}

/// A repeated embedded-message field whose entries are already encoded.
pub open spec fn repeated_bytes(tag: nat, bs: Seq<Vec<u8>>) -> Seq<u8>
    decreases bs.len(),
{
    if bs.len() == 0 {
        Seq::empty()
    } else {
        repeated_bytes(tag, bs.drop_last()) + len_delimited(tag, bs.last()@)
    }
}

/// Little-endian bytes of a 32-bit word.
pub open spec fn le32(w: u32) -> Seq<u8> {
    seq![(w % 256) as u8, ((w / 256) % 256) as u8, ((w / 65536) % 256) as u8, (w / 16777216) as u8]
}

/// Concatenated little-endian bytes of a sequence of 32-bit words.
pub open spec fn le_words(ws: Seq<u32>) -> Seq<u8>
    decreases ws.len(),
{
    if ws.len() == 0 {
        Seq::empty()
    } else {
        le_words(ws.drop_last()) + le32(ws.last())
    }
}

/// A packed repeated 32-bit float field, given by the bit patterns of its
/// values; an empty list is left out.
pub open spec fn packed_fixed32(tag: nat, ws: Seq<u32>) -> Seq<u8> {
    if ws.len() == 0 {
        Seq::empty()
    } else {
        len_delimited(tag, le_words(ws))
    }
}

/// An optional embedded message given by its encoding; `None` is left out.
pub open spec fn message_field(tag: nat, m: Option<Seq<u8>>) -> Seq<u8> {
    match m {
        Some(b) => len_delimited(tag, b),
        None => Seq::empty(),
    }
}

/// Appends `data` to `buf`.
pub fn put_bytes(buf: &mut Vec<u8>, data: &[u8])
    ensures
        final(buf)@ == old(buf)@ + data@,
{
    let mut i: usize = 0;
    while i < data.len()
        invariant
            i <= data@.len(),
            buf@ == old(buf)@ + data@.subrange(0, i as int),
        decreases data@.len() - i,
    {
        buf.push(data[i]);
        i = i + 1;
        assert(buf@ =~= old(buf)@ + data@.subrange(0, i as int));
    }
    assert(data@.subrange(0, data@.len() as int) =~= data@);
}

/// Appends a field key.
pub fn put_key(buf: &mut Vec<u8>, tag: u64, wire_type: u64)
    requires
        tag < 0x2000_0000,
        wire_type < 8,
    ensures
        final(buf)@ == old(buf)@ + field_key(tag as nat, wire_type as nat),
{
    put_varint(buf, tag * 8 + wire_type);
}

/// Appends a length-delimited field.
pub fn put_len_delimited(buf: &mut Vec<u8>, tag: u64, data: &[u8])
    requires
        tag < 0x2000_0000,
    ensures
        final(buf)@ == old(buf)@ + len_delimited(tag as nat, data@),
{
    let ghost start = buf@;
    put_key(buf, tag, 2);
    let ghost k = buf@;
    put_varint(buf, data.len() as u64);
    let ghost l = buf@;
    put_bytes(buf, data);
    assert(buf@ =~= start + len_delimited(tag as nat, data@));
}

/// Appends a string field, leaving out the empty string.
pub fn put_string_field(buf: &mut Vec<u8>, tag: u64, s: &String)
    requires
        tag < 0x2000_0000,
    ensures
        final(buf)@ == old(buf)@ + string_field(tag as nat, s@),
{
    let t: &str = s.as_str();
    if t.is_empty() {
        assert(buf@ =~= old(buf)@ + string_field(tag as nat, s@));
    } else {
        let b: &[u8] = t.as_bytes();
        put_len_delimited(buf, tag, b);
    }
}

/// Appends a bytes field, leaving out empty bytes.
pub fn put_bytes_field(buf: &mut Vec<u8>, tag: u64, b: &[u8])
    requires
        tag < 0x2000_0000,
    ensures
        final(buf)@ == old(buf)@ + bytes_field(tag as nat, b@),
{
    if b.len() == 0 {
        assert(buf@ =~= old(buf)@ + bytes_field(tag as nat, b@));
    } else {
        put_len_delimited(buf, tag, b);
    }
}

/// Appends an unsigned varint field, leaving out zero.
pub fn put_uint_field(buf: &mut Vec<u8>, tag: u64, v: u64)
    requires
        tag < 0x2000_0000,
    ensures
        final(buf)@ == old(buf)@ + uint_field(tag as nat, v as nat),
{
    if v == 0 {
        assert(buf@ =~= old(buf)@ + uint_field(tag as nat, v as nat));
    } else {
        let ghost start = buf@;
        put_key(buf, tag, 0);
        put_varint(buf, v);
        assert(buf@ =~= start + uint_field(tag as nat, v as nat));
    }
}

/// Appends an `int32` or enum field, leaving out zero.
pub fn put_int32_field(buf: &mut Vec<u8>, tag: u64, v: i32)
    requires
        tag < 0x2000_0000,
    ensures
        final(buf)@ == old(buf)@ + int32_field(tag as nat, v),
{
    let bits: u64 = if v >= 0 {
        v as u64
    } else {
        let magnitude: u64 = (-(v as i64)) as u64;
        u64::MAX - (magnitude - 1)
    };
    assert(bits as nat == int32_bits(v));
    put_uint_field(buf, tag, bits);
}

/// Appends a `bool` field, leaving out `false`.
pub fn put_bool_field(buf: &mut Vec<u8>, tag: u64, b: bool)
    requires
        tag < 0x2000_0000,
    ensures
        final(buf)@ == old(buf)@ + bool_field(tag as nat, b),
{
    if b {
        let ghost start = buf@;
        put_key(buf, tag, 0);
        buf.push(1u8);
        assert(buf@ =~= start + bool_field(tag as nat, b));
    } else {
        assert(buf@ =~= old(buf)@ + bool_field(tag as nat, b));
    }
}

/// Appends a repeated string field.
pub fn put_repeated_string(buf: &mut Vec<u8>, tag: u64, ss: &Vec<String>)
    requires
        tag < 0x2000_0000,
    ensures
        final(buf)@ == old(buf)@ + repeated_string(tag as nat, ss@),
{
    let mut i: usize = 0;
    assert(ss@.take(0) =~= Seq::<String>::empty());
    assert(buf@ =~= old(buf)@ + repeated_string(tag as nat, ss@.take(0)));
    while i < ss.len()
        invariant
            tag < 0x2000_0000,
            i <= ss@.len(),
            buf@ == old(buf)@ + repeated_string(tag as nat, ss@.take(i as int)),
        decreases ss@.len() - i,
    {
        let ghost before = buf@;
        let b: &[u8] = ss[i].as_str().as_bytes();
        put_len_delimited(buf, tag, b);
        proof {
            let next = ss@.take(i + 1);
            assert(next.drop_last() =~= ss@.take(i as int));
            assert(next.last() == ss@[i as int]);
        }
        i = i + 1;
        assert(buf@ =~= old(buf)@ + repeated_string(tag as nat, ss@.take(i as int)));
    }
    assert(ss@.take(ss@.len() as int) =~= ss@);
}

/// Appends a repeated embedded-message field whose entries are encoded.
pub fn put_repeated_bytes(buf: &mut Vec<u8>, tag: u64, bs: &Vec<Vec<u8>>)
    requires
        tag < 0x2000_0000,
    ensures
        final(buf)@ == old(buf)@ + repeated_bytes(tag as nat, bs@),
{
    let mut i: usize = 0;
    assert(bs@.take(0) =~= Seq::<Vec<u8>>::empty());
    assert(buf@ =~= old(buf)@ + repeated_bytes(tag as nat, bs@.take(0)));
    while i < bs.len()
        invariant
            tag < 0x2000_0000,
            i <= bs@.len(),
            buf@ == old(buf)@ + repeated_bytes(tag as nat, bs@.take(i as int)),
        decreases bs@.len() - i,
    {
        let ghost before = buf@;
        put_len_delimited(buf, tag, bs[i].as_slice());
        proof {
            let next = bs@.take(i + 1);
            assert(next.drop_last() =~= bs@.take(i as int));
            assert(next.last() == bs@[i as int]);
        }
        i = i + 1;
        assert(buf@ =~= old(buf)@ + repeated_bytes(tag as nat, bs@.take(i as int)));
    }
    assert(bs@.take(bs@.len() as int) =~= bs@);
}

/// Appends the little-endian bytes of `w`.
pub fn put_le32(buf: &mut Vec<u8>, w: u32)
    ensures
        final(buf)@ == old(buf)@ + le32(w),
{
    let ghost start = buf@;
    buf.push((w % 256) as u8);
    buf.push(((w / 256) % 256) as u8);
    buf.push(((w / 65536) % 256) as u8);
    buf.push((w / 16777216) as u8);
    assert(buf@ =~= start + le32(w));
}

/// Little-endian bytes of all words, in order.
pub fn le_words_bytes(ws: &Vec<u32>) -> (out: Vec<u8>)
    ensures
        out@ == le_words(ws@),
{
    let mut out: Vec<u8> = Vec::new();
    let mut i: usize = 0;
    assert(ws@.take(0) =~= Seq::<u32>::empty());
    while i < ws.len()
        invariant
            i <= ws@.len(),
            out@ == le_words(ws@.take(i as int)),
        decreases ws@.len() - i,
    {
        put_le32(&mut out, ws[i]);
        proof {
            let next = ws@.take(i + 1);
            assert(next.drop_last() =~= ws@.take(i as int));
            assert(next.last() == ws@[i as int]);
        }
        i = i + 1;
    }
    assert(ws@.take(ws@.len() as int) =~= ws@);
    out
}

/// A copy of a list of words.
pub fn copy_words(ws: &Vec<u32>) -> (r: Vec<u32>)
    ensures
        r@ == ws@,
{
    let mut r: Vec<u32> = Vec::new();
    let mut i: usize = 0;
    while i < ws.len()
        invariant
            i <= ws@.len(),
            r@ == ws@.take(i as int),
        decreases ws@.len() - i,
    {
        r.push(ws[i]);
        i = i + 1;
        assert(r@ =~= ws@.take(i as int));
    }
    assert(ws@.take(ws@.len() as int) =~= ws@);
    r
}

/// Appends a packed repeated 32-bit float field, leaving out an empty list.
pub fn put_packed_fixed32(buf: &mut Vec<u8>, tag: u64, ws: &Vec<u32>)
    requires
        tag < 0x2000_0000,
    ensures
        final(buf)@ == old(buf)@ + packed_fixed32(tag as nat, ws@),
{
    if ws.len() == 0 {
        assert(buf@ =~= old(buf)@ + packed_fixed32(tag as nat, ws@));
    } else {
        let data = le_words_bytes(ws);
        put_len_delimited(buf, tag, data.as_slice());
    }
}

/// Whether `m` occurs as a contiguous part of `j`.
pub open spec fn contains_bytes(j: Seq<u8>, m: Seq<u8>) -> bool {
    exists|p: Seq<u8>, s: Seq<u8>| j == p + m + s
}

/// A part is contained in itself.
pub proof fn lemma_contains_self(m: Seq<u8>)
    ensures
        contains_bytes(m, m),
{
    assert(m =~= Seq::<u8>::empty() + m + Seq::<u8>::empty());
}

/// A part closing a sequence is contained in it.
pub proof fn lemma_contains_last(a: Seq<u8>, m: Seq<u8>)
    ensures
        contains_bytes(a + m, m),
{
    assert(a + m =~= a + m + Seq::<u8>::empty());
}

/// A contained part stays contained when more bytes follow.
pub proof fn lemma_contains_extend(j: Seq<u8>, m: Seq<u8>, b: Seq<u8>)
    requires
        contains_bytes(j, m),
    ensures
        contains_bytes(j + b, m),
{
    let (p, s) = choose|p: Seq<u8>, s: Seq<u8>| j == p + m + s;
    assert(j + b =~= p + m + (s + b));
}

} // verus!
