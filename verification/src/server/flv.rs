//! FLV framing: the file header, tags, and the backlog of recent tags.

use vstd::prelude::*;

use crate::server::segments::drop_oldest;

verus! {

/// The 13 bytes that open an FLV stream: signature, version 1, audio and
/// video present, header size 9, and a zero previous-tag size.
pub open spec fn flv_header() -> Seq<u8> {
    seq![0x46u8, 0x4Cu8, 0x56u8, 1u8, 0x05u8, 0u8, 0u8, 0u8, 9u8, 0u8, 0u8, 0u8, 0u8]
}

/// Byte `k` (0 = least significant) of `n`.
pub open spec fn byte_of(n: nat, k: nat) -> u8 {
    ((n / pow256(k)) % 256) as u8
}

/// 256 to the power `k`.
pub open spec fn pow256(k: nat) -> nat
    decreases k,
{
    if k == 0 {
        1
    } else {
        256 * pow256((k - 1) as nat)
    }
}

/// An FLV tag: type, 24-bit payload size, 24-bit timestamp with its
/// extension byte, zero stream id, the payload, then the 32-bit size of
/// everything before it.
pub open spec fn flv_tag(tag_type: u8, timestamp: u32, data: Seq<u8>) -> Seq<u8> {
    let size = data.len();
    let total = size + 11;
    seq![
        tag_type,
        byte_of(size, 2),
        byte_of(size, 1),
        byte_of(size, 0),
        byte_of(timestamp as nat, 2),
        byte_of(timestamp as nat, 1),
        byte_of(timestamp as nat, 0),
        byte_of(timestamp as nat, 3),
        0u8,
        0u8,
        0u8,
    ] + data + seq![byte_of(total, 3), byte_of(total, 2), byte_of(total, 1), byte_of(total, 0)]
}

/// The FLV file header.
pub fn build_flv_header() -> (h: Vec<u8>)
    ensures
        h@ == flv_header(),
{
    let mut h: Vec<u8> = Vec::new();
    h.push(0x46);
    h.push(0x4C);
    h.push(0x56);
    h.push(1);
    h.push(0x05);
    h.push(0);
    h.push(0);
    h.push(0);
    h.push(9);
    h.push(0);
    h.push(0);
    h.push(0);
    h.push(0);
    proof {
        assert(h@ =~= flv_header());
    }
    h
}

fn byte_at(n: u32, k: u32) -> (b: u8)
    requires
        k < 4,
    ensures
        b == byte_of(n as nat, k as nat),
{
    proof {
        reveal_with_fuel(pow256, 4);
    }
    let d: u32 = if k == 0 {
        1
    } else if k == 1 {
        256
    } else if k == 2 {
        65536
    } else {
        16777216
    };
    ((n / d) % 256) as u8
}

/// Wraps a payload in an FLV tag. The payload and its 11-byte tag header
/// must fit the 32-bit size field.
pub fn build_flv_tag(tag_type: u8, timestamp: u32, data: &[u8]) -> (tag: Vec<u8>)
    requires
        data@.len() + 11 <= u32::MAX,
    ensures
        tag@ == flv_tag(tag_type, timestamp, data@),
{
    let data_size = data.len() as u32;
    let total = 11 + data_size;
    let mut buf: Vec<u8> = Vec::new();
    buf.push(tag_type);
    buf.push(byte_at(data_size, 2));
    buf.push(byte_at(data_size, 1));
    buf.push(byte_at(data_size, 0));
    buf.push(byte_at(timestamp, 2));
    buf.push(byte_at(timestamp, 1));
    buf.push(byte_at(timestamp, 0));
    buf.push(byte_at(timestamp, 3));
    buf.push(0);
    buf.push(0);
    buf.push(0);
    let ghost head = buf@;
    let n = data.len();
    for i in 0..n
        invariant
            n == data@.len(),
            buf@ == head + data@.subrange(0, i as int),
    {
        buf.push(data[i]);
        proof {
            assert(buf@ =~= head + data@.subrange(0, i + 1));
        }
    }
    proof {
        assert(data@.subrange(0, n as int) =~= data@);
    }
    buf.push(byte_at(total, 3));
    buf.push(byte_at(total, 2));
    buf.push(byte_at(total, 1));
    buf.push(byte_at(total, 0));
    proof {
        assert(buf@ =~= flv_tag(tag_type, timestamp, data@));
    }
    buf
}

/// The number of tags the backlog may hold before it is cut.
pub const FLV_BACKLOG_LIMIT: usize = 1000;

/// The number of oldest tags dropped when the backlog overflows.
pub const FLV_BACKLOG_DROP: usize = 500;

/// Keeps recent tags for late joiners: appends `data`, and once more than
/// a thousand tags are held drops the oldest five hundred.
pub fn push_flv_backlog(segments: &mut Vec<Vec<u8>>, data: Vec<u8>)
    ensures
        ({
            let pushed = old(segments)@.push(data);
            final(segments)@ == if pushed.len() > 1000 {
                pushed.subrange(500, pushed.len() as int)
            } else {
                pushed
            }
        }),
{
    segments.push(data);
    if segments.len() > FLV_BACKLOG_LIMIT {
        drop_oldest(segments, FLV_BACKLOG_DROP);
    }
}

/// A big-endian unsigned integer read from `width` bytes at `at`.
pub open spec fn read_be(bytes: Seq<u8>, at: int, width: nat) -> nat
    decreases width,
{
    if width == 0 {
        0
    } else {
        read_be(bytes, at, (width - 1) as nat) * 256 + bytes[at + width - 1] as nat
    }
}

proof fn lemma_byte_split(n: nat)
    requires
        n < 4294967296,
    ensures
        n == byte_of(n, 3) as nat * 16777216 + byte_of(n, 2) as nat * 65536 + byte_of(n, 1) as nat * 256
            + byte_of(n, 0) as nat,
        n < 16777216 ==> n == byte_of(n, 2) as nat * 65536 + byte_of(n, 1) as nat * 256 + byte_of(n, 0) as nat,
{
    reveal_with_fuel(pow256, 4);
    assert(pow256(0) == 1 && pow256(1) == 256 && pow256(2) == 65536 && pow256(3) == 16777216);
    let b0 = n % 256;
    let b1 = (n / 256) % 256;
    let b2 = (n / 65536) % 256;
    let b3 = (n / 16777216) % 256;
    assert(n == b3 * 16777216 + b2 * 65536 + b1 * 256 + b0) by (nonlinear_arith)
        requires
            n < 4294967296,
            b0 == n % 256,
            b1 == (n / 256) % 256,
            b2 == (n / 65536) % 256,
            b3 == (n / 16777216) % 256,
    ;
    assert(n < 16777216 ==> b3 == 0) by (nonlinear_arith)
        requires
            b3 == (n / 16777216) % 256,
    ;
    assert(byte_of(n, 0) as nat == b0 && byte_of(n, 1) as nat == b1);
    assert(byte_of(n, 2) as nat == b2 && byte_of(n, 3) as nat == b3);
}

/// Reading a tag back gives what was framed: the type, the payload size in
/// the 24-bit size field, the timestamp from its four bytes, the payload
/// itself, and the trailing size of tag header plus payload.
pub proof fn lemma_flv_tag_reads_back(tag_type: u8, timestamp: u32, data: Seq<u8>)
    requires
        data.len() + 11 < 16777216,
    ensures
        ({
            let tag = flv_tag(tag_type, timestamp, data);
            &&& tag.len() == data.len() + 15
            &&& tag[0] == tag_type
            &&& read_be(tag, 1, 3) == data.len()
            &&& read_be(tag, 4, 3) + tag[7] as nat * 16777216 == timestamp as nat
            &&& tag.subrange(11, (11 + data.len()) as int) == data
            &&& read_be(tag, (11 + data.len()) as int, 4) == data.len() + 11
        }),
{
    let tag = flv_tag(tag_type, timestamp, data);
    let n = data.len();
    reveal_with_fuel(read_be, 5);
    lemma_byte_split(n);
    lemma_byte_split(timestamp as nat);
    lemma_byte_split(n + 11);
    assert(tag.subrange(11, 11 + n as int) =~= data);
}

} // verus!
