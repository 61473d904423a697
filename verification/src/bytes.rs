use vstd::prelude::*;

verus! {

/// The eight bytes of `n`, most significant first.
pub open spec fn spec_u64_be_bytes(n: u64) -> Seq<u8> {
    seq![
        ((n >> 56) & 0xff) as u8,
        ((n >> 48) & 0xff) as u8,
        ((n >> 40) & 0xff) as u8,
        ((n >> 32) & 0xff) as u8,
        ((n >> 24) & 0xff) as u8,
        ((n >> 16) & 0xff) as u8,
        ((n >> 8) & 0xff) as u8,
        (n & 0xff) as u8,
    ]
}

/// The number that eight bytes spell, most significant first.
pub open spec fn spec_u64_from_be_bytes(b: Seq<u8>) -> int
    recommends
        b.len() == 8,
{
    ((((((b[0] as int * 256 + b[1] as int) * 256 + b[2] as int) * 256 + b[3] as int) * 256
        + b[4] as int) * 256 + b[5] as int) * 256 + b[6] as int) * 256 + b[7] as int
}

/// Big-endian encoding loses nothing: the eight bytes spell the number back.
pub proof fn lemma_u64_be_bytes_round_trip(n: u64)
    ensures
        spec_u64_be_bytes(n).len() == 8,
        spec_u64_from_be_bytes(spec_u64_be_bytes(n)) == n as int,
{
    let b = spec_u64_be_bytes(n);
    let b0: u64 = (n >> 56) & 0xff;
    let b1: u64 = (n >> 48) & 0xff;
    let b2: u64 = (n >> 40) & 0xff;
    let b3: u64 = (n >> 32) & 0xff;
    let b4: u64 = (n >> 24) & 0xff;
    let b5: u64 = (n >> 16) & 0xff;
    let b6: u64 = (n >> 8) & 0xff;
    let b7: u64 = n & 0xff;
    assert(b0 < 256 && b1 < 256 && b2 < 256 && b3 < 256 && b4 < 256 && b5 < 256 && b6 < 256 && b7
        < 256) by (bit_vector)
        requires
            b0 == (n >> 56) & 0xff,
            b1 == (n >> 48) & 0xff,
            b2 == (n >> 40) & 0xff,
            b3 == (n >> 32) & 0xff,
            b4 == (n >> 24) & 0xff,
            b5 == (n >> 16) & 0xff,
            b6 == (n >> 8) & 0xff,
            b7 == n & 0xff,
    ;
    assert(n == (b0 << 56) + (b1 << 48) + (b2 << 40) + (b3 << 32) + (b4 << 24) + (b5 << 16) + (b6
        << 8) + b7) by (bit_vector)
        requires
            b0 == (n >> 56) & 0xff,
            b1 == (n >> 48) & 0xff,
            b2 == (n >> 40) & 0xff,
            b3 == (n >> 32) & 0xff,
            b4 == (n >> 24) & 0xff,
            b5 == (n >> 16) & 0xff,
            b6 == (n >> 8) & 0xff,
            b7 == n & 0xff,
    ;
    assert((b0 << 56) == b0 * 0x100_0000_0000_0000 && (b1 << 48) == b1 * 0x1_0000_0000_0000 && (b2
        << 40) == b2 * 0x100_0000_0000 && (b3 << 32) == b3 * 0x1_0000_0000 && (b4 << 24) == b4
        * 0x100_0000 && (b5 << 16) == b5 * 0x1_0000 && (b6 << 8) == b6 * 0x100) by (bit_vector)
        requires
            b0 < 256 && b1 < 256 && b2 < 256 && b3 < 256 && b4 < 256 && b5 < 256 && b6 < 256,
    ;
    assert(b[0] == b0 && b[1] == b1 && b[2] == b2 && b[3] == b3 && b[4] == b4 && b[5] == b5 && b[6]
        == b6 && b[7] == b7);
}

/// The eight bytes of `n`, most significant first.
pub fn u64_be_bytes(n: u64) -> (bytes: [u8; 8])
    ensures
        bytes@ == spec_u64_be_bytes(n),
{
    let b0: u64 = (n >> 56) & 0xff;
    let b1: u64 = (n >> 48) & 0xff;
    let b2: u64 = (n >> 40) & 0xff;
    let b3: u64 = (n >> 32) & 0xff;
    let b4: u64 = (n >> 24) & 0xff;
    let b5: u64 = (n >> 16) & 0xff;
    let b6: u64 = (n >> 8) & 0xff;
    let b7: u64 = n & 0xff;
    assert(b0 < 256 && b1 < 256 && b2 < 256 && b3 < 256 && b4 < 256 && b5 < 256 && b6 < 256 && b7
        < 256) by (bit_vector)
        requires
            b0 == (n >> 56) & 0xff,
            b1 == (n >> 48) & 0xff,
            b2 == (n >> 40) & 0xff,
            b3 == (n >> 32) & 0xff,
            b4 == (n >> 24) & 0xff,
            b5 == (n >> 16) & 0xff,
            b6 == (n >> 8) & 0xff,
            b7 == n & 0xff,
    ;
    let bytes: [u8; 8] = [
        b0 as u8,
        b1 as u8,
        b2 as u8,
        b3 as u8,
        b4 as u8,
        b5 as u8,
        b6 as u8,
        b7 as u8,
    ];
    assert(bytes@ =~= spec_u64_be_bytes(n));
    bytes
}

/// The four bytes of `n`, most significant first.
pub open spec fn spec_u32_be_bytes(n: u32) -> Seq<u8> {
    seq![
        ((n >> 24) & 0xff) as u8,
        ((n >> 16) & 0xff) as u8,
        ((n >> 8) & 0xff) as u8,
        (n & 0xff) as u8,
    ]
}

/// The four bytes of `n`, most significant first.
pub fn u32_be_bytes(n: u32) -> (bytes: [u8; 4])
    ensures
        bytes@ == spec_u32_be_bytes(n),
{
    let b0: u32 = (n >> 24) & 0xff;
    let b1: u32 = (n >> 16) & 0xff;
    let b2: u32 = (n >> 8) & 0xff;
    let b3: u32 = n & 0xff;
    assert(b0 < 256 && b1 < 256 && b2 < 256 && b3 < 256) by (bit_vector)
        requires
            b0 == (n >> 24) & 0xff,
            b1 == (n >> 16) & 0xff,
            b2 == (n >> 8) & 0xff,
            b3 == n & 0xff,
    ;
    let bytes: [u8; 4] = [b0 as u8, b1 as u8, b2 as u8, b3 as u8];
    assert(bytes@ =~= spec_u32_be_bytes(n));
    bytes
}

/// Appends `tail` to `buffer`, byte by byte.
pub fn append_bytes(buffer: &mut Vec<u8>, tail: &[u8])
    ensures
        final(buffer)@ == old(buffer)@ + tail@,
{
    let mut i: usize = 0;
    while i < tail.len()
        invariant
            i <= tail@.len(),
            buffer@ == old(buffer)@ + tail@.subrange(0, i as int),
        decreases tail@.len() - i,
    {
        buffer.push(tail[i]);
        i = i + 1;
        assert(buffer@ =~= old(buffer)@ + tail@.subrange(0, i as int));
    }
    assert(tail@.subrange(0, i as int) =~= tail@);
}

} // verus!
