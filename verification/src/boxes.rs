//! Isolation of the movie header from a container's box tree. The parser
//! delegated to for duration probing walks nested boxes with loops and
//! size arithmetic that trust each box's declared size; on malformed
//! sizes such a loop can fail to advance or a subtraction can underflow.
//! Only the movie header is needed for a duration, so this module walks
//! the box tree on plain bytes, verified, and rebuilds a minimal stream —
//! a fixed file-type box, a movie box, and the movie-header box found —
//! whose fixed shape keeps the parser on its small, auditable path. A
//! stream in which no movie header can be found this way is a probe
//! failure.

use vstd::prelude::*;
use vstd::slice::*;
use vstd::arithmetic::div_mod::lemma_fundamental_div_mod;

verus! {

/// The 32-bit big-endian integer at offset `i`.
pub open spec fn be32_at(s: Seq<u8>, i: int) -> nat
    recommends
        0 <= i,
        i + 4 <= s.len(),
{
    (s[i] as nat) * 16_777_216 + (s[i + 1] as nat) * 65_536 + (s[i + 2] as nat) * 256 + (s[i
        + 3] as nat)
}

/// The 32-bit big-endian encoding of `v`.
pub open spec fn enc32(v: nat) -> Seq<u8>
    recommends
        v < 4_294_967_296,
{
    seq![
        (v / 16_777_216) as u8,
        ((v % 16_777_216) / 65_536) as u8,
        (((v % 16_777_216) % 65_536) / 256) as u8,
        (((v % 16_777_216) % 65_536) % 256) as u8,
    ]
}

/// Decoding the encoding gives the value back.
proof fn lemma_enc32_roundtrip(v: nat)
    requires
        v < 4_294_967_296,
    ensures
        be32_at(enc32(v), 0) == v,
{
    lemma_fundamental_div_mod(v as int, 16_777_216);
    lemma_fundamental_div_mod((v % 16_777_216) as int, 65_536);
    lemma_fundamental_div_mod(((v % 16_777_216) % 65_536) as int, 256);
}

/// Offset of the first box of the given type name in the box chain that
/// starts at `lo` and must stay inside `[lo, hi)`: each box's declared
/// size must cover its header and keep the chain in range, and the walk
/// gives up — finding nothing — on the first malformed size.
pub open spec fn spec_find_box(s: Seq<u8>, lo: int, hi: int, a: u8, b: u8, c: u8, d: u8) -> Option<
    int,
>
    recommends
        0 <= lo,
        hi <= s.len(),
    decreases hi - lo,
{
    if lo < 0 || lo + 8 > hi {
        Option::None
    } else {
        let size = be32_at(s, lo) as int;
        if size < 8 || lo + size > hi {
            Option::None
        } else if s[lo + 4] == a && s[lo + 5] == b && s[lo + 6] == c && s[lo + 7] == d {
            Option::Some(lo)
        } else {
            spec_find_box(s, lo + size, hi, a, b, c, d)
        }
    }
}

/// A found box lies in range with its declared size.
pub proof fn lemma_find_box_in_range(s: Seq<u8>, lo: int, hi: int, a: u8, b: u8, c: u8, d: u8)
    requires
        0 <= lo,
        hi <= s.len(),
        spec_find_box(s, lo, hi, a, b, c, d) is Some,
    ensures
        ({
            let o = spec_find_box(s, lo, hi, a, b, c, d)->Some_0;
            &&& lo <= o
            &&& o + 8 <= hi
            &&& 8 <= be32_at(s, o)
            &&& o + be32_at(s, o) <= hi
            &&& s[o + 4] == a && s[o + 5] == b && s[o + 6] == c && s[o + 7] == d
        }),
    decreases hi - lo,
{
    if lo + 8 <= hi {
        let size = be32_at(s, lo) as int;
        if size >= 8 && lo + size <= hi && !(s[lo + 4] == a && s[lo + 5] == b && s[lo + 6] == c
            && s[lo + 7] == d) {
            lemma_find_box_in_range(s, lo + size, hi, a, b, c, d);
        }
    }
}

/// The fixed file-type box placed at the head of the rebuilt stream: a
/// sixteen-byte `ftyp` box naming the common base brand.
pub open spec fn spec_ftyp_prefix() -> Seq<u8> {
    seq![
        0u8, 0u8, 0u8, 16u8,  // box size 16
        102u8, 116u8, 121u8, 112u8,  // ftyp
        105u8, 115u8, 111u8, 109u8,  // isom
        0u8, 0u8, 2u8, 0u8,  // minor version
    ]
}

/// The minimal probe stream rebuilt from a container's bytes: the fixed
/// file-type box, then a movie box holding exactly the first movie-header
/// box found inside the first well-formed movie box of the stream.
/// Nothing when no such movie header can be found, or when its size field
/// cannot be carried in a movie box header.
pub open spec fn spec_movie_stream(data: Seq<u8>) -> Option<Seq<u8>> {
    match spec_find_box(data, 0, data.len() as int, 109, 111, 111, 118) {
        Option::None => Option::None,
        Option::Some(mo) => {
            let ms = be32_at(data, mo) as int;
            match spec_find_box(data, mo + 8, mo + ms, 109, 118, 104, 100) {
                Option::None => Option::None,
                Option::Some(vo) => {
                    let vs = be32_at(data, vo) as int;
                    if vs + 8 >= 4_294_967_296 {
                        Option::None
                    } else {
                        Option::Some(
                            spec_ftyp_prefix() + enc32((vs + 8) as nat) + seq![
                                109u8,
                                111u8,
                                111u8,
                                118u8,
                            ] + data.subrange(vo, vo + vs),
                        )
                    }
                },
            }
        },
    }
}

/// The shape the rebuilt stream always has, and all the delegated parser
/// is ever handed: the fixed file-type box, then a movie box whose
/// declared size reaches exactly to the end of the stream and whose sole
/// child is a movie-header box whose declared size also reaches exactly
/// to the end. On such a stream the parser's top-level loop visits two
/// boxes, the movie loop visits one, and every read is bounded.
pub open spec fn spec_probe_stream(s: Seq<u8>) -> bool {
    &&& s.len() >= 32
    &&& s.subrange(0, 16) == spec_ftyp_prefix()
    &&& be32_at(s, 16) == s.len() - 16
    &&& s[20] == 109 && s[21] == 111 && s[22] == 111 && s[23] == 118
    &&& be32_at(s, 24) == s.len() - 24
    &&& s[28] == 109 && s[29] == 118 && s[30] == 104 && s[31] == 100
}

/// The 32-bit big-endian integer at offset `i`.
fn read_be32(s: &[u8], i: usize) -> (r: u32)
    requires
        i + 4 <= s@.len(),
    ensures
        r == be32_at(s@, i as int),
{
    let n = s.len();
    proof {
        assert(i + 4 <= n);
    }
    let b0 = *slice_index_get(s, i) as u32;
    let b1 = *slice_index_get(s, i + 1) as u32;
    let b2 = *slice_index_get(s, i + 2) as u32;
    let b3 = *slice_index_get(s, i + 3) as u32;
    b0 * 16_777_216 + b1 * 65_536 + b2 * 256 + b3
}

/// Walks the box chain in `s[lo..hi)` for the first box of the given
/// type, giving up on the first malformed size.
fn find_box(s: &[u8], lo: usize, hi: usize, a: u8, b: u8, c: u8, d: u8) -> (r: Option<usize>)
    requires
        lo <= hi <= s@.len(),
    ensures
        r is Some <==> spec_find_box(s@, lo as int, hi as int, a, b, c, d) is Some,
        r matches Some(o) ==> spec_find_box(s@, lo as int, hi as int, a, b, c, d) == Some(
            o as int,
        ),
    decreases hi - lo,
{
    if hi - lo < 8 {
        return None;
    }
    let size32 = read_be32(s, lo);
    let size = size32 as usize;
    if size < 8 || size > hi - lo {
        return None;
    }
    if *slice_index_get(s, lo + 4) == a && *slice_index_get(s, lo + 5) == b && *slice_index_get(
        s,
        lo + 6,
    ) == c && *slice_index_get(s, lo + 7) == d {
        Some(lo)
    } else {
        find_box(s, lo + size, hi, a, b, c, d)
    }
}

/// Rebuilds the minimal probe stream from a container's bytes: finds the
/// first movie box, the first movie-header box inside it, and wraps that
/// header, alone, in a fresh movie box behind the fixed file-type box.
/// Yields nothing — a probe failure — when no movie header is found.
pub fn extract_movie_stream(data: &[u8]) -> (r: Option<Vec<u8>>)
    ensures
        r is Some <==> spec_movie_stream(data@) is Some,
        r matches Some(v) ==> spec_movie_stream(data@) == Some(v@) && spec_probe_stream(v@),
{
    let n = data.len();
    let mo = match find_box(data, 0, n, 109, 111, 111, 118) {
        None => {
            return None;
        },
        Some(o) => o,
    };
    proof {
        lemma_find_box_in_range(data@, 0, n as int, 109, 111, 111, 118);
    }
    let ms = read_be32(data, mo) as usize;
    let vo = match find_box(data, mo + 8, mo + ms, 109, 118, 104, 100) {
        None => {
            return None;
        },
        Some(o) => o,
    };
    proof {
        lemma_find_box_in_range(data@, mo + 8, mo + ms, 109, 118, 104, 100);
    }
    let vs32 = read_be32(data, vo);
    if vs32 >= 0xFFFF_FFF8 {
        proof {
            assert(vs32 as int + 8 >= 4_294_967_296);
        }
        return None;
    }
    let vs = vs32 as usize;
    let moov_size: u32 = vs32 + 8;
    let mut out: Vec<u8> = Vec::new();
    out.push(0);
    out.push(0);
    out.push(0);
    out.push(16);
    out.push(102);
    out.push(116);
    out.push(121);
    out.push(112);
    out.push(105);
    out.push(115);
    out.push(111);
    out.push(109);
    out.push(0);
    out.push(0);
    out.push(2);
    out.push(0);
    proof {
        assert(out@ =~= spec_ftyp_prefix());
    }
    out.push((moov_size / 16_777_216) as u8);
    out.push(((moov_size % 16_777_216) / 65_536) as u8);
    out.push((((moov_size % 16_777_216) % 65_536) / 256) as u8);
    out.push((((moov_size % 16_777_216) % 65_536) % 256) as u8);
    proof {
        assert(out@ =~= spec_ftyp_prefix() + enc32(moov_size as nat));
    }
    out.push(109);
    out.push(111);
    out.push(111);
    out.push(118);
    let ghost head = out@;
    proof {
        assert(head =~= spec_ftyp_prefix() + enc32(moov_size as nat) + seq![
            109u8,
            111u8,
            111u8,
            118u8,
        ]);
    }
    let mut i: usize = 0;
    while i < vs
        invariant
            0 <= i <= vs,
            n == data@.len(),
            vo + vs <= n,
            out@ == head + data@.subrange(vo as int, vo + i),
        decreases vs - i,
    {
        out.push(*slice_index_get(data, vo + i));
        proof {
            assert(data@.subrange(vo as int, vo + i + 1) =~= data@.subrange(
                vo as int,
                vo + i,
            ).push(data@[vo + i]));
        }
        i = i + 1;
    }
    proof {
        assert(out@ == head + data@.subrange(vo as int, vo + vs));
        assert(spec_movie_stream(data@) == Some(out@));
        lemma_enc32_roundtrip(moov_size as nat);
        assert(out@.len() == 24 + vs);
        assert(out@.subrange(0, 16) =~= spec_ftyp_prefix());
        assert(out@[20] == 109 && out@[21] == 111 && out@[22] == 111 && out@[23] == 118);
        assert(out@[16] == enc32(moov_size as nat)[0] && out@[17] == enc32(moov_size as nat)[1]
            && out@[18] == enc32(moov_size as nat)[2] && out@[19] == enc32(moov_size as nat)[3]);
        assert(be32_at(out@, 16) == be32_at(enc32(moov_size as nat), 0));
        assert(be32_at(out@, 16) == out@.len() - 16);
        assert(out@[24] == data@[vo as int] && out@[25] == data@[vo + 1] && out@[26] == data@[vo
            + 2] && out@[27] == data@[vo + 3]);
        assert(be32_at(out@, 24) == be32_at(data@, vo as int));
        assert(be32_at(out@, 24) == out@.len() - 24);
        assert(out@[28] == data@[vo + 4] && out@[29] == data@[vo + 5] && out@[30] == data@[vo + 6]
            && out@[31] == data@[vo + 7]);
        assert(spec_probe_stream(out@));
    }
    Some(out)
}

} // verus!
