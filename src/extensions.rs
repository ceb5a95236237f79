//! Lookup of the device extensions that announce codec support.
//!
//! The table is sorted by extension name in byte order, which lets a lookup run as a
//! binary search.

use vstd::prelude::*;
use vstd::string::StringSliceAdditionalSpecFns;
use crate::codecs::{Codec, Operation, SupportedCodecs};

verus! {

/// Strict lexicographic order on byte strings; a proper prefix comes first.
pub open spec fn bytes_lt(a: Seq<u8>, b: Seq<u8>) -> bool
    decreases a.len(),
{
    if a.len() == 0 {
        b.len() > 0
    } else if b.len() == 0 {
        false
    } else if a[0] != b[0] {
        a[0] < b[0]
    } else {
        bytes_lt(a.drop_first(), b.drop_first())
    }
}

proof fn lemma_bytes_lt_irreflexive(a: Seq<u8>)
    ensures
        !bytes_lt(a, a),
    decreases a.len(),
{
    if a.len() > 0 {
        lemma_bytes_lt_irreflexive(a.drop_first());
    }
}

proof fn lemma_bytes_lt_transitive(a: Seq<u8>, b: Seq<u8>, c: Seq<u8>)
    requires
        bytes_lt(a, b),
        bytes_lt(b, c),
    ensures
        bytes_lt(a, c),
    decreases a.len(),
{
    if a.len() > 0 && b.len() > 0 && c.len() > 0 && a[0] == b[0] && b[0] == c[0] {
        lemma_bytes_lt_transitive(a.drop_first(), b.drop_first(), c.drop_first());
    }
}

/// Two byte strings that agree on their first `k` bytes and differ at byte `k`
/// are ordered by that byte.
proof fn lemma_bytes_lt_at(a: Seq<u8>, b: Seq<u8>, k: int)
    requires
        0 <= k < a.len(),
        k < b.len(),
        a.subrange(0, k) == b.subrange(0, k),
        a[k] < b[k],
    ensures
        bytes_lt(a, b),
    decreases k,
{
    if k > 0 {
        assert(a[0] == a.subrange(0, k)[0]);
        assert(b[0] == b.subrange(0, k)[0]);
        assert(a.drop_first().subrange(0, k - 1) =~= a.subrange(0, k).drop_first());
        assert(b.drop_first().subrange(0, k - 1) =~= b.subrange(0, k).drop_first());
        lemma_bytes_lt_at(a.drop_first(), b.drop_first(), k - 1);
    }
}

/// Moving past one equal byte at the front of both suffixes leaves their order unchanged.
proof fn lemma_bytes_lt_step(a: Seq<u8>, b: Seq<u8>, i: int)
    requires
        0 <= i < a.len(),
        i < b.len(),
        a[i] == b[i],
    ensures
        bytes_lt(a.subrange(i, a.len() as int), b.subrange(i, b.len() as int))
            == bytes_lt(a.subrange(i + 1, a.len() as int), b.subrange(i + 1, b.len() as int)),
{
    assert(a.subrange(i, a.len() as int).drop_first() =~= a.subrange(i + 1, a.len() as int));
    assert(b.subrange(i, b.len() as int).drop_first() =~= b.subrange(i + 1, b.len() as int));
}

/// The order of two byte strings.
#[derive(Debug, Clone, Copy, PartialEq, Eq, Structural)]
pub enum ByteOrder {
    Less,
    Equal,
    Greater,
}

/// Compares two byte strings lexicographically.
pub fn compare_bytes(a: &[u8], b: &[u8]) -> (r: ByteOrder)
    ensures
        (r == ByteOrder::Less) == bytes_lt(a@, b@),
        (r == ByteOrder::Equal) == (a@ == b@),
        (r == ByteOrder::Greater) == bytes_lt(b@, a@),
{
    let mut i: usize = 0;
    assert(a@.subrange(0, a@.len() as int) =~= a@);
    assert(b@.subrange(0, b@.len() as int) =~= b@);
    while i < a.len() && i < b.len()
        invariant
            i <= a@.len(),
            i <= b@.len(),
            a@.subrange(0, i as int) =~= b@.subrange(0, i as int),
            bytes_lt(a@, b@) == bytes_lt(
                a@.subrange(i as int, a@.len() as int),
                b@.subrange(i as int, b@.len() as int),
            ),
            bytes_lt(b@, a@) == bytes_lt(
                b@.subrange(i as int, b@.len() as int),
                a@.subrange(i as int, a@.len() as int),
            ),
        decreases a@.len() - i,
    {
        if a[i] != b[i] {
            proof {
                let sa = a@.subrange(i as int, a@.len() as int);
                let sb = b@.subrange(i as int, b@.len() as int);
                assert(sa[0] == a@[i as int]);
                assert(sb[0] == b@[i as int]);
                assert(a@[i as int] != b@[i as int]);
            }
            if a[i] < b[i] {
                return ByteOrder::Less;
            } else {
                return ByteOrder::Greater;
            }
        }
        proof {
            lemma_bytes_lt_step(a@, b@, i as int);
            lemma_bytes_lt_step(b@, a@, i as int);
            assert(a@.subrange(0, i + 1) =~= a@.subrange(0, i as int).push(a@[i as int]));
            assert(b@.subrange(0, i + 1) =~= b@.subrange(0, i as int).push(b@[i as int]));
        }
        i = i + 1;
    }
    proof {
        let sa = a@.subrange(i as int, a@.len() as int);
        let sb = b@.subrange(i as int, b@.len() as int);
        if i == a.len() && i == b.len() {
            assert(a@ =~= a@.subrange(0, i as int));
            assert(b@ =~= b@.subrange(0, i as int));
        } else {
            assert(a@.len() != b@.len());
        }
    }
    if a.len() < b.len() {
        ByteOrder::Less
    } else if a.len() == b.len() {
        ByteOrder::Equal
    } else {
        ByteOrder::Greater
    }
}

/// The bytes of a string of ASCII characters.
pub open spec fn ascii_bytes(s: Seq<char>) -> Seq<u8> {
    Seq::new(s.len(), |i: int| s[i] as u8)
}

/// Number of entries in the codec extension table.
pub const CODEC_EXTENSION_COUNT: usize = 5;

/// The codec extension table: the name of each extension with the codec and operation
/// that it announces, sorted by name.
pub open spec fn spec_codec_extension(i: int) -> (Seq<char>, Codec, Operation) {
    if i == 0 {
        ("VK_KHR_video_decode_av1"@, Codec::Av1, Operation::Decode)
    } else if i == 1 {
        ("VK_KHR_video_decode_h264"@, Codec::H264, Operation::Decode)
    } else if i == 2 {
        ("VK_KHR_video_decode_h265"@, Codec::H265, Operation::Decode)
    } else if i == 3 {
        ("VK_KHR_video_encode_h264"@, Codec::H264, Operation::Encode)
    } else {
        ("VK_KHR_video_encode_h265"@, Codec::H265, Operation::Encode)
    }
}

/// The name of table entry `i` as bytes.
pub open spec fn spec_codec_extension_name(i: int) -> Seq<u8> {
    ascii_bytes(spec_codec_extension(i).0)
}

/// Table entries `i` and `i + 1` agree on their first `k` bytes and entry `i` is smaller
/// at byte `k`.
proof fn lemma_adjacent_sorted(i: int, k: int)
    requires
        0 <= i < CODEC_EXTENSION_COUNT - 1,
        0 <= k < spec_codec_extension_name(i).len(),
        k < spec_codec_extension_name(i + 1).len(),
        forall|j: int| 0 <= j < k ==>
            spec_codec_extension(i).0[j] == spec_codec_extension(i + 1).0[j],
        (spec_codec_extension(i).0[k] as u8) < (spec_codec_extension(i + 1).0[k] as u8),
    ensures
        bytes_lt(spec_codec_extension_name(i), spec_codec_extension_name(i + 1)),
{
    let a = spec_codec_extension_name(i);
    let b = spec_codec_extension_name(i + 1);
    assert(a.subrange(0, k) =~= b.subrange(0, k));
    lemma_bytes_lt_at(a, b, k);
}

/// The codec extension table is sorted by name, strictly: binary search over it is sound.
pub proof fn lemma_codec_extensions_sorted()
    ensures
        forall|i: int, j: int|
            0 <= i < j < CODEC_EXTENSION_COUNT ==> #[trigger] bytes_lt(
                spec_codec_extension_name(i),
                spec_codec_extension_name(j),
            ),
{
    reveal_strlit("VK_KHR_video_decode_av1");
    reveal_strlit("VK_KHR_video_decode_h264");
    reveal_strlit("VK_KHR_video_decode_h265");
    reveal_strlit("VK_KHR_video_encode_h264");
    reveal_strlit("VK_KHR_video_encode_h265");
    lemma_adjacent_sorted(0, 20);
    lemma_adjacent_sorted(1, 23);
    lemma_adjacent_sorted(2, 13);
    lemma_adjacent_sorted(3, 23);
    let n = |i: int| spec_codec_extension_name(i);
    lemma_bytes_lt_transitive(n(0), n(1), n(2));
    lemma_bytes_lt_transitive(n(1), n(2), n(3));
    lemma_bytes_lt_transitive(n(2), n(3), n(4));
    lemma_bytes_lt_transitive(n(0), n(2), n(3));
    lemma_bytes_lt_transitive(n(1), n(3), n(4));
    lemma_bytes_lt_transitive(n(0), n(3), n(4));
}

/// One entry of the codec extension table.
#[derive(Debug, Clone, Copy)]
pub struct CodecExtension {
    pub name: &'static str,
    pub codec: Codec,
    pub operation: Operation,
}

/// Entry `i` of the codec extension table.
pub fn codec_extension(i: usize) -> (e: CodecExtension)
    requires
        i < CODEC_EXTENSION_COUNT,
    ensures
        e.name@ == spec_codec_extension(i as int).0,
        e.name.spec_bytes() == spec_codec_extension_name(i as int),
        e.codec == spec_codec_extension(i as int).1,
        e.operation == spec_codec_extension(i as int).2,
{
    let e = if i == 0 {
        CodecExtension { name: "VK_KHR_video_decode_av1", codec: Codec::Av1, operation: Operation::Decode }
    } else if i == 1 {
        CodecExtension { name: "VK_KHR_video_decode_h264", codec: Codec::H264, operation: Operation::Decode }
    } else if i == 2 {
        CodecExtension { name: "VK_KHR_video_decode_h265", codec: Codec::H265, operation: Operation::Decode }
    } else if i == 3 {
        CodecExtension { name: "VK_KHR_video_encode_h264", codec: Codec::H264, operation: Operation::Encode }
    } else {
        CodecExtension { name: "VK_KHR_video_encode_h265", codec: Codec::H265, operation: Operation::Encode }
    };
    proof {
        reveal_strlit("VK_KHR_video_decode_av1");
        reveal_strlit("VK_KHR_video_decode_h264");
        reveal_strlit("VK_KHR_video_decode_h265");
        reveal_strlit("VK_KHR_video_encode_h264");
        reveal_strlit("VK_KHR_video_encode_h265");
        assert(vstd::string::is_ascii(e.name));
        vstd::string::is_ascii_spec_bytes(e.name);
        assert(e.name.spec_bytes() =~= spec_codec_extension_name(i as int));
    }
    e
}

/// The codec and operation that an extension name announces, if it is in the table.
pub open spec fn spec_lookup_codec_extension(name: Seq<u8>) -> Option<(Codec, Operation)> {
    if name == spec_codec_extension_name(0) {
        Some((Codec::Av1, Operation::Decode))
    } else if name == spec_codec_extension_name(1) {
        Some((Codec::H264, Operation::Decode))
    } else if name == spec_codec_extension_name(2) {
        Some((Codec::H265, Operation::Decode))
    } else if name == spec_codec_extension_name(3) {
        Some((Codec::H264, Operation::Encode))
    } else if name == spec_codec_extension_name(4) {
        Some((Codec::H265, Operation::Encode))
    } else {
        None
    }
}

/// A name equal to the name of entry `k` looks up to entry `k`.
proof fn lemma_lookup_entry(name: Seq<u8>, k: int)
    requires
        0 <= k < CODEC_EXTENSION_COUNT,
        name == spec_codec_extension_name(k),
    ensures
        spec_lookup_codec_extension(name) == Some((spec_codec_extension(k).1, spec_codec_extension(k).2)),
{
    lemma_codec_extensions_sorted();
    lemma_bytes_lt_irreflexive(name);
}

/// Looks an extension name up in the codec extension table by binary search.
pub fn lookup_codec_extension(name: &[u8]) -> (r: Option<(Codec, Operation)>)
    ensures
        r == spec_lookup_codec_extension(name@),
{
    proof {
        lemma_codec_extensions_sorted();
    }
    let mut lo: usize = 0;
    let mut hi: usize = CODEC_EXTENSION_COUNT;
    while lo < hi
        invariant
            lo <= hi <= CODEC_EXTENSION_COUNT,
            forall|j: int|
                0 <= j < CODEC_EXTENSION_COUNT && !(lo <= j < hi) ==> name@ != #[trigger] spec_codec_extension_name(j),
            forall|i: int, j: int|
                0 <= i < j < CODEC_EXTENSION_COUNT ==> #[trigger] bytes_lt(
                    spec_codec_extension_name(i),
                    spec_codec_extension_name(j),
                ),
        decreases hi - lo,
    {
        let mid = lo + (hi - lo) / 2;
        let entry = codec_extension(mid);
        match compare_bytes(name, entry.name.as_bytes()) {
            ByteOrder::Equal => {
                proof {
                    lemma_lookup_entry(name@, mid as int);
                }
                return Some((entry.codec, entry.operation));
            },
            ByteOrder::Less => {
                proof {
                    assert forall|j: int| mid <= j < CODEC_EXTENSION_COUNT implies name@
                        != #[trigger] spec_codec_extension_name(j) by {
                        if j > mid {
                            lemma_bytes_lt_transitive(
                                name@,
                                spec_codec_extension_name(mid as int),
                                spec_codec_extension_name(j),
                            );
                        }
                        lemma_bytes_lt_irreflexive(name@);
                    }
                }
                hi = mid;
            },
            ByteOrder::Greater => {
                proof {
                    assert forall|j: int| 0 <= j <= mid implies name@
                        != #[trigger] spec_codec_extension_name(j) by {
                        if j < mid {
                            lemma_bytes_lt_transitive(
                                spec_codec_extension_name(j),
                                spec_codec_extension_name(mid as int),
                                name@,
                            );
                        }
                        lemma_bytes_lt_irreflexive(name@);
                    }
                }
                lo = mid + 1;
            },
        }
    }
    proof {
        assert(name@ != spec_codec_extension_name(0));
        assert(name@ != spec_codec_extension_name(1));
        assert(name@ != spec_codec_extension_name(2));
        assert(name@ != spec_codec_extension_name(3));
        assert(name@ != spec_codec_extension_name(4));
    }
    None
}

/// Whether one of the extension names announces `(codec, operation)`.
pub open spec fn spec_announces(names: Seq<Vec<u8>>, codec: Codec, operation: Operation) -> bool {
    exists|i: int|
        0 <= i < names.len() && #[trigger] spec_lookup_codec_extension(names[i]@) == Some(
            (codec, operation),
        )
}

/// The codecs that a device supports, from the names of its extensions.
/// Names that are not in the table are ignored.
pub fn codecs_from_extensions(names: &Vec<Vec<u8>>) -> (r: SupportedCodecs)
    ensures
        forall|c: Codec, o: Operation| #[trigger] r.supports(c, o) == spec_announces(names@, c, o),
{
    let mut codecs = SupportedCodecs::none();
    let mut i: usize = 0;
    while i < names.len()
        invariant
            i <= names@.len(),
            forall|c: Codec, o: Operation|
                #[trigger] codecs.supports(c, o) == spec_announces(names@.subrange(0, i as int), c, o),
        decreases names@.len() - i,
    {
        let found = lookup_codec_extension(names[i].as_slice());
        let ghost before = codecs;
        if let Some((codec, operation)) = found {
            codecs.record(codec, operation);
        }
        proof {
            let prefix = names@.subrange(0, i as int);
            let next = names@.subrange(0, i + 1);
            assert forall|c: Codec, o: Operation| #[trigger] codecs.supports(c, o) == spec_announces(next, c, o) by {
                assert(next[i as int] == names@[i as int]);
                if spec_announces(prefix, c, o) {
                    let k = choose|k: int|
                        0 <= k < prefix.len() && #[trigger] spec_lookup_codec_extension(prefix[k]@) == Some((c, o));
                    assert(next[k] == prefix[k]);
                }
                if spec_announces(next, c, o) && !(found == Some((c, o))) {
                    let k = choose|k: int|
                        0 <= k < next.len() && #[trigger] spec_lookup_codec_extension(next[k]@) == Some((c, o));
                    assert(prefix[k] == next[k]);
                }
            }
        }
        i = i + 1;
    }
    proof {
        assert(names@.subrange(0, names@.len() as int) =~= names@);
    }
    codecs
}

} // verus!
