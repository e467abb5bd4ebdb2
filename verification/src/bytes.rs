//! The SID's binary layout: the eight-byte header (revision, sub-authority
//! count, big-endian identifier authority) followed by one little-endian
//! 32-bit word per sub-authority.

use vstd::prelude::*;

use crate::authority::{
    authority_bytes, authority_value, lemma_authority_bytes_round_trip,
    lemma_authority_value_round_trip,
};
use crate::error::Error;
use crate::sid::{SidValue, SID_MAX_SUB_AUTHORITIES, SID_REVISION};

verus! {

/// The length of the SID header in bytes.
pub const SID_HEADER_BYTES: usize = 8;

/// The little-endian bytes of a 32-bit word.
pub open spec fn le_bytes(w: u32) -> Seq<u8> {
    seq![
        (w % 0x100) as u8,
        (w / 0x100 % 0x100) as u8,
        (w / 0x1_0000 % 0x100) as u8,
        (w / 0x100_0000 % 0x100) as u8,
    ]
}

/// The 32-bit word whose little-endian bytes start at `k` in `b`.
pub open spec fn le_word_at(b: Seq<u8>, k: int) -> u32 {
    (b[k] + b[k + 1] * 0x100int + b[k + 2] * 0x1_0000int + b[k + 3] * 0x100_0000int) as u32
}

/// The little-endian bytes of each word in turn.
pub open spec fn words_bytes(s: Seq<u32>) -> Seq<u8> {
    Seq::new(4 * s.len(), |j: int| le_bytes(s[j / 4])[j % 4])
}

/// The bytes of a SID: its header followed by its sub-authorities.
pub open spec fn sid_bytes(v: SidValue) -> Seq<u8> {
    seq![SID_REVISION, v.sub_authorities.len() as u8] + authority_bytes(v.authority) + words_bytes(
        v.sub_authorities,
    )
}

/// Whether `b` has the exact layout of a SID: revision 1, at most 15
/// sub-authorities, and exactly as many bytes as the header announces.
pub open spec fn is_sid_layout(b: Seq<u8>) -> bool {
    &&& b.len() >= SID_HEADER_BYTES
    &&& b[0] == SID_REVISION
    &&& b[1] <= SID_MAX_SUB_AUTHORITIES
    &&& b.len() == SID_HEADER_BYTES + 4 * b[1]
}

/// The SID that bytes of SID layout describe.
pub open spec fn sid_of_layout(b: Seq<u8>) -> SidValue {
    SidValue {
        authority: authority_value(b.subrange(2, 8)),
        sub_authorities: Seq::new(b[1] as nat, |i: int| le_word_at(b, 8 + 4 * i)),
    }
}

/// What reading a SID from bytes gives.
pub open spec fn decode_sid(b: Seq<u8>) -> Result<SidValue, Error> {
    if is_sid_layout(b) {
        Ok(sid_of_layout(b))
    } else {
        Err(Error::InvalidSid)
    }
}

/// A word is read back from its little-endian bytes, and four bytes are the
/// little-endian bytes of the word they denote.
pub proof fn lemma_le_word_round_trip(w: u32, b: Seq<u8>, k: int)
    requires
        0 <= k,
        k + 4 <= b.len(),
    ensures
        le_word_at(le_bytes(w), 0) == w,
        le_bytes(le_word_at(b, k)) == b.subrange(k, k + 4),
{
    assert((((w % 0x100) as u8) as u32 + ((w / 0x100 % 0x100) as u8) as u32 * 0x100u32 + ((w
        / 0x1_0000 % 0x100) as u8) as u32 * 0x1_0000u32 + ((w / 0x100_0000 % 0x100) as u8) as u32
        * 0x100_0000u32) == w) by (bit_vector);
    let (b0, b1, b2, b3) = (b[k], b[k + 1], b[k + 2], b[k + 3]);
    let x: u32 = (b0 as u32 + b1 as u32 * 0x100u32 + b2 as u32 * 0x1_0000u32 + b3 as u32
        * 0x100_0000u32) as u32;
    assert(x == le_word_at(b, k));
    assert({
        &&& (x % 0x100) as u8 == b0
        &&& (x / 0x100 % 0x100) as u8 == b1
        &&& (x / 0x1_0000 % 0x100) as u8 == b2
        &&& (x / 0x100_0000 % 0x100) as u8 == b3
    }) by (bit_vector)
        requires
            x == (b0 as u32 + b1 as u32 * 0x100u32 + b2 as u32 * 0x1_0000u32 + b3 as u32
                * 0x100_0000u32) as u32,
    ;
    assert(le_bytes(le_word_at(b, k)) =~= b.subrange(k, k + 4));
}

/// Appending one word appends its four little-endian bytes.
pub proof fn lemma_words_bytes_push(s: Seq<u32>, w: u32)
    ensures
        words_bytes(s.push(w)) == words_bytes(s) + le_bytes(w),
{
    let lhs = words_bytes(s.push(w));
    let rhs = words_bytes(s) + le_bytes(w);
    assert forall|j: int| 0 <= j < lhs.len() implies lhs[j] == rhs[j] by {
        if j < 4 * s.len() {
            assert(j / 4 < s.len());
        } else {
            assert(j / 4 == s.len());
            assert(j % 4 == j - 4 * s.len());
        }
    }
    assert(lhs =~= rhs);
}

/// The bytes of word `i` sit at offset `4 * i`.
pub proof fn lemma_words_bytes_at(s: Seq<u32>, i: int)
    requires
        0 <= i < s.len(),
    ensures
        words_bytes(s).subrange(4 * i, 4 * i + 4) == le_bytes(s[i]),
{
    let b = words_bytes(s);
    assert forall|k: int| 0 <= k < 4 implies b[4 * i + k] == le_bytes(s[i])[k] by {
        assert((4 * i + k) / 4 == i);
        assert((4 * i + k) % 4 == k);
    }
    assert(b.subrange(4 * i, 4 * i + 4) =~= le_bytes(s[i]));
}

/// Reading back the bytes of a valid SID gives that SID.
pub proof fn lemma_decode_sid_bytes(v: SidValue)
    requires
        v.valid(),
    ensures
        decode_sid(sid_bytes(v)) == Ok::<SidValue, Error>(v),
{
    let b = sid_bytes(v);
    let s = v.sub_authorities;
    lemma_authority_bytes_round_trip(v.authority);
    assert(b.subrange(2, 8) =~= authority_bytes(v.authority));
    let w = Seq::new(b[1] as nat, |i: int| le_word_at(b, 8 + 4 * i));
    assert forall|i: int| 0 <= i < s.len() implies w[i] == s[i] by {
        lemma_words_bytes_at(s, i);
        lemma_le_word_round_trip(s[i], b, 8 + 4 * i);
        assert(b.subrange(8 + 4 * i, 8 + 4 * i + 4) =~= words_bytes(s).subrange(4 * i, 4 * i + 4));
        assert(le_word_at(b, 8 + 4 * i) == le_word_at(le_bytes(s[i]), 0));
    }
    assert(w =~= s);
}

/// Two SIDs are equal exactly when their bytes are equal.
pub proof fn lemma_sid_bytes_injective(a: SidValue, b: SidValue)
    requires
        a.valid(),
        b.valid(),
    ensures
        (sid_bytes(a) == sid_bytes(b)) == (a == b),
{
    lemma_decode_sid_bytes(a);
    lemma_decode_sid_bytes(b);
}

/// Bytes of SID layout are the bytes of the SID they describe.
pub proof fn lemma_sid_bytes_decode(b: Seq<u8>)
    requires
        is_sid_layout(b),
    ensures
        sid_of_layout(b).valid(),
        sid_bytes(sid_of_layout(b)) == b,
{
    let v = sid_of_layout(b);
    lemma_authority_value_round_trip(b.subrange(2, 8));
    let e = sid_bytes(v);
    let s = v.sub_authorities;
    assert forall|j: int| 0 <= j < b.len() implies e[j] == b[j] by {
        if j < 2 {
        } else if j < 8 {
            assert(authority_bytes(v.authority)[j - 2] == b.subrange(2, 8)[j - 2]);
        } else {
            let i = (j - 8) / 4;
            let k = (j - 8) % 4;
            assert(0 <= i < s.len());
            lemma_words_bytes_at(s, i);
            lemma_le_word_round_trip(0, b, 8 + 4 * i);
            assert(j == 8 + 4 * i + k);
            assert(words_bytes(s)[j - 8] == words_bytes(s).subrange(4 * i, 4 * i + 4)[k]);
            assert(b.subrange(8 + 4 * i, 8 + 4 * i + 4)[k] == b[j]);
        }
    }
    assert(e =~= b);
}


/// The SID as 32-bit words: each four bytes of its layout, little-endian.
pub open spec fn sid_words(v: SidValue) -> Seq<u32> {
    Seq::new(2 + v.sub_authorities.len(), |i: int| le_word_at(sid_bytes(v), 4 * i))
}

/// What reading a SID from the start of a buffer of 32-bit words gives: the
/// header must have revision 1 and at most 15 sub-authorities, and the
/// buffer must hold all of them; words past the SID are ignored.
pub open spec fn decode_sid_words(w: Seq<u32>) -> Result<SidValue, Error> {
    let b = words_bytes(w);
    if w.len() >= 2 && b[0] == SID_REVISION && b[1] <= SID_MAX_SUB_AUTHORITIES && w.len() >= 2
        + b[1] {
        Ok(sid_of_layout(b.take(SID_HEADER_BYTES + 4 * b[1])))
    } else {
        Err(Error::InvalidSid)
    }
}

/// What the header check on a SID's first two bytes gives: the number of
/// 32-bit words the SID occupies.
pub open spec fn sid_word_len_result(revision: u8, count: u8) -> Result<usize, Error> {
    if revision == SID_REVISION && count <= SID_MAX_SUB_AUTHORITIES {
        Ok((2 + count) as usize)
    } else {
        Err(Error::InvalidSid)
    }
}

/// The bytes of the first `n` words are the first `4 * n` bytes.
pub proof fn lemma_words_bytes_take(w: Seq<u32>, n: int)
    requires
        0 <= n <= w.len(),
    ensures
        words_bytes(w.take(n)) == words_bytes(w).take(4 * n),
{
    let l = words_bytes(w.take(n));
    let r = words_bytes(w).take(4 * n);
    assert forall|j: int| 0 <= j < 4 * n implies l[j] == r[j] by {
        assert(j / 4 < n);
    }
    assert(l =~= r);
}

/// The header check reads the word length of a SID from its first two
/// bytes: for every SID, the revision and count at the start of its bytes
/// give exactly the number of words the SID occupies.
pub proof fn lemma_sid_word_len_of_header(v: SidValue)
    requires
        v.valid(),
    ensures
        sid_bytes(v)[0] == SID_REVISION,
        sid_bytes(v)[1] == v.sub_authorities.len(),
        sid_word_len_result(sid_bytes(v)[0], sid_bytes(v)[1]) == Ok::<usize, Error>(
            sid_words(v).len() as usize,
        ),
        4 * sid_words(v).len() == sid_bytes(v).len(),
{
    lemma_authority_bytes_round_trip(v.authority);
}

/// Reading a SID from a word buffer needs exactly the words that the header
/// check announces: whenever a buffer holds a SID, its first two bytes pass
/// the header check, the buffer holds at least that many words, and those
/// words alone decode to the same SID.
pub proof fn lemma_sid_word_len_suffices(w: Seq<u32>)
    requires
        decode_sid_words(w) is Ok,
    ensures
        ({
            let b = words_bytes(w);
            sid_word_len_result(b[0], b[1]) matches Ok(n) && n <= w.len() && decode_sid_words(
                w.take(n as int),
            ) == decode_sid_words(w) && 4 * n == SID_HEADER_BYTES + 4 * b[1]
        }),
{
    let b = words_bytes(w);
    let n = 2 + b[1];
    lemma_words_bytes_take(w, n);
    let bt = words_bytes(w.take(n));
    assert(bt[0] == b[0]);
    assert(bt[1] == b[1]);
    assert(bt.take(SID_HEADER_BYTES + 4 * b[1]) =~= b.take(SID_HEADER_BYTES + 4 * b[1]));
}

/// The bytes of the words of a SID are the SID's bytes.
pub proof fn lemma_sid_words_bytes(v: SidValue)
    requires
        v.valid(),
    ensures
        words_bytes(sid_words(v)) == sid_bytes(v),
{
    let b = sid_bytes(v);
    let w = sid_words(v);
    lemma_authority_bytes_round_trip(v.authority);
    assert(b.len() == 4 * w.len());
    let e = words_bytes(w);
    assert forall|j: int| 0 <= j < b.len() implies e[j] == b[j] by {
        let i = j / 4;
        let k = j % 4;
        lemma_words_bytes_at(w, i);
        lemma_le_word_round_trip(0, b, 4 * i);
        assert(e.subrange(4 * i, 4 * i + 4)[k] == e[j]);
        assert(b.subrange(4 * i, 4 * i + 4)[k] == b[j]);
    }
    assert(e =~= b);
}

/// Reading the words of a valid SID gives that SID.
pub proof fn lemma_decode_sid_words(v: SidValue)
    requires
        v.valid(),
    ensures
        decode_sid_words(sid_words(v)) == Ok::<SidValue, Error>(v),
{
    lemma_sid_words_bytes(v);
    lemma_decode_sid_bytes(v);
    let b = sid_bytes(v);
    lemma_authority_bytes_round_trip(v.authority);
    assert(b.take(SID_HEADER_BYTES + 4 * b[1]) =~= b);
}

} // verus!
