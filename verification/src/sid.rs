//! The borrowed [`Sid`] and the owned [`SidBuf`].

use std::borrow::Borrow;
use std::ops::Deref;

use vstd::prelude::*;
use vstd::std_specs::cmp::PartialEqSpecImpl;

use crate::authority::{
    authority_bytes, authority_from_bytes, authority_value, lemma_authority_value_round_trip,
    IntoAuthority, MAX_AUTHORITY,
};
use crate::bytes::{
    decode_sid, le_word_at, lemma_words_bytes_push, sid_bytes, sid_words, words_bytes,
    SID_HEADER_BYTES,
};
use crate::error::Error;

verus! {

/// The only SID revision that Windows defines.
pub const SID_REVISION: u8 = 1;

/// The largest number of sub-authorities a SID may hold.
pub const SID_MAX_SUB_AUTHORITIES: u8 = 15;

/// The value a SID denotes: its 48-bit identifier authority and its
/// sub-authorities. The revision is always [`SID_REVISION`] and the recorded
/// sub-authority count is always the number of sub-authorities.
pub struct SidValue {
    pub authority: int,
    pub sub_authorities: Seq<u32>,
}

impl SidValue {
    /// Whether this value can be held by a SID: the authority fits in 48 bits
    /// and there are at most 15 sub-authorities.
    pub open spec fn valid(self) -> bool {
        &&& 0 <= self.authority <= MAX_AUTHORITY
        &&& self.sub_authorities.len() <= SID_MAX_SUB_AUTHORITIES
    }
}

/// What building a SID from an authority and sub-authorities gives: the
/// authority is checked first, then the number of sub-authorities.
pub open spec fn new_result(authority: int, sub_authorities: Seq<u32>) -> Result<SidValue, Error> {
    if !(0 <= authority <= MAX_AUTHORITY) {
        Err(Error::AuthorityOutOfRange)
    } else if sub_authorities.len() > SID_MAX_SUB_AUTHORITIES {
        Err(Error::TooManySubAuthorities)
    } else {
        Ok(SidValue { authority, sub_authorities })
    }
}

/// Building a SID from the authority and sub-authorities of a SID, with the
/// authority as an integer or in its six-byte form, gives that SID back.
pub proof fn lemma_new_round_trip(v: SidValue)
    requires
        v.valid(),
    ensures
        new_result(v.authority, v.sub_authorities) == Ok::<SidValue, Error>(v),
        new_result(authority_value(authority_bytes(v.authority)), v.sub_authorities) == Ok::<
            SidValue,
            Error,
        >(v),
{
    crate::authority::lemma_authority_bytes_round_trip(v.authority);
}

/// Two SIDs have equal prefixes exactly when they have the same authority,
/// the same number of sub-authorities, and the same sub-authority at every
/// position except the last.
pub proof fn lemma_equal_prefix_positions(a: SidValue, b: SidValue)
    ensures
        equal_prefix_spec(a, b) == (a.authority == b.authority && a.sub_authorities.len()
            == b.sub_authorities.len() && forall|j: int|
            0 <= j < a.sub_authorities.len() - 1 ==> a.sub_authorities[j] == b.sub_authorities[j]),
{
    let n = a.sub_authorities.len();
    if a.authority == b.authority && n == b.sub_authorities.len() && n > 0 {
        if forall|j: int| 0 <= j < n - 1 ==> a.sub_authorities[j] == b.sub_authorities[j] {
            assert(a.sub_authorities.take(n - 1) =~= b.sub_authorities.take(n - 1));
        }
        if a.sub_authorities.take(n - 1) == b.sub_authorities.take(n - 1) {
            assert forall|j: int| 0 <= j < n - 1 implies a.sub_authorities[j]
                == b.sub_authorities[j] by {
                assert(a.sub_authorities.take(n - 1)[j] == b.sub_authorities.take(n - 1)[j]);
            }
        }
    }
}

/// Having equal prefixes is an equivalence: reflexive, symmetric and
/// transitive.
pub proof fn lemma_equal_prefix_equivalence(a: SidValue, b: SidValue, c: SidValue)
    ensures
        equal_prefix_spec(a, a),
        equal_prefix_spec(a, b) ==> equal_prefix_spec(b, a),
        equal_prefix_spec(a, b) && equal_prefix_spec(b, c) ==> equal_prefix_spec(a, c),
{
}

/// The value of a borrowed SID.
pub open spec fn sid_value(sid: &Sid) -> SidValue {
    sid@
}

/// A result of owned SIDs, seen through their values.
pub open spec fn result_view(r: Result<SidBuf, Error>) -> Result<SidValue, Error> {
    match r {
        Ok(sid) => Ok(sid@),
        Err(e) => Err(e),
    }
}

/// Whether two SIDs have equal prefixes: equal authorities, equal numbers of
/// sub-authorities, and equal sub-authorities except for the last.
pub open spec fn equal_prefix_spec(a: SidValue, b: SidValue) -> bool {
    let n = a.sub_authorities.len();
    &&& a.authority == b.authority
    &&& n == b.sub_authorities.len()
    &&& (n == 0 || a.sub_authorities.take(n - 1) == b.sub_authorities.take(n - 1))
}

/// A SID.
///
/// `Sid` holds the fields of the Windows `SID` structure: the revision, the
/// sub-authority count, the big-endian identifier authority, and the
/// sub-authorities. It is normally obtained by dereferencing a [`SidBuf`].
#[derive(Debug, Eq, Hash, Ord)]
pub struct Sid {
    identifier_authority: [u8; 6],
    sub_authority: Vec<u32>,
    revision: u8,
    sub_authority_count: u8,
}

impl Sid {
    /// Every SID has revision 1 and records exactly as many sub-authorities as
    /// it holds, at most 15.
    #[verifier::type_invariant]
    spec fn well_formed(self) -> bool {
        &&& self.revision == SID_REVISION
        &&& self.sub_authority_count == self.sub_authority@.len()
        &&& self.sub_authority@.len() <= SID_MAX_SUB_AUTHORITIES
    }
}

impl View for Sid {
    type V = SidValue;

    closed spec fn view(&self) -> SidValue {
        SidValue {
            authority: authority_value(self.identifier_authority@),
            sub_authorities: self.sub_authority@,
        }
    }
}

impl Sid {
    /// Builds a SID from a six-byte authority and at most 15 sub-authorities.
    fn from_parts(identifier_authority: [u8; 6], sub_authority: Vec<u32>) -> (sid: Sid)
        requires
            sub_authority@.len() <= SID_MAX_SUB_AUTHORITIES,
        ensures
            sid@ == (SidValue {
                authority: authority_value(identifier_authority@),
                sub_authorities: sub_authority@,
            }),
    {
        let count = sub_authority.len() as u8;
        Sid {
            identifier_authority,
            sub_authority,
            revision: SID_REVISION,
            sub_authority_count: count,
        }
    }

    /// Returns the number of sub-authorities the SID holds.
    fn logical_sub_count(&self) -> (n: usize)
        ensures
            n == self@.sub_authorities.len(),
    {
        self.sub_authority.len()
    }

    /// Returns the SID revision, which is always 1.
    pub fn revision(&self) -> (r: u8)
        ensures
            r == SID_REVISION,
    {
        proof {
            use_type_invariant(self);
        }
        self.revision
    }

    /// Returns the number of sub-authorities recorded in the SID header.
    pub fn sub_authority_count(&self) -> (n: u8)
        ensures
            n == self@.sub_authorities.len(),
            n <= SID_MAX_SUB_AUTHORITIES,
    {
        proof {
            use_type_invariant(self);
        }
        self.sub_authority_count
    }

    /// Returns the 48-bit identifier authority as an integer.
    pub fn authority(&self) -> (a: u64)
        ensures
            a == self@.authority,
            a <= MAX_AUTHORITY,
    {
        authority_from_bytes(&self.identifier_authority)
    }

    /// Returns the identifier authority in its big-endian six-byte form.
    pub fn authority_bytes(&self) -> (b: [u8; 6])
        ensures
            b@ == authority_bytes(self@.authority),
    {
        proof {
            lemma_authority_value_round_trip(self.identifier_authority@);
        }
        self.identifier_authority
    }

    /// Returns the sub-authority at `idx`, or `None` if it is out of bounds.
    pub fn sub_authority(&self, idx: u8) -> (r: Option<u32>)
        ensures
            idx < self@.sub_authorities.len() ==> r == Some(self@.sub_authorities[idx as int]),
            idx >= self@.sub_authorities.len() ==> r.is_none(),
    {
        if (idx as usize) < self.logical_sub_count() {
            Some(self.sub_authority[idx as usize])
        } else {
            None
        }
    }

    /// Returns the SID's relative identifier (RID), its final sub-authority,
    /// or `None` when the SID has no sub-authorities.
    pub fn rid(&self) -> (r: Option<u32>)
        ensures
            self@.sub_authorities.len() > 0 ==> r == Some(self@.sub_authorities.last()),
            self@.sub_authorities.len() == 0 ==> r.is_none(),
    {
        let n = self.logical_sub_count();
        if n > 0 {
            Some(self.sub_authority[n - 1])
        } else {
            None
        }
    }

    /// Returns all of the SID's sub-authorities.
    pub fn sub_authorities(&self) -> (s: &[u32])
        ensures
            s@ == self@.sub_authorities,
    {
        self.sub_authority.as_slice()
    }

    /// Tests whether this SID and `other` have equal prefixes.
    ///
    /// A SID prefix contains the revision, identifier authority, sub-authority
    /// count, and every sub-authority except the last.
    pub fn equal_prefix(&self, other: &Sid) -> (r: bool)
        ensures
            r == equal_prefix_spec(self@, other@),
    {
        proof {
            use_type_invariant(self);
            use_type_invariant(other);
        }
        if self.revision != other.revision || self.authority() != other.authority()
            || self.sub_authority_count != other.sub_authority_count {
            return false;
        }
        let n = self.logical_sub_count();
        if n == 0 {
            return true;
        }
        let mut i: usize = 0;
        while i + 1 < n
            invariant
                n == self@.sub_authorities.len(),
                n == other@.sub_authorities.len(),
                0 < n,
                i < n,
                forall|j: int| 0 <= j < i ==> self@.sub_authorities[j] == other@.sub_authorities[j],
            decreases n - i,
        {
            if self.sub_authority[i] != other.sub_authority[i] {
                assert(self@.sub_authorities.take(n - 1)[i as int] != other@.sub_authorities.take(
                    n - 1,
                )[i as int]);
                return false;
            }
            i = i + 1;
        }
        assert(self@.sub_authorities.take(n - 1) =~= other@.sub_authorities.take(n - 1));
        true
    }

    /// Returns whether the two SIDs are equal: same authority and same
    /// sub-authorities.
    fn same_value(&self, other: &Sid) -> (r: bool)
        ensures
            r == (self@ == other@),
    {
        if self.authority() != other.authority() {
            return false;
        }
        let n = self.logical_sub_count();
        if n != other.logical_sub_count() {
            return false;
        }
        let mut i: usize = 0;
        while i < n
            invariant
                n == self@.sub_authorities.len(),
                n == other@.sub_authorities.len(),
                i <= n,
                forall|j: int| 0 <= j < i ==> self@.sub_authorities[j] == other@.sub_authorities[j],
            decreases n - i,
        {
            if self.sub_authority[i] != other.sub_authority[i] {
                return false;
            }
            i = i + 1;
        }
        assert(self@.sub_authorities =~= other@.sub_authorities);
        true
    }

    /// Copies this SID into an owned buffer.
    pub fn to_owned(&self) -> (owned: SidBuf)
        ensures
            owned@ == self@,
    {
        proof {
            use_type_invariant(self);
        }
        let subs = vstd::slice::slice_to_vec(self.sub_authority.as_slice());
        SidBuf { sid: Sid::from_parts(self.identifier_authority, subs) }
    }

    /// Returns the SID's bytes: the eight-byte header (revision,
    /// sub-authority count, big-endian authority) followed by four
    /// little-endian bytes for each sub-authority.
    pub fn as_bytes(&self) -> (b: Vec<u8>)
        ensures
            b@ == sid_bytes(self@),
    {
        proof {
            use_type_invariant(self);
            lemma_authority_value_round_trip(self.identifier_authority@);
        }
        let mut b: Vec<u8> = Vec::new();
        b.push(self.revision);
        b.push(self.sub_authority_count);
        let mut k: usize = 0;
        while k < 6
            invariant
                k <= 6,
                b@ == seq![SID_REVISION, self@.sub_authorities.len() as u8]
                    + self.identifier_authority@.take(k as int),
            decreases 6 - k,
        {
            b.push(self.identifier_authority[k]);
            assert(self.identifier_authority@.take(k + 1) =~= self.identifier_authority@.take(
                k as int,
            ).push(self.identifier_authority@[k as int]));
            k = k + 1;
        }
        assert(self.identifier_authority@.take(6) =~= authority_bytes(self@.authority));
        let n = self.logical_sub_count();
        let mut i: usize = 0;
        while i < n
            invariant
                n == self@.sub_authorities.len(),
                i <= n,
                b@ == seq![SID_REVISION, self@.sub_authorities.len() as u8] + authority_bytes(
                    self@.authority,
                ) + words_bytes(self@.sub_authorities.take(i as int)),
            decreases n - i,
        {
            let w = self.sub_authority[i];
            b.push((w % 0x100) as u8);
            b.push((w / 0x100 % 0x100) as u8);
            b.push((w / 0x1_0000 % 0x100) as u8);
            b.push((w / 0x100_0000 % 0x100) as u8);
            proof {
                lemma_words_bytes_push(self@.sub_authorities.take(i as int), w);
                assert(self@.sub_authorities.take(i + 1) =~= self@.sub_authorities.take(
                    i as int,
                ).push(w));
            }
            i = i + 1;
        }
        assert(self@.sub_authorities.take(n as int) =~= self@.sub_authorities);
        assert(b@ =~= sid_bytes(self@));
        b
    }
}

impl Sid {
    /// Returns the SID as 32-bit words, each holding four bytes of
    /// [`as_bytes`](Sid::as_bytes) in little-endian order: the layout of the
    /// Windows `SID` structure in memory on little-endian machines, which all
    /// Windows machines are.
    pub fn words(&self) -> (w: Vec<u32>)
        ensures
            w@ == sid_words(self@),
    {
        let b = self.as_bytes();
        proof {
            use_type_invariant(self);
            crate::authority::lemma_authority_bytes_round_trip(self@.authority);
        }
        let n = b.len() / 4;
        assert(b@.len() == 4 * n);
        let mut w: Vec<u32> = Vec::new();
        let mut i: usize = 0;
        while i < n
            invariant
                b@.len() == 4 * n,
                n <= 17,
                i <= n,
                w@.len() == i,
                forall|j: int| 0 <= j < i ==> w@[j] == le_word_at(b@, 4 * j),
            decreases n - i,
        {
            let k = 4 * i;
            let x = b[k] as u32 + b[k + 1] as u32 * 0x100 + b[k + 2] as u32 * 0x1_0000 + b[k + 3]
                as u32 * 0x100_0000;
            assert(x == le_word_at(b@, 4 * i));
            w.push(x);
            i = i + 1;
        }
        assert(w@ =~= sid_words(self@));
        w
    }
}

/// The header check on a SID's first two bytes: the revision must be 1 and
/// the sub-authority count at most 15. Returns the number of 32-bit words the
/// SID occupies, or [`Error::InvalidSid`].
pub fn sid_word_len(revision: u8, sub_authority_count: u8) -> (r: Result<usize, Error>)
    ensures
        r == crate::bytes::sid_word_len_result(revision, sub_authority_count),
{
    if revision != SID_REVISION || sub_authority_count > SID_MAX_SUB_AUTHORITIES {
        Err(Error::InvalidSid)
    } else {
        Ok(2 + sub_authority_count as usize)
    }
}

/// An owned SID.
///
/// `SidBuf` dereferences to [`Sid`], so all borrowed-SID operations are
/// available directly on an owned value.
#[derive(Debug, Eq, Hash, Ord)]
pub struct SidBuf {
    sid: Sid,
}

impl View for SidBuf {
    type V = SidValue;

    closed spec fn view(&self) -> SidValue {
        self.sid@
    }
}

impl SidBuf {
    /// Returns the borrowed SID.
    pub(crate) fn as_sid(&self) -> (s: &Sid)
        ensures
            s@ == self@,
    {
        &self.sid
    }

    /// Builds a SID from its identifier authority and sub-authorities.
    ///
    /// The authority may be one of the constants in
    /// [`authority`](crate::authority), the raw big-endian `[u8; 6]` form, or
    /// any primitive integer that fits in 48 bits.
    ///
    /// Returns [`Error::AuthorityOutOfRange`] if the authority cannot be
    /// represented in 48 bits, or else [`Error::TooManySubAuthorities`] if more
    /// than 15 sub-authorities are given.
    pub fn new<A: IntoAuthority>(identifier_authority: A, sub_authorities: &[u32]) -> (r: Result<
        SidBuf,
        Error,
    >)
        ensures
            result_view(r) == new_result(identifier_authority.authority_int(), sub_authorities@),
    {
        let ghost value = identifier_authority.authority_int();
        let identifier_authority = match identifier_authority.try_into_authority() {
            Ok(a) => a,
            Err(e) => {
                return Err(e);
            },
        };
        proof {
            crate::authority::lemma_authority_bytes_round_trip(value);
        }
        if sub_authorities.len() > SID_MAX_SUB_AUTHORITIES as usize {
            return Err(Error::TooManySubAuthorities);
        }
        let subs = vstd::slice::slice_to_vec(sub_authorities);
        Ok(SidBuf { sid: Sid::from_parts(identifier_authority, subs) })
    }

    /// Copies a SID from its byte representation.
    ///
    /// The length must exactly match the sub-authority count recorded in the
    /// header. Returns [`Error::InvalidSid`] if the input is too short, has an
    /// unsupported revision or sub-authority count, or does not have the exact
    /// length its header requires.
    pub fn from_bytes(bytes: &[u8]) -> (r: Result<SidBuf, Error>)
        ensures
            result_view(r) == decode_sid(bytes@),
    {
        let header_len = 2 * std::mem::size_of::<u32>();
        proof {
            broadcast use vstd::layout::layout_of_primitives;
        }
        if bytes.len() < header_len || bytes[0] != SID_REVISION {
            return Err(Error::InvalidSid);
        }
        let count = bytes[1] as usize;
        if count > SID_MAX_SUB_AUTHORITIES as usize || bytes.len() != header_len + count
            * std::mem::size_of::<u32>() {
            return Err(Error::InvalidSid);
        }
        let identifier_authority: [u8; 6] = [
            bytes[2],
            bytes[3],
            bytes[4],
            bytes[5],
            bytes[6],
            bytes[7],
        ];
        assert(identifier_authority@ =~= bytes@.subrange(2, 8));
        let mut subs: Vec<u32> = Vec::new();
        let mut i: usize = 0;
        while i < count
            invariant
                count == bytes@[1],
                bytes@.len() == 8 + 4 * count,
                i <= count,
                subs@ =~= Seq::new(i as nat, |j: int| le_word_at(bytes@, 8 + 4 * j)),
            decreases count - i,
        {
            let k = 8 + 4 * i;
            let w = bytes[k] as u32 + bytes[k + 1] as u32 * 0x100 + bytes[k + 2] as u32 * 0x1_0000
                + bytes[k + 3] as u32 * 0x100_0000;
            subs.push(w);
            i = i + 1;
        }
        Ok(SidBuf { sid: Sid::from_parts(identifier_authority, subs) })
    }
}

impl SidBuf {
    /// The number of 32-bit words to allocate for a buffer that a Windows
    /// function fills with a SID of `byte_len` bytes: the byte length rounded
    /// up to whole words, and at least the two header words.
    pub fn buffer_word_len(byte_len: u32) -> (n: usize)
        ensures
            n == if byte_len <= 8 {
                2
            } else {
                (byte_len + 3) / 4
            },
            4 * n >= byte_len,
    {
        if byte_len <= 8 {
            2
        } else {
            let whole = byte_len / 4;
            if byte_len % 4 == 0 {
                whole as usize
            } else {
                whole as usize + 1
            }
        }
    }

    /// Copies the SID at the start of a buffer of 32-bit words laid out as the
    /// Windows `SID` structure on a little-endian machine.
    ///
    /// The header must have revision 1 and at most 15 sub-authorities, and
    /// the buffer must hold every sub-authority it announces; words past the
    /// SID are ignored. Returns [`Error::InvalidSid`] otherwise.
    pub fn from_words(words: &[u32]) -> (r: Result<SidBuf, Error>)
        ensures
            result_view(r) == crate::bytes::decode_sid_words(words@),
    {
        let mut b: Vec<u8> = Vec::new();
        let mut i: usize = 0;
        while i < words.len()
            invariant
                i <= words@.len(),
                b@ == words_bytes(words@.take(i as int)),
            decreases words@.len() - i,
        {
            let w = words[i];
            b.push((w % 0x100) as u8);
            b.push((w / 0x100 % 0x100) as u8);
            b.push((w / 0x1_0000 % 0x100) as u8);
            b.push((w / 0x100_0000 % 0x100) as u8);
            proof {
                lemma_words_bytes_push(words@.take(i as int), w);
                assert(words@.take(i + 1) =~= words@.take(i as int).push(w));
            }
            i = i + 1;
        }
        assert(words@.take(i as int) =~= words@);
        if words.len() < 2 || b[0] != SID_REVISION || b[1] > SID_MAX_SUB_AUTHORITIES {
            return Err(Error::InvalidSid);
        }
        let count = b[1] as usize;
        if words.len() < 2 + count {
            return Err(Error::InvalidSid);
        }
        b.truncate(SID_HEADER_BYTES + 4 * count);
        SidBuf::from_bytes(b.as_slice())
    }
}

impl Deref for SidBuf {
    type Target = Sid;

    fn deref(&self) -> (s: &Sid)
        ensures
            s@ == self@,
    {
        &self.sid
    }
}

impl Borrow<Sid> for SidBuf {
    fn borrow(&self) -> (borrowed: &Sid)
        ensures
            sid_value(borrowed) == self@,
    {
        &self.sid
    }
}

impl AsRef<Sid> for SidBuf {
    fn as_ref(&self) -> (s: &Sid)
        ensures
            s@ == self@,
    {
        &self.sid
    }
}

impl Clone for SidBuf {
    fn clone(&self) -> (c: SidBuf)
        ensures
            c@ == self@,
    {
        self.sid.to_owned()
    }
}

impl Default for SidBuf {
    /// The null SID, `S-1-0-0`.
    fn default() -> (d: SidBuf)
        ensures
            d@ == (SidValue { authority: 0, sub_authorities: seq![0u32] }),
    {
        let subs: Vec<u32> = vec![0];
        let d = SidBuf { sid: Sid::from_parts(crate::authority::SECURITY_NULL_SID_AUTHORITY, subs) };
        assert(d@.sub_authorities =~= seq![0u32]);
        d
    }
}

impl PartialEq for Sid {
    fn eq(&self, other: &Sid) -> (r: bool) {
        self.same_value(other)
    }
}

impl PartialEqSpecImpl for Sid {
    open spec fn obeys_eq_spec() -> bool {
        true
    }

    open spec fn eq_spec(&self, other: &Sid) -> bool {
        self@ == other@
    }
}

impl PartialEq for SidBuf {
    fn eq(&self, other: &SidBuf) -> (r: bool) {
        self.sid.same_value(&other.sid)
    }
}

impl PartialEqSpecImpl for SidBuf {
    open spec fn obeys_eq_spec() -> bool {
        true
    }

    open spec fn eq_spec(&self, other: &SidBuf) -> bool {
        self@ == other@
    }
}

impl PartialEq<SidBuf> for Sid {
    fn eq(&self, other: &SidBuf) -> (r: bool) {
        self.same_value(&other.sid)
    }
}

impl PartialEqSpecImpl<SidBuf> for Sid {
    open spec fn obeys_eq_spec() -> bool {
        true
    }

    open spec fn eq_spec(&self, other: &SidBuf) -> bool {
        self@ == other@
    }
}

impl PartialEq<Sid> for SidBuf {
    fn eq(&self, other: &Sid) -> (r: bool) {
        self.sid.same_value(other)
    }
}

impl PartialEqSpecImpl<Sid> for SidBuf {
    open spec fn obeys_eq_spec() -> bool {
        true
    }

    open spec fn eq_spec(&self, other: &Sid) -> bool {
        self@ == other@
    }
}

impl<'a> PartialEq<&'a Sid> for SidBuf {
    fn eq(&self, other: &&'a Sid) -> (r: bool) {
        self.sid.same_value(*other)
    }
}

impl<'a> PartialEqSpecImpl<&'a Sid> for SidBuf {
    open spec fn obeys_eq_spec() -> bool {
        true
    }

    open spec fn eq_spec(&self, other: &&'a Sid) -> bool {
        self@ == (*other)@
    }
}

impl<'a> PartialEq<SidBuf> for &'a Sid {
    fn eq(&self, other: &SidBuf) -> (r: bool) {
        (*self).same_value(&other.sid)
    }
}

impl<'a> PartialEqSpecImpl<SidBuf> for &'a Sid {
    open spec fn obeys_eq_spec() -> bool {
        true
    }

    open spec fn eq_spec(&self, other: &SidBuf) -> bool {
        (*self)@ == other@
    }
}

} // verus!
