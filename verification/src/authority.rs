//! Identifier authorities: the Windows `SECURITY_*_AUTHORITY` constants and
//! the conversions between an authority's 48-bit value and its big-endian
//! six-byte form.

use vstd::prelude::*;

use crate::error::Error;
use crate::sealed::Sealed;

verus! {

/// The authority for the null SID (`S-1-0`), whose only member is the
/// "Nobody" SID `S-1-0-0`.
pub const SECURITY_NULL_SID_AUTHORITY: [u8; 6] = [0, 0, 0, 0, 0, 0];

/// The authority for the world SID (`S-1-1`), whose only member is the
/// "Everyone" SID `S-1-1-0`.
pub const SECURITY_WORLD_SID_AUTHORITY: [u8; 6] = [0, 0, 0, 0, 0, 1];

/// The authority for local SIDs (`S-1-2`), such as `S-1-2-0`, the group of
/// users logged on at a local terminal.
pub const SECURITY_LOCAL_SID_AUTHORITY: [u8; 6] = [0, 0, 0, 0, 0, 2];

/// The authority for creator SIDs (`S-1-3`), such as `S-1-3-0`,
/// CREATOR OWNER.
pub const SECURITY_CREATOR_SID_AUTHORITY: [u8; 6] = [0, 0, 0, 0, 0, 3];

/// The non-unique authority (`S-1-4`).
pub const SECURITY_NON_UNIQUE_AUTHORITY: [u8; 6] = [0, 0, 0, 0, 0, 4];

/// The Windows NT authority (`S-1-5`), which contains most account, group,
/// and logon-session SIDs, such as `S-1-5-18`, LOCAL SYSTEM.
pub const SECURITY_NT_AUTHORITY: [u8; 6] = [0, 0, 0, 0, 0, 5];

/// The resource manager authority (`S-1-9`), for SIDs defined by third-party
/// resource managers.
pub const SECURITY_RESOURCE_MANAGER_AUTHORITY: [u8; 6] = [0, 0, 0, 0, 0, 9];

/// The application package authority (`S-1-15`), which contains app container
/// and capability SIDs.
pub const SECURITY_APP_PACKAGE_AUTHORITY: [u8; 6] = [0, 0, 0, 0, 0, 15];

/// The mandatory label authority (`S-1-16`), which contains integrity-level
/// SIDs such as `S-1-16-12288`, the high mandatory level.
pub const SECURITY_MANDATORY_LABEL_AUTHORITY: [u8; 6] = [0, 0, 0, 0, 0, 16];

/// The scoped policy identifier authority (`S-1-17`), for SIDs used by
/// central access policies.
pub const SECURITY_SCOPED_POLICY_ID_AUTHORITY: [u8; 6] = [0, 0, 0, 0, 0, 17];

/// The authentication authority (`S-1-18`), which contains SIDs describing
/// how an identity was asserted, such as `S-1-18-1`, Authentication Authority
/// Asserted Identity.
pub const SECURITY_AUTHENTICATION_AUTHORITY: [u8; 6] = [0, 0, 0, 0, 0, 18];

/// The process trust authority (`S-1-19`), which contains protected-process
/// trust-level SIDs.
pub const SECURITY_PROCESS_TRUST_AUTHORITY: [u8; 6] = [0, 0, 0, 0, 0, 19];

/// The largest identifier authority: 48 bits, all set.
pub const MAX_AUTHORITY: u64 = 0xFFFF_FFFF_FFFF;

/// The integer that a big-endian six-byte authority denotes.
pub open spec fn authority_value(b: Seq<u8>) -> int {
    b[0] * 0x100_0000_0000int + b[1] * 0x1_0000_0000int + b[2] * 0x100_0000int + b[3]
        * 0x1_0000int + b[4] * 0x100int + b[5]
}

/// The big-endian six-byte form of a 48-bit authority.
pub open spec fn authority_bytes(v: int) -> Seq<u8> {
    seq![
        (v / 0x100_0000_0000int % 0x100) as u8,
        (v / 0x1_0000_0000int % 0x100) as u8,
        (v / 0x100_0000int % 0x100) as u8,
        (v / 0x1_0000int % 0x100) as u8,
        (v / 0x100int % 0x100) as u8,
        (v % 0x100) as u8,
    ]
}

/// Every six-byte form denotes a 48-bit value, and the value's six-byte form
/// is that same form.
pub proof fn lemma_authority_value_round_trip(b: Seq<u8>)
    requires
        b.len() == 6,
    ensures
        0 <= authority_value(b) <= MAX_AUTHORITY,
        authority_bytes(authority_value(b)) == b,
{
    let (b0, b1, b2, b3, b4, b5) = (b[0], b[1], b[2], b[3], b[4], b[5]);
    let v: u64 = ((b0 as u64) * 0x100_0000_0000u64 + (b1 as u64) * 0x1_0000_0000u64 + (b2 as u64)
        * 0x100_0000u64 + (b3 as u64) * 0x1_0000u64 + (b4 as u64) * 0x100u64 + (b5 as u64)) as u64;
    assert(v == authority_value(b));
    assert({
        &&& v <= 0xFFFF_FFFF_FFFFu64
        &&& (v / 0x100_0000_0000u64 % 0x100u64) == b0 as u64
        &&& (v / 0x1_0000_0000u64 % 0x100u64) == b1 as u64
        &&& (v / 0x100_0000u64 % 0x100u64) == b2 as u64
        &&& (v / 0x1_0000u64 % 0x100u64) == b3 as u64
        &&& (v / 0x100u64 % 0x100u64) == b4 as u64
        &&& (v % 0x100u64) == b5 as u64
    }) by (bit_vector)
        requires
            v == (b0 as u64) * 0x100_0000_0000u64 + (b1 as u64) * 0x1_0000_0000u64 + (b2 as u64)
                * 0x100_0000u64 + (b3 as u64) * 0x1_0000u64 + (b4 as u64) * 0x100u64 + (b5 as u64),
    ;
    assert(authority_bytes(authority_value(b)) =~= b);
}

/// A 48-bit value is the value of its six-byte form.
pub proof fn lemma_authority_bytes_round_trip(v: int)
    requires
        0 <= v <= MAX_AUTHORITY,
    ensures
        authority_value(authority_bytes(v)) == v,
        authority_bytes(v).len() == 6,
{
    let w = v as u64;
    assert(((w / 0x100_0000_0000u64 % 0x100u64) * 0x100_0000_0000u64 + (w / 0x1_0000_0000u64
        % 0x100u64) * 0x1_0000_0000u64 + (w / 0x100_0000u64 % 0x100u64) * 0x100_0000u64 + (w
        / 0x1_0000u64 % 0x100u64) * 0x1_0000u64 + (w / 0x100u64 % 0x100u64) * 0x100u64 + (w
        % 0x100u64)) == w) by (bit_vector)
        requires
            w <= 0xFFFF_FFFF_FFFFu64,
    ;
}

/// Whether the six-byte form `b` comes before `c` in lexicographic order:
/// they agree up to some byte, where `b` holds the smaller one.
pub open spec fn bytes_precede(b: Seq<u8>, c: Seq<u8>) -> bool {
    exists|i: int| 0 <= i < 6 && #[trigger] b.take(i) == c.take(i) && b[i] < c[i]
}

/// Authorities order numerically as their six-byte forms order
/// lexicographically.
pub proof fn lemma_authority_order_is_lexicographic(b: Seq<u8>, c: Seq<u8>)
    requires
        b.len() == 6,
        c.len() == 6,
    ensures
        (authority_value(b) < authority_value(c)) == bytes_precede(b, c),
{
    if bytes_precede(b, c) {
        let i = choose|i: int| 0 <= i < 6 && #[trigger] b.take(i) == c.take(i) && b[i] < c[i];
        assert forall|j: int| 0 <= j < i implies b[j] == c[j] by {
            assert(b.take(i)[j] == c.take(i)[j]);
        }
    } else {
        if authority_value(b) < authority_value(c) {
            let i: int = if b[0] != c[0] {
                0
            } else if b[1] != c[1] {
                1
            } else if b[2] != c[2] {
                2
            } else if b[3] != c[3] {
                3
            } else if b[4] != c[4] {
                4
            } else {
                5
            };
            assert(b.take(i) =~= c.take(i));
            assert(b[i] < c[i]);
        }
    }
}

/// Computes the big-endian six-byte form of a 48-bit authority.
pub fn authority_to_bytes(v: u64) -> (b: [u8; 6])
    requires
        v <= MAX_AUTHORITY,
    ensures
        b@ == authority_bytes(v as int),
{
    let b = [
        (v / 0x100_0000_0000 % 0x100) as u8,
        (v / 0x1_0000_0000 % 0x100) as u8,
        (v / 0x100_0000 % 0x100) as u8,
        (v / 0x1_0000 % 0x100) as u8,
        (v / 0x100 % 0x100) as u8,
        (v % 0x100) as u8,
    ];
    assert(b@ =~= authority_bytes(v as int));
    b
}

/// Computes the 48-bit value of a big-endian six-byte authority.
pub fn authority_from_bytes(b: &[u8; 6]) -> (v: u64)
    ensures
        v == authority_value(b@),
        v <= MAX_AUTHORITY,
{
    (b[0] as u64) * 0x100_0000_0000 + (b[1] as u64) * 0x1_0000_0000 + (b[2] as u64) * 0x100_0000
        + (b[3] as u64) * 0x1_0000 + (b[4] as u64) * 0x100 + (b[5] as u64)
}

/// What converting a value of integer `v` to an authority gives.
pub open spec fn authority_result(v: int) -> Result<Seq<u8>, Error> {
    if 0 <= v <= MAX_AUTHORITY {
        Ok(authority_bytes(v))
    } else {
        Err(Error::AuthorityOutOfRange)
    }
}

/// Whether an authority conversion's outcome is the one `authority_result`
/// describes for `v`.
pub open spec fn is_authority_result(r: Result<[u8; 6], Error>, v: int) -> bool {
    match (r, authority_result(v)) {
        (Ok(b), Ok(expected)) => b@ == expected,
        (Err(e), Err(expected)) => e == expected,
        _ => false,
    }
}

/// Converts a value into a SID's six-byte identifier authority.
///
/// This trait is implemented for `[u8; 6]`, the authority's raw big-endian
/// form used by the constants in this module, and for every primitive integer
/// type. Integer values must fit in 48 bits.
///
/// The trait is sealed and cannot be implemented outside of this crate.
pub trait IntoAuthority: Sealed {
    /// The integer this value denotes as an authority.
    spec fn authority_int(&self) -> int;

    /// Returns the value as a big-endian six-byte identifier authority, or
    /// [`Error::AuthorityOutOfRange`] if the value cannot be represented in
    /// 48 bits.
    fn try_into_authority(self) -> (r: Result<[u8; 6], Error>)
        ensures
            is_authority_result(r, self.authority_int()),
    ;
}

impl Sealed for [u8; 6] {}

impl IntoAuthority for [u8; 6] {
    open spec fn authority_int(&self) -> int {
        authority_value(self@)
    }

    fn try_into_authority(self) -> (r: Result<[u8; 6], Error>) {
        proof {
            lemma_authority_value_round_trip(self@);
        }
        Ok(self)
    }
}

impl Sealed for u8 {}

impl IntoAuthority for u8 {
    open spec fn authority_int(&self) -> int {
        *self as int
    }

    fn try_into_authority(self) -> (r: Result<[u8; 6], Error>) {
        Ok(authority_to_bytes(self as u64))
    }
}

impl Sealed for u16 {}

impl IntoAuthority for u16 {
    open spec fn authority_int(&self) -> int {
        *self as int
    }

    fn try_into_authority(self) -> (r: Result<[u8; 6], Error>) {
        Ok(authority_to_bytes(self as u64))
    }
}

impl Sealed for u32 {}

impl IntoAuthority for u32 {
    open spec fn authority_int(&self) -> int {
        *self as int
    }

    fn try_into_authority(self) -> (r: Result<[u8; 6], Error>) {
        Ok(authority_to_bytes(self as u64))
    }
}

impl Sealed for u64 {}

impl IntoAuthority for u64 {
    open spec fn authority_int(&self) -> int {
        *self as int
    }

    fn try_into_authority(self) -> (r: Result<[u8; 6], Error>) {
        if self <= MAX_AUTHORITY {
            Ok(authority_to_bytes(self))
        } else {
            Err(Error::AuthorityOutOfRange)
        }
    }
}

impl Sealed for u128 {}

impl IntoAuthority for u128 {
    open spec fn authority_int(&self) -> int {
        *self as int
    }

    fn try_into_authority(self) -> (r: Result<[u8; 6], Error>) {
        if self <= MAX_AUTHORITY as u128 {
            Ok(authority_to_bytes(self as u64))
        } else {
            Err(Error::AuthorityOutOfRange)
        }
    }
}

impl Sealed for usize {}

impl IntoAuthority for usize {
    open spec fn authority_int(&self) -> int {
        *self as int
    }

    fn try_into_authority(self) -> (r: Result<[u8; 6], Error>) {
        if self as u64 <= MAX_AUTHORITY {
            Ok(authority_to_bytes(self as u64))
        } else {
            Err(Error::AuthorityOutOfRange)
        }
    }
}

impl Sealed for i8 {}

impl IntoAuthority for i8 {
    open spec fn authority_int(&self) -> int {
        *self as int
    }

    fn try_into_authority(self) -> (r: Result<[u8; 6], Error>) {
        if self >= 0 {
            Ok(authority_to_bytes(self as u64))
        } else {
            Err(Error::AuthorityOutOfRange)
        }
    }
}

impl Sealed for i16 {}

impl IntoAuthority for i16 {
    open spec fn authority_int(&self) -> int {
        *self as int
    }

    fn try_into_authority(self) -> (r: Result<[u8; 6], Error>) {
        if self >= 0 {
            Ok(authority_to_bytes(self as u64))
        } else {
            Err(Error::AuthorityOutOfRange)
        }
    }
}

impl Sealed for i32 {}

impl IntoAuthority for i32 {
    open spec fn authority_int(&self) -> int {
        *self as int
    }

    fn try_into_authority(self) -> (r: Result<[u8; 6], Error>) {
        if self >= 0 {
            Ok(authority_to_bytes(self as u64))
        } else {
            Err(Error::AuthorityOutOfRange)
        }
    }
}

impl Sealed for i64 {}

impl IntoAuthority for i64 {
    open spec fn authority_int(&self) -> int {
        *self as int
    }

    fn try_into_authority(self) -> (r: Result<[u8; 6], Error>) {
        if 0 <= self && self as u64 <= MAX_AUTHORITY {
            Ok(authority_to_bytes(self as u64))
        } else {
            Err(Error::AuthorityOutOfRange)
        }
    }
}

impl Sealed for i128 {}

impl IntoAuthority for i128 {
    open spec fn authority_int(&self) -> int {
        *self as int
    }

    fn try_into_authority(self) -> (r: Result<[u8; 6], Error>) {
        if 0 <= self && self <= MAX_AUTHORITY as i128 {
            Ok(authority_to_bytes(self as u64))
        } else {
            Err(Error::AuthorityOutOfRange)
        }
    }
}

impl Sealed for isize {}

impl IntoAuthority for isize {
    open spec fn authority_int(&self) -> int {
        *self as int
    }

    fn try_into_authority(self) -> (r: Result<[u8; 6], Error>) {
        if 0 <= self && self as u64 <= MAX_AUTHORITY {
            Ok(authority_to_bytes(self as u64))
        } else {
            Err(Error::AuthorityOutOfRange)
        }
    }
}

/// An integer of any primitive type denotes itself as an authority, so
/// every integer from 0 to `MAX_AUTHORITY` converts to its six-byte form and
/// every other integer is out of range.
pub proof fn lemma_integer_authorities(
    a: u8,
    b: u16,
    c: u32,
    d: u64,
    e: u128,
    f: usize,
    g: i8,
    h: i16,
    i: i32,
    j: i64,
    k: i128,
    l: isize,
)
    ensures
        a.authority_int() == a as int,
        b.authority_int() == b as int,
        c.authority_int() == c as int,
        d.authority_int() == d as int,
        e.authority_int() == e as int,
        f.authority_int() == f as int,
        g.authority_int() == g as int,
        h.authority_int() == h as int,
        i.authority_int() == i as int,
        j.authority_int() == j as int,
        k.authority_int() == k as int,
        l.authority_int() == l as int,
        forall|x: int|
            0 <= x <= MAX_AUTHORITY ==> #[trigger] authority_result(x) == Ok::<Seq<u8>, Error>(
                authority_bytes(x),
            ) && authority_value(authority_bytes(x)) == x,
        forall|x: int|
            !(0 <= x <= MAX_AUTHORITY) ==> #[trigger] authority_result(x) == Err::<Seq<u8>, Error>(
                Error::AuthorityOutOfRange,
            ),
{
    assert forall|x: int| 0 <= x <= MAX_AUTHORITY implies #[trigger] authority_result(x) == Ok::<
        Seq<u8>,
        Error,
    >(authority_bytes(x)) && authority_value(authority_bytes(x)) == x by {
        lemma_authority_bytes_round_trip(x);
    }
}

} // verus!
