//! Deterministic derivation of miner identities from sequential indices.
//!
//! A miner identity is the domain tag `"miner"`, followed by the index in
//! four little-endian bytes, padded with zero bytes to the full identity
//! width.  Derivation is total; recovery is the partial inverse and fails
//! on any identity that does not have exactly that shape.

use vstd::prelude::*;

use crate::identifier::Identifier;

verus! {

/// Width in bytes of a derived miner identity.
pub const MINER_ID_LEN: usize = 32;

/// A sequential miner index.
#[derive(Debug, PartialEq, Eq, Structural, Clone, Copy)]
pub struct MinerId(pub u32);

/// Byte `i` of the domain tag `"miner"`.
pub open spec fn tag_byte(i: int) -> u8 {
    if i == 0 {
        109u8
    } else if i == 1 {
        105u8
    } else if i == 2 {
        110u8
    } else if i == 3 {
        101u8
    } else {
        114u8
    }
}

/// Little-endian byte `j` of a 32-bit index.
pub open spec fn index_byte(n: u32, j: int) -> u8 {
    if j == 0 {
        (n & 0xff) as u8
    } else if j == 1 {
        ((n >> 8) & 0xff) as u8
    } else if j == 2 {
        ((n >> 16) & 0xff) as u8
    } else {
        ((n >> 24) & 0xff) as u8
    }
}

/// The identity derived from index `n`: the domain tag, then the index in
/// little-endian bytes, then zero padding to the full width.
pub open spec fn derive_spec(n: u32) -> Seq<u8> {
    Seq::new(
        MINER_ID_LEN as nat,
        |i: int|
            if i < 5 {
                tag_byte(i)
            } else if i < 9 {
                index_byte(n, i - 5)
            } else {
                0u8
            },
    )
}

/// The 32-bit index held in four little-endian bytes.
pub open spec fn index_of_bytes(b0: u8, b1: u8, b2: u8, b3: u8) -> u32 {
    (b0 as u32) | ((b1 as u32) << 8) | ((b2 as u32) << 16) | ((b3 as u32) << 24)
}

/// The byte string starts with the domain tag.
pub open spec fn has_tag(s: Seq<u8>) -> bool {
    s[0] == 109 && s[1] == 105 && s[2] == 110 && s[3] == 101 && s[4] == 114
}

/// Every byte after the encoded index is zero.
pub open spec fn padding_zero(s: Seq<u8>) -> bool {
    forall|i: int| 9 <= i < s.len() ==> s[i] == 0
}

/// The index recovered from an identity's bytes: `Some(n)` exactly when
/// the bytes are the full-width tag-prefixed little-endian encoding of `n`
/// with all-zero padding, `None` otherwise.
pub open spec fn recover_spec(s: Seq<u8>) -> Option<u32> {
    if s.len() == MINER_ID_LEN && has_tag(s) && padding_zero(s) {
        Some(index_of_bytes(s[5], s[6], s[7], s[8]))
    } else {
        None
    }
}

proof fn lemma_index_bytes_roundtrip(n: u32)
    ensures
        index_of_bytes(index_byte(n, 0), index_byte(n, 1), index_byte(n, 2), index_byte(n, 3))
            == n,
{
    assert((((n & 0xff) as u8 as u32) | ((((n >> 8) & 0xff) as u8 as u32) << 8) | ((((n >> 16)
        & 0xff) as u8 as u32) << 16) | ((((n >> 24) & 0xff) as u8 as u32) << 24)) == n)
        by (bit_vector);
}

proof fn lemma_bytes_of_index(b0: u8, b1: u8, b2: u8, b3: u8)
    ensures
        index_byte(index_of_bytes(b0, b1, b2, b3), 0) == b0,
        index_byte(index_of_bytes(b0, b1, b2, b3), 1) == b1,
        index_byte(index_of_bytes(b0, b1, b2, b3), 2) == b2,
        index_byte(index_of_bytes(b0, b1, b2, b3), 3) == b3,
{
    assert(((((b0 as u32) | ((b1 as u32) << 8) | ((b2 as u32) << 16) | ((b3 as u32) << 24))
        & 0xff) as u8) == b0) by (bit_vector);
    assert((((((b0 as u32) | ((b1 as u32) << 8) | ((b2 as u32) << 16) | ((b3 as u32) << 24))
        >> 8) & 0xff) as u8) == b1) by (bit_vector);
    assert((((((b0 as u32) | ((b1 as u32) << 8) | ((b2 as u32) << 16) | ((b3 as u32) << 24))
        >> 16) & 0xff) as u8) == b2) by (bit_vector);
    assert((((((b0 as u32) | ((b1 as u32) << 8) | ((b2 as u32) << 16) | ((b3 as u32) << 24))
        >> 24) & 0xff) as u8) == b3) by (bit_vector);
}

/// Round trip: every index is recovered from its own derived identity.
pub proof fn lemma_identity_round_trip(n: u32)
    ensures
        recover_spec(derive_spec(n)) == Some(n),
{
    let s = derive_spec(n);
    assert(s[5] == index_byte(n, 0));
    assert(s[6] == index_byte(n, 1));
    assert(s[7] == index_byte(n, 2));
    assert(s[8] == index_byte(n, 3));
    lemma_index_bytes_roundtrip(n);
}

/// Exactness: an identity recovers to index `n` exactly when it is the
/// identity derived from `n`.  In particular any identity with a wrong
/// domain tag, a wrong width, or a non-zero byte in the padding recovers
/// to no index at all.
pub proof fn lemma_recover_exactly_derived(s: Seq<u8>, n: u32)
    ensures
        recover_spec(s) == Some(n) <==> s == derive_spec(n),
{
    if recover_spec(s) == Some(n) {
        lemma_bytes_of_index(s[5], s[6], s[7], s[8]);
        assert forall|i: int| 0 <= i < 32 implies s[i] == derive_spec(n)[i] by {
            if 9 <= i {
                assert(s[i] == 0);
            }
        }
        assert(s =~= derive_spec(n));
    }
    if s == derive_spec(n) {
        lemma_identity_round_trip(n);
    }
}

/// Conversion between a domain value and a ledger account identity.
pub trait AccountIdConversion: Sized {
    /// The identity this value converts into.
    spec fn to_account_spec(&self) -> Seq<u8>;

    /// The value recovered from an identity, when the identity carries one.
    spec fn from_account_spec(s: Seq<u8>) -> Option<Self>;

    /// Convert into an account identity.  This is infallible.
    fn into_account(&self) -> (r: Identifier)
        ensures
            r@ == self.to_account_spec(),
    ;

    /// Try to convert an account identity into this type.  Might not succeed.
    fn try_from_account(a: &Identifier) -> (r: Option<Self>)
        ensures
            r == Self::from_account_spec(a@),
    ;
}

impl AccountIdConversion for MinerId {
    open spec fn to_account_spec(&self) -> Seq<u8> {
        derive_spec(self.0)
    }

    open spec fn from_account_spec(s: Seq<u8>) -> Option<MinerId> {
        match recover_spec(s) {
            Some(n) => Some(MinerId(n)),
            None => None,
        }
    }

    fn into_account(&self) -> (r: Identifier) {
        let n = self.0;
        let mut bytes: Vec<u8> = Vec::new();
        bytes.push(109);
        bytes.push(105);
        bytes.push(110);
        bytes.push(101);
        bytes.push(114);
        bytes.push((n & 0xff) as u8);
        bytes.push(((n >> 8) & 0xff) as u8);
        bytes.push(((n >> 16) & 0xff) as u8);
        bytes.push(((n >> 24) & 0xff) as u8);
        let mut i: usize = 9;
        while i < MINER_ID_LEN
            invariant
                9 <= i <= MINER_ID_LEN,
                bytes@.len() == i,
                forall|j: int| 0 <= j < i ==> bytes@[j] == derive_spec(n)[j],
            decreases MINER_ID_LEN - i,
        {
            bytes.push(0);
            i += 1;
        }
        proof {
            assert(bytes@ =~= derive_spec(n));
        }
        Identifier::from_bytes(bytes)
    }

    fn try_from_account(a: &Identifier) -> (r: Option<MinerId>) {
        let bytes = a.as_bytes();
        if bytes.len() != MINER_ID_LEN {
            return None;
        }
        if bytes[0] != 109 || bytes[1] != 105 || bytes[2] != 110 || bytes[3] != 101 || bytes[4]
            != 114 {
            return None;
        }
        let n = (bytes[5] as u32) | ((bytes[6] as u32) << 8) | ((bytes[7] as u32) << 16) | ((
        bytes[8] as u32) << 24);
        let mut i: usize = 9;
        while i < MINER_ID_LEN
            invariant
                9 <= i <= MINER_ID_LEN,
                bytes@ == a@,
                bytes@.len() == MINER_ID_LEN,
                n == index_of_bytes(bytes@[5], bytes@[6], bytes@[7], bytes@[8]),
                forall|j: int| 9 <= j < i ==> bytes@[j] == 0,
            decreases MINER_ID_LEN - i,
        {
            if bytes[i] != 0 {
                return None;
            }
            i += 1;
        }
        Some(MinerId(n))
    }
}

} // verus!
