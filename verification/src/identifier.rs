//! Fixed-width byte-array identifier types.
//!
//! Two value types share the same structure: [`MyAccountId`] (16 bytes) and
//! [`MyHash`] (32 bytes). Both are built from a byte slice only when the
//! slice has exactly the right length, compare byte-wise (equality and
//! lexicographic order), hash deterministically from their bytes alone, and
//! encode to their raw bytes (the layout of a fixed-size byte array in the
//! contract's binary codec, with no length prefix). The hash type has a
//! designated all-zero "clear" value that stands for "no hash set".

use vstd::prelude::*;

verus! {

use core::cmp::Ordering;
use vstd::std_specs::cmp::PartialEqSpec;
use vstd::std_specs::cmp::PartialOrdSpec;

/// Number of bytes in an account identifier.
pub const ACCOUNT_ID_BYTES: usize = 16;

/// Number of bytes in a content hash.
pub const HASH_BYTES: usize = 32;

/// Seed of the byte-wise hash fold.
pub const HASH_SEED: u64 = 0xcbf2_9ce4_8422_2325;

/// Multiplier of the byte-wise hash fold.
pub const HASH_PRIME: u64 = 0x0000_0100_0000_01b3;

/// Failure to build a fixed-width identifier from a byte slice.
#[derive(Clone, Copy, Debug, PartialEq, Eq, Structural)]
pub enum ConversionError {
    /// The input slice's length differs from the type's fixed width.
    LengthMismatch,
}

/// The all-zero byte sequence of length `n`.
pub open spec fn zero_bytes(n: nat) -> Seq<u8> {
    Seq::new(n, |i: int| 0u8)
}

/// Lexicographic byte-wise comparison of two byte sequences.
pub open spec fn lex_cmp_bytes(a: Seq<u8>, b: Seq<u8>) -> Ordering
    decreases a.len(), b.len(),
{
    if a.len() == 0 && b.len() == 0 {
        Ordering::Equal
    } else if a.len() == 0 {
        Ordering::Less
    } else if b.len() == 0 {
        Ordering::Greater
    } else if a[0] < b[0] {
        Ordering::Less
    } else if a[0] > b[0] {
        Ordering::Greater
    } else {
        lex_cmp_bytes(a.drop_first(), b.drop_first())
    }
}

/// One step of the byte-wise hash fold.
pub open spec fn hash_step(h: u64, b: u8) -> u64 {
    vstd::wrapping::u64_specs::wrapping_mul(h ^ (b as u64), HASH_PRIME)
}

/// Deterministic hash of a byte sequence: a fold of [`hash_step`] over the
/// bytes, so it depends on the byte content alone.
pub open spec fn byte_hash(s: Seq<u8>) -> u64
    decreases s.len(),
{
    if s.len() == 0 {
        HASH_SEED
    } else {
        hash_step(byte_hash(s.drop_last()), s.last())
    }
}

/// On equal-length sequences, lexicographic comparison returns `Equal`
/// exactly on equal sequences.
pub proof fn lemma_lex_cmp_equal_iff(a: Seq<u8>, b: Seq<u8>)
    requires
        a.len() == b.len(),
    ensures
        lex_cmp_bytes(a, b) == Ordering::Equal <==> a == b,
    decreases a.len(),
{
    if a.len() == 0 {
        assert(a =~= b);
    } else {
        lemma_lex_cmp_equal_iff(a.drop_first(), b.drop_first());
        if lex_cmp_bytes(a, b) == Ordering::Equal {
            assert(a[0] == b[0]);
            assert(a.drop_first() == b.drop_first());
            assert forall|i: int| 0 <= i < a.len() implies a[i] == b[i] by {
                if i > 0 {
                    assert(a.drop_first()[i - 1] == b.drop_first()[i - 1]);
                }
            }
            assert(a =~= b);
        }
        if a == b {
            assert(a.drop_first() =~= b.drop_first());
        }
    }
}

fn bytes_from_slice<const N: usize>(bytes: &[u8]) -> (r: Result<[u8; N], ConversionError>)
    ensures
        match r {
            Ok(arr) => bytes@.len() == N && arr@ == bytes@,
            Err(e) => bytes@.len() != N && e == ConversionError::LengthMismatch,
        },
{
    if bytes.len() != N {
        return Err(ConversionError::LengthMismatch);
    }
    let mut arr: [u8; N] = [0u8; N];
    let mut i: usize = 0;
    while i < N
        invariant
            i <= N,
            bytes@.len() == N,
            forall|j: int| 0 <= j < i ==> arr@[j] == bytes@[j],
        decreases N - i,
    {
        arr[i] = bytes[i];
        i = i + 1;
    }
    proof {
        assert(arr@ =~= bytes@);
    }
    Ok(arr)
}

fn bytes_eq<const N: usize>(a: &[u8; N], b: &[u8; N]) -> (r: bool)
    ensures
        r == (a@ == b@),
{
    let mut i: usize = 0;
    while i < N
        invariant
            i <= N,
            forall|j: int| 0 <= j < i ==> a@[j] == b@[j],
        decreases N - i,
    {
        if a[i] != b[i] {
            return false;
        }
        i = i + 1;
    }
    proof {
        assert(a@ =~= b@);
    }
    true
}

fn bytes_cmp<const N: usize>(a: &[u8; N], b: &[u8; N]) -> (r: Ordering)
    ensures
        r == lex_cmp_bytes(a@, b@),
{
    proof {
        assert(a@.skip(0) =~= a@);
        assert(b@.skip(0) =~= b@);
    }
    let mut i: usize = 0;
    while i < N
        invariant
            i <= N,
            lex_cmp_bytes(a@, b@) == lex_cmp_bytes(a@.skip(i as int), b@.skip(i as int)),
        decreases N - i,
    {
        if a[i] < b[i] {
            return Ordering::Less;
        }
        if a[i] > b[i] {
            return Ordering::Greater;
        }
        proof {
            assert(a@.skip(i as int).drop_first() =~= a@.skip(i as int + 1));
            assert(b@.skip(i as int).drop_first() =~= b@.skip(i as int + 1));
        }
        i = i + 1;
    }
    proof {
        assert(a@.skip(N as int) =~= Seq::<u8>::empty());
        assert(b@.skip(N as int) =~= Seq::<u8>::empty());
    }
    Ordering::Equal
}

fn bytes_hash<const N: usize>(a: &[u8; N]) -> (r: u64)
    ensures
        r == byte_hash(a@),
{
    proof {
        assert(a@.take(0) =~= Seq::<u8>::empty());
    }
    let mut h: u64 = HASH_SEED;
    let mut i: usize = 0;
    while i < N
        invariant
            i <= N,
            h == byte_hash(a@.take(i as int)),
        decreases N - i,
    {
        proof {
            assert(a@.take(i as int + 1).drop_last() =~= a@.take(i as int));
            assert(a@.take(i as int + 1).last() == a@[i as int]);
        }
        h = (h ^ (a[i] as u64)).wrapping_mul(HASH_PRIME);
        i = i + 1;
    }
    proof {
        assert(a@.take(N as int) =~= a@);
    }
    h
}

fn bytes_all_zero<const N: usize>(a: &[u8; N]) -> (r: bool)
    ensures
        r == (a@ == zero_bytes(N as nat)),
{
    let mut i: usize = 0;
    while i < N
        invariant
            i <= N,
            forall|j: int| 0 <= j < i ==> a@[j] == 0u8,
        decreases N - i,
    {
        if a[i] != 0 {
            proof {
                assert(zero_bytes(N as nat)[i as int] == 0u8);
            }
            return false;
        }
        i = i + 1;
    }
    proof {
        assert(a@ =~= zero_bytes(N as nat));
    }
    true
}

fn bytes_to_vec<const N: usize>(a: &[u8; N]) -> (r: Vec<u8>)
    ensures
        r@ == a@,
{
    let mut out: Vec<u8> = Vec::new();
    let mut i: usize = 0;
    while i < N
        invariant
            i <= N,
            out@.len() == i,
            forall|j: int| 0 <= j < i ==> out@[j] == a@[j],
        decreases N - i,
    {
        out.push(a[i]);
        i = i + 1;
    }
    proof {
        assert(out@ =~= a@);
    }
    out
}

/// A 16-byte account identifier with byte-wise comparison semantics.
#[derive(Clone, Copy, Debug, Hash, Ord)]
pub struct MyAccountId(pub [u8; ACCOUNT_ID_BYTES]);

impl View for MyAccountId {
    type V = Seq<u8>;

    open spec fn view(&self) -> Seq<u8> {
        self.0@
    }
}

impl PartialEq for MyAccountId {
    fn eq(&self, other: &Self) -> (r: bool) {
        bytes_eq(&self.0, &other.0)
    }
}

impl Eq for MyAccountId {

}

impl vstd::std_specs::cmp::PartialEqSpecImpl for MyAccountId {
    open spec fn obeys_eq_spec() -> bool {
        true
    }

    open spec fn eq_spec(&self, other: &Self) -> bool {
        self@ == other@
    }
}

impl PartialOrd for MyAccountId {
    fn partial_cmp(&self, other: &Self) -> (r: Option<Ordering>) {
        Some(bytes_cmp(&self.0, &other.0))
    }
}

impl vstd::std_specs::cmp::PartialOrdSpecImpl for MyAccountId {
    open spec fn obeys_partial_cmp_spec() -> bool {
        true
    }

    open spec fn partial_cmp_spec(&self, other: &Self) -> Option<Ordering> {
        Some(lex_cmp_bytes(self@, other@))
    }
}

impl From<[u8; ACCOUNT_ID_BYTES]> for MyAccountId {
    fn from(bytes: [u8; ACCOUNT_ID_BYTES]) -> (r: Self) {
        MyAccountId(bytes)
    }
}

impl vstd::std_specs::convert::FromSpecImpl<[u8; ACCOUNT_ID_BYTES]> for MyAccountId {
    open spec fn obeys_from_spec() -> bool {
        true
    }

    open spec fn from_spec(bytes: [u8; ACCOUNT_ID_BYTES]) -> Self {
        MyAccountId(bytes)
    }
}

impl MyAccountId {
    /// Builds an account identifier from a byte slice. Succeeds exactly when
    /// the slice holds [`ACCOUNT_ID_BYTES`] bytes; the bytes are copied by
    /// value, never truncated or padded.
    pub fn from_bytes(bytes: &[u8]) -> (r: Result<Self, ConversionError>)
        ensures
            match r {
                Ok(id) => bytes@.len() == ACCOUNT_ID_BYTES && id@ == bytes@,
                Err(e) => bytes@.len() != ACCOUNT_ID_BYTES && e == ConversionError::LengthMismatch,
            },
    {
        match bytes_from_slice::<ACCOUNT_ID_BYTES>(bytes) {
            Ok(arr) => Ok(MyAccountId(arr)),
            Err(e) => Err(e),
        }
    }

    /// Exposes the fixed-length byte buffer.
    pub fn as_bytes(&self) -> (r: &[u8])
        ensures
            r@ == self@,
    {
        self.0.as_slice()
    }

    /// Overwrites one byte of the buffer in place.
    pub fn set_byte(&mut self, index: usize, value: u8)
        requires
            index < ACCOUNT_ID_BYTES,
        ensures
            final(self)@ == old(self)@.update(index as int, value),
    {
        self.0[index] = value;
    }

    /// Deterministic byte-wise hash code: equal byte content always gives an
    /// equal code, in every process.
    pub fn hash_code(&self) -> (r: u64)
        ensures
            r == byte_hash(self@),
    {
        bytes_hash(&self.0)
    }

    /// Stable binary encoding: the raw bytes, independent of the environment
    /// binding in use.
    pub fn encode(&self) -> (r: Vec<u8>)
        ensures
            r@ == self@,
    {
        bytes_to_vec(&self.0)
    }
}

/// A 32-byte content hash with byte-wise comparison semantics and an
/// all-zero "clear" sentinel.
#[derive(Clone, Copy, Debug, Hash, Ord)]
pub struct MyHash(pub [u8; HASH_BYTES]);

impl View for MyHash {
    type V = Seq<u8>;

    open spec fn view(&self) -> Seq<u8> {
        self.0@
    }
}

impl PartialEq for MyHash {
    fn eq(&self, other: &Self) -> (r: bool) {
        bytes_eq(&self.0, &other.0)
    }
}

impl Eq for MyHash {

}

impl vstd::std_specs::cmp::PartialEqSpecImpl for MyHash {
    open spec fn obeys_eq_spec() -> bool {
        true
    }

    open spec fn eq_spec(&self, other: &Self) -> bool {
        self@ == other@
    }
}

impl PartialOrd for MyHash {
    fn partial_cmp(&self, other: &Self) -> (r: Option<Ordering>) {
        Some(bytes_cmp(&self.0, &other.0))
    }
}

impl vstd::std_specs::cmp::PartialOrdSpecImpl for MyHash {
    open spec fn obeys_partial_cmp_spec() -> bool {
        true
    }

    open spec fn partial_cmp_spec(&self, other: &Self) -> Option<Ordering> {
        Some(lex_cmp_bytes(self@, other@))
    }
}

impl From<[u8; HASH_BYTES]> for MyHash {
    fn from(bytes: [u8; HASH_BYTES]) -> (r: Self) {
        MyHash(bytes)
    }
}

impl vstd::std_specs::convert::FromSpecImpl<[u8; HASH_BYTES]> for MyHash {
    open spec fn obeys_from_spec() -> bool {
        true
    }

    open spec fn from_spec(bytes: [u8; HASH_BYTES]) -> Self {
        MyHash(bytes)
    }
}

impl MyHash {
    /// Builds a content hash from a byte slice. Succeeds exactly when the
    /// slice holds [`HASH_BYTES`] bytes; the bytes are copied by value,
    /// never truncated or padded.
    pub fn from_bytes(bytes: &[u8]) -> (r: Result<Self, ConversionError>)
        ensures
            match r {
                Ok(h) => bytes@.len() == HASH_BYTES && h@ == bytes@,
                Err(e) => bytes@.len() != HASH_BYTES && e == ConversionError::LengthMismatch,
            },
    {
        match bytes_from_slice::<HASH_BYTES>(bytes) {
            Ok(arr) => Ok(MyHash(arr)),
            Err(e) => Err(e),
        }
    }

    /// Exposes the fixed-length byte buffer.
    pub fn as_bytes(&self) -> (r: &[u8])
        ensures
            r@ == self@,
    {
        self.0.as_slice()
    }

    /// Overwrites one byte of the buffer in place.
    pub fn set_byte(&mut self, index: usize, value: u8)
        requires
            index < HASH_BYTES,
        ensures
            final(self)@ == old(self)@.update(index as int, value),
    {
        self.0[index] = value;
    }

    /// Deterministic byte-wise hash code: equal byte content always gives an
    /// equal code, in every process.
    pub fn hash_code(&self) -> (r: u64)
        ensures
            r == byte_hash(self@),
    {
        bytes_hash(&self.0)
    }

    /// Stable binary encoding: the raw bytes, independent of the environment
    /// binding in use.
    pub fn encode(&self) -> (r: Vec<u8>)
        ensures
            r@ == self@,
    {
        bytes_to_vec(&self.0)
    }

    /// The distinguished all-zero sentinel, used by the environment to
    /// represent "no hash set".
    pub fn clear_value() -> (r: Self)
        ensures
            r@ == zero_bytes(HASH_BYTES as nat),
    {
        MyHash([0u8; HASH_BYTES])
    }

    /// Tests whether this hash is the all-zero sentinel.
    pub fn is_clear(&self) -> (r: bool)
        ensures
            r == (self@ == zero_bytes(HASH_BYTES as nat)),
    {
        bytes_all_zero(&self.0)
    }
}

/// Law: for account identifiers, equality, ordering comparison and hashing
/// all agree with plain byte-wise comparison of their content. In
/// particular, two identifiers built from identical byte content are equal,
/// compare as `Equal`, and hash alike.
pub proof fn lemma_account_id_comparisons_follow_bytes(a: MyAccountId, b: MyAccountId)
    ensures
        a.eq_spec(&b) == (a@ == b@),
        a.partial_cmp_spec(&b) == Some(lex_cmp_bytes(a@, b@)),
        lex_cmp_bytes(a@, b@) == Ordering::Equal <==> a@ == b@,
        a@ == b@ ==> byte_hash(a@) == byte_hash(b@),
{
    lemma_lex_cmp_equal_iff(a@, b@);
}

/// Law: for content hashes, equality, ordering comparison and hashing all
/// agree with plain byte-wise comparison of their content. In particular,
/// two hashes built from identical byte content are equal, compare as
/// `Equal`, and hash alike.
pub proof fn lemma_hash_comparisons_follow_bytes(a: MyHash, b: MyHash)
    ensures
        a.eq_spec(&b) == (a@ == b@),
        a.partial_cmp_spec(&b) == Some(lex_cmp_bytes(a@, b@)),
        lex_cmp_bytes(a@, b@) == Ordering::Equal <==> a@ == b@,
        a@ == b@ ==> byte_hash(a@) == byte_hash(b@),
{
    lemma_lex_cmp_equal_iff(a@, b@);
}

} // verus!
