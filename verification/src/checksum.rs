//! Checksums of file contents, link targets and directory listings.

use vstd::prelude::*;

verus! {

/// The CRC-64 of a byte string, as `crc64fast` computes it.
pub uninterp spec fn crc64(bytes: Seq<u8>) -> u64;

/// The bytes that were written into a digest since it was made.
pub uninterp spec fn digest_written(digest: crc64fast::Digest) -> Seq<u8>;

/// `crc64fast::Digest`, a CRC-64 computation in progress. Nothing is known of what
/// is in it but the bytes that were written into it.
#[verifier::external_type_specification]
#[verifier::external_body]
pub struct ExDigest(crc64fast::Digest);

/// `crc64fast::Digest::new` starts a computation into which nothing was written.
pub assume_specification[ crc64fast::Digest::new ]() -> (digest: crc64fast::Digest)
    ensures
        digest_written(digest) == Seq::<u8>::empty(),
;

/// `crc64fast::Digest::write` continues the computation with `bytes`: the digest
/// then stands for everything written before, followed by `bytes`.
pub assume_specification[ crc64fast::Digest::write ](digest: &mut crc64fast::Digest, bytes: &[u8])
    ensures
        digest_written(*final(digest)) == digest_written(*old(digest)) + bytes@,
;

/// `crc64fast::Digest::sum64` returns the CRC-64 of everything written so far and
/// leaves the digest as it is. A digest into which nothing was written sums to zero.
pub assume_specification[ crc64fast::Digest::sum64 ](digest: &crc64fast::Digest) -> (sum: u64)
    ensures
        sum == crc64(digest_written(*digest)),
        digest_written(*digest).len() == 0 ==> sum == 0,
;

/// A 64-bit checksum. Two checksums combine with exclusive or, for which the
/// checksum of the empty input is the neutral element.
#[derive(Debug, PartialEq, Eq, Clone, Copy, Hash, Structural)]
pub struct Checksum(u64);

impl Checksum {
    /// The number that this checksum holds.
    pub closed spec fn value(self) -> u64 {
        self.0
    }

    /// The checksum of `bytes`.
    pub open spec fn of(bytes: Seq<u8>) -> Checksum {
        Checksum::from_value(crc64(bytes))
    }

    /// The checksum that holds `value`.
    pub closed spec fn from_value(value: u64) -> Checksum {
        Checksum(value)
    }

    /// The combination of two checksums.
    pub open spec fn combine(self, other: Checksum) -> Checksum {
        Checksum::from_value(self.value() ^ other.value())
    }

    /// The checksum of the empty input.
    pub open spec fn zero() -> Checksum {
        Checksum::from_value(0)
    }

    /// The checksum that holds `value`.
    pub fn from_u64(value: u64) -> (c: Checksum)
        ensures
            c == Checksum::from_value(value),
            c.value() == value,
    {
        Checksum(value)
    }

    /// The number that this checksum holds.
    pub fn to_u64(self) -> (value: u64)
        ensures
            value == self.value(),
    {
        self.0
    }

    /// Combines `rhs` into this checksum.
    pub fn xor_assign(&mut self, rhs: Checksum)
        ensures
            *final(self) == old(self).combine(rhs),
    {
        self.0 = self.0 ^ rhs.0;
    }

    /// A checksum holds the number it was made of.
    pub broadcast proof fn value_of_from_value(value: u64)
        ensures
            #[trigger] Checksum::from_value(value).value() == value,
    {
    }

    /// A checksum is told by the number it holds.
    pub broadcast proof fn from_value_of_value(c: Checksum)
        ensures
            #[trigger] Checksum::from_value(c.value()) == c,
    {
    }
}

/// Combining does not depend on the order of the two checksums.
pub proof fn combine_commutative(a: Checksum, b: Checksum)
    ensures
        a.combine(b) == b.combine(a),
{
    let (x, y) = (a.0, b.0);
    assert(x ^ y == y ^ x) by (bit_vector);
}

/// Combining does not depend on how three checksums are grouped.
pub proof fn combine_associative(a: Checksum, b: Checksum, c: Checksum)
    ensures
        a.combine(b).combine(c) == a.combine(b.combine(c)),
{
    let (x, y, z) = (a.0, b.0, c.0);
    assert((x ^ y) ^ z == x ^ (y ^ z)) by (bit_vector);
}

/// The checksum of the empty input changes nothing when it is combined in.
pub proof fn combine_zero(a: Checksum)
    ensures
        a.combine(Checksum::zero()) == a,
        Checksum::zero().combine(a) == a,
{
    let x = a.0;
    assert(x ^ 0 == x) by (bit_vector);
    assert(0 ^ x == x) by (bit_vector);
}

/// Combining a checksum in twice is the same as leaving it out.
pub proof fn combine_twice(a: Checksum, b: Checksum)
    ensures
        a.combine(b).combine(b) == a,
{
    let (x, y) = (a.0, b.0);
    assert((x ^ y) ^ y == x) by (bit_vector);
}

impl std::ops::BitXorAssign for Checksum {
    fn bitxor_assign(&mut self, rhs: Checksum)
        ensures
            *final(self) == old(self).combine(rhs),
    {
        self.0 = self.0 ^ rhs.0;
    }
}

/// A CRC-64 computation in progress. Its view is the bytes fed so far.
pub struct Crc64Hasher {
    digest: crc64fast::Digest,
}

impl View for Crc64Hasher {
    type V = Seq<u8>;

    closed spec fn view(&self) -> Seq<u8> {
        digest_written(self.digest)
    }
}

impl Default for Crc64Hasher {
    fn default() -> (hasher: Crc64Hasher)
        ensures
            hasher@ == Seq::<u8>::empty(),
    {
        Crc64Hasher::new()
    }
}

impl Crc64Hasher {
    /// A computation that has not been fed anything.
    pub fn new() -> (hasher: Crc64Hasher)
        ensures
            hasher@ == Seq::<u8>::empty(),
    {
        Crc64Hasher { digest: crc64fast::Digest::new() }
    }

    /// Feeds `data` to the computation.
    pub fn update(&mut self, data: &[u8])
        ensures
            final(self)@ == old(self)@ + data@,
    {
        self.digest.write(data);
    }

    /// Starts over.
    pub fn reset(&mut self)
        ensures
            final(self)@ == Seq::<u8>::empty(),
    {
        self.digest = crc64fast::Digest::new();
    }

    /// The checksum of the bytes fed so far.
    pub fn finalize(&self) -> (checksum: Checksum)
        ensures
            checksum == Checksum::of(self@),
            self@.len() == 0 ==> checksum == Checksum::zero(),
    {
        Checksum(self.digest.sum64())
    }
}

impl From<Crc64Hasher> for Checksum {
    fn from(hasher: Crc64Hasher) -> (checksum: Checksum) {
        hasher.finalize()
    }
}

impl vstd::std_specs::convert::FromSpecImpl<Crc64Hasher> for Checksum {
    open spec fn obeys_from_spec() -> bool {
        true
    }

    open spec fn from_spec(hasher: Crc64Hasher) -> Checksum {
        Checksum::of(hasher@)
    }
}

/// Records `value` in an empty slot, or holds it against what the slot records.
pub fn fill_checksum(to_fill: &mut Option<Checksum>, value: Checksum) -> (res: Result<(), ChecksumMismatch>)
    ensures
        res.is_ok() <==> (old(to_fill).is_none() || *old(to_fill) == Some(value)),
        res.is_ok() ==> *final(to_fill) == Some(value),
        res.is_err() ==> *final(to_fill) == *old(to_fill),
        res matches Err(e) ==> Some(e.recorded) == *old(to_fill) && e.computed == value,
{
    match *to_fill {
        Some(v) => {
            if v != value {
                return Err(ChecksumMismatch { recorded: v, computed: value });
            }
        },
        None => {},
    }
    *to_fill = Some(value);
    Ok(())
}

/// A source no longer has the checksum that was recorded for it.
#[derive(Debug, PartialEq, Eq, Clone, Copy, Structural)]
pub struct ChecksumMismatch {
    pub recorded: Checksum,
    pub computed: Checksum,
}

} // verus!
