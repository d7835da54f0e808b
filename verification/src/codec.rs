//! The state codec: which values may be stored on-ledger, and how they are
//! encoded and decoded.
//!
//! A storable value is a fully defined, fixed-size byte image: no references,
//! no platform-dependent padding ambiguity, freely copyable.  `MojoState`
//! holds such an image, built field by field in declaration order;
//! `StateLayout` is the capability descriptor of a storable type — its fixed
//! size and its default (zeroed) image.  Decoding reads exactly the first
//! `fixed_size` bytes and tolerates any trailing bytes the ledger may append;
//! it never succeeds on a shorter buffer.

use vstd::bytes::spec_u32_to_le_bytes;
use vstd::bytes::spec_u64_to_le_bytes;
use vstd::bytes::u32_to_le_bytes;
use vstd::bytes::u64_to_le_bytes;
use vstd::prelude::*;
use vstd::slice::slice_subrange;

use crate::error::WorldError;

verus! {

/// Appends all of `data` to `out`.
pub fn push_all(out: &mut Vec<u8>, data: &[u8])
    ensures
        final(out)@ == old(out)@ + data@,
{
    let mut i: usize = 0;
    while i < data.len()
        invariant
            i <= data@.len(),
            out@ == old(out)@ + data@.take(i as int),
        decreases data@.len() - i,
    {
        out.push(data[i]);
        proof {
            assert(data@.take(i + 1) =~= data@.take(i as int).push(data@[i as int]));
        }
        i = i + 1;
    }
    proof {
        assert(data@.take(data@.len() as int) =~= data@);
    }
}

/// A storable value: the fully defined byte image of one fixed-layout state
/// record.  The image is written whole at creation and fully replaced on each
/// write; there are no partial-field updates.
#[derive(Debug, Clone, PartialEq, Eq)]
pub struct MojoState {
    bytes: Vec<u8>,
}

impl View for MojoState {
    type V = Seq<u8>;

    closed spec fn view(&self) -> Seq<u8> {
        self.bytes@
    }
}

impl MojoState {
    /// An empty image, to be grown field by field.
    pub fn new() -> (s: Self)
        ensures
            s@ == Seq::<u8>::empty(),
    {
        MojoState { bytes: Vec::new() }
    }

    /// Appends one byte field.
    pub fn push_u8(&mut self, v: u8)
        ensures
            final(self)@ == old(self)@.push(v),
    {
        self.bytes.push(v);
    }

    /// Appends one u32 field, little endian.
    pub fn push_u32_le(&mut self, v: u32)
        ensures
            final(self)@ == old(self)@ + spec_u32_to_le_bytes(v),
    {
        let mut enc = u32_to_le_bytes(v);
        self.bytes.append(&mut enc);
    }

    /// Appends one u64 field, little endian.
    pub fn push_u64_le(&mut self, v: u64)
        ensures
            final(self)@ == old(self)@ + spec_u64_to_le_bytes(v),
    {
        let mut enc = u64_to_le_bytes(v);
        self.bytes.append(&mut enc);
    }

    /// Appends a fixed-size byte-array field as it stands.
    pub fn push_bytes(&mut self, data: &[u8])
        ensures
            final(self)@ == old(self)@ + data@,
    {
        push_all(&mut self.bytes, data);
    }

    /// The byte image, exactly as stored on-ledger.
    pub fn to_bytes(&self) -> (r: &[u8])
        ensures
            r@ == self@,
    {
        self.bytes.as_slice()
    }

    /// The image's size in bytes.
    pub fn len(&self) -> (r: usize)
        ensures
            r == self@.len(),
    {
        self.bytes.len()
    }
}

/// The capability descriptor of a storable type: its fixed byte size and its
/// default (all zeroes) byte image.  Validated once, at construction.
#[derive(Debug, PartialEq, Eq)]
pub struct StateLayout {
    fixed_size: usize,
    default_bytes: Vec<u8>,
}

impl StateLayout {
    #[verifier::type_invariant]
    spec fn wf(self) -> bool {
        &&& self.default_bytes@.len() == self.fixed_size
        &&& forall|i: int| 0 <= i < self.default_bytes@.len() ==> self.default_bytes@[i] == 0u8
    }

    /// The fixed byte size this descriptor stands for.
    pub closed spec fn size(&self) -> nat {
        self.fixed_size as nat
    }

    /// Describes a storable type of `fixed_size` bytes.
    pub fn new(fixed_size: usize) -> (r: Self)
        ensures
            r.size() == fixed_size,
    {
        let mut default_bytes: Vec<u8> = Vec::new();
        let mut i: usize = 0;
        while i < fixed_size
            invariant
                i <= fixed_size,
                default_bytes@.len() == i,
                forall|j: int| 0 <= j < i ==> default_bytes@[j] == 0u8,
            decreases fixed_size - i,
        {
            default_bytes.push(0u8);
            i = i + 1;
        }
        StateLayout { fixed_size, default_bytes }
    }

    /// The fixed byte size, as `size_of` of the described type.
    pub fn size_of(&self) -> (r: usize)
        ensures
            r == self.size(),
    {
        proof {
            use_type_invariant(self);
        }
        self.fixed_size
    }

    /// The default value of the described type: an all-zero image of the
    /// fixed size.
    pub fn default_value(&self) -> (r: MojoState)
        ensures
            r@.len() == self.size(),
            forall|i: int| 0 <= i < r@.len() ==> r@[i] == 0u8,
    {
        proof {
            use_type_invariant(self);
        }
        let mut v = MojoState::new();
        v.push_bytes(self.default_bytes.as_slice());
        v
    }

    /// Decodes a storable value from raw account bytes.
    ///
    /// Reads exactly the first `size()` bytes; any trailing bytes are
    /// tolerated and ignored.  Fails with `SizeMismatch` exactly when the
    /// buffer holds fewer bytes than the fixed size — it never succeeds on a
    /// short buffer.
    pub fn from_bytes(&self, raw: &[u8]) -> (r: Result<MojoState, WorldError>)
        ensures
            self.size() <= usize::MAX,
            raw@.len() < self.size() ==> r == Err::<MojoState, WorldError>(
                WorldError::SizeMismatch(raw@.len() as usize, self.size() as usize),
            ),
            raw@.len() >= self.size() ==> (r matches Ok(v) && v@ == raw@.take(self.size() as int)),
    {
        proof {
            use_type_invariant(self);
        }
        if raw.len() < self.fixed_size {
            return Err(WorldError::SizeMismatch(raw.len(), self.fixed_size));
        }
        let mut v = MojoState::new();
        let prefix = slice_subrange(raw, 0, self.fixed_size);
        v.push_bytes(prefix);
        Ok(v)
    }
}

/// Law: the codec round-trips.  A stored image of any size decodes to itself
/// from its own bytes, with any trailing bytes appended and ignored; together
/// with the `to_bytes` and `from_bytes` contracts this says
/// `from_bytes(to_bytes(v) ++ extra) == v` for every storable `v` and every
/// `extra`, the empty one included.
pub proof fn lemma_codec_round_trip(value: Seq<u8>, extra: Seq<u8>)
    ensures
        (value + extra).take(value.len() as int) == value,
{
    assert((value + extra).take(value.len() as int) =~= value);
}

} // verus!
