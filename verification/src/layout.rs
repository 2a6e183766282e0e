use vstd::prelude::*;

verus! {

/// A fixed-layout plain-data type: a value whose in-memory byte image is
/// fully determined by the value itself, with no ownership or indirection.
///
/// Typed reads and writes against the target address space marshal through
/// this trait, so only types that opt in can cross the acquisition channel.
/// The image is little-endian, matching the x86 targets the channel reads.
pub trait FixedLayout: Sized + Copy {
    /// Number of bytes in the byte image.
    spec fn layout_size() -> nat;

    /// The little-endian byte image of this value.
    spec fn to_le_spec(self) -> Seq<u8>;

    /// The value encoded by a little-endian byte image.
    spec fn from_le_spec(bytes: Seq<u8>) -> Self;

    /// Returns the width of this type's byte image.
    fn byte_size() -> (r: usize)
        ensures
            r as nat == Self::layout_size(),
    ;

    /// Marshals this value into its little-endian byte image.
    fn to_le_bytes(&self) -> (r: Vec<u8>)
        ensures
            r@ == self.to_le_spec(),
            r@.len() == Self::layout_size(),
    ;

    /// Reads a value back from a little-endian byte image.
    fn from_le_bytes(bytes: &[u8]) -> (r: Self)
        requires
            bytes@.len() == Self::layout_size(),
        ensures
            r == Self::from_le_spec(bytes@),
    ;

    /// Round trip: reading back a value's own byte image returns the value.
    proof fn lemma_round_trip(self)
        ensures
            Self::from_le_spec(self.to_le_spec()) == self,
            self.to_le_spec().len() == Self::layout_size(),
    ;
}

impl FixedLayout for u8 {
    open spec fn layout_size() -> nat {
        1
    }

    open spec fn to_le_spec(self) -> Seq<u8> {
        seq![self]
    }

    open spec fn from_le_spec(bytes: Seq<u8>) -> u8 {
        bytes[0]
    }

    fn byte_size() -> (r: usize) {
        1
    }

    fn to_le_bytes(&self) -> (r: Vec<u8>) {
        let mut v: Vec<u8> = Vec::new();
        v.push(*self);
        proof {
            assert(v@ =~= self.to_le_spec());
        }
        v
    }

    fn from_le_bytes(bytes: &[u8]) -> (r: Self) {
        bytes[0]
    }

    proof fn lemma_round_trip(self) {
    }
}

impl FixedLayout for u16 {
    open spec fn layout_size() -> nat {
        2
    }

    open spec fn to_le_spec(self) -> Seq<u8> {
        seq![(self & 0xff) as u8, ((self >> 8) & 0xff) as u8]
    }

    open spec fn from_le_spec(bytes: Seq<u8>) -> u16 {
        ((bytes[0] as u16) | ((bytes[1] as u16) << 8)) as u16
    }

    fn byte_size() -> (r: usize) {
        2
    }

    fn to_le_bytes(&self) -> (r: Vec<u8>) {
        let v: u16 = *self;
        let mut out: Vec<u8> = Vec::new();
        out.push((v & 0xff) as u8);
        out.push(((v >> 8) & 0xff) as u8);
        proof {
            assert(out@ =~= self.to_le_spec());
        }
        out
    }

    fn from_le_bytes(bytes: &[u8]) -> (r: Self) {
        (bytes[0] as u16) | ((bytes[1] as u16) << 8)
    }

    proof fn lemma_round_trip(self) {
        let v: u16 = self;
        assert((((v & 0xff) as u8 as u16) | ((((v >> 8) & 0xff) as u8 as u16) << 8)) as u16 == v)
            by (bit_vector);
    }
}

impl FixedLayout for u32 {
    open spec fn layout_size() -> nat {
        4
    }

    open spec fn to_le_spec(self) -> Seq<u8> {
        seq![
            (self & 0xff) as u8,
            ((self >> 8) & 0xff) as u8,
            ((self >> 16) & 0xff) as u8,
            ((self >> 24) & 0xff) as u8,
        ]
    }

    open spec fn from_le_spec(bytes: Seq<u8>) -> u32 {
        ((bytes[0] as u32) | ((bytes[1] as u32) << 8) | ((bytes[2] as u32) << 16) | ((
        bytes[3] as u32) << 24)) as u32
    }

    fn byte_size() -> (r: usize) {
        4
    }

    fn to_le_bytes(&self) -> (r: Vec<u8>) {
        let v: u32 = *self;
        let mut out: Vec<u8> = Vec::new();
        out.push((v & 0xff) as u8);
        out.push(((v >> 8) & 0xff) as u8);
        out.push(((v >> 16) & 0xff) as u8);
        out.push(((v >> 24) & 0xff) as u8);
        proof {
            assert(out@ =~= self.to_le_spec());
        }
        out
    }

    fn from_le_bytes(bytes: &[u8]) -> (r: Self) {
        (bytes[0] as u32) | ((bytes[1] as u32) << 8) | ((bytes[2] as u32) << 16) | ((
        bytes[3] as u32) << 24)
    }

    proof fn lemma_round_trip(self) {
        let v: u32 = self;
        assert((((v & 0xff) as u8 as u32) | ((((v >> 8) & 0xff) as u8 as u32) << 8) | ((((v >> 16)
            & 0xff) as u8 as u32) << 16) | ((((v >> 24) & 0xff) as u8 as u32) << 24)) as u32 == v)
            by (bit_vector);
    }
}

impl FixedLayout for u64 {
    open spec fn layout_size() -> nat {
        8
    }

    open spec fn to_le_spec(self) -> Seq<u8> {
        seq![
            (self & 0xff) as u8,
            ((self >> 8) & 0xff) as u8,
            ((self >> 16) & 0xff) as u8,
            ((self >> 24) & 0xff) as u8,
            ((self >> 32) & 0xff) as u8,
            ((self >> 40) & 0xff) as u8,
            ((self >> 48) & 0xff) as u8,
            ((self >> 56) & 0xff) as u8,
        ]
    }

    open spec fn from_le_spec(bytes: Seq<u8>) -> u64 {
        ((bytes[0] as u64) | ((bytes[1] as u64) << 8) | ((bytes[2] as u64) << 16) | ((
        bytes[3] as u64) << 24) | ((bytes[4] as u64) << 32) | ((bytes[5] as u64) << 40) | ((
        bytes[6] as u64) << 48) | ((bytes[7] as u64) << 56)) as u64
    }

    fn byte_size() -> (r: usize) {
        8
    }

    fn to_le_bytes(&self) -> (r: Vec<u8>) {
        let v: u64 = *self;
        let mut out: Vec<u8> = Vec::new();
        out.push((v & 0xff) as u8);
        out.push(((v >> 8) & 0xff) as u8);
        out.push(((v >> 16) & 0xff) as u8);
        out.push(((v >> 24) & 0xff) as u8);
        out.push(((v >> 32) & 0xff) as u8);
        out.push(((v >> 40) & 0xff) as u8);
        out.push(((v >> 48) & 0xff) as u8);
        out.push(((v >> 56) & 0xff) as u8);
        proof {
            assert(out@ =~= self.to_le_spec());
        }
        out
    }

    fn from_le_bytes(bytes: &[u8]) -> (r: Self) {
        (bytes[0] as u64) | ((bytes[1] as u64) << 8) | ((bytes[2] as u64) << 16) | ((
        bytes[3] as u64) << 24) | ((bytes[4] as u64) << 32) | ((bytes[5] as u64) << 40) | ((
        bytes[6] as u64) << 48) | ((bytes[7] as u64) << 56)
    }

    proof fn lemma_round_trip(self) {
        let v: u64 = self;
        assert((((v & 0xff) as u8 as u64) | ((((v >> 8) & 0xff) as u8 as u64) << 8) | ((((v >> 16)
            & 0xff) as u8 as u64) << 16) | ((((v >> 24) & 0xff) as u8 as u64) << 24) | ((((v >> 32)
            & 0xff) as u8 as u64) << 32) | ((((v >> 40) & 0xff) as u8 as u64) << 40) | ((((v >> 48)
            & 0xff) as u8 as u64) << 48) | ((((v >> 56) & 0xff) as u8 as u64) << 56)) as u64 == v)
            by (bit_vector);
    }
}

} // verus!
