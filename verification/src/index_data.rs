//! Index data, used for index buffers and indexed drawing.

use vstd::prelude::*;
use crate::native_bytes::{u16_to_ne_bytes, is_native_encoding, le_bytes_u16};

verus! {

/// The set of possible [`IndexDatum`](trait.IndexDatum.html) types.
#[derive(Debug, Clone, Copy, PartialEq, Eq, Structural)]
pub enum IndexDatumType {
    /// Unsigned 8-bit index data.
    UnsignedByte,
    /// Unsigned 16-bit index data.
    UnsignedShort,
}

impl IndexDatumType {
    /// The number of bytes of one index of this type.
    pub open spec fn spec_size(self) -> nat {
        match self {
            IndexDatumType::UnsignedByte => 1,
            IndexDatumType::UnsignedShort => 2,
        }
    }
}

/// A single value that can be treated as a single index.
pub trait IndexDatum: Sized {
    /// The data type this datum corresponds to.
    spec fn spec_index_datum_type() -> IndexDatumType;

    /// Whether `bytes` is how the datum is laid out in memory.
    spec fn spec_encodes(&self, bytes: Seq<u8>) -> bool;

    /// Return the data type this datum corresponds to.
    fn index_datum_type() -> (r: IndexDatumType)
        ensures
            r == Self::spec_index_datum_type(),
    ;

    /// The bytes of the datum as it is laid out in memory.
    fn index_datum_bytes(&self) -> (r: Vec<u8>)
        ensures
            self.spec_encodes(r@),
            r@.len() == Self::spec_index_datum_type().spec_size(),
    ;
}

impl IndexDatum for u8 {
    open spec fn spec_index_datum_type() -> IndexDatumType {
        IndexDatumType::UnsignedByte
    }

    open spec fn spec_encodes(&self, bytes: Seq<u8>) -> bool {
        bytes == seq![*self]
    }

    fn index_datum_type() -> (r: IndexDatumType) {
        IndexDatumType::UnsignedByte
    }

    fn index_datum_bytes(&self) -> (r: Vec<u8>) {
        let mut v: Vec<u8> = Vec::new();
        v.push(*self);
        v
    }
}

impl IndexDatum for u16 {
    open spec fn spec_index_datum_type() -> IndexDatumType {
        IndexDatumType::UnsignedShort
    }

    open spec fn spec_encodes(&self, bytes: Seq<u8>) -> bool {
        is_native_encoding(bytes, le_bytes_u16(*self))
    }

    fn index_datum_type() -> (r: IndexDatumType) {
        IndexDatumType::UnsignedShort
    }

    fn index_datum_bytes(&self) -> (r: Vec<u8>) {
        let b = u16_to_ne_bytes(*self);
        let mut v: Vec<u8> = Vec::new();
        v.push(b[0]);
        v.push(b[1]);
        assert(v@ =~= b@);
        v
    }
}

/// Whether `bytes` lays out each of `indices` in turn, `size` bytes each.
pub open spec fn encodes_indices<T: IndexDatum>(indices: Seq<T>, bytes: Seq<u8>) -> bool {
    let size = T::spec_index_datum_type().spec_size();
    &&& bytes.len() == size * indices.len()
    &&& forall|i: int|
        0 <= i < indices.len() ==> #[trigger] indices[i].spec_encodes(
            bytes.subrange(size * i, size * (i + 1)),
        )
}

/// A value that can be treated as a stream of index data.
pub trait IndexData {
    /// The number of index elements that `self` contains.
    spec fn spec_index_elements(&self) -> nat;

    /// Whether `bytes` is the stream of index data of `self`.
    spec fn spec_index_bytes(&self, bytes: Seq<u8>) -> bool;

    /// The data type of the index elements.
    spec fn spec_datum_type() -> IndexDatumType;

    /// Return the data type that this index data should be treated as.
    fn index_datum_type() -> (r: IndexDatumType)
        ensures
            r == Self::spec_datum_type(),
    ;

    /// Create the bytes of index data from `self`.
    fn index_bytes(&self) -> (r: Vec<u8>)
        ensures
            self.spec_index_bytes(r@),
    ;

    /// Return the number of index elements that `self` contains.
    fn index_elements(&self) -> (r: usize)
        ensures
            r == self.spec_index_elements(),
    ;
}

impl<T: IndexDatum> IndexData for [T] {
    open spec fn spec_index_elements(&self) -> nat {
        self@.len()
    }

    open spec fn spec_index_bytes(&self, bytes: Seq<u8>) -> bool {
        encodes_indices(self@, bytes)
    }

    open spec fn spec_datum_type() -> IndexDatumType {
        T::spec_index_datum_type()
    }

    fn index_datum_type() -> (r: IndexDatumType) {
        T::index_datum_type()
    }

    fn index_bytes(&self) -> (r: Vec<u8>) {
        let ghost size = T::spec_index_datum_type().spec_size();
        let mut bytes: Vec<u8> = Vec::new();
        let mut i: usize = 0;
        while i < self.len()
            invariant
                i <= self@.len(),
                size == T::spec_index_datum_type().spec_size(),
                bytes@.len() == size * i,
                forall|j: int|
                    0 <= j < i ==> #[trigger] self@[j].spec_encodes(
                        bytes@.subrange(size * j, size * (j + 1)),
                    ),
            decreases self@.len() - i,
        {
            let mut d = self[i].index_datum_bytes();
            let ghost dv = d@;
            let ghost before = bytes@;
            bytes.append(&mut d);
            proof {
                assert(bytes@ =~= before + dv);
                assert(bytes@.subrange(size * i, size * (i + 1)) =~= dv) by {
                    assert(size * (i + 1) == size * i + size) by (nonlinear_arith);
                }
                assert forall|j: int| 0 <= j < i + 1 implies #[trigger] self@[j].spec_encodes(
                    bytes@.subrange(size * j, size * (j + 1)),
                ) by {
                    if j < i {
                        assert(size * (j + 1) <= size * i) by (nonlinear_arith)
                            requires
                                j + 1 <= i,
                        ;
                        assert(0 <= size * j) by (nonlinear_arith)
                            requires
                                0 <= j,
                        ;
                        assert(bytes@.subrange(size * j, size * (j + 1)) =~= before.subrange(
                            size * j,
                            size * (j + 1),
                        ));
                    }
                }
                assert(bytes@.len() == size * (i + 1)) by (nonlinear_arith)
                    requires
                        bytes@.len() == size * i + size,
                ;
            }
            i = i + 1;
        }
        bytes
    }

    fn index_elements(&self) -> (r: usize) {
        self.len()
    }
}

} // verus!
