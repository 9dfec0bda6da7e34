//! Uniform data: values that can be set as uniform variables of a program.

use vstd::prelude::*;
use crate::native_bytes::{i32_to_ne_bytes, is_native_encoding, le_bytes_u32};

verus! {

/// The basic value types that are composed in the
/// [`UniformDatumTypes`](enum.UniformDatumType.html).
#[derive(Debug, Clone, Copy, PartialEq, Eq, Structural)]
pub enum UniformPrimitiveType {
    /// A 32-bit floating point value.
    Float,
    /// A 32-bit signed integer value.
    Int,
}

/// The basic types that can be used as uniform values in a program object.
#[derive(Debug, Clone, Copy, PartialEq, Eq, Structural)]
pub enum UniformDatumType {
    /// A single scalar value.
    Vec1(UniformPrimitiveType),
    /// A vector with 2 components.
    Vec2(UniformPrimitiveType),
    /// A vector with 3 components.
    Vec3(UniformPrimitiveType),
    /// A vector with 4 components.
    Vec4(UniformPrimitiveType),
    /// A 2x2 matrix of floating-point values.
    Matrix2x2,
    /// A 3x3 matrix of floating-point values.
    Matrix3x3,
    /// A 4x4 matrix of floating-point values.
    Matrix4x4,
}

/// A single, basic value that can be composed to make a
/// [`UniformDatum`](trait.UniformDatum.html), such as a scalar.
pub trait UniformPrimitive: Copy {
    /// The data type this primitive corresponds to.
    spec fn spec_uniform_primitive_type() -> UniformPrimitiveType;


    /// Whether `bytes` is how the primitive is laid out in memory.
    spec fn spec_encodes(&self, bytes: Seq<u8>) -> bool;

    /// Return the data type this primitive corresponds to.
    fn uniform_primitive_type() -> (r: UniformPrimitiveType)
        ensures
            r == Self::spec_uniform_primitive_type(),
    ;

    /// The bytes of the primitive as it is laid out in memory.
    fn primitive_bytes(&self) -> (r: Vec<u8>)
        ensures
            self.spec_encodes(r@),
            r@.len() == vstd::layout::size_of::<Self>(),
    ;
}

impl UniformPrimitive for i32 {
    open spec fn spec_uniform_primitive_type() -> UniformPrimitiveType {
        UniformPrimitiveType::Int
    }

    open spec fn spec_encodes(&self, bytes: Seq<u8>) -> bool {
        is_native_encoding(bytes, le_bytes_u32(*self as u32))
    }

    fn uniform_primitive_type() -> (r: UniformPrimitiveType) {
        UniformPrimitiveType::Int
    }

    fn primitive_bytes(&self) -> (r: Vec<u8>) {
        broadcast use vstd::layout::layout_of_primitives;
        let b = i32_to_ne_bytes(*self);
        let mut v: Vec<u8> = Vec::new();
        v.push(b[0]);
        v.push(b[1]);
        v.push(b[2]);
        v.push(b[3]);
        assert(v@ =~= b@);
        v
    }
}

/// `std::mem::size_of::<[T; N]>()`. The contract claims what std documents
/// of arrays: `[T; N]` has a size of `N * size_of::<T>()`.
#[verifier::external_body]
fn array_size_of<T, const N: usize>() -> (r: usize)
    ensures
        r == vstd::layout::size_of::<[T; N]>(),
        r == N * vstd::layout::size_of::<T>(),
{
    core::mem::size_of::<[T; N]>()
}

/// The number of components of a uniform type, and the type of each (a
/// matrix holds floats).
pub open spec fn uniform_type_shape(ty: UniformDatumType) -> (nat, UniformPrimitiveType) {
    match ty {
        UniformDatumType::Vec1(p) => (1, p),
        UniformDatumType::Vec2(p) => (2, p),
        UniformDatumType::Vec3(p) => (3, p),
        UniformDatumType::Vec4(p) => (4, p),
        UniformDatumType::Matrix2x2 => (4, UniformPrimitiveType::Float),
        UniformDatumType::Matrix3x3 => (9, UniformPrimitiveType::Float),
        UniformDatumType::Matrix4x4 => (16, UniformPrimitiveType::Float),
    }
}

/// A uniform datum made of primitives of type `T` has as many components as
/// it holds primitives (one for a scalar, `N` for an array of `N`), each of
/// `T`'s type, and `i32` is the integer primitive.
pub proof fn lemma_uniform_datum_shapes<T: UniformPrimitive>()
    ensures
        uniform_type_shape(<T as UniformDatum>::spec_uniform_datum_type()) == (1nat, T::spec_uniform_primitive_type()),
        uniform_type_shape(<[T; 1] as UniformDatum>::spec_uniform_datum_type()) == (1nat, T::spec_uniform_primitive_type()),
        uniform_type_shape(<[T; 2] as UniformDatum>::spec_uniform_datum_type()) == (2nat, T::spec_uniform_primitive_type()),
        uniform_type_shape(<[T; 3] as UniformDatum>::spec_uniform_datum_type()) == (3nat, T::spec_uniform_primitive_type()),
        uniform_type_shape(<[T; 4] as UniformDatum>::spec_uniform_datum_type()) == (4nat, T::spec_uniform_primitive_type()),
        <i32 as UniformPrimitive>::spec_uniform_primitive_type() == UniformPrimitiveType::Int,
{
}

/// Whether `bytes` lays out each of `items` in turn.
pub open spec fn encodes_primitives<T: UniformPrimitive>(items: Seq<T>, bytes: Seq<u8>) -> bool {
    let size = vstd::layout::size_of::<T>();
    &&& bytes.len() == size * items.len()
    &&& forall|i: int|
        0 <= i < items.len() ==> #[trigger] items[i].spec_encodes(
            bytes.subrange(size * i, size * (i + 1)),
        )
}

/// Lay out each of `items` in turn.
pub(crate) fn primitives_bytes<T: UniformPrimitive>(items: &[T]) -> (r: Vec<u8>)
    ensures
        encodes_primitives(items@, r@),
{
    let ghost size = vstd::layout::size_of::<T>();
    let mut bytes: Vec<u8> = Vec::new();
    let mut i: usize = 0;
    while i < items.len()
        invariant
            i <= items@.len(),
            size == vstd::layout::size_of::<T>(),
            bytes@.len() == size * i,
            forall|j: int|
                0 <= j < i ==> #[trigger] items@[j].spec_encodes(
                    bytes@.subrange(size * j, size * (j + 1)),
                ),
        decreases items@.len() - i,
    {
        let mut d = items[i].primitive_bytes();
        let ghost dv = d@;
        let ghost before = bytes@;
        bytes.append(&mut d);
        proof {
            assert(bytes@ =~= before + dv);
            assert(bytes@.subrange(size * i, size * (i + 1)) =~= dv) by {
                assert(size * (i + 1) == size * i + size) by (nonlinear_arith);
            }
            assert forall|j: int| 0 <= j < i + 1 implies #[trigger] items@[j].spec_encodes(
                bytes@.subrange(size * j, size * (j + 1)),
            ) by {
                if j < i {
                    assert(size * (j + 1) <= size * i) by (nonlinear_arith)
                        requires
                            j + 1 <= i,
                    ;
                    assert(0 <= size * j) by (nonlinear_arith)
                        requires
                            0 <= j,
                    ;
                    assert(size * j <= size * (j + 1)) by (nonlinear_arith);
                    assert(before.len() == size * i);
                    assert(bytes@.subrange(size * j, size * (j + 1)) =~= before.subrange(
                        size * j,
                        size * (j + 1),
                    ));
                }
            }
            assert(bytes@.len() == size * (i + 1)) by (nonlinear_arith)
                requires
                    bytes@.len() == size * i + size,
            ;
        }
        i = i + 1;
    }
    bytes
}

/// A single uniform value, which corresponds to a single primitive GLSL
/// uniform type; its layout must match the returned
/// [`UniformDatumType`](enum.UniformDatumType.html).
pub trait UniformDatum {
    /// The data type this datum corresponds to.
    spec fn spec_uniform_datum_type() -> UniformDatumType;

    /// Whether `bytes` is how the datum is laid out in memory.
    spec fn spec_encodes(&self, bytes: Seq<u8>) -> bool;

    /// The number of bytes of every datum of the type: its size in memory
    /// (`size_of::<Self>()`) for the primitives, their arrays and the
    /// `nalgebra` vectors.
    spec fn spec_datum_size() -> nat;

    /// Return the data type this datum corresponds to.
    fn uniform_datum_type() -> (r: UniformDatumType)
        ensures
            r == Self::spec_uniform_datum_type(),
    ;

    /// The bytes of the datum as it is laid out in memory.
    fn datum_bytes(&self) -> (r: Vec<u8>)
        ensures
            self.spec_encodes(r@),
            r@.len() == Self::spec_datum_size(),
    ;
}

impl<T: UniformPrimitive> UniformDatum for T {
    open spec fn spec_uniform_datum_type() -> UniformDatumType {
        UniformDatumType::Vec1(T::spec_uniform_primitive_type())
    }

    open spec fn spec_encodes(&self, bytes: Seq<u8>) -> bool {
        encodes_primitives(seq![*self], bytes)
    }

    open spec fn spec_datum_size() -> nat {
        vstd::layout::size_of::<T>()
    }

    fn uniform_datum_type() -> (r: UniformDatumType) {
        UniformDatumType::Vec1(T::uniform_primitive_type())
    }

    fn datum_bytes(&self) -> (r: Vec<u8>) {
        let v = vec![*self];
        assert(v@ =~= seq![*self]);
        primitives_bytes(v.as_slice())
    }
}

impl<T: UniformPrimitive> UniformDatum for [T; 1] {
    open spec fn spec_uniform_datum_type() -> UniformDatumType {
        UniformDatumType::Vec1(T::spec_uniform_primitive_type())
    }

    open spec fn spec_encodes(&self, bytes: Seq<u8>) -> bool {
        encodes_primitives(self@, bytes)
    }

    open spec fn spec_datum_size() -> nat {
        vstd::layout::size_of::<[T; 1]>()
    }

    fn uniform_datum_type() -> (r: UniformDatumType) {
        UniformDatumType::Vec1(T::uniform_primitive_type())
    }

    fn datum_bytes(&self) -> (r: Vec<u8>) {
        array_size_of::<T, 1>();
        primitives_bytes(self.as_slice())
    }
}

impl<T: UniformPrimitive> UniformDatum for [T; 2] {
    open spec fn spec_uniform_datum_type() -> UniformDatumType {
        UniformDatumType::Vec2(T::spec_uniform_primitive_type())
    }

    open spec fn spec_encodes(&self, bytes: Seq<u8>) -> bool {
        encodes_primitives(self@, bytes)
    }

    open spec fn spec_datum_size() -> nat {
        vstd::layout::size_of::<[T; 2]>()
    }

    fn uniform_datum_type() -> (r: UniformDatumType) {
        UniformDatumType::Vec2(T::uniform_primitive_type())
    }

    fn datum_bytes(&self) -> (r: Vec<u8>) {
        array_size_of::<T, 2>();
        primitives_bytes(self.as_slice())
    }
}

impl<T: UniformPrimitive> UniformDatum for [T; 3] {
    open spec fn spec_uniform_datum_type() -> UniformDatumType {
        UniformDatumType::Vec3(T::spec_uniform_primitive_type())
    }

    open spec fn spec_encodes(&self, bytes: Seq<u8>) -> bool {
        encodes_primitives(self@, bytes)
    }

    open spec fn spec_datum_size() -> nat {
        vstd::layout::size_of::<[T; 3]>()
    }

    fn uniform_datum_type() -> (r: UniformDatumType) {
        UniformDatumType::Vec3(T::uniform_primitive_type())
    }

    fn datum_bytes(&self) -> (r: Vec<u8>) {
        array_size_of::<T, 3>();
        primitives_bytes(self.as_slice())
    }
}

impl<T: UniformPrimitive> UniformDatum for [T; 4] {
    open spec fn spec_uniform_datum_type() -> UniformDatumType {
        UniformDatumType::Vec4(T::spec_uniform_primitive_type())
    }

    open spec fn spec_encodes(&self, bytes: Seq<u8>) -> bool {
        encodes_primitives(self@, bytes)
    }

    open spec fn spec_datum_size() -> nat {
        vstd::layout::size_of::<[T; 4]>()
    }

    fn uniform_datum_type() -> (r: UniformDatumType) {
        UniformDatumType::Vec4(T::uniform_primitive_type())
    }

    fn datum_bytes(&self) -> (r: Vec<u8>) {
        array_size_of::<T, 4>();
        primitives_bytes(self.as_slice())
    }
}

/// A type that can be set as a uniform value of a program object, composed
/// of one or more [`UniformDatums`](trait.UniformDatum.html).
pub trait UniformData {
    /// The data type of the uniform elements.
    spec fn spec_datum_type() -> UniformDatumType;

    /// The number of uniform elements that `self` contains.
    spec fn spec_uniform_elements(&self) -> nat;

    /// Whether `bytes` is the uniform data of `self`.
    spec fn spec_uniform_bytes(&self, bytes: Seq<u8>) -> bool;

    /// The number of bytes of each uniform element.
    spec fn spec_element_size() -> nat;

    /// Return the type that this uniform data should be treated as.
    fn uniform_datum_type() -> (r: UniformDatumType)
        ensures
            r == Self::spec_datum_type(),
    ;

    /// Create the bytes of uniform data from `self`: as many bytes as each
    /// element has, for each element.
    fn uniform_bytes(&self) -> (r: Vec<u8>)
        ensures
            self.spec_uniform_bytes(r@),
            r@.len() == self.spec_uniform_elements() * Self::spec_element_size(),
    ;

    /// Return the number of uniform data elements that `self` contains.
    fn uniform_elements(&self) -> (r: usize)
        ensures
            r == self.spec_uniform_elements(),
    ;
}

impl<T: UniformDatum> UniformData for T {
    open spec fn spec_datum_type() -> UniformDatumType {
        T::spec_uniform_datum_type()
    }

    open spec fn spec_uniform_elements(&self) -> nat {
        1
    }

    open spec fn spec_uniform_bytes(&self, bytes: Seq<u8>) -> bool {
        self.spec_encodes(bytes)
    }

    open spec fn spec_element_size() -> nat {
        T::spec_datum_size()
    }

    fn uniform_datum_type() -> (r: UniformDatumType) {
        T::uniform_datum_type()
    }

    fn uniform_bytes(&self) -> (r: Vec<u8>) {
        let r = self.datum_bytes();
        assert(r@.len() == 1 * T::spec_datum_size());
        r
    }

    fn uniform_elements(&self) -> (r: usize) {
        1
    }
}

/// The bytes of a sequence of uniform data: a split of `bytes` into one
/// piece per datum, each piece laying out its datum.
pub open spec fn encodes_data<T: UniformDatum>(items: Seq<T>, bytes: Seq<u8>) -> bool
    decreases items.len(),
{
    if items.len() == 0 {
        bytes.len() == 0
    } else {
        exists|k: int|
            0 <= k <= bytes.len() && encodes_data(items.drop_last(), #[trigger] bytes.subrange(0, k))
                && items.last().spec_encodes(bytes.subrange(k, bytes.len() as int))
    }
}

impl<T: UniformDatum> UniformData for [T] {
    open spec fn spec_datum_type() -> UniformDatumType {
        T::spec_uniform_datum_type()
    }

    open spec fn spec_uniform_elements(&self) -> nat {
        self@.len()
    }

    open spec fn spec_uniform_bytes(&self, bytes: Seq<u8>) -> bool {
        encodes_data(self@, bytes)
    }

    open spec fn spec_element_size() -> nat {
        T::spec_datum_size()
    }

    fn uniform_datum_type() -> (r: UniformDatumType) {
        T::uniform_datum_type()
    }

    fn uniform_bytes(&self) -> (r: Vec<u8>) {
        let mut bytes: Vec<u8> = Vec::new();
        let mut i: usize = 0;
        let ghost size = T::spec_datum_size();
        while i < self.len()
            invariant
                i <= self@.len(),
                size == T::spec_datum_size(),
                encodes_data(self@.take(i as int), bytes@),
                bytes@.len() == i * size,
            decreases self@.len() - i,
        {
            let mut d = self[i].datum_bytes();
            let ghost dv = d@;
            let ghost before = bytes@;
            bytes.append(&mut d);
            proof {
                let k = before.len() as int;
                assert(self@.take(i + 1).drop_last() =~= self@.take(i as int));
                assert(bytes@.subrange(0, k) =~= before);
                assert(bytes@.subrange(k, bytes@.len() as int) =~= dv);
                assert(encodes_data(self@.take(i + 1), bytes@));
                assert((i + 1) * size == i * size + size) by (nonlinear_arith);
            }
            i = i + 1;
        }
        assert(self@.take(self@.len() as int) =~= self@);
        bytes
    }

    fn uniform_elements(&self) -> (r: usize) {
        self.len()
    }
}

} // verus!
