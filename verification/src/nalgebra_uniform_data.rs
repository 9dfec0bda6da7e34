//! `nalgebra` vectors of integers as uniform values.

use vstd::prelude::*;
use crate::uniform_data::{UniformDatum, UniformDatumType, UniformPrimitiveType, encodes_primitives, primitives_bytes, uniform_type_shape};

verus! {

/// The `nalgebra` matrix type, carried as an opaque value.
#[verifier::external_type_specification]
#[verifier::external_body]
#[verifier::reject_recursive_types(T)]
#[verifier::reject_recursive_types(R)]
#[verifier::reject_recursive_types(C)]
#[verifier::reject_recursive_types(S)]
pub struct ExNalgebraMatrix<T, R, C, S>(nalgebra::Matrix<T, R, C, S>);

/// The `nalgebra` type-level dimension, carried as an opaque value.
#[verifier::external_type_specification]
#[verifier::external_body]
pub struct ExNalgebraConst<const R: usize>(nalgebra::Const<R>);

/// The `nalgebra` statically sized storage, carried as an opaque value.
#[verifier::external_type_specification]
#[verifier::external_body]
#[verifier::reject_recursive_types(T)]
pub struct ExNalgebraArrayStorage<T, const R: usize, const C: usize>(nalgebra::ArrayStorage<T, R, C>);

/// The components of a two-component `nalgebra` vector, in order.
pub uninterp spec fn vector2_components(v: nalgebra::Vector2<i32>) -> Seq<i32>;

/// The components of a three-component `nalgebra` vector, in order.
pub uninterp spec fn vector3_components(v: nalgebra::Vector3<i32>) -> Seq<i32>;

/// The components of a four-component `nalgebra` vector, in order.
pub uninterp spec fn vector4_components(v: nalgebra::Vector4<i32>) -> Seq<i32>;

/// Reads the `x` and `y` fields of a `nalgebra` vector (through its `Deref`
/// to `XY`). The contract claims that these are the vector's components, in
/// order.
#[verifier::external_body]
fn vector2_to_array(v: &nalgebra::Vector2<i32>) -> (r: [i32; 2])
    ensures
        r@ == vector2_components(*v),
{
    [v.x, v.y]
}

/// Reads the `x`, `y` and `z` fields of a `nalgebra` vector (through its
/// `Deref` to `XYZ`). The contract claims that these are the vector's
/// components, in order.
#[verifier::external_body]
fn vector3_to_array(v: &nalgebra::Vector3<i32>) -> (r: [i32; 3])
    ensures
        r@ == vector3_components(*v),
{
    [v.x, v.y, v.z]
}

/// Reads the `x`, `y`, `z` and `w` fields of a `nalgebra` vector (through
/// its `Deref` to `XYZW`). The contract claims that these are the vector's
/// components, in order.
#[verifier::external_body]
fn vector4_to_array(v: &nalgebra::Vector4<i32>) -> (r: [i32; 4])
    ensures
        r@ == vector4_components(*v),
{
    [v.x, v.y, v.z, v.w]
}

/// The size in memory of a `nalgebra` column vector of `D` `i32`s.
pub open spec fn i32_vector_size<const D: usize>() -> nat {
    vstd::layout::size_of::<nalgebra::SVector<i32, D>>()
}

/// `std::mem::size_of` on a `nalgebra` column vector of `D` `i32`s. The
/// contract claims its size is `4 * D`: nalgebra lays a `Matrix` out as its
/// storage (`#[repr(C)]`, the other field zero-sized) and an `ArrayStorage`
/// as its array of columns (`#[repr(transparent)]`).
#[verifier::external_body]
fn i32_vector_size_of<const D: usize>() -> (r: usize)
    ensures
        r == i32_vector_size::<D>(),
        r == 4 * D,
{
    core::mem::size_of::<nalgebra::SVector<i32, D>>()
}

impl UniformDatum for nalgebra::Vector2<i32> {
    open spec fn spec_uniform_datum_type() -> UniformDatumType {
        UniformDatumType::Vec2(UniformPrimitiveType::Int)
    }

    open spec fn spec_encodes(&self, bytes: Seq<u8>) -> bool {
        encodes_primitives(vector2_components(*self), bytes)
    }

    open spec fn spec_datum_size() -> nat {
        vstd::layout::size_of::<nalgebra::Vector2<i32>>()
    }

    fn uniform_datum_type() -> (r: UniformDatumType) {
        UniformDatumType::Vec2(UniformPrimitiveType::Int)
    }

    fn datum_bytes(&self) -> (r: Vec<u8>) {
        i32_vector_size_of::<2>();
        let a = vector2_to_array(self);
        primitives_bytes(a.as_slice())
    }
}

impl UniformDatum for nalgebra::Vector3<i32> {
    open spec fn spec_uniform_datum_type() -> UniformDatumType {
        UniformDatumType::Vec3(UniformPrimitiveType::Int)
    }

    open spec fn spec_encodes(&self, bytes: Seq<u8>) -> bool {
        encodes_primitives(vector3_components(*self), bytes)
    }

    open spec fn spec_datum_size() -> nat {
        vstd::layout::size_of::<nalgebra::Vector3<i32>>()
    }

    fn uniform_datum_type() -> (r: UniformDatumType) {
        UniformDatumType::Vec3(UniformPrimitiveType::Int)
    }

    fn datum_bytes(&self) -> (r: Vec<u8>) {
        i32_vector_size_of::<3>();
        let a = vector3_to_array(self);
        primitives_bytes(a.as_slice())
    }
}

impl UniformDatum for nalgebra::Vector4<i32> {
    open spec fn spec_uniform_datum_type() -> UniformDatumType {
        UniformDatumType::Vec4(UniformPrimitiveType::Int)
    }

    open spec fn spec_encodes(&self, bytes: Seq<u8>) -> bool {
        encodes_primitives(vector4_components(*self), bytes)
    }

    open spec fn spec_datum_size() -> nat {
        vstd::layout::size_of::<nalgebra::Vector4<i32>>()
    }

    fn uniform_datum_type() -> (r: UniformDatumType) {
        UniformDatumType::Vec4(UniformPrimitiveType::Int)
    }

    fn datum_bytes(&self) -> (r: Vec<u8>) {
        i32_vector_size_of::<4>();
        let a = vector4_to_array(self);
        primitives_bytes(a.as_slice())
    }
}

/// A `nalgebra` vector of `N` `i32`s is a uniform of `N` integer
/// components.
pub proof fn lemma_vector_uniform_shapes()
    ensures
        uniform_type_shape(<nalgebra::Vector2<i32> as UniformDatum>::spec_uniform_datum_type()) == (2nat, UniformPrimitiveType::Int),
        uniform_type_shape(<nalgebra::Vector3<i32> as UniformDatum>::spec_uniform_datum_type()) == (3nat, UniformPrimitiveType::Int),
        uniform_type_shape(<nalgebra::Vector4<i32> as UniformDatum>::spec_uniform_datum_type()) == (4nat, UniformPrimitiveType::Int),
{
}

} // verus!
