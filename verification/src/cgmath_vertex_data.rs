//! `cgmath` vectors as vertex attributes.

use vstd::prelude::*;
use crate::vertex_data::{VertexAttributeType, VertexDatum, VertexPrimitive, primitive_attrib_type};

verus! {

/// The `cgmath` two-component vector, carried as an opaque value.
#[verifier::external_type_specification]
#[verifier::external_body]
#[verifier::reject_recursive_types(S)]
pub struct ExCgmathVector2<S>(cgmath::Vector2<S>);

/// The `cgmath` three-component vector, carried as an opaque value.
#[verifier::external_type_specification]
#[verifier::external_body]
#[verifier::reject_recursive_types(S)]
pub struct ExCgmathVector3<S>(cgmath::Vector3<S>);

/// The `cgmath` four-component vector, carried as an opaque value.
#[verifier::external_type_specification]
#[verifier::external_body]
#[verifier::reject_recursive_types(S)]
pub struct ExCgmathVector4<S>(cgmath::Vector4<S>);

impl<T: VertexPrimitive> VertexDatum for cgmath::Vector2<T> {
    open spec fn spec_attrib_type() -> VertexAttributeType {
        primitive_attrib_type::<T>(2)
    }

    fn attrib_type() -> (r: VertexAttributeType) {
        VertexAttributeType { data: T::data_type(), components: 2, normalize: false }
    }
}

impl<T: VertexPrimitive> VertexDatum for cgmath::Vector3<T> {
    open spec fn spec_attrib_type() -> VertexAttributeType {
        primitive_attrib_type::<T>(3)
    }

    fn attrib_type() -> (r: VertexAttributeType) {
        VertexAttributeType { data: T::data_type(), components: 3, normalize: false }
    }
}

impl<T: VertexPrimitive> VertexDatum for cgmath::Vector4<T> {
    open spec fn spec_attrib_type() -> VertexAttributeType {
        primitive_attrib_type::<T>(4)
    }

    fn attrib_type() -> (r: VertexAttributeType) {
        VertexAttributeType { data: T::data_type(), components: 4, normalize: false }
    }
}

} // verus!
