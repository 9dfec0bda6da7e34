//! Vertex data, used for vertex buffers.

use vstd::prelude::*;
use crate::types::DataType;

verus! {

/// Specifies the type of a vertex attribute. The size of the vertex attribute
/// is `size_of(data) * components`.
#[derive(Debug, Clone, Copy, PartialEq, Eq, Structural)]
pub struct VertexAttributeType {
    /// The type of data that makes up this vertex attribute.
    pub data: DataType,
    /// The number of `data` components that make up this vertex attribute.
    pub components: i8,
    /// If the `data` type is fixed-point data, whether the data should be
    /// normalized when being accessed.
    pub normalize: bool,
}

/// Specifies the type, name, and memory layout of a vertex attribute.
/// Generally, a vertex attribute corresponds to a field of a
/// [`VertexData`](trait.VertexData.html) struct.
#[derive(Debug, Clone)]
pub struct VertexAttribute {
    /// The type of the vertex attribute.
    pub ty: VertexAttributeType,
    /// The name of the vertex attribute, which is matched against the names
    /// of an [`AttribBinder`](../vertex_buffer/struct.AttribBinder.html).
    pub name: String,
    /// The number of bytes from the start of the vertex data to this vertex
    /// attribute.
    pub offset: usize,
    /// The number of bytes between consecutive vertex attributes. 0 indicates
    /// that the vertex data is tightly packed.
    pub stride: usize,
}

/// A type that has vertex data.
///
/// Implementors list each attribute that the vertex is made of, once, and
/// lay the vertex out as bytes; both must match the type's memory layout.
/// The list of attributes is a property of the type: every call of
/// [`attributes`](#tymethod.attributes) returns the same list. The bytes are
/// a property of the value: [`data_bytes`](#tymethod.data_bytes) returns the
/// same `size_of::<Self>()` bytes each time it is called on equal vertices.
pub trait VertexData: Copy + Sized {
    /// The attributes that this vertex data is composed of. Types whose
    /// implementation is verified state their list here; for others it is
    /// a fixed list of the type's own.
    closed spec fn spec_attributes() -> Seq<VertexAttribute> {
        arbitrary::<spec_fn(Self) -> Seq<VertexAttribute>>()(arbitrary::<Self>())
    }

    /// The bytes of this vertex as it is laid out in memory. Types whose
    /// implementation is verified state them here; for others they are a
    /// fixed function of the vertex, of the type's own.
    closed spec fn spec_data_bytes(&self) -> Seq<u8> {
        arbitrary::<spec_fn(Self) -> Seq<u8>>()(*self)
    }

    /// Return each attribute that this vertex data is composed of, once.
    fn attributes() -> (r: Vec<VertexAttribute>)
        ensures
            r@ == Self::spec_attributes(),
    ;

    /// Return the bytes of the vertex as it is laid out in memory: one byte
    /// for each byte of the type's size.
    fn data_bytes(&self) -> (r: Vec<u8>)
        ensures
            r@ == self.spec_data_bytes(),
            r@.len() == vstd::layout::size_of::<Self>(),
    ;
}

/// A single value that can be treated as a part of a vertex, mapping to a
/// GLSL primitive that can be used as a vertex attribute.
pub trait VertexDatum: Copy {
    /// The attribute type this datum corresponds to.
    spec fn spec_attrib_type() -> VertexAttributeType;

    /// Return the attribute type this datum corresponds to.
    fn attrib_type() -> (r: VertexAttributeType)
        ensures
            r == Self::spec_attrib_type(),
    ;
}

/// A single, basic value that can be composed to make a
/// [`VertexDatum`](trait.VertexDatum.html), such as a scalar.
pub trait VertexPrimitive: Copy {
    /// The data type this primitive corresponds to.
    spec fn spec_data_type() -> DataType;

    /// Return the data type this primitive corresponds to.
    fn data_type() -> (r: DataType)
        ensures
            r == Self::spec_data_type(),
    ;
}

impl VertexPrimitive for i8 {
    open spec fn spec_data_type() -> DataType {
        DataType::Byte
    }

    fn data_type() -> (r: DataType) {
        DataType::Byte
    }
}

impl VertexPrimitive for u8 {
    open spec fn spec_data_type() -> DataType {
        DataType::UnsignedByte
    }

    fn data_type() -> (r: DataType) {
        DataType::UnsignedByte
    }
}

impl VertexPrimitive for i16 {
    open spec fn spec_data_type() -> DataType {
        DataType::Short
    }

    fn data_type() -> (r: DataType) {
        DataType::Short
    }
}

impl VertexPrimitive for u16 {
    open spec fn spec_data_type() -> DataType {
        DataType::UnsignedShort
    }

    fn data_type() -> (r: DataType) {
        DataType::UnsignedShort
    }
}

/// The range of values of an OpenGL integer data type, by its raw value:
/// `GL_BYTE` and `GL_SHORT` are signed 8- and 16-bit integers,
/// `GL_UNSIGNED_BYTE` and `GL_UNSIGNED_SHORT` unsigned ones (None for any
/// other value).
pub open spec fn gl_integer_range(ty: u32) -> Option<(int, int)> {
    if ty == 0x1400 {
        Some((-0x80, 0x7F))
    } else if ty == 0x1401 {
        Some((0, 0xFF))
    } else if ty == 0x1402 {
        Some((-0x8000, 0x7FFF))
    } else if ty == 0x1403 {
        Some((0, 0xFFFF))
    } else {
        None
    }
}

/// The number of bytes of a value of an OpenGL integer data type, by its
/// raw value (0 for any other value).
pub open spec fn gl_integer_size(ty: u32) -> nat {
    if ty == 0x1400 || ty == 0x1401 {
        1
    } else if ty == 0x1402 || ty == 0x1403 {
        2
    } else {
        0
    }
}

/// The OpenGL data type of each vertex primitive is the one with the same
/// signedness and width as the Rust type: the values it can hold are
/// exactly those of the Rust type, and a value of it takes as many bytes as
/// the Rust type.
pub proof fn lemma_primitive_data_types()
    ensures
        gl_integer_range(<i8 as VertexPrimitive>::spec_data_type().spec_gl_enum()) == Some((i8::MIN as int, i8::MAX as int)),
        gl_integer_range(<u8 as VertexPrimitive>::spec_data_type().spec_gl_enum()) == Some((u8::MIN as int, u8::MAX as int)),
        gl_integer_range(<i16 as VertexPrimitive>::spec_data_type().spec_gl_enum()) == Some((i16::MIN as int, i16::MAX as int)),
        gl_integer_range(<u16 as VertexPrimitive>::spec_data_type().spec_gl_enum()) == Some((u16::MIN as int, u16::MAX as int)),
        gl_integer_size(<i8 as VertexPrimitive>::spec_data_type().spec_gl_enum()) == vstd::layout::size_of::<i8>(),
        gl_integer_size(<u8 as VertexPrimitive>::spec_data_type().spec_gl_enum()) == vstd::layout::size_of::<u8>(),
        gl_integer_size(<i16 as VertexPrimitive>::spec_data_type().spec_gl_enum()) == vstd::layout::size_of::<i16>(),
        gl_integer_size(<u16 as VertexPrimitive>::spec_data_type().spec_gl_enum()) == vstd::layout::size_of::<u16>(),
{
    broadcast use vstd::layout::layout_of_primitives;
}

/// The attribute type of a vertex datum made of primitives of type `T` is
/// `T`'s data type, with one component for a scalar and `N` for an array of
/// `N`, never normalized.
pub proof fn lemma_datum_attrib_types<T: VertexPrimitive>()
    ensures
        <T as VertexDatum>::spec_attrib_type() == (VertexAttributeType { data: T::spec_data_type(), components: 1, normalize: false }),
        <[T; 1] as VertexDatum>::spec_attrib_type() == (VertexAttributeType { data: T::spec_data_type(), components: 1, normalize: false }),
        <[T; 2] as VertexDatum>::spec_attrib_type() == (VertexAttributeType { data: T::spec_data_type(), components: 2, normalize: false }),
        <[T; 3] as VertexDatum>::spec_attrib_type() == (VertexAttributeType { data: T::spec_data_type(), components: 3, normalize: false }),
        <[T; 4] as VertexDatum>::spec_attrib_type() == (VertexAttributeType { data: T::spec_data_type(), components: 4, normalize: false }),
{
}

/// The attribute type of `components` values of type `T`, not normalized.
pub open spec fn primitive_attrib_type<T: VertexPrimitive>(components: i8) -> VertexAttributeType {
    VertexAttributeType { data: T::spec_data_type(), components: components, normalize: false }
}

impl<T: VertexPrimitive> VertexDatum for T {
    open spec fn spec_attrib_type() -> VertexAttributeType {
        primitive_attrib_type::<T>(1)
    }

    fn attrib_type() -> (r: VertexAttributeType) {
        VertexAttributeType { data: T::data_type(), components: 1, normalize: false }
    }
}

impl<T: VertexPrimitive> VertexDatum for [T; 1] {
    open spec fn spec_attrib_type() -> VertexAttributeType {
        primitive_attrib_type::<T>(1)
    }

    fn attrib_type() -> (r: VertexAttributeType) {
        VertexAttributeType { data: T::data_type(), components: 1, normalize: false }
    }
}

impl<T: VertexPrimitive> VertexDatum for [T; 2] {
    open spec fn spec_attrib_type() -> VertexAttributeType {
        primitive_attrib_type::<T>(2)
    }

    fn attrib_type() -> (r: VertexAttributeType) {
        VertexAttributeType { data: T::data_type(), components: 2, normalize: false }
    }
}

impl<T: VertexPrimitive> VertexDatum for [T; 3] {
    open spec fn spec_attrib_type() -> VertexAttributeType {
        primitive_attrib_type::<T>(3)
    }

    fn attrib_type() -> (r: VertexAttributeType) {
        VertexAttributeType { data: T::data_type(), components: 3, normalize: false }
    }
}

impl<T: VertexPrimitive> VertexDatum for [T; 4] {
    open spec fn spec_attrib_type() -> VertexAttributeType {
        primitive_attrib_type::<T>(4)
    }

    fn attrib_type() -> (r: VertexAttributeType) {
        VertexAttributeType { data: T::data_type(), components: 4, normalize: false }
    }
}

/// The bytes of each vertex of `vertices` in turn.
pub open spec fn vertices_bytes<T: VertexData>(vertices: Seq<T>) -> Seq<u8> {
    vertices.map_values(|v: T| v.spec_data_bytes()).flatten()
}

/// A value that can be laid out as a stream of vertex data.
pub trait VertexBytes {
    /// The bytes of vertex data that `self` lays out.
    spec fn spec_vertex_bytes(&self) -> Seq<u8>;

    /// Create the bytes of vertex data from `self`.
    fn vertex_bytes(&self) -> (r: Vec<u8>)
        ensures
            r@ == self.spec_vertex_bytes(),
    ;
}

impl<T: VertexData> VertexBytes for T {
    /// The bytes of the vertex, as `VertexData::data_bytes` lays them out.
    open spec fn spec_vertex_bytes(&self) -> Seq<u8> {
        self.spec_data_bytes()
    }

    fn vertex_bytes(&self) -> (r: Vec<u8>)
        ensures
            r@.len() == vstd::layout::size_of::<T>(),
    {
        self.data_bytes()
    }
}

impl<T: VertexData> VertexBytes for [T] {
    /// The bytes of each vertex in turn, as `VertexData::data_bytes` lays
    /// each of them out.
    open spec fn spec_vertex_bytes(&self) -> Seq<u8> {
        vertices_bytes(self@)
    }

    fn vertex_bytes(&self) -> (r: Vec<u8>)
        ensures
            r@.len() == self@.len() * vstd::layout::size_of::<T>(),
    {
        let mut bytes: Vec<u8> = Vec::new();
        let mut i: usize = 0;
        let ghost size = vstd::layout::size_of::<T>();
        while i < self.len()
            invariant
                i <= self@.len(),
                size == vstd::layout::size_of::<T>(),
                bytes@ == vertices_bytes(self@.take(i as int)),
                bytes@.len() == i * size,
            decreases self@.len() - i,
        {
            let mut b = self[i].data_bytes();
            proof {
                let mapped = self@.take(i as int).map_values(|v: T| v.spec_data_bytes());
                mapped.lemma_flatten_push(b@);
                assert(self@.take(i + 1).map_values(|v: T| v.spec_data_bytes()) =~= mapped.push(b@));
                assert((i + 1) * size == i * size + size) by (nonlinear_arith);
            }
            bytes.append(&mut b);
            i = i + 1;
        }
        assert(self@.take(i as int) =~= self@);
        assert(bytes@ == self.spec_vertex_bytes());
        bytes
    }
}

} // verus!
