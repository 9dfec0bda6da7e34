use glitter::context::Context;
use glitter::context::texture_units::{TextureUnit0Context, TextureUnit, TextureUnitsOf};
use glitter::index_data::{IndexData, IndexDatum, IndexDatumType};
use glitter::uniform_data::{UniformData, UniformDatum, UniformDatumType, UniformPrimitive, UniformPrimitiveType};
use glitter::vertex_data::{VertexAttributeType, VertexDatum};
use glitter::types::DataType;

#[test]
fn index_datum_types_and_bytes() {
    assert_eq!(<u8 as IndexDatum>::index_datum_type(), IndexDatumType::UnsignedByte);
    assert_eq!(<u16 as IndexDatum>::index_datum_type(), IndexDatumType::UnsignedShort);
    assert_eq!(7u8.index_datum_bytes(), vec![7]);
    assert_eq!(0x0102u16.index_datum_bytes(), 0x0102u16.to_ne_bytes().to_vec());
    let indices: [u16; 2] = [1, 0x0304];
    let bytes = indices[..].index_bytes();
    assert_eq!(bytes, [1u16.to_ne_bytes(), 0x0304u16.to_ne_bytes()].concat());
    assert_eq!(indices[..].index_elements(), 2);
    assert_eq!(<[u8] as IndexData>::index_datum_type(), IndexDatumType::UnsignedByte);
}

#[test]
fn uniform_primitive_and_datum_types() {
    assert_eq!(<i32 as UniformPrimitive>::uniform_primitive_type(), UniformPrimitiveType::Int);
    assert_eq!(5i32.primitive_bytes(), 5i32.to_ne_bytes().to_vec());
    assert_eq!(<i32 as UniformDatum>::uniform_datum_type(), UniformDatumType::Vec1(UniformPrimitiveType::Int));
    assert_eq!(<[i32; 2] as UniformDatum>::uniform_datum_type(), UniformDatumType::Vec2(UniformPrimitiveType::Int));
    assert_eq!(<[i32; 3] as UniformDatum>::uniform_datum_type(), UniformDatumType::Vec3(UniformPrimitiveType::Int));
    assert_eq!(<[i32; 4] as UniformDatum>::uniform_datum_type(), UniformDatumType::Vec4(UniformPrimitiveType::Int));
    assert_eq!(<[i32; 1] as UniformDatum>::uniform_datum_type(), UniformDatumType::Vec1(UniformPrimitiveType::Int));
}

#[test]
fn uniform_bytes_of_values_and_slices() {
    let v: [i32; 3] = [1, -2, 3];
    assert_eq!(v.datum_bytes(), [1i32.to_ne_bytes(), (-2i32).to_ne_bytes(), 3i32.to_ne_bytes()].concat());
    assert_eq!(UniformData::uniform_elements(&v), 1);
    let xs: [[i32; 2]; 2] = [[1, 2], [3, 4]];
    let bytes = xs[..].uniform_bytes();
    assert_eq!(bytes.len(), 16);
    assert_eq!(bytes, [1i32, 2, 3, 4].iter().flat_map(|x| x.to_ne_bytes().to_vec()).collect::<Vec<u8>>());
    assert_eq!(xs[..].uniform_elements(), 2);
}

#[test]
fn nalgebra_vectors_as_uniforms() {
    let v = nalgebra::Vector3::new(7i32, 8, 9);
    assert_eq!(<nalgebra::Vector3<i32> as UniformDatum>::uniform_datum_type(), UniformDatumType::Vec3(UniformPrimitiveType::Int));
    assert_eq!(v.datum_bytes(), [7i32.to_ne_bytes(), 8i32.to_ne_bytes(), 9i32.to_ne_bytes()].concat());
    let w = nalgebra::Vector2::new(-1i32, 1);
    assert_eq!(w.datum_bytes(), [(-1i32).to_ne_bytes(), 1i32.to_ne_bytes()].concat());
    let u = nalgebra::Vector4::new(1i32, 2, 3, 4);
    assert_eq!(<nalgebra::Vector4<i32> as UniformDatum>::uniform_datum_type(), UniformDatumType::Vec4(UniformPrimitiveType::Int));
    assert_eq!(u.datum_bytes().len(), 16);
}

#[test]
fn cgmath_vectors_as_vertex_data() {
    assert_eq!(
        <cgmath::Vector2<u8> as VertexDatum>::attrib_type(),
        VertexAttributeType { data: DataType::UnsignedByte, components: 2, normalize: false }
    );
    assert_eq!(
        <cgmath::Vector3<i16> as VertexDatum>::attrib_type(),
        VertexAttributeType { data: DataType::Short, components: 3, normalize: false }
    );
    assert_eq!(
        <cgmath::Vector4<u16> as VertexDatum>::attrib_type(),
        VertexAttributeType { data: DataType::UnsignedShort, components: 4, normalize: false }
    );
}

#[test]
fn texture_sampler_index() {
    let gl = Context::current_context();
    let (unit, _gl, _active) = gl.active_texture_0();
    let sampler = unit.sampler();
    assert_eq!(sampler.datum_bytes(), 0i32.to_ne_bytes().to_vec());
    let units = TextureUnitsOf::<(), (), (), (), (), (), (), ()>::current();
    let (mut seven, _rest) = units.swap_7(());
    assert_eq!(seven.idx(), 7);
    let (binding, active) = seven.active();
    assert_eq!(binding.gl_idx(), 7);
    assert_eq!(active, glitter::command::GlCommand::ActiveTexture { texture: 0x84C7 });
}

#[test]
fn uniform_bytes_length_is_elements_times_size() {
    let xs: [[i32; 4]; 3] = [[0; 4], [1; 4], [-1; 4]];
    assert_eq!(xs[..].uniform_bytes().len(), xs[..].uniform_elements() * std::mem::size_of::<[i32; 4]>());
    let one: [i32; 1] = [9];
    assert_eq!(one[..].uniform_bytes().len(), 4);
    let none: [i32; 0] = [];
    assert!(none[..].uniform_bytes().is_empty());
    assert_eq!(UniformData::uniform_bytes(&7i32).len(), 4);
}

#[test]
fn index_bytes_share_one_byte_order() {
    let indices: [u16; 3] = [0x0102, 0x0304, 0x0506];
    let bytes = indices[..].index_bytes();
    let little = 1u16.to_ne_bytes()[0] == 1;
    for (i, x) in indices.iter().enumerate() {
        let expected = if little { x.to_le_bytes() } else { x.to_be_bytes() };
        assert_eq!(&bytes[2 * i..2 * i + 2], &expected[..]);
    }
}
