use render_core::mesh::vertex_attributes;
use render_core::mesh::vertex_buffer;
use render_core::mesh::Mesh;
use render_core::mesh::Vertex;
use render_core::mesh::VertexAttribute;
use render_core::mesh::VERTEX_STRIDE;
use render_core::mesh::WORDS_PER_VERTEX;
use render_core::scalar::Vec2Bits;
use render_core::scalar::Vec3Bits;

fn vertex(base: u32) -> Vertex {
    Vertex {
        position: Vec3Bits { x: base, y: base + 1, z: base + 2 },
        normal: Vec3Bits { x: base + 3, y: base + 4, z: base + 5 },
        tex_coords: Vec2Bits { x: base + 6, y: base + 7 },
    }
}

#[test]
fn attributes_are_position_normal_texcoords_tightly_packed() {
    assert_eq!(
        vertex_attributes(),
        vec![
            VertexAttribute { index: 0, components: 3, stride: 32, offset: 0 },
            VertexAttribute { index: 1, components: 3, stride: 32, offset: 12 },
            VertexAttribute { index: 2, components: 2, stride: 32, offset: 24 },
        ]
    );
    assert_eq!(VERTEX_STRIDE, 32);
    assert_eq!(WORDS_PER_VERTEX, 8);
    assert_eq!(VERTEX_STRIDE, 4 * WORDS_PER_VERTEX);
}

#[test]
fn vertex_buffer_interleaves_the_attributes() {
    let buffer = vertex_buffer(&vec![vertex(100), vertex(200)]);
    assert_eq!(
        buffer,
        vec![100, 101, 102, 103, 104, 105, 106, 107, 200, 201, 202, 203, 204, 205, 206, 207]
    );
    assert_eq!(vertex_buffer(&Vec::new()), Vec::<u32>::new());
}

#[test]
fn attribute_bindings_find_each_component_in_the_buffer() {
    let vertices = vec![vertex(10), vertex(20), vertex(30)];
    let buffer = vertex_buffer(&vertices);
    for (k, v) in vertices.iter().enumerate() {
        let expected = [
            vec![v.position.x, v.position.y, v.position.z],
            vec![v.normal.x, v.normal.y, v.normal.z],
            vec![v.tex_coords.x, v.tex_coords.y],
        ];
        for attribute in vertex_attributes() {
            for c in 0..attribute.components {
                let word = (attribute.stride * k + attribute.offset) / 4 + c;
                assert_eq!(buffer[word], expected[attribute.index as usize][c]);
            }
        }
    }
}

#[test]
fn mesh_records_what_was_uploaded() {
    let mesh = Mesh::new(vec![vertex(0), vertex(8), vertex(16)], vec![2, 1, 0, 0, 1, 2], 4, 77);
    assert_eq!(mesh.vertices(), &vec![vertex(0), vertex(8), vertex(16)]);
    assert_eq!(mesh.indices(), &vec![2, 1, 0, 0, 1, 2]);
    assert_eq!(mesh.material(), 4);
    assert_eq!(mesh.vertex_array(), 77);
}
