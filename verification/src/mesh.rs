//! Vertices, meshes and the layout of a mesh's GPU buffers.

use vstd::prelude::*;
use crate::gpu::push;
use crate::gpu::views;
use crate::gpu::GpuCommand;
use crate::gpu::GpuCommandView;
use crate::material::material_commands;
use crate::material::Material;
use crate::material::MaterialView;
use crate::scalar::Vec2Bits;
use crate::scalar::Vec3Bits;
use crate::shader::Shader;

verus! {

/// One vertex as the GPU reads it: position, normal, texture coordinates.
#[derive(Clone, Copy, PartialEq, Eq, Structural, Debug)]
pub struct Vertex {
    pub position: Vec3Bits,
    pub normal: Vec3Bits,
    pub tex_coords: Vec2Bits,
}

/// Words of 32 bits that one vertex takes in the vertex buffer.
pub const WORDS_PER_VERTEX: usize = 8;

/// Bytes from one vertex to the next in the vertex buffer.
pub const VERTEX_STRIDE: usize = 32;

/// How the GPU finds one attribute of a vertex in the vertex buffer.
#[derive(Clone, Copy, PartialEq, Eq, Structural, Debug)]
pub struct VertexAttribute {
    /// The attribute's binding.
    pub index: u32,
    /// How many single-precision numbers it has.
    pub components: usize,
    /// Bytes from one vertex to the next.
    pub stride: usize,
    /// Bytes from the start of a vertex to the attribute.
    pub offset: usize,
}

/// The three attributes of a vertex: position at binding 0, normal at 1,
/// texture coordinates at 2, one after the other with no padding.
pub open spec fn attribute_layout() -> Seq<VertexAttribute> {
    seq![
        VertexAttribute { index: 0, components: 3, stride: 32, offset: 0 },
        VertexAttribute { index: 1, components: 3, stride: 32, offset: 12 },
        VertexAttribute { index: 2, components: 2, stride: 32, offset: 24 },
    ]
}

/// The attribute bindings to declare when a mesh's vertex buffer is created.
pub fn vertex_attributes() -> (attributes: Vec<VertexAttribute>)
    ensures
        attributes@ == attribute_layout(),
{
    let mut attributes: Vec<VertexAttribute> = Vec::new();
    attributes.push(VertexAttribute { index: 0, components: 3, stride: VERTEX_STRIDE, offset: 0 });
    attributes.push(VertexAttribute { index: 1, components: 3, stride: VERTEX_STRIDE, offset: 12 });
    attributes.push(VertexAttribute { index: 2, components: 2, stride: VERTEX_STRIDE, offset: 24 });
    attributes
}

/// The eight words of one vertex, as they lie in the vertex buffer.
pub open spec fn vertex_words(v: Vertex) -> Seq<u32> {
    seq![
        v.position.x,
        v.position.y,
        v.position.z,
        v.normal.x,
        v.normal.y,
        v.normal.z,
        v.tex_coords.x,
        v.tex_coords.y,
    ]
}

/// The vertex buffer of `vertices`: the words of each vertex, one vertex
/// after the other.
pub open spec fn buffer_words(vertices: Seq<Vertex>) -> Seq<u32> {
    Seq::new(8 * vertices.len(), |w: int| vertex_words(vertices[w / 8])[w % 8])
}

/// The words of attribute `attribute` of one vertex.
pub open spec fn attribute_words(v: Vertex, attribute: int) -> Seq<u32> {
    if attribute == 0 {
        seq![v.position.x, v.position.y, v.position.z]
    } else if attribute == 1 {
        seq![v.normal.x, v.normal.y, v.normal.z]
    } else {
        seq![v.tex_coords.x, v.tex_coords.y]
    }
}

/// The attribute bindings match the vertex buffer: the bindings are 0, 1
/// and 2, every stride is one vertex, each attribute begins where the one
/// before it ends, the last ends where the vertex ends, and component `c` of
/// attribute `a` of vertex `k` is the word of the buffer that lies `stride`
/// bytes times `k`, plus `offset` bytes, plus `c` words from its start.
pub proof fn lemma_layout_matches_buffer(vertices: Seq<Vertex>, k: int, a: int, c: int)
    requires
        0 <= k < vertices.len(),
        0 <= a < 3,
        0 <= c < attribute_layout()[a].components,
    ensures
        attribute_layout().len() == 3,
        attribute_layout()[a].index == a,
        attribute_layout()[a].stride == 4 * WORDS_PER_VERTEX,
        attribute_layout()[0].offset == 0,
        a > 0 ==> attribute_layout()[a].offset == attribute_layout()[a - 1].offset + 4
            * attribute_layout()[a - 1].components,
        attribute_layout()[2].offset + 4 * attribute_layout()[2].components
            == attribute_layout()[2].stride,
        attribute_layout()[a].components == attribute_words(vertices[k], a).len(),
        (attribute_layout()[a].stride * k + attribute_layout()[a].offset) % 4 == 0,
        0 <= (attribute_layout()[a].stride * k + attribute_layout()[a].offset) / 4 + c
            < buffer_words(vertices).len(),
        buffer_words(vertices)[(attribute_layout()[a].stride * k + attribute_layout()[a].offset) / 4
            + c] == attribute_words(vertices[k], a)[c],
{
    let word = (attribute_layout()[a].stride * k + attribute_layout()[a].offset) / 4 + c;
    assert(word == 8 * k + attribute_layout()[a].offset / 4 + c);
    assert(word / 8 == k);
}

/// Whether every index names one of `count` vertices.
pub open spec fn indices_in_range(indices: Seq<u32>, count: nat) -> bool {
    forall|k: int| 0 <= k < indices.len() ==> indices[k] < count
}

/// A mesh resident on the GPU: the vertices and indices that were uploaded,
/// the place of its material among its model's materials, and the GPU's
/// handle of its vertex array.
#[derive(Debug)]
pub struct Mesh {
    vertices: Vec<Vertex>,
    indices: Vec<u32>,
    material: usize,
    vao: u32,
}

/// What a `Mesh` holds.
pub struct MeshView {
    pub vertices: Seq<Vertex>,
    pub indices: Seq<u32>,
    pub material: usize,
    pub vertex_array: u32,
}

impl View for Mesh {
    type V = MeshView;

    closed spec fn view(&self) -> MeshView {
        MeshView {
            vertices: self.vertices@,
            indices: self.indices@,
            material: self.material,
            vertex_array: self.vao,
        }
    }
}

/// The commands that draw one mesh: make the program current, hand it the
/// material, then draw every index of the mesh's vertex array as triangles.
pub open spec fn draw_commands(program: u32, material: MaterialView, mesh: MeshView) -> Seq<
    GpuCommandView,
> {
    seq![GpuCommandView::UseProgram { program }] + material_commands(program, material) + seq![
        GpuCommandView::DrawTriangles {
            vertex_array: mesh.vertex_array,
            count: mesh.indices.len() as usize,
        },
    ]
}

/// Lays `vertices` out as the words of a vertex buffer.
pub fn vertex_buffer(vertices: &Vec<Vertex>) -> (buffer: Vec<u32>)
    ensures
        buffer@ == buffer_words(vertices@),
{
    let mut buffer: Vec<u32> = Vec::new();
    let mut k: usize = 0;
    while k < vertices.len()
        invariant
            k <= vertices.len(),
            buffer@ == buffer_words(vertices@.take(k as int)),
        decreases vertices.len() - k,
    {
        let v = vertices[k];
        buffer.push(v.position.x);
        buffer.push(v.position.y);
        buffer.push(v.position.z);
        buffer.push(v.normal.x);
        buffer.push(v.normal.y);
        buffer.push(v.normal.z);
        buffer.push(v.tex_coords.x);
        buffer.push(v.tex_coords.y);
        assert(buffer@ =~= buffer_words(vertices@.take(k + 1)));
        k += 1;
    }
    buffer
}

impl Mesh {
    #[verifier::type_invariant]
    spec fn well_formed(self) -> bool {
        indices_in_range(self.indices@, self.vertices@.len())
    }

    /// Records a mesh whose buffers have been uploaded as the vertex array
    /// `vao`. Every index must name one of the vertices.
    pub fn new(vertices: Vec<Vertex>, indices: Vec<u32>, material: usize, vao: u32) -> (mesh: Mesh)
        requires
            indices_in_range(indices@, vertices@.len()),
        ensures
            mesh@ == (MeshView { vertices: vertices@, indices: indices@, material, vertex_array: vao }),
    {
        Mesh { vertices, indices, material, vao }
    }

    /// The place of this mesh's material among its model's materials.
    pub fn material(&self) -> (material: usize)
        ensures
            material == self@.material,
    {
        self.material
    }

    /// The uploaded vertices.
    pub fn vertices(&self) -> (vertices: &Vec<Vertex>)
        ensures
            vertices@ == self@.vertices,
    {
        &self.vertices
    }

    /// The uploaded indices, each of which names one of the vertices.
    pub fn indices(&self) -> (indices: &Vec<u32>)
        ensures
            indices@ == self@.indices,
            indices_in_range(indices@, self@.vertices.len()),
    {
        proof {
            use_type_invariant(self);
        }
        &self.indices
    }

    /// The GPU's handle of the vertex array.
    pub fn vertex_array(&self) -> (vao: u32)
        ensures
            vao == self@.vertex_array,
    {
        self.vao
    }

    /// The commands that draw this mesh with `shader`, its material taken
    /// from `materials`. Nothing is remembered from one draw to the next:
    /// each draw binds the program and hands over the material anew.
    pub fn draw(&self, shader: &Shader, materials: &Vec<Material>) -> (commands: Vec<GpuCommand>)
        requires
            self@.material < materials@.len(),
        ensures
            views(commands@) == draw_commands(shader.id(), materials@[self@.material as int]@, self@),
    {
        let mut commands: Vec<GpuCommand> = Vec::new();
        push(&mut commands, shader.use_shader());
        materials[self.material].apply(shader, &mut commands);
        push(
            &mut commands,
            GpuCommand::DrawTriangles { vertex_array: self.vao, count: self.indices.len() },
        );
        commands
    }
}

} // verus!
