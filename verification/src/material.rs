//! Materials: named shading parameters with optional textures, shared by
//! the meshes that refer to them.

use vstd::prelude::*;
use vstd::string::*;
use crate::gpu::GpuCommand;
use crate::gpu::GpuCommandView;
use crate::gpu::push;
use crate::gpu::views;
use crate::gpu::UniformValue;
use crate::scalar::Vec3Bits;
use crate::shader::has_nul;
use crate::shader::Shader;
use crate::texture::Texture;
use crate::texture::TextureView;

verus! {

/// Named shading parameters, with a diffuse and a specular texture where the
/// asset names them. The colours and the shininess are single-precision
/// numbers held by their bit patterns.
#[derive(PartialEq, Debug)]
pub struct Material {
    pub name: String,
    pub ambient_color: Vec3Bits,
    pub diffuse_color: Vec3Bits,
    pub specular_color: Vec3Bits,
    pub diffuse_texture: Option<Texture>,
    pub specular_texture: Option<Texture>,
    pub shininess: u32,
}

/// What a `Material` holds, its name as a sequence of characters.
pub struct MaterialView {
    pub name: Seq<char>,
    pub ambient_color: Vec3Bits,
    pub diffuse_color: Vec3Bits,
    pub specular_color: Vec3Bits,
    pub diffuse_texture: Option<TextureView>,
    pub specular_texture: Option<TextureView>,
    pub shininess: u32,
}

/// What an optional texture records.
pub open spec fn texture_view(texture: Option<Texture>) -> Option<TextureView> {
    match texture {
        Some(t) => Some(t@),
        None => None,
    }
}

impl View for Material {
    type V = MaterialView;

    open spec fn view(&self) -> MaterialView {
        MaterialView {
            name: self.name@,
            ambient_color: self.ambient_color,
            diffuse_color: self.diffuse_color,
            specular_color: self.specular_color,
            diffuse_texture: texture_view(self.diffuse_texture),
            specular_texture: texture_view(self.specular_texture),
            shininess: self.shininess,
        }
    }
}

/// The texture unit that the diffuse sampler reads.
pub const DIFFUSE_UNIT: u32 = 0;

/// The texture unit that the specular sampler reads.
pub const SPECULAR_UNIT: u32 = 1;

/// The commands for one optional texture: point the sampler `sampler` at
/// `unit` and bind the texture there; nothing where there is no texture.
pub open spec fn texture_commands(
    program: u32,
    sampler: Seq<char>,
    unit: u32,
    texture: Option<TextureView>,
) -> Seq<GpuCommandView> {
    match texture {
        Some(t) => seq![
            GpuCommandView::SetUniform { program, name: sampler, value: UniformValue::Int(unit as i32) },
            GpuCommandView::BindTexture { unit, texture: t.texture },
        ],
        None => seq![],
    }
}

/// The commands that hand a material to the program `program`: the diffuse
/// texture on unit 0 and the specular texture on unit 1, each where present,
/// then the three colours and the shininess.
pub open spec fn material_commands(program: u32, material: MaterialView) -> Seq<GpuCommandView> {
    texture_commands(program, "material.diffuse_tex"@, DIFFUSE_UNIT, material.diffuse_texture)
        + texture_commands(
        program,
        "material.specular_tex"@,
        SPECULAR_UNIT,
        material.specular_texture,
    ) + seq![
        GpuCommandView::SetUniform {
            program,
            name: "material.ambient"@,
            value: UniformValue::Vec3(material.ambient_color),
        },
        GpuCommandView::SetUniform {
            program,
            name: "material.diffuse"@,
            value: UniformValue::Vec3(material.diffuse_color),
        },
        GpuCommandView::SetUniform {
            program,
            name: "material.specular"@,
            value: UniformValue::Vec3(material.specular_color),
        },
        GpuCommandView::SetUniform {
            program,
            name: "material.shininess"@,
            value: UniformValue::Scalar(material.shininess),
        },
    ]
}

/// A string of ASCII letters, dots and underscores holds no zero byte.
proof fn lemma_ascii_has_no_nul(text: &str)
    requires
        is_ascii(text),
        forall|i: int| 0 <= i < text@.len() ==> text@[i] != '\0',
    ensures
        !has_nul(text.spec_bytes()),
{
    broadcast use is_ascii_spec_bytes;

}

impl Material {
    /// Appends to `commands` those that hand this material to `shader`.
    pub fn apply(&self, shader: &Shader, commands: &mut Vec<GpuCommand>)
        ensures
            views(final(commands)@) == views(old(commands)@) + material_commands(shader.id(), self@),
    {
        proof {
            reveal_strlit("material.diffuse_tex");
            reveal_strlit("material.specular_tex");
            reveal_strlit("material.ambient");
            reveal_strlit("material.diffuse");
            reveal_strlit("material.specular");
            reveal_strlit("material.shininess");
            lemma_ascii_has_no_nul("material.diffuse_tex");
            lemma_ascii_has_no_nul("material.specular_tex");
            lemma_ascii_has_no_nul("material.ambient");
            lemma_ascii_has_no_nul("material.diffuse");
            lemma_ascii_has_no_nul("material.specular");
            lemma_ascii_has_no_nul("material.shininess");
        }
        if let Some(diffuse_texture) = &self.diffuse_texture {
            push(commands, shader.set_i32("material.diffuse_tex", 0));
            push(commands, diffuse_texture.bind(DIFFUSE_UNIT));
        }
        if let Some(specular_texture) = &self.specular_texture {
            push(commands, shader.set_i32("material.specular_tex", 1));
            push(commands, specular_texture.bind(SPECULAR_UNIT));
        }
        push(commands, shader.set_vec3v("material.ambient", &self.ambient_color));
        push(commands, shader.set_vec3v("material.diffuse", &self.diffuse_color));
        push(commands, shader.set_vec3v("material.specular", &self.specular_color));
        push(commands, shader.set_f32("material.shininess", self.shininess));
    }
}

} // verus!
