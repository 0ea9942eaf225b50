//! The commands that a draw hands to the GPU, as plain values. The library
//! builds the list; whoever owns the GPU context carries it out in order.

use vstd::prelude::*;
use crate::scalar::Vec3Bits;

verus! {

/// A 4×4 matrix in column-major order, each entry a single-precision number
/// held by its bit pattern.
#[derive(Clone, Copy, PartialEq, Debug)]
pub struct Mat4Bits {
    pub cols: [u32; 16],
}

/// A value for a uniform, of one of the four supported kinds.
#[derive(Clone, Copy, PartialEq, Debug)]
pub enum UniformValue {
    /// A scalar integer, as a sampler's texture unit is.
    Int(i32),
    /// A scalar single-precision number.
    Scalar(u32),
    /// A 3-vector.
    Vec3(Vec3Bits),
    /// A 4×4 matrix.
    Mat4(Mat4Bits),
}

/// One step of a draw.
#[derive(PartialEq, Debug)]
pub enum GpuCommand {
    /// Make `program` current for what follows.
    UseProgram { program: u32 },
    /// Look `name` up in `program` and set it to `value`; nothing happens
    /// where the program has no such uniform.
    SetUniform { program: u32, name: String, value: UniformValue },
    /// Activate texture unit `unit` and bind `texture` to it.
    BindTexture { unit: u32, texture: u32 },
    /// Bind `vertex_array` and draw `count` indices of it as a triangle list.
    DrawTriangles { vertex_array: u32, count: usize },
}

/// A `GpuCommand` with its text as a sequence of characters.
pub enum GpuCommandView {
    UseProgram { program: u32 },
    SetUniform { program: u32, name: Seq<char>, value: UniformValue },
    BindTexture { unit: u32, texture: u32 },
    DrawTriangles { vertex_array: u32, count: usize },
}

impl View for GpuCommand {
    type V = GpuCommandView;

    open spec fn view(&self) -> GpuCommandView {
        match self {
            GpuCommand::UseProgram { program } => GpuCommandView::UseProgram { program: *program },
            GpuCommand::SetUniform { program, name, value } => GpuCommandView::SetUniform {
                program: *program,
                name: name@,
                value: *value,
            },
            GpuCommand::BindTexture { unit, texture } => GpuCommandView::BindTexture {
                unit: *unit,
                texture: *texture,
            },
            GpuCommand::DrawTriangles { vertex_array, count } => GpuCommandView::DrawTriangles {
                vertex_array: *vertex_array,
                count: *count,
            },
        }
    }
}

/// What a list of commands says, in order.
pub open spec fn views(commands: Seq<GpuCommand>) -> Seq<GpuCommandView> {
    Seq::new(commands.len(), |i: int| commands[i]@)
}

/// A list with one more command says what it said before, and then that command.
pub proof fn lemma_views_push(commands: Seq<GpuCommand>, command: GpuCommand)
    ensures
        views(commands.push(command)) == views(commands).push(command@),
{
}

/// Two lists joined say what the first says and then what the second says.
pub proof fn lemma_views_add(first: Seq<GpuCommand>, second: Seq<GpuCommand>)
    ensures
        views(first + second) == views(first) + views(second),
{
}

/// Appends one command to a list.
pub fn push(commands: &mut Vec<GpuCommand>, command: GpuCommand)
    ensures
        final(commands)@ == old(commands)@.push(command),
        views(final(commands)@) == views(old(commands)@).push(command@),
{
    proof {
        lemma_views_push(commands@, command);
    }
    commands.push(command);
}

} // verus!
