//! Shader programs: how one is built from its two stages, and the commands
//! that bind it and set its uniforms.

use vstd::prelude::*;
use vstd::string::*;
use crate::gpu::GpuCommand;
use crate::gpu::GpuCommandView;
use crate::gpu::Mat4Bits;
use crate::gpu::UniformValue;
use crate::scalar::Vec3Bits;

verus! {

/// Whether a byte of `bytes` is zero. Text with a zero byte cannot be handed
/// to the GPU driver, which reads it up to the first one.
pub open spec fn has_nul(bytes: Seq<u8>) -> bool {
    exists|i: int| 0 <= i < bytes.len() && bytes[i] == 0
}

/// Whether `text` holds a zero byte.
pub fn contains_nul(text: &str) -> (found: bool)
    ensures
        found == has_nul(text.spec_bytes()),
{
    let bytes = text.as_bytes();
    let mut i: usize = 0;
    while i < bytes.len()
        invariant
            bytes@ == text.spec_bytes(),
            i <= bytes@.len(),
            forall|j: int| 0 <= j < i ==> bytes@[j] != 0,
        decreases bytes@.len() - i,
    {
        if bytes[i] == 0 {
            return true;
        }
        i += 1;
    }
    false
}

/// A linked shader program.
#[derive(PartialEq, Debug)]
pub struct Shader {
    program: u32,
}

impl Shader {
    /// The GPU's handle of the linked program.
    pub closed spec fn id(self) -> u32 {
        self.program
    }

    /// The GPU's handle of the linked program.
    pub fn program(&self) -> (program: u32)
        ensures
            program == self.id(),
    {
        self.program
    }

    /// The command that makes this program current for the draws that follow.
    pub fn use_shader(&self) -> (command: GpuCommand)
        ensures
            command@ == (GpuCommandView::UseProgram { program: self.id() }),
    {
        GpuCommand::UseProgram { program: self.program }
    }

    /// The command that sets the uniform `name` to `value`. The uniform is
    /// looked up by name each time the command is carried out, and a program
    /// without it is left as it is.
    pub fn set_uniform(&self, name: &str, value: UniformValue) -> (command: GpuCommand)
        requires
            !has_nul(name.spec_bytes()),
        ensures
            command@ == (GpuCommandView::SetUniform { program: self.id(), name: name@, value }),
    {
        GpuCommand::SetUniform { program: self.program, name: String::from_str(name), value }
    }

    /// The command that sets the 4×4 matrix uniform `name`.
    pub fn set_mat4v(&self, name: &str, mat: &Mat4Bits) -> (command: GpuCommand)
        requires
            !has_nul(name.spec_bytes()),
        ensures
            command@ == (GpuCommandView::SetUniform {
                program: self.id(),
                name: name@,
                value: UniformValue::Mat4(*mat),
            }),
    {
        self.set_uniform(name, UniformValue::Mat4(*mat))
    }

    /// The command that sets the 3-vector uniform `name`.
    pub fn set_vec3v(&self, name: &str, v: &Vec3Bits) -> (command: GpuCommand)
        requires
            !has_nul(name.spec_bytes()),
        ensures
            command@ == (GpuCommandView::SetUniform {
                program: self.id(),
                name: name@,
                value: UniformValue::Vec3(*v),
            }),
    {
        self.set_uniform(name, UniformValue::Vec3(*v))
    }

    /// The command that sets the 3-vector uniform `name` to three components.
    pub fn set_vec3(&self, name: &str, v0: u32, v1: u32, v2: u32) -> (command: GpuCommand)
        requires
            !has_nul(name.spec_bytes()),
        ensures
            command@ == (GpuCommandView::SetUniform {
                program: self.id(),
                name: name@,
                value: UniformValue::Vec3(Vec3Bits { x: v0, y: v1, z: v2 }),
            }),
    {
        self.set_uniform(name, UniformValue::Vec3(Vec3Bits { x: v0, y: v1, z: v2 }))
    }

    /// The command that sets the scalar uniform `name` to the number with
    /// bit pattern `v`.
    pub fn set_f32(&self, name: &str, v: u32) -> (command: GpuCommand)
        requires
            !has_nul(name.spec_bytes()),
        ensures
            command@ == (GpuCommandView::SetUniform {
                program: self.id(),
                name: name@,
                value: UniformValue::Scalar(v),
            }),
    {
        self.set_uniform(name, UniformValue::Scalar(v))
    }

    /// The command that sets the integer uniform `name`.
    pub fn set_i32(&self, name: &str, v: i32) -> (command: GpuCommand)
        requires
            !has_nul(name.spec_bytes()),
        ensures
            command@ == (GpuCommandView::SetUniform {
                program: self.id(),
                name: name@,
                value: UniformValue::Int(v),
            }),
    {
        self.set_uniform(name, UniformValue::Int(v))
    }
}

/// One of the two stages of a shader program.
#[derive(Clone, Copy, PartialEq, Eq, Structural, Debug)]
pub enum Stage {
    Vertex,
    Fragment,
}

/// Why a shader program could not be built.
#[derive(PartialEq, Debug)]
pub enum ShaderError {
    /// The source of `stage` holds a zero byte and cannot be handed over.
    InvalidSource { stage: Stage },
    /// `stage` did not compile; `log` is the compiler's diagnostic text.
    Compile { stage: Stage, log: String },
    /// The stages compiled but did not link; `log` is the linker's text.
    Link { log: String },
}

/// A `ShaderError` with its text as a sequence of characters.
pub enum ShaderErrorView {
    InvalidSource { stage: Stage },
    Compile { stage: Stage, log: Seq<char> },
    Link { log: Seq<char> },
}

impl View for ShaderError {
    type V = ShaderErrorView;

    open spec fn view(&self) -> ShaderErrorView {
        match self {
            ShaderError::InvalidSource { stage } => ShaderErrorView::InvalidSource { stage: *stage },
            ShaderError::Compile { stage, log } => ShaderErrorView::Compile {
                stage: *stage,
                log: log@,
            },
            ShaderError::Link { log } => ShaderErrorView::Link { log: log@ },
        }
    }
}

/// What the GPU reports of one compilation or of the link: the handle of the
/// object it made, whether the operation succeeded, and its info log.
#[derive(PartialEq, Debug)]
pub struct Outcome {
    pub object: u32,
    pub success: bool,
    pub log: String,
}

/// An `Outcome` with its log as a sequence of characters.
pub struct OutcomeView {
    pub object: u32,
    pub success: bool,
    pub log: Seq<char>,
}

impl View for Outcome {
    type V = OutcomeView;

    open spec fn view(&self) -> OutcomeView {
        OutcomeView { object: self.object, success: self.success, log: self.log@ }
    }
}

/// What the build asks of the GPU next.
#[derive(Clone, Copy, PartialEq, Eq, Structural, Debug)]
pub enum BuildRequest {
    /// Compile the source of `stage` into a new stage object.
    Compile { stage: Stage },
    /// Make a program, attach both stage objects and link it.
    Link { vertex: u32, fragment: u32 },
}

/// Where a build stands while it waits for the GPU.
#[derive(Clone, Copy, PartialEq, Eq, Structural, Debug)]
pub enum ShaderBuild {
    /// The vertex stage is being compiled; `fragment_valid` says whether the
    /// fragment source can be handed over afterwards.
    AwaitVertex { fragment_valid: bool },
    /// The fragment stage is being compiled.
    AwaitFragment { vertex: u32 },
    /// The program is being linked.
    AwaitLink { vertex: u32, fragment: u32 },
}

/// One step of a build: either a request to carry out, whose outcome goes
/// back into the build, or the end, with the stage objects and the program to
/// release before the result is handed on.
#[derive(PartialEq, Debug)]
pub enum BuildStep {
    Continue { build: ShaderBuild, request: BuildRequest },
    End { result: Result<Shader, ShaderError>, release_shaders: Vec<u32>, release_program: Option<u32> },
}

/// A `BuildStep` as plain values: a shader by its program handle, texts and
/// lists as sequences.
pub enum BuildStepView {
    Continue { build: ShaderBuild, request: BuildRequest },
    End {
        result: Result<u32, ShaderErrorView>,
        release_shaders: Seq<u32>,
        release_program: Option<u32>,
    },
}

impl View for BuildStep {
    type V = BuildStepView;

    open spec fn view(&self) -> BuildStepView {
        match self {
            BuildStep::Continue { build, request } => BuildStepView::Continue {
                build: *build,
                request: *request,
            },
            BuildStep::End { result, release_shaders, release_program } => BuildStepView::End {
                result: match result {
                    Ok(shader) => Ok(shader.id()),
                    Err(error) => Err(error@),
                },
                release_shaders: release_shaders@,
                release_program: *release_program,
            },
        }
    }
}

/// How a build begins: with the vertex stage, unless its source holds a zero
/// byte, in which case the build ends at once with nothing to release.
pub open spec fn first_step(vertex_valid: bool, fragment_valid: bool) -> BuildStepView {
    if vertex_valid {
        BuildStepView::Continue {
            build: ShaderBuild::AwaitVertex { fragment_valid },
            request: BuildRequest::Compile { stage: Stage::Vertex },
        }
    } else {
        BuildStepView::End {
            result: Err(ShaderErrorView::InvalidSource { stage: Stage::Vertex }),
            release_shaders: seq![],
            release_program: None,
        }
    }
}

/// How a build goes on when the GPU reports `outcome` for the request it
/// waited on.
///
/// A stage that fails to compile ends the build with its compiler's log;
/// the fragment stage is compiled only after the vertex stage has compiled
/// and only if its source can be handed over; the link is asked for only
/// after both stages have compiled, and ends the build either way. Whenever
/// the build ends, every stage object made so far is released, and so is the
/// program if it failed to link.
pub open spec fn next_step(build: ShaderBuild, outcome: OutcomeView) -> BuildStepView {
    let object = outcome.object;
    let success = outcome.success;
    let log = outcome.log;
    match build {
        ShaderBuild::AwaitVertex { fragment_valid } => if !success {
            BuildStepView::End {
                result: Err(ShaderErrorView::Compile { stage: Stage::Vertex, log }),
                release_shaders: seq![object],
                release_program: None,
            }
        } else if !fragment_valid {
            BuildStepView::End {
                result: Err(ShaderErrorView::InvalidSource { stage: Stage::Fragment }),
                release_shaders: seq![object],
                release_program: None,
            }
        } else {
            BuildStepView::Continue {
                build: ShaderBuild::AwaitFragment { vertex: object },
                request: BuildRequest::Compile { stage: Stage::Fragment },
            }
        },
        ShaderBuild::AwaitFragment { vertex } => if !success {
            BuildStepView::End {
                result: Err(ShaderErrorView::Compile { stage: Stage::Fragment, log }),
                release_shaders: seq![vertex, object],
                release_program: None,
            }
        } else {
            BuildStepView::Continue {
                build: ShaderBuild::AwaitLink { vertex, fragment: object },
                request: BuildRequest::Link { vertex, fragment: object },
            }
        },
        ShaderBuild::AwaitLink { vertex, fragment } => if !success {
            BuildStepView::End {
                result: Err(ShaderErrorView::Link { log }),
                release_shaders: seq![vertex, fragment],
                release_program: Some(object),
            }
        } else {
            BuildStepView::End {
                result: Ok(object),
                release_shaders: seq![vertex, fragment],
                release_program: None,
            }
        },
    }
}

impl ShaderBuild {
    /// Takes the GPU's report on the request that the build waited on and
    /// says how the build goes on.
    pub fn step(self, outcome: Outcome) -> (step: BuildStep)
        ensures
            step@ == next_step(self, outcome@),
    {
        let Outcome { object, success, log } = outcome;
        match self {
            ShaderBuild::AwaitVertex { fragment_valid } => {
                if !success {
                    let mut release_shaders: Vec<u32> = Vec::new();
                    release_shaders.push(object);
                    BuildStep::End {
                        result: Err(ShaderError::Compile { stage: Stage::Vertex, log }),
                        release_shaders,
                        release_program: None,
                    }
                } else if !fragment_valid {
                    let mut release_shaders: Vec<u32> = Vec::new();
                    release_shaders.push(object);
                    BuildStep::End {
                        result: Err(ShaderError::InvalidSource { stage: Stage::Fragment }),
                        release_shaders,
                        release_program: None,
                    }
                } else {
                    BuildStep::Continue {
                        build: ShaderBuild::AwaitFragment { vertex: object },
                        request: BuildRequest::Compile { stage: Stage::Fragment },
                    }
                }
            },
            ShaderBuild::AwaitFragment { vertex } => {
                if !success {
                    let mut release_shaders: Vec<u32> = Vec::new();
                    release_shaders.push(vertex);
                    release_shaders.push(object);
                    assert(release_shaders@ =~= seq![vertex, object]);
                    BuildStep::End {
                        result: Err(ShaderError::Compile { stage: Stage::Fragment, log }),
                        release_shaders,
                        release_program: None,
                    }
                } else {
                    BuildStep::Continue {
                        build: ShaderBuild::AwaitLink { vertex, fragment: object },
                        request: BuildRequest::Link { vertex, fragment: object },
                    }
                }
            },
            ShaderBuild::AwaitLink { vertex, fragment } => {
                let mut release_shaders: Vec<u32> = Vec::new();
                release_shaders.push(vertex);
                release_shaders.push(fragment);
                assert(release_shaders@ =~= seq![vertex, fragment]);
                if !success {
                    BuildStep::End {
                        result: Err(ShaderError::Link { log }),
                        release_shaders,
                        release_program: Some(object),
                    }
                } else {
                    BuildStep::End {
                        result: Ok(Shader { program: object }),
                        release_shaders,
                        release_program: None,
                    }
                }
            },
        }
    }
}

impl Shader {
    /// Begins the build of a program from the sources of its two stages.
    ///
    /// The caller carries out each request on the GPU and hands its outcome
    /// to `ShaderBuild::step`, until a step ends the build.
    pub fn new(vertex_shader_src: &str, fragment_shader_src: &str) -> (step: BuildStep)
        ensures
            step@ == first_step(
                !has_nul(vertex_shader_src.spec_bytes()),
                !has_nul(fragment_shader_src.spec_bytes()),
            ),
    {
        if contains_nul(vertex_shader_src) {
            let release_shaders: Vec<u32> = Vec::new();
            BuildStep::End {
                result: Err(ShaderError::InvalidSource { stage: Stage::Vertex }),
                release_shaders,
                release_program: None,
            }
        } else {
            BuildStep::Continue {
                build: ShaderBuild::AwaitVertex { fragment_valid: !contains_nul(fragment_shader_src) },
                request: BuildRequest::Compile { stage: Stage::Vertex },
            }
        }
    }
}

/// Where a whole build ends: it begins with the validity of the two
/// sources, and takes the GPU's reports on the vertex stage, the fragment
/// stage and the link as far as it asks for them.
pub open spec fn build_end(
    vertex_valid: bool,
    fragment_valid: bool,
    vertex: OutcomeView,
    fragment: OutcomeView,
    link: OutcomeView,
) -> BuildStepView {
    match first_step(vertex_valid, fragment_valid) {
        BuildStepView::Continue { build, .. } => match next_step(build, vertex) {
            BuildStepView::Continue { build, .. } => match next_step(build, fragment) {
                BuildStepView::Continue { build, .. } => next_step(build, link),
                end => end,
            },
            end => end,
        },
        end => end,
    }
}

/// Every build ends after at most the two compilations and the link, and
/// never goes on past a failure.
///
/// It yields the linked program exactly when both sources can be handed
/// over, both stages compile and the program links. Otherwise the error names
/// the first thing that went wrong, with the stage and the GPU's own log: a
/// compile failure is never taken for a link failure nor the other way round.
/// Whatever the end, every stage object that was made is released, and the
/// program too if it was made and did not link: nothing leaks.
pub proof fn lemma_build_ends(
    vertex_valid: bool,
    fragment_valid: bool,
    vertex: OutcomeView,
    fragment: OutcomeView,
    link: OutcomeView,
)
    ensures
        build_end(vertex_valid, fragment_valid, vertex, fragment, link) matches BuildStepView::End {
            result,
            release_shaders,
            release_program,
        } && {
            &&& result is Ok <==> vertex_valid && vertex.success && fragment_valid
                && fragment.success && link.success
            &&& result is Ok ==> result == Ok::<u32, ShaderErrorView>(link.object)
            &&& !vertex_valid ==> result == Err::<u32, ShaderErrorView>(
                ShaderErrorView::InvalidSource { stage: Stage::Vertex },
            )
            &&& vertex_valid && !vertex.success ==> result == Err::<u32, ShaderErrorView>(
                ShaderErrorView::Compile { stage: Stage::Vertex, log: vertex.log },
            )
            &&& vertex_valid && vertex.success && !fragment_valid ==> result == Err::<
                u32,
                ShaderErrorView,
            >(ShaderErrorView::InvalidSource { stage: Stage::Fragment })
            &&& vertex_valid && vertex.success && fragment_valid && !fragment.success ==> result
                == Err::<u32, ShaderErrorView>(
                ShaderErrorView::Compile { stage: Stage::Fragment, log: fragment.log },
            )
            &&& vertex_valid && vertex.success && fragment_valid && fragment.success
                && !link.success ==> result == Err::<u32, ShaderErrorView>(
                ShaderErrorView::Link { log: link.log },
            )
            &&& release_shaders == if !vertex_valid {
                Seq::<u32>::empty()
            } else if !vertex.success || !fragment_valid {
                seq![vertex.object]
            } else {
                seq![vertex.object, fragment.object]
            }
            &&& release_program == if vertex_valid && vertex.success && fragment_valid
                && fragment.success && !link.success {
                Some(link.object)
            } else {
                None
            }
        },
{
}

} // verus!
