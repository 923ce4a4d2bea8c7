//! Shader programs: the uniforms a program accumulates between draws, and the
//! sequence of compiling both shader stages and linking them.
use vstd::prelude::*;
use vstd::string::*;
use crate::texture::Texture;

verus! {

/// A value for a uniform of a shader program.
///
/// A two-component vector is held as the IEEE-754 bit patterns of its two
/// 32-bit floats, passed to the driver unchanged. A texture uniform refers to
/// the same driver object as the texture it was made from.
#[derive(Clone, Copy, Debug, PartialEq, Eq, Structural)]
pub enum Uniform {
    Vec2(u32, u32),
    Texture(Texture),
}

/// A linked program of the driver, with the uniforms set on it, in the order
/// they were set. Setting a name twice keeps both entries.
#[derive(Debug)]
pub struct Program {
    pub uniforms: Vec<(String, Uniform)>,
    pub gl_ref: u32,
}

impl Program {
    /// A program for the linked driver object `gl_ref`, with no uniforms.
    pub fn new(gl_ref: u32) -> (r: Program)
        ensures
            r.gl_ref == gl_ref,
            r.uniforms@.len() == 0,
    {
        Program { uniforms: Vec::new(), gl_ref }
    }

    pub fn gl_ref(&self) -> (r: u32)
        ensures
            r == self.gl_ref,
    {
        self.gl_ref
    }

    /// Appends `(name, uniform)` to the uniforms; they reach the driver at the
    /// next draw.
    pub fn set_uniform(&mut self, name: &str, uniform: Uniform)
        ensures
            final(self).gl_ref == old(self).gl_ref,
            final(self).uniforms@.len() == old(self).uniforms@.len() + 1,
            final(self).uniforms@.drop_last() == old(self).uniforms@,
            final(self).uniforms@.last().0@ == name@,
            final(self).uniforms@.last().1 == uniform,
    {
        self.uniforms.push((name.to_owned(), uniform));
        assert(self.uniforms@.drop_last() =~= old(self).uniforms@);
    }

    /// The uniforms set so far, oldest first.
    pub fn uniforms(&self) -> (r: &Vec<(String, Uniform)>)
        ensures
            r@ == self.uniforms@,
    {
        &self.uniforms
    }
}

/// The two stages of a shader program.
#[derive(Clone, Copy, Debug, PartialEq, Eq, Structural)]
pub enum ShaderStage {
    Vertex,
    Fragment,
}

/// Why a program could not be built; each carries the driver's diagnostic.
#[derive(Clone, Debug)]
pub enum ProgramError {
    Compile { stage: ShaderStage, log: String },
    Link { log: String },
}

pub open spec fn compile_error_prefix() -> Seq<char> {
    "Error compiling shader: "@
}

pub open spec fn link_error_prefix() -> Seq<char> {
    "Error linking program: "@
}

/// The text that describes a build error: a fixed lead followed by the
/// driver's diagnostic.
pub open spec fn error_message(e: ProgramError) -> Seq<char> {
    match e {
        ProgramError::Compile { log, .. } => compile_error_prefix() + log@,
        ProgramError::Link { log } => link_error_prefix() + log@,
    }
}

impl ProgramError {
    /// A readable description of the error; never empty.
    pub fn message(&self) -> (r: String)
        ensures
            r@ == error_message(*self),
            r@.len() > 0,
    {
        proof {
            reveal_strlit("Error compiling shader: ");
            reveal_strlit("Error linking program: ");
        }
        match self {
            ProgramError::Compile { log, .. } => String::from_str("Error compiling shader: ").concat(
                log.as_str(),
            ),
            ProgramError::Link { log } => String::from_str("Error linking program: ").concat(
                log.as_str(),
            ),
        }
    }
}

/// What the driver reported for one compile or link: the object it made,
/// whether the step succeeded, and its diagnostic log.
#[derive(Clone, Debug)]
pub struct DriverReport {
    pub handle: u32,
    pub success: bool,
    pub log: String,
}

/// Where the building of a program stands. Each state but `Finished` names
/// the next driver step: compile the vertex source, compile the fragment
/// source, or link the two compiled shaders.
#[derive(Debug)]
pub enum ProgramBuild {
    CompileVertex,
    CompileFragment { vertex: u32 },
    Link { vertex: u32, fragment: u32 },
    Finished(Result<Program, ProgramError>),
}

/// Whether `r` is the state that follows `s` once the driver has reported on
/// its step. A failed compile or link ends the build with that stage's error,
/// so a fragment source is compiled only after the vertex source compiled; a
/// successful link ends it with the linked program and no uniforms.
pub open spec fn next_build(s: ProgramBuild, report: DriverReport, r: ProgramBuild) -> bool {
    match s {
        ProgramBuild::CompileVertex => if report.success {
            r == ProgramBuild::CompileFragment { vertex: report.handle }
        } else {
            r == ProgramBuild::Finished(
                Err(ProgramError::Compile { stage: ShaderStage::Vertex, log: report.log }),
            )
        },
        ProgramBuild::CompileFragment { vertex } => if report.success {
            r == ProgramBuild::Link { vertex, fragment: report.handle }
        } else {
            r == ProgramBuild::Finished(
                Err(ProgramError::Compile { stage: ShaderStage::Fragment, log: report.log }),
            )
        },
        ProgramBuild::Link { .. } => if report.success {
            r matches ProgramBuild::Finished(Ok(p)) && p.gl_ref == report.handle
                && p.uniforms@.len() == 0
        } else {
            r == ProgramBuild::Finished(Err(ProgramError::Link { log: report.log }))
        },
        ProgramBuild::Finished(_) => r == s,
    }
}

impl ProgramBuild {
    /// The state a build starts in: nothing compiled yet.
    pub fn start() -> (r: ProgramBuild)
        ensures
            r == ProgramBuild::CompileVertex,
    {
        ProgramBuild::CompileVertex
    }

    pub open spec fn is_finished(&self) -> bool {
        self is Finished
    }

    /// Moves the build on by the driver's report on the current step.
    pub fn advance(self, report: DriverReport) -> (r: ProgramBuild)
        requires
            !self.is_finished(),
        ensures
            next_build(self, report, r),
    {
        match self {
            ProgramBuild::CompileVertex => if report.success {
                ProgramBuild::CompileFragment { vertex: report.handle }
            } else {
                ProgramBuild::Finished(
                    Err(ProgramError::Compile { stage: ShaderStage::Vertex, log: report.log }),
                )
            },
            ProgramBuild::CompileFragment { vertex } => if report.success {
                ProgramBuild::Link { vertex, fragment: report.handle }
            } else {
                ProgramBuild::Finished(
                    Err(ProgramError::Compile { stage: ShaderStage::Fragment, log: report.log }),
                )
            },
            ProgramBuild::Link { .. } => if report.success {
                ProgramBuild::Finished(Ok(Program::new(report.handle)))
            } else {
                ProgramBuild::Finished(Err(ProgramError::Link { log: report.log }))
            },
            ProgramBuild::Finished(r) => ProgramBuild::Finished(r),
        }
    }
}

/// A build whose two compiles and link all succeed ends with a program that
/// is the linked driver object and has no uniforms.
pub proof fn lemma_successful_build(
    vertex: DriverReport,
    fragment: DriverReport,
    link: DriverReport,
    s1: ProgramBuild,
    s2: ProgramBuild,
    s3: ProgramBuild,
)
    requires
        vertex.success,
        fragment.success,
        link.success,
        next_build(ProgramBuild::CompileVertex, vertex, s1),
        next_build(s1, fragment, s2),
        next_build(s2, link, s3),
    ensures
        s2 == (ProgramBuild::Link { vertex: vertex.handle, fragment: fragment.handle }),
        s3 matches ProgramBuild::Finished(Ok(p)) && p.gl_ref == link.handle && p.uniforms@.len()
            == 0,
{
}

/// When the vertex source fails to compile, the build ends at once with a
/// vertex-stage compile error that carries the driver's log and describes
/// itself with non-empty text; the fragment source is never compiled.
pub proof fn lemma_vertex_failure_short_circuits(vertex: DriverReport, s1: ProgramBuild)
    requires
        !vertex.success,
        next_build(ProgramBuild::CompileVertex, vertex, s1),
    ensures
        s1.is_finished(),
        s1 == ProgramBuild::Finished(
            Err(ProgramError::Compile { stage: ShaderStage::Vertex, log: vertex.log }),
        ),
        s1 matches ProgramBuild::Finished(Err(e)) && error_message(e).len() > 0,
{
    reveal_strlit("Error compiling shader: ");
}

} // verus!
