use vstd::prelude::*;

use crate::error::{GfxError, Stage};

verus! {

/// The diagnostic used when the driver gives none.
pub const UNKNOWN_ERROR: &'static str = "unknown error";

/// A device object created while building a program.
#[derive(Clone, Copy, Debug, PartialEq, Eq, Structural)]
pub enum Resource {
    VertexShader,
    FragmentShader,
    Program,
}

/// Where a build stands.
#[derive(Clone, Copy, Debug, PartialEq, Eq, Structural)]
pub enum BuildPhase {
    /// The caller is to create and compile the vertex shader.
    CompilingVertex,
    /// The caller is to create and compile the fragment shader.
    CompilingFragment,
    /// The caller is to create a program, attach both shaders and link it.
    Linking,
    /// The program is linked; every object created is in use.
    Linked,
    /// A step failed; every object created has been handed back for deletion.
    Failed,
}

pub open spec fn shader_of(stage: Stage) -> Resource {
    match stage {
        Stage::Vertex => Resource::VertexShader,
        Stage::Fragment => Resource::FragmentShader,
    }
}

/// The diagnostic a failure carries: the driver's log, or `UNKNOWN_ERROR`.
pub open spec fn diagnostic(info_log: Option<String>) -> Seq<char> {
    match info_log {
        Some(l) => l@,
        None => UNKNOWN_ERROR@,
    }
}

/// Compiles a vertex and a fragment shader and links them, one driver answer
/// at a time, keeping account of the device objects that are alive.
pub struct ProgramBuild {
    phase: BuildPhase,
    vertex: bool,
    fragment: bool,
    program: bool,
}

impl ProgramBuild {
    pub closed spec fn phase_spec(&self) -> BuildPhase {
        self.phase
    }

    /// The device objects created and not yet handed back for deletion.
    pub closed spec fn live(&self) -> Set<Resource> {
        Set::new(
            |x: Resource|
                (x == Resource::VertexShader && self.vertex) || (x == Resource::FragmentShader
                    && self.fragment) || (x == Resource::Program && self.program),
        )
    }

    /// The stage compiled in the current phase.
    pub open spec fn stage_spec(&self) -> Stage {
        if self.phase_spec() == BuildPhase::CompilingVertex {
            Stage::Vertex
        } else {
            Stage::Fragment
        }
    }

    pub fn new() -> (r: Self)
        ensures
            r.phase_spec() == BuildPhase::CompilingVertex,
            r.live() == Set::<Resource>::empty(),
    {
        let r = ProgramBuild { phase: BuildPhase::CompilingVertex, vertex: false, fragment: false, program: false };
        assert(r.live() =~= Set::<Resource>::empty());
        r
    }

    pub fn phase(&self) -> (r: BuildPhase)
        ensures
            r == self.phase_spec(),
    {
        self.phase
    }

    /// The stage the caller is to compile next.
    pub fn stage(&self) -> (r: Stage)
        requires
            self.phase_spec() == BuildPhase::CompilingVertex || self.phase_spec()
                == BuildPhase::CompilingFragment,
        ensures
            r == self.stage_spec(),
    {
        if self.phase == BuildPhase::CompilingVertex {
            Stage::Vertex
        } else {
            Stage::Fragment
        }
    }

    /// Hands back every live object, each once; none is live afterwards.
    fn release_all(&mut self) -> (r: Vec<Resource>)
        ensures
            final(self).phase_spec() == old(self).phase_spec(),
            final(self).live() == Set::<Resource>::empty(),
            r@.no_duplicates(),
            forall|x: Resource| r@.contains(x) <==> old(self).live().contains(x),
    {
        let ghost before = self.live();
        let mut r: Vec<Resource> = Vec::new();
        if self.vertex {
            r.push(Resource::VertexShader);
        }
        let ghost r1 = r@;
        if self.fragment {
            r.push(Resource::FragmentShader);
        }
        let ghost r2 = r@;
        if self.program {
            r.push(Resource::Program);
        }
        assert forall|x: Resource| r@.contains(x) <==> before.contains(x) by {
            if before.contains(x) {
                if x == Resource::VertexShader {
                    assert(r@[0] == x);
                } else if x == Resource::FragmentShader {
                    assert(r@[r1.len() as int] == x);
                } else {
                    assert(r@[r2.len() as int] == x);
                }
            }
            if r@.contains(x) {
                let i = choose|i: int| 0 <= i < r@.len() && r@[i] == x;
                assert(0 <= i < r@.len());
            }
        }
        self.vertex = false;
        self.fragment = false;
        self.program = false;
        assert(self.live() =~= Set::<Resource>::empty());
        r
    }

    /// Takes the driver's answer for the shader of the current stage, which the
    /// caller has created and compiled. On failure the build ends, and the
    /// returned objects are the ones to delete: all that were created.
    pub fn compile_shader(&mut self, compiled: bool, info_log: Option<String>) -> (r: (
        Result<(), GfxError>,
        Vec<Resource>,
    ))
        requires
            old(self).phase_spec() == BuildPhase::CompilingVertex || old(self).phase_spec()
                == BuildPhase::CompilingFragment,
        ensures
            r.0 is Ok <==> compiled,
            compiled ==> {
                &&& r.1@.len() == 0
                &&& final(self).live() == old(self).live().insert(shader_of(old(self).stage_spec()))
                &&& old(self).phase_spec() == BuildPhase::CompilingVertex ==> final(self).phase_spec()
                    == BuildPhase::CompilingFragment
                &&& old(self).phase_spec() == BuildPhase::CompilingFragment ==> final(self).phase_spec()
                    == BuildPhase::Linking
            },
            !compiled ==> {
                &&& r.0 matches Err(e) && e matches GfxError::ShaderCompile { stage, log }
                    && stage == old(self).stage_spec() && log@ == diagnostic(info_log)
                &&& final(self).phase_spec() == BuildPhase::Failed
                &&& final(self).live() == Set::<Resource>::empty()
                &&& r.1@.no_duplicates()
                &&& forall|x: Resource| r.1@.contains(x) <==> old(self).live().insert(
                    shader_of(old(self).stage_spec()),
                ).contains(x)
            },
    {
        let ghost before = self.live();
        let stage = self.stage();
        match stage {
            Stage::Vertex => self.vertex = true,
            Stage::Fragment => self.fragment = true,
        }
        assert(self.live() =~= before.insert(shader_of(stage)));
        if compiled {
            self.phase = match stage {
                Stage::Vertex => BuildPhase::CompilingFragment,
                Stage::Fragment => BuildPhase::Linking,
            };
            assert(self.live() =~= before.insert(shader_of(stage)));
            (Ok(()), Vec::new())
        } else {
            let log = match info_log {
                Some(l) => l,
                None => UNKNOWN_ERROR.to_owned(),
            };
            let released = self.release_all();
            self.phase = BuildPhase::Failed;
            (Err(GfxError::ShaderCompile { stage, log }), released)
        }
    }

    /// Takes the driver's answer for the program that the caller has created,
    /// attached both shaders to and linked. On failure the build ends, and the
    /// returned objects are the ones to delete: all that were created.
    pub fn link_program(&mut self, linked: bool, info_log: Option<String>) -> (r: (
        Result<(), GfxError>,
        Vec<Resource>,
    ))
        requires
            old(self).phase_spec() == BuildPhase::Linking,
        ensures
            r.0 is Ok <==> linked,
            linked ==> {
                &&& r.1@.len() == 0
                &&& final(self).phase_spec() == BuildPhase::Linked
                &&& final(self).live() == old(self).live().insert(Resource::Program)
            },
            !linked ==> {
                &&& r.0 matches Err(e) && e matches GfxError::ProgramLink { log } && log@
                    == diagnostic(info_log)
                &&& final(self).phase_spec() == BuildPhase::Failed
                &&& final(self).live() == Set::<Resource>::empty()
                &&& r.1@.no_duplicates()
                &&& forall|x: Resource| r.1@.contains(x) <==> old(self).live().insert(
                    Resource::Program,
                ).contains(x)
            },
    {
        let ghost before = self.live();
        self.program = true;
        assert(self.live() =~= before.insert(Resource::Program));
        if linked {
            self.phase = BuildPhase::Linked;
            assert(self.live() =~= before.insert(Resource::Program));
            (Ok(()), Vec::new())
        } else {
            let log = match info_log {
                Some(l) => l,
                None => UNKNOWN_ERROR.to_owned(),
            };
            let released = self.release_all();
            self.phase = BuildPhase::Failed;
            (Err(GfxError::ProgramLink { log }), released)
        }
    }
}

} // verus!
