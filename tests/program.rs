use std::collections::HashMap;

use webgl_quad::error::{GfxError, Stage};
use webgl_quad::linking::{BuildPhase, ProgramBuild, Resource, UNKNOWN_ERROR};
use webgl_quad::matrix::Mat4;
use webgl_quad::program::{ProgramTracker, ShaderProgram, NO_PROGRAM};
use webgl_quad::renderer::{FRAGMENT_SOURCE, VERTEX_SOURCE};

/// A stand-in for the graphics driver: counts live objects, compiles any
/// source whose braces balance and that has a `main`, and resolves the names
/// that the sources declare.
struct FakeGl {
    live: usize,
    uniforms: HashMap<u32, Vec<f32>>,
}

impl FakeGl {
    fn new() -> FakeGl {
        FakeGl { live: 0, uniforms: HashMap::new() }
    }

    fn compiles(source: &str) -> bool {
        let open = source.matches('{').count();
        let close = source.matches('}').count();
        open == close && source.contains("void main()")
    }

    fn attrib_location(source: &str, name: &str) -> i32 {
        let mut slot = 0;
        for line in source.lines() {
            let line = line.trim();
            if line.starts_with("attribute ") {
                if line.trim_end_matches(';').ends_with(&format!(" {}", name)) {
                    return slot;
                }
                slot += 1;
            }
        }
        -1
    }

    fn uniform_location(source: &str, name: &str) -> Option<u32> {
        let mut slot = 100;
        for line in source.lines() {
            let line = line.trim();
            if line.starts_with("uniform ") {
                if line.trim_end_matches(';').ends_with(&format!(" {}", name)) {
                    return Some(slot);
                }
                slot += 1;
            }
        }
        None
    }

    /// Runs a build to its end, performing every command it hands back.
    fn build(&mut self, vertex: &str, fragment: &str) -> Result<(), GfxError> {
        let mut build = ProgramBuild::new();
        for source in [vertex, fragment] {
            self.live += 1;
            let ok = FakeGl::compiles(source);
            let log = if ok { None } else { Some(String::from("syntax error")) };
            let (r, release) = build.compile_shader(ok, log);
            self.live -= release.len();
            r?;
        }
        self.live += 1;
        let (r, release) = build.link_program(true, None);
        self.live -= release.len();
        r
    }
}

fn linked_program(tracker: &mut ProgramTracker) -> ShaderProgram<u32, u32> {
    ShaderProgram::new(1, tracker).unwrap()
}

#[test]
fn declared_names_register_with_distinct_stable_slots() {
    let mut tracker = ProgramTracker::new();
    let mut p = linked_program(&mut tracker);
    let pos = FakeGl::attrib_location(VERTEX_SOURCE, "vertex_position");
    let col = FakeGl::attrib_location(VERTEX_SOURCE, "vertex_color");
    let a = p.register_attribute("vertex_position", pos).unwrap();
    let b = p.register_attribute("vertex_color", col).unwrap();
    assert_eq!(a, 0);
    assert_eq!(b, 1);
    assert_ne!(a, b);
    assert_eq!(p.register_attribute("vertex_position", pos).unwrap(), a);
    assert_eq!(p.get_attribute("vertex_position").unwrap(), a);
    assert_eq!(p.get_attribute("vertex_position").unwrap(), a);
    assert_eq!(p.get_attribute("vertex_color").unwrap(), b);
    let mut handles = Vec::new();
    for name in ["projection", "view", "model"] {
        p.register_uniform(name, FakeGl::uniform_location(VERTEX_SOURCE, name)).unwrap();
        handles.push(*p.get_uniform(name).unwrap());
    }
    assert_eq!(handles, vec![100, 101, 102]);
    for (name, h) in ["projection", "view", "model"].iter().zip(handles.iter()) {
        assert_eq!(p.get_uniform(name).unwrap(), h);
    }
}

#[test]
fn first_registration_wins() {
    let mut tracker = ProgramTracker::new();
    let mut p = linked_program(&mut tracker);
    assert_eq!(p.register_attribute("a", 3).unwrap(), 3);
    assert_eq!(p.register_attribute("a", 5).unwrap(), 3);
    assert_eq!(p.get_attribute("a").unwrap(), 3);
}

#[test]
fn fixed_sources_build_without_leftovers() {
    let mut gl = FakeGl::new();
    assert!(gl.build(VERTEX_SOURCE, FRAGMENT_SOURCE).is_ok());
    assert_eq!(gl.live, 3);
}

#[test]
fn vertex_syntax_error_leaves_nothing_allocated() {
    let mut gl = FakeGl::new();
    let broken = "void main() { gl_Position = vec4(0.0;";
    match gl.build(broken, FRAGMENT_SOURCE) {
        Err(GfxError::ShaderCompile { stage, log }) => {
            assert_eq!(stage, Stage::Vertex);
            assert_eq!(log, "syntax error");
        },
        other => panic!("unexpected {:?}", other),
    }
    assert_eq!(gl.live, 0);
}

#[test]
fn fragment_syntax_error_leaves_nothing_allocated() {
    let mut gl = FakeGl::new();
    let broken = "void main() { gl_FragColor = color;";
    match gl.build(VERTEX_SOURCE, broken) {
        Err(GfxError::ShaderCompile { stage, .. }) => assert_eq!(stage, Stage::Fragment),
        other => panic!("unexpected {:?}", other),
    }
    assert_eq!(gl.live, 0);
}

#[test]
fn fragment_failure_releases_both_shaders() {
    let mut build = ProgramBuild::new();
    assert_eq!(build.phase(), BuildPhase::CompilingVertex);
    assert_eq!(build.stage(), Stage::Vertex);
    let (r, release) = build.compile_shader(true, None);
    assert!(r.is_ok());
    assert!(release.is_empty());
    assert_eq!(build.stage(), Stage::Fragment);
    let (r, release) = build.compile_shader(false, None);
    match r {
        Err(GfxError::ShaderCompile { stage, log }) => {
            assert_eq!(stage, Stage::Fragment);
            assert_eq!(log, UNKNOWN_ERROR);
        },
        other => panic!("unexpected {:?}", other),
    }
    assert_eq!(release, vec![Resource::VertexShader, Resource::FragmentShader]);
    assert_eq!(build.phase(), BuildPhase::Failed);
}

#[test]
fn link_failure_releases_everything() {
    let mut build = ProgramBuild::new();
    build.compile_shader(true, None).0.unwrap();
    build.compile_shader(true, None).0.unwrap();
    assert_eq!(build.phase(), BuildPhase::Linking);
    let (r, release) = build.link_program(false, Some(String::from("varying mismatch")));
    match r {
        Err(GfxError::ProgramLink { log }) => assert_eq!(log, "varying mismatch"),
        other => panic!("unexpected {:?}", other),
    }
    assert_eq!(
        release,
        vec![Resource::VertexShader, Resource::FragmentShader, Resource::Program]
    );
    assert_eq!(build.phase(), BuildPhase::Failed);
}

#[test]
fn link_success_keeps_objects() {
    let mut build = ProgramBuild::new();
    build.compile_shader(true, None).0.unwrap();
    build.compile_shader(true, None).0.unwrap();
    let (r, release) = build.link_program(true, None);
    assert!(r.is_ok());
    assert!(release.is_empty());
    assert_eq!(build.phase(), BuildPhase::Linked);
}

#[test]
fn unknown_names_fail_without_changing_the_maps() {
    let mut tracker = ProgramTracker::new();
    let mut p = linked_program(&mut tracker);
    p.register_attribute("vertex_position", 0).unwrap();
    p.register_uniform("model", Some(7)).unwrap();
    let missing = FakeGl::attrib_location(VERTEX_SOURCE, "nonexistent");
    match p.register_attribute("nonexistent", missing) {
        Err(GfxError::MissingAttribute { name }) => assert_eq!(name, "nonexistent"),
        other => panic!("unexpected {:?}", other),
    }
    let missing = FakeGl::uniform_location(VERTEX_SOURCE, "nonexistent");
    match p.register_uniform("nonexistent", missing) {
        Err(GfxError::MissingUniform { name }) => assert_eq!(name, "nonexistent"),
        other => panic!("unexpected {:?}", other),
    }
    assert!(matches!(
        p.get_attribute("nonexistent"),
        Err(GfxError::AttributeNotRegistered { .. })
    ));
    assert!(matches!(
        p.get_uniform("nonexistent"),
        Err(GfxError::UniformNotRegistered { .. })
    ));
    assert_eq!(p.get_attribute("vertex_position").unwrap(), 0);
    assert_eq!(*p.get_uniform("model").unwrap(), 7);
    assert_eq!(p.use_program(&mut tracker), vec![0]);
}

#[test]
fn uids_count_up_from_one() {
    let mut tracker = ProgramTracker::new();
    assert_eq!(tracker.get_active_uid(), NO_PROGRAM);
    assert_eq!(tracker.get_next_uid(), Some(1));
    assert_eq!(tracker.get_next_uid(), Some(2));
    let p = linked_program(&mut tracker);
    assert_eq!(p.uid(), 3);
    assert_eq!(*p.handle(), 1);
    tracker.set_active_uid(9);
    assert_eq!(tracker.get_active_uid(), 9);
}

#[test]
fn use_program_enables_registered_slots_and_activates() {
    let mut tracker = ProgramTracker::new();
    let mut p = linked_program(&mut tracker);
    p.register_attribute("b", 4).unwrap();
    p.register_attribute("a", 2).unwrap();
    assert_eq!(p.use_program(&mut tracker), vec![4, 2]);
    assert_eq!(tracker.get_active_uid(), p.uid());
}

#[test]
fn upload_round_trips_through_the_driver() {
    let mut gl = FakeGl::new();
    let mut tracker = ProgramTracker::new();
    let mut p = linked_program(&mut tracker);
    p.register_uniform("model", Some(42)).unwrap();
    p.use_program(&mut tracker);
    let rows = [
        [1.0f32, 2.0, 3.0, 4.0],
        [5.0, 6.0, 7.0, 8.0],
        [9.0, 10.0, 11.0, 12.0],
        [13.0, 14.0, 15.0, 16.0],
    ];
    let m = Mat4::from_rows(rows);
    let (location, values) = p.upload_uniform(&tracker, "model", &m).unwrap();
    gl.uniforms.insert(*location, values.to_vec());
    let back = &gl.uniforms[&42];
    assert_eq!(
        back,
        &vec![
            1.0, 5.0, 9.0, 13.0, 2.0, 6.0, 10.0, 14.0, 3.0, 7.0, 11.0, 15.0, 4.0, 8.0, 12.0, 16.0
        ]
    );
    let again = Mat4::from_column_major(values);
    for r in 0..4 {
        for c in 0..4 {
            assert_eq!(again.get(r, c), rows[r][c]);
        }
    }
}

#[test]
fn upload_from_inactive_program_is_an_error() {
    let mut tracker = ProgramTracker::new();
    let mut first = linked_program(&mut tracker);
    let mut second = linked_program(&mut tracker);
    first.register_uniform("model", Some(1)).unwrap();
    second.register_uniform("model", Some(2)).unwrap();
    let m = Mat4::from_column_major([0.0f32; 16]);
    assert!(matches!(
        first.upload_uniform(&tracker, "model", &m),
        Err(GfxError::WrongActiveProgram { expected: 1, active: 0 })
    ));
    second.use_program(&mut tracker);
    assert!(matches!(
        first.upload_uniform(&tracker, "model", &m),
        Err(GfxError::WrongActiveProgram { expected: 1, active: 2 })
    ));
    assert!(second.upload_uniform(&tracker, "model", &m).is_ok());
    assert!(matches!(
        second.upload_uniform(&tracker, "view", &m),
        Err(GfxError::UniformNotRegistered { .. })
    ));
}
