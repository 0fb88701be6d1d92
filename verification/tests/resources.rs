use egui_glow::ShaderVersion;
use retro_graphics::resources::{
    shader_jobs, ProgramKind, ProgramRequest, Release, ResourceManager, Texture,
};

const VERTEX: &str = "void main() { gl_Position = vec4(0.0); }";
const FRAGMENT: &str = "void main() { }";

fn texture(handle: u32) -> Texture {
    Texture { texture: handle, width: 64, height: 32 }
}

#[test]
fn textures_are_equal_by_handle() {
    assert_eq!(texture(4), Texture { texture: 4, width: 1, height: 1 });
    assert_ne!(texture(4), texture(5));
}

#[test]
fn new_manager_owns_nothing() {
    let mut resources = ResourceManager::new();
    assert!(!resources.owns_texture(1));
    assert_eq!(resources.program("tilemap"), None);
    assert!(resources.destroy().is_empty());
}

#[test]
fn destroy_releases_programs_then_textures_once() {
    let mut resources = ResourceManager::new();
    resources.insert_texture(texture(8));
    resources.insert_program("sprites", 30);
    resources.insert_texture(texture(9));
    resources.insert_program("tilemap", 31);
    assert_eq!(
        resources.destroy(),
        vec![Release::Program(30), Release::Program(31), Release::Texture(8), Release::Texture(9)]
    );
    assert!(resources.destroy().is_empty());
    assert_eq!(resources.program("sprites"), None);
    assert!(!resources.owns_texture(8));
}

#[test]
fn removed_texture_is_not_released() {
    let mut resources = ResourceManager::new();
    resources.insert_texture(texture(1));
    resources.insert_texture(texture(2));
    resources.insert_texture(texture(3));
    resources.remove_texture(texture(2));
    assert!(!resources.owns_texture(2));
    assert!(resources.owns_texture(1));
    assert!(resources.owns_texture(3));
    let released = resources.destroy();
    assert_eq!(released, vec![Release::Texture(1), Release::Texture(3)]);
    assert!(!released.contains(&Release::Texture(2)));
    assert!(resources.destroy().is_empty());
}

#[test]
fn texture_is_owned_once() {
    let mut resources = ResourceManager::new();
    resources.insert_texture(texture(1));
    resources.insert_texture(Texture { texture: 1, width: 9, height: 9 });
    assert_eq!(resources.destroy(), vec![Release::Texture(1)]);
}

#[test]
fn removing_an_unknown_texture_changes_nothing() {
    let mut resources = ResourceManager::new();
    resources.insert_texture(texture(1));
    resources.remove_texture(texture(7));
    assert_eq!(resources.destroy(), vec![Release::Texture(1)]);
}

#[test]
fn stored_program_is_reused() {
    let mut resources = ResourceManager::new();
    let sources = [(ProgramKind::Vertex, VERTEX), (ProgramKind::Fragment, FRAGMENT)];
    match resources.get_program("tilemap", &ShaderVersion::Gl140, &sources) {
        ProgramRequest::Compile(jobs) => assert_eq!(jobs.len(), 2),
        other => panic!("expected a build, got {:?}", other),
    }
    resources.insert_program("tilemap", 77);
    assert_eq!(resources.program("tilemap"), Some(77));
    assert!(matches!(
        resources.get_program("tilemap", &ShaderVersion::Gl140, &sources),
        ProgramRequest::Ready(77)
    ));
    let other_sources = [(ProgramKind::Fragment, "something else")];
    assert!(matches!(
        resources.get_program("tilemap", &ShaderVersion::Es300, &other_sources),
        ProgramRequest::Ready(77)
    ));
    assert!(matches!(
        resources.get_program("tilemap", &ShaderVersion::Gl120, &sources),
        ProgramRequest::Ready(77)
    ));
    assert_eq!(resources.program("sprites"), None);
    assert_eq!(resources.program("tilema"), None);
    assert_eq!(resources.program(""), None);
}

#[test]
fn missing_program_on_an_old_interface_is_unsupported() {
    let resources = ResourceManager::new();
    let sources = [(ProgramKind::Vertex, VERTEX)];
    assert!(matches!(
        resources.get_program("sprites", &ShaderVersion::Gl120, &sources),
        ProgramRequest::Unsupported
    ));
    assert!(matches!(
        resources.get_program("sprites", &ShaderVersion::Es100, &sources),
        ProgramRequest::Unsupported
    ));
    assert!(matches!(
        resources.get_program("sprites", &ShaderVersion::Es300, &sources),
        ProgramRequest::Compile(_)
    ));
}

#[test]
fn shader_jobs_put_the_version_line_on_top() {
    let sources = [(ProgramKind::Vertex, VERTEX), (ProgramKind::Fragment, FRAGMENT)];
    let jobs = shader_jobs(&ShaderVersion::Gl140, &sources);
    assert_eq!(jobs.len(), 2);
    assert_eq!(jobs[0].kind, ProgramKind::Vertex);
    assert_eq!(jobs[0].text, format!("#version 140\n\n{}", VERTEX));
    assert_eq!(jobs[1].kind, ProgramKind::Fragment);
    assert_eq!(jobs[1].text, format!("#version 140\n\n{}", FRAGMENT));
    assert_ne!(jobs[0].text, VERTEX);
}

#[test]
fn shader_jobs_for_each_version() {
    let sources = [(ProgramKind::Fragment, "x")];
    assert_eq!(shader_jobs(&ShaderVersion::Gl120, &sources)[0].text, "#version 120\n\nx");
    assert_eq!(shader_jobs(&ShaderVersion::Gl140, &sources)[0].text, "#version 140\n\nx");
    assert_eq!(shader_jobs(&ShaderVersion::Es100, &sources)[0].text, "#version 100\n\nx");
    assert_eq!(shader_jobs(&ShaderVersion::Es300, &sources)[0].text, "#version 300 es\n\nx");
    assert!(shader_jobs(&ShaderVersion::Es300, &[]).is_empty());
}

#[test]
fn compile_request_carries_the_jobs() {
    let resources = ResourceManager::new();
    let sources = [(ProgramKind::Fragment, FRAGMENT), (ProgramKind::Vertex, VERTEX)];
    match resources.get_program("sprites", &ShaderVersion::Es300, &sources) {
        ProgramRequest::Compile(jobs) => {
            assert_eq!(jobs.len(), 2);
            assert_eq!(jobs[0].kind, ProgramKind::Fragment);
            assert_eq!(jobs[0].text, format!("#version 300 es\n\n{}", FRAGMENT));
            assert_eq!(jobs[1].kind, ProgramKind::Vertex);
            assert_eq!(jobs[1].text, format!("#version 300 es\n\n{}", VERTEX));
        }
        other => panic!("expected a build, got {:?}", other),
    }
}

#[test]
fn programs_of_two_names_are_kept_apart() {
    let mut resources = ResourceManager::new();
    resources.insert_program("tilemap", 1);
    resources.insert_program("sprites", 2);
    assert_eq!(resources.program("tilemap"), Some(1));
    assert_eq!(resources.program("sprites"), Some(2));
}
