//! GPU resources owned on behalf of the layers: shader programs, created once
//! per name and then reused, and textures.
//!
//! The manager never talks to the GPU. It keeps the handles, says whether a
//! program has to be built and from which shader texts, and at the end hands
//! back every handle it owns so that each is released exactly once.

use vstd::prelude::*;
use vstd::std_specs::cmp::PartialEqSpecImpl;
use egui_glow::ShaderVersion;

verus! {

/// The shading-language version of the GPU context, as `egui_glow` detects
/// it. It is one of `Gl120`, `Gl140`, `Es100` and `Es300`.
#[verifier::external_type_specification]
pub struct ExShaderVersion(ShaderVersion);

/// The line that `egui_glow` puts on top of a shader for each version.
pub open spec fn declaration_text(version: ShaderVersion) -> Seq<char> {
    match version {
        ShaderVersion::Gl120 => "#version 120\n"@,
        ShaderVersion::Gl140 => "#version 140\n"@,
        ShaderVersion::Es100 => "#version 100\n"@,
        ShaderVersion::Es300 => "#version 300 es\n"@,
    }
}

/// Whether shaders of this version use the `in` / `out` interface.
pub open spec fn new_shader_interface(version: ShaderVersion) -> bool {
    version is Gl140 || version is Es300
}

/// Calls `ShaderVersion::is_new_shader_interface`, which answers `true` for
/// `Gl140` and `Es300` and `false` for `Gl120` and `Es100`.
#[verifier::external_body]
fn is_new_shader_interface(version: &ShaderVersion) -> (r: bool)
    ensures
        r == new_shader_interface(*version),
{
    version.is_new_shader_interface()
}

/// Calls `ShaderVersion::version_declaration`, which returns the `#version`
/// line of the version, newline included.
#[verifier::external_body]
fn version_declaration(version: &ShaderVersion) -> (r: &'static str)
    ensures
        r@ == declaration_text(*version),
{
    version.version_declaration()
}

/// A texture on the GPU: its handle and its size in pixels. Two textures are
/// the same texture when their handles are equal.
#[derive(Clone, Copy, Debug)]
pub struct Texture {
    pub texture: u32,
    pub width: i32,
    pub height: i32,
}

impl PartialEq for Texture {
    /// Textures are compared by handle alone.
    fn eq(&self, other: &Self) -> (r: bool) {
        self.texture == other.texture
    }
}

impl PartialEqSpecImpl for Texture {
    open spec fn obeys_eq_spec() -> bool {
        true
    }

    open spec fn eq_spec(&self, other: &Self) -> bool {
        self.texture == other.texture
    }
}

impl Eq for Texture {

}

/// The stage of the pipeline that a shader source is written for.
#[derive(Clone, Copy, Debug, PartialEq, Eq, Structural)]
pub enum ProgramKind {
    Vertex,
    Fragment,
}

/// One shader to compile: its stage and its full text, version line first.
#[derive(Clone, Debug)]
pub struct ShaderJob {
    pub kind: ProgramKind,
    pub text: String,
}

/// The full text of a shader: the version line, an empty line, the source.
pub open spec fn shader_text(version: ShaderVersion, source: Seq<char>) -> Seq<char> {
    declaration_text(version) + "\n"@ + source
}

/// What has to happen so that a program of a given name can be used.
#[derive(Debug)]
pub enum ProgramRequest {
    /// A program of that name exists already: use it as it is.
    Ready(u32),
    /// No program of that name exists and none can be built, because the
    /// context lacks the shader interface the sources are written for.
    Unsupported,
    /// No program of that name exists: compile these shaders, in this order,
    /// link them, and hand the program to `insert_program`.
    Compile(Vec<ShaderJob>),
}

/// A handle to release on the GPU.
#[derive(Clone, Copy, Debug, PartialEq, Eq, Structural)]
pub enum Release {
    VertexArray(u32),
    Buffer(u32),
    Program(u32),
    Texture(u32),
}

/// A program as the manager keeps it: the name it was asked for under, and
/// its handle.
#[derive(Clone, Debug)]
pub struct ProgramEntry {
    pub name: String,
    pub program: u32,
}

/// A program in the model of the manager.
pub struct ProgramRecord {
    pub name: Seq<char>,
    pub program: u32,
}

/// What a resource manager holds: its programs and its textures, each in the
/// order in which they came.
pub struct ResourceModel {
    pub programs: Seq<ProgramRecord>,
    pub textures: Seq<Texture>,
}

impl ResourceModel {
    /// No name stands for two programs and no handle for two textures.
    pub open spec fn wf(self) -> bool {
        &&& forall|i: int, j: int|
            0 <= i < j < self.programs.len() ==> self.programs[i].name != self.programs[j].name
        &&& forall|i: int, j: int|
            0 <= i < j < self.textures.len() ==> self.textures[i].texture
                != self.textures[j].texture
    }

    /// The manager that holds nothing.
    pub open spec fn empty() -> ResourceModel {
        ResourceModel { programs: Seq::empty(), textures: Seq::empty() }
    }

    /// Whether a program of this name exists.
    pub open spec fn has_program(self, name: Seq<char>) -> bool {
        exists|i: int| 0 <= i < self.programs.len() && self.programs[i].name == name
    }

    /// The program of this name, if one exists.
    pub open spec fn program(self, name: Seq<char>) -> Option<u32> {
        if self.has_program(name) {
            let i = choose|i: int| 0 <= i < self.programs.len() && self.programs[i].name == name;
            Some(self.programs[i].program)
        } else {
            None
        }
    }

    /// Whether the texture with this handle is owned.
    pub open spec fn owns_texture(self, handle: u32) -> bool {
        exists|i: int| 0 <= i < self.textures.len() && self.textures[i].texture == handle
    }

    /// The manager after a program was stored under a new name.
    pub open spec fn with_program(self, name: Seq<char>, program: u32) -> ResourceModel {
        ResourceModel {
            programs: self.programs.push(ProgramRecord { name, program }),
            textures: self.textures,
        }
    }

    /// The manager after a texture was handed to it: a texture whose handle
    /// is owned already changes nothing.
    pub open spec fn with_texture(self, texture: Texture) -> ResourceModel {
        if self.owns_texture(texture.texture) {
            self
        } else {
            ResourceModel { programs: self.programs, textures: self.textures.push(texture) }
        }
    }

    /// The place of the texture with this handle in the list of textures.
    pub open spec fn texture_index(self, handle: u32) -> int {
        choose|i: int| 0 <= i < self.textures.len() && self.textures[i].texture == handle
    }

    /// The manager after the texture with this handle was taken back from it:
    /// the other textures stay, in their order. A handle that is not owned
    /// changes nothing.
    pub open spec fn without_texture(self, handle: u32) -> ResourceModel {
        if self.owns_texture(handle) {
            ResourceModel {
                programs: self.programs,
                textures: self.textures.remove(self.texture_index(handle)),
            }
        } else {
            self
        }
    }

    /// The handles that `destroy` gives back: those of the programs, then
    /// those of the textures, each group in the order in which they came.
    pub open spec fn released(self) -> Seq<Release> {
        Seq::new(
            self.programs.len() + self.textures.len(),
            |k: int|
                if k < self.programs.len() {
                    Release::Program(self.programs[k].program)
                } else {
                    Release::Texture(self.textures[k - self.programs.len()].texture)
                },
        )
    }

    /// A texture that was taken back from the manager is no longer owned, and
    /// is not released when the manager is destroyed.
    pub proof fn lemma_removed_texture_is_not_released(self, handle: u32)
        requires
            self.wf(),
        ensures
            self.without_texture(handle).wf(),
            !self.without_texture(handle).owns_texture(handle),
            !self.without_texture(handle).released().contains(Release::Texture(handle)),
    {
        let after = self.without_texture(handle);
        if self.owns_texture(handle) {
            let at = self.texture_index(handle);
            assert forall|k: int| 0 <= k < after.textures.len() implies after.textures[k].texture
                != handle by {
                if k < at {
                    assert(after.textures[k] == self.textures[k]);
                } else {
                    assert(after.textures[k] == self.textures[k + 1]);
                }
            }
            assert forall|i: int, j: int| 0 <= i < j < after.textures.len() implies after.textures[i].texture
                != after.textures[j].texture by {
                let si = if i < at { i } else { i + 1 };
                let sj = if j < at { j } else { j + 1 };
                assert(after.textures[i] == self.textures[si]);
                assert(after.textures[j] == self.textures[sj]);
            }
        }
        assert forall|k: int| 0 <= k < after.released().len() implies after.released()[k]
            != Release::Texture(handle) by {
            if k >= after.programs.len() {
                assert(after.textures[k - after.programs.len()].texture != handle);
            }
        }
    }

    /// Taking a texture back keeps every other texture.
    pub proof fn lemma_without_texture_keeps_others(self, handle: u32, other: u32)
        requires
            other != handle,
        ensures
            self.without_texture(handle).owns_texture(other) == self.owns_texture(other),
    {
        let after = self.without_texture(handle);
        if self.owns_texture(handle) {
            let at = self.texture_index(handle);
            if self.owns_texture(other) {
                let i = choose|i: int|
                    0 <= i < self.textures.len() && self.textures[i].texture == other;
                let k = if i < at { i } else { i - 1 };
                assert(after.textures[k] == self.textures[i]);
            }
            if after.owns_texture(other) {
                let k = choose|k: int|
                    0 <= k < after.textures.len() && after.textures[k].texture == other;
                let i = if k < at { k } else { k + 1 };
                assert(after.textures[k] == self.textures[i]);
            }
        }
    }

    /// A texture handed to the manager is owned afterwards, and handing it
    /// over a second time changes nothing.
    pub proof fn lemma_insert_texture_is_idempotent(self, texture: Texture)
        requires
            self.wf(),
        ensures
            self.with_texture(texture).wf(),
            self.with_texture(texture).owns_texture(texture.texture),
            self.with_texture(texture).with_texture(texture) == self.with_texture(texture),
    {
        let after = self.with_texture(texture);
        if !self.owns_texture(texture.texture) {
            assert(after.textures[self.textures.len() as int].texture == texture.texture);
        }
    }

    /// A program stored under a new name is found under that name, and every
    /// other name gives what it gave before.
    pub proof fn lemma_stored_program_is_found(self, name: Seq<char>, program: u32, other: Seq<char>)
        requires
            self.wf(),
            !self.has_program(name),
        ensures
            self.with_program(name, program).wf(),
            self.with_program(name, program).program(name) == Some(program),
            other != name ==> self.with_program(name, program).program(other) == self.program(other),
    {
        let after = self.with_program(name, program);
        let last = self.programs.len() as int;
        assert(after.programs[last].name == name);
        assert(after.has_program(name));
        let at = choose|i: int| 0 <= i < after.programs.len() && after.programs[i].name == name;
        if at != last {
            assert(self.programs[at].name == name);
        }
        if other != name {
            if self.has_program(other) {
                let i = choose|i: int|
                    0 <= i < self.programs.len() && self.programs[i].name == other;
                assert(after.programs[i].name == other);
                let j = choose|j: int|
                    0 <= j < after.programs.len() && after.programs[j].name == other;
                assert(j < last);
                assert(self.programs[j].name == other);
                if i < j {
                } else if j < i {
                }
            }
            if after.has_program(other) {
                let j = choose|j: int|
                    0 <= j < after.programs.len() && after.programs[j].name == other;
                assert(self.programs[j].name == other);
            }
        }
    }

    /// A manager that was destroyed holds nothing, so that destroying it
    /// again releases nothing a second time.
    pub proof fn lemma_destroyed_releases_nothing()
        ensures
            Self::empty().released() == Seq::<Release>::empty(),
            Self::empty().wf(),
    {
        assert(Self::empty().released() =~= Seq::<Release>::empty());
    }

    /// In the list of handles that a well-formed manager gives back, no
    /// texture occurs twice.
    pub proof fn lemma_each_texture_released_once(self, i: int, j: int)
        requires
            self.wf(),
            0 <= i < j < self.released().len(),
            self.released()[i] is Texture,
        ensures
            self.released()[i] != self.released()[j],
    {
    }
}

/// Owns the shader programs, one per name, and the textures of a GPU
/// context.
#[derive(Debug)]
pub struct ResourceManager {
    programs: Vec<ProgramEntry>,
    textures: Vec<Texture>,
}

impl View for ResourceManager {
    type V = ResourceModel;

    closed spec fn view(&self) -> ResourceModel {
        ResourceModel {
            programs: Seq::new(
                self.programs@.len(),
                |i: int|
                    ProgramRecord {
                        name: self.programs@[i].name@,
                        program: self.programs@[i].program,
                    },
            ),
            textures: self.textures@,
        }
    }
}

impl ResourceManager {
    /// No name stands for two programs and no handle for two textures.
    pub open spec fn wf(&self) -> bool {
        self@.wf()
    }

    /// A manager that owns nothing.
    pub fn new() -> (r: Self)
        ensures
            r@ == ResourceModel::empty(),
            r.wf(),
    {
        let r = ResourceManager { programs: Vec::new(), textures: Vec::new() };
        assert(r@.programs =~= Seq::empty());
        assert(r@.textures =~= Seq::empty());
        r
    }

    /// Whether the texture with this handle is owned.
    pub fn owns_texture(&self, handle: u32) -> (r: bool)
        ensures
            r == self@.owns_texture(handle),
    {
        let mut i: usize = 0;
        while i < self.textures.len()
            invariant
                i <= self.textures@.len(),
                forall|k: int| 0 <= k < i ==> self.textures@[k].texture != handle,
            decreases self.textures@.len() - i,
        {
            if self.textures[i].texture == handle {
                assert(self@.textures[i as int].texture == handle);
                return true;
            }
            i = i + 1;
        }
        false
    }

    /// Takes ownership of a texture. The GPU is not touched. A texture whose
    /// handle is owned already is not taken a second time.
    pub fn insert_texture(&mut self, texture: Texture)
        requires
            old(self).wf(),
        ensures
            final(self)@ == old(self)@.with_texture(texture),
            final(self).wf(),
            final(self)@.owns_texture(texture.texture),
    {
        proof {
            self@.lemma_insert_texture_is_idempotent(texture);
        }
        if !self.owns_texture(texture.texture) {
            self.textures.push(texture);
            assert(self@.programs =~= old(self)@.programs);
        }
    }

    /// Gives up ownership of the texture with the handle of `texture`. The
    /// GPU is not touched: the texture is not deleted, now or by `destroy`.
    pub fn remove_texture(&mut self, texture: Texture)
        requires
            old(self).wf(),
        ensures
            final(self)@ == old(self)@.without_texture(texture.texture),
            final(self).wf(),
            !final(self)@.owns_texture(texture.texture),
    {
        let mut i: usize = 0;
        while i < self.textures.len()
            invariant
                *self == *old(self),
                self.wf(),
                i <= self.textures@.len(),
                forall|k: int| 0 <= k < i ==> self.textures@[k].texture != texture.texture,
            decreases self.textures@.len() - i,
        {
            if self.textures[i].texture == texture.texture {
                proof {
                    let at = self@.texture_index(texture.texture);
                    assert(self@.textures[i as int].texture == texture.texture);
                    assert(self@.owns_texture(texture.texture));
                    if at < i {
                    } else if i < at {
                    }
                    assert(at == i);
                    self@.lemma_removed_texture_is_not_released(texture.texture);
                }
                self.textures.remove(i);
                assert(self@.programs =~= old(self)@.programs);
                return ;
            }
            i = i + 1;
        }
        proof {
            self@.lemma_removed_texture_is_not_released(texture.texture);
        }
    }

    /// The program stored under `name`, if there is one.
    pub fn program(&self, name: &str) -> (r: Option<u32>)
        requires
            self.wf(),
        ensures
            r == self@.program(name@),
    {
        let wanted = String::from_str(name);
        let mut i: usize = 0;
        while i < self.programs.len()
            invariant
                self.wf(),
                wanted@ == name@,
                i <= self.programs@.len(),
                forall|k: int| 0 <= k < i ==> self@.programs[k].name != name@,
            decreases self.programs@.len() - i,
        {
            if self.programs[i].name == wanted {
                assert(self@.programs[i as int].name == name@);
                return Some(self.programs[i].program);
            }
            i = i + 1;
        }
        None
    }

    /// Says what has to happen so that the program `name` can be used. A
    /// program that exists is used as it is, whatever the sources are. A
    /// missing one can be built only where the context has the `in` / `out`
    /// shader interface; each source then becomes one shader to compile,
    /// with the version line of the context on top.
    pub fn get_program(
        &self,
        name: &str,
        version: &ShaderVersion,
        shader_sources: &[(ProgramKind, &str)],
    ) -> (request: ProgramRequest)
        requires
            self.wf(),
        ensures
            match request {
                ProgramRequest::Ready(program) => self@.program(name@) == Some(program),
                ProgramRequest::Unsupported => {
                    &&& self@.program(name@) is None
                    &&& !new_shader_interface(*version)
                },
                ProgramRequest::Compile(jobs) => {
                    &&& self@.program(name@) is None
                    &&& new_shader_interface(*version)
                    &&& jobs@.len() == shader_sources@.len()
                    &&& forall|i: int|
                        0 <= i < jobs@.len() ==> {
                            &&& (#[trigger] jobs@[i]).kind == shader_sources@[i].0
                            &&& jobs@[i].text@ == shader_text(*version, shader_sources@[i].1@)
                        }
                },
            },
    {
        match self.program(name) {
            Some(program) => ProgramRequest::Ready(program),
            None => {
                if !is_new_shader_interface(version) {
                    ProgramRequest::Unsupported
                } else {
                    ProgramRequest::Compile(shader_jobs(version, shader_sources))
                }
            },
        }
    }

    /// Stores a freshly linked program under `name`. The name must be new:
    /// ask `get_program` first.
    pub fn insert_program(&mut self, name: &str, program: u32)
        requires
            old(self).wf(),
            !old(self)@.has_program(name@),
        ensures
            final(self)@ == old(self)@.with_program(name@, program),
            final(self).wf(),
            final(self)@.program(name@) == Some(program),
    {
        proof {
            self@.lemma_stored_program_is_found(name@, program, name@);
        }
        self.programs.push(ProgramEntry { name: String::from_str(name), program });
        assert(self@.programs =~= old(self)@.with_program(name@, program).programs);
    }

    /// Gives back every handle the manager owns, the programs first, and
    /// leaves the manager empty. The caller releases each handle on the GPU.
    /// A second call gives back nothing.
    pub fn destroy(&mut self) -> (handles: Vec<Release>)
        ensures
            handles@ == old(self)@.released(),
            final(self)@ == ResourceModel::empty(),
            final(self).wf(),
    {
        let mut handles: Vec<Release> = Vec::new();
        let mut i: usize = 0;
        while i < self.programs.len()
            invariant
                *self == *old(self),
                i <= self.programs@.len(),
                handles@.len() == i,
                forall|k: int| 0 <= k < i ==> handles@[k] == self@.released()[k],
            decreases self.programs@.len() - i,
        {
            handles.push(Release::Program(self.programs[i].program));
            i = i + 1;
        }
        let mut j: usize = 0;
        while j < self.textures.len()
            invariant
                *self == *old(self),
                j <= self.textures@.len(),
                handles@.len() == self.programs@.len() + j,
                forall|k: int| 0 <= k < handles@.len() ==> handles@[k] == self@.released()[k],
            decreases self.textures@.len() - j,
        {
            handles.push(Release::Texture(self.textures[j].texture));
            j = j + 1;
        }
        assert(handles@ =~= old(self)@.released());
        self.programs.clear();
        self.textures.clear();
        assert(self@.programs =~= Seq::empty());
        assert(self@.textures =~= Seq::empty());
        handles
    }
}

/// The shaders to compile for the given sources, in the order of the sources:
/// each keeps its stage and gets the version line of the context on top.
pub fn shader_jobs(version: &ShaderVersion, shader_sources: &[(ProgramKind, &str)]) -> (jobs: Vec<
    ShaderJob,
>)
    ensures
        jobs@.len() == shader_sources@.len(),
        forall|i: int|
            0 <= i < jobs@.len() ==> {
                &&& (#[trigger] jobs@[i]).kind == shader_sources@[i].0
                &&& jobs@[i].text@ == shader_text(*version, shader_sources@[i].1@)
            },
{
    let declaration = version_declaration(version);
    let mut jobs: Vec<ShaderJob> = Vec::new();
    let mut i: usize = 0;
    while i < shader_sources.len()
        invariant
            declaration@ == declaration_text(*version),
            i <= shader_sources@.len(),
            jobs@.len() == i,
            forall|k: int|
                0 <= k < i ==> {
                    &&& (#[trigger] jobs@[k]).kind == shader_sources@[k].0
                    &&& jobs@[k].text@ == shader_text(*version, shader_sources@[k].1@)
                },
        decreases shader_sources@.len() - i,
    {
        let kind = shader_sources[i].0;
        let source = shader_sources[i].1;
        let mut text = String::from_str(declaration);
        text.append("\n");
        text.append(source);
        jobs.push(ShaderJob { kind, text });
        i = i + 1;
    }
    jobs
}

} // verus!
