//! The generator's settings and the decisions taken on them: which
//! directories and files a project gets, where it goes, which glad checkout
//! it needs, and what the user is told afterwards.

use vstd::prelude::*;
use crate::naming::{sanitize_name, sanitized};
use crate::options::{BuildSystem, GlLoader, WindowBackend};
use crate::text::{chars_of, push_char, string_of, trim_chars, trimmed};

verus! {

/// Everything the user chooses for a project, and the last status line.
#[derive(Clone, Debug)]
pub struct App {
    // Project metadata
    pub project_name: String,
    pub output_directory: String,
    pub cpp_standard: String,
    // OpenGL setup
    pub opengl_major: u8,
    pub opengl_minor: u8,
    pub core_profile: bool,
    pub debug_context: bool,
    pub srgb_framebuffer: bool,
    // Backend and loader choices
    pub window_backend: WindowBackend,
    pub gl_loader: GlLoader,
    pub build_system: BuildSystem,
    // Optional libraries/features to scaffold
    pub include_glm: bool,
    pub include_imgui: bool,
    pub include_stb_image: bool,
    pub include_assimp: bool,
    pub include_spdlog: bool,
    pub include_fmt: bool,
    // Project extras
    pub create_git_repo: bool,
    pub include_gitignore: bool,
    pub include_clang_format: bool,
    pub include_cmake_presets: bool,
    pub include_vscode_files: bool,
    // UX state
    pub status_message: String,
}

impl Default for App {
    fn default() -> (app: Self)
        ensures
            app.project_name@ == "my_opengl_app"@,
            app.output_directory@ == "./generated"@,
            app.cpp_standard@ == "c++20"@,
            app.opengl_major == 4,
            app.opengl_minor == 6,
            app.core_profile,
            app.debug_context,
            app.srgb_framebuffer,
            app.window_backend == WindowBackend::Glfw,
            app.gl_loader == GlLoader::Glad,
            app.build_system == BuildSystem::CMake,
            app.include_glm,
            !app.include_imgui,
            app.include_stb_image,
            !app.include_assimp,
            !app.include_spdlog,
            app.include_fmt,
            app.create_git_repo,
            app.include_gitignore,
            app.include_clang_format,
            app.include_cmake_presets,
            app.include_vscode_files,
            app.status_message@ == "Ready to generate project template"@,
    {
        App {
            project_name: "my_opengl_app".to_owned(),
            output_directory: "./generated".to_owned(),
            cpp_standard: "c++20".to_owned(),
            opengl_major: 4,
            opengl_minor: 6,
            core_profile: true,
            debug_context: true,
            srgb_framebuffer: true,
            window_backend: WindowBackend::Glfw,
            gl_loader: GlLoader::Glad,
            build_system: BuildSystem::CMake,
            include_glm: true,
            include_imgui: false,
            include_stb_image: true,
            include_assimp: false,
            include_spdlog: false,
            include_fmt: true,
            create_git_repo: true,
            include_gitignore: true,
            include_clang_format: true,
            include_cmake_presets: true,
            include_vscode_files: true,
            status_message: "Ready to generate project template".to_owned(),
        }
    }
}

/// The highest minor version offered for an OpenGL major version: 3.3 ends
/// the 3.x line, 4.6 the 4.x line.
pub open spec fn max_minor(major: u8) -> u8 {
    if major == 3 {
        3
    } else {
        6
    }
}

/// The minor version that keeping the OpenGL version in range leaves.
pub open spec fn constrained_minor(major: u8, minor: u8) -> u8 {
    if minor <= max_minor(major) {
        minor
    } else {
        max_minor(major)
    }
}

/// The status line shown after a generation attempt.
pub open spec fn status_after(outcome: Result<String, String>) -> Seq<char> {
    match outcome {
        Ok(message) => message@,
        Err(err) => "Generation failed: "@ + err@,
    }
}

/// The directory a project goes to: the output directory, trimmed, or `.`
/// when that is blank.
pub open spec fn output_base(output_directory: Seq<char>) -> Seq<char> {
    if trimmed(output_directory).len() == 0 {
        "."@
    } else {
        trimmed(output_directory)
    }
}

/// Whether `c` separates path components where `sep` is the platform's
/// main separator: `/` always, and `\` too on Windows.
pub open spec fn is_separator(c: char, sep: char) -> bool {
    c == '/' || c == sep
}

/// Whether `s` starts with a Windows drive prefix such as `C:`.
pub open spec fn starts_with_drive(s: Seq<char>) -> bool {
    &&& s.len() >= 2
    &&& ('a' <= s[0] <= 'z' || 'A' <= s[0] <= 'Z')
    &&& s[1] == ':'
}

/// Whether `s` starts with two separators, as Windows UNC (`\\server\share`),
/// device (`\\.\`) and verbatim (`\\?\`) prefixes do.
pub open spec fn starts_with_two_separators(s: Seq<char>) -> bool {
    s.len() >= 2 && is_separator(s[0], '\\') && is_separator(s[1], '\\')
}

/// `name` pushed onto the path `base` by the rules that std's `PathBuf::push`
/// documents, where `sep` is the platform's main separator (`/`, or `\` on
/// Windows). A `name` that starts at a root replaces `base`, except that on
/// Windows it keeps the drive (`C:`) that `base` starts with; a Windows
/// `name` with a drive of its own replaces `base`; otherwise `sep` goes
/// between them unless `base` is empty, already ends with a separator, or is
/// a bare Windows drive such as `C:`. Windows prefixes that start with two
/// separators (UNC, device and verbatim paths) are not described here.
pub open spec fn path_join(base: Seq<char>, name: Seq<char>, sep: char) -> Seq<char> {
    if sep == '\\' && starts_with_drive(name) {
        name
    } else if name.len() > 0 && is_separator(name[0], sep) {
        if sep == '\\' && starts_with_drive(base) {
            base.subrange(0, 2) + name
        } else {
            name
        }
    } else if base.len() == 0 || is_separator(base.last(), sep) || (sep == '\\' && base.len() == 2
        && starts_with_drive(base)) {
        base + name
    } else {
        base + seq![sep] + name
    }
}

/// What `base` joined with `name` can be, on any platform: the join with
/// `/` (Unix), or the join with `\` (Windows), where the Windows join is
/// described only when neither path starts with two separators.
pub open spec fn join_outcome(base: Seq<char>, name: Seq<char>, out: Seq<char>) -> bool {
    ||| out == path_join(base, name, '/')
    ||| out == path_join(base, name, '\\')
    ||| starts_with_two_separators(base)
    ||| starts_with_two_separators(name)
}

/// `name` joined onto `base` by std's `Path::join`, as a string. Taken on
/// trust from std's documentation of `PathBuf::push`: on Unix the result is
/// the join with `/`; on Windows it is the join with `\` for paths without a
/// UNC, device or verbatim prefix (for those, which std parses further, and
/// for verbatim bases, whose components std normalises, nothing is stated).
/// The paths and the result are valid UTF-8, so the conversion back to a
/// string loses nothing.
#[verifier::external_body]
fn joined_path(base: &str, name: &str) -> (out: String)
    ensures
        join_outcome(base@, name@, out@),
{
    std::path::Path::new(base).join(name).to_string_lossy().into_owned()
}

/// The message shown after a project was generated.
pub open spec fn generated_message(app: App, name: Seq<char>, root: Seq<char>) -> Seq<char> {
    "Generated '"@ + name + "' at '"@ + root + "' with "@ + app.window_backend.label() + " + "@
        + app.gl_loader.label()
}

/// The glad branch that has to be checked out for the loader, if any: glad
/// 0.1 lives on `master`, glad2 on `glad2`, and GLEW comes from the system.
pub open spec fn glad_branch(loader: GlLoader) -> Option<Seq<char>> {
    match loader {
        GlLoader::Glad => Some("master"@),
        GlLoader::Glad2 => Some("glad2"@),
        GlLoader::Glew => None,
    }
}

/// The directories, relative to the project root, that a project starts
/// with.
pub open spec fn layout(app: App) -> Seq<Seq<char>> {
    let dirs = seq![
        "src"@,
        "include"@,
        "assets"@,
        "assets/shaders"@,
        "assets/textures"@,
        "cmake"@,
        "third_party"@,
    ];
    if app.include_vscode_files {
        dirs.push(".vscode"@)
    } else {
        dirs
    }
}

/// The views of a list of strings.
pub open spec fn views(v: Seq<String>) -> Seq<Seq<char>> {
    v.map_values(|s: String| s@)
}

/// The highest minor version offered for an OpenGL major version.
pub fn max_opengl_minor(major: u8) -> (m: u8)
    ensures
        m == max_minor(major),
{
    if major == 3 {
        3
    } else {
        6
    }
}

impl App {
    /// Keeps the minor version within the range of the major version.
    pub fn constrain_opengl_version(&mut self)
        ensures
            final(self).opengl_minor == constrained_minor(old(self).opengl_major, old(self).opengl_minor),
            *final(self) == (App { opengl_minor: final(self).opengl_minor, ..*old(self) }),
    {
        let max_minor = max_opengl_minor(self.opengl_major);
        if self.opengl_minor > max_minor {
            self.opengl_minor = max_minor;
        }
    }

    /// Records the outcome of a generation attempt in the status line.
    pub fn generate_project(&mut self, outcome: Result<String, String>)
        ensures
            final(self).status_message@ == status_after(outcome),
            *final(self) == (App { status_message: final(self).status_message, ..*old(self) }),
    {
        match outcome {
            Ok(message) => self.status_message = message,
            Err(err) => {
                let mut status = String::from_str("Generation failed: ");
                status.append(err.as_str());
                self.status_message = status;
            },
        }
    }

    /// The directory name for the project, or the error that stops the
    /// generation when nothing is left of the name.
    pub fn checked_project_name(&self) -> (out: Result<String, String>)
        ensures
            sanitized(self.project_name@).len() > 0 ==> (out matches Ok(name) && name@ == sanitized(
                self.project_name@,
            )),
            sanitized(self.project_name@).len() == 0 ==> (out matches Err(err) && err@
                == "Project name is empty after sanitization"@),
    {
        let name = sanitize_name(self.project_name.as_str());
        if name.as_str().is_empty() {
            Err("Project name is empty after sanitization".to_owned())
        } else {
            Ok(name)
        }
    }

    /// The directory the project is generated in: the output directory
    /// (trimmed, or `.` when blank) joined with the project's name, the way
    /// this platform joins paths.
    pub fn project_root(&self, project_name: &str) -> (out: String)
        ensures
            join_outcome(output_base(self.output_directory@), project_name@, out@),
    {
        let dir = trim_chars(&chars_of(self.output_directory.as_str()));
        let base = if dir.len() == 0 {
            chars_of(".")
        } else {
            dir
        };
        proof {
            reveal_strlit(".");
        }
        let base = string_of(&base);
        joined_path(base.as_str(), project_name)
    }

    /// The directories, relative to the project root, that the project
    /// starts with.
    pub fn layout_directories(&self) -> (out: Vec<String>)
        ensures
            views(out@) == layout(*self),
    {
        let mut out: Vec<String> = Vec::new();
        out.push("src".to_owned());
        out.push("include".to_owned());
        out.push("assets".to_owned());
        out.push("assets/shaders".to_owned());
        out.push("assets/textures".to_owned());
        out.push("cmake".to_owned());
        out.push("third_party".to_owned());
        if self.include_vscode_files {
            out.push(".vscode".to_owned());
        }
        assert(views(out@) == layout(*self));
        out
    }

    /// The glad branch to check out into `third_party/glad`, if the loader
    /// needs one.
    pub fn setup_loader_dependencies(&self) -> (out: Option<&'static str>)
        ensures
            glad_branch(self.gl_loader) matches Some(b) ==> (out matches Some(s) && s@ == b),
            glad_branch(self.gl_loader) is None ==> out is None,
    {
        match self.gl_loader {
            GlLoader::Glad => Some("master"),
            GlLoader::Glad2 => Some("glad2"),
            GlLoader::Glew => None,
        }
    }

    /// The message shown once the project stands at `root`.
    pub fn generation_message(&self, project_name: &str, root: &str) -> (out: String)
        ensures
            out@ == generated_message(*self, project_name@, root@),
    {
        let mut out = String::from_str("Generated '");
        out.append(project_name);
        out.append("' at '");
        out.append(root);
        out.append("' with ");
        out.append(self.window_backend.as_str());
        out.append(" + ");
        out.append(self.gl_loader.as_str());
        out
    }
}

/// The arguments of the `git` call that fetches glad on `branch` into
/// `third_party/glad`: a shallow clone of that branch alone.
pub open spec fn glad_clone_args(branch: Seq<char>) -> Seq<Seq<char>> {
    seq![
        "clone"@,
        "--depth"@,
        "1"@,
        "--branch"@,
        branch,
        "https://github.com/Dav1dde/glad.git"@,
        "third_party/glad"@,
    ]
}

/// The arguments of the `git` call that fetches glad on `branch`.
pub fn glad_clone_arguments(branch: &str) -> (out: Vec<String>)
    ensures
        views(out@) == glad_clone_args(branch@),
{
    let mut out: Vec<String> = Vec::new();
    out.push("clone".to_owned());
    out.push("--depth".to_owned());
    out.push("1".to_owned());
    out.push("--branch".to_owned());
    out.push(branch.to_owned());
    out.push("https://github.com/Dav1dde/glad.git".to_owned());
    out.push("third_party/glad".to_owned());
    assert(views(out@) == glad_clone_args(branch@));
    out
}

} // verus!
