//! The two READMEs of a generated project: what was chosen, how to build it,
//! and what the chosen loader needs at build time.

use vstd::prelude::*;
use crate::app::App;
use crate::naming::yes_no;
use crate::options::GlLoader;
use crate::text::decimal;

verus! {

/// README: between the title and the selected stack.
pub const README_INTRO: &'static str = "\nGenerated with OpenGL Project Generator.\n\n## Selected stack\n";

/// README: the heading of the optional libraries.
pub const README_LIBRARIES_HEADING: &'static str = "\n\n## Optional libraries toggled\n";

/// README: the build steps and requirements, up to the backend named there.
pub const README_BUILD_STEPS: &'static str = r#"

## Build
### CMake
1. cmake --preset default
2. cmake --build --preset default

The executable and a copy of assets/ end up in build/bin.
Use the `release` preset instead of `default` for an optimised build.

### Meson
1. meson setup build
2. meson compile -C build

## Requirements
- A C++ compiler and CMake 3.21 or newer.
- "#;

/// README: after the backend in the requirements.
pub const README_BACKEND_FILES: &'static str = r#" development files (see third_party/README.md for install commands).
"#;

/// README: how optional libraries behave.
pub const README_OPTIONAL_NOTE: &'static str = r#"

Optional libraries are linked only if they are found; each one that is defines a
HAVE_* macro (HAVE_GLM, HAVE_FMT, ...) you can test in your code. A missing one
never breaks the build.
"#;

/// `third_party/README.md`: up to the base dependencies.
pub const THIRD_PARTY_INTRO: &'static str = r#"# Third-party dependencies

This project expects the following base dependencies:
"#;

/// `third_party/README.md`: install hints, up to the optional libraries.
pub const THIRD_PARTY_INSTALL: &'static str = r#"

Recommended ways to install:
- vcpkg (Windows): vcpkg install glfw3 sdl3 glad glew
- conan: declare packages in conanfile
- system package manager on Linux/macOS

Optional libraries selected by generator:
"#;

/// What glad 0.1 needs at build time.
pub const GLAD_REQUIREMENT: &'static str = "- Python 3 on PATH: glad generates its sources during the build (standard library only).";

/// What glad2 needs at build time.
pub const GLAD2_REQUIREMENT: &'static str = r#"- Python 3 on PATH plus the Jinja2 module (`python -m pip install --user jinja2`):
  the glad2 generator runs during the build."#;

/// `yes` or `no`.
#[verifier::opaque]
pub open spec fn yes_no_text(flag: bool) -> Seq<char> {
    if flag {
        "yes"@
    } else {
        "no"@
    }
}

/// What the loader needs at build time, as the README lists it: the same
/// thing that the CMake checks enforce.
pub open spec fn loader_requirement_text(loader: GlLoader) -> Seq<char> {
    match loader {
        GlLoader::Glad => GLAD_REQUIREMENT@,
        GlLoader::Glad2 => GLAD2_REQUIREMENT@,
        GlLoader::Glew => "- GLEW development files."@,
    }
}

/// The title line of `README.md`.
pub open spec fn readme_title(project_name: Seq<char>) -> Seq<char> {
    "# "@ + project_name + "\n"@
}

/// The OpenGL version, as `major.minor`.
pub open spec fn opengl_version_text(app: App) -> Seq<char> {
    decimal(app.opengl_major as nat) + "."@ + decimal(app.opengl_minor as nat)
}

/// The selected stack in `README.md`: one line each for the window backend,
/// the loader, the build system and the OpenGL version.
pub open spec fn readme_stack(app: App) -> Seq<char> {
    "- Windowing: "@ + app.window_backend.label() + "\n"@ + "- GL loader: "@ + app.gl_loader.label()
        + "\n"@ + "- Build system: "@ + app.build_system.label() + "\n"@ + "- OpenGL: "@
        + opengl_version_text(app)
}

/// One line per optional library, `yes` or `no`, as both READMEs list them.
pub open spec fn library_lines(app: App) -> Seq<char> {
    "- GLM: "@ + yes_no_text(app.include_glm) + "\n"@ + "- Dear ImGui: "@ + yes_no_text(
        app.include_imgui,
    ) + "\n"@ + "- stb_image: "@ + yes_no_text(app.include_stb_image) + "\n"@ + "- Assimp: "@
        + yes_no_text(app.include_assimp) + "\n"@ + "- fmt: "@ + yes_no_text(app.include_fmt)
        + "\n"@ + "- spdlog: "@ + yes_no_text(app.include_spdlog)
}

/// The build steps and requirements in `README.md`.
pub open spec fn readme_requirements(app: App) -> Seq<char> {
    README_BUILD_STEPS@ + app.window_backend.label() + README_BACKEND_FILES@
        + loader_requirement_text(app.gl_loader)
}

/// `README.md`.
pub open spec fn readme_text(app: App, project_name: Seq<char>) -> Seq<char> {
    readme_title(project_name) + README_INTRO@ + readme_stack(app) + README_LIBRARIES_HEADING@
        + library_lines(app) + readme_requirements(app) + README_OPTIONAL_NOTE@
}

/// The base dependencies in `third_party/README.md`.
pub open spec fn base_dependencies(app: App) -> Seq<char> {
    "- Window backend: "@ + app.window_backend.label() + "\n- OpenGL loader: "@
        + app.gl_loader.label()
}

/// `third_party/README.md`.
pub open spec fn third_party_text(app: App) -> Seq<char> {
    THIRD_PARTY_INTRO@ + base_dependencies(app) + THIRD_PARTY_INSTALL@ + library_lines(app) + "\n"@
}

impl App {
    /// The text of `README.md`.
    pub fn readme_template(&self, project_name: &str) -> (out: String)
        ensures
            out@ == readme_text(*self, project_name@),
    {
        let major = crate::text::decimal_string(self.opengl_major as u32);
        let minor = crate::text::decimal_string(self.opengl_minor as u32);
        let mut stack = String::from_str("- Windowing: ");
        stack.append(self.window_backend.as_str());
        stack.append("\n");
        stack.append("- GL loader: ");
        stack.append(self.gl_loader.as_str());
        stack.append("\n");
        stack.append("- Build system: ");
        stack.append(self.build_system.as_str());
        stack.append("\n");
        stack.append("- OpenGL: ");
        stack.append(major.as_str());
        stack.append(".");
        stack.append(minor.as_str());
        assert(stack@ == readme_stack(*self));
        let mut requirements = String::from_str(README_BUILD_STEPS);
        requirements.append(self.window_backend.as_str());
        requirements.append(README_BACKEND_FILES);
        requirements.append(self.loader_requirement_note());
        let mut out = String::from_str("# ");
        out.append(project_name);
        out.append("\n");
        out.append(README_INTRO);
        out.append(stack.as_str());
        out.append(README_LIBRARIES_HEADING);
        self.append_library_lines(&mut out);
        out.append(requirements.as_str());
        out.append(README_OPTIONAL_NOTE);
        out
    }

    /// Appends the optional library lines that both READMEs share.
    fn append_library_lines(&self, out: &mut String)
        ensures
            final(out)@ == old(out)@ + library_lines(*self),
    {
        let mut lines = String::from_str("- GLM: ");
        lines.append(yes_no(self.include_glm));
        lines.append("\n");
        lines.append("- Dear ImGui: ");
        lines.append(yes_no(self.include_imgui));
        lines.append("\n");
        lines.append("- stb_image: ");
        lines.append(yes_no(self.include_stb_image));
        lines.append("\n");
        lines.append("- Assimp: ");
        lines.append(yes_no(self.include_assimp));
        lines.append("\n");
        lines.append("- fmt: ");
        lines.append(yes_no(self.include_fmt));
        lines.append("\n");
        lines.append("- spdlog: ");
        lines.append(yes_no(self.include_spdlog));
        proof {
            reveal(yes_no_text);
            assert(lines@ == library_lines(*self));
        }
        out.append(lines.as_str());
    }

    /// What the chosen loader needs at build time.
    pub fn loader_requirement_note(&self) -> (out: &'static str)
        ensures
            out@ == loader_requirement_text(self.gl_loader),
    {
        match self.gl_loader {
            GlLoader::Glad => GLAD_REQUIREMENT,
            GlLoader::Glad2 => GLAD2_REQUIREMENT,
            GlLoader::Glew => "- GLEW development files.",
        }
    }

    /// The text of `third_party/README.md`.
    pub fn third_party_readme(&self) -> (out: String)
        ensures
            out@ == third_party_text(*self),
    {
        let mut out = String::from_str(THIRD_PARTY_INTRO);
        out.append("- Window backend: ");
        out.append(self.window_backend.as_str());
        out.append("\n- OpenGL loader: ");
        out.append(self.gl_loader.as_str());
        out.append(THIRD_PARTY_INSTALL);
        self.append_library_lines(&mut out);
        out.append("\n");
        out
    }
}

} // verus!
