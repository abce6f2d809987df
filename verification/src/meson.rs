//! `meson.build` of a generated project.

use vstd::prelude::*;
use crate::app::App;
use crate::options::{GlLoader, WindowBackend};

verus! {

/// `meson.build`: the rest of the project line, and the OpenGL dependency.
pub const MESON_OPENGL_DEP: &'static str = r#"', 'warning_level=3'])

opengl_dep = dependency('opengl')
"#;

/// `meson.build`: the rest of the executable target.
pub const MESON_EXECUTABLE_CLOSE: &'static str = r#"',
  'src/main.cpp',
  dependencies: [opengl_dep, window_dep, loader_dep],
  install: true
)
"#;

/// The Meson dependency for the window backend.
pub open spec fn meson_backend_dep(backend: WindowBackend) -> Seq<char> {
    match backend {
        WindowBackend::Glfw => "dependency('glfw3')"@,
        WindowBackend::Sdl3 => "dependency('sdl3')"@,
    }
}

/// The Meson dependency for the loader: glad for both glad generations.
pub open spec fn meson_loader_dep(loader: GlLoader) -> Seq<char> {
    match loader {
        GlLoader::Glew => "dependency('glew')"@,
        _ => "dependency('glad')"@,
    }
}

/// The C++ standard option, with the value as the user typed it.
pub open spec fn meson_std_option(app: App) -> Seq<char> {
    "cpp_std="@ + app.cpp_standard@
}

/// The line that picks the window dependency.
pub open spec fn meson_window_line(app: App) -> Seq<char> {
    "window_dep = "@ + meson_backend_dep(app.window_backend)
}

/// The line that picks the loader dependency.
pub open spec fn meson_loader_line(app: App) -> Seq<char> {
    "loader_dep = "@ + meson_loader_dep(app.gl_loader)
}

/// `meson.build`; the C++ standard is passed on as the user typed it.
pub open spec fn meson_text(app: App, project_name: Seq<char>) -> Seq<char> {
    "project('"@ + project_name + "', 'cpp', default_options: ['"@ + meson_std_option(app)
        + MESON_OPENGL_DEP@ + meson_window_line(app) + "\n"@ + meson_loader_line(app)
        + "\n\nexecutable('"@ + project_name + MESON_EXECUTABLE_CLOSE@
}

impl App {
    /// The text of `meson.build`.
    pub fn meson_template(&self, project_name: &str) -> (out: String)
        ensures
            out@ == meson_text(*self, project_name@),
    {
        let backend_dep = match self.window_backend {
            WindowBackend::Glfw => "dependency('glfw3')",
            WindowBackend::Sdl3 => "dependency('sdl3')",
        };
        let loader_dep = match self.gl_loader {
            GlLoader::Glew => "dependency('glew')",
            _ => "dependency('glad')",
        };
        let mut out = String::from_str("project('");
        out.append(project_name);
        out.append("', 'cpp', default_options: ['");
        out.append("cpp_std=");
        out.append(self.cpp_standard.as_str());
        out.append(MESON_OPENGL_DEP);
        out.append("window_dep = ");
        out.append(backend_dep);
        out.append("\n");
        out.append("loader_dep = ");
        out.append(loader_dep);
        out.append("\n\nexecutable('");
        out.append(project_name);
        out.append(MESON_EXECUTABLE_CLOSE);
        out
    }
}

} // verus!
