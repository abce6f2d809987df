//! `src/main.cpp` of a generated project: open a window with the chosen
//! backend, load OpenGL with the chosen loader, clear the screen until the
//! window closes.

use vstd::prelude::*;
use crate::app::App;
use crate::options::{GlLoader, WindowBackend};
use crate::text::{decimal, decimal_string};

verus! {

/// `main.cpp`: the standard stream header, before the loader header.
pub const IOSTREAM_INCLUDE: &'static str = "#include <iostream>\n\n";

/// The GLFW header.
pub const GLFW_INCLUDE: &'static str = "#include <GLFW/glfw3.h>";

/// The SDL3 header.
pub const SDL_INCLUDE: &'static str = "#include <SDL3/SDL.h>";

/// GLFW: initialises the library, up to the first window hint.
pub const GLFW_MAIN_OPEN: &'static str = r#"

int main() {
    if (!glfwInit()) {
        std::cerr << "Failed to initialize GLFW\n";
        return -1;
    }

    "#;

/// Between two statements of the set-up.
pub const STATEMENT_BREAK: &'static str = "\n    ";

/// GLFW: after the hints, up to the call that creates the window.
pub const GLFW_WINDOW_OPEN: &'static str = "\n\n    GLFWwindow* window = ";

/// GLFW: after the window is created, up to where the loader is initialised.
pub const GLFW_CONTEXT_READY: &'static str = r#"
    if (!window) {
        std::cerr << "Failed to create GLFW window\n";
        glfwTerminate();
        return -1;
    }

    glfwMakeContextCurrent(window);

"#;

/// GLFW: clears the screen until the window closes, then cleans up.
pub const GLFW_RENDER_LOOP: &'static str = r#"

    while (!glfwWindowShouldClose(window)) {
        glClearColor(1.0f, 1.0f, 1.0f, 1.0f);
        glClear(GL_COLOR_BUFFER_BIT);

        glfwSwapBuffers(window);
        glfwPollEvents();
    }

    glfwDestroyWindow(window);
    glfwTerminate();
    return 0;
}
"#;

/// SDL3: initialises the library, up to the first attribute.
pub const SDL_MAIN_OPEN: &'static str = r#"

int main() {
    if (!SDL_Init(SDL_INIT_VIDEO)) {
        std::cerr << "Failed to initialize SDL3: " << SDL_GetError() << "\n";
        return -1;
    }

    "#;

/// SDL3: after the attributes, up to the call that creates the window.
pub const SDL_WINDOW_OPEN: &'static str = "\n\n    SDL_Window* window = ";

/// SDL3: after the window is created, creates the context, up to where the loader is initialised.
pub const SDL_CONTEXT_READY: &'static str = r#"
    if (!window) {
        std::cerr << "Failed to create SDL3 window: " << SDL_GetError() << "\n";
        SDL_Quit();
        return -1;
    }

    SDL_GLContext gl_context = SDL_GL_CreateContext(window);
    if (!gl_context) {
        std::cerr << "Failed to create OpenGL context: " << SDL_GetError() << "\n";
        SDL_DestroyWindow(window);
        SDL_Quit();
        return -1;
    }

"#;

/// SDL3: clears the screen until the window is closed, then cleans up.
pub const SDL_RENDER_LOOP: &'static str = r#"

    bool running = true;
    while (running) {
        SDL_Event event;
        while (SDL_PollEvent(&event)) {
            if (event.type == SDL_EVENT_QUIT) {
                running = false;
            }
        }

        glClearColor(1.0f, 1.0f, 1.0f, 1.0f);
        glClear(GL_COLOR_BUFFER_BIT);
        SDL_GL_SwapWindow(window);
    }

    SDL_GL_DestroyContext(gl_context);
    SDL_DestroyWindow(window);
    SDL_Quit();
    return 0;
}
"#;

/// Loads OpenGL with glad 0.1 through GLFW.
pub const GLAD_GLFW_INIT: &'static str = r#"    if (!gladLoadGLLoader((GLADloadproc)glfwGetProcAddress)) {
        std::cerr << "Failed to initialize glad\n";
        return -1;
    }"#;

/// Loads OpenGL with glad2 through GLFW.
pub const GLAD2_GLFW_INIT: &'static str = r#"    if (!gladLoadGL((GLADloadfunc)glfwGetProcAddress)) {
        std::cerr << "Failed to initialize glad2\n";
        return -1;
    }"#;

/// Loads OpenGL with GLEW, whatever the window library.
pub const GLEW_INIT: &'static str = r#"    glewExperimental = GL_TRUE;
    const GLenum glew_status = glewInit();
#ifdef GLEW_ERROR_NO_GLX_DISPLAY
    // GLEW reports this on Wayland even though the context is perfectly usable.
    const bool glew_ok = glew_status == GLEW_OK || glew_status == GLEW_ERROR_NO_GLX_DISPLAY;
#else
    const bool glew_ok = glew_status == GLEW_OK;
#endif
    if (!glew_ok) {
        std::cerr << "Failed to initialize GLEW: " << glewGetErrorString(glew_status) << "\n";
        return -1;
    }"#;

/// Loads OpenGL with glad 0.1 through SDL3.
pub const GLAD_SDL_INIT: &'static str = r#"    if (!gladLoadGLLoader((GLADloadproc)SDL_GL_GetProcAddress)) {
        std::cerr << "Failed to initialize glad\n";
        return -1;
    }"#;

/// Loads OpenGL with glad2 through SDL3.
pub const GLAD2_SDL_INIT: &'static str = r#"    if (!gladLoadGL((GLADloadfunc)SDL_GL_GetProcAddress)) {
        std::cerr << "Failed to initialize glad2\n";
        return -1;
    }"#;

/// The `#include` line of the loader's header: glad 0.1 lays it out as
/// `glad/glad.h`, glad2 as `glad/gl.h`.
pub open spec fn loader_include(loader: GlLoader) -> Seq<char> {
    match loader {
        GlLoader::Glad => "#include <glad/glad.h>"@,
        GlLoader::Glad2 => "#include <glad/gl.h>"@,
        GlLoader::Glew => "#include <GL/glew.h>"@,
    }
}

/// The code that loads OpenGL through the loader once a GLFW context is
/// current.
pub open spec fn glfw_loader_init_text(loader: GlLoader) -> Seq<char> {
    match loader {
        GlLoader::Glad => GLAD_GLFW_INIT@,
        GlLoader::Glad2 => GLAD2_GLFW_INIT@,
        GlLoader::Glew => GLEW_INIT@,
    }
}

/// The code that loads OpenGL through the loader once an SDL3 context is
/// current.
pub open spec fn sdl_loader_init_text(loader: GlLoader) -> Seq<char> {
    match loader {
        GlLoader::Glad => GLAD_SDL_INIT@,
        GlLoader::Glad2 => GLAD2_SDL_INIT@,
        GlLoader::Glew => GLEW_INIT@,
    }
}

/// A GLFW boolean hint.
pub open spec fn glfw_flag(flag: bool) -> Seq<char> {
    if flag {
        "GLFW_TRUE"@
    } else {
        "GLFW_FALSE"@
    }
}

/// The GLFW profile hint's value.
pub open spec fn glfw_profile(core: bool) -> Seq<char> {
    if core {
        "GLFW_OPENGL_CORE_PROFILE"@
    } else {
        "GLFW_OPENGL_COMPAT_PROFILE"@
    }
}

/// The SDL3 profile attribute's value.
pub open spec fn sdl_profile(core: bool) -> Seq<char> {
    if core {
        "SDL_GL_CONTEXT_PROFILE_CORE"@
    } else {
        "SDL_GL_CONTEXT_PROFILE_COMPATIBILITY"@
    }
}

/// The statement that sets a GLFW window hint.
pub open spec fn glfw_hint(name: Seq<char>, value: Seq<char>) -> Seq<char> {
    "glfwWindowHint("@ + name + ", "@ + value + ");"@
}

/// The statement that sets an SDL3 OpenGL attribute.
pub open spec fn sdl_attribute(name: Seq<char>, value: Seq<char>) -> Seq<char> {
    "SDL_GL_SetAttribute("@ + name + ", "@ + value + ");"@
}

/// The call that opens the GLFW window, with the project's name as title.
pub open spec fn glfw_create_window(project_name: Seq<char>) -> Seq<char> {
    "glfwCreateWindow(1280, 720, \""@ + project_name + "\", nullptr, nullptr);"@
}

/// The call that opens the SDL3 window, with the project's name as title.
pub open spec fn sdl_create_window(project_name: Seq<char>) -> Seq<char> {
    "SDL_CreateWindow(\""@ + project_name + "\", 1280, 720, SDL_WINDOW_OPENGL | SDL_WINDOW_RESIZABLE);"@
}

/// `main.cpp` for GLFW.
pub open spec fn glfw_main_text(app: App, project_name: Seq<char>) -> Seq<char> {
    IOSTREAM_INCLUDE@ + loader_include(app.gl_loader) + "\n"@ + GLFW_INCLUDE@ + GLFW_MAIN_OPEN@
        + glfw_hint("GLFW_CONTEXT_VERSION_MAJOR"@, decimal(app.opengl_major as nat))
        + STATEMENT_BREAK@ + glfw_hint("GLFW_CONTEXT_VERSION_MINOR"@, decimal(app.opengl_minor as nat))
        + STATEMENT_BREAK@ + glfw_hint("GLFW_OPENGL_PROFILE"@, glfw_profile(app.core_profile))
        + STATEMENT_BREAK@ + glfw_hint("GLFW_OPENGL_DEBUG_CONTEXT"@, glfw_flag(app.debug_context))
        + STATEMENT_BREAK@ + glfw_hint("GLFW_SRGB_CAPABLE"@, glfw_flag(app.srgb_framebuffer))
        + GLFW_WINDOW_OPEN@ + glfw_create_window(project_name) + GLFW_CONTEXT_READY@
        + glfw_loader_init_text(app.gl_loader) + GLFW_RENDER_LOOP@
}

/// `main.cpp` for SDL3.
pub open spec fn sdl_main_text(app: App, project_name: Seq<char>) -> Seq<char> {
    IOSTREAM_INCLUDE@ + loader_include(app.gl_loader) + "\n"@ + SDL_INCLUDE@ + SDL_MAIN_OPEN@
        + sdl_attribute("SDL_GL_CONTEXT_MAJOR_VERSION"@, decimal(app.opengl_major as nat))
        + STATEMENT_BREAK@ + sdl_attribute("SDL_GL_CONTEXT_MINOR_VERSION"@, decimal(app.opengl_minor as nat))
        + STATEMENT_BREAK@ + sdl_attribute("SDL_GL_CONTEXT_PROFILE_MASK"@, sdl_profile(app.core_profile))
        + STATEMENT_BREAK@ + sdl_attribute(
        "SDL_GL_FRAMEBUFFER_SRGB_CAPABLE"@,
        if app.srgb_framebuffer {
            "1"@
        } else {
            "0"@
        },
    ) + SDL_WINDOW_OPEN@ + sdl_create_window(project_name) + SDL_CONTEXT_READY@
        + sdl_loader_init_text(app.gl_loader) + SDL_RENDER_LOOP@
}

/// `main.cpp` for the chosen backend.
pub open spec fn main_cpp_text(app: App, project_name: Seq<char>) -> Seq<char> {
    match app.window_backend {
        WindowBackend::Glfw => glfw_main_text(app, project_name),
        WindowBackend::Sdl3 => sdl_main_text(app, project_name),
    }
}

fn append_glfw_hint(out: &mut String, name: &str, value: &str)
    ensures
        final(out)@ == old(out)@ + glfw_hint(name@, value@),
{
    let mut line = String::from_str("glfwWindowHint(");
    line.append(name);
    line.append(", ");
    line.append(value);
    line.append(");");
    out.append(line.as_str());
}

fn append_sdl_attribute(out: &mut String, name: &str, value: &str)
    ensures
        final(out)@ == old(out)@ + sdl_attribute(name@, value@),
{
    let mut line = String::from_str("SDL_GL_SetAttribute(");
    line.append(name);
    line.append(", ");
    line.append(value);
    line.append(");");
    out.append(line.as_str());
}

impl App {
    /// The text of `src/main.cpp`.
    pub fn main_cpp_template(&self, project_name: &str) -> (out: String)
        ensures
            out@ == main_cpp_text(*self, project_name@),
    {
        let loader_include = match self.gl_loader {
            GlLoader::Glad => "#include <glad/glad.h>",
            GlLoader::Glad2 => "#include <glad/gl.h>",
            GlLoader::Glew => "#include <GL/glew.h>",
        };
        let major = decimal_string(self.opengl_major as u32);
        let minor = decimal_string(self.opengl_minor as u32);
        let mut out = String::from_str(IOSTREAM_INCLUDE);
        out.append(loader_include);
        out.append("\n");
        match self.window_backend {
            WindowBackend::Glfw => {
                let mut window = String::from_str("glfwCreateWindow(1280, 720, \"");
                window.append(project_name);
                window.append("\", nullptr, nullptr);");
                out.append(GLFW_INCLUDE);
                out.append(GLFW_MAIN_OPEN);
                append_glfw_hint(&mut out, "GLFW_CONTEXT_VERSION_MAJOR", major.as_str());
                out.append(STATEMENT_BREAK);
                append_glfw_hint(&mut out, "GLFW_CONTEXT_VERSION_MINOR", minor.as_str());
                out.append(STATEMENT_BREAK);
                append_glfw_hint(
                    &mut out,
                    "GLFW_OPENGL_PROFILE",
                    if self.core_profile {
                        "GLFW_OPENGL_CORE_PROFILE"
                    } else {
                        "GLFW_OPENGL_COMPAT_PROFILE"
                    },
                );
                out.append(STATEMENT_BREAK);
                append_glfw_hint(
                    &mut out,
                    "GLFW_OPENGL_DEBUG_CONTEXT",
                    if self.debug_context {
                        "GLFW_TRUE"
                    } else {
                        "GLFW_FALSE"
                    },
                );
                out.append(STATEMENT_BREAK);
                append_glfw_hint(
                    &mut out,
                    "GLFW_SRGB_CAPABLE",
                    if self.srgb_framebuffer {
                        "GLFW_TRUE"
                    } else {
                        "GLFW_FALSE"
                    },
                );
                out.append(GLFW_WINDOW_OPEN);
                out.append(window.as_str());
                out.append(GLFW_CONTEXT_READY);
                out.append(self.glfw_loader_init());
                out.append(GLFW_RENDER_LOOP);
            },
            WindowBackend::Sdl3 => {
                let mut window = String::from_str("SDL_CreateWindow(\"");
                window.append(project_name);
                window.append("\", 1280, 720, SDL_WINDOW_OPENGL | SDL_WINDOW_RESIZABLE);");
                out.append(SDL_INCLUDE);
                out.append(SDL_MAIN_OPEN);
                append_sdl_attribute(&mut out, "SDL_GL_CONTEXT_MAJOR_VERSION", major.as_str());
                out.append(STATEMENT_BREAK);
                append_sdl_attribute(&mut out, "SDL_GL_CONTEXT_MINOR_VERSION", minor.as_str());
                out.append(STATEMENT_BREAK);
                append_sdl_attribute(
                    &mut out,
                    "SDL_GL_CONTEXT_PROFILE_MASK",
                    if self.core_profile {
                        "SDL_GL_CONTEXT_PROFILE_CORE"
                    } else {
                        "SDL_GL_CONTEXT_PROFILE_COMPATIBILITY"
                    },
                );
                out.append(STATEMENT_BREAK);
                append_sdl_attribute(
                    &mut out,
                    "SDL_GL_FRAMEBUFFER_SRGB_CAPABLE",
                    if self.srgb_framebuffer {
                        "1"
                    } else {
                        "0"
                    },
                );
                out.append(SDL_WINDOW_OPEN);
                out.append(window.as_str());
                out.append(SDL_CONTEXT_READY);
                out.append(self.sdl_loader_init());
                out.append(SDL_RENDER_LOOP);
            },
        }
        out
    }

    /// The loader initialisation for a GLFW window.
    pub fn glfw_loader_init(&self) -> (out: &'static str)
        ensures
            out@ == glfw_loader_init_text(self.gl_loader),
    {
        match self.gl_loader {
            GlLoader::Glad => GLAD_GLFW_INIT,
            GlLoader::Glad2 => GLAD2_GLFW_INIT,
            GlLoader::Glew => GLEW_INIT,
        }
    }

    /// The loader initialisation for an SDL3 window.
    pub fn sdl_loader_init(&self) -> (out: &'static str)
        ensures
            out@ == sdl_loader_init_text(self.gl_loader),
    {
        match self.gl_loader {
            GlLoader::Glad => GLAD_SDL_INIT,
            GlLoader::Glad2 => GLAD2_SDL_INIT,
            GlLoader::Glew => GLEW_INIT,
        }
    }
}

} // verus!
