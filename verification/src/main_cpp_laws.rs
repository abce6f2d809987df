//! Which headers `main.cpp` includes, and how it states the profile and
//! debug-context settings.

use vstd::prelude::*;
use crate::app::App;
use crate::cpp::{
    glfw_create_window, glfw_flag, glfw_hint, glfw_loader_init_text, glfw_main_text, glfw_profile,
    loader_include, main_cpp_text, sdl_attribute, sdl_loader_init_text, sdl_main_text, sdl_profile,
    GLFW_CONTEXT_READY, GLFW_INCLUDE, GLFW_MAIN_OPEN, GLFW_RENDER_LOOP, GLFW_WINDOW_OPEN,
    IOSTREAM_INCLUDE, SDL_CONTEXT_READY, SDL_INCLUDE, SDL_MAIN_OPEN, SDL_RENDER_LOOP,
    SDL_WINDOW_OPEN, STATEMENT_BREAK,
};
use crate::file_laws::main_cpp_follows_choices;
use crate::options::{GlLoader, WindowBackend};
use crate::text::{
    contains, decimal, lacks, lacks_pair, lemma_anchor_not_contains, lemma_contains_around,
    lemma_contains_part, lemma_contains_trans, lemma_decimal_lacks, lemma_lacks_gives_pair,
    lemma_lacks_pair_join, lemma_lacks_pair_not_contains,
};

verus! {

/// The value of the SDL3 sRGB attribute.
spec fn sdl_srgb_value(app: App) -> Seq<char> {
    if app.srgb_framebuffer {
        "1"@
    } else {
        "0"@
    }
}

/// The GLFW `main.cpp` up to the debug-context hint.
spec fn glfw_before_debug(app: App) -> Seq<char> {
    IOSTREAM_INCLUDE@
        + loader_include(app.gl_loader)
        + "\n"@
        + GLFW_INCLUDE@
        + GLFW_MAIN_OPEN@
        + glfw_hint("GLFW_CONTEXT_VERSION_MAJOR"@, decimal(app.opengl_major as nat))
        + STATEMENT_BREAK@
        + glfw_hint("GLFW_CONTEXT_VERSION_MINOR"@, decimal(app.opengl_minor as nat))
        + STATEMENT_BREAK@
        + glfw_hint("GLFW_OPENGL_PROFILE"@, glfw_profile(app.core_profile))
        + STATEMENT_BREAK@
}

/// The GLFW `main.cpp` up to the project name in the window title.
spec fn glfw_head(app: App) -> Seq<char> {
    glfw_before_debug(app) + glfw_hint("GLFW_OPENGL_DEBUG_CONTEXT"@, glfw_flag(app.debug_context))
        + STATEMENT_BREAK@
        + glfw_hint("GLFW_SRGB_CAPABLE"@, glfw_flag(app.srgb_framebuffer))
        + GLFW_WINDOW_OPEN@
        + "glfwCreateWindow(1280, 720, \""@
}

/// The GLFW `main.cpp` after the debug-context hint, up to the project name.
spec fn glfw_after_debug(app: App) -> Seq<char> {
    STATEMENT_BREAK@
        + glfw_hint("GLFW_SRGB_CAPABLE"@, glfw_flag(app.srgb_framebuffer))
        + GLFW_WINDOW_OPEN@
        + "glfwCreateWindow(1280, 720, \""@
}

/// The GLFW `main.cpp` after the project name in the window title.
spec fn glfw_tail(app: App) -> Seq<char> {
    "\", nullptr, nullptr);"@
        + GLFW_CONTEXT_READY@
        + glfw_loader_init_text(app.gl_loader)
        + GLFW_RENDER_LOOP@
}

/// The SDL3 `main.cpp` up to the project name in the window title.
spec fn sdl_head(app: App) -> Seq<char> {
    IOSTREAM_INCLUDE@
        + loader_include(app.gl_loader)
        + "\n"@
        + SDL_INCLUDE@
        + SDL_MAIN_OPEN@
        + sdl_attribute("SDL_GL_CONTEXT_MAJOR_VERSION"@, decimal(app.opengl_major as nat))
        + STATEMENT_BREAK@
        + sdl_attribute("SDL_GL_CONTEXT_MINOR_VERSION"@, decimal(app.opengl_minor as nat))
        + STATEMENT_BREAK@
        + sdl_attribute("SDL_GL_CONTEXT_PROFILE_MASK"@, sdl_profile(app.core_profile))
        + STATEMENT_BREAK@
        + sdl_attribute("SDL_GL_FRAMEBUFFER_SRGB_CAPABLE"@, sdl_srgb_value(app))
        + SDL_WINDOW_OPEN@
        + "SDL_CreateWindow(\""@
}

/// The SDL3 `main.cpp` after the project name in the window title.
spec fn sdl_tail(app: App) -> Seq<char> {
    "\", 1280, 720, SDL_WINDOW_OPENGL | SDL_WINDOW_RESIZABLE);"@
        + SDL_CONTEXT_READY@
        + sdl_loader_init_text(app.gl_loader)
        + SDL_RENDER_LOOP@
}

/// The SDL3 `main.cpp` after the call that opens the window.
spec fn sdl_after_call(app: App) -> Seq<char> {
    SDL_CONTEXT_READY@
        + sdl_loader_init_text(app.gl_loader)
        + SDL_RENDER_LOOP@
}

/// Which of the letter pairs that mark headers and settings `IOSTREAM_INCLUDE@` holds,
/// and how it starts and ends.
proof fn lemma_piece_iostream_include()
    ensures
        lacks_pair(IOSTREAM_INCLUDE@, 'd', '.'),
        lacks_pair(IOSTREAM_INCLUDE@, 'l', '.'),
        lacks_pair(IOSTREAM_INCLUDE@, 'L', '/'),
        lacks_pair(IOSTREAM_INCLUDE@, 'W', '/'),
        lacks_pair(IOSTREAM_INCLUDE@, '3', '/'),
        lacks_pair(IOSTREAM_INCLUDE@, 'R', 'E'),
        lacks_pair(IOSTREAM_INCLUDE@, 'M', 'P'),
        lacks_pair(IOSTREAM_INCLUDE@, 'T', ','),
        IOSTREAM_INCLUDE@.len() > 0,
        IOSTREAM_INCLUDE@[0] == '#',
        IOSTREAM_INCLUDE@.last() == '\n',
{
    reveal_strlit("#include <iostream>\n\n");
}

/// Which of the letter pairs that mark headers and settings `loader_include(app.gl_loader)` holds,
/// and how it starts and ends.
proof fn lemma_piece_loader_include(app: App)
    ensures
        app.gl_loader != GlLoader::Glad ==> lacks_pair(loader_include(app.gl_loader), 'd', '.'),
        app.gl_loader != GlLoader::Glad2 ==> lacks_pair(loader_include(app.gl_loader), 'l', '.'),
        app.gl_loader != GlLoader::Glew ==> lacks_pair(loader_include(app.gl_loader), 'L', '/'),
        lacks_pair(loader_include(app.gl_loader), 'W', '/'),
        lacks_pair(loader_include(app.gl_loader), '3', '/'),
        lacks_pair(loader_include(app.gl_loader), 'R', 'E'),
        lacks_pair(loader_include(app.gl_loader), 'M', 'P'),
        lacks_pair(loader_include(app.gl_loader), 'T', ','),
        loader_include(app.gl_loader).len() > 0,
        loader_include(app.gl_loader)[0] == '#',
        loader_include(app.gl_loader).last() == '>',
{
    reveal_strlit("#include <glad/glad.h>");
    reveal_strlit("#include <glad/gl.h>");
    reveal_strlit("#include <GL/glew.h>");
}

/// Which of the letter pairs that mark headers and settings `"\n"@` holds,
/// and how it starts and ends.
proof fn lemma_piece_line_break()
    ensures
        lacks_pair("\n"@, 'd', '.'),
        lacks_pair("\n"@, 'l', '.'),
        lacks_pair("\n"@, 'L', '/'),
        lacks_pair("\n"@, 'W', '/'),
        lacks_pair("\n"@, '3', '/'),
        lacks_pair("\n"@, 'R', 'E'),
        lacks_pair("\n"@, 'M', 'P'),
        lacks_pair("\n"@, 'T', ','),
        "\n"@.len() > 0,
        "\n"@[0] == '\n',
        "\n"@.last() == '\n',
{
    reveal_strlit("\n");
}

/// Which of the letter pairs that mark headers and settings `GLFW_INCLUDE@` holds,
/// and how it starts and ends.
proof fn lemma_piece_glfw_include()
    ensures
        lacks_pair(GLFW_INCLUDE@, 'd', '.'),
        lacks_pair(GLFW_INCLUDE@, 'l', '.'),
        lacks_pair(GLFW_INCLUDE@, 'L', '/'),
        lacks_pair(GLFW_INCLUDE@, '3', '/'),
        lacks_pair(GLFW_INCLUDE@, 'R', 'E'),
        lacks_pair(GLFW_INCLUDE@, 'M', 'P'),
        lacks_pair(GLFW_INCLUDE@, 'T', ','),
        GLFW_INCLUDE@.len() > 0,
        GLFW_INCLUDE@[0] == '#',
        GLFW_INCLUDE@.last() == '>',
{
    reveal_strlit("#include <GLFW/glfw3.h>");
}

/// Which of the letter pairs that mark headers and settings `GLFW_MAIN_OPEN@` holds,
/// and how it starts and ends.
proof fn lemma_piece_glfw_main_open()
    ensures
        lacks_pair(GLFW_MAIN_OPEN@, 'd', '.'),
        lacks_pair(GLFW_MAIN_OPEN@, 'l', '.'),
        lacks_pair(GLFW_MAIN_OPEN@, 'L', '/'),
        lacks_pair(GLFW_MAIN_OPEN@, 'W', '/'),
        lacks_pair(GLFW_MAIN_OPEN@, '3', '/'),
        lacks_pair(GLFW_MAIN_OPEN@, 'R', 'E'),
        lacks_pair(GLFW_MAIN_OPEN@, 'M', 'P'),
        lacks_pair(GLFW_MAIN_OPEN@, 'T', ','),
        GLFW_MAIN_OPEN@.len() > 0,
        GLFW_MAIN_OPEN@[0] == '\n',
        GLFW_MAIN_OPEN@.last() == ' ',
{
    reveal_strlit(r#"

int main() {
    if (!glfwInit()) {
        std::cerr << "Failed to initialize GLFW\n";
        return -1;
    }

    "#);
}

/// Which of the letter pairs that mark headers and settings `"glfwWindowHint("@` holds,
/// and how it starts and ends.
proof fn lemma_piece_glfwwindowhint()
    ensures
        lacks_pair("glfwWindowHint("@, 'd', '.'),
        lacks_pair("glfwWindowHint("@, 'l', '.'),
        lacks_pair("glfwWindowHint("@, 'L', '/'),
        lacks_pair("glfwWindowHint("@, 'W', '/'),
        lacks_pair("glfwWindowHint("@, '3', '/'),
        lacks_pair("glfwWindowHint("@, 'R', 'E'),
        lacks_pair("glfwWindowHint("@, 'M', 'P'),
        lacks_pair("glfwWindowHint("@, 'T', ','),
        "glfwWindowHint("@.len() > 0,
        "glfwWindowHint("@[0] == 'g',
        "glfwWindowHint("@.last() == '(',
{
    reveal_strlit("glfwWindowHint(");
}

/// Which of the letter pairs that mark headers and settings `"GLFW_CONTEXT_VERSION_MAJOR"@` holds,
/// and how it starts and ends.
proof fn lemma_piece_glfw_context_version_major()
    ensures
        lacks_pair("GLFW_CONTEXT_VERSION_MAJOR"@, 'd', '.'),
        lacks_pair("GLFW_CONTEXT_VERSION_MAJOR"@, 'l', '.'),
        lacks_pair("GLFW_CONTEXT_VERSION_MAJOR"@, 'L', '/'),
        lacks_pair("GLFW_CONTEXT_VERSION_MAJOR"@, 'W', '/'),
        lacks_pair("GLFW_CONTEXT_VERSION_MAJOR"@, '3', '/'),
        lacks_pair("GLFW_CONTEXT_VERSION_MAJOR"@, 'R', 'E'),
        lacks_pair("GLFW_CONTEXT_VERSION_MAJOR"@, 'M', 'P'),
        lacks_pair("GLFW_CONTEXT_VERSION_MAJOR"@, 'T', ','),
        "GLFW_CONTEXT_VERSION_MAJOR"@.len() > 0,
        "GLFW_CONTEXT_VERSION_MAJOR"@[0] == 'G',
        "GLFW_CONTEXT_VERSION_MAJOR"@.last() == 'R',
{
    reveal_strlit("GLFW_CONTEXT_VERSION_MAJOR");
}

/// Which of the letter pairs that mark headers and settings `", "@` holds,
/// and how it starts and ends.
proof fn lemma_piece_comma()
    ensures
        lacks_pair(", "@, 'd', '.'),
        lacks_pair(", "@, 'l', '.'),
        lacks_pair(", "@, 'L', '/'),
        lacks_pair(", "@, 'W', '/'),
        lacks_pair(", "@, '3', '/'),
        lacks_pair(", "@, 'R', 'E'),
        lacks_pair(", "@, 'M', 'P'),
        lacks_pair(", "@, 'T', ','),
        ", "@.len() > 0,
        ", "@[0] == ',',
        ", "@.last() == ' ',
{
    reveal_strlit(", ");
}

/// Which of the letter pairs that mark headers and settings `");"@` holds,
/// and how it starts and ends.
proof fn lemma_piece_call_close()
    ensures
        lacks_pair(");"@, 'd', '.'),
        lacks_pair(");"@, 'l', '.'),
        lacks_pair(");"@, 'L', '/'),
        lacks_pair(");"@, 'W', '/'),
        lacks_pair(");"@, '3', '/'),
        lacks_pair(");"@, 'R', 'E'),
        lacks_pair(");"@, 'M', 'P'),
        lacks_pair(");"@, 'T', ','),
        ");"@.len() > 0,
        ");"@[0] == ')',
        ");"@.last() == ';',
{
    reveal_strlit(");");
}

/// Which of the letter pairs that mark headers and settings `STATEMENT_BREAK@` holds,
/// and how it starts and ends.
proof fn lemma_piece_statement_break()
    ensures
        lacks_pair(STATEMENT_BREAK@, 'd', '.'),
        lacks_pair(STATEMENT_BREAK@, 'l', '.'),
        lacks_pair(STATEMENT_BREAK@, 'L', '/'),
        lacks_pair(STATEMENT_BREAK@, 'W', '/'),
        lacks_pair(STATEMENT_BREAK@, '3', '/'),
        lacks_pair(STATEMENT_BREAK@, 'R', 'E'),
        lacks_pair(STATEMENT_BREAK@, 'M', 'P'),
        lacks_pair(STATEMENT_BREAK@, 'T', ','),
        STATEMENT_BREAK@.len() > 0,
        STATEMENT_BREAK@[0] == '\n',
        STATEMENT_BREAK@.last() == ' ',
{
    reveal_strlit("\n    ");
}

/// Which of the letter pairs that mark headers and settings `"GLFW_CONTEXT_VERSION_MINOR"@` holds,
/// and how it starts and ends.
proof fn lemma_piece_glfw_context_version_minor()
    ensures
        lacks_pair("GLFW_CONTEXT_VERSION_MINOR"@, 'd', '.'),
        lacks_pair("GLFW_CONTEXT_VERSION_MINOR"@, 'l', '.'),
        lacks_pair("GLFW_CONTEXT_VERSION_MINOR"@, 'L', '/'),
        lacks_pair("GLFW_CONTEXT_VERSION_MINOR"@, 'W', '/'),
        lacks_pair("GLFW_CONTEXT_VERSION_MINOR"@, '3', '/'),
        lacks_pair("GLFW_CONTEXT_VERSION_MINOR"@, 'R', 'E'),
        lacks_pair("GLFW_CONTEXT_VERSION_MINOR"@, 'M', 'P'),
        lacks_pair("GLFW_CONTEXT_VERSION_MINOR"@, 'T', ','),
        "GLFW_CONTEXT_VERSION_MINOR"@.len() > 0,
        "GLFW_CONTEXT_VERSION_MINOR"@[0] == 'G',
        "GLFW_CONTEXT_VERSION_MINOR"@.last() == 'R',
{
    reveal_strlit("GLFW_CONTEXT_VERSION_MINOR");
}

/// Which of the letter pairs that mark headers and settings `"GLFW_OPENGL_PROFILE"@` holds,
/// and how it starts and ends.
proof fn lemma_piece_glfw_opengl_profile()
    ensures
        lacks_pair("GLFW_OPENGL_PROFILE"@, 'd', '.'),
        lacks_pair("GLFW_OPENGL_PROFILE"@, 'l', '.'),
        lacks_pair("GLFW_OPENGL_PROFILE"@, 'L', '/'),
        lacks_pair("GLFW_OPENGL_PROFILE"@, 'W', '/'),
        lacks_pair("GLFW_OPENGL_PROFILE"@, '3', '/'),
        lacks_pair("GLFW_OPENGL_PROFILE"@, 'R', 'E'),
        lacks_pair("GLFW_OPENGL_PROFILE"@, 'M', 'P'),
        lacks_pair("GLFW_OPENGL_PROFILE"@, 'T', ','),
        "GLFW_OPENGL_PROFILE"@.len() > 0,
        "GLFW_OPENGL_PROFILE"@[0] == 'G',
        "GLFW_OPENGL_PROFILE"@.last() == 'E',
{
    reveal_strlit("GLFW_OPENGL_PROFILE");
}

/// Which of the letter pairs that mark headers and settings `glfw_profile(app.core_profile)` holds,
/// and how it starts and ends.
proof fn lemma_piece_glfw_profile(app: App)
    ensures
        lacks_pair(glfw_profile(app.core_profile), 'd', '.'),
        lacks_pair(glfw_profile(app.core_profile), 'l', '.'),
        lacks_pair(glfw_profile(app.core_profile), 'L', '/'),
        lacks_pair(glfw_profile(app.core_profile), 'W', '/'),
        lacks_pair(glfw_profile(app.core_profile), '3', '/'),
        !app.core_profile ==> lacks_pair(glfw_profile(app.core_profile), 'R', 'E'),
        app.core_profile ==> lacks_pair(glfw_profile(app.core_profile), 'M', 'P'),
        lacks_pair(glfw_profile(app.core_profile), 'T', ','),
        glfw_profile(app.core_profile).len() > 0,
        glfw_profile(app.core_profile)[0] == 'G',
        glfw_profile(app.core_profile).last() == 'E',
{
    reveal_strlit("GLFW_OPENGL_CORE_PROFILE");
    reveal_strlit("GLFW_OPENGL_COMPAT_PROFILE");
}

/// Which of the letter pairs that mark headers and settings `"GLFW_OPENGL_DEBUG_CONTEXT"@` holds,
/// and how it starts and ends.
proof fn lemma_piece_glfw_opengl_debug_context()
    ensures
        lacks_pair("GLFW_OPENGL_DEBUG_CONTEXT"@, 'd', '.'),
        lacks_pair("GLFW_OPENGL_DEBUG_CONTEXT"@, 'l', '.'),
        lacks_pair("GLFW_OPENGL_DEBUG_CONTEXT"@, 'L', '/'),
        lacks_pair("GLFW_OPENGL_DEBUG_CONTEXT"@, 'W', '/'),
        lacks_pair("GLFW_OPENGL_DEBUG_CONTEXT"@, '3', '/'),
        lacks_pair("GLFW_OPENGL_DEBUG_CONTEXT"@, 'R', 'E'),
        lacks_pair("GLFW_OPENGL_DEBUG_CONTEXT"@, 'M', 'P'),
        lacks_pair("GLFW_OPENGL_DEBUG_CONTEXT"@, 'T', ','),
        "GLFW_OPENGL_DEBUG_CONTEXT"@.len() > 0,
        "GLFW_OPENGL_DEBUG_CONTEXT"@[0] == 'G',
        "GLFW_OPENGL_DEBUG_CONTEXT"@.last() == 'T',
{
    reveal_strlit("GLFW_OPENGL_DEBUG_CONTEXT");
}

/// Which of the letter pairs that mark headers and settings `glfw_flag(app.debug_context)` holds,
/// and how it starts and ends.
proof fn lemma_piece_debug_flag(app: App)
    ensures
        lacks_pair(glfw_flag(app.debug_context), 'd', '.'),
        lacks_pair(glfw_flag(app.debug_context), 'l', '.'),
        lacks_pair(glfw_flag(app.debug_context), 'L', '/'),
        lacks_pair(glfw_flag(app.debug_context), 'W', '/'),
        lacks_pair(glfw_flag(app.debug_context), '3', '/'),
        lacks_pair(glfw_flag(app.debug_context), 'R', 'E'),
        lacks_pair(glfw_flag(app.debug_context), 'M', 'P'),
        lacks_pair(glfw_flag(app.debug_context), 'T', ','),
        glfw_flag(app.debug_context).len() > 0,
        glfw_flag(app.debug_context)[0] == 'G',
        glfw_flag(app.debug_context).last() == 'E',
{
    reveal_strlit("GLFW_TRUE");
    reveal_strlit("GLFW_FALSE");
}

/// Which of the letter pairs that mark headers and settings `"GLFW_SRGB_CAPABLE"@` holds,
/// and how it starts and ends.
proof fn lemma_piece_glfw_srgb_capable()
    ensures
        lacks_pair("GLFW_SRGB_CAPABLE"@, 'd', '.'),
        lacks_pair("GLFW_SRGB_CAPABLE"@, 'l', '.'),
        lacks_pair("GLFW_SRGB_CAPABLE"@, 'L', '/'),
        lacks_pair("GLFW_SRGB_CAPABLE"@, 'W', '/'),
        lacks_pair("GLFW_SRGB_CAPABLE"@, '3', '/'),
        lacks_pair("GLFW_SRGB_CAPABLE"@, 'R', 'E'),
        lacks_pair("GLFW_SRGB_CAPABLE"@, 'M', 'P'),
        lacks_pair("GLFW_SRGB_CAPABLE"@, 'T', ','),
        "GLFW_SRGB_CAPABLE"@.len() > 0,
        "GLFW_SRGB_CAPABLE"@[0] == 'G',
        "GLFW_SRGB_CAPABLE"@.last() == 'E',
{
    reveal_strlit("GLFW_SRGB_CAPABLE");
}

/// Which of the letter pairs that mark headers and settings `glfw_flag(app.srgb_framebuffer)` holds,
/// and how it starts and ends.
proof fn lemma_piece_srgb_flag(app: App)
    ensures
        lacks_pair(glfw_flag(app.srgb_framebuffer), 'd', '.'),
        lacks_pair(glfw_flag(app.srgb_framebuffer), 'l', '.'),
        lacks_pair(glfw_flag(app.srgb_framebuffer), 'L', '/'),
        lacks_pair(glfw_flag(app.srgb_framebuffer), 'W', '/'),
        lacks_pair(glfw_flag(app.srgb_framebuffer), '3', '/'),
        lacks_pair(glfw_flag(app.srgb_framebuffer), 'R', 'E'),
        lacks_pair(glfw_flag(app.srgb_framebuffer), 'M', 'P'),
        lacks_pair(glfw_flag(app.srgb_framebuffer), 'T', ','),
        glfw_flag(app.srgb_framebuffer).len() > 0,
        glfw_flag(app.srgb_framebuffer)[0] == 'G',
        glfw_flag(app.srgb_framebuffer).last() == 'E',
{
    reveal_strlit("GLFW_TRUE");
    reveal_strlit("GLFW_FALSE");
}

/// Which of the letter pairs that mark headers and settings `GLFW_WINDOW_OPEN@` holds,
/// and how it starts and ends.
proof fn lemma_piece_glfw_window_open()
    ensures
        lacks_pair(GLFW_WINDOW_OPEN@, 'd', '.'),
        lacks_pair(GLFW_WINDOW_OPEN@, 'l', '.'),
        lacks_pair(GLFW_WINDOW_OPEN@, 'L', '/'),
        lacks_pair(GLFW_WINDOW_OPEN@, 'W', '/'),
        lacks_pair(GLFW_WINDOW_OPEN@, '3', '/'),
        lacks_pair(GLFW_WINDOW_OPEN@, 'R', 'E'),
        lacks_pair(GLFW_WINDOW_OPEN@, 'M', 'P'),
        lacks_pair(GLFW_WINDOW_OPEN@, 'T', ','),
        GLFW_WINDOW_OPEN@.len() > 0,
        GLFW_WINDOW_OPEN@[0] == '\n',
        GLFW_WINDOW_OPEN@.last() == ' ',
{
    reveal_strlit("\n\n    GLFWwindow* window = ");
}

/// Which of the letter pairs that mark headers and settings `"glfwCreateWindow(1280, 720, \""@` holds,
/// and how it starts and ends.
proof fn lemma_piece_glfwcreatewindow_1280_720()
    ensures
        lacks_pair("glfwCreateWindow(1280, 720, \""@, 'd', '.'),
        lacks_pair("glfwCreateWindow(1280, 720, \""@, 'l', '.'),
        lacks_pair("glfwCreateWindow(1280, 720, \""@, 'L', '/'),
        lacks_pair("glfwCreateWindow(1280, 720, \""@, 'W', '/'),
        lacks_pair("glfwCreateWindow(1280, 720, \""@, '3', '/'),
        lacks_pair("glfwCreateWindow(1280, 720, \""@, 'R', 'E'),
        lacks_pair("glfwCreateWindow(1280, 720, \""@, 'M', 'P'),
        lacks_pair("glfwCreateWindow(1280, 720, \""@, 'T', ','),
        "glfwCreateWindow(1280, 720, \""@.len() > 0,
        "glfwCreateWindow(1280, 720, \""@[0] == 'g',
        "glfwCreateWindow(1280, 720, \""@.last() == '"',
{
    reveal_strlit("glfwCreateWindow(1280, 720, \"");
}

/// Which of the letter pairs that mark headers and settings `"\", nullptr, nullptr);"@` holds,
/// and how it starts and ends.
proof fn lemma_piece_glfw_window_call_close()
    ensures
        lacks_pair("\", nullptr, nullptr);"@, 'd', '.'),
        lacks_pair("\", nullptr, nullptr);"@, 'l', '.'),
        lacks_pair("\", nullptr, nullptr);"@, 'L', '/'),
        lacks_pair("\", nullptr, nullptr);"@, 'W', '/'),
        lacks_pair("\", nullptr, nullptr);"@, '3', '/'),
        lacks_pair("\", nullptr, nullptr);"@, 'R', 'E'),
        lacks_pair("\", nullptr, nullptr);"@, 'M', 'P'),
        lacks_pair("\", nullptr, nullptr);"@, 'T', ','),
        "\", nullptr, nullptr);"@.len() > 0,
        "\", nullptr, nullptr);"@[0] == '"',
        "\", nullptr, nullptr);"@.last() == ';',
{
    reveal_strlit("\", nullptr, nullptr);");
}

/// Which of the letter pairs that mark headers and settings `GLFW_CONTEXT_READY@` holds,
/// and how it starts and ends.
proof fn lemma_piece_glfw_context_ready()
    ensures
        lacks_pair(GLFW_CONTEXT_READY@, 'd', '.'),
        lacks_pair(GLFW_CONTEXT_READY@, 'l', '.'),
        lacks_pair(GLFW_CONTEXT_READY@, 'L', '/'),
        lacks_pair(GLFW_CONTEXT_READY@, 'W', '/'),
        lacks_pair(GLFW_CONTEXT_READY@, '3', '/'),
        lacks_pair(GLFW_CONTEXT_READY@, 'R', 'E'),
        lacks_pair(GLFW_CONTEXT_READY@, 'M', 'P'),
        lacks_pair(GLFW_CONTEXT_READY@, 'T', ','),
        GLFW_CONTEXT_READY@.len() > 0,
        GLFW_CONTEXT_READY@[0] == '\n',
        GLFW_CONTEXT_READY@.last() == '\n',
{
    reveal_strlit(r#"
    if (!window) {
        std::cerr << "Failed to create GLFW window\n";
        glfwTerminate();
        return -1;
    }

    glfwMakeContextCurrent(window);

"#);
}

/// Which of the letter pairs that mark headers and settings `glfw_loader_init_text(app.gl_loader)` holds,
/// and how it starts and ends.
proof fn lemma_piece_glfw_loader_init_text(app: App)
    ensures
        lacks_pair(glfw_loader_init_text(app.gl_loader), 'd', '.'),
        lacks_pair(glfw_loader_init_text(app.gl_loader), 'l', '.'),
        lacks_pair(glfw_loader_init_text(app.gl_loader), 'L', '/'),
        lacks_pair(glfw_loader_init_text(app.gl_loader), 'W', '/'),
        lacks_pair(glfw_loader_init_text(app.gl_loader), '3', '/'),
        lacks_pair(glfw_loader_init_text(app.gl_loader), 'R', 'E'),
        lacks_pair(glfw_loader_init_text(app.gl_loader), 'M', 'P'),
        lacks_pair(glfw_loader_init_text(app.gl_loader), 'T', ','),
        glfw_loader_init_text(app.gl_loader).len() > 0,
        glfw_loader_init_text(app.gl_loader)[0] == ' ',
        glfw_loader_init_text(app.gl_loader).last() == '}',
{
    reveal_strlit(r#"    if (!gladLoadGLLoader((GLADloadproc)glfwGetProcAddress)) {
        std::cerr << "Failed to initialize glad\n";
        return -1;
    }"#);
    reveal_strlit(r#"    if (!gladLoadGL((GLADloadfunc)glfwGetProcAddress)) {
        std::cerr << "Failed to initialize glad2\n";
        return -1;
    }"#);
    reveal_strlit(r#"    glewExperimental = GL_TRUE;
    const GLenum glew_status = glewInit();
#ifdef GLEW_ERROR_NO_GLX_DISPLAY
    // GLEW reports this on Wayland even though the context is perfectly usable.
    const bool glew_ok = glew_status == GLEW_OK || glew_status == GLEW_ERROR_NO_GLX_DISPLAY;
#else
    const bool glew_ok = glew_status == GLEW_OK;
#endif
    if (!glew_ok) {
        std::cerr << "Failed to initialize GLEW: " << glewGetErrorString(glew_status) << "\n";
        return -1;
    }"#);
}

/// Which of the letter pairs that mark headers and settings `GLFW_RENDER_LOOP@` holds,
/// and how it starts and ends.
proof fn lemma_piece_glfw_render_loop()
    ensures
        lacks_pair(GLFW_RENDER_LOOP@, 'd', '.'),
        lacks_pair(GLFW_RENDER_LOOP@, 'l', '.'),
        lacks_pair(GLFW_RENDER_LOOP@, 'L', '/'),
        lacks_pair(GLFW_RENDER_LOOP@, 'W', '/'),
        lacks_pair(GLFW_RENDER_LOOP@, '3', '/'),
        lacks_pair(GLFW_RENDER_LOOP@, 'R', 'E'),
        lacks_pair(GLFW_RENDER_LOOP@, 'M', 'P'),
        lacks_pair(GLFW_RENDER_LOOP@, 'T', ','),
        GLFW_RENDER_LOOP@.len() > 0,
        GLFW_RENDER_LOOP@[0] == '\n',
        GLFW_RENDER_LOOP@.last() == '\n',
{
    reveal_strlit(r#"

    while (!glfwWindowShouldClose(window)) {
        glClearColor(1.0f, 1.0f, 1.0f, 1.0f);
        glClear(GL_COLOR_BUFFER_BIT);

        glfwSwapBuffers(window);
        glfwPollEvents();
    }

    glfwDestroyWindow(window);
    glfwTerminate();
    return 0;
}
"#);
}

/// Which of the letter pairs that mark headers and settings `SDL_INCLUDE@` holds,
/// and how it starts and ends.
proof fn lemma_piece_sdl_include()
    ensures
        lacks_pair(SDL_INCLUDE@, 'd', '.'),
        lacks_pair(SDL_INCLUDE@, 'l', '.'),
        lacks_pair(SDL_INCLUDE@, 'L', '/'),
        lacks_pair(SDL_INCLUDE@, 'W', '/'),
        lacks_pair(SDL_INCLUDE@, 'R', 'E'),
        lacks_pair(SDL_INCLUDE@, 'M', 'P'),
        lacks_pair(SDL_INCLUDE@, 'T', ','),
        SDL_INCLUDE@.len() > 0,
        SDL_INCLUDE@[0] == '#',
        SDL_INCLUDE@.last() == '>',
{
    reveal_strlit("#include <SDL3/SDL.h>");
}

/// Which of the letter pairs that mark headers and settings `SDL_MAIN_OPEN@` holds,
/// and how it starts and ends.
proof fn lemma_piece_sdl_main_open()
    ensures
        lacks_pair(SDL_MAIN_OPEN@, 'd', '.'),
        lacks_pair(SDL_MAIN_OPEN@, 'l', '.'),
        lacks_pair(SDL_MAIN_OPEN@, 'L', '/'),
        lacks_pair(SDL_MAIN_OPEN@, 'W', '/'),
        lacks_pair(SDL_MAIN_OPEN@, '3', '/'),
        lacks_pair(SDL_MAIN_OPEN@, 'R', 'E'),
        lacks_pair(SDL_MAIN_OPEN@, 'M', 'P'),
        lacks_pair(SDL_MAIN_OPEN@, 'T', ','),
        SDL_MAIN_OPEN@.len() > 0,
        SDL_MAIN_OPEN@[0] == '\n',
        SDL_MAIN_OPEN@.last() == ' ',
{
    reveal_strlit(r#"

int main() {
    if (!SDL_Init(SDL_INIT_VIDEO)) {
        std::cerr << "Failed to initialize SDL3: " << SDL_GetError() << "\n";
        return -1;
    }

    "#);
}

/// Which of the letter pairs that mark headers and settings `"SDL_GL_SetAttribute("@` holds,
/// and how it starts and ends.
proof fn lemma_piece_sdl_gl_setattribute()
    ensures
        lacks_pair("SDL_GL_SetAttribute("@, 'd', '.'),
        lacks_pair("SDL_GL_SetAttribute("@, 'l', '.'),
        lacks_pair("SDL_GL_SetAttribute("@, 'L', '/'),
        lacks_pair("SDL_GL_SetAttribute("@, 'W', '/'),
        lacks_pair("SDL_GL_SetAttribute("@, '3', '/'),
        lacks_pair("SDL_GL_SetAttribute("@, 'R', 'E'),
        lacks_pair("SDL_GL_SetAttribute("@, 'M', 'P'),
        lacks_pair("SDL_GL_SetAttribute("@, 'T', ','),
        "SDL_GL_SetAttribute("@.len() > 0,
        "SDL_GL_SetAttribute("@[0] == 'S',
        "SDL_GL_SetAttribute("@.last() == '(',
{
    reveal_strlit("SDL_GL_SetAttribute(");
}

/// Which of the letter pairs that mark headers and settings `"SDL_GL_CONTEXT_MAJOR_VERSION"@` holds,
/// and how it starts and ends.
proof fn lemma_piece_sdl_gl_context_major_version()
    ensures
        lacks_pair("SDL_GL_CONTEXT_MAJOR_VERSION"@, 'd', '.'),
        lacks_pair("SDL_GL_CONTEXT_MAJOR_VERSION"@, 'l', '.'),
        lacks_pair("SDL_GL_CONTEXT_MAJOR_VERSION"@, 'L', '/'),
        lacks_pair("SDL_GL_CONTEXT_MAJOR_VERSION"@, 'W', '/'),
        lacks_pair("SDL_GL_CONTEXT_MAJOR_VERSION"@, '3', '/'),
        lacks_pair("SDL_GL_CONTEXT_MAJOR_VERSION"@, 'R', 'E'),
        lacks_pair("SDL_GL_CONTEXT_MAJOR_VERSION"@, 'M', 'P'),
        lacks_pair("SDL_GL_CONTEXT_MAJOR_VERSION"@, 'T', ','),
        "SDL_GL_CONTEXT_MAJOR_VERSION"@.len() > 0,
        "SDL_GL_CONTEXT_MAJOR_VERSION"@[0] == 'S',
        "SDL_GL_CONTEXT_MAJOR_VERSION"@.last() == 'N',
{
    reveal_strlit("SDL_GL_CONTEXT_MAJOR_VERSION");
}

/// Which of the letter pairs that mark headers and settings `"SDL_GL_CONTEXT_MINOR_VERSION"@` holds,
/// and how it starts and ends.
proof fn lemma_piece_sdl_gl_context_minor_version()
    ensures
        lacks_pair("SDL_GL_CONTEXT_MINOR_VERSION"@, 'd', '.'),
        lacks_pair("SDL_GL_CONTEXT_MINOR_VERSION"@, 'l', '.'),
        lacks_pair("SDL_GL_CONTEXT_MINOR_VERSION"@, 'L', '/'),
        lacks_pair("SDL_GL_CONTEXT_MINOR_VERSION"@, 'W', '/'),
        lacks_pair("SDL_GL_CONTEXT_MINOR_VERSION"@, '3', '/'),
        lacks_pair("SDL_GL_CONTEXT_MINOR_VERSION"@, 'R', 'E'),
        lacks_pair("SDL_GL_CONTEXT_MINOR_VERSION"@, 'M', 'P'),
        lacks_pair("SDL_GL_CONTEXT_MINOR_VERSION"@, 'T', ','),
        "SDL_GL_CONTEXT_MINOR_VERSION"@.len() > 0,
        "SDL_GL_CONTEXT_MINOR_VERSION"@[0] == 'S',
        "SDL_GL_CONTEXT_MINOR_VERSION"@.last() == 'N',
{
    reveal_strlit("SDL_GL_CONTEXT_MINOR_VERSION");
}

/// Which of the letter pairs that mark headers and settings `"SDL_GL_CONTEXT_PROFILE_MASK"@` holds,
/// and how it starts and ends.
proof fn lemma_piece_sdl_gl_context_profile_mask()
    ensures
        lacks_pair("SDL_GL_CONTEXT_PROFILE_MASK"@, 'd', '.'),
        lacks_pair("SDL_GL_CONTEXT_PROFILE_MASK"@, 'l', '.'),
        lacks_pair("SDL_GL_CONTEXT_PROFILE_MASK"@, 'L', '/'),
        lacks_pair("SDL_GL_CONTEXT_PROFILE_MASK"@, 'W', '/'),
        lacks_pair("SDL_GL_CONTEXT_PROFILE_MASK"@, '3', '/'),
        lacks_pair("SDL_GL_CONTEXT_PROFILE_MASK"@, 'R', 'E'),
        lacks_pair("SDL_GL_CONTEXT_PROFILE_MASK"@, 'M', 'P'),
        lacks_pair("SDL_GL_CONTEXT_PROFILE_MASK"@, 'T', ','),
        "SDL_GL_CONTEXT_PROFILE_MASK"@.len() > 0,
        "SDL_GL_CONTEXT_PROFILE_MASK"@[0] == 'S',
        "SDL_GL_CONTEXT_PROFILE_MASK"@.last() == 'K',
{
    reveal_strlit("SDL_GL_CONTEXT_PROFILE_MASK");
}

/// Which of the letter pairs that mark headers and settings `sdl_profile(app.core_profile)` holds,
/// and how it starts and ends.
proof fn lemma_piece_sdl_profile(app: App)
    ensures
        lacks_pair(sdl_profile(app.core_profile), 'd', '.'),
        lacks_pair(sdl_profile(app.core_profile), 'l', '.'),
        lacks_pair(sdl_profile(app.core_profile), 'L', '/'),
        lacks_pair(sdl_profile(app.core_profile), 'W', '/'),
        lacks_pair(sdl_profile(app.core_profile), '3', '/'),
        !app.core_profile ==> lacks_pair(sdl_profile(app.core_profile), 'R', 'E'),
        app.core_profile ==> lacks_pair(sdl_profile(app.core_profile), 'M', 'P'),
        lacks_pair(sdl_profile(app.core_profile), 'T', ','),
        sdl_profile(app.core_profile).len() > 0,
        sdl_profile(app.core_profile)[0] == 'S',
{
    reveal_strlit("SDL_GL_CONTEXT_PROFILE_CORE");
    reveal_strlit("SDL_GL_CONTEXT_PROFILE_COMPATIBILITY");
}

/// Which of the letter pairs that mark headers and settings `"SDL_GL_FRAMEBUFFER_SRGB_CAPABLE"@` holds,
/// and how it starts and ends.
proof fn lemma_piece_sdl_gl_framebuffer_srgb_capable()
    ensures
        lacks_pair("SDL_GL_FRAMEBUFFER_SRGB_CAPABLE"@, 'd', '.'),
        lacks_pair("SDL_GL_FRAMEBUFFER_SRGB_CAPABLE"@, 'l', '.'),
        lacks_pair("SDL_GL_FRAMEBUFFER_SRGB_CAPABLE"@, 'L', '/'),
        lacks_pair("SDL_GL_FRAMEBUFFER_SRGB_CAPABLE"@, 'W', '/'),
        lacks_pair("SDL_GL_FRAMEBUFFER_SRGB_CAPABLE"@, '3', '/'),
        lacks_pair("SDL_GL_FRAMEBUFFER_SRGB_CAPABLE"@, 'R', 'E'),
        lacks_pair("SDL_GL_FRAMEBUFFER_SRGB_CAPABLE"@, 'M', 'P'),
        lacks_pair("SDL_GL_FRAMEBUFFER_SRGB_CAPABLE"@, 'T', ','),
        "SDL_GL_FRAMEBUFFER_SRGB_CAPABLE"@.len() > 0,
        "SDL_GL_FRAMEBUFFER_SRGB_CAPABLE"@[0] == 'S',
        "SDL_GL_FRAMEBUFFER_SRGB_CAPABLE"@.last() == 'E',
{
    reveal_strlit("SDL_GL_FRAMEBUFFER_SRGB_CAPABLE");
}

/// Which of the letter pairs that mark headers and settings `sdl_srgb_value(app)` holds,
/// and how it starts and ends.
proof fn lemma_piece_sdl_srgb_value(app: App)
    ensures
        lacks_pair(sdl_srgb_value(app), 'd', '.'),
        lacks_pair(sdl_srgb_value(app), 'l', '.'),
        lacks_pair(sdl_srgb_value(app), 'L', '/'),
        lacks_pair(sdl_srgb_value(app), 'W', '/'),
        lacks_pair(sdl_srgb_value(app), '3', '/'),
        lacks_pair(sdl_srgb_value(app), 'R', 'E'),
        lacks_pair(sdl_srgb_value(app), 'M', 'P'),
        lacks_pair(sdl_srgb_value(app), 'T', ','),
        sdl_srgb_value(app).len() > 0,
{
    reveal_strlit("1");
    reveal_strlit("0");
}

/// Which of the letter pairs that mark headers and settings `SDL_WINDOW_OPEN@` holds,
/// and how it starts and ends.
proof fn lemma_piece_sdl_window_open()
    ensures
        lacks_pair(SDL_WINDOW_OPEN@, 'd', '.'),
        lacks_pair(SDL_WINDOW_OPEN@, 'l', '.'),
        lacks_pair(SDL_WINDOW_OPEN@, 'L', '/'),
        lacks_pair(SDL_WINDOW_OPEN@, 'W', '/'),
        lacks_pair(SDL_WINDOW_OPEN@, '3', '/'),
        lacks_pair(SDL_WINDOW_OPEN@, 'R', 'E'),
        lacks_pair(SDL_WINDOW_OPEN@, 'M', 'P'),
        lacks_pair(SDL_WINDOW_OPEN@, 'T', ','),
        SDL_WINDOW_OPEN@.len() > 0,
        SDL_WINDOW_OPEN@[0] == '\n',
        SDL_WINDOW_OPEN@.last() == ' ',
{
    reveal_strlit("\n\n    SDL_Window* window = ");
}

/// Which of the letter pairs that mark headers and settings `"SDL_CreateWindow(\""@` holds,
/// and how it starts and ends.
proof fn lemma_piece_sdl_createwindow()
    ensures
        lacks_pair("SDL_CreateWindow(\""@, 'd', '.'),
        lacks_pair("SDL_CreateWindow(\""@, 'l', '.'),
        lacks_pair("SDL_CreateWindow(\""@, 'L', '/'),
        lacks_pair("SDL_CreateWindow(\""@, 'W', '/'),
        lacks_pair("SDL_CreateWindow(\""@, '3', '/'),
        lacks_pair("SDL_CreateWindow(\""@, 'R', 'E'),
        lacks_pair("SDL_CreateWindow(\""@, 'M', 'P'),
        lacks_pair("SDL_CreateWindow(\""@, 'T', ','),
        "SDL_CreateWindow(\""@.len() > 0,
        "SDL_CreateWindow(\""@[0] == 'S',
        "SDL_CreateWindow(\""@.last() == '"',
{
    reveal_strlit("SDL_CreateWindow(\"");
}

/// Which of the letter pairs that mark headers and settings `"\", 1280, 720, SDL_WINDOW_OPENGL | SDL_WINDOW_RESIZABLE);"@` holds,
/// and how it starts and ends.
proof fn lemma_piece_sdl_window_call_close()
    ensures
        lacks_pair("\", 1280, 720, SDL_WINDOW_OPENGL | SDL_WINDOW_RESIZABLE);"@, 'd', '.'),
        lacks_pair("\", 1280, 720, SDL_WINDOW_OPENGL | SDL_WINDOW_RESIZABLE);"@, 'l', '.'),
        lacks_pair("\", 1280, 720, SDL_WINDOW_OPENGL | SDL_WINDOW_RESIZABLE);"@, 'L', '/'),
        lacks_pair("\", 1280, 720, SDL_WINDOW_OPENGL | SDL_WINDOW_RESIZABLE);"@, 'W', '/'),
        lacks_pair("\", 1280, 720, SDL_WINDOW_OPENGL | SDL_WINDOW_RESIZABLE);"@, '3', '/'),
        lacks_pair("\", 1280, 720, SDL_WINDOW_OPENGL | SDL_WINDOW_RESIZABLE);"@, 'M', 'P'),
        lacks_pair("\", 1280, 720, SDL_WINDOW_OPENGL | SDL_WINDOW_RESIZABLE);"@, 'T', ','),
        "\", 1280, 720, SDL_WINDOW_OPENGL | SDL_WINDOW_RESIZABLE);"@.len() > 0,
        "\", 1280, 720, SDL_WINDOW_OPENGL | SDL_WINDOW_RESIZABLE);"@[0] == '"',
        "\", 1280, 720, SDL_WINDOW_OPENGL | SDL_WINDOW_RESIZABLE);"@.last() == ';',
{
    reveal_strlit("\", 1280, 720, SDL_WINDOW_OPENGL | SDL_WINDOW_RESIZABLE);");
}

/// Which of the letter pairs that mark headers and settings `SDL_CONTEXT_READY@` holds,
/// and how it starts and ends.
proof fn lemma_piece_sdl_context_ready()
    ensures
        lacks_pair(SDL_CONTEXT_READY@, 'd', '.'),
        lacks_pair(SDL_CONTEXT_READY@, 'l', '.'),
        lacks_pair(SDL_CONTEXT_READY@, 'L', '/'),
        lacks_pair(SDL_CONTEXT_READY@, 'W', '/'),
        lacks_pair(SDL_CONTEXT_READY@, '3', '/'),
        lacks_pair(SDL_CONTEXT_READY@, 'R', 'E'),
        lacks_pair(SDL_CONTEXT_READY@, 'M', 'P'),
        lacks_pair(SDL_CONTEXT_READY@, 'T', ','),
        SDL_CONTEXT_READY@.len() > 0,
        SDL_CONTEXT_READY@[0] == '\n',
        SDL_CONTEXT_READY@.last() == '\n',
{
    reveal_strlit(r#"
    if (!window) {
        std::cerr << "Failed to create SDL3 window: " << SDL_GetError() << "\n";
        SDL_Quit();
        return -1;
    }

    SDL_GLContext gl_context = SDL_GL_CreateContext(window);
    if (!gl_context) {
        std::cerr << "Failed to create OpenGL context: " << SDL_GetError() << "\n";
        SDL_DestroyWindow(window);
        SDL_Quit();
        return -1;
    }

"#);
}

/// Which of the letter pairs that mark headers and settings `sdl_loader_init_text(app.gl_loader)` holds,
/// and how it starts and ends.
proof fn lemma_piece_sdl_loader_init_text(app: App)
    ensures
        lacks_pair(sdl_loader_init_text(app.gl_loader), 'd', '.'),
        lacks_pair(sdl_loader_init_text(app.gl_loader), 'l', '.'),
        lacks_pair(sdl_loader_init_text(app.gl_loader), 'L', '/'),
        lacks_pair(sdl_loader_init_text(app.gl_loader), 'W', '/'),
        lacks_pair(sdl_loader_init_text(app.gl_loader), '3', '/'),
        lacks_pair(sdl_loader_init_text(app.gl_loader), 'R', 'E'),
        lacks_pair(sdl_loader_init_text(app.gl_loader), 'M', 'P'),
        lacks_pair(sdl_loader_init_text(app.gl_loader), 'T', ','),
        sdl_loader_init_text(app.gl_loader).len() > 0,
        sdl_loader_init_text(app.gl_loader)[0] == ' ',
        sdl_loader_init_text(app.gl_loader).last() == '}',
{
    reveal_strlit(r#"    if (!gladLoadGLLoader((GLADloadproc)SDL_GL_GetProcAddress)) {
        std::cerr << "Failed to initialize glad\n";
        return -1;
    }"#);
    reveal_strlit(r#"    if (!gladLoadGL((GLADloadfunc)SDL_GL_GetProcAddress)) {
        std::cerr << "Failed to initialize glad2\n";
        return -1;
    }"#);
    reveal_strlit(r#"    glewExperimental = GL_TRUE;
    const GLenum glew_status = glewInit();
#ifdef GLEW_ERROR_NO_GLX_DISPLAY
    // GLEW reports this on Wayland even though the context is perfectly usable.
    const bool glew_ok = glew_status == GLEW_OK || glew_status == GLEW_ERROR_NO_GLX_DISPLAY;
#else
    const bool glew_ok = glew_status == GLEW_OK;
#endif
    if (!glew_ok) {
        std::cerr << "Failed to initialize GLEW: " << glewGetErrorString(glew_status) << "\n";
        return -1;
    }"#);
}

/// Which of the letter pairs that mark headers and settings `SDL_RENDER_LOOP@` holds,
/// and how it starts and ends.
proof fn lemma_piece_sdl_render_loop()
    ensures
        lacks_pair(SDL_RENDER_LOOP@, 'd', '.'),
        lacks_pair(SDL_RENDER_LOOP@, 'l', '.'),
        lacks_pair(SDL_RENDER_LOOP@, 'L', '/'),
        lacks_pair(SDL_RENDER_LOOP@, 'W', '/'),
        lacks_pair(SDL_RENDER_LOOP@, '3', '/'),
        lacks_pair(SDL_RENDER_LOOP@, 'R', 'E'),
        lacks_pair(SDL_RENDER_LOOP@, 'M', 'P'),
        lacks_pair(SDL_RENDER_LOOP@, 'T', ','),
        SDL_RENDER_LOOP@.len() > 0,
        SDL_RENDER_LOOP@[0] == '\n',
        SDL_RENDER_LOOP@.last() == '\n',
{
    reveal_strlit(r#"

    bool running = true;
    while (running) {
        SDL_Event event;
        while (SDL_PollEvent(&event)) {
            if (event.type == SDL_EVENT_QUIT) {
                running = false;
            }
        }

        glClearColor(1.0f, 1.0f, 1.0f, 1.0f);
        glClear(GL_COLOR_BUFFER_BIT);
        SDL_GL_SwapWindow(window);
    }

    SDL_GL_DestroyContext(gl_context);
    SDL_DestroyWindow(window);
    SDL_Quit();
    return 0;
}
"#);
}

/// A setting call `open` `name`, `value`) has no `c` right before a `d`
/// when none of its pieces has one and no piece that ends with `c` is
/// followed by one that starts with `d`.
proof fn lemma_call_lacks_pair(open: Seq<char>, name: Seq<char>, value: Seq<char>, c: char, d: char)
    requires
        lacks_pair(open, c, d),
        lacks_pair(name, c, d),
        lacks_pair(", "@, c, d),
        lacks_pair(value, c, d),
        lacks_pair(");"@, c, d),
        open.len() > 0,
        name.len() > 0,
        ", "@.len() > 0,
        value.len() > 0,
        ");"@.len() > 0,
        open.last() != c || name[0] != d,
        name.last() != c || ", "@[0] != d,
        ", "@.last() != c || value[0] != d,
        value.last() != c || ");"@[0] != d,
    ensures
        lacks_pair(open + name + ", "@ + value + ");"@, c, d),
        (open + name + ", "@ + value + ");"@).len() > 0,
        (open + name + ", "@ + value + ");"@)[0] == open[0],
        (open + name + ", "@ + value + ");"@).last() == ");"@.last(),
{
    let s2 = open + name;
    let s3 = s2 + ", "@;
    let s4 = s3 + value;
    lemma_lacks_pair_join(open, name, c, d);
    assert(s2.last() == name.last());
    lemma_lacks_pair_join(s2, ", "@, c, d);
    assert(s3.last() == ", "@.last());
    lemma_lacks_pair_join(s3, value, c, d);
    assert(s4.last() == value.last());
    lemma_lacks_pair_join(s4, ");"@, c, d);
}

/// The GLFW `main.cpp` up to the debug hint has no `c` right before a `d` when none of its pieces has one
/// and no piece that ends with `c` is followed by one that starts with `d`.
proof fn lemma_glfw_before_debug_lacks_pair(app: App, c: char, d: char)
    requires
        (d as int) < 48 || (d as int) > 57,
        lacks_pair(IOSTREAM_INCLUDE@, c, d),
        IOSTREAM_INCLUDE@.len() > 0,
        lacks_pair(loader_include(app.gl_loader), c, d),
        loader_include(app.gl_loader).len() > 0,
        lacks_pair("\n"@, c, d),
        "\n"@.len() > 0,
        lacks_pair(GLFW_INCLUDE@, c, d),
        GLFW_INCLUDE@.len() > 0,
        lacks_pair(GLFW_MAIN_OPEN@, c, d),
        GLFW_MAIN_OPEN@.len() > 0,
        lacks_pair("glfwWindowHint("@, c, d),
        "glfwWindowHint("@.len() > 0,
        lacks_pair("GLFW_CONTEXT_VERSION_MAJOR"@, c, d),
        "GLFW_CONTEXT_VERSION_MAJOR"@.len() > 0,
        lacks_pair(", "@, c, d),
        ", "@.len() > 0,
        lacks_pair(");"@, c, d),
        ");"@.len() > 0,
        "glfwWindowHint("@.last() != c || "GLFW_CONTEXT_VERSION_MAJOR"@[0] != d,
        "GLFW_CONTEXT_VERSION_MAJOR"@.last() != c || ", "@[0] != d,
        ");"@[0] != d,
        lacks_pair(STATEMENT_BREAK@, c, d),
        STATEMENT_BREAK@.len() > 0,
        lacks_pair("GLFW_CONTEXT_VERSION_MINOR"@, c, d),
        "GLFW_CONTEXT_VERSION_MINOR"@.len() > 0,
        "glfwWindowHint("@.last() != c || "GLFW_CONTEXT_VERSION_MINOR"@[0] != d,
        "GLFW_CONTEXT_VERSION_MINOR"@.last() != c || ", "@[0] != d,
        lacks_pair("GLFW_OPENGL_PROFILE"@, c, d),
        "GLFW_OPENGL_PROFILE"@.len() > 0,
        "glfwWindowHint("@.last() != c || "GLFW_OPENGL_PROFILE"@[0] != d,
        "GLFW_OPENGL_PROFILE"@.last() != c || ", "@[0] != d,
        lacks_pair(glfw_profile(app.core_profile), c, d),
        glfw_profile(app.core_profile).len() > 0,
        ", "@.last() != c || glfw_profile(app.core_profile)[0] != d,
        glfw_profile(app.core_profile).last() != c || ");"@[0] != d,
        IOSTREAM_INCLUDE@.last() != c || loader_include(app.gl_loader)[0] != d,
        loader_include(app.gl_loader).last() != c || "\n"@[0] != d,
        "\n"@.last() != c || GLFW_INCLUDE@[0] != d,
        GLFW_INCLUDE@.last() != c || GLFW_MAIN_OPEN@[0] != d,
        GLFW_MAIN_OPEN@.last() != c || "glfwWindowHint("@[0] != d,
        ");"@.last() != c || STATEMENT_BREAK@[0] != d,
        STATEMENT_BREAK@.last() != c || "glfwWindowHint("@[0] != d,
    ensures
        lacks_pair(glfw_before_debug(app), c, d),
        glfw_before_debug(app).len() > 0,
        glfw_before_debug(app)[0] == IOSTREAM_INCLUDE@[0],
        glfw_before_debug(app).last() == STATEMENT_BREAK@.last(),
{
    lemma_decimal_lacks(app.opengl_major as nat, d);
    lemma_lacks_gives_pair(decimal(app.opengl_major as nat), c, d);
    lemma_call_lacks_pair("glfwWindowHint("@, "GLFW_CONTEXT_VERSION_MAJOR"@, decimal(app.opengl_major as nat), c, d);
    lemma_decimal_lacks(app.opengl_minor as nat, d);
    lemma_lacks_gives_pair(decimal(app.opengl_minor as nat), c, d);
    lemma_call_lacks_pair("glfwWindowHint("@, "GLFW_CONTEXT_VERSION_MINOR"@, decimal(app.opengl_minor as nat), c, d);
    lemma_call_lacks_pair("glfwWindowHint("@, "GLFW_OPENGL_PROFILE"@, glfw_profile(app.core_profile), c, d);
    let s2 = IOSTREAM_INCLUDE@ + loader_include(app.gl_loader);
    let s3 = s2 + "\n"@;
    let s4 = s3 + GLFW_INCLUDE@;
    let s5 = s4 + GLFW_MAIN_OPEN@;
    let s6 = s5 + glfw_hint("GLFW_CONTEXT_VERSION_MAJOR"@, decimal(app.opengl_major as nat));
    let s7 = s6 + STATEMENT_BREAK@;
    let s8 = s7 + glfw_hint("GLFW_CONTEXT_VERSION_MINOR"@, decimal(app.opengl_minor as nat));
    let s9 = s8 + STATEMENT_BREAK@;
    let s10 = s9 + glfw_hint("GLFW_OPENGL_PROFILE"@, glfw_profile(app.core_profile));
    let s11 = s10 + STATEMENT_BREAK@;
    assert(IOSTREAM_INCLUDE@.last() == IOSTREAM_INCLUDE@.last());
    lemma_lacks_pair_join(IOSTREAM_INCLUDE@, loader_include(app.gl_loader), c, d);
    assert(s2.last() == loader_include(app.gl_loader).last());
    lemma_lacks_pair_join(s2, "\n"@, c, d);
    assert(s3.last() == "\n"@.last());
    lemma_lacks_pair_join(s3, GLFW_INCLUDE@, c, d);
    assert(s4.last() == GLFW_INCLUDE@.last());
    lemma_lacks_pair_join(s4, GLFW_MAIN_OPEN@, c, d);
    assert(s5.last() == GLFW_MAIN_OPEN@.last());
    assert(glfw_hint("GLFW_CONTEXT_VERSION_MAJOR"@, decimal(app.opengl_major as nat))[0] == "glfwWindowHint("@[0]);
    lemma_lacks_pair_join(s5, glfw_hint("GLFW_CONTEXT_VERSION_MAJOR"@, decimal(app.opengl_major as nat)), c, d);
    assert(s6.last() == ");"@.last());
    lemma_lacks_pair_join(s6, STATEMENT_BREAK@, c, d);
    assert(s7.last() == STATEMENT_BREAK@.last());
    assert(glfw_hint("GLFW_CONTEXT_VERSION_MINOR"@, decimal(app.opengl_minor as nat))[0] == "glfwWindowHint("@[0]);
    lemma_lacks_pair_join(s7, glfw_hint("GLFW_CONTEXT_VERSION_MINOR"@, decimal(app.opengl_minor as nat)), c, d);
    assert(s8.last() == ");"@.last());
    lemma_lacks_pair_join(s8, STATEMENT_BREAK@, c, d);
    assert(s9.last() == STATEMENT_BREAK@.last());
    assert(glfw_hint("GLFW_OPENGL_PROFILE"@, glfw_profile(app.core_profile))[0] == "glfwWindowHint("@[0]);
    lemma_lacks_pair_join(s9, glfw_hint("GLFW_OPENGL_PROFILE"@, glfw_profile(app.core_profile)), c, d);
    assert(s10.last() == ");"@.last());
    lemma_lacks_pair_join(s10, STATEMENT_BREAK@, c, d);
}

/// The GLFW `main.cpp` after the debug hint has no `c` right before a `d` when none of its pieces has one
/// and no piece that ends with `c` is followed by one that starts with `d`.
proof fn lemma_glfw_after_debug_lacks_pair(app: App, c: char, d: char)
    requires
        lacks_pair(STATEMENT_BREAK@, c, d),
        STATEMENT_BREAK@.len() > 0,
        lacks_pair("glfwWindowHint("@, c, d),
        "glfwWindowHint("@.len() > 0,
        lacks_pair("GLFW_SRGB_CAPABLE"@, c, d),
        "GLFW_SRGB_CAPABLE"@.len() > 0,
        lacks_pair(", "@, c, d),
        ", "@.len() > 0,
        lacks_pair(");"@, c, d),
        ");"@.len() > 0,
        "glfwWindowHint("@.last() != c || "GLFW_SRGB_CAPABLE"@[0] != d,
        "GLFW_SRGB_CAPABLE"@.last() != c || ", "@[0] != d,
        lacks_pair(glfw_flag(app.srgb_framebuffer), c, d),
        glfw_flag(app.srgb_framebuffer).len() > 0,
        ", "@.last() != c || glfw_flag(app.srgb_framebuffer)[0] != d,
        glfw_flag(app.srgb_framebuffer).last() != c || ");"@[0] != d,
        lacks_pair(GLFW_WINDOW_OPEN@, c, d),
        GLFW_WINDOW_OPEN@.len() > 0,
        lacks_pair("glfwCreateWindow(1280, 720, \""@, c, d),
        "glfwCreateWindow(1280, 720, \""@.len() > 0,
        STATEMENT_BREAK@.last() != c || "glfwWindowHint("@[0] != d,
        ");"@.last() != c || GLFW_WINDOW_OPEN@[0] != d,
        GLFW_WINDOW_OPEN@.last() != c || "glfwCreateWindow(1280, 720, \""@[0] != d,
    ensures
        lacks_pair(glfw_after_debug(app), c, d),
        glfw_after_debug(app).len() > 0,
        glfw_after_debug(app)[0] == STATEMENT_BREAK@[0],
        glfw_after_debug(app).last() == "glfwCreateWindow(1280, 720, \""@.last(),
{
    lemma_call_lacks_pair("glfwWindowHint("@, "GLFW_SRGB_CAPABLE"@, glfw_flag(app.srgb_framebuffer), c, d);
    let s2 = STATEMENT_BREAK@ + glfw_hint("GLFW_SRGB_CAPABLE"@, glfw_flag(app.srgb_framebuffer));
    let s3 = s2 + GLFW_WINDOW_OPEN@;
    let s4 = s3 + "glfwCreateWindow(1280, 720, \""@;
    assert(STATEMENT_BREAK@.last() == STATEMENT_BREAK@.last());
    assert(glfw_hint("GLFW_SRGB_CAPABLE"@, glfw_flag(app.srgb_framebuffer))[0] == "glfwWindowHint("@[0]);
    lemma_lacks_pair_join(STATEMENT_BREAK@, glfw_hint("GLFW_SRGB_CAPABLE"@, glfw_flag(app.srgb_framebuffer)), c, d);
    assert(s2.last() == ");"@.last());
    lemma_lacks_pair_join(s2, GLFW_WINDOW_OPEN@, c, d);
    assert(s3.last() == GLFW_WINDOW_OPEN@.last());
    lemma_lacks_pair_join(s3, "glfwCreateWindow(1280, 720, \""@, c, d);
}

/// The GLFW `main.cpp` after the name has no `c` right before a `d` when none of its pieces has one
/// and no piece that ends with `c` is followed by one that starts with `d`.
proof fn lemma_glfw_tail_lacks_pair(app: App, c: char, d: char)
    requires
        lacks_pair("\", nullptr, nullptr);"@, c, d),
        "\", nullptr, nullptr);"@.len() > 0,
        lacks_pair(GLFW_CONTEXT_READY@, c, d),
        GLFW_CONTEXT_READY@.len() > 0,
        lacks_pair(glfw_loader_init_text(app.gl_loader), c, d),
        glfw_loader_init_text(app.gl_loader).len() > 0,
        lacks_pair(GLFW_RENDER_LOOP@, c, d),
        GLFW_RENDER_LOOP@.len() > 0,
        "\", nullptr, nullptr);"@.last() != c || GLFW_CONTEXT_READY@[0] != d,
        GLFW_CONTEXT_READY@.last() != c || glfw_loader_init_text(app.gl_loader)[0] != d,
        glfw_loader_init_text(app.gl_loader).last() != c || GLFW_RENDER_LOOP@[0] != d,
    ensures
        lacks_pair(glfw_tail(app), c, d),
        glfw_tail(app).len() > 0,
        glfw_tail(app)[0] == "\", nullptr, nullptr);"@[0],
        glfw_tail(app).last() == GLFW_RENDER_LOOP@.last(),
{
    let s2 = "\", nullptr, nullptr);"@ + GLFW_CONTEXT_READY@;
    let s3 = s2 + glfw_loader_init_text(app.gl_loader);
    let s4 = s3 + GLFW_RENDER_LOOP@;
    assert("\", nullptr, nullptr);"@.last() == "\", nullptr, nullptr);"@.last());
    lemma_lacks_pair_join("\", nullptr, nullptr);"@, GLFW_CONTEXT_READY@, c, d);
    assert(s2.last() == GLFW_CONTEXT_READY@.last());
    lemma_lacks_pair_join(s2, glfw_loader_init_text(app.gl_loader), c, d);
    assert(s3.last() == glfw_loader_init_text(app.gl_loader).last());
    lemma_lacks_pair_join(s3, GLFW_RENDER_LOOP@, c, d);
}

/// The SDL3 `main.cpp` up to the name has no `c` right before a `d` when none of its pieces has one
/// and no piece that ends with `c` is followed by one that starts with `d`.
proof fn lemma_sdl_head_lacks_pair(app: App, c: char, d: char)
    requires
        (d as int) < 48 || (d as int) > 57,
        lacks_pair(IOSTREAM_INCLUDE@, c, d),
        IOSTREAM_INCLUDE@.len() > 0,
        lacks_pair(loader_include(app.gl_loader), c, d),
        loader_include(app.gl_loader).len() > 0,
        lacks_pair("\n"@, c, d),
        "\n"@.len() > 0,
        lacks_pair(SDL_INCLUDE@, c, d),
        SDL_INCLUDE@.len() > 0,
        lacks_pair(SDL_MAIN_OPEN@, c, d),
        SDL_MAIN_OPEN@.len() > 0,
        lacks_pair("SDL_GL_SetAttribute("@, c, d),
        "SDL_GL_SetAttribute("@.len() > 0,
        lacks_pair("SDL_GL_CONTEXT_MAJOR_VERSION"@, c, d),
        "SDL_GL_CONTEXT_MAJOR_VERSION"@.len() > 0,
        lacks_pair(", "@, c, d),
        ", "@.len() > 0,
        lacks_pair(");"@, c, d),
        ");"@.len() > 0,
        "SDL_GL_SetAttribute("@.last() != c || "SDL_GL_CONTEXT_MAJOR_VERSION"@[0] != d,
        "SDL_GL_CONTEXT_MAJOR_VERSION"@.last() != c || ", "@[0] != d,
        ");"@[0] != d,
        lacks_pair(STATEMENT_BREAK@, c, d),
        STATEMENT_BREAK@.len() > 0,
        lacks_pair("SDL_GL_CONTEXT_MINOR_VERSION"@, c, d),
        "SDL_GL_CONTEXT_MINOR_VERSION"@.len() > 0,
        "SDL_GL_SetAttribute("@.last() != c || "SDL_GL_CONTEXT_MINOR_VERSION"@[0] != d,
        "SDL_GL_CONTEXT_MINOR_VERSION"@.last() != c || ", "@[0] != d,
        lacks_pair("SDL_GL_CONTEXT_PROFILE_MASK"@, c, d),
        "SDL_GL_CONTEXT_PROFILE_MASK"@.len() > 0,
        "SDL_GL_SetAttribute("@.last() != c || "SDL_GL_CONTEXT_PROFILE_MASK"@[0] != d,
        "SDL_GL_CONTEXT_PROFILE_MASK"@.last() != c || ", "@[0] != d,
        lacks_pair(sdl_profile(app.core_profile), c, d),
        sdl_profile(app.core_profile).len() > 0,
        ", "@.last() != c || sdl_profile(app.core_profile)[0] != d,
        sdl_profile(app.core_profile).last() != c || ");"@[0] != d,
        lacks_pair("SDL_GL_FRAMEBUFFER_SRGB_CAPABLE"@, c, d),
        "SDL_GL_FRAMEBUFFER_SRGB_CAPABLE"@.len() > 0,
        "SDL_GL_SetAttribute("@.last() != c || "SDL_GL_FRAMEBUFFER_SRGB_CAPABLE"@[0] != d,
        "SDL_GL_FRAMEBUFFER_SRGB_CAPABLE"@.last() != c || ", "@[0] != d,
        lacks_pair(sdl_srgb_value(app), c, d),
        sdl_srgb_value(app).len() > 0,
        ", "@.last() != c || sdl_srgb_value(app)[0] != d,
        sdl_srgb_value(app).last() != c || ");"@[0] != d,
        lacks_pair(SDL_WINDOW_OPEN@, c, d),
        SDL_WINDOW_OPEN@.len() > 0,
        lacks_pair("SDL_CreateWindow(\""@, c, d),
        "SDL_CreateWindow(\""@.len() > 0,
        IOSTREAM_INCLUDE@.last() != c || loader_include(app.gl_loader)[0] != d,
        loader_include(app.gl_loader).last() != c || "\n"@[0] != d,
        "\n"@.last() != c || SDL_INCLUDE@[0] != d,
        SDL_INCLUDE@.last() != c || SDL_MAIN_OPEN@[0] != d,
        SDL_MAIN_OPEN@.last() != c || "SDL_GL_SetAttribute("@[0] != d,
        ");"@.last() != c || STATEMENT_BREAK@[0] != d,
        STATEMENT_BREAK@.last() != c || "SDL_GL_SetAttribute("@[0] != d,
        ");"@.last() != c || SDL_WINDOW_OPEN@[0] != d,
        SDL_WINDOW_OPEN@.last() != c || "SDL_CreateWindow(\""@[0] != d,
    ensures
        lacks_pair(sdl_head(app), c, d),
        sdl_head(app).len() > 0,
        sdl_head(app)[0] == IOSTREAM_INCLUDE@[0],
        sdl_head(app).last() == "SDL_CreateWindow(\""@.last(),
{
    lemma_decimal_lacks(app.opengl_major as nat, d);
    lemma_lacks_gives_pair(decimal(app.opengl_major as nat), c, d);
    lemma_call_lacks_pair("SDL_GL_SetAttribute("@, "SDL_GL_CONTEXT_MAJOR_VERSION"@, decimal(app.opengl_major as nat), c, d);
    lemma_decimal_lacks(app.opengl_minor as nat, d);
    lemma_lacks_gives_pair(decimal(app.opengl_minor as nat), c, d);
    lemma_call_lacks_pair("SDL_GL_SetAttribute("@, "SDL_GL_CONTEXT_MINOR_VERSION"@, decimal(app.opengl_minor as nat), c, d);
    lemma_call_lacks_pair("SDL_GL_SetAttribute("@, "SDL_GL_CONTEXT_PROFILE_MASK"@, sdl_profile(app.core_profile), c, d);
    lemma_call_lacks_pair("SDL_GL_SetAttribute("@, "SDL_GL_FRAMEBUFFER_SRGB_CAPABLE"@, sdl_srgb_value(app), c, d);
    let s2 = IOSTREAM_INCLUDE@ + loader_include(app.gl_loader);
    let s3 = s2 + "\n"@;
    let s4 = s3 + SDL_INCLUDE@;
    let s5 = s4 + SDL_MAIN_OPEN@;
    let s6 = s5 + sdl_attribute("SDL_GL_CONTEXT_MAJOR_VERSION"@, decimal(app.opengl_major as nat));
    let s7 = s6 + STATEMENT_BREAK@;
    let s8 = s7 + sdl_attribute("SDL_GL_CONTEXT_MINOR_VERSION"@, decimal(app.opengl_minor as nat));
    let s9 = s8 + STATEMENT_BREAK@;
    let s10 = s9 + sdl_attribute("SDL_GL_CONTEXT_PROFILE_MASK"@, sdl_profile(app.core_profile));
    let s11 = s10 + STATEMENT_BREAK@;
    let s12 = s11 + sdl_attribute("SDL_GL_FRAMEBUFFER_SRGB_CAPABLE"@, sdl_srgb_value(app));
    let s13 = s12 + SDL_WINDOW_OPEN@;
    let s14 = s13 + "SDL_CreateWindow(\""@;
    assert(IOSTREAM_INCLUDE@.last() == IOSTREAM_INCLUDE@.last());
    lemma_lacks_pair_join(IOSTREAM_INCLUDE@, loader_include(app.gl_loader), c, d);
    assert(s2.last() == loader_include(app.gl_loader).last());
    lemma_lacks_pair_join(s2, "\n"@, c, d);
    assert(s3.last() == "\n"@.last());
    lemma_lacks_pair_join(s3, SDL_INCLUDE@, c, d);
    assert(s4.last() == SDL_INCLUDE@.last());
    lemma_lacks_pair_join(s4, SDL_MAIN_OPEN@, c, d);
    assert(s5.last() == SDL_MAIN_OPEN@.last());
    assert(sdl_attribute("SDL_GL_CONTEXT_MAJOR_VERSION"@, decimal(app.opengl_major as nat))[0] == "SDL_GL_SetAttribute("@[0]);
    lemma_lacks_pair_join(s5, sdl_attribute("SDL_GL_CONTEXT_MAJOR_VERSION"@, decimal(app.opengl_major as nat)), c, d);
    assert(s6.last() == ");"@.last());
    lemma_lacks_pair_join(s6, STATEMENT_BREAK@, c, d);
    assert(s7.last() == STATEMENT_BREAK@.last());
    assert(sdl_attribute("SDL_GL_CONTEXT_MINOR_VERSION"@, decimal(app.opengl_minor as nat))[0] == "SDL_GL_SetAttribute("@[0]);
    lemma_lacks_pair_join(s7, sdl_attribute("SDL_GL_CONTEXT_MINOR_VERSION"@, decimal(app.opengl_minor as nat)), c, d);
    assert(s8.last() == ");"@.last());
    lemma_lacks_pair_join(s8, STATEMENT_BREAK@, c, d);
    assert(s9.last() == STATEMENT_BREAK@.last());
    assert(sdl_attribute("SDL_GL_CONTEXT_PROFILE_MASK"@, sdl_profile(app.core_profile))[0] == "SDL_GL_SetAttribute("@[0]);
    lemma_lacks_pair_join(s9, sdl_attribute("SDL_GL_CONTEXT_PROFILE_MASK"@, sdl_profile(app.core_profile)), c, d);
    assert(s10.last() == ");"@.last());
    lemma_lacks_pair_join(s10, STATEMENT_BREAK@, c, d);
    assert(s11.last() == STATEMENT_BREAK@.last());
    assert(sdl_attribute("SDL_GL_FRAMEBUFFER_SRGB_CAPABLE"@, sdl_srgb_value(app))[0] == "SDL_GL_SetAttribute("@[0]);
    lemma_lacks_pair_join(s11, sdl_attribute("SDL_GL_FRAMEBUFFER_SRGB_CAPABLE"@, sdl_srgb_value(app)), c, d);
    assert(s12.last() == ");"@.last());
    lemma_lacks_pair_join(s12, SDL_WINDOW_OPEN@, c, d);
    assert(s13.last() == SDL_WINDOW_OPEN@.last());
    lemma_lacks_pair_join(s13, "SDL_CreateWindow(\""@, c, d);
}

/// The SDL3 `main.cpp` after the name has no `c` right before a `d` when none of its pieces has one
/// and no piece that ends with `c` is followed by one that starts with `d`.
proof fn lemma_sdl_tail_lacks_pair(app: App, c: char, d: char)
    requires
        lacks_pair("\", 1280, 720, SDL_WINDOW_OPENGL | SDL_WINDOW_RESIZABLE);"@, c, d),
        "\", 1280, 720, SDL_WINDOW_OPENGL | SDL_WINDOW_RESIZABLE);"@.len() > 0,
        lacks_pair(SDL_CONTEXT_READY@, c, d),
        SDL_CONTEXT_READY@.len() > 0,
        lacks_pair(sdl_loader_init_text(app.gl_loader), c, d),
        sdl_loader_init_text(app.gl_loader).len() > 0,
        lacks_pair(SDL_RENDER_LOOP@, c, d),
        SDL_RENDER_LOOP@.len() > 0,
        "\", 1280, 720, SDL_WINDOW_OPENGL | SDL_WINDOW_RESIZABLE);"@.last() != c || SDL_CONTEXT_READY@[0] != d,
        SDL_CONTEXT_READY@.last() != c || sdl_loader_init_text(app.gl_loader)[0] != d,
        sdl_loader_init_text(app.gl_loader).last() != c || SDL_RENDER_LOOP@[0] != d,
    ensures
        lacks_pair(sdl_tail(app), c, d),
        sdl_tail(app).len() > 0,
        sdl_tail(app)[0] == "\", 1280, 720, SDL_WINDOW_OPENGL | SDL_WINDOW_RESIZABLE);"@[0],
        sdl_tail(app).last() == SDL_RENDER_LOOP@.last(),
{
    let s2 = "\", 1280, 720, SDL_WINDOW_OPENGL | SDL_WINDOW_RESIZABLE);"@ + SDL_CONTEXT_READY@;
    let s3 = s2 + sdl_loader_init_text(app.gl_loader);
    let s4 = s3 + SDL_RENDER_LOOP@;
    assert("\", 1280, 720, SDL_WINDOW_OPENGL | SDL_WINDOW_RESIZABLE);"@.last() == "\", 1280, 720, SDL_WINDOW_OPENGL | SDL_WINDOW_RESIZABLE);"@.last());
    lemma_lacks_pair_join("\", 1280, 720, SDL_WINDOW_OPENGL | SDL_WINDOW_RESIZABLE);"@, SDL_CONTEXT_READY@, c, d);
    assert(s2.last() == SDL_CONTEXT_READY@.last());
    lemma_lacks_pair_join(s2, sdl_loader_init_text(app.gl_loader), c, d);
    assert(s3.last() == sdl_loader_init_text(app.gl_loader).last());
    lemma_lacks_pair_join(s3, SDL_RENDER_LOOP@, c, d);
}

/// The SDL3 `main.cpp` after the window call has no `c` right before a `d` when none of its pieces has one
/// and no piece that ends with `c` is followed by one that starts with `d`.
proof fn lemma_sdl_after_call_lacks_pair(app: App, c: char, d: char)
    requires
        lacks_pair(SDL_CONTEXT_READY@, c, d),
        SDL_CONTEXT_READY@.len() > 0,
        lacks_pair(sdl_loader_init_text(app.gl_loader), c, d),
        sdl_loader_init_text(app.gl_loader).len() > 0,
        lacks_pair(SDL_RENDER_LOOP@, c, d),
        SDL_RENDER_LOOP@.len() > 0,
        SDL_CONTEXT_READY@.last() != c || sdl_loader_init_text(app.gl_loader)[0] != d,
        sdl_loader_init_text(app.gl_loader).last() != c || SDL_RENDER_LOOP@[0] != d,
    ensures
        lacks_pair(sdl_after_call(app), c, d),
        sdl_after_call(app).len() > 0,
        sdl_after_call(app)[0] == SDL_CONTEXT_READY@[0],
        sdl_after_call(app).last() == SDL_RENDER_LOOP@.last(),
{
    let s2 = SDL_CONTEXT_READY@ + sdl_loader_init_text(app.gl_loader);
    let s3 = s2 + SDL_RENDER_LOOP@;
    assert(SDL_CONTEXT_READY@.last() == SDL_CONTEXT_READY@.last());
    lemma_lacks_pair_join(SDL_CONTEXT_READY@, sdl_loader_init_text(app.gl_loader), c, d);
    assert(s2.last() == sdl_loader_init_text(app.gl_loader).last());
    lemma_lacks_pair_join(s2, SDL_RENDER_LOOP@, c, d);
}

/// The GLFW `main.cpp` up to the name has no `c` right before a `d` when
/// neither its part before the debug hint, nor the hint, nor its part after
/// has one, and none is made where they meet.
proof fn lemma_glfw_head_lacks_pair(app: App, c: char, d: char)
    requires
        lacks_pair(glfw_before_debug(app), c, d),
        lacks_pair(glfw_hint("GLFW_OPENGL_DEBUG_CONTEXT"@, glfw_flag(app.debug_context)), c, d),
        lacks_pair(glfw_after_debug(app), c, d),
        glfw_before_debug(app).len() > 0,
        glfw_after_debug(app).len() > 0,
        glfw_hint("GLFW_OPENGL_DEBUG_CONTEXT"@, glfw_flag(app.debug_context)).len() > 0,
        glfw_before_debug(app).last() != c || glfw_hint("GLFW_OPENGL_DEBUG_CONTEXT"@, glfw_flag(app.debug_context))[0] != d,
        glfw_hint("GLFW_OPENGL_DEBUG_CONTEXT"@, glfw_flag(app.debug_context)).last() != c || glfw_after_debug(app)[0] != d,
    ensures
        lacks_pair(glfw_head(app), c, d),
{
    let m = glfw_hint("GLFW_OPENGL_DEBUG_CONTEXT"@, glfw_flag(app.debug_context));
    lemma_lacks_pair_join(glfw_before_debug(app), m, c, d);
    assert((glfw_before_debug(app) + m).last() == m.last());
    lemma_lacks_pair_join(glfw_before_debug(app) + m, glfw_after_debug(app), c, d);
    assert(glfw_head(app) == glfw_before_debug(app) + m + glfw_after_debug(app));
}

/// The GLFW `main.cpp` around the project name, and its part before the
/// name around the debug-context hint.
proof fn lemma_glfw_split(app: App, project_name: Seq<char>)
    ensures
        glfw_main_text(app, project_name) == glfw_head(app) + project_name + glfw_tail(app),
        glfw_head(app) == glfw_before_debug(app)
            + glfw_hint("GLFW_OPENGL_DEBUG_CONTEXT"@, glfw_flag(app.debug_context))
            + glfw_after_debug(app),
{
    let before = glfw_before_debug(app);
    assert(glfw_main_text(app, project_name) == before + glfw_hint("GLFW_OPENGL_DEBUG_CONTEXT"@, glfw_flag(app.debug_context)) + STATEMENT_BREAK@
        + glfw_hint("GLFW_SRGB_CAPABLE"@, glfw_flag(app.srgb_framebuffer)) + GLFW_WINDOW_OPEN@
        + glfw_create_window(project_name) + GLFW_CONTEXT_READY@ + glfw_loader_init_text(app.gl_loader)
        + GLFW_RENDER_LOOP@);
    assert(glfw_main_text(app, project_name) =~= glfw_head(app) + project_name + glfw_tail(app));
    assert(glfw_head(app) =~= before + glfw_hint("GLFW_OPENGL_DEBUG_CONTEXT"@, glfw_flag(app.debug_context)) + glfw_after_debug(app));
}

/// The SDL3 `main.cpp` around the project name, and its part after the name
/// around the call that opens the window.
proof fn lemma_sdl_split(app: App, project_name: Seq<char>)
    ensures
        sdl_main_text(app, project_name) == sdl_head(app) + project_name + sdl_tail(app),
        sdl_tail(app) == Seq::<char>::empty()
            + "\", 1280, 720, SDL_WINDOW_OPENGL | SDL_WINDOW_RESIZABLE);"@ + sdl_after_call(app),
{
    assert(sdl_main_text(app, project_name) =~= sdl_head(app) + project_name + sdl_tail(app));
    assert(sdl_tail(app) =~= Seq::<char>::empty() + "\", 1280, 720, SDL_WINDOW_OPENGL | SDL_WINDOW_RESIZABLE);"@ + sdl_after_call(app));
}

/// The headers hold no `"`.
proof fn lemma_headers_lack_quote()
    ensures
        forall|loader: GlLoader| lacks(#[trigger] loader_include(loader), '"'),
        lacks(GLFW_INCLUDE@, '"'),
        lacks(SDL_INCLUDE@, '"'),
{
    reveal_strlit("#include <glad/glad.h>");
    reveal_strlit("#include <glad/gl.h>");
    reveal_strlit("#include <GL/glew.h>");
    reveal_strlit("#include <GLFW/glfw3.h>");
    reveal_strlit("#include <SDL3/SDL.h>");
    assert forall|loader: GlLoader| lacks(#[trigger] loader_include(loader), '"') by {
        match loader {
            GlLoader::Glad => {},
            GlLoader::Glad2 => {},
            GlLoader::Glew => {},
        }
    }
}

/// The GLFW `main.cpp` of another loader leaves out the Glad header.
#[verifier::rlimit(40)]
proof fn lemma_glfw_glad_header_absent(app: App, project_name: Seq<char>)
    requires
        app.window_backend == WindowBackend::Glfw,
        app.gl_loader != GlLoader::Glad,
        !contains(project_name, loader_include(GlLoader::Glad)),
        lacks(loader_include(GlLoader::Glad), '"'),
    ensures
        !contains(main_cpp_text(app, project_name), loader_include(GlLoader::Glad)),
{
    let text = main_cpp_text(app, project_name);
    lemma_glfw_split(app, project_name);
    lemma_piece_iostream_include();
    lemma_piece_loader_include(app);
    lemma_piece_line_break();
    lemma_piece_glfw_include();
    lemma_piece_glfw_main_open();
    lemma_piece_glfwwindowhint();
    lemma_piece_glfw_context_version_major();
    lemma_piece_comma();
    lemma_piece_call_close();
    lemma_piece_statement_break();
    lemma_piece_glfw_context_version_minor();
    lemma_piece_glfw_opengl_profile();
    lemma_piece_glfw_profile(app);
    lemma_piece_glfw_opengl_debug_context();
    lemma_piece_debug_flag(app);
    lemma_piece_glfw_srgb_capable();
    lemma_piece_srgb_flag(app);
    lemma_piece_glfw_window_open();
    lemma_piece_glfwcreatewindow_1280_720();
    lemma_piece_glfw_window_call_close();
    lemma_piece_glfw_context_ready();
    lemma_piece_glfw_loader_init_text(app);
    lemma_piece_glfw_render_loop();
    let head = glfw_head(app);
    let tail = glfw_tail(app);
    reveal_strlit("#include <glad/glad.h>");
    lemma_glfw_before_debug_lacks_pair(app, 'd', '.');
    lemma_call_lacks_pair("glfwWindowHint("@, "GLFW_OPENGL_DEBUG_CONTEXT"@, glfw_flag(app.debug_context), 'd', '.');
    lemma_glfw_after_debug_lacks_pair(app, 'd', '.');
    lemma_glfw_head_lacks_pair(app, 'd', '.');
    lemma_glfw_tail_lacks_pair(app, 'd', '.');
    lemma_lacks_pair_not_contains(head, loader_include(GlLoader::Glad), 18);
    lemma_lacks_pair_not_contains(tail, loader_include(GlLoader::Glad), 18);
    if contains(text, loader_include(GlLoader::Glad)) {
        lemma_contains_around(head, project_name, tail, loader_include(GlLoader::Glad));
    }
}

/// The GLFW `main.cpp` of another loader leaves out the Glad2 header.
#[verifier::rlimit(40)]
proof fn lemma_glfw_glad2_header_absent(app: App, project_name: Seq<char>)
    requires
        app.window_backend == WindowBackend::Glfw,
        app.gl_loader != GlLoader::Glad2,
        !contains(project_name, loader_include(GlLoader::Glad2)),
        lacks(loader_include(GlLoader::Glad2), '"'),
    ensures
        !contains(main_cpp_text(app, project_name), loader_include(GlLoader::Glad2)),
{
    let text = main_cpp_text(app, project_name);
    lemma_glfw_split(app, project_name);
    lemma_piece_iostream_include();
    lemma_piece_loader_include(app);
    lemma_piece_line_break();
    lemma_piece_glfw_include();
    lemma_piece_glfw_main_open();
    lemma_piece_glfwwindowhint();
    lemma_piece_glfw_context_version_major();
    lemma_piece_comma();
    lemma_piece_call_close();
    lemma_piece_statement_break();
    lemma_piece_glfw_context_version_minor();
    lemma_piece_glfw_opengl_profile();
    lemma_piece_glfw_profile(app);
    lemma_piece_glfw_opengl_debug_context();
    lemma_piece_debug_flag(app);
    lemma_piece_glfw_srgb_capable();
    lemma_piece_srgb_flag(app);
    lemma_piece_glfw_window_open();
    lemma_piece_glfwcreatewindow_1280_720();
    lemma_piece_glfw_window_call_close();
    lemma_piece_glfw_context_ready();
    lemma_piece_glfw_loader_init_text(app);
    lemma_piece_glfw_render_loop();
    let head = glfw_head(app);
    let tail = glfw_tail(app);
    reveal_strlit("#include <glad/gl.h>");
    lemma_glfw_before_debug_lacks_pair(app, 'l', '.');
    lemma_call_lacks_pair("glfwWindowHint("@, "GLFW_OPENGL_DEBUG_CONTEXT"@, glfw_flag(app.debug_context), 'l', '.');
    lemma_glfw_after_debug_lacks_pair(app, 'l', '.');
    lemma_glfw_head_lacks_pair(app, 'l', '.');
    lemma_glfw_tail_lacks_pair(app, 'l', '.');
    lemma_lacks_pair_not_contains(head, loader_include(GlLoader::Glad2), 16);
    lemma_lacks_pair_not_contains(tail, loader_include(GlLoader::Glad2), 16);
    if contains(text, loader_include(GlLoader::Glad2)) {
        lemma_contains_around(head, project_name, tail, loader_include(GlLoader::Glad2));
    }
}

/// The GLFW `main.cpp` of another loader leaves out the Glew header.
#[verifier::rlimit(40)]
proof fn lemma_glfw_glew_header_absent(app: App, project_name: Seq<char>)
    requires
        app.window_backend == WindowBackend::Glfw,
        app.gl_loader != GlLoader::Glew,
        !contains(project_name, loader_include(GlLoader::Glew)),
        lacks(loader_include(GlLoader::Glew), '"'),
    ensures
        !contains(main_cpp_text(app, project_name), loader_include(GlLoader::Glew)),
{
    let text = main_cpp_text(app, project_name);
    lemma_glfw_split(app, project_name);
    lemma_piece_iostream_include();
    lemma_piece_loader_include(app);
    lemma_piece_line_break();
    lemma_piece_glfw_include();
    lemma_piece_glfw_main_open();
    lemma_piece_glfwwindowhint();
    lemma_piece_glfw_context_version_major();
    lemma_piece_comma();
    lemma_piece_call_close();
    lemma_piece_statement_break();
    lemma_piece_glfw_context_version_minor();
    lemma_piece_glfw_opengl_profile();
    lemma_piece_glfw_profile(app);
    lemma_piece_glfw_opengl_debug_context();
    lemma_piece_debug_flag(app);
    lemma_piece_glfw_srgb_capable();
    lemma_piece_srgb_flag(app);
    lemma_piece_glfw_window_open();
    lemma_piece_glfwcreatewindow_1280_720();
    lemma_piece_glfw_window_call_close();
    lemma_piece_glfw_context_ready();
    lemma_piece_glfw_loader_init_text(app);
    lemma_piece_glfw_render_loop();
    let head = glfw_head(app);
    let tail = glfw_tail(app);
    reveal_strlit("#include <GL/glew.h>");
    lemma_glfw_before_debug_lacks_pair(app, 'L', '/');
    lemma_call_lacks_pair("glfwWindowHint("@, "GLFW_OPENGL_DEBUG_CONTEXT"@, glfw_flag(app.debug_context), 'L', '/');
    lemma_glfw_after_debug_lacks_pair(app, 'L', '/');
    lemma_glfw_head_lacks_pair(app, 'L', '/');
    lemma_glfw_tail_lacks_pair(app, 'L', '/');
    lemma_lacks_pair_not_contains(head, loader_include(GlLoader::Glew), 11);
    lemma_lacks_pair_not_contains(tail, loader_include(GlLoader::Glew), 11);
    if contains(text, loader_include(GlLoader::Glew)) {
        lemma_contains_around(head, project_name, tail, loader_include(GlLoader::Glew));
    }
}

/// The GLFW `main.cpp` leaves out the other window library's header.
#[verifier::rlimit(40)]
proof fn lemma_glfw_other_window_header_absent(app: App, project_name: Seq<char>)
    requires
        app.window_backend == WindowBackend::Glfw,
        !contains(project_name, SDL_INCLUDE@),
        lacks(SDL_INCLUDE@, '"'),
    ensures
        !contains(main_cpp_text(app, project_name), SDL_INCLUDE@),
{
    let text = main_cpp_text(app, project_name);
    lemma_glfw_split(app, project_name);
    lemma_piece_iostream_include();
    lemma_piece_loader_include(app);
    lemma_piece_line_break();
    lemma_piece_glfw_include();
    lemma_piece_glfw_main_open();
    lemma_piece_glfwwindowhint();
    lemma_piece_glfw_context_version_major();
    lemma_piece_comma();
    lemma_piece_call_close();
    lemma_piece_statement_break();
    lemma_piece_glfw_context_version_minor();
    lemma_piece_glfw_opengl_profile();
    lemma_piece_glfw_profile(app);
    lemma_piece_glfw_opengl_debug_context();
    lemma_piece_debug_flag(app);
    lemma_piece_glfw_srgb_capable();
    lemma_piece_srgb_flag(app);
    lemma_piece_glfw_window_open();
    lemma_piece_glfwcreatewindow_1280_720();
    lemma_piece_glfw_window_call_close();
    lemma_piece_glfw_context_ready();
    lemma_piece_glfw_loader_init_text(app);
    lemma_piece_glfw_render_loop();
    let head = glfw_head(app);
    let tail = glfw_tail(app);
    reveal_strlit("#include <SDL3/SDL.h>");
    lemma_glfw_before_debug_lacks_pair(app, '3', '/');
    lemma_call_lacks_pair("glfwWindowHint("@, "GLFW_OPENGL_DEBUG_CONTEXT"@, glfw_flag(app.debug_context), '3', '/');
    lemma_glfw_after_debug_lacks_pair(app, '3', '/');
    lemma_glfw_head_lacks_pair(app, '3', '/');
    lemma_glfw_tail_lacks_pair(app, '3', '/');
    lemma_lacks_pair_not_contains(head, SDL_INCLUDE@, 13);
    lemma_lacks_pair_not_contains(tail, SDL_INCLUDE@, 13);
    if contains(text, SDL_INCLUDE@) {
        lemma_contains_around(head, project_name, tail, SDL_INCLUDE@);
    }
}

/// The SDL3 `main.cpp` of another loader leaves out the Glad header.
#[verifier::rlimit(40)]
proof fn lemma_sdl_glad_header_absent(app: App, project_name: Seq<char>)
    requires
        app.window_backend == WindowBackend::Sdl3,
        app.gl_loader != GlLoader::Glad,
        !contains(project_name, loader_include(GlLoader::Glad)),
        lacks(loader_include(GlLoader::Glad), '"'),
    ensures
        !contains(main_cpp_text(app, project_name), loader_include(GlLoader::Glad)),
{
    let text = main_cpp_text(app, project_name);
    lemma_sdl_split(app, project_name);
    lemma_piece_iostream_include();
    lemma_piece_loader_include(app);
    lemma_piece_line_break();
    lemma_piece_sdl_include();
    lemma_piece_sdl_main_open();
    lemma_piece_sdl_gl_setattribute();
    lemma_piece_sdl_gl_context_major_version();
    lemma_piece_comma();
    lemma_piece_call_close();
    lemma_piece_statement_break();
    lemma_piece_sdl_gl_context_minor_version();
    lemma_piece_sdl_gl_context_profile_mask();
    lemma_piece_sdl_profile(app);
    lemma_piece_sdl_gl_framebuffer_srgb_capable();
    lemma_piece_sdl_srgb_value(app);
    lemma_piece_sdl_window_open();
    lemma_piece_sdl_createwindow();
    lemma_piece_sdl_window_call_close();
    lemma_piece_sdl_context_ready();
    lemma_piece_sdl_loader_init_text(app);
    lemma_piece_sdl_render_loop();
    let head = sdl_head(app);
    let tail = sdl_tail(app);
    reveal_strlit("#include <glad/glad.h>");
    lemma_sdl_head_lacks_pair(app, 'd', '.');
    lemma_sdl_tail_lacks_pair(app, 'd', '.');
    lemma_lacks_pair_not_contains(head, loader_include(GlLoader::Glad), 18);
    lemma_lacks_pair_not_contains(tail, loader_include(GlLoader::Glad), 18);
    if contains(text, loader_include(GlLoader::Glad)) {
        lemma_contains_around(head, project_name, tail, loader_include(GlLoader::Glad));
    }
}

/// The SDL3 `main.cpp` of another loader leaves out the Glad2 header.
#[verifier::rlimit(40)]
proof fn lemma_sdl_glad2_header_absent(app: App, project_name: Seq<char>)
    requires
        app.window_backend == WindowBackend::Sdl3,
        app.gl_loader != GlLoader::Glad2,
        !contains(project_name, loader_include(GlLoader::Glad2)),
        lacks(loader_include(GlLoader::Glad2), '"'),
    ensures
        !contains(main_cpp_text(app, project_name), loader_include(GlLoader::Glad2)),
{
    let text = main_cpp_text(app, project_name);
    lemma_sdl_split(app, project_name);
    lemma_piece_iostream_include();
    lemma_piece_loader_include(app);
    lemma_piece_line_break();
    lemma_piece_sdl_include();
    lemma_piece_sdl_main_open();
    lemma_piece_sdl_gl_setattribute();
    lemma_piece_sdl_gl_context_major_version();
    lemma_piece_comma();
    lemma_piece_call_close();
    lemma_piece_statement_break();
    lemma_piece_sdl_gl_context_minor_version();
    lemma_piece_sdl_gl_context_profile_mask();
    lemma_piece_sdl_profile(app);
    lemma_piece_sdl_gl_framebuffer_srgb_capable();
    lemma_piece_sdl_srgb_value(app);
    lemma_piece_sdl_window_open();
    lemma_piece_sdl_createwindow();
    lemma_piece_sdl_window_call_close();
    lemma_piece_sdl_context_ready();
    lemma_piece_sdl_loader_init_text(app);
    lemma_piece_sdl_render_loop();
    let head = sdl_head(app);
    let tail = sdl_tail(app);
    reveal_strlit("#include <glad/gl.h>");
    lemma_sdl_head_lacks_pair(app, 'l', '.');
    lemma_sdl_tail_lacks_pair(app, 'l', '.');
    lemma_lacks_pair_not_contains(head, loader_include(GlLoader::Glad2), 16);
    lemma_lacks_pair_not_contains(tail, loader_include(GlLoader::Glad2), 16);
    if contains(text, loader_include(GlLoader::Glad2)) {
        lemma_contains_around(head, project_name, tail, loader_include(GlLoader::Glad2));
    }
}

/// The SDL3 `main.cpp` of another loader leaves out the Glew header.
#[verifier::rlimit(40)]
proof fn lemma_sdl_glew_header_absent(app: App, project_name: Seq<char>)
    requires
        app.window_backend == WindowBackend::Sdl3,
        app.gl_loader != GlLoader::Glew,
        !contains(project_name, loader_include(GlLoader::Glew)),
        lacks(loader_include(GlLoader::Glew), '"'),
    ensures
        !contains(main_cpp_text(app, project_name), loader_include(GlLoader::Glew)),
{
    let text = main_cpp_text(app, project_name);
    lemma_sdl_split(app, project_name);
    lemma_piece_iostream_include();
    lemma_piece_loader_include(app);
    lemma_piece_line_break();
    lemma_piece_sdl_include();
    lemma_piece_sdl_main_open();
    lemma_piece_sdl_gl_setattribute();
    lemma_piece_sdl_gl_context_major_version();
    lemma_piece_comma();
    lemma_piece_call_close();
    lemma_piece_statement_break();
    lemma_piece_sdl_gl_context_minor_version();
    lemma_piece_sdl_gl_context_profile_mask();
    lemma_piece_sdl_profile(app);
    lemma_piece_sdl_gl_framebuffer_srgb_capable();
    lemma_piece_sdl_srgb_value(app);
    lemma_piece_sdl_window_open();
    lemma_piece_sdl_createwindow();
    lemma_piece_sdl_window_call_close();
    lemma_piece_sdl_context_ready();
    lemma_piece_sdl_loader_init_text(app);
    lemma_piece_sdl_render_loop();
    let head = sdl_head(app);
    let tail = sdl_tail(app);
    reveal_strlit("#include <GL/glew.h>");
    lemma_sdl_head_lacks_pair(app, 'L', '/');
    lemma_sdl_tail_lacks_pair(app, 'L', '/');
    lemma_lacks_pair_not_contains(head, loader_include(GlLoader::Glew), 11);
    lemma_lacks_pair_not_contains(tail, loader_include(GlLoader::Glew), 11);
    if contains(text, loader_include(GlLoader::Glew)) {
        lemma_contains_around(head, project_name, tail, loader_include(GlLoader::Glew));
    }
}

/// The SDL3 `main.cpp` leaves out the other window library's header.
#[verifier::rlimit(40)]
proof fn lemma_sdl_other_window_header_absent(app: App, project_name: Seq<char>)
    requires
        app.window_backend == WindowBackend::Sdl3,
        !contains(project_name, GLFW_INCLUDE@),
        lacks(GLFW_INCLUDE@, '"'),
    ensures
        !contains(main_cpp_text(app, project_name), GLFW_INCLUDE@),
{
    let text = main_cpp_text(app, project_name);
    lemma_sdl_split(app, project_name);
    lemma_piece_iostream_include();
    lemma_piece_loader_include(app);
    lemma_piece_line_break();
    lemma_piece_sdl_include();
    lemma_piece_sdl_main_open();
    lemma_piece_sdl_gl_setattribute();
    lemma_piece_sdl_gl_context_major_version();
    lemma_piece_comma();
    lemma_piece_call_close();
    lemma_piece_statement_break();
    lemma_piece_sdl_gl_context_minor_version();
    lemma_piece_sdl_gl_context_profile_mask();
    lemma_piece_sdl_profile(app);
    lemma_piece_sdl_gl_framebuffer_srgb_capable();
    lemma_piece_sdl_srgb_value(app);
    lemma_piece_sdl_window_open();
    lemma_piece_sdl_createwindow();
    lemma_piece_sdl_window_call_close();
    lemma_piece_sdl_context_ready();
    lemma_piece_sdl_loader_init_text(app);
    lemma_piece_sdl_render_loop();
    let head = sdl_head(app);
    let tail = sdl_tail(app);
    reveal_strlit("#include <GLFW/glfw3.h>");
    lemma_sdl_head_lacks_pair(app, 'W', '/');
    lemma_sdl_tail_lacks_pair(app, 'W', '/');
    lemma_lacks_pair_not_contains(head, GLFW_INCLUDE@, 13);
    lemma_lacks_pair_not_contains(tail, GLFW_INCLUDE@, 13);
    if contains(text, GLFW_INCLUDE@) {
        lemma_contains_around(head, project_name, tail, GLFW_INCLUDE@);
    }
}

/// Without the core profile, the GLFW `main.cpp` never names it.
#[verifier::rlimit(40)]
proof fn lemma_glfw_core_absent(app: App, project_name: Seq<char>)
    requires
        app.window_backend == WindowBackend::Glfw,
        !app.core_profile,
        !contains(project_name, "GLFW_OPENGL_CORE_PROFILE"@),
        lacks("GLFW_OPENGL_CORE_PROFILE"@, '"'),
    ensures
        !contains(main_cpp_text(app, project_name), "GLFW_OPENGL_CORE_PROFILE"@),
{
    let text = main_cpp_text(app, project_name);
    lemma_glfw_split(app, project_name);
    lemma_piece_iostream_include();
    lemma_piece_loader_include(app);
    lemma_piece_line_break();
    lemma_piece_glfw_include();
    lemma_piece_glfw_main_open();
    lemma_piece_glfwwindowhint();
    lemma_piece_glfw_context_version_major();
    lemma_piece_comma();
    lemma_piece_call_close();
    lemma_piece_statement_break();
    lemma_piece_glfw_context_version_minor();
    lemma_piece_glfw_opengl_profile();
    lemma_piece_glfw_profile(app);
    lemma_piece_glfw_opengl_debug_context();
    lemma_piece_debug_flag(app);
    lemma_piece_glfw_srgb_capable();
    lemma_piece_srgb_flag(app);
    lemma_piece_glfw_window_open();
    lemma_piece_glfwcreatewindow_1280_720();
    lemma_piece_glfw_window_call_close();
    lemma_piece_glfw_context_ready();
    lemma_piece_glfw_loader_init_text(app);
    lemma_piece_glfw_render_loop();
    let head = glfw_head(app);
    let tail = glfw_tail(app);
    reveal_strlit("GLFW_OPENGL_CORE_PROFILE");
    lemma_glfw_before_debug_lacks_pair(app, 'R', 'E');
    lemma_call_lacks_pair("glfwWindowHint("@, "GLFW_OPENGL_DEBUG_CONTEXT"@, glfw_flag(app.debug_context), 'R', 'E');
    lemma_glfw_after_debug_lacks_pair(app, 'R', 'E');
    lemma_glfw_head_lacks_pair(app, 'R', 'E');
    lemma_glfw_tail_lacks_pair(app, 'R', 'E');
    lemma_lacks_pair_not_contains(head, "GLFW_OPENGL_CORE_PROFILE"@, 14);
    lemma_lacks_pair_not_contains(tail, "GLFW_OPENGL_CORE_PROFILE"@, 14);
    if contains(text, "GLFW_OPENGL_CORE_PROFILE"@) {
        lemma_contains_around(head, project_name, tail, "GLFW_OPENGL_CORE_PROFILE"@);
    }
}

/// With the core profile, the GLFW `main.cpp` never names the compatibility profile.
#[verifier::rlimit(40)]
proof fn lemma_glfw_compat_absent(app: App, project_name: Seq<char>)
    requires
        app.window_backend == WindowBackend::Glfw,
        app.core_profile,
        !contains(project_name, "GLFW_OPENGL_COMPAT_PROFILE"@),
        lacks("GLFW_OPENGL_COMPAT_PROFILE"@, '"'),
    ensures
        !contains(main_cpp_text(app, project_name), "GLFW_OPENGL_COMPAT_PROFILE"@),
{
    let text = main_cpp_text(app, project_name);
    lemma_glfw_split(app, project_name);
    lemma_piece_iostream_include();
    lemma_piece_loader_include(app);
    lemma_piece_line_break();
    lemma_piece_glfw_include();
    lemma_piece_glfw_main_open();
    lemma_piece_glfwwindowhint();
    lemma_piece_glfw_context_version_major();
    lemma_piece_comma();
    lemma_piece_call_close();
    lemma_piece_statement_break();
    lemma_piece_glfw_context_version_minor();
    lemma_piece_glfw_opengl_profile();
    lemma_piece_glfw_profile(app);
    lemma_piece_glfw_opengl_debug_context();
    lemma_piece_debug_flag(app);
    lemma_piece_glfw_srgb_capable();
    lemma_piece_srgb_flag(app);
    lemma_piece_glfw_window_open();
    lemma_piece_glfwcreatewindow_1280_720();
    lemma_piece_glfw_window_call_close();
    lemma_piece_glfw_context_ready();
    lemma_piece_glfw_loader_init_text(app);
    lemma_piece_glfw_render_loop();
    let head = glfw_head(app);
    let tail = glfw_tail(app);
    reveal_strlit("GLFW_OPENGL_COMPAT_PROFILE");
    lemma_glfw_before_debug_lacks_pair(app, 'M', 'P');
    lemma_call_lacks_pair("glfwWindowHint("@, "GLFW_OPENGL_DEBUG_CONTEXT"@, glfw_flag(app.debug_context), 'M', 'P');
    lemma_glfw_after_debug_lacks_pair(app, 'M', 'P');
    lemma_glfw_head_lacks_pair(app, 'M', 'P');
    lemma_glfw_tail_lacks_pair(app, 'M', 'P');
    lemma_lacks_pair_not_contains(head, "GLFW_OPENGL_COMPAT_PROFILE"@, 14);
    lemma_lacks_pair_not_contains(tail, "GLFW_OPENGL_COMPAT_PROFILE"@, 14);
    if contains(text, "GLFW_OPENGL_COMPAT_PROFILE"@) {
        lemma_contains_around(head, project_name, tail, "GLFW_OPENGL_COMPAT_PROFILE"@);
    }
}

/// Without a debug context, the GLFW `main.cpp` never asks for one.
#[verifier::rlimit(40)]
proof fn lemma_glfw_debug_absent(app: App, project_name: Seq<char>)
    requires
        app.window_backend == WindowBackend::Glfw,
        !app.debug_context,
        !contains(project_name, "GLFW_OPENGL_DEBUG_CONTEXT, GLFW_TRUE"@),
        lacks("GLFW_OPENGL_DEBUG_CONTEXT, GLFW_TRUE"@, '"'),
    ensures
        !contains(main_cpp_text(app, project_name), "GLFW_OPENGL_DEBUG_CONTEXT, GLFW_TRUE"@),
{
    let text = main_cpp_text(app, project_name);
    lemma_glfw_split(app, project_name);
    lemma_piece_iostream_include();
    lemma_piece_loader_include(app);
    lemma_piece_line_break();
    lemma_piece_glfw_include();
    lemma_piece_glfw_main_open();
    lemma_piece_glfwwindowhint();
    lemma_piece_glfw_context_version_major();
    lemma_piece_comma();
    lemma_piece_call_close();
    lemma_piece_statement_break();
    lemma_piece_glfw_context_version_minor();
    lemma_piece_glfw_opengl_profile();
    lemma_piece_glfw_profile(app);
    lemma_piece_glfw_opengl_debug_context();
    lemma_piece_debug_flag(app);
    lemma_piece_glfw_srgb_capable();
    lemma_piece_srgb_flag(app);
    lemma_piece_glfw_window_open();
    lemma_piece_glfwcreatewindow_1280_720();
    lemma_piece_glfw_window_call_close();
    lemma_piece_glfw_context_ready();
    lemma_piece_glfw_loader_init_text(app);
    lemma_piece_glfw_render_loop();
    let head = glfw_head(app);
    let tail = glfw_tail(app);
    let debug = "GLFW_OPENGL_DEBUG_CONTEXT, GLFW_TRUE"@;
    reveal_strlit("GLFW_OPENGL_DEBUG_CONTEXT, GLFW_TRUE");
    let m = glfw_hint("GLFW_OPENGL_DEBUG_CONTEXT"@, glfw_flag(app.debug_context));
    reveal_strlit("glfwWindowHint(GLFW_OPENGL_DEBUG_CONTEXT, GLFW_FALSE);");
    reveal_strlit("glfwWindowHint(");
    reveal_strlit("GLFW_OPENGL_DEBUG_CONTEXT");
    reveal_strlit(", ");
    reveal_strlit(");");
    reveal_strlit("GLFW_FALSE");
    assert(m == "glfwWindowHint(GLFW_OPENGL_DEBUG_CONTEXT, GLFW_FALSE);"@);
    assert forall|j: int|
        0 <= j && j + 1 < m.len() && #[trigger] m[j] == debug[24] && m[j + 1] == debug[25] implies 0
            <= j - 24 && j - 24 + debug.len() <= m.len() && m.subrange(j - 24, j - 24 + debug.len())
            != debug by {
        assert(j == 39);
        assert(m.subrange(15, 51)[32] != debug[32]);
    }
    lemma_glfw_before_debug_lacks_pair(app, 'T', ',');
    lemma_glfw_after_debug_lacks_pair(app, 'T', ',');
    lemma_anchor_not_contains(glfw_before_debug(app), m, glfw_after_debug(app), debug, 24);
    lemma_glfw_tail_lacks_pair(app, 'T', ',');
    lemma_lacks_pair_not_contains(tail, debug, 24);
    if contains(text, "GLFW_OPENGL_DEBUG_CONTEXT, GLFW_TRUE"@) {
        lemma_contains_around(head, project_name, tail, "GLFW_OPENGL_DEBUG_CONTEXT, GLFW_TRUE"@);
    }
}

/// Without the core profile, the SDL3 `main.cpp` never names it.
#[verifier::rlimit(40)]
proof fn lemma_sdl_core_absent(app: App, project_name: Seq<char>)
    requires
        app.window_backend == WindowBackend::Sdl3,
        !app.core_profile,
        !contains(project_name, "SDL_GL_CONTEXT_PROFILE_CORE"@),
        lacks("SDL_GL_CONTEXT_PROFILE_CORE"@, '"'),
    ensures
        !contains(main_cpp_text(app, project_name), "SDL_GL_CONTEXT_PROFILE_CORE"@),
{
    let text = main_cpp_text(app, project_name);
    lemma_sdl_split(app, project_name);
    lemma_piece_iostream_include();
    lemma_piece_loader_include(app);
    lemma_piece_line_break();
    lemma_piece_sdl_include();
    lemma_piece_sdl_main_open();
    lemma_piece_sdl_gl_setattribute();
    lemma_piece_sdl_gl_context_major_version();
    lemma_piece_comma();
    lemma_piece_call_close();
    lemma_piece_statement_break();
    lemma_piece_sdl_gl_context_minor_version();
    lemma_piece_sdl_gl_context_profile_mask();
    lemma_piece_sdl_profile(app);
    lemma_piece_sdl_gl_framebuffer_srgb_capable();
    lemma_piece_sdl_srgb_value(app);
    lemma_piece_sdl_window_open();
    lemma_piece_sdl_createwindow();
    lemma_piece_sdl_window_call_close();
    lemma_piece_sdl_context_ready();
    lemma_piece_sdl_loader_init_text(app);
    lemma_piece_sdl_render_loop();
    let head = sdl_head(app);
    let tail = sdl_tail(app);
    let sdl_core = "SDL_GL_CONTEXT_PROFILE_CORE"@;
    reveal_strlit("SDL_GL_CONTEXT_PROFILE_CORE");
    let m = "\", 1280, 720, SDL_WINDOW_OPENGL | SDL_WINDOW_RESIZABLE);"@;
    reveal_strlit("\", 1280, 720, SDL_WINDOW_OPENGL | SDL_WINDOW_RESIZABLE);");
    assert forall|j: int|
        0 <= j && j + 1 < m.len() && #[trigger] m[j] == sdl_core[25] && m[j + 1] == sdl_core[26]
            implies 0 <= j - 25 && j - 25 + sdl_core.len() <= m.len() && m.subrange(
            j - 25,
            j - 25 + sdl_core.len(),
        ) != sdl_core by {
        assert(j == 45);
        assert(m.subrange(20, 47)[0] != sdl_core[0]);
    }
    lemma_sdl_after_call_lacks_pair(app, 'R', 'E');
    lemma_anchor_not_contains(Seq::<char>::empty(), m, sdl_after_call(app), sdl_core, 25);
    lemma_sdl_head_lacks_pair(app, 'R', 'E');
    lemma_lacks_pair_not_contains(head, sdl_core, 25);
    if contains(text, "SDL_GL_CONTEXT_PROFILE_CORE"@) {
        lemma_contains_around(head, project_name, tail, "SDL_GL_CONTEXT_PROFILE_CORE"@);
    }
}

/// `main.cpp` includes exactly one loader header, the chosen loader's, and
/// the header of the chosen window library and not the other's: for every
/// project name that does not itself spell one of the headers it should
/// leave out.
pub proof fn main_cpp_includes_only_chosen_headers(app: App, project_name: Seq<char>)
    requires
        forall|loader: GlLoader|
            loader != app.gl_loader ==> !contains(project_name, #[trigger] loader_include(loader)),
        app.window_backend == WindowBackend::Glfw ==> !contains(project_name, SDL_INCLUDE@),
        app.window_backend == WindowBackend::Sdl3 ==> !contains(project_name, GLFW_INCLUDE@),
    ensures
        forall|loader: GlLoader|
            contains(main_cpp_text(app, project_name), #[trigger] loader_include(loader)) <==> loader
                == app.gl_loader,
        contains(main_cpp_text(app, project_name), GLFW_INCLUDE@) <==> app.window_backend
            == WindowBackend::Glfw,
        contains(main_cpp_text(app, project_name), SDL_INCLUDE@) <==> app.window_backend
            == WindowBackend::Sdl3,
{
    main_cpp_follows_choices(app, project_name);
    lemma_headers_lack_quote();
    assert forall|loader: GlLoader|
        contains(main_cpp_text(app, project_name), #[trigger] loader_include(loader)) <==> loader
            == app.gl_loader by {
        if loader != app.gl_loader {
            match (app.window_backend, loader) {
                (WindowBackend::Glfw, GlLoader::Glad) => lemma_glfw_glad_header_absent(app, project_name),
                (WindowBackend::Glfw, GlLoader::Glad2) => lemma_glfw_glad2_header_absent(app, project_name),
                (WindowBackend::Glfw, GlLoader::Glew) => lemma_glfw_glew_header_absent(app, project_name),
                (WindowBackend::Sdl3, GlLoader::Glad) => lemma_sdl_glad_header_absent(app, project_name),
                (WindowBackend::Sdl3, GlLoader::Glad2) => lemma_sdl_glad2_header_absent(app, project_name),
                (WindowBackend::Sdl3, GlLoader::Glew) => lemma_sdl_glew_header_absent(app, project_name),
            }
        }
    }
    match app.window_backend {
        WindowBackend::Glfw => lemma_glfw_other_window_header_absent(app, project_name),
        WindowBackend::Sdl3 => lemma_sdl_other_window_header_absent(app, project_name),
    }
}

/// The profile, debug-context and window-title settings as `main.cpp`
/// states them: with GLFW the text names the core profile exactly when it
/// was chosen, the compatibility profile exactly when it was not, and asks
/// for a debug context (`GLFW_OPENGL_DEBUG_CONTEXT, GLFW_TRUE`) exactly when
/// one was chosen; with SDL3 it names the core profile exactly when it was
/// chosen. This holds for every project name that does not itself spell the
/// setting that should be missing.
pub proof fn main_cpp_settings_follow_choices(app: App, project_name: Seq<char>)
    requires
        app.window_backend == WindowBackend::Glfw && !app.core_profile ==> !contains(
            project_name,
            "GLFW_OPENGL_CORE_PROFILE"@,
        ),
        app.window_backend == WindowBackend::Glfw && app.core_profile ==> !contains(
            project_name,
            "GLFW_OPENGL_COMPAT_PROFILE"@,
        ),
        app.window_backend == WindowBackend::Glfw && !app.debug_context ==> !contains(
            project_name,
            "GLFW_OPENGL_DEBUG_CONTEXT, GLFW_TRUE"@,
        ),
        app.window_backend == WindowBackend::Sdl3 && !app.core_profile ==> !contains(
            project_name,
            "SDL_GL_CONTEXT_PROFILE_CORE"@,
        ),
    ensures
        app.window_backend == WindowBackend::Glfw ==> {
            let text = main_cpp_text(app, project_name);
            &&& contains(text, "GLFW_OPENGL_CORE_PROFILE"@) <==> app.core_profile
            &&& contains(text, "GLFW_OPENGL_COMPAT_PROFILE"@) <==> !app.core_profile
            &&& contains(text, "GLFW_OPENGL_DEBUG_CONTEXT, GLFW_TRUE"@) <==> app.debug_context
        },
        app.window_backend == WindowBackend::Sdl3 ==> (contains(
            main_cpp_text(app, project_name),
            "SDL_GL_CONTEXT_PROFILE_CORE"@,
        ) <==> app.core_profile),
{
    let text = main_cpp_text(app, project_name);
    main_cpp_follows_choices(app, project_name);
    let core = "GLFW_OPENGL_CORE_PROFILE"@;
    let compat = "GLFW_OPENGL_COMPAT_PROFILE"@;
    let debug = "GLFW_OPENGL_DEBUG_CONTEXT, GLFW_TRUE"@;
    let sdl_core = "SDL_GL_CONTEXT_PROFILE_CORE"@;
    reveal_strlit("GLFW_OPENGL_CORE_PROFILE");
    reveal_strlit("GLFW_OPENGL_COMPAT_PROFILE");
    reveal_strlit("GLFW_OPENGL_DEBUG_CONTEXT, GLFW_TRUE");
    reveal_strlit("SDL_GL_CONTEXT_PROFILE_CORE");
    reveal_strlit("GLFW_OPENGL_DEBUG_CONTEXT");
    reveal_strlit("GLFW_TRUE");
    reveal_strlit("glfwWindowHint(");
    reveal_strlit(", ");
    reveal_strlit(");");
    match app.window_backend {
        WindowBackend::Glfw => {
            let open = "glfwWindowHint("@ + "GLFW_OPENGL_PROFILE"@ + ", "@;
            if app.core_profile {
                lemma_contains_part(open, core, ");"@);
                lemma_contains_trans(text, glfw_hint("GLFW_OPENGL_PROFILE"@, core), core);
                lemma_glfw_compat_absent(app, project_name);
            } else {
                lemma_contains_part(open, compat, ");"@);
                lemma_contains_trans(text, glfw_hint("GLFW_OPENGL_PROFILE"@, compat), compat);
                lemma_glfw_core_absent(app, project_name);
            }
            if app.debug_context {
                let line = glfw_hint("GLFW_OPENGL_DEBUG_CONTEXT"@, "GLFW_TRUE"@);
                assert(line == "glfwWindowHint("@ + debug + ");"@);
                lemma_contains_part("glfwWindowHint("@, debug, ");"@);
                lemma_contains_trans(text, line, debug);
            } else {
                lemma_glfw_debug_absent(app, project_name);
            }
        },
        WindowBackend::Sdl3 => {
            if app.core_profile {
                reveal_strlit("SDL_GL_SetAttribute(");
                reveal_strlit("SDL_GL_CONTEXT_PROFILE_MASK");
                let open = "SDL_GL_SetAttribute("@ + "SDL_GL_CONTEXT_PROFILE_MASK"@ + ", "@;
                lemma_contains_part(open, sdl_core, ");"@);
                lemma_contains_trans(
                    text,
                    sdl_attribute("SDL_GL_CONTEXT_PROFILE_MASK"@, sdl_core),
                    sdl_core,
                );
            } else {
                lemma_sdl_core_absent(app, project_name);
            }
        },
    }
}

} // verus!
