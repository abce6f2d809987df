//! Properties of what each loader brings: its block in `CMakeLists.txt`,
//! what the README says it needs at build time, and how `main.cpp` sets it up.

use vstd::prelude::*;
use crate::app::App;
use crate::cmake::{
    api_version, backend_block_text, cmake_lists_text, glad_profile, loader_block_text,
    optional_block_text, GLAD2_BLOCK_API, GLAD2_BLOCK_CLOSE, GLAD2_BLOCK_OPEN,
    GLAD2_JINJA_FAILURE, GLAD2_JINJA_NOTE, GLAD_API_OPEN, GLAD_BLOCK_CLOSE, GLAD_BLOCK_OPEN,
    GLAD_BLOCK_PROFILE, GLAD_FETCH_TAIL, GLAD_SOURCES_NOTE, GLEW_FALLBACK, GLEW_FIND, JINJA2_CHECK,
    PYTHON_REQUIRED,
};
use crate::cmake_laws::cmake_lists_blocks_in_order;
use crate::cpp::{
    glfw_loader_init_text, sdl_loader_init_text, GLAD2_GLFW_INIT, GLAD2_SDL_INIT, GLAD_GLFW_INIT,
    GLAD_SDL_INIT, GLEW_INIT,
};
use crate::docs::loader_requirement_text;
use crate::laws::lemma_requirement_matches_checks;
use crate::options::GlLoader;
use crate::text::{
    contains, decimal, lacks, lemma_contains_at, lemma_contains_part, lemma_contains_suffix,
    lemma_contains_trans,
    lacks_pair, lemma_decimal_lacks, lemma_lacks_concat, lemma_lacks_not_contains,
    lemma_lacks_pair_concat, lemma_lacks_pair_not_contains, lemma_replaced_leading,
    lemma_replaced_missing, lemma_replaced_split_left, replaced,
};

verus! {

/// `sub`, found at index `i` of `GLEW_FALLBACK`, is in the GLEW loader block.
proof fn lemma_in_glew_fallback(sub: Seq<char>, i: int)
    requires
        0 <= i,
        i + sub.len() <= GLEW_FALLBACK@.len(),
        GLEW_FALLBACK@.subrange(i, i + sub.len()) == sub,
    ensures
        contains(GLEW_FIND@ + GLEW_FALLBACK@, sub),
{
    lemma_contains_at(GLEW_FALLBACK@, sub, i);
    lemma_contains_suffix(GLEW_FIND@, GLEW_FALLBACK@);
    lemma_contains_trans(GLEW_FIND@ + GLEW_FALLBACK@, GLEW_FALLBACK@, sub);
}

/// What the GLEW loader block holds, and two letters it never uses.
proof fn lemma_glew_block_facts(app: App)
    requires
        app.gl_loader == GlLoader::Glew,
    ensures
        contains(loader_block_text(app), "set(LOADER_LIB GLEW::GLEW)"@),
        contains(loader_block_text(app), "set(LOADER_LIB PkgConfig::GLEW_PC)"@),
        contains(loader_block_text(app), "if(NOT LOADER_LIB)\n    message(FATAL_ERROR"@),
        contains(loader_block_text(app), "sudo apt install libglew-dev"@),
        contains(loader_block_text(app), "brew install glew"@),
        lacks(loader_block_text(app), 'y'),
        lacks(loader_block_text(app), 'j'),
{
    reveal_strlit("find_package(GLEW QUIET)\n");
    reveal_strlit(r#"if(TARGET GLEW::GLEW)
    set(LOADER_LIB GLEW::GLEW)
elseif(PkgConfig_FOUND)
    pkg_check_modules(GLEW_PC QUIET IMPORTED_TARGET glew)
    if(TARGET PkgConfig::GLEW_PC)
        set(LOADER_LIB PkgConfig::GLEW_PC)
    endif()
endif()

if(NOT LOADER_LIB)
    message(FATAL_ERROR
        "GLEW was not found. Install it with one of:\n"
        "  Debian/Ubuntu : sudo apt install libglew-dev\n"
        "  Fedora        : sudo dnf install glew-devel\n"
        "  Arch          : sudo pacman -S glew\n"
        "  macOS         : brew install glew\n"
        "  vcpkg         : vcpkg install glew (configure with the vcpkg toolchain file)")
endif()
"#);
    let block = loader_block_text(app);
    assert(block == GLEW_FIND@ + GLEW_FALLBACK@);
    reveal_strlit("set(LOADER_LIB GLEW::GLEW)");
    assert(GLEW_FALLBACK@.subrange(26int, 26int + 26int) == "set(LOADER_LIB GLEW::GLEW)"@);
    lemma_in_glew_fallback("set(LOADER_LIB GLEW::GLEW)"@, 26);
    reveal_strlit("set(LOADER_LIB PkgConfig::GLEW_PC)");
    assert(GLEW_FALLBACK@.subrange(177int, 177int + 34int) == "set(LOADER_LIB PkgConfig::GLEW_PC)"@);
    lemma_in_glew_fallback("set(LOADER_LIB PkgConfig::GLEW_PC)"@, 177);
    reveal_strlit("if(NOT LOADER_LIB)\n    message(FATAL_ERROR");
    assert(GLEW_FALLBACK@.subrange(233int, 233int + 42int) == "if(NOT LOADER_LIB)\n    message(FATAL_ERROR"@);
    lemma_in_glew_fallback("if(NOT LOADER_LIB)\n    message(FATAL_ERROR"@, 233);
    reveal_strlit("sudo apt install libglew-dev");
    assert(GLEW_FALLBACK@.subrange(359int, 359int + 28int) == "sudo apt install libglew-dev"@);
    lemma_in_glew_fallback("sudo apt install libglew-dev"@, 359);
    reveal_strlit("brew install glew");
    assert(GLEW_FALLBACK@.subrange(526int, 526int + 17int) == "brew install glew"@);
    lemma_in_glew_fallback("brew install glew"@, 526);
    assert(lacks(GLEW_FIND@, 'y'));
    assert(lacks(GLEW_FALLBACK@, 'y'));
    lemma_lacks_concat(GLEW_FIND@, GLEW_FALLBACK@, 'y');
    assert(lacks(GLEW_FIND@, 'j'));
    assert(lacks(GLEW_FALLBACK@, 'j'));
    lemma_lacks_concat(GLEW_FIND@, GLEW_FALLBACK@, 'j');
}

/// With GLEW the loader block does not depend on the OpenGL version or
/// profile (or on anything but the choice of GLEW); it takes `LOADER_LIB`
/// from GLEW's CMake package or else from pkg-config, stops the
/// configuration with install commands when neither finds GLEW, and has
/// nothing to do with Python or `third_party/glad`.
pub proof fn glew_block_needs_only_glew(app: App, other: App)
    requires
        app.gl_loader == GlLoader::Glew,
    ensures
        other.gl_loader == GlLoader::Glew ==> loader_block_text(other) == loader_block_text(app),
        contains(loader_block_text(app), "set(LOADER_LIB GLEW::GLEW)"@),
        contains(loader_block_text(app), "set(LOADER_LIB PkgConfig::GLEW_PC)"@),
        contains(loader_block_text(app), "if(NOT LOADER_LIB)\n    message(FATAL_ERROR"@),
        contains(loader_block_text(app), "sudo apt install libglew-dev"@),
        contains(loader_block_text(app), "brew install glew"@),
        !contains(loader_block_text(app), "Python"@),
        !contains(loader_block_text(app), "third_party/glad"@),
{
    lemma_glew_block_facts(app);
    reveal_strlit("Python");
    lemma_lacks_not_contains(loader_block_text(app), "Python"@, 1);
    reveal_strlit("third_party/glad");
    lemma_lacks_not_contains(loader_block_text(app), "third_party/glad"@, 10);
}

/// In the glad 0.1 loader block `j` is never followed by `i`.
proof fn lemma_glad_block_lacks_ji(app: App)
    requires
        app.gl_loader == GlLoader::Glad,
    ensures
        lacks_pair(loader_block_text(app), 'j', 'i'),
{
    reveal_strlit(r#"set(GLAD_DIR "${CMAKE_CURRENT_SOURCE_DIR}/third_party/glad")
if(NOT EXISTS "${GLAD_DIR}/CMakeLists.txt")
    message(FATAL_ERROR
        "third_party/glad is missing. Fetch it with:\n"
        "  git clone --depth 1 "#);
    reveal_strlit(" https://github.com/Dav1dde/glad.git third_party/glad\")\nendif()\n\n");
    reveal_strlit(r#"# glad 0.1 generates its sources at build time with a Python script. It needs
# only the standard library, but the interpreter has to exist -- fail here with
# a readable message rather than midway through the build.
"#);
    reveal_strlit("find_package(Python COMPONENTS Interpreter REQUIRED)\n");
    reveal_strlit(r#"
set(GLAD_API "gl="#);
    reveal_strlit("\" CACHE STRING \"\" FORCE)\nset(GLAD_PROFILE \"");
    reveal_strlit(r#"" CACHE STRING "" FORCE)
set(GLAD_GENERATOR "c" CACHE STRING "" FORCE)
set(GLAD_REPRODUCIBLE ON CACHE BOOL "" FORCE)

# glad 0.1 declares cmake_minimum_required(VERSION 3.0), which CMake 4 rejects.
if(CMAKE_VERSION VERSION_GREATER_EQUAL 4.0)
    set(CMAKE_POLICY_VERSION_MINIMUM 3.5)
endif()

add_subdirectory("${GLAD_DIR}" glad_build)
set(LOADER_LIB glad)
"#);
    reveal_strlit("--branch ");
    reveal_strlit("master");
    reveal_strlit("core");
    reveal_strlit("compatibility");
    let c = 'j';
    lemma_decimal_lacks(app.opengl_major as nat, c);
    lemma_decimal_lacks(app.opengl_minor as nat, c);
    assert(lacks("."@, c)) by {
        reveal_strlit(".");
    }
    lemma_lacks_concat(decimal(app.opengl_major as nat), "."@, c);
    lemma_lacks_concat(decimal(app.opengl_major as nat) + "."@, decimal(app.opengl_minor as nat), c);
    assert(lacks(glad_profile(app), c));
    assert(lacks(GLAD_BLOCK_OPEN@, c));
    assert(lacks("--branch "@, c));
    assert(lacks("master"@, c));
    assert(lacks(GLAD_FETCH_TAIL@, c));
    assert(lacks(GLAD_SOURCES_NOTE@, c));
    assert(lacks(PYTHON_REQUIRED@, c));
    assert(lacks(GLAD_API_OPEN@, c));
    assert(lacks(GLAD_BLOCK_PROFILE@, c));
    assert(lacks_pair(GLAD_BLOCK_CLOSE@, c, 'i'));
    let t1 = GLAD_BLOCK_OPEN@ + "--branch "@;
    lemma_lacks_concat(GLAD_BLOCK_OPEN@, "--branch "@, c);
    let t2 = t1 + "master"@;
    lemma_lacks_concat(t1, "master"@, c);
    let t3 = t2 + GLAD_FETCH_TAIL@;
    lemma_lacks_concat(t2, GLAD_FETCH_TAIL@, c);
    let t4 = t3 + GLAD_SOURCES_NOTE@;
    lemma_lacks_concat(t3, GLAD_SOURCES_NOTE@, c);
    let t5 = t4 + PYTHON_REQUIRED@;
    lemma_lacks_concat(t4, PYTHON_REQUIRED@, c);
    let t6 = t5 + GLAD_API_OPEN@;
    lemma_lacks_concat(t5, GLAD_API_OPEN@, c);
    let t7 = t6 + api_version(app);
    lemma_lacks_concat(t6, api_version(app), c);
    let t8 = t7 + GLAD_BLOCK_PROFILE@;
    lemma_lacks_concat(t7, GLAD_BLOCK_PROFILE@, c);
    let t9 = t8 + glad_profile(app);
    lemma_lacks_concat(t8, glad_profile(app), c);
    lemma_lacks_pair_concat(t9, GLAD_BLOCK_CLOSE@, c, 'i');
}

/// The README's note on what the loader needs at build time names Python
/// exactly when the loader block requires the Python interpreter, and
/// Jinja2 exactly when the loader block checks for it: glad 0.1 needs
/// Python without Jinja2, glad2 both, GLEW neither.
pub proof fn loader_note_matches_checks(app: App)
    ensures
        contains(loader_requirement_text(app.gl_loader), "Python"@) <==> contains(
            loader_block_text(app),
            "find_package(Python COMPONENTS Interpreter REQUIRED)"@,
        ),
        contains(loader_requirement_text(app.gl_loader), "Jinja2"@) <==> contains(
            loader_block_text(app),
            "import jinja2"@,
        ),
        app.gl_loader == GlLoader::Glad ==> !contains(loader_requirement_text(app.gl_loader), "Jinja2"@),
        app.gl_loader == GlLoader::Glew ==> loader_requirement_text(app.gl_loader)
            == "- GLEW development files."@,
{
    let note = loader_requirement_text(app.gl_loader);
    let block = loader_block_text(app);
    let find = "find_package(Python COMPONENTS Interpreter REQUIRED)"@;
    let import = "import jinja2"@;
    reveal_strlit("Python");
    reveal_strlit("Jinja2");
    reveal_strlit("find_package(Python COMPONENTS Interpreter REQUIRED)");
    reveal_strlit("import jinja2");
    lemma_requirement_matches_checks(app);
    match app.gl_loader {
        GlLoader::Glad => {
            reveal_strlit("Python 3");
            assert("Python 3"@.subrange(0, 6) == "Python"@);
            lemma_contains_at("Python 3"@, "Python"@, 0);
            lemma_contains_trans(note, "Python 3"@, "Python"@);
            reveal_strlit("- Python 3 on PATH: glad generates its sources during the build (standard library only).");
            assert(lacks(note, 'J'));
            lemma_lacks_not_contains(note, "Jinja2"@, 0);
            lemma_glad_block_lacks_ji(app);
            lemma_lacks_pair_not_contains(block, import, 7);
        },
        GlLoader::Glad2 => {
            reveal_strlit("Python 3");
            assert("Python 3"@.subrange(0, 6) == "Python"@);
            lemma_contains_at("Python 3"@, "Python"@, 0);
            lemma_contains_trans(note, "Python 3"@, "Python"@);
        },
        GlLoader::Glew => {
            reveal_strlit("- GLEW development files.");
            assert(lacks(note, 'y'));
            assert(lacks(note, 'J'));
            lemma_lacks_not_contains(note, "Python"@, 1);
            lemma_lacks_not_contains(note, "Jinja2"@, 0);
            lemma_glew_block_facts(app);
            lemma_lacks_not_contains(block, find, 14);
            lemma_lacks_not_contains(block, import, 7);
        },
    }
}

/// Glad: the two texts around the function that looks up OpenGL functions.
proof fn lemma_glad_init_swaps()
    ensures
        replaced(GLAD_GLFW_INIT@, "glfwGetProcAddress"@, "SDL_GL_GetProcAddress"@) == GLAD_SDL_INIT@,
{
    reveal_strlit(r#"    if (!gladLoadGLLoader((GLADloadproc)glfwGetProcAddress)) {
        std::cerr << "Failed to initialize glad\n";
        return -1;
    }"#);
    reveal_strlit(r#"    if (!gladLoadGLLoader((GLADloadproc)SDL_GL_GetProcAddress)) {
        std::cerr << "Failed to initialize glad\n";
        return -1;
    }"#);
    reveal_strlit(r#"    if (!gladLoadGLLoader((GLADloadproc)"#);
    reveal_strlit(r#")) {
        std::cerr << "Failed to initialize glad\n";
        return -1;
    }"#);
    reveal_strlit("glfwGetProcAddress");
    reveal_strlit("SDL_GL_GetProcAddress");
    let a = r#"    if (!gladLoadGLLoader((GLADloadproc)"#@;
    let b = r#")) {
        std::cerr << "Failed to initialize glad\n";
        return -1;
    }"#@;
    let p = "glfwGetProcAddress"@;
    let r = "SDL_GL_GetProcAddress"@;
    assert(GLAD_GLFW_INIT@ == a + (p + b));
    assert(GLAD_SDL_INIT@ == a + r + b);
    assert(lacks_pair(a, 'l', 'f'));
    assert(lacks_pair(b, 'l', 'f'));
    lemma_lacks_pair_not_contains(a, p, 1);
    lemma_lacks_pair_not_contains(b, p, 1);
    lemma_replaced_missing(a, p, r);
    lemma_replaced_missing(b, p, r);
    lemma_replaced_split_left(a, p + b, p, r);
    lemma_replaced_leading(p, b, r);
}

/// Glad2: the two texts around the function that looks up OpenGL functions.
proof fn lemma_glad2_init_swaps()
    ensures
        replaced(GLAD2_GLFW_INIT@, "glfwGetProcAddress"@, "SDL_GL_GetProcAddress"@) == GLAD2_SDL_INIT@,
{
    reveal_strlit(r#"    if (!gladLoadGL((GLADloadfunc)glfwGetProcAddress)) {
        std::cerr << "Failed to initialize glad2\n";
        return -1;
    }"#);
    reveal_strlit(r#"    if (!gladLoadGL((GLADloadfunc)SDL_GL_GetProcAddress)) {
        std::cerr << "Failed to initialize glad2\n";
        return -1;
    }"#);
    reveal_strlit(r#"    if (!gladLoadGL((GLADloadfunc)"#);
    reveal_strlit(r#")) {
        std::cerr << "Failed to initialize glad2\n";
        return -1;
    }"#);
    reveal_strlit("glfwGetProcAddress");
    reveal_strlit("SDL_GL_GetProcAddress");
    let a = r#"    if (!gladLoadGL((GLADloadfunc)"#@;
    let b = r#")) {
        std::cerr << "Failed to initialize glad2\n";
        return -1;
    }"#@;
    let p = "glfwGetProcAddress"@;
    let r = "SDL_GL_GetProcAddress"@;
    assert(GLAD2_GLFW_INIT@ == a + (p + b));
    assert(GLAD2_SDL_INIT@ == a + r + b);
    assert(lacks_pair(a, 'l', 'f'));
    assert(lacks_pair(b, 'l', 'f'));
    lemma_lacks_pair_not_contains(a, p, 1);
    lemma_lacks_pair_not_contains(b, p, 1);
    lemma_replaced_missing(a, p, r);
    lemma_replaced_missing(b, p, r);
    lemma_replaced_split_left(a, p + b, p, r);
    lemma_replaced_leading(p, b, r);
}

/// With SDL3 the loader is set up as with GLFW, except that it is handed
/// SDL3's function for looking up OpenGL functions in place of GLFW's: the
/// SDL3 text is the GLFW text with `glfwGetProcAddress` replaced by
/// `SDL_GL_GetProcAddress`. GLEW looks the functions up itself, so its text
/// is the same for both.
pub proof fn sdl_loader_init_swaps_proc_address(loader: GlLoader)
    ensures
        sdl_loader_init_text(loader) == replaced(
            glfw_loader_init_text(loader),
            "glfwGetProcAddress"@,
            "SDL_GL_GetProcAddress"@,
        ),
        loader == GlLoader::Glew ==> sdl_loader_init_text(loader) == glfw_loader_init_text(loader),
{
    reveal_strlit("glfwGetProcAddress");
    match loader {
        GlLoader::Glad => lemma_glad_init_swaps(),
        GlLoader::Glad2 => lemma_glad2_init_swaps(),
        GlLoader::Glew => {
            reveal_strlit(r#"    glewExperimental = GL_TRUE;
    const GLenum glew_status = glewInit();
#ifdef GLEW_ERROR_NO_GLX_DISPLAY
    // GLEW reports this on Wayland even though the context is perfectly usable.
    const bool glew_ok = glew_status == GLEW_OK || glew_status == GLEW_ERROR_NO_GLX_DISPLAY;
#else
    const bool glew_ok = glew_status == GLEW_OK;
#endif
    if (!glew_ok) {
        std::cerr << "Failed to initialize GLEW: " << glewGetErrorString(glew_status) << "\n";
        return -1;
    }"#);
            assert(lacks_pair(GLEW_INIT@, 'l', 'f'));
            lemma_lacks_pair_not_contains(GLEW_INIT@, "glfwGetProcAddress"@, 1);
            lemma_replaced_missing(GLEW_INIT@, "glfwGetProcAddress"@, "SDL_GL_GetProcAddress"@);
        },
    }
}

/// The profile setting line of the glad 0.1 loader block, naming `profile`.
proof fn lemma_glad_profile_line(app: App)
    requires
        app.gl_loader == GlLoader::Glad,
    ensures
        contains(
            loader_block_text(app),
            "set(GLAD_PROFILE \""@ + glad_profile(app) + "\" CACHE STRING \"\" FORCE)"@,
        ),
{
    reveal_strlit("\" CACHE STRING \"\" FORCE)\nset(GLAD_PROFILE \"");
    reveal_strlit(r#"" CACHE STRING "" FORCE)
set(GLAD_GENERATOR "c" CACHE STRING "" FORCE)
set(GLAD_REPRODUCIBLE ON CACHE BOOL "" FORCE)

# glad 0.1 declares cmake_minimum_required(VERSION 3.0), which CMake 4 rejects.
if(CMAKE_VERSION VERSION_GREATER_EQUAL 4.0)
    set(CMAKE_POLICY_VERSION_MINIMUM 3.5)
endif()

add_subdirectory("${GLAD_DIR}" glad_build)
set(LOADER_LIB glad)
"#);
    reveal_strlit("set(GLAD_PROFILE \"");
    reveal_strlit("\" CACHE STRING \"\" FORCE)");
    let open = "set(GLAD_PROFILE \""@;
    let close = "\" CACHE STRING \"\" FORCE)"@;
    let p = GLAD_BLOCK_PROFILE@;
    let c = GLAD_BLOCK_CLOSE@;
    let v = glad_profile(app);
    let lead = p.subrange(0, p.len() - open.len());
    let rest = c.subrange(close.len() as int, c.len() as int);
    assert(p == lead + open);
    assert(c == close + rest);
    let pre = GLAD_BLOCK_OPEN@ + "--branch "@ + "master"@ + GLAD_FETCH_TAIL@ + GLAD_SOURCES_NOTE@
        + PYTHON_REQUIRED@ + GLAD_API_OPEN@ + api_version(app);
    let block = loader_block_text(app);
    assert(block == pre + p + v + c);
    assert(block == (pre + lead) + (open + v + close) + rest);
    lemma_contains_part(pre + lead, open + v + close, rest);
}

/// The profile argument of the glad2 loader block, naming `profile`.
proof fn lemma_glad2_profile_argument(app: App)
    requires
        app.gl_loader == GlLoader::Glad2,
    ensures
        contains(loader_block_text(app), "LOADER API gl:"@ + glad_profile(app) + "="@),
{
    reveal_strlit(r#"    RESULT_VARIABLE GLAD2_JINJA_RESULT
    OUTPUT_QUIET
    ERROR_QUIET
)
if(NOT GLAD2_JINJA_RESULT EQUAL 0)
    message(FATAL_ERROR
        "The glad2 generator needs the Jinja2 Python module:\n"
        "  \"${Python_EXECUTABLE}\" -m pip install --user jinja2\n"
        "Or regenerate this project with the 'glad' loader, which has no such dependency.")
endif()

add_subdirectory("${GLAD_SOURCES_DIR}/cmake" glad_build)
glad_add_library(glad_loader REPRODUCIBLE LOADER API gl:"#);
    reveal_strlit("=");
    reveal_strlit("LOADER API gl:");
    let open = "LOADER API gl:"@;
    let f = GLAD2_JINJA_FAILURE@;
    let v = glad_profile(app);
    let lead = f.subrange(0, f.len() - open.len());
    assert(f == lead + open);
    assert(GLAD2_BLOCK_API@ == "="@);
    let pre = GLAD2_BLOCK_OPEN@ + "--branch "@ + "glad2"@ + GLAD_FETCH_TAIL@ + PYTHON_REQUIRED@
        + GLAD2_JINJA_NOTE@ + JINJA2_CHECK@;
    let rest = api_version(app) + GLAD2_BLOCK_CLOSE@;
    let block = loader_block_text(app);
    assert(block == pre + f + v + GLAD2_BLOCK_API@ + api_version(app) + GLAD2_BLOCK_CLOSE@);
    assert(block == (pre + lead) + (open + v + "="@) + rest);
    lemma_contains_part(pre + lead, open + v + "="@, rest);
}

/// A glad loader is generated for the OpenGL profile that was chosen:
/// `compatibility` when the core profile is off and `core` when it is on,
/// whatever the loader (glad 0.1 or glad2) and the other choices. The loader
/// block says so (glad 0.1 in its `GLAD_PROFILE` setting, glad2 in the API
/// argument of `glad_add_library`), and so does every `CMakeLists.txt` for a
/// project name without `@`.
pub proof fn glad_generated_for_chosen_profile(app: App, project_name: Seq<char>)
    ensures
        app.gl_loader == GlLoader::Glad ==> contains(
            loader_block_text(app),
            "set(GLAD_PROFILE \""@ + (if app.core_profile {
                "core"@
            } else {
                "compatibility"@
            }) + "\" CACHE STRING \"\" FORCE)"@,
        ),
        app.gl_loader == GlLoader::Glad2 ==> contains(
            loader_block_text(app),
            "LOADER API gl:"@ + (if app.core_profile {
                "core"@
            } else {
                "compatibility"@
            }) + "="@,
        ),
        app.gl_loader == GlLoader::Glad && lacks(project_name, '@') ==> contains(
            cmake_lists_text(app, project_name),
            "set(GLAD_PROFILE \""@ + (if app.core_profile {
                "core"@
            } else {
                "compatibility"@
            }) + "\" CACHE STRING \"\" FORCE)"@,
        ),
        app.gl_loader == GlLoader::Glad2 && lacks(project_name, '@') ==> contains(
            cmake_lists_text(app, project_name),
            "LOADER API gl:"@ + (if app.core_profile {
                "core"@
            } else {
                "compatibility"@
            }) + "="@,
        ),
{
    let block = loader_block_text(app);
    let item = if app.gl_loader == GlLoader::Glad {
        "set(GLAD_PROFILE \""@ + glad_profile(app) + "\" CACHE STRING \"\" FORCE)"@
    } else {
        "LOADER API gl:"@ + glad_profile(app) + "="@
    };
    if app.gl_loader == GlLoader::Glad {
        lemma_glad_profile_line(app);
    } else if app.gl_loader == GlLoader::Glad2 {
        lemma_glad2_profile_argument(app);
    }
    if app.gl_loader != GlLoader::Glew && lacks(project_name, '@') {
        let parts = cmake_lists_blocks_in_order(app, project_name);
        let text = cmake_lists_text(app, project_name);
        let before = parts.0 + backend_block_text(app.window_backend) + parts.1;
        let after = parts.2 + optional_block_text(app) + parts.3;
        assert(text == before + block + after);
        lemma_contains_part(before, block, after);
        lemma_contains_trans(text, block, item);
    }
}

} // verus!
