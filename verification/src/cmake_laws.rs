//! Properties of `CMakeLists.txt` as a whole: each block goes where its
//! placeholder stands, and no placeholder is left.

use vstd::prelude::*;
use crate::app::App;
use crate::cmake::{
    api_version, backend_block_text, cmake_lists_text, filled, glad_profile, lines_joined,
    loader_block_text, optional_block_text, optional_uses, ADD_EXECUTABLE_LINE,
    BACKEND_BLOCK_SLOT, BACKEND_HEADING, BACKEND_REQUIRED, CMAKE_APP_SOURCES, CMAKE_ASSETS,
    CMAKE_MINIMUM_LINE, CMAKE_SETTINGS, CMAKE_STANDARD_LINE, CMAKE_STANDARD_REQUIRED,
    CMAKE_TARGET_SETUP, CMAKE_WARNINGS, CXX_STANDARD_SLOT, GLAD2_BLOCK_API, GLAD2_BLOCK_CLOSE,
    GLAD2_BLOCK_OPEN, GLAD2_JINJA_FAILURE, GLAD2_JINJA_NOTE, GLAD_API_OPEN, GLAD_BLOCK_CLOSE,
    GLAD_BLOCK_OPEN, GLAD_BLOCK_PROFILE, GLAD_FETCH_TAIL, GLAD_SOURCES_NOTE, GLEW_FALLBACK,
    GLEW_FIND, GLFW_FIND, GLFW_INSTALL_HINTS, GLFW_PKG_CONFIG, GLFW_SET_BACKEND, JINJA2_CHECK,
    LINK_LIBRARIES_LINES, LOADER_BLOCK_SLOT, LOADER_HEADING, OPTIONAL_BLOCK_SLOT, OPTIONAL_HEADER,
    OPTIONAL_HELPER, PROJECT_NAME_SLOT, PYTHON_REQUIRED, SDL3_FIND, SDL3_INSTALL_HINTS,
    SDL3_PKG_CONFIG, SDL3_SET_BACKEND, STB_IMAGE_BLOCK,
};
use crate::laws::{
    is_barrier, lemma_decimal_digits, lemma_filled_keeps_barrier, lemma_slots,
    lemma_template_barriers,
};
use crate::naming::cpp_standard;
use crate::options::{GlLoader, WindowBackend};
use crate::text::{
    decimal, lacks, lemma_decimal_lacks, lemma_lacks_concat, lemma_replaced_absent,
    lemma_replaced_untouched, lemma_replaced_whole,
};

verus! {

/// The longer fixed pieces of the template hold no `@`.
proof fn lemma_fixed_pieces_are_barriers()
    ensures
        is_barrier(CMAKE_SETTINGS@),
        is_barrier(CMAKE_APP_SOURCES@),
        is_barrier(CMAKE_TARGET_SETUP@),
        is_barrier(CMAKE_WARNINGS@),
        is_barrier(CMAKE_ASSETS@),
{
    reveal_strlit(r#"set(CMAKE_CXX_EXTENSIONS OFF)
set(CMAKE_EXPORT_COMPILE_COMMANDS ON)

# Single-config generators (Makefiles, Ninja) start with no build type at all.
if(NOT CMAKE_BUILD_TYPE AND NOT CMAKE_CONFIGURATION_TYPES)
    set(CMAKE_BUILD_TYPE Debug CACHE STRING "Build type" FORCE)
endif()

# Keep the executable in one predictable place across generators, so the
# debugger configs and the asset copy below always agree on the path.
set(CMAKE_RUNTIME_OUTPUT_DIRECTORY "${CMAKE_BINARY_DIR}/bin")
foreach(output_config IN ITEMS DEBUG RELEASE RELWITHDEBINFO MINSIZEREL)
    set(CMAKE_RUNTIME_OUTPUT_DIRECTORY_${output_config} "${CMAKE_BINARY_DIR}/bin")
endforeach()

# Used as a fallback everywhere a package ships only a .pc file.
find_package(PkgConfig QUIET)

# ---------------------------------------------------------------- OpenGL
set(OpenGL_GL_PREFERENCE GLVND)
find_package(OpenGL REQUIRED)

"#);
    reveal_strlit(r#"
# ---------------------------------------------------------------- Application
file(GLOB_RECURSE APP_SOURCES CONFIGURE_DEPENDS
    "${CMAKE_CURRENT_SOURCE_DIR}/src/*.cpp"
    "${CMAKE_CURRENT_SOURCE_DIR}/src/*.c"
)

"#);
    reveal_strlit(r#"

target_include_directories(${PROJECT_NAME} PRIVATE "${CMAKE_CURRENT_SOURCE_DIR}/include")

target_link_libraries(${PROJECT_NAME}
    PRIVATE
        OpenGL::GL
"#);
    reveal_strlit(r#"
if(MSVC)
    target_compile_options(${PROJECT_NAME} PRIVATE /W4 /permissive-)
else()
    target_compile_options(${PROJECT_NAME} PRIVATE -Wall -Wextra -Wpedantic)
endif()
"#);
    reveal_strlit(r#"
# ---------------------------------------------------------------- Assets
# Shaders and textures are loaded relative to the executable at runtime.
add_custom_command(TARGET ${PROJECT_NAME} POST_BUILD
    COMMAND ${CMAKE_COMMAND} -E copy_directory
            "${CMAKE_CURRENT_SOURCE_DIR}/assets"
            "$<TARGET_FILE_DIR:${PROJECT_NAME}>/assets"
    COMMENT "Copying assets next to the executable"
)
"#);
}

/// Filling in the placeholders leaves a barrier at the end as it is.
proof fn lemma_filled_append_barrier(x: Seq<char>, s: Seq<char>, app: App, name: Seq<char>)
    requires
        is_barrier(s),
    ensures
        filled(x + s, app, name) == filled(x, app, name) + s,
{
    let empty = Seq::<char>::empty();
    lemma_filled_keeps_barrier(x, s, empty, app, name);
    assert(x + s + empty == x + s);
    assert(filled(empty, app, name) == empty);
    assert(filled(x, app, name) + s + empty == filled(x, app, name) + s);
}

/// Filling in the placeholders fills in what follows a barrier on its own.
proof fn lemma_filled_after_barrier(x: Seq<char>, s: Seq<char>, y: Seq<char>, app: App, name: Seq<char>)
    requires
        is_barrier(s),
    ensures
        filled(x + s + y, app, name) == filled(x + s, app, name) + filled(y, app, name),
{
    lemma_filled_keeps_barrier(x, s, y, app, name);
    lemma_filled_append_barrier(x, s, app, name);
}

/// The backend block holds no `@`.
proof fn lemma_backend_block_lacks_at(backend: WindowBackend)
    ensures
        lacks(backend_block_text(backend), '@'),
{
    match backend {
        WindowBackend::Glfw => {
            reveal_strlit("find_package(glfw3 CONFIG QUIET)\nif(TARGET glfw)\n");
            reveal_strlit("    set(BACKEND_LIB glfw)\n");
            reveal_strlit(r#"elseif(PkgConfig_FOUND)
    pkg_check_modules(GLFW3_PC QUIET IMPORTED_TARGET glfw3)
    if(TARGET PkgConfig::GLFW3_PC)
        set(BACKEND_LIB PkgConfig::GLFW3_PC)
    endif()
endif()

"#);
            reveal_strlit("if(NOT BACKEND_LIB)\n    message(FATAL_ERROR\n");
            reveal_strlit(r#"        "GLFW was not found. Install it with one of:\n"
        "  Debian/Ubuntu : sudo apt install libglfw3-dev\n"
        "  Fedora        : sudo dnf install glfw-devel\n"
        "  Arch          : sudo pacman -S glfw\n"
        "  macOS         : brew install glfw\n"
        "  vcpkg         : vcpkg install glfw3 (configure with the vcpkg toolchain file)")
endif()
"#);
            assert(lacks(GLFW_FIND@, '@'));
            assert(lacks(GLFW_SET_BACKEND@, '@'));
            assert(lacks(GLFW_PKG_CONFIG@, '@'));
            assert(lacks(BACKEND_REQUIRED@, '@'));
            assert(lacks(GLFW_INSTALL_HINTS@, '@'));
            let s2 = GLFW_FIND@ + GLFW_SET_BACKEND@;
            let s3 = s2 + GLFW_PKG_CONFIG@;
            let s4 = s3 + BACKEND_REQUIRED@;
            let s5 = s4 + GLFW_INSTALL_HINTS@;
            lemma_lacks_concat(GLFW_FIND@, GLFW_SET_BACKEND@, '@');
            lemma_lacks_concat(s2, GLFW_PKG_CONFIG@, '@');
            lemma_lacks_concat(s3, BACKEND_REQUIRED@, '@');
            lemma_lacks_concat(s4, GLFW_INSTALL_HINTS@, '@');
        },
        WindowBackend::Sdl3 => {
            reveal_strlit("find_package(SDL3 CONFIG QUIET)\nif(TARGET SDL3::SDL3)\n");
            reveal_strlit("    set(BACKEND_LIB SDL3::SDL3)\n");
            reveal_strlit(r#"elseif(PkgConfig_FOUND)
    pkg_check_modules(SDL3_PC QUIET IMPORTED_TARGET sdl3)
    if(TARGET PkgConfig::SDL3_PC)
        set(BACKEND_LIB PkgConfig::SDL3_PC)
    endif()
endif()

"#);
            reveal_strlit("if(NOT BACKEND_LIB)\n    message(FATAL_ERROR\n");
            reveal_strlit(r#"        "SDL3 was not found. Install it with one of:\n"
        "  Fedora : sudo dnf install SDL3-devel\n"
        "  Arch   : sudo pacman -S sdl3\n"
        "  macOS  : brew install sdl3\n"
        "  vcpkg  : vcpkg install sdl3 (configure with the vcpkg toolchain file)\n"
        "  source : https://github.com/libsdl-org/SDL")
endif()
"#);
            assert(lacks(SDL3_FIND@, '@'));
            assert(lacks(SDL3_SET_BACKEND@, '@'));
            assert(lacks(SDL3_PKG_CONFIG@, '@'));
            assert(lacks(BACKEND_REQUIRED@, '@'));
            assert(lacks(SDL3_INSTALL_HINTS@, '@'));
            let s2 = SDL3_FIND@ + SDL3_SET_BACKEND@;
            let s3 = s2 + SDL3_PKG_CONFIG@;
            let s4 = s3 + BACKEND_REQUIRED@;
            let s5 = s4 + SDL3_INSTALL_HINTS@;
            lemma_lacks_concat(SDL3_FIND@, SDL3_SET_BACKEND@, '@');
            lemma_lacks_concat(s2, SDL3_PKG_CONFIG@, '@');
            lemma_lacks_concat(s3, BACKEND_REQUIRED@, '@');
            lemma_lacks_concat(s4, SDL3_INSTALL_HINTS@, '@');
        },
    }
}

/// The loader block holds no `@`.
proof fn lemma_loader_block_lacks_at(app: App)
    ensures
        lacks(loader_block_text(app), '@'),
{
    lemma_decimal_lacks(app.opengl_major as nat, '@');
    lemma_decimal_lacks(app.opengl_minor as nat, '@');
    reveal_strlit(".");
    reveal_strlit("--branch ");
    reveal_strlit("core");
    reveal_strlit("compatibility");
    assert(lacks("."@, '@'));
    lemma_lacks_concat(decimal(app.opengl_major as nat), "."@, '@');
    lemma_lacks_concat(decimal(app.opengl_major as nat) + "."@, decimal(app.opengl_minor as nat), '@');
    match app.gl_loader {
        GlLoader::Glad => {
            reveal_strlit("master");
            reveal_strlit(r#"set(GLAD_DIR "${CMAKE_CURRENT_SOURCE_DIR}/third_party/glad")
if(NOT EXISTS "${GLAD_DIR}/CMakeLists.txt")
    message(FATAL_ERROR
        "third_party/glad is missing. Fetch it with:\n"
        "  git clone --depth 1 "#);
            reveal_strlit(" https://github.com/Dav1dde/glad.git third_party/glad\")\nendif()\n\n");
            reveal_strlit(r#"# glad 0.1 generates its sources at build time with a Python script. It needs
# only the standard library, but the interpreter has to exist -- fail here with
# a readable message rather than midway through the build.
"#);
            reveal_strlit("find_package(Python COMPONENTS Interpreter REQUIRED)\n");
            reveal_strlit(r#"
set(GLAD_API "gl="#);
            reveal_strlit("\" CACHE STRING \"\" FORCE)\nset(GLAD_PROFILE \"");
            reveal_strlit(r#"" CACHE STRING "" FORCE)
set(GLAD_GENERATOR "c" CACHE STRING "" FORCE)
set(GLAD_REPRODUCIBLE ON CACHE BOOL "" FORCE)

# glad 0.1 declares cmake_minimum_required(VERSION 3.0), which CMake 4 rejects.
if(CMAKE_VERSION VERSION_GREATER_EQUAL 4.0)
    set(CMAKE_POLICY_VERSION_MINIMUM 3.5)
endif()

add_subdirectory("${GLAD_DIR}" glad_build)
set(LOADER_LIB glad)
"#);
            assert(lacks(GLAD_BLOCK_OPEN@, '@'));
            assert(lacks("--branch "@, '@'));
            assert(lacks("master"@, '@'));
            assert(lacks(GLAD_FETCH_TAIL@, '@'));
            assert(lacks(GLAD_SOURCES_NOTE@, '@'));
            assert(lacks(PYTHON_REQUIRED@, '@'));
            assert(lacks(GLAD_API_OPEN@, '@'));
            assert(lacks(api_version(app), '@'));
            assert(lacks(GLAD_BLOCK_PROFILE@, '@'));
            assert(lacks(glad_profile(app), '@'));
            assert(lacks(GLAD_BLOCK_CLOSE@, '@'));
            let s2 = GLAD_BLOCK_OPEN@ + "--branch "@;
            let s3 = s2 + "master"@;
            let s4 = s3 + GLAD_FETCH_TAIL@;
            let s5 = s4 + GLAD_SOURCES_NOTE@;
            let s6 = s5 + PYTHON_REQUIRED@;
            let s7 = s6 + GLAD_API_OPEN@;
            let s8 = s7 + api_version(app);
            let s9 = s8 + GLAD_BLOCK_PROFILE@;
            let s10 = s9 + glad_profile(app);
            let s11 = s10 + GLAD_BLOCK_CLOSE@;
            lemma_lacks_concat(GLAD_BLOCK_OPEN@, "--branch "@, '@');
            lemma_lacks_concat(s2, "master"@, '@');
            lemma_lacks_concat(s3, GLAD_FETCH_TAIL@, '@');
            lemma_lacks_concat(s4, GLAD_SOURCES_NOTE@, '@');
            lemma_lacks_concat(s5, PYTHON_REQUIRED@, '@');
            lemma_lacks_concat(s6, GLAD_API_OPEN@, '@');
            lemma_lacks_concat(s7, api_version(app), '@');
            lemma_lacks_concat(s8, GLAD_BLOCK_PROFILE@, '@');
            lemma_lacks_concat(s9, glad_profile(app), '@');
            lemma_lacks_concat(s10, GLAD_BLOCK_CLOSE@, '@');
        },
        GlLoader::Glad2 => {
            reveal_strlit("glad2");
            reveal_strlit(r#"set(GLAD_SOURCES_DIR "${CMAKE_CURRENT_SOURCE_DIR}/third_party/glad")
if(NOT EXISTS "${GLAD_SOURCES_DIR}/cmake/CMakeLists.txt")
    message(FATAL_ERROR
        "third_party/glad is missing. Fetch it with:\n"
        "  git clone --depth 1 "#);
            reveal_strlit(" https://github.com/Dav1dde/glad.git third_party/glad\")\nendif()\n\n");
            reveal_strlit("find_package(Python COMPONENTS Interpreter REQUIRED)\n");
            reveal_strlit(r#"
# Unlike glad 0.1, the glad2 generator depends on Jinja2. Check for it now so
# the failure is one actionable line instead of a traceback during the build.
execute_process(
"#);
            reveal_strlit("    COMMAND \"${Python_EXECUTABLE}\" -c \"import jinja2\"\n");
            reveal_strlit(r#"    RESULT_VARIABLE GLAD2_JINJA_RESULT
    OUTPUT_QUIET
    ERROR_QUIET
)
if(NOT GLAD2_JINJA_RESULT EQUAL 0)
    message(FATAL_ERROR
        "The glad2 generator needs the Jinja2 Python module:\n"
        "  \"${Python_EXECUTABLE}\" -m pip install --user jinja2\n"
        "Or regenerate this project with the 'glad' loader, which has no such dependency.")
endif()

add_subdirectory("${GLAD_SOURCES_DIR}/cmake" glad_build)
glad_add_library(glad_loader REPRODUCIBLE LOADER API gl:"#);
            reveal_strlit("=");
            reveal_strlit(")\nset(LOADER_LIB glad_loader)\n");
            assert(lacks(GLAD2_BLOCK_OPEN@, '@'));
            assert(lacks("--branch "@, '@'));
            assert(lacks("glad2"@, '@'));
            assert(lacks(GLAD_FETCH_TAIL@, '@'));
            assert(lacks(PYTHON_REQUIRED@, '@'));
            assert(lacks(GLAD2_JINJA_NOTE@, '@'));
            assert(lacks(JINJA2_CHECK@, '@'));
            assert(lacks(GLAD2_JINJA_FAILURE@, '@'));
            assert(lacks(glad_profile(app), '@'));
            assert(lacks(GLAD2_BLOCK_API@, '@'));
            assert(lacks(api_version(app), '@'));
            assert(lacks(GLAD2_BLOCK_CLOSE@, '@'));
            let s2 = GLAD2_BLOCK_OPEN@ + "--branch "@;
            let s3 = s2 + "glad2"@;
            let s4 = s3 + GLAD_FETCH_TAIL@;
            let s5 = s4 + PYTHON_REQUIRED@;
            let s6 = s5 + GLAD2_JINJA_NOTE@;
            let s7 = s6 + JINJA2_CHECK@;
            let s8 = s7 + GLAD2_JINJA_FAILURE@;
            let s9 = s8 + glad_profile(app);
            let s10 = s9 + GLAD2_BLOCK_API@;
            let s11 = s10 + api_version(app);
            let s12 = s11 + GLAD2_BLOCK_CLOSE@;
            lemma_lacks_concat(GLAD2_BLOCK_OPEN@, "--branch "@, '@');
            lemma_lacks_concat(s2, "glad2"@, '@');
            lemma_lacks_concat(s3, GLAD_FETCH_TAIL@, '@');
            lemma_lacks_concat(s4, PYTHON_REQUIRED@, '@');
            lemma_lacks_concat(s5, GLAD2_JINJA_NOTE@, '@');
            lemma_lacks_concat(s6, JINJA2_CHECK@, '@');
            lemma_lacks_concat(s7, GLAD2_JINJA_FAILURE@, '@');
            lemma_lacks_concat(s8, glad_profile(app), '@');
            lemma_lacks_concat(s9, GLAD2_BLOCK_API@, '@');
            lemma_lacks_concat(s10, api_version(app), '@');
            lemma_lacks_concat(s11, GLAD2_BLOCK_CLOSE@, '@');
        },
        GlLoader::Glew => {
            reveal_strlit("find_package(GLEW QUIET)\n");
            reveal_strlit(r#"if(TARGET GLEW::GLEW)
    set(LOADER_LIB GLEW::GLEW)
elseif(PkgConfig_FOUND)
    pkg_check_modules(GLEW_PC QUIET IMPORTED_TARGET glew)
    if(TARGET PkgConfig::GLEW_PC)
        set(LOADER_LIB PkgConfig::GLEW_PC)
    endif()
endif()

if(NOT LOADER_LIB)
    message(FATAL_ERROR
        "GLEW was not found. Install it with one of:\n"
        "  Debian/Ubuntu : sudo apt install libglew-dev\n"
        "  Fedora        : sudo dnf install glew-devel\n"
        "  Arch          : sudo pacman -S glew\n"
        "  macOS         : brew install glew\n"
        "  vcpkg         : vcpkg install glew (configure with the vcpkg toolchain file)")
endif()
"#);
            assert(lacks(GLEW_FIND@, '@'));
            assert(lacks(GLEW_FALLBACK@, '@'));
            let s2 = GLEW_FIND@ + GLEW_FALLBACK@;
            lemma_lacks_concat(GLEW_FIND@, GLEW_FALLBACK@, '@');
        },
    }
}

/// Lines that each lack a character, joined, lack it too.
proof fn lemma_lines_joined_lacks(lines: Seq<Seq<char>>, c: char)
    requires
        c != '\n',
        forall|k: int| 0 <= k < lines.len() ==> lacks(#[trigger] lines[k], c),
    ensures
        lacks(lines_joined(lines), c),
    decreases lines.len(),
{
    if lines.len() == 1 {
        assert(lacks(lines[0], c));
    } else if lines.len() > 1 {
        let init = lines.drop_last();
        assert forall|k: int| 0 <= k < init.len() implies lacks(#[trigger] init[k], c) by {
            assert(init[k] == lines[k]);
        }
        lemma_lines_joined_lacks(init, c);
        reveal_strlit("\n");
        assert(lacks("\n"@, c));
        assert(lacks(lines[lines.len() - 1], c));
        lemma_lacks_concat(lines_joined(init), "\n"@, c);
        lemma_lacks_concat(lines_joined(init) + "\n"@, lines.last(), c);
    }
}

/// The optional libraries section holds no `@`.
proof fn lemma_optional_block_lacks_at(app: App)
    ensures
        lacks(optional_block_text(app), '@'),
{
    reveal_strlit(r#"
# ---------------------------------------------------------------- Optional libraries"#);
    reveal_strlit(r#"
# Links PKG to the executable if it can be found, and defines DEFINE when it is.
# Extra arguments are the imported target names to try, in order.
function(app_use_optional PKG DEFINE)
    find_package(${PKG} CONFIG QUIET)
    foreach(candidate IN LISTS ARGN)
        if(TARGET ${candidate})
            target_link_libraries(${PROJECT_NAME} PRIVATE ${candidate})
            target_compile_definitions(${PROJECT_NAME} PRIVATE ${DEFINE})
            message(STATUS "Optional dependency ${PKG}: using ${candidate}")
            return()
        endif()
    endforeach()

    if(PkgConfig_FOUND)
        string(TOLOWER "${PKG}" pc_module)
        pkg_check_modules(OPT_${PKG} QUIET IMPORTED_TARGET ${pc_module})
        if(TARGET PkgConfig::OPT_${PKG})
            target_link_libraries(${PROJECT_NAME} PRIVATE PkgConfig::OPT_${PKG})
            target_compile_definitions(${PROJECT_NAME} PRIVATE ${DEFINE})
            message(STATUS "Optional dependency ${PKG}: using pkg-config module ${pc_module}")
            return()
        endif()
    endif()

    message(STATUS "Optional dependency ${PKG}: not found, skipped")
endfunction()

"#);
    reveal_strlit(r#"
# stb_image is a single header, so it has no link target -- just an include dir.
find_path(STB_IMAGE_INCLUDE_DIR NAMES stb_image.h PATH_SUFFIXES stb)
if(STB_IMAGE_INCLUDE_DIR)
    target_include_directories(${PROJECT_NAME} PRIVATE "${STB_IMAGE_INCLUDE_DIR}")
    target_compile_definitions(${PROJECT_NAME} PRIVATE HAVE_STB_IMAGE)
    message(STATUS "Optional dependency stb_image: using ${STB_IMAGE_INCLUDE_DIR}")
else()
    message(STATUS "Optional dependency stb_image: not found, skipped")
endif()
"#);
    reveal_strlit("app_use_optional(glm HAVE_GLM glm::glm glm)");
    reveal_strlit("app_use_optional(imgui HAVE_IMGUI imgui::imgui)");
    reveal_strlit("app_use_optional(assimp HAVE_ASSIMP assimp::assimp)");
    reveal_strlit("app_use_optional(fmt HAVE_FMT fmt::fmt)");
    reveal_strlit("app_use_optional(spdlog HAVE_SPDLOG spdlog::spdlog)");
    let uses = optional_uses(app);
    assert forall|k: int| 0 <= k < uses.len() implies lacks(#[trigger] uses[k], '@') by {
        assert(lacks("app_use_optional(glm HAVE_GLM glm::glm glm)"@, '@'));
        assert(lacks("app_use_optional(imgui HAVE_IMGUI imgui::imgui)"@, '@'));
        assert(lacks("app_use_optional(assimp HAVE_ASSIMP assimp::assimp)"@, '@'));
        assert(lacks("app_use_optional(fmt HAVE_FMT fmt::fmt)"@, '@'));
        assert(lacks("app_use_optional(spdlog HAVE_SPDLOG spdlog::spdlog)"@, '@'));
    }
    lemma_lines_joined_lacks(uses, '@');
    assert(lacks(OPTIONAL_HEADER@, '@'));
    assert(lacks(OPTIONAL_HELPER@, '@'));
    assert(lacks(STB_IMAGE_BLOCK@, '@'));
    reveal_strlit("\n");
    assert(lacks("\n"@, '@'));
    let helped = if uses.len() == 0 {
        Seq::<char>::empty()
    } else {
        OPTIONAL_HELPER@ + lines_joined(uses) + "\n"@
    };
    let stb = if app.include_stb_image {
        STB_IMAGE_BLOCK@
    } else {
        Seq::<char>::empty()
    };
    if uses.len() != 0 {
        lemma_lacks_concat(OPTIONAL_HELPER@, lines_joined(uses), '@');
        lemma_lacks_concat(OPTIONAL_HELPER@ + lines_joined(uses), "\n"@, '@');
    }
    lemma_lacks_concat(OPTIONAL_HEADER@, helped, '@');
    lemma_lacks_concat(OPTIONAL_HEADER@ + helped, stb, '@');
}

/// The project name goes in for its placeholder, and stays as it is.
proof fn lemma_fill_name(app: App, project_name: Seq<char>)
    requires
        lacks(project_name, '@'),
    ensures
        filled(PROJECT_NAME_SLOT@, app, project_name) == project_name,
{
    lemma_slots();
    reveal_strlit("@PROJECT_NAME@");
    reveal_strlit("@CXX_STANDARD@");
    reveal_strlit("@BACKEND_BLOCK@");
    reveal_strlit("@LOADER_BLOCK@");
    reveal_strlit("@OPTIONAL_BLOCK@");
    let p1 = PROJECT_NAME_SLOT@;
    let p2 = CXX_STANDARD_SLOT@;
    let p3 = BACKEND_BLOCK_SLOT@;
    let p4 = LOADER_BLOCK_SLOT@;
    let p5 = OPTIONAL_BLOCK_SLOT@;
    let r1 = project_name;
    let r2 = decimal(cpp_standard(app.cpp_standard@));
    let r3 = backend_block_text(app.window_backend);
    let r4 = loader_block_text(app);
    let r5 = optional_block_text(app);
    lemma_decimal_digits(cpp_standard(app.cpp_standard@));
    lemma_replaced_whole(p1, r1);
    lemma_replaced_untouched(r1, p2, r2);
    lemma_replaced_untouched(r1, p3, r3);
    lemma_replaced_untouched(r1, p4, r4);
    lemma_replaced_untouched(r1, p5, r5);
}

/// The C++ standard goes in for its placeholder, and stays as it is.
proof fn lemma_fill_standard(app: App, project_name: Seq<char>)
    requires
        lacks(project_name, '@'),
    ensures
        filled(CXX_STANDARD_SLOT@, app, project_name) == decimal(cpp_standard(app.cpp_standard@)),
{
    lemma_slots();
    reveal_strlit("@PROJECT_NAME@");
    reveal_strlit("@CXX_STANDARD@");
    reveal_strlit("@BACKEND_BLOCK@");
    reveal_strlit("@LOADER_BLOCK@");
    reveal_strlit("@OPTIONAL_BLOCK@");
    let p1 = PROJECT_NAME_SLOT@;
    let p2 = CXX_STANDARD_SLOT@;
    let p3 = BACKEND_BLOCK_SLOT@;
    let p4 = LOADER_BLOCK_SLOT@;
    let p5 = OPTIONAL_BLOCK_SLOT@;
    let r1 = project_name;
    let r2 = decimal(cpp_standard(app.cpp_standard@));
    let r3 = backend_block_text(app.window_backend);
    let r4 = loader_block_text(app);
    let r5 = optional_block_text(app);
    lemma_decimal_digits(cpp_standard(app.cpp_standard@));
    lemma_replaced_absent(p2, p1, r1);
    lemma_replaced_whole(p2, r2);
    lemma_replaced_untouched(r2, p3, r3);
    lemma_replaced_untouched(r2, p4, r4);
    lemma_replaced_untouched(r2, p5, r5);
}

/// The backend block goes in for its placeholder, and stays as it is.
proof fn lemma_fill_backend(app: App, project_name: Seq<char>)
    requires
        lacks(project_name, '@'),
    ensures
        filled(BACKEND_BLOCK_SLOT@, app, project_name) == backend_block_text(app.window_backend),
{
    lemma_slots();
    reveal_strlit("@PROJECT_NAME@");
    reveal_strlit("@CXX_STANDARD@");
    reveal_strlit("@BACKEND_BLOCK@");
    reveal_strlit("@LOADER_BLOCK@");
    reveal_strlit("@OPTIONAL_BLOCK@");
    let p1 = PROJECT_NAME_SLOT@;
    let p2 = CXX_STANDARD_SLOT@;
    let p3 = BACKEND_BLOCK_SLOT@;
    let p4 = LOADER_BLOCK_SLOT@;
    let p5 = OPTIONAL_BLOCK_SLOT@;
    let r1 = project_name;
    let r2 = decimal(cpp_standard(app.cpp_standard@));
    let r3 = backend_block_text(app.window_backend);
    let r4 = loader_block_text(app);
    let r5 = optional_block_text(app);
    lemma_backend_block_lacks_at(app.window_backend);
    lemma_replaced_absent(p3, p1, r1);
    lemma_replaced_absent(p3, p2, r2);
    lemma_replaced_whole(p3, r3);
    lemma_replaced_untouched(r3, p4, r4);
    lemma_replaced_untouched(r3, p5, r5);
}

/// The loader block goes in for its placeholder, and stays as it is.
proof fn lemma_fill_loader(app: App, project_name: Seq<char>)
    requires
        lacks(project_name, '@'),
    ensures
        filled(LOADER_BLOCK_SLOT@, app, project_name) == loader_block_text(app),
{
    lemma_slots();
    reveal_strlit("@PROJECT_NAME@");
    reveal_strlit("@CXX_STANDARD@");
    reveal_strlit("@BACKEND_BLOCK@");
    reveal_strlit("@LOADER_BLOCK@");
    reveal_strlit("@OPTIONAL_BLOCK@");
    let p1 = PROJECT_NAME_SLOT@;
    let p2 = CXX_STANDARD_SLOT@;
    let p3 = BACKEND_BLOCK_SLOT@;
    let p4 = LOADER_BLOCK_SLOT@;
    let p5 = OPTIONAL_BLOCK_SLOT@;
    let r1 = project_name;
    let r2 = decimal(cpp_standard(app.cpp_standard@));
    let r3 = backend_block_text(app.window_backend);
    let r4 = loader_block_text(app);
    let r5 = optional_block_text(app);
    lemma_loader_block_lacks_at(app);
    lemma_replaced_absent(p4, p1, r1);
    lemma_replaced_absent(p4, p2, r2);
    lemma_replaced_absent(p4, p3, r3);
    lemma_replaced_whole(p4, r4);
    lemma_replaced_untouched(r4, p5, r5);
}

/// The optional libraries section goes in for its placeholder.
proof fn lemma_fill_optional(app: App, project_name: Seq<char>)
    requires
        lacks(project_name, '@'),
    ensures
        filled(OPTIONAL_BLOCK_SLOT@, app, project_name) == optional_block_text(app),
{
    lemma_slots();
    reveal_strlit("@PROJECT_NAME@");
    reveal_strlit("@CXX_STANDARD@");
    reveal_strlit("@BACKEND_BLOCK@");
    reveal_strlit("@LOADER_BLOCK@");
    reveal_strlit("@OPTIONAL_BLOCK@");
    let p1 = PROJECT_NAME_SLOT@;
    let p2 = CXX_STANDARD_SLOT@;
    let p3 = BACKEND_BLOCK_SLOT@;
    let p4 = LOADER_BLOCK_SLOT@;
    let p5 = OPTIONAL_BLOCK_SLOT@;
    let r1 = project_name;
    let r2 = decimal(cpp_standard(app.cpp_standard@));
    let r3 = backend_block_text(app.window_backend);
    let r4 = loader_block_text(app);
    let r5 = optional_block_text(app);
    lemma_replaced_absent(p5, p1, r1);
    lemma_replaced_absent(p5, p2, r2);
    lemma_replaced_absent(p5, p3, r3);
    lemma_replaced_absent(p5, p4, r4);
    lemma_replaced_whole(p5, r5);
}

/// Each placeholder is filled in with what belongs there, and nothing else
/// touches it.
proof fn lemma_slot_fillings(app: App, project_name: Seq<char>)
    requires
        lacks(project_name, '@'),
    ensures
        filled(Seq::<char>::empty(), app, project_name) == Seq::<char>::empty(),
        filled(PROJECT_NAME_SLOT@, app, project_name) == project_name,
        filled(CXX_STANDARD_SLOT@, app, project_name) == decimal(cpp_standard(app.cpp_standard@)),
        filled(BACKEND_BLOCK_SLOT@, app, project_name) == backend_block_text(app.window_backend),
        filled(LOADER_BLOCK_SLOT@, app, project_name) == loader_block_text(app),
        filled(OPTIONAL_BLOCK_SLOT@, app, project_name) == optional_block_text(app),
{
    lemma_fill_name(app, project_name);
    lemma_fill_standard(app, project_name);
    lemma_fill_backend(app, project_name);
    lemma_fill_loader(app, project_name);
    lemma_fill_optional(app, project_name);
}

/// `CMakeLists.txt` is the template with each placeholder filled in where it
/// stands.
proof fn lemma_cmake_lists_pieces(app: App, project_name: Seq<char>)
    requires
        lacks(project_name, '@'),
    ensures
        cmake_lists_text(app, project_name) == CMAKE_MINIMUM_LINE@
            + project_name
            + CMAKE_STANDARD_LINE@
            + decimal(cpp_standard(app.cpp_standard@))
            + CMAKE_STANDARD_REQUIRED@
            + CMAKE_SETTINGS@
            + BACKEND_HEADING@
            + backend_block_text(app.window_backend)
            + LOADER_HEADING@
            + loader_block_text(app)
            + CMAKE_APP_SOURCES@
            + ADD_EXECUTABLE_LINE@
            + CMAKE_TARGET_SETUP@
            + LINK_LIBRARIES_LINES@
            + CMAKE_WARNINGS@
            + optional_block_text(app)
            + CMAKE_ASSETS@,
{
    lemma_template_barriers();
    lemma_fixed_pieces_are_barriers();
    lemma_slot_fillings(app, project_name);
    let empty = Seq::<char>::empty();
    let standard = decimal(cpp_standard(app.cpp_standard@));
    let backend = backend_block_text(app.window_backend);
    let loader = loader_block_text(app);
    let optional = optional_block_text(app);
    let t2 = CMAKE_MINIMUM_LINE@ + PROJECT_NAME_SLOT@;
    let t3 = t2 + CMAKE_STANDARD_LINE@;
    let t4 = t3 + CXX_STANDARD_SLOT@;
    let t5 = t4 + CMAKE_STANDARD_REQUIRED@;
    let t6 = t5 + CMAKE_SETTINGS@;
    let t7 = t6 + BACKEND_HEADING@;
    let t8 = t7 + BACKEND_BLOCK_SLOT@;
    let t9 = t8 + LOADER_HEADING@;
    let t10 = t9 + LOADER_BLOCK_SLOT@;
    let t11 = t10 + CMAKE_APP_SOURCES@;
    let t12 = t11 + ADD_EXECUTABLE_LINE@;
    let t13 = t12 + CMAKE_TARGET_SETUP@;
    let t14 = t13 + LINK_LIBRARIES_LINES@;
    let t15 = t14 + CMAKE_WARNINGS@;
    let t16 = t15 + OPTIONAL_BLOCK_SLOT@;
    let t17 = t16 + CMAKE_ASSETS@;
    lemma_filled_append_barrier(empty, CMAKE_MINIMUM_LINE@, app, project_name);
    assert(empty + CMAKE_MINIMUM_LINE@ == CMAKE_MINIMUM_LINE@);
    lemma_filled_after_barrier(empty, CMAKE_MINIMUM_LINE@, PROJECT_NAME_SLOT@, app, project_name);
    assert(empty + CMAKE_MINIMUM_LINE@ + PROJECT_NAME_SLOT@ == CMAKE_MINIMUM_LINE@ + PROJECT_NAME_SLOT@);
    lemma_filled_append_barrier(t2, CMAKE_STANDARD_LINE@, app, project_name);
    lemma_filled_after_barrier(t2, CMAKE_STANDARD_LINE@, CXX_STANDARD_SLOT@, app, project_name);
    lemma_filled_append_barrier(t4, CMAKE_STANDARD_REQUIRED@, app, project_name);
    lemma_filled_append_barrier(t5, CMAKE_SETTINGS@, app, project_name);
    lemma_filled_append_barrier(t6, BACKEND_HEADING@, app, project_name);
    lemma_filled_after_barrier(t6, BACKEND_HEADING@, BACKEND_BLOCK_SLOT@, app, project_name);
    lemma_filled_append_barrier(t8, LOADER_HEADING@, app, project_name);
    lemma_filled_after_barrier(t8, LOADER_HEADING@, LOADER_BLOCK_SLOT@, app, project_name);
    lemma_filled_append_barrier(t10, CMAKE_APP_SOURCES@, app, project_name);
    lemma_filled_append_barrier(t11, ADD_EXECUTABLE_LINE@, app, project_name);
    lemma_filled_append_barrier(t12, CMAKE_TARGET_SETUP@, app, project_name);
    lemma_filled_append_barrier(t13, LINK_LIBRARIES_LINES@, app, project_name);
    lemma_filled_append_barrier(t14, CMAKE_WARNINGS@, app, project_name);
    lemma_filled_after_barrier(t14, CMAKE_WARNINGS@, OPTIONAL_BLOCK_SLOT@, app, project_name);
    lemma_filled_append_barrier(t16, CMAKE_ASSETS@, app, project_name);
}

/// `CMakeLists.txt` holds no `@`.
proof fn lemma_cmake_lists_lacks_at(app: App, project_name: Seq<char>)
    requires
        lacks(project_name, '@'),
    ensures
        lacks(cmake_lists_text(app, project_name), '@'),
{
    lemma_cmake_lists_pieces(app, project_name);
    lemma_template_barriers();
    lemma_fixed_pieces_are_barriers();
    let standard = decimal(cpp_standard(app.cpp_standard@));
    let backend = backend_block_text(app.window_backend);
    let loader = loader_block_text(app);
    let optional = optional_block_text(app);
    lemma_decimal_digits(cpp_standard(app.cpp_standard@));
    lemma_backend_block_lacks_at(app.window_backend);
    lemma_loader_block_lacks_at(app);
    lemma_optional_block_lacks_at(app);
    assert(lacks(CMAKE_MINIMUM_LINE@, '@'));
    assert(lacks(CMAKE_STANDARD_LINE@, '@'));
    assert(lacks(CMAKE_STANDARD_REQUIRED@, '@'));
    assert(lacks(CMAKE_SETTINGS@, '@'));
    assert(lacks(BACKEND_HEADING@, '@'));
    assert(lacks(LOADER_HEADING@, '@'));
    assert(lacks(CMAKE_APP_SOURCES@, '@'));
    assert(lacks(ADD_EXECUTABLE_LINE@, '@'));
    assert(lacks(CMAKE_TARGET_SETUP@, '@'));
    assert(lacks(LINK_LIBRARIES_LINES@, '@'));
    assert(lacks(CMAKE_WARNINGS@, '@'));
    assert(lacks(CMAKE_ASSETS@, '@'));
    assert(lacks(standard, '@'));
    let v2 = CMAKE_MINIMUM_LINE@ + project_name;
    let v3 = v2 + CMAKE_STANDARD_LINE@;
    let v4 = v3 + standard;
    let v5 = v4 + CMAKE_STANDARD_REQUIRED@;
    let v6 = v5 + CMAKE_SETTINGS@;
    let v7 = v6 + BACKEND_HEADING@;
    let v8 = v7 + backend;
    let v9 = v8 + LOADER_HEADING@;
    let v10 = v9 + loader;
    let v11 = v10 + CMAKE_APP_SOURCES@;
    let v12 = v11 + ADD_EXECUTABLE_LINE@;
    let v13 = v12 + CMAKE_TARGET_SETUP@;
    let v14 = v13 + LINK_LIBRARIES_LINES@;
    let v15 = v14 + CMAKE_WARNINGS@;
    let v16 = v15 + optional;
    let v17 = v16 + CMAKE_ASSETS@;
    lemma_lacks_concat(CMAKE_MINIMUM_LINE@, project_name, '@');
    lemma_lacks_concat(v2, CMAKE_STANDARD_LINE@, '@');
    lemma_lacks_concat(v3, standard, '@');
    lemma_lacks_concat(v4, CMAKE_STANDARD_REQUIRED@, '@');
    lemma_lacks_concat(v5, CMAKE_SETTINGS@, '@');
    lemma_lacks_concat(v6, BACKEND_HEADING@, '@');
    lemma_lacks_concat(v7, backend, '@');
    lemma_lacks_concat(v8, LOADER_HEADING@, '@');
    lemma_lacks_concat(v9, loader, '@');
    lemma_lacks_concat(v10, CMAKE_APP_SOURCES@, '@');
    lemma_lacks_concat(v11, ADD_EXECUTABLE_LINE@, '@');
    lemma_lacks_concat(v12, CMAKE_TARGET_SETUP@, '@');
    lemma_lacks_concat(v13, LINK_LIBRARIES_LINES@, '@');
    lemma_lacks_concat(v14, CMAKE_WARNINGS@, '@');
    lemma_lacks_concat(v15, optional, '@');
    lemma_lacks_concat(v16, CMAKE_ASSETS@, '@');
}

/// For a project name without `@` (the character that marks the template's
/// placeholders), `CMakeLists.txt` holds the backend block, the loader block
/// and the optional libraries section, whole and in that order, and no `@`:
/// every placeholder has been filled in.
pub proof fn cmake_lists_blocks_in_order(app: App, project_name: Seq<char>) -> (parts: (
    Seq<char>,
    Seq<char>,
    Seq<char>,
    Seq<char>,
))
    requires
        lacks(project_name, '@'),
    ensures
        cmake_lists_text(app, project_name) == parts.0 + backend_block_text(app.window_backend)
            + parts.1 + loader_block_text(app) + parts.2 + optional_block_text(app) + parts.3,
        lacks(cmake_lists_text(app, project_name), '@'),
{
    lemma_cmake_lists_pieces(app, project_name);
    lemma_cmake_lists_lacks_at(app, project_name);
    let text = cmake_lists_text(app, project_name);
    let standard = decimal(cpp_standard(app.cpp_standard@));
    let backend = backend_block_text(app.window_backend);
    let loader = loader_block_text(app);
    let optional = optional_block_text(app);
    let before = CMAKE_MINIMUM_LINE@ + project_name + CMAKE_STANDARD_LINE@ + standard
        + CMAKE_STANDARD_REQUIRED@ + CMAKE_SETTINGS@ + BACKEND_HEADING@;
    let between = CMAKE_APP_SOURCES@ + ADD_EXECUTABLE_LINE@ + CMAKE_TARGET_SETUP@
        + LINK_LIBRARIES_LINES@ + CMAKE_WARNINGS@;
    assert(text == before + backend + LOADER_HEADING@ + loader + between + optional + CMAKE_ASSETS@);
    (before, LOADER_HEADING@, between, CMAKE_ASSETS@)
}

} // verus!
