//! `CMakeLists.txt` and `CMakePresets.json` of a generated project.
//!
//! The window backend is resolved through its CMake package first and
//! pkg-config second, and sets `BACKEND_LIB`; the loader sets `LOADER_LIB`
//! (glad is built from the checkout in `third_party/`, GLEW comes from the
//! system); optional libraries are linked when present and skipped when not.

use vstd::prelude::*;
use crate::app::App;
use crate::naming::{cpp_standard, parse_cpp_standard};
use crate::options::{GlLoader, WindowBackend};
use crate::text::{chars_of, decimal, decimal_string, replace_all, replaced, string_of};

verus! {

/// Where the project name goes.
pub const PROJECT_NAME_SLOT: &'static str = "@PROJECT_NAME@";

/// Where the C++ standard goes.
pub const CXX_STANDARD_SLOT: &'static str = "@CXX_STANDARD@";

/// Where the window backend block goes.
pub const BACKEND_BLOCK_SLOT: &'static str = "@BACKEND_BLOCK@";

/// Where the loader block goes.
pub const LOADER_BLOCK_SLOT: &'static str = "@LOADER_BLOCK@";

/// Where the optional libraries section goes.
pub const OPTIONAL_BLOCK_SLOT: &'static str = "@OPTIONAL_BLOCK@";

/// `CMakeLists.txt`: the required CMake version and the start of the project line.
pub const CMAKE_MINIMUM_LINE: &'static str = "cmake_minimum_required(VERSION 3.21)\nproject(";

/// `CMakeLists.txt`: the languages, and the start of the standard setting.
pub const CMAKE_STANDARD_LINE: &'static str = " LANGUAGES C CXX)\n\nset(CMAKE_CXX_STANDARD ";

/// `CMakeLists.txt`: ends the standard setting and makes it a requirement.
pub const CMAKE_STANDARD_REQUIRED: &'static str = ")\nset(CMAKE_CXX_STANDARD_REQUIRED ON)\n";

/// `CMakeLists.txt`: heads the window backend section.
pub const BACKEND_HEADING: &'static str =
    "# ---------------------------------------------------------------- Window backend\n";

/// `CMakeLists.txt`: heads the loader section.
pub const LOADER_HEADING: &'static str =
    "\n# ---------------------------------------------------------------- OpenGL loader\n";

/// `CMakeLists.txt`: the executable target.
pub const ADD_EXECUTABLE_LINE: &'static str = "add_executable(${PROJECT_NAME} ${APP_SOURCES})";

/// `CMakeLists.txt`: links what the backend and loader blocks found.
pub const LINK_LIBRARIES_LINES: &'static str = "        ${BACKEND_LIB}\n        ${LOADER_LIB}\n)\n";

/// Stops the configuration when no backend target was found.
pub const BACKEND_REQUIRED: &'static str = "if(NOT BACKEND_LIB)\n    message(FATAL_ERROR\n";

/// The end of the fetch hint for glad, after the branch.
pub const GLAD_FETCH_TAIL: &'static str =
    " https://github.com/Dav1dde/glad.git third_party/glad\")\nendif()\n\n";

/// Requires the Python interpreter that the glad generators run on.
pub const PYTHON_REQUIRED: &'static str = "find_package(Python COMPONENTS Interpreter REQUIRED)\n";

/// Checks that the Python module Jinja2, which glad2 needs, is there.
pub const JINJA2_CHECK: &'static str = "    COMMAND \"${Python_EXECUTABLE}\" -c \"import jinja2\"\n";

/// Finds GLEW through its CMake module.
pub const GLEW_FIND: &'static str = "find_package(GLEW QUIET)\n";

/// Records the GLFW target found by its CMake package.
pub const GLFW_SET_BACKEND: &'static str = "    set(BACKEND_LIB glfw)\n";

/// Records the SDL3 target found by its CMake package.
pub const SDL3_SET_BACKEND: &'static str = "    set(BACKEND_LIB SDL3::SDL3)\n";

/// `CMakeLists.txt`: the other compiler settings, the output directory, pkg-config and OpenGL.
pub const CMAKE_SETTINGS: &'static str = r#"set(CMAKE_CXX_EXTENSIONS OFF)
set(CMAKE_EXPORT_COMPILE_COMMANDS ON)

# Single-config generators (Makefiles, Ninja) start with no build type at all.
if(NOT CMAKE_BUILD_TYPE AND NOT CMAKE_CONFIGURATION_TYPES)
    set(CMAKE_BUILD_TYPE Debug CACHE STRING "Build type" FORCE)
endif()

# Keep the executable in one predictable place across generators, so the
# debugger configs and the asset copy below always agree on the path.
set(CMAKE_RUNTIME_OUTPUT_DIRECTORY "${CMAKE_BINARY_DIR}/bin")
foreach(output_config IN ITEMS DEBUG RELEASE RELWITHDEBINFO MINSIZEREL)
    set(CMAKE_RUNTIME_OUTPUT_DIRECTORY_${output_config} "${CMAKE_BINARY_DIR}/bin")
endforeach()

# Used as a fallback everywhere a package ships only a .pc file.
find_package(PkgConfig QUIET)

# ---------------------------------------------------------------- OpenGL
set(OpenGL_GL_PREFERENCE GLVND)
find_package(OpenGL REQUIRED)

"#;

/// `CMakeLists.txt`: the application heading and its sources.
pub const CMAKE_APP_SOURCES: &'static str = r#"
# ---------------------------------------------------------------- Application
file(GLOB_RECURSE APP_SOURCES CONFIGURE_DEPENDS
    "${CMAKE_CURRENT_SOURCE_DIR}/src/*.cpp"
    "${CMAKE_CURRENT_SOURCE_DIR}/src/*.c"
)

"#;

/// `CMakeLists.txt`: include directories and the start of the link list.
pub const CMAKE_TARGET_SETUP: &'static str = r#"

target_include_directories(${PROJECT_NAME} PRIVATE "${CMAKE_CURRENT_SOURCE_DIR}/include")

target_link_libraries(${PROJECT_NAME}
    PRIVATE
        OpenGL::GL
"#;

/// `CMakeLists.txt`: compiler warnings.
pub const CMAKE_WARNINGS: &'static str = r#"
if(MSVC)
    target_compile_options(${PROJECT_NAME} PRIVATE /W4 /permissive-)
else()
    target_compile_options(${PROJECT_NAME} PRIVATE -Wall -Wextra -Wpedantic)
endif()
"#;

/// `CMakeLists.txt`: copies the assets next to the executable.
pub const CMAKE_ASSETS: &'static str = r#"
# ---------------------------------------------------------------- Assets
# Shaders and textures are loaded relative to the executable at runtime.
add_custom_command(TARGET ${PROJECT_NAME} POST_BUILD
    COMMAND ${CMAKE_COMMAND} -E copy_directory
            "${CMAKE_CURRENT_SOURCE_DIR}/assets"
            "$<TARGET_FILE_DIR:${PROJECT_NAME}>/assets"
    COMMENT "Copying assets next to the executable"
)
"#;

/// Finds GLFW through its CMake package.
pub const GLFW_FIND: &'static str = "find_package(glfw3 CONFIG QUIET)\nif(TARGET glfw)\n";

/// Falls back to pkg-config for GLFW.
pub const GLFW_PKG_CONFIG: &'static str = r#"elseif(PkgConfig_FOUND)
    pkg_check_modules(GLFW3_PC QUIET IMPORTED_TARGET glfw3)
    if(TARGET PkgConfig::GLFW3_PC)
        set(BACKEND_LIB PkgConfig::GLFW3_PC)
    endif()
endif()

"#;

/// How to install GLFW, for the error that stops the configuration.
pub const GLFW_INSTALL_HINTS: &'static str = r#"        "GLFW was not found. Install it with one of:\n"
        "  Debian/Ubuntu : sudo apt install libglfw3-dev\n"
        "  Fedora        : sudo dnf install glfw-devel\n"
        "  Arch          : sudo pacman -S glfw\n"
        "  macOS         : brew install glfw\n"
        "  vcpkg         : vcpkg install glfw3 (configure with the vcpkg toolchain file)")
endif()
"#;

/// Finds SDL3 through its CMake package.
pub const SDL3_FIND: &'static str = "find_package(SDL3 CONFIG QUIET)\nif(TARGET SDL3::SDL3)\n";

/// Falls back to pkg-config for SDL3.
pub const SDL3_PKG_CONFIG: &'static str = r#"elseif(PkgConfig_FOUND)
    pkg_check_modules(SDL3_PC QUIET IMPORTED_TARGET sdl3)
    if(TARGET PkgConfig::SDL3_PC)
        set(BACKEND_LIB PkgConfig::SDL3_PC)
    endif()
endif()

"#;

/// How to install SDL3, for the error that stops the configuration.
pub const SDL3_INSTALL_HINTS: &'static str = r#"        "SDL3 was not found. Install it with one of:\n"
        "  Fedora : sudo dnf install SDL3-devel\n"
        "  Arch   : sudo pacman -S sdl3\n"
        "  macOS  : brew install sdl3\n"
        "  vcpkg  : vcpkg install sdl3 (configure with the vcpkg toolchain file)\n"
        "  source : https://github.com/libsdl-org/SDL")
endif()
"#;

/// Builds glad 0.1 from `third_party/glad`, failing with a fetch hint when it is missing: up to the hint's branch.
pub const GLAD_BLOCK_OPEN: &'static str = r#"set(GLAD_DIR "${CMAKE_CURRENT_SOURCE_DIR}/third_party/glad")
if(NOT EXISTS "${GLAD_DIR}/CMakeLists.txt")
    message(FATAL_ERROR
        "third_party/glad is missing. Fetch it with:\n"
        "  git clone --depth 1 "#;

/// glad 0.1: why Python is required.
pub const GLAD_SOURCES_NOTE: &'static str = r#"# glad 0.1 generates its sources at build time with a Python script. It needs
# only the standard library, but the interpreter has to exist -- fail here with
# a readable message rather than midway through the build.
"#;

/// glad 0.1: starts the API option.
pub const GLAD_API_OPEN: &'static str = r#"
set(GLAD_API "gl="#;

/// glad 0.1: between the API version and the profile.
pub const GLAD_BLOCK_PROFILE: &'static str = "\" CACHE STRING \"\" FORCE)\nset(GLAD_PROFILE \"";

/// glad 0.1: after the profile.
pub const GLAD_BLOCK_CLOSE: &'static str = r#"" CACHE STRING "" FORCE)
set(GLAD_GENERATOR "c" CACHE STRING "" FORCE)
set(GLAD_REPRODUCIBLE ON CACHE BOOL "" FORCE)

# glad 0.1 declares cmake_minimum_required(VERSION 3.0), which CMake 4 rejects.
if(CMAKE_VERSION VERSION_GREATER_EQUAL 4.0)
    set(CMAKE_POLICY_VERSION_MINIMUM 3.5)
endif()

add_subdirectory("${GLAD_DIR}" glad_build)
set(LOADER_LIB glad)
"#;

/// Builds glad2 from `third_party/glad/cmake`, failing with a fetch hint when it is missing: up to the hint's branch.
pub const GLAD2_BLOCK_OPEN: &'static str = r#"set(GLAD_SOURCES_DIR "${CMAKE_CURRENT_SOURCE_DIR}/third_party/glad")
if(NOT EXISTS "${GLAD_SOURCES_DIR}/cmake/CMakeLists.txt")
    message(FATAL_ERROR
        "third_party/glad is missing. Fetch it with:\n"
        "  git clone --depth 1 "#;

/// glad2: why Jinja2 is checked for.
pub const GLAD2_JINJA_NOTE: &'static str = r#"
# Unlike glad 0.1, the glad2 generator depends on Jinja2. Check for it now so
# the failure is one actionable line instead of a traceback during the build.
execute_process(
"#;

/// glad2: stops the configuration when Jinja2 is missing, then builds the loader, up to the profile.
pub const GLAD2_JINJA_FAILURE: &'static str = r#"    RESULT_VARIABLE GLAD2_JINJA_RESULT
    OUTPUT_QUIET
    ERROR_QUIET
)
if(NOT GLAD2_JINJA_RESULT EQUAL 0)
    message(FATAL_ERROR
        "The glad2 generator needs the Jinja2 Python module:\n"
        "  \"${Python_EXECUTABLE}\" -m pip install --user jinja2\n"
        "Or regenerate this project with the 'glad' loader, which has no such dependency.")
endif()

add_subdirectory("${GLAD_SOURCES_DIR}/cmake" glad_build)
glad_add_library(glad_loader REPRODUCIBLE LOADER API gl:"#;

/// glad2: between the profile and the API version.
pub const GLAD2_BLOCK_API: &'static str = "=";

/// glad2: after the API version.
pub const GLAD2_BLOCK_CLOSE: &'static str = ")\nset(LOADER_LIB glad_loader)\n";

/// Falls back to pkg-config for GLEW, and fails with install hints.
pub const GLEW_FALLBACK: &'static str = r#"if(TARGET GLEW::GLEW)
    set(LOADER_LIB GLEW::GLEW)
elseif(PkgConfig_FOUND)
    pkg_check_modules(GLEW_PC QUIET IMPORTED_TARGET glew)
    if(TARGET PkgConfig::GLEW_PC)
        set(LOADER_LIB PkgConfig::GLEW_PC)
    endif()
endif()

if(NOT LOADER_LIB)
    message(FATAL_ERROR
        "GLEW was not found. Install it with one of:\n"
        "  Debian/Ubuntu : sudo apt install libglew-dev\n"
        "  Fedora        : sudo dnf install glew-devel\n"
        "  Arch          : sudo pacman -S glew\n"
        "  macOS         : brew install glew\n"
        "  vcpkg         : vcpkg install glew (configure with the vcpkg toolchain file)")
endif()
"#;

/// Heads the optional libraries section.
pub const OPTIONAL_HEADER: &'static str = r#"
# ---------------------------------------------------------------- Optional libraries"#;

/// The CMake function that links an optional package when it is found.
pub const OPTIONAL_HELPER: &'static str = r#"
# Links PKG to the executable if it can be found, and defines DEFINE when it is.
# Extra arguments are the imported target names to try, in order.
function(app_use_optional PKG DEFINE)
    find_package(${PKG} CONFIG QUIET)
    foreach(candidate IN LISTS ARGN)
        if(TARGET ${candidate})
            target_link_libraries(${PROJECT_NAME} PRIVATE ${candidate})
            target_compile_definitions(${PROJECT_NAME} PRIVATE ${DEFINE})
            message(STATUS "Optional dependency ${PKG}: using ${candidate}")
            return()
        endif()
    endforeach()

    if(PkgConfig_FOUND)
        string(TOLOWER "${PKG}" pc_module)
        pkg_check_modules(OPT_${PKG} QUIET IMPORTED_TARGET ${pc_module})
        if(TARGET PkgConfig::OPT_${PKG})
            target_link_libraries(${PROJECT_NAME} PRIVATE PkgConfig::OPT_${PKG})
            target_compile_definitions(${PROJECT_NAME} PRIVATE ${DEFINE})
            message(STATUS "Optional dependency ${PKG}: using pkg-config module ${pc_module}")
            return()
        endif()
    endif()

    message(STATUS "Optional dependency ${PKG}: not found, skipped")
endfunction()

"#;

/// Adds the stb_image include directory when it is found.
pub const STB_IMAGE_BLOCK: &'static str = r#"
# stb_image is a single header, so it has no link target -- just an include dir.
find_path(STB_IMAGE_INCLUDE_DIR NAMES stb_image.h PATH_SUFFIXES stb)
if(STB_IMAGE_INCLUDE_DIR)
    target_include_directories(${PROJECT_NAME} PRIVATE "${STB_IMAGE_INCLUDE_DIR}")
    target_compile_definitions(${PROJECT_NAME} PRIVATE HAVE_STB_IMAGE)
    message(STATUS "Optional dependency stb_image: using ${STB_IMAGE_INCLUDE_DIR}")
else()
    message(STATUS "Optional dependency stb_image: not found, skipped")
endif()
"#;

/// `CMakePresets.json`: a Debug and a Release preset.
pub const CMAKE_PRESETS: &'static str = r#"{
  "version": 3,
  "cmakeMinimumRequired": {
    "major": 3,
    "minor": 21,
    "patch": 0
  },
  "configurePresets": [
    {
      "name": "default",
      "displayName": "Default (Debug)",
      "binaryDir": "${sourceDir}/build",
      "cacheVariables": {
        "CMAKE_BUILD_TYPE": "Debug",
        "CMAKE_EXPORT_COMPILE_COMMANDS": "ON"
      }
    },
    {
      "name": "release",
      "displayName": "Release",
      "inherits": "default",
      "binaryDir": "${sourceDir}/build-release",
      "cacheVariables": {
        "CMAKE_BUILD_TYPE": "Release"
      }
    }
  ],
  "buildPresets": [
    {
      "name": "default",
      "configurePreset": "default",
      "configuration": "Debug"
    },
    {
      "name": "release",
      "configurePreset": "release",
      "configuration": "Release"
    }
  ]
}
"#;

/// The OpenGL version as glad's API option writes it, such as `4.6`.
pub open spec fn api_version(app: App) -> Seq<char> {
    decimal(app.opengl_major as nat) + "."@ + decimal(app.opengl_minor as nat)
}

/// The OpenGL profile as glad names it.
pub open spec fn glad_profile(app: App) -> Seq<char> {
    if app.core_profile {
        "core"@
    } else {
        "compatibility"@
    }
}

/// The block that finds the window backend and sets `BACKEND_LIB`.
pub open spec fn backend_block_text(backend: WindowBackend) -> Seq<char> {
    match backend {
        WindowBackend::Glfw => GLFW_FIND@ + GLFW_SET_BACKEND@ + GLFW_PKG_CONFIG@ + BACKEND_REQUIRED@
            + GLFW_INSTALL_HINTS@,
        WindowBackend::Sdl3 => SDL3_FIND@ + SDL3_SET_BACKEND@ + SDL3_PKG_CONFIG@ + BACKEND_REQUIRED@
            + SDL3_INSTALL_HINTS@,
    }
}

/// The block that provides the loader and sets `LOADER_LIB`.
pub open spec fn loader_block_text(app: App) -> Seq<char> {
    match app.gl_loader {
        GlLoader::Glad => GLAD_BLOCK_OPEN@ + "--branch "@ + "master"@ + GLAD_FETCH_TAIL@
            + GLAD_SOURCES_NOTE@ + PYTHON_REQUIRED@ + GLAD_API_OPEN@ + api_version(app)
            + GLAD_BLOCK_PROFILE@ + glad_profile(app) + GLAD_BLOCK_CLOSE@,
        GlLoader::Glad2 => GLAD2_BLOCK_OPEN@ + "--branch "@ + "glad2"@ + GLAD_FETCH_TAIL@
            + PYTHON_REQUIRED@ + GLAD2_JINJA_NOTE@ + JINJA2_CHECK@ + GLAD2_JINJA_FAILURE@
            + glad_profile(app) + GLAD2_BLOCK_API@ + api_version(app) + GLAD2_BLOCK_CLOSE@,
        GlLoader::Glew => GLEW_FIND@ + GLEW_FALLBACK@,
    }
}

/// The `app_use_optional` calls for the optional libraries chosen, in the
/// order glm, Dear ImGui, Assimp, fmt, spdlog.
pub open spec fn optional_uses(app: App) -> Seq<Seq<char>> {
    let s0 = Seq::<Seq<char>>::empty();
    let s1 = if app.include_glm {
        s0.push("app_use_optional(glm HAVE_GLM glm::glm glm)"@)
    } else {
        s0
    };
    let s2 = if app.include_imgui {
        s1.push("app_use_optional(imgui HAVE_IMGUI imgui::imgui)"@)
    } else {
        s1
    };
    let s3 = if app.include_assimp {
        s2.push("app_use_optional(assimp HAVE_ASSIMP assimp::assimp)"@)
    } else {
        s2
    };
    let s4 = if app.include_fmt {
        s3.push("app_use_optional(fmt HAVE_FMT fmt::fmt)"@)
    } else {
        s3
    };
    if app.include_spdlog {
        s4.push("app_use_optional(spdlog HAVE_SPDLOG spdlog::spdlog)"@)
    } else {
        s4
    }
}

/// Lines joined with a newline between each two.
pub open spec fn lines_joined(lines: Seq<Seq<char>>) -> Seq<char>
    decreases lines.len(),
{
    if lines.len() == 0 {
        Seq::empty()
    } else if lines.len() == 1 {
        lines[0]
    } else {
        lines_joined(lines.drop_last()) + "\n"@ + lines.last()
    }
}

/// The optional libraries section: empty when nothing optional is chosen.
pub open spec fn optional_block_text(app: App) -> Seq<char> {
    let uses = optional_uses(app);
    if uses.len() == 0 && !app.include_stb_image {
        Seq::empty()
    } else {
        OPTIONAL_HEADER@ + (if uses.len() == 0 {
            Seq::empty()
        } else {
            OPTIONAL_HELPER@ + lines_joined(uses) + "\n"@
        }) + (if app.include_stb_image {
            STB_IMAGE_BLOCK@
        } else {
            Seq::empty()
        })
    }
}

/// `CMakeLists.txt` before the choices are filled in: fixed text with a
/// placeholder for each thing that varies.
pub open spec fn cmake_lists_template() -> Seq<char> {
    CMAKE_MINIMUM_LINE@ + PROJECT_NAME_SLOT@ + CMAKE_STANDARD_LINE@ + CXX_STANDARD_SLOT@
        + CMAKE_STANDARD_REQUIRED@ + CMAKE_SETTINGS@ + BACKEND_HEADING@ + BACKEND_BLOCK_SLOT@ + LOADER_HEADING@
        + LOADER_BLOCK_SLOT@ + CMAKE_APP_SOURCES@ + ADD_EXECUTABLE_LINE@ + CMAKE_TARGET_SETUP@
        + LINK_LIBRARIES_LINES@ + CMAKE_WARNINGS@ + OPTIONAL_BLOCK_SLOT@ + CMAKE_ASSETS@
}

/// `CMakeLists.txt`: the template with the project name, the C++ standard
/// and the three blocks put in for their placeholders, one placeholder after
/// the other.
pub open spec fn cmake_lists_text(app: App, project_name: Seq<char>) -> Seq<char> {
    filled(cmake_lists_template(), app, project_name)
}

/// `t` with the project name, the C++ standard and the three blocks put in
/// for their placeholders, one placeholder after the other.
pub open spec fn filled(t: Seq<char>, app: App, project_name: Seq<char>) -> Seq<char> {
    let t1 = replaced(t, PROJECT_NAME_SLOT@, project_name);
    let t2 = replaced(t1, CXX_STANDARD_SLOT@, decimal(cpp_standard(app.cpp_standard@)));
    let t3 = replaced(t2, BACKEND_BLOCK_SLOT@, backend_block_text(app.window_backend));
    let t4 = replaced(t3, LOADER_BLOCK_SLOT@, loader_block_text(app));
    replaced(t4, OPTIONAL_BLOCK_SLOT@, optional_block_text(app))
}

/// The views of a list of string slices.
pub open spec fn str_views(v: Seq<&str>) -> Seq<Seq<char>> {
    v.map_values(|s: &str| s@)
}

/// Lines joined with a newline between each two.
fn join_lines(lines: &Vec<&'static str>) -> (out: String)
    ensures
        out@ == lines_joined(str_views(lines@)),
{
    let ghost views = str_views(lines@);
    let mut out = String::new();
    for i in 0..lines.len()
        invariant
            views == str_views(lines@),
            out@ == lines_joined(views.take(i as int)),
    {
        let ghost prefix = views.take(i + 1);
        assert(prefix.drop_last() == views.take(i as int));
        assert(prefix.last() == lines@[i as int]@);
        if i > 0 {
            out.append("\n");
        } else {
            assert(out@ == Seq::<char>::empty());
        }
        out.append(lines[i]);
    }
    assert(views.take(lines.len() as int) == views);
    out
}

fn append_api_version(out: &mut String, app: &App)
    ensures
        final(out)@ == old(out)@ + api_version(*app),
{
    let major = decimal_string(app.opengl_major as u32);
    let minor = decimal_string(app.opengl_minor as u32);
    out.append(major.as_str());
    out.append(".");
    out.append(minor.as_str());
}

impl App {
    /// The text of `CMakeLists.txt`.
    pub fn cmake_template(&self, project_name: &str) -> (out: String)
        ensures
            out@ == cmake_lists_text(*self, project_name@),
    {
        proof {
            reveal_strlit("@PROJECT_NAME@");
            reveal_strlit("@CXX_STANDARD@");
            reveal_strlit("@BACKEND_BLOCK@");
            reveal_strlit("@LOADER_BLOCK@");
            reveal_strlit("@OPTIONAL_BLOCK@");
        }
        let mut template = String::from_str(CMAKE_MINIMUM_LINE);
        template.append(PROJECT_NAME_SLOT);
        template.append(CMAKE_STANDARD_LINE);
        template.append(CXX_STANDARD_SLOT);
        template.append(CMAKE_STANDARD_REQUIRED);
        template.append(CMAKE_SETTINGS);
        template.append(BACKEND_HEADING);
        template.append(BACKEND_BLOCK_SLOT);
        template.append(LOADER_HEADING);
        template.append(LOADER_BLOCK_SLOT);
        template.append(CMAKE_APP_SOURCES);
        template.append(ADD_EXECUTABLE_LINE);
        template.append(CMAKE_TARGET_SETUP);
        template.append(LINK_LIBRARIES_LINES);
        template.append(CMAKE_WARNINGS);
        template.append(OPTIONAL_BLOCK_SLOT);
        template.append(CMAKE_ASSETS);
        let text = chars_of(template.as_str());
        let t1 = replace_all(&text, &chars_of(PROJECT_NAME_SLOT), &chars_of(project_name));
        let standard = decimal_string(parse_cpp_standard(self.cpp_standard.as_str()));
        let t2 = replace_all(&t1, &chars_of(CXX_STANDARD_SLOT), &chars_of(standard.as_str()));
        let backend = self.cmake_backend_block();
        let t3 = replace_all(&t2, &chars_of(BACKEND_BLOCK_SLOT), &chars_of(backend.as_str()));
        let loader = self.cmake_loader_block();
        let t4 = replace_all(&t3, &chars_of(LOADER_BLOCK_SLOT), &chars_of(loader.as_str()));
        let optional = self.cmake_optional_block();
        let t5 = replace_all(&t4, &chars_of(OPTIONAL_BLOCK_SLOT), &chars_of(optional.as_str()));
        string_of(&t5)
    }

    /// The block that finds the window backend.
    pub fn cmake_backend_block(&self) -> (out: String)
        ensures
            out@ == backend_block_text(self.window_backend),
    {
        match self.window_backend {
            WindowBackend::Glfw => {
                let mut out = String::from_str(GLFW_FIND);
                out.append(GLFW_SET_BACKEND);
                out.append(GLFW_PKG_CONFIG);
                out.append(BACKEND_REQUIRED);
                out.append(GLFW_INSTALL_HINTS);
                out
            },
            WindowBackend::Sdl3 => {
                let mut out = String::from_str(SDL3_FIND);
                out.append(SDL3_SET_BACKEND);
                out.append(SDL3_PKG_CONFIG);
                out.append(BACKEND_REQUIRED);
                out.append(SDL3_INSTALL_HINTS);
                out
            },
        }
    }

    /// The block that provides the loader.
    pub fn cmake_loader_block(&self) -> (out: String)
        ensures
            out@ == loader_block_text(*self),
    {
        let profile = if self.core_profile {
            "core"
        } else {
            "compatibility"
        };
        match self.gl_loader {
            GlLoader::Glad => {
                let mut out = String::from_str(GLAD_BLOCK_OPEN);
                out.append("--branch ");
                out.append("master");
                out.append(GLAD_FETCH_TAIL);
                out.append(GLAD_SOURCES_NOTE);
                out.append(PYTHON_REQUIRED);
                out.append(GLAD_API_OPEN);
                append_api_version(&mut out, self);
                out.append(GLAD_BLOCK_PROFILE);
                out.append(profile);
                out.append(GLAD_BLOCK_CLOSE);
                out
            },
            GlLoader::Glad2 => {
                let mut out = String::from_str(GLAD2_BLOCK_OPEN);
                out.append("--branch ");
                out.append("glad2");
                out.append(GLAD_FETCH_TAIL);
                out.append(PYTHON_REQUIRED);
                out.append(GLAD2_JINJA_NOTE);
                out.append(JINJA2_CHECK);
                out.append(GLAD2_JINJA_FAILURE);
                out.append(profile);
                out.append(GLAD2_BLOCK_API);
                append_api_version(&mut out, self);
                out.append(GLAD2_BLOCK_CLOSE);
                out
            },
            GlLoader::Glew => {
                let mut out = String::from_str(GLEW_FIND);
                out.append(GLEW_FALLBACK);
                out
            },
        }
    }

    /// The optional libraries section.
    pub fn cmake_optional_block(&self) -> (out: String)
        ensures
            out@ == optional_block_text(*self),
    {
        let mut uses: Vec<&'static str> = Vec::new();
        if self.include_glm {
            uses.push("app_use_optional(glm HAVE_GLM glm::glm glm)");
        }
        if self.include_imgui {
            uses.push("app_use_optional(imgui HAVE_IMGUI imgui::imgui)");
        }
        if self.include_assimp {
            uses.push("app_use_optional(assimp HAVE_ASSIMP assimp::assimp)");
        }
        if self.include_fmt {
            uses.push("app_use_optional(fmt HAVE_FMT fmt::fmt)");
        }
        if self.include_spdlog {
            uses.push("app_use_optional(spdlog HAVE_SPDLOG spdlog::spdlog)");
        }
        assert(str_views(uses@) == optional_uses(*self));
        if uses.len() == 0 && !self.include_stb_image {
            return String::new();
        }
        let mut out = String::from_str(OPTIONAL_HEADER);
        if uses.len() > 0 {
            out.append(OPTIONAL_HELPER);
            let joined = join_lines(&uses);
            out.append(joined.as_str());
            out.append("\n");
        } else {
            assert(out@ + Seq::<char>::empty() == out@);
        }
        if self.include_stb_image {
            out.append(STB_IMAGE_BLOCK);
        } else {
            assert(out@ + Seq::<char>::empty() == out@);
        }
        out
    }

    /// The text of `CMakePresets.json`.
    pub fn cmake_presets_template(&self) -> (out: String)
        ensures
            out@ == CMAKE_PRESETS@,
    {
        CMAKE_PRESETS.to_owned()
    }
}

} // verus!
