//! Whole generated files compared with the text that each template is known to produce.

use opengl_project_generator::app::App;
use opengl_project_generator::editor::{clang_format_template, gitignore_template};
use opengl_project_generator::options::{BuildSystem, GlLoader, WindowBackend};

#[test]
fn default_main_cpp_is_exact() {
    let app = App::default();
    let text = app.main_cpp_template("my_opengl_app");
    assert_eq!(text, r#"#include <iostream>

#include <glad/glad.h>
#include <GLFW/glfw3.h>

int main() {
    if (!glfwInit()) {
        std::cerr << "Failed to initialize GLFW\n";
        return -1;
    }

    glfwWindowHint(GLFW_CONTEXT_VERSION_MAJOR, 4);
    glfwWindowHint(GLFW_CONTEXT_VERSION_MINOR, 6);
    glfwWindowHint(GLFW_OPENGL_PROFILE, GLFW_OPENGL_CORE_PROFILE);
    glfwWindowHint(GLFW_OPENGL_DEBUG_CONTEXT, GLFW_TRUE);
    glfwWindowHint(GLFW_SRGB_CAPABLE, GLFW_TRUE);

    GLFWwindow* window = glfwCreateWindow(1280, 720, "my_opengl_app", nullptr, nullptr);
    if (!window) {
        std::cerr << "Failed to create GLFW window\n";
        glfwTerminate();
        return -1;
    }

    glfwMakeContextCurrent(window);

    if (!gladLoadGLLoader((GLADloadproc)glfwGetProcAddress)) {
        std::cerr << "Failed to initialize glad\n";
        return -1;
    }

    while (!glfwWindowShouldClose(window)) {
        glClearColor(1.0f, 1.0f, 1.0f, 1.0f);
        glClear(GL_COLOR_BUFFER_BIT);

        glfwSwapBuffers(window);
        glfwPollEvents();
    }

    glfwDestroyWindow(window);
    glfwTerminate();
    return 0;
}
"#);
}

#[test]
fn default_cmake_lists_are_exact() {
    let app = App::default();
    let text = app.cmake_template("my_opengl_app");
    assert_eq!(text, r#"cmake_minimum_required(VERSION 3.21)
project(my_opengl_app LANGUAGES C CXX)

set(CMAKE_CXX_STANDARD 20)
set(CMAKE_CXX_STANDARD_REQUIRED ON)
set(CMAKE_CXX_EXTENSIONS OFF)
set(CMAKE_EXPORT_COMPILE_COMMANDS ON)

# Single-config generators (Makefiles, Ninja) start with no build type at all.
if(NOT CMAKE_BUILD_TYPE AND NOT CMAKE_CONFIGURATION_TYPES)
    set(CMAKE_BUILD_TYPE Debug CACHE STRING "Build type" FORCE)
endif()

# Keep the executable in one predictable place across generators, so the
# debugger configs and the asset copy below always agree on the path.
set(CMAKE_RUNTIME_OUTPUT_DIRECTORY "${CMAKE_BINARY_DIR}/bin")
foreach(output_config IN ITEMS DEBUG RELEASE RELWITHDEBINFO MINSIZEREL)
    set(CMAKE_RUNTIME_OUTPUT_DIRECTORY_${output_config} "${CMAKE_BINARY_DIR}/bin")
endforeach()

# Used as a fallback everywhere a package ships only a .pc file.
find_package(PkgConfig QUIET)

# ---------------------------------------------------------------- OpenGL
set(OpenGL_GL_PREFERENCE GLVND)
find_package(OpenGL REQUIRED)

# ---------------------------------------------------------------- Window backend
find_package(glfw3 CONFIG QUIET)
if(TARGET glfw)
    set(BACKEND_LIB glfw)
elseif(PkgConfig_FOUND)
    pkg_check_modules(GLFW3_PC QUIET IMPORTED_TARGET glfw3)
    if(TARGET PkgConfig::GLFW3_PC)
        set(BACKEND_LIB PkgConfig::GLFW3_PC)
    endif()
endif()

if(NOT BACKEND_LIB)
    message(FATAL_ERROR
        "GLFW was not found. Install it with one of:\n"
        "  Debian/Ubuntu : sudo apt install libglfw3-dev\n"
        "  Fedora        : sudo dnf install glfw-devel\n"
        "  Arch          : sudo pacman -S glfw\n"
        "  macOS         : brew install glfw\n"
        "  vcpkg         : vcpkg install glfw3 (configure with the vcpkg toolchain file)")
endif()

# ---------------------------------------------------------------- OpenGL loader
set(GLAD_DIR "${CMAKE_CURRENT_SOURCE_DIR}/third_party/glad")
if(NOT EXISTS "${GLAD_DIR}/CMakeLists.txt")
    message(FATAL_ERROR
        "third_party/glad is missing. Fetch it with:\n"
        "  git clone --depth 1 --branch master https://github.com/Dav1dde/glad.git third_party/glad")
endif()

# glad 0.1 generates its sources at build time with a Python script. It needs
# only the standard library, but the interpreter has to exist -- fail here with
# a readable message rather than midway through the build.
find_package(Python COMPONENTS Interpreter REQUIRED)

set(GLAD_API "gl=4.6" CACHE STRING "" FORCE)
set(GLAD_PROFILE "core" CACHE STRING "" FORCE)
set(GLAD_GENERATOR "c" CACHE STRING "" FORCE)
set(GLAD_REPRODUCIBLE ON CACHE BOOL "" FORCE)

# glad 0.1 declares cmake_minimum_required(VERSION 3.0), which CMake 4 rejects.
if(CMAKE_VERSION VERSION_GREATER_EQUAL 4.0)
    set(CMAKE_POLICY_VERSION_MINIMUM 3.5)
endif()

add_subdirectory("${GLAD_DIR}" glad_build)
set(LOADER_LIB glad)

# ---------------------------------------------------------------- Application
file(GLOB_RECURSE APP_SOURCES CONFIGURE_DEPENDS
    "${CMAKE_CURRENT_SOURCE_DIR}/src/*.cpp"
    "${CMAKE_CURRENT_SOURCE_DIR}/src/*.c"
)

add_executable(${PROJECT_NAME} ${APP_SOURCES})

target_include_directories(${PROJECT_NAME} PRIVATE "${CMAKE_CURRENT_SOURCE_DIR}/include")

target_link_libraries(${PROJECT_NAME}
    PRIVATE
        OpenGL::GL
        ${BACKEND_LIB}
        ${LOADER_LIB}
)

if(MSVC)
    target_compile_options(${PROJECT_NAME} PRIVATE /W4 /permissive-)
else()
    target_compile_options(${PROJECT_NAME} PRIVATE -Wall -Wextra -Wpedantic)
endif()

# ---------------------------------------------------------------- Optional libraries
# Links PKG to the executable if it can be found, and defines DEFINE when it is.
# Extra arguments are the imported target names to try, in order.
function(app_use_optional PKG DEFINE)
    find_package(${PKG} CONFIG QUIET)
    foreach(candidate IN LISTS ARGN)
        if(TARGET ${candidate})
            target_link_libraries(${PROJECT_NAME} PRIVATE ${candidate})
            target_compile_definitions(${PROJECT_NAME} PRIVATE ${DEFINE})
            message(STATUS "Optional dependency ${PKG}: using ${candidate}")
            return()
        endif()
    endforeach()

    if(PkgConfig_FOUND)
        string(TOLOWER "${PKG}" pc_module)
        pkg_check_modules(OPT_${PKG} QUIET IMPORTED_TARGET ${pc_module})
        if(TARGET PkgConfig::OPT_${PKG})
            target_link_libraries(${PROJECT_NAME} PRIVATE PkgConfig::OPT_${PKG})
            target_compile_definitions(${PROJECT_NAME} PRIVATE ${DEFINE})
            message(STATUS "Optional dependency ${PKG}: using pkg-config module ${pc_module}")
            return()
        endif()
    endif()

    message(STATUS "Optional dependency ${PKG}: not found, skipped")
endfunction()

app_use_optional(glm HAVE_GLM glm::glm glm)
app_use_optional(fmt HAVE_FMT fmt::fmt)

# stb_image is a single header, so it has no link target -- just an include dir.
find_path(STB_IMAGE_INCLUDE_DIR NAMES stb_image.h PATH_SUFFIXES stb)
if(STB_IMAGE_INCLUDE_DIR)
    target_include_directories(${PROJECT_NAME} PRIVATE "${STB_IMAGE_INCLUDE_DIR}")
    target_compile_definitions(${PROJECT_NAME} PRIVATE HAVE_STB_IMAGE)
    message(STATUS "Optional dependency stb_image: using ${STB_IMAGE_INCLUDE_DIR}")
else()
    message(STATUS "Optional dependency stb_image: not found, skipped")
endif()

# ---------------------------------------------------------------- Assets
# Shaders and textures are loaded relative to the executable at runtime.
add_custom_command(TARGET ${PROJECT_NAME} POST_BUILD
    COMMAND ${CMAKE_COMMAND} -E copy_directory
            "${CMAKE_CURRENT_SOURCE_DIR}/assets"
            "$<TARGET_FILE_DIR:${PROJECT_NAME}>/assets"
    COMMENT "Copying assets next to the executable"
)
"#);
}

#[test]
fn default_readme_is_exact() {
    let app = App::default();
    let text = app.readme_template("my_opengl_app");
    assert_eq!(text, r#"# my_opengl_app

Generated with OpenGL Project Generator.

## Selected stack
- Windowing: GLFW
- GL loader: glad
- Build system: CMake
- OpenGL: 4.6

## Optional libraries toggled
- GLM: yes
- Dear ImGui: no
- stb_image: yes
- Assimp: no
- fmt: yes
- spdlog: no

## Build
### CMake
1. cmake --preset default
2. cmake --build --preset default

The executable and a copy of assets/ end up in build/bin.
Use the `release` preset instead of `default` for an optimised build.

### Meson
1. meson setup build
2. meson compile -C build

## Requirements
- A C++ compiler and CMake 3.21 or newer.
- GLFW development files (see third_party/README.md for install commands).
- Python 3 on PATH: glad generates its sources during the build (standard library only).

Optional libraries are linked only if they are found; each one that is defines a
HAVE_* macro (HAVE_GLM, HAVE_FMT, ...) you can test in your code. A missing one
never breaks the build.
"#);
}

#[test]
fn default_third_party_readme_is_exact() {
    let app = App::default();
    let text = app.third_party_readme();
    assert_eq!(text, r#"# Third-party dependencies

This project expects the following base dependencies:
- Window backend: GLFW
- OpenGL loader: glad

Recommended ways to install:
- vcpkg (Windows): vcpkg install glfw3 sdl3 glad glew
- conan: declare packages in conanfile
- system package manager on Linux/macOS

Optional libraries selected by generator:
- GLM: yes
- Dear ImGui: no
- stb_image: yes
- Assimp: no
- fmt: yes
- spdlog: no
"#);
}

#[test]
fn default_launch_json_is_exact() {
    let app = App::default();
    let text = app.vscode_launch_template("my_opengl_app");
    assert_eq!(text, r#"{
  "version": "0.2.0",
  "configurations": [
    {
      "name": "Launch my_opengl_app",
      "type": "cppdbg",
      "request": "launch",
      "program": "${workspaceFolder}/build/bin/my_opengl_app",
      "args": [],
      "cwd": "${workspaceFolder}/build/bin",
      "stopAtEntry": false,
      "externalConsole": false,
      "MIMode": "gdb",
      "preLaunchTask": "CMake: Build",
      "osx": {
        "MIMode": "lldb"
      },
      "windows": {
        "type": "cppvsdbg",
        "program": "${workspaceFolder}/build/bin/my_opengl_app.exe"
      }
    }
  ]
}
"#);
}

#[test]
fn sdl3_glad2_main_cpp_is_exact() {
    let app = App {
        window_backend: WindowBackend::Sdl3,
        gl_loader: GlLoader::Glad2,
        core_profile: false,
        srgb_framebuffer: false,
        opengl_major: 3,
        opengl_minor: 3,
        cpp_standard: "gnu++17".to_owned(),
        include_glm: false,
        include_stb_image: false,
        include_fmt: false,
        ..App::default()
    };
    let text = app.main_cpp_template("my_opengl_app");
    assert_eq!(text, r#"#include <iostream>

#include <glad/gl.h>
#include <SDL3/SDL.h>

int main() {
    if (!SDL_Init(SDL_INIT_VIDEO)) {
        std::cerr << "Failed to initialize SDL3: " << SDL_GetError() << "\n";
        return -1;
    }

    SDL_GL_SetAttribute(SDL_GL_CONTEXT_MAJOR_VERSION, 3);
    SDL_GL_SetAttribute(SDL_GL_CONTEXT_MINOR_VERSION, 3);
    SDL_GL_SetAttribute(SDL_GL_CONTEXT_PROFILE_MASK, SDL_GL_CONTEXT_PROFILE_COMPATIBILITY);
    SDL_GL_SetAttribute(SDL_GL_FRAMEBUFFER_SRGB_CAPABLE, 0);

    SDL_Window* window = SDL_CreateWindow("my_opengl_app", 1280, 720, SDL_WINDOW_OPENGL | SDL_WINDOW_RESIZABLE);
    if (!window) {
        std::cerr << "Failed to create SDL3 window: " << SDL_GetError() << "\n";
        SDL_Quit();
        return -1;
    }

    SDL_GLContext gl_context = SDL_GL_CreateContext(window);
    if (!gl_context) {
        std::cerr << "Failed to create OpenGL context: " << SDL_GetError() << "\n";
        SDL_DestroyWindow(window);
        SDL_Quit();
        return -1;
    }

    if (!gladLoadGL((GLADloadfunc)SDL_GL_GetProcAddress)) {
        std::cerr << "Failed to initialize glad2\n";
        return -1;
    }

    bool running = true;
    while (running) {
        SDL_Event event;
        while (SDL_PollEvent(&event)) {
            if (event.type == SDL_EVENT_QUIT) {
                running = false;
            }
        }

        glClearColor(1.0f, 1.0f, 1.0f, 1.0f);
        glClear(GL_COLOR_BUFFER_BIT);
        SDL_GL_SwapWindow(window);
    }

    SDL_GL_DestroyContext(gl_context);
    SDL_DestroyWindow(window);
    SDL_Quit();
    return 0;
}
"#);
}

#[test]
fn sdl3_glad2_cmake_lists_are_exact() {
    let app = App {
        window_backend: WindowBackend::Sdl3,
        gl_loader: GlLoader::Glad2,
        core_profile: false,
        srgb_framebuffer: false,
        opengl_major: 3,
        opengl_minor: 3,
        cpp_standard: "gnu++17".to_owned(),
        include_glm: false,
        include_stb_image: false,
        include_fmt: false,
        ..App::default()
    };
    let text = app.cmake_template("my_opengl_app");
    assert_eq!(text, r#"cmake_minimum_required(VERSION 3.21)
project(my_opengl_app LANGUAGES C CXX)

set(CMAKE_CXX_STANDARD 17)
set(CMAKE_CXX_STANDARD_REQUIRED ON)
set(CMAKE_CXX_EXTENSIONS OFF)
set(CMAKE_EXPORT_COMPILE_COMMANDS ON)

# Single-config generators (Makefiles, Ninja) start with no build type at all.
if(NOT CMAKE_BUILD_TYPE AND NOT CMAKE_CONFIGURATION_TYPES)
    set(CMAKE_BUILD_TYPE Debug CACHE STRING "Build type" FORCE)
endif()

# Keep the executable in one predictable place across generators, so the
# debugger configs and the asset copy below always agree on the path.
set(CMAKE_RUNTIME_OUTPUT_DIRECTORY "${CMAKE_BINARY_DIR}/bin")
foreach(output_config IN ITEMS DEBUG RELEASE RELWITHDEBINFO MINSIZEREL)
    set(CMAKE_RUNTIME_OUTPUT_DIRECTORY_${output_config} "${CMAKE_BINARY_DIR}/bin")
endforeach()

# Used as a fallback everywhere a package ships only a .pc file.
find_package(PkgConfig QUIET)

# ---------------------------------------------------------------- OpenGL
set(OpenGL_GL_PREFERENCE GLVND)
find_package(OpenGL REQUIRED)

# ---------------------------------------------------------------- Window backend
find_package(SDL3 CONFIG QUIET)
if(TARGET SDL3::SDL3)
    set(BACKEND_LIB SDL3::SDL3)
elseif(PkgConfig_FOUND)
    pkg_check_modules(SDL3_PC QUIET IMPORTED_TARGET sdl3)
    if(TARGET PkgConfig::SDL3_PC)
        set(BACKEND_LIB PkgConfig::SDL3_PC)
    endif()
endif()

if(NOT BACKEND_LIB)
    message(FATAL_ERROR
        "SDL3 was not found. Install it with one of:\n"
        "  Fedora : sudo dnf install SDL3-devel\n"
        "  Arch   : sudo pacman -S sdl3\n"
        "  macOS  : brew install sdl3\n"
        "  vcpkg  : vcpkg install sdl3 (configure with the vcpkg toolchain file)\n"
        "  source : https://github.com/libsdl-org/SDL")
endif()

# ---------------------------------------------------------------- OpenGL loader
set(GLAD_SOURCES_DIR "${CMAKE_CURRENT_SOURCE_DIR}/third_party/glad")
if(NOT EXISTS "${GLAD_SOURCES_DIR}/cmake/CMakeLists.txt")
    message(FATAL_ERROR
        "third_party/glad is missing. Fetch it with:\n"
        "  git clone --depth 1 --branch glad2 https://github.com/Dav1dde/glad.git third_party/glad")
endif()

find_package(Python COMPONENTS Interpreter REQUIRED)

# Unlike glad 0.1, the glad2 generator depends on Jinja2. Check for it now so
# the failure is one actionable line instead of a traceback during the build.
execute_process(
    COMMAND "${Python_EXECUTABLE}" -c "import jinja2"
    RESULT_VARIABLE GLAD2_JINJA_RESULT
    OUTPUT_QUIET
    ERROR_QUIET
)
if(NOT GLAD2_JINJA_RESULT EQUAL 0)
    message(FATAL_ERROR
        "The glad2 generator needs the Jinja2 Python module:\n"
        "  \"${Python_EXECUTABLE}\" -m pip install --user jinja2\n"
        "Or regenerate this project with the 'glad' loader, which has no such dependency.")
endif()

add_subdirectory("${GLAD_SOURCES_DIR}/cmake" glad_build)
glad_add_library(glad_loader REPRODUCIBLE LOADER API gl:compatibility=3.3)
set(LOADER_LIB glad_loader)

# ---------------------------------------------------------------- Application
file(GLOB_RECURSE APP_SOURCES CONFIGURE_DEPENDS
    "${CMAKE_CURRENT_SOURCE_DIR}/src/*.cpp"
    "${CMAKE_CURRENT_SOURCE_DIR}/src/*.c"
)

add_executable(${PROJECT_NAME} ${APP_SOURCES})

target_include_directories(${PROJECT_NAME} PRIVATE "${CMAKE_CURRENT_SOURCE_DIR}/include")

target_link_libraries(${PROJECT_NAME}
    PRIVATE
        OpenGL::GL
        ${BACKEND_LIB}
        ${LOADER_LIB}
)

if(MSVC)
    target_compile_options(${PROJECT_NAME} PRIVATE /W4 /permissive-)
else()
    target_compile_options(${PROJECT_NAME} PRIVATE -Wall -Wextra -Wpedantic)
endif()

# ---------------------------------------------------------------- Assets
# Shaders and textures are loaded relative to the executable at runtime.
add_custom_command(TARGET ${PROJECT_NAME} POST_BUILD
    COMMAND ${CMAKE_COMMAND} -E copy_directory
            "${CMAKE_CURRENT_SOURCE_DIR}/assets"
            "$<TARGET_FILE_DIR:${PROJECT_NAME}>/assets"
    COMMENT "Copying assets next to the executable"
)
"#);
}

#[test]
fn glew_cmake_lists_are_exact() {
    let app = App {
        gl_loader: GlLoader::Glew,
        include_imgui: true,
        include_assimp: true,
        include_spdlog: true,
        include_stb_image: false,
        cpp_standard: "c++99".to_owned(),
        ..App::default()
    };
    let text = app.cmake_template("my_opengl_app");
    assert_eq!(text, r#"cmake_minimum_required(VERSION 3.21)
project(my_opengl_app LANGUAGES C CXX)

set(CMAKE_CXX_STANDARD 17)
set(CMAKE_CXX_STANDARD_REQUIRED ON)
set(CMAKE_CXX_EXTENSIONS OFF)
set(CMAKE_EXPORT_COMPILE_COMMANDS ON)

# Single-config generators (Makefiles, Ninja) start with no build type at all.
if(NOT CMAKE_BUILD_TYPE AND NOT CMAKE_CONFIGURATION_TYPES)
    set(CMAKE_BUILD_TYPE Debug CACHE STRING "Build type" FORCE)
endif()

# Keep the executable in one predictable place across generators, so the
# debugger configs and the asset copy below always agree on the path.
set(CMAKE_RUNTIME_OUTPUT_DIRECTORY "${CMAKE_BINARY_DIR}/bin")
foreach(output_config IN ITEMS DEBUG RELEASE RELWITHDEBINFO MINSIZEREL)
    set(CMAKE_RUNTIME_OUTPUT_DIRECTORY_${output_config} "${CMAKE_BINARY_DIR}/bin")
endforeach()

# Used as a fallback everywhere a package ships only a .pc file.
find_package(PkgConfig QUIET)

# ---------------------------------------------------------------- OpenGL
set(OpenGL_GL_PREFERENCE GLVND)
find_package(OpenGL REQUIRED)

# ---------------------------------------------------------------- Window backend
find_package(glfw3 CONFIG QUIET)
if(TARGET glfw)
    set(BACKEND_LIB glfw)
elseif(PkgConfig_FOUND)
    pkg_check_modules(GLFW3_PC QUIET IMPORTED_TARGET glfw3)
    if(TARGET PkgConfig::GLFW3_PC)
        set(BACKEND_LIB PkgConfig::GLFW3_PC)
    endif()
endif()

if(NOT BACKEND_LIB)
    message(FATAL_ERROR
        "GLFW was not found. Install it with one of:\n"
        "  Debian/Ubuntu : sudo apt install libglfw3-dev\n"
        "  Fedora        : sudo dnf install glfw-devel\n"
        "  Arch          : sudo pacman -S glfw\n"
        "  macOS         : brew install glfw\n"
        "  vcpkg         : vcpkg install glfw3 (configure with the vcpkg toolchain file)")
endif()

# ---------------------------------------------------------------- OpenGL loader
find_package(GLEW QUIET)
if(TARGET GLEW::GLEW)
    set(LOADER_LIB GLEW::GLEW)
elseif(PkgConfig_FOUND)
    pkg_check_modules(GLEW_PC QUIET IMPORTED_TARGET glew)
    if(TARGET PkgConfig::GLEW_PC)
        set(LOADER_LIB PkgConfig::GLEW_PC)
    endif()
endif()

if(NOT LOADER_LIB)
    message(FATAL_ERROR
        "GLEW was not found. Install it with one of:\n"
        "  Debian/Ubuntu : sudo apt install libglew-dev\n"
        "  Fedora        : sudo dnf install glew-devel\n"
        "  Arch          : sudo pacman -S glew\n"
        "  macOS         : brew install glew\n"
        "  vcpkg         : vcpkg install glew (configure with the vcpkg toolchain file)")
endif()

# ---------------------------------------------------------------- Application
file(GLOB_RECURSE APP_SOURCES CONFIGURE_DEPENDS
    "${CMAKE_CURRENT_SOURCE_DIR}/src/*.cpp"
    "${CMAKE_CURRENT_SOURCE_DIR}/src/*.c"
)

add_executable(${PROJECT_NAME} ${APP_SOURCES})

target_include_directories(${PROJECT_NAME} PRIVATE "${CMAKE_CURRENT_SOURCE_DIR}/include")

target_link_libraries(${PROJECT_NAME}
    PRIVATE
        OpenGL::GL
        ${BACKEND_LIB}
        ${LOADER_LIB}
)

if(MSVC)
    target_compile_options(${PROJECT_NAME} PRIVATE /W4 /permissive-)
else()
    target_compile_options(${PROJECT_NAME} PRIVATE -Wall -Wextra -Wpedantic)
endif()

# ---------------------------------------------------------------- Optional libraries
# Links PKG to the executable if it can be found, and defines DEFINE when it is.
# Extra arguments are the imported target names to try, in order.
function(app_use_optional PKG DEFINE)
    find_package(${PKG} CONFIG QUIET)
    foreach(candidate IN LISTS ARGN)
        if(TARGET ${candidate})
            target_link_libraries(${PROJECT_NAME} PRIVATE ${candidate})
            target_compile_definitions(${PROJECT_NAME} PRIVATE ${DEFINE})
            message(STATUS "Optional dependency ${PKG}: using ${candidate}")
            return()
        endif()
    endforeach()

    if(PkgConfig_FOUND)
        string(TOLOWER "${PKG}" pc_module)
        pkg_check_modules(OPT_${PKG} QUIET IMPORTED_TARGET ${pc_module})
        if(TARGET PkgConfig::OPT_${PKG})
            target_link_libraries(${PROJECT_NAME} PRIVATE PkgConfig::OPT_${PKG})
            target_compile_definitions(${PROJECT_NAME} PRIVATE ${DEFINE})
            message(STATUS "Optional dependency ${PKG}: using pkg-config module ${pc_module}")
            return()
        endif()
    endif()

    message(STATUS "Optional dependency ${PKG}: not found, skipped")
endfunction()

app_use_optional(glm HAVE_GLM glm::glm glm)
app_use_optional(imgui HAVE_IMGUI imgui::imgui)
app_use_optional(assimp HAVE_ASSIMP assimp::assimp)
app_use_optional(fmt HAVE_FMT fmt::fmt)
app_use_optional(spdlog HAVE_SPDLOG spdlog::spdlog)

# ---------------------------------------------------------------- Assets
# Shaders and textures are loaded relative to the executable at runtime.
add_custom_command(TARGET ${PROJECT_NAME} POST_BUILD
    COMMAND ${CMAKE_COMMAND} -E copy_directory
            "${CMAKE_CURRENT_SOURCE_DIR}/assets"
            "$<TARGET_FILE_DIR:${PROJECT_NAME}>/assets"
    COMMENT "Copying assets next to the executable"
)
"#);
}

#[test]
fn glew_sdl3_main_cpp_is_exact() {
    let app = App {
        gl_loader: GlLoader::Glew,
        window_backend: WindowBackend::Sdl3,
        debug_context: false,
        ..App::default()
    };
    let text = app.main_cpp_template("my_opengl_app");
    assert_eq!(text, r#"#include <iostream>

#include <GL/glew.h>
#include <SDL3/SDL.h>

int main() {
    if (!SDL_Init(SDL_INIT_VIDEO)) {
        std::cerr << "Failed to initialize SDL3: " << SDL_GetError() << "\n";
        return -1;
    }

    SDL_GL_SetAttribute(SDL_GL_CONTEXT_MAJOR_VERSION, 4);
    SDL_GL_SetAttribute(SDL_GL_CONTEXT_MINOR_VERSION, 6);
    SDL_GL_SetAttribute(SDL_GL_CONTEXT_PROFILE_MASK, SDL_GL_CONTEXT_PROFILE_CORE);
    SDL_GL_SetAttribute(SDL_GL_FRAMEBUFFER_SRGB_CAPABLE, 1);

    SDL_Window* window = SDL_CreateWindow("my_opengl_app", 1280, 720, SDL_WINDOW_OPENGL | SDL_WINDOW_RESIZABLE);
    if (!window) {
        std::cerr << "Failed to create SDL3 window: " << SDL_GetError() << "\n";
        SDL_Quit();
        return -1;
    }

    SDL_GLContext gl_context = SDL_GL_CreateContext(window);
    if (!gl_context) {
        std::cerr << "Failed to create OpenGL context: " << SDL_GetError() << "\n";
        SDL_DestroyWindow(window);
        SDL_Quit();
        return -1;
    }

    glewExperimental = GL_TRUE;
    const GLenum glew_status = glewInit();
#ifdef GLEW_ERROR_NO_GLX_DISPLAY
    // GLEW reports this on Wayland even though the context is perfectly usable.
    const bool glew_ok = glew_status == GLEW_OK || glew_status == GLEW_ERROR_NO_GLX_DISPLAY;
#else
    const bool glew_ok = glew_status == GLEW_OK;
#endif
    if (!glew_ok) {
        std::cerr << "Failed to initialize GLEW: " << glewGetErrorString(glew_status) << "\n";
        return -1;
    }

    bool running = true;
    while (running) {
        SDL_Event event;
        while (SDL_PollEvent(&event)) {
            if (event.type == SDL_EVENT_QUIT) {
                running = false;
            }
        }

        glClearColor(1.0f, 1.0f, 1.0f, 1.0f);
        glClear(GL_COLOR_BUFFER_BIT);
        SDL_GL_SwapWindow(window);
    }

    SDL_GL_DestroyContext(gl_context);
    SDL_DestroyWindow(window);
    SDL_Quit();
    return 0;
}
"#);
}

#[test]
fn meson_build_is_exact() {
    let app = App {
        build_system: BuildSystem::Meson,
        window_backend: WindowBackend::Sdl3,
        gl_loader: GlLoader::Glew,
        ..App::default()
    };
    let text = app.meson_template("my_opengl_app");
    assert_eq!(text, r#"project('my_opengl_app', 'cpp', default_options: ['cpp_std=c++20', 'warning_level=3'])

opengl_dep = dependency('opengl')
window_dep = dependency('sdl3')
loader_dep = dependency('glew')

executable('my_opengl_app',
  'src/main.cpp',
  dependencies: [opengl_dep, window_dep, loader_dep],
  install: true
)
"#);
}

#[test]
fn meson_launch_json_is_exact() {
    let app = App {
        build_system: BuildSystem::Meson,
        window_backend: WindowBackend::Sdl3,
        gl_loader: GlLoader::Glew,
        ..App::default()
    };
    let text = app.vscode_launch_template("my_opengl_app");
    assert_eq!(text, r#"{
  "version": "0.2.0",
  "configurations": [
    {
      "name": "Launch my_opengl_app",
      "type": "cppdbg",
      "request": "launch",
      "program": "${workspaceFolder}/build/my_opengl_app",
      "args": [],
      "cwd": "${workspaceFolder}/build",
      "stopAtEntry": false,
      "externalConsole": false,
      "MIMode": "gdb",
      "preLaunchTask": "Meson: Build",
      "osx": {
        "MIMode": "lldb"
      },
      "windows": {
        "type": "cppvsdbg",
        "program": "${workspaceFolder}/build/my_opengl_app.exe"
      }
    }
  ]
}
"#);
}

#[test]
fn glad2_readme_is_exact() {
    let app = App {
        gl_loader: GlLoader::Glad2,
        opengl_major: 3,
        opengl_minor: 0,
        build_system: BuildSystem::Meson,
        ..App::default()
    };
    let text = app.readme_template("my_opengl_app");
    assert_eq!(text, r#"# my_opengl_app

Generated with OpenGL Project Generator.

## Selected stack
- Windowing: GLFW
- GL loader: glad2
- Build system: Meson
- OpenGL: 3.0

## Optional libraries toggled
- GLM: yes
- Dear ImGui: no
- stb_image: yes
- Assimp: no
- fmt: yes
- spdlog: no

## Build
### CMake
1. cmake --preset default
2. cmake --build --preset default

The executable and a copy of assets/ end up in build/bin.
Use the `release` preset instead of `default` for an optimised build.

### Meson
1. meson setup build
2. meson compile -C build

## Requirements
- A C++ compiler and CMake 3.21 or newer.
- GLFW development files (see third_party/README.md for install commands).
- Python 3 on PATH plus the Jinja2 module (`python -m pip install --user jinja2`):
  the glad2 generator runs during the build.

Optional libraries are linked only if they are found; each one that is defines a
HAVE_* macro (HAVE_GLM, HAVE_FMT, ...) you can test in your code. A missing one
never breaks the build.
"#);
}

#[test]
fn odd_project_name_is_filled_in_once() {
    let app = App::default();
    let text = app.cmake_template("@CXX_STANDARD@ x");
    assert_eq!(text, r#"cmake_minimum_required(VERSION 3.21)
project(20 x LANGUAGES C CXX)

set(CMAKE_CXX_STANDARD 20)
set(CMAKE_CXX_STANDARD_REQUIRED ON)
set(CMAKE_CXX_EXTENSIONS OFF)
set(CMAKE_EXPORT_COMPILE_COMMANDS ON)

# Single-config generators (Makefiles, Ninja) start with no build type at all.
if(NOT CMAKE_BUILD_TYPE AND NOT CMAKE_CONFIGURATION_TYPES)
    set(CMAKE_BUILD_TYPE Debug CACHE STRING "Build type" FORCE)
endif()

# Keep the executable in one predictable place across generators, so the
# debugger configs and the asset copy below always agree on the path.
set(CMAKE_RUNTIME_OUTPUT_DIRECTORY "${CMAKE_BINARY_DIR}/bin")
foreach(output_config IN ITEMS DEBUG RELEASE RELWITHDEBINFO MINSIZEREL)
    set(CMAKE_RUNTIME_OUTPUT_DIRECTORY_${output_config} "${CMAKE_BINARY_DIR}/bin")
endforeach()

# Used as a fallback everywhere a package ships only a .pc file.
find_package(PkgConfig QUIET)

# ---------------------------------------------------------------- OpenGL
set(OpenGL_GL_PREFERENCE GLVND)
find_package(OpenGL REQUIRED)

# ---------------------------------------------------------------- Window backend
find_package(glfw3 CONFIG QUIET)
if(TARGET glfw)
    set(BACKEND_LIB glfw)
elseif(PkgConfig_FOUND)
    pkg_check_modules(GLFW3_PC QUIET IMPORTED_TARGET glfw3)
    if(TARGET PkgConfig::GLFW3_PC)
        set(BACKEND_LIB PkgConfig::GLFW3_PC)
    endif()
endif()

if(NOT BACKEND_LIB)
    message(FATAL_ERROR
        "GLFW was not found. Install it with one of:\n"
        "  Debian/Ubuntu : sudo apt install libglfw3-dev\n"
        "  Fedora        : sudo dnf install glfw-devel\n"
        "  Arch          : sudo pacman -S glfw\n"
        "  macOS         : brew install glfw\n"
        "  vcpkg         : vcpkg install glfw3 (configure with the vcpkg toolchain file)")
endif()

# ---------------------------------------------------------------- OpenGL loader
set(GLAD_DIR "${CMAKE_CURRENT_SOURCE_DIR}/third_party/glad")
if(NOT EXISTS "${GLAD_DIR}/CMakeLists.txt")
    message(FATAL_ERROR
        "third_party/glad is missing. Fetch it with:\n"
        "  git clone --depth 1 --branch master https://github.com/Dav1dde/glad.git third_party/glad")
endif()

# glad 0.1 generates its sources at build time with a Python script. It needs
# only the standard library, but the interpreter has to exist -- fail here with
# a readable message rather than midway through the build.
find_package(Python COMPONENTS Interpreter REQUIRED)

set(GLAD_API "gl=4.6" CACHE STRING "" FORCE)
set(GLAD_PROFILE "core" CACHE STRING "" FORCE)
set(GLAD_GENERATOR "c" CACHE STRING "" FORCE)
set(GLAD_REPRODUCIBLE ON CACHE BOOL "" FORCE)

# glad 0.1 declares cmake_minimum_required(VERSION 3.0), which CMake 4 rejects.
if(CMAKE_VERSION VERSION_GREATER_EQUAL 4.0)
    set(CMAKE_POLICY_VERSION_MINIMUM 3.5)
endif()

add_subdirectory("${GLAD_DIR}" glad_build)
set(LOADER_LIB glad)

# ---------------------------------------------------------------- Application
file(GLOB_RECURSE APP_SOURCES CONFIGURE_DEPENDS
    "${CMAKE_CURRENT_SOURCE_DIR}/src/*.cpp"
    "${CMAKE_CURRENT_SOURCE_DIR}/src/*.c"
)

add_executable(${PROJECT_NAME} ${APP_SOURCES})

target_include_directories(${PROJECT_NAME} PRIVATE "${CMAKE_CURRENT_SOURCE_DIR}/include")

target_link_libraries(${PROJECT_NAME}
    PRIVATE
        OpenGL::GL
        ${BACKEND_LIB}
        ${LOADER_LIB}
)

if(MSVC)
    target_compile_options(${PROJECT_NAME} PRIVATE /W4 /permissive-)
else()
    target_compile_options(${PROJECT_NAME} PRIVATE -Wall -Wextra -Wpedantic)
endif()

# ---------------------------------------------------------------- Optional libraries
# Links PKG to the executable if it can be found, and defines DEFINE when it is.
# Extra arguments are the imported target names to try, in order.
function(app_use_optional PKG DEFINE)
    find_package(${PKG} CONFIG QUIET)
    foreach(candidate IN LISTS ARGN)
        if(TARGET ${candidate})
            target_link_libraries(${PROJECT_NAME} PRIVATE ${candidate})
            target_compile_definitions(${PROJECT_NAME} PRIVATE ${DEFINE})
            message(STATUS "Optional dependency ${PKG}: using ${candidate}")
            return()
        endif()
    endforeach()

    if(PkgConfig_FOUND)
        string(TOLOWER "${PKG}" pc_module)
        pkg_check_modules(OPT_${PKG} QUIET IMPORTED_TARGET ${pc_module})
        if(TARGET PkgConfig::OPT_${PKG})
            target_link_libraries(${PROJECT_NAME} PRIVATE PkgConfig::OPT_${PKG})
            target_compile_definitions(${PROJECT_NAME} PRIVATE ${DEFINE})
            message(STATUS "Optional dependency ${PKG}: using pkg-config module ${pc_module}")
            return()
        endif()
    endif()

    message(STATUS "Optional dependency ${PKG}: not found, skipped")
endfunction()

app_use_optional(glm HAVE_GLM glm::glm glm)
app_use_optional(fmt HAVE_FMT fmt::fmt)

# stb_image is a single header, so it has no link target -- just an include dir.
find_path(STB_IMAGE_INCLUDE_DIR NAMES stb_image.h PATH_SUFFIXES stb)
if(STB_IMAGE_INCLUDE_DIR)
    target_include_directories(${PROJECT_NAME} PRIVATE "${STB_IMAGE_INCLUDE_DIR}")
    target_compile_definitions(${PROJECT_NAME} PRIVATE HAVE_STB_IMAGE)
    message(STATUS "Optional dependency stb_image: using ${STB_IMAGE_INCLUDE_DIR}")
else()
    message(STATUS "Optional dependency stb_image: not found, skipped")
endif()

# ---------------------------------------------------------------- Assets
# Shaders and textures are loaded relative to the executable at runtime.
add_custom_command(TARGET ${PROJECT_NAME} POST_BUILD
    COMMAND ${CMAKE_COMMAND} -E copy_directory
            "${CMAKE_CURRENT_SOURCE_DIR}/assets"
            "$<TARGET_FILE_DIR:${PROJECT_NAME}>/assets"
    COMMENT "Copying assets next to the executable"
)
"#);
}

#[test]
fn gitignore_and_clang_format_are_exact() {
    assert_eq!(gitignore_template(), r#"# Build artifacts
/build*/
/bin/
compile_commands.json

# IDE
.vscode/*
!.vscode/tasks.json
!.vscode/launch.json

# OS
.DS_Store
Thumbs.db

# CMake
CMakeUserPresets.json
"#);
    assert_eq!(clang_format_template(), r#"BasedOnStyle: LLVM
IndentWidth: 4
ColumnLimit: 100
BreakBeforeBraces: Allman
AllowShortFunctionsOnASingleLine: Empty
"#);
}
