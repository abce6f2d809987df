use opengl_project_generator::app::App;
use opengl_project_generator::options::{BuildSystem, GlLoader, WindowBackend};

fn every_stack() -> Vec<App> {
    let mut apps = Vec::new();
    for backend in [WindowBackend::Glfw, WindowBackend::Sdl3] {
        for loader in [GlLoader::Glad, GlLoader::Glad2, GlLoader::Glew] {
            apps.push(App { window_backend: backend, gl_loader: loader, ..App::default() });
        }
    }
    apps
}

#[test]
fn main_cpp_sets_up_what_was_chosen() {
    let app = App {
        opengl_major: 4,
        opengl_minor: 5,
        core_profile: false,
        debug_context: true,
        ..App::default()
    };
    let text = app.main_cpp_template("demo");
    assert!(text.contains("#include <GLFW/glfw3.h>"));
    assert!(text.contains("glfwWindowHint(GLFW_CONTEXT_VERSION_MAJOR, 4);"));
    assert!(text.contains("glfwWindowHint(GLFW_CONTEXT_VERSION_MINOR, 5);"));
    assert!(text.contains("glfwWindowHint(GLFW_OPENGL_PROFILE, GLFW_OPENGL_COMPAT_PROFILE);"));
    assert!(text.contains("glfwWindowHint(GLFW_OPENGL_DEBUG_CONTEXT, GLFW_TRUE);"));
    assert!(text.contains("glfwCreateWindow(1280, 720, \"demo\", nullptr, nullptr);"));
    assert!(text.contains(app.glfw_loader_init()));

    let sdl = App { window_backend: WindowBackend::Sdl3, gl_loader: GlLoader::Glad2, ..App::default() };
    let text = sdl.main_cpp_template("demo");
    assert!(text.contains("#include <SDL3/SDL.h>"));
    assert!(text.contains("#include <glad/gl.h>"));
    assert!(text.contains("SDL_GL_SetAttribute(SDL_GL_CONTEXT_PROFILE_MASK, SDL_GL_CONTEXT_PROFILE_CORE);"));
    assert!(text.contains("SDL_CreateWindow(\"demo\", 1280, 720, SDL_WINDOW_OPENGL | SDL_WINDOW_RESIZABLE);"));
    assert!(text.contains(sdl.sdl_loader_init()));
    let flipped = App { debug_context: !sdl.debug_context, ..sdl.clone() };
    assert_eq!(flipped.main_cpp_template("demo"), text);
}

#[test]
fn sdl_loader_init_is_glfw_loader_init_with_sdl_lookup() {
    for app in every_stack() {
        let expected = app.glfw_loader_init().replace("glfwGetProcAddress", "SDL_GL_GetProcAddress");
        assert_eq!(app.sdl_loader_init(), expected);
    }
    let glew = App { gl_loader: GlLoader::Glew, ..App::default() };
    assert_eq!(glew.sdl_loader_init(), glew.glfw_loader_init());
}

#[test]
fn glew_block_ignores_version_and_python() {
    let glew = App { gl_loader: GlLoader::Glew, ..App::default() };
    let other = App { opengl_major: 4, opengl_minor: 6, core_profile: false, ..glew.clone() };
    let block = glew.cmake_loader_block();
    assert_eq!(other.cmake_loader_block(), block);
    assert!(block.contains("set(LOADER_LIB GLEW::GLEW)"));
    assert!(block.contains("set(LOADER_LIB PkgConfig::GLEW_PC)"));
    assert!(block.contains("if(NOT LOADER_LIB)\n    message(FATAL_ERROR"));
    assert!(block.contains("sudo apt install libglew-dev"));
    assert!(!block.contains("Python"));
    assert!(!block.contains("third_party/glad"));
}

#[test]
fn loader_note_names_what_the_block_checks() {
    for app in every_stack() {
        let note = app.loader_requirement_note();
        let block = app.cmake_loader_block();
        assert_eq!(
            note.contains("Python"),
            block.contains("find_package(Python COMPONENTS Interpreter REQUIRED)")
        );
        assert_eq!(note.contains("Jinja2"), block.contains("import jinja2"));
    }
    let glad = App { gl_loader: GlLoader::Glad, ..App::default() };
    assert!(!glad.loader_requirement_note().contains("Jinja2"));
    let glew = App { gl_loader: GlLoader::Glew, ..App::default() };
    assert_eq!(glew.loader_requirement_note(), "- GLEW development files.");
}

#[test]
fn readme_lists_the_choices() {
    let app = App {
        opengl_major: 4,
        opengl_minor: 1,
        include_assimp: true,
        build_system: BuildSystem::Meson,
        ..App::default()
    };
    let text = app.readme_template("demo");
    assert!(text.starts_with("# demo\n"));
    assert!(text.contains("- Windowing: GLFW"));
    assert!(text.contains("- GL loader: glad"));
    assert!(text.contains("- Build system: Meson"));
    assert!(text.contains("- OpenGL: 4.1"));
    assert!(text.contains("- GLM: yes"));
    assert!(text.contains("- Assimp: yes"));
    assert!(text.contains("- fmt: yes"));
    assert!(text.contains(app.loader_requirement_note()));
}

#[test]
fn third_party_readme_depends_on_backend_loader_and_libraries_only() {
    let app = App { window_backend: WindowBackend::Sdl3, gl_loader: GlLoader::Glew, include_spdlog: true, ..App::default() };
    let text = app.third_party_readme();
    assert!(text.contains("- Window backend: SDL3\n- OpenGL loader: GLEW"));
    assert!(text.contains("- spdlog: yes"));
    assert!(text.contains("- Dear ImGui: no"));
    let other = App {
        build_system: BuildSystem::Meson,
        opengl_major: 3,
        opengl_minor: 2,
        cpp_standard: "c++23".to_owned(),
        ..app.clone()
    };
    assert_eq!(other.third_party_readme(), text);
}

#[test]
fn cmake_lists_name_the_project_and_keep_the_blocks_in_order() {
    for app in every_stack() {
        let text = app.cmake_template("space game");
        assert!(text.contains("project(space game LANGUAGES C CXX)"));
        assert!(!text.contains('@'));
        let backend = text.find(&app.cmake_backend_block()).unwrap();
        let loader = text.find(&app.cmake_loader_block()).unwrap();
        let optional = text.find(&app.cmake_optional_block()).unwrap();
        assert!(backend < loader && loader < optional);
    }
}

#[test]
fn launch_runs_what_the_build_task_builds() {
    let cmake = App::default();
    let launch = cmake.vscode_launch_template("demo");
    assert!(launch.contains("\"program\": \"${workspaceFolder}/build/bin/demo\""));
    assert!(launch.contains("\"cwd\": \"${workspaceFolder}/build/bin\""));
    assert!(launch.contains("\"program\": \"${workspaceFolder}/build/bin/demo.exe\""));
    assert!(launch.contains("\"preLaunchTask\": \"CMake: Build\""));
    assert!(cmake.vscode_tasks_template().contains(
        "\"label\": \"CMake: Build\",\n      \"type\": \"shell\",\n      \"command\": \"cmake --build --preset default\",\n      \"group\": \"build\""
    ));
    let meson = App { build_system: BuildSystem::Meson, ..App::default() };
    let launch = meson.vscode_launch_template("demo");
    assert!(launch.contains("\"cwd\": \"${workspaceFolder}/build\""));
    assert!(launch.contains("\"preLaunchTask\": \"Meson: Build\""));
    assert!(meson.vscode_tasks_template().contains("\"label\": \"Meson: Build\""));
}

#[test]
fn meson_build_passes_the_standard_through() {
    let app = App { cpp_standard: "c++21".to_owned(), gl_loader: GlLoader::Glad2, ..App::default() };
    let text = app.meson_template("demo");
    assert!(text.contains("cpp_std=c++21"));
    assert!(text.contains("window_dep = dependency('glfw3')"));
    assert!(text.contains("loader_dep = dependency('glad')"));
    let glad = App { gl_loader: GlLoader::Glad, opengl_major: 4, ..app.clone() };
    assert_eq!(glad.meson_template("demo"), text);
}

#[test]
fn main_cpp_includes_only_the_chosen_headers() {
    let headers = [
        (GlLoader::Glad, "#include <glad/glad.h>"),
        (GlLoader::Glad2, "#include <glad/gl.h>"),
        (GlLoader::Glew, "#include <GL/glew.h>"),
    ];
    for app in every_stack() {
        let text = app.main_cpp_template("space_game-2");
        for (loader, header) in headers {
            assert_eq!(text.contains(header), loader == app.gl_loader);
        }
        assert_eq!(text.contains("#include <GLFW/glfw3.h>"), app.window_backend == WindowBackend::Glfw);
        assert_eq!(text.contains("#include <SDL3/SDL.h>"), app.window_backend == WindowBackend::Sdl3);
    }
}

#[test]
fn main_cpp_names_only_the_chosen_profile_and_debug_setting() {
    for core in [true, false] {
        for debug in [true, false] {
            let app = App { core_profile: core, debug_context: debug, ..App::default() };
            let text = app.main_cpp_template("demo");
            assert_eq!(text.contains("GLFW_OPENGL_CORE_PROFILE"), core);
            assert_eq!(text.contains("GLFW_OPENGL_COMPAT_PROFILE"), !core);
            assert_eq!(text.contains("GLFW_OPENGL_DEBUG_CONTEXT, GLFW_TRUE"), debug);
            let sdl = App { window_backend: WindowBackend::Sdl3, ..app.clone() };
            assert_eq!(sdl.main_cpp_template("demo").contains("SDL_GL_CONTEXT_PROFILE_CORE"), core);
        }
    }
}
