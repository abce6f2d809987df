use opengl_project_generator::app::App;
use opengl_project_generator::options::{BuildSystem, GlLoader, WindowBackend};

fn matrix() -> Vec<(String, App)> {
    let mut cases = Vec::new();
    for backend in [WindowBackend::Glfw, WindowBackend::Sdl3] {
        for loader in [GlLoader::Glad, GlLoader::Glad2, GlLoader::Glew] {
            let app = App { window_backend: backend, gl_loader: loader, create_git_repo: false, ..App::default() };
            let label = format!("{}-{}", backend.as_str().to_lowercase(), loader.as_str().to_lowercase());
            cases.push((label, app));
        }
    }
    cases
}

#[test]
fn generates_every_backend_and_loader_combination() {
    for (label, app) in matrix() {
        let files = app.write_project_files("my_opengl_app");
        let cmake = &files.iter().find(|f| f.path == "CMakeLists.txt").unwrap().contents;
        assert!(cmake.contains("cmake_minimum_required(VERSION 3.21)"), "{label}");
        assert!(cmake.contains("add_executable(${PROJECT_NAME} ${APP_SOURCES})"), "{label}");
        assert!(cmake.contains("${BACKEND_LIB}"), "{label}");
        assert!(cmake.contains("${LOADER_LIB}"), "{label}");
        assert!(cmake.contains("set(BACKEND_LIB") || cmake.contains("set(LOADER_LIB"), "{label}");
        assert!(files.iter().any(|f| f.path == "CMakePresets.json"), "{label}");
    }
}

#[test]
fn glad_headers_match_the_cloned_branch() {
    for (label, app) in matrix() {
        let main_cpp = app.main_cpp_template("my_opengl_app");
        let branch = app.setup_loader_dependencies();
        let loader_block = app.cmake_loader_block();
        match app.gl_loader {
            GlLoader::Glad => {
                assert!(main_cpp.contains("#include <glad/glad.h>"), "{label}");
                assert_eq!(branch, Some("master"), "{label}");
                assert!(loader_block.contains("--branch master"), "{label}");
                assert!(loader_block.contains("${GLAD_DIR}/CMakeLists.txt"), "{label}");
            }
            GlLoader::Glad2 => {
                assert!(main_cpp.contains("#include <glad/gl.h>"), "{label}");
                assert_eq!(branch, Some("glad2"), "{label}");
                assert!(loader_block.contains("--branch glad2"), "{label}");
                assert!(loader_block.contains("${GLAD_SOURCES_DIR}/cmake"), "{label}");
            }
            GlLoader::Glew => {
                assert!(main_cpp.contains("#include <GL/glew.h>"), "{label}");
                assert_eq!(branch, None, "{label}");
            }
        }
    }
}

#[test]
fn cmake_sets_the_standard_read_from_the_value() {
    for (value, n) in [("c++20", "20"), ("gnu++23", "23"), ("c++21", "17"), ("whatever", "17")] {
        let app = App { cpp_standard: value.to_owned(), ..App::default() };
        let cmake = app.cmake_template("demo");
        assert!(cmake.contains(&format!("set(CMAKE_CXX_STANDARD {n})")), "{value}");
    }
}

#[test]
fn presets_are_written_only_for_cmake_with_presets() {
    for build in [BuildSystem::CMake, BuildSystem::Meson] {
        for presets in [true, false] {
            let app = App { build_system: build, include_cmake_presets: presets, ..App::default() };
            let written = app.write_project_files("x").iter().any(|f| f.path == "CMakePresets.json");
            assert_eq!(written, build == BuildSystem::CMake && presets);
        }
    }
}
