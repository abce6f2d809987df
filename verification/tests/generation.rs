use opengl_project_generator::app::{glad_clone_arguments, max_opengl_minor, App};
use opengl_project_generator::options::{BuildSystem, GlLoader, WindowBackend};
use opengl_project_generator::text::{decimal_string, replace_all};

fn paths(app: &App) -> Vec<String> {
    app.write_project_files("my_opengl_app").into_iter().map(|f| f.path).collect()
}

#[test]
fn default_settings() {
    let app = App::default();
    assert_eq!(app.project_name, "my_opengl_app");
    assert_eq!(app.output_directory, "./generated");
    assert_eq!(app.cpp_standard, "c++20");
    assert_eq!((app.opengl_major, app.opengl_minor), (4, 6));
    assert_eq!(app.window_backend, WindowBackend::Glfw);
    assert_eq!(app.gl_loader, GlLoader::Glad);
    assert_eq!(app.build_system, BuildSystem::CMake);
    assert_eq!(app.status_message, "Ready to generate project template");
}

#[test]
fn names_of_the_choices() {
    assert_eq!(WindowBackend::Glfw.as_str(), "GLFW");
    assert_eq!(WindowBackend::Sdl3.as_str(), "SDL3");
    assert_eq!(GlLoader::Glad.as_str(), "glad");
    assert_eq!(GlLoader::Glad2.as_str(), "glad2");
    assert_eq!(GlLoader::Glew.as_str(), "GLEW");
    assert_eq!(BuildSystem::CMake.as_str(), "CMake");
    assert_eq!(BuildSystem::Meson.as_str(), "Meson");
}

#[test]
fn project_root_joins_output_directory_and_name() {
    let mut app = App::default();
    assert_eq!(app.project_root("demo"), "./generated/demo");
    app.output_directory = "   ".to_owned();
    assert_eq!(app.project_root("demo"), "./demo");
    app.output_directory = " /tmp/out/ ".to_owned();
    assert_eq!(app.project_root("demo"), "/tmp/out/demo");
    app.output_directory = "out".to_owned();
    assert_eq!(app.project_root("/abs"), "/abs");
}

#[test]
fn project_root_follows_the_platform_separator() {
    let cases = [
        ("out", "demo"),
        ("C:", "demo"),
        ("C:\\gen", "\\demo"),
        ("C:\\gen", "/demo"),
        ("C:\\games\\", "demo"),
        ("C:\\games\\", "D:x"),
        ("\\\\server\\share", "\\demo"),
        ("out/", "demo"),
        ("", "demo"),
    ];
    for (dir, name) in cases {
        let app = App { output_directory: dir.to_owned(), ..App::default() };
        let base = if dir.trim().is_empty() { "." } else { dir.trim() };
        let expected = std::path::Path::new(base).join(name);
        assert_eq!(app.project_root(name), expected.to_string_lossy(), "{dir} + {name}");
    }
    let app = App { output_directory: "out".to_owned(), ..App::default() };
    assert_eq!(app.project_root("demo"), format!("out{}demo", std::path::MAIN_SEPARATOR));
}

#[test]
fn empty_names_stop_the_generation() {
    let mut app = App::default();
    app.project_name = " ?? ".to_owned();
    assert_eq!(
        app.checked_project_name(),
        Err("Project name is empty after sanitization".to_owned())
    );
    app.project_name = " Space Game ".to_owned();
    assert_eq!(app.checked_project_name(), Ok("space_game".to_owned()));
}

#[test]
fn status_line_follows_the_outcome() {
    let mut app = App::default();
    app.generate_project(Ok("done".to_owned()));
    assert_eq!(app.status_message, "done");
    app.generate_project(Err("disk full".to_owned()));
    assert_eq!(app.status_message, "Generation failed: disk full");
    assert_eq!(app.project_name, "my_opengl_app");
}

#[test]
fn generation_message_names_stack_and_place() {
    let app = App { window_backend: WindowBackend::Sdl3, gl_loader: GlLoader::Glew, ..App::default() };
    assert_eq!(
        app.generation_message("demo", "./generated/demo"),
        "Generated 'demo' at './generated/demo' with SDL3 + GLEW"
    );
}

#[test]
fn opengl_version_is_kept_in_range() {
    let mut app = App { opengl_major: 3, opengl_minor: 6, ..App::default() };
    app.constrain_opengl_version();
    assert_eq!(app.opengl_minor, 3);
    app.constrain_opengl_version();
    assert_eq!(app.opengl_minor, 3);
    let mut app = App { opengl_major: 4, opengl_minor: 5, ..App::default() };
    app.constrain_opengl_version();
    assert_eq!(app.opengl_minor, 5);
    let mut app = App { opengl_major: 4, opengl_minor: 9, ..App::default() };
    app.constrain_opengl_version();
    assert_eq!(app.opengl_minor, 6);
    assert_eq!(max_opengl_minor(3), 3);
    assert_eq!(max_opengl_minor(4), 6);
}

#[test]
fn layout_directories_follow_the_extras() {
    let app = App::default();
    assert_eq!(
        app.layout_directories(),
        vec!["src", "include", "assets", "assets/shaders", "assets/textures", "cmake", "third_party", ".vscode"]
    );
    let app = App { include_vscode_files: false, ..App::default() };
    assert_eq!(app.layout_directories().len(), 7);
}

#[test]
fn files_written_for_default_cmake_project() {
    assert_eq!(
        paths(&App::default()),
        vec![
            "src/main.cpp",
            "README.md",
            "third_party/README.md",
            "CMakeLists.txt",
            "CMakePresets.json",
            ".gitignore",
            ".clang-format",
            ".vscode/tasks.json",
            ".vscode/launch.json",
        ]
    );
}

#[test]
fn files_written_for_bare_meson_project() {
    let app = App {
        build_system: BuildSystem::Meson,
        include_gitignore: false,
        include_clang_format: false,
        include_vscode_files: false,
        ..App::default()
    };
    assert_eq!(paths(&app), vec!["src/main.cpp", "README.md", "third_party/README.md", "meson.build"]);
}

#[test]
fn written_files_hold_their_templates() {
    let app = App::default();
    let files = app.write_project_files("demo");
    assert_eq!(files[0].contents, app.main_cpp_template("demo"));
    assert_eq!(files[3].contents, app.cmake_template("demo"));
    assert_eq!(files[4].contents, app.cmake_presets_template());
    assert_eq!(files[7].contents, app.vscode_tasks_template());
    assert_eq!(files[8].contents, app.vscode_launch_template("demo"));
}

#[test]
fn glad_is_fetched_with_a_shallow_clone_of_its_branch() {
    assert_eq!(
        glad_clone_arguments("glad2"),
        vec!["clone", "--depth", "1", "--branch", "glad2", "https://github.com/Dav1dde/glad.git", "third_party/glad"]
    );
}

#[test]
fn optional_block_is_empty_when_nothing_is_chosen() {
    let app = App {
        include_glm: false,
        include_imgui: false,
        include_stb_image: false,
        include_assimp: false,
        include_spdlog: false,
        include_fmt: false,
        ..App::default()
    };
    assert_eq!(app.cmake_optional_block(), "");
    let app = App { include_fmt: false, include_glm: false, ..App::default() };
    let block = app.cmake_optional_block();
    assert!(block.contains("stb_image"));
    assert!(!block.contains("function(app_use_optional"));
}

#[test]
fn each_chosen_library_is_used() {
    let app = App { include_imgui: true, include_spdlog: true, ..App::default() };
    let block = app.cmake_optional_block();
    for line in [
        "app_use_optional(glm HAVE_GLM glm::glm glm)",
        "app_use_optional(imgui HAVE_IMGUI imgui::imgui)",
        "app_use_optional(fmt HAVE_FMT fmt::fmt)",
        "app_use_optional(spdlog HAVE_SPDLOG spdlog::spdlog)",
    ] {
        assert!(block.contains(line), "{line}");
    }
    assert!(!block.contains("assimp"));
}

#[test]
fn decimal_numerals() {
    assert_eq!(decimal_string(0), "0");
    assert_eq!(decimal_string(7), "7");
    assert_eq!(decimal_string(255), "255");
    assert_eq!(decimal_string(4294967295), "4294967295");
}

#[test]
fn replacement_is_left_to_right_and_never_overlapping() {
    let chars = |s: &str| s.chars().collect::<Vec<char>>();
    let out: String = replace_all(&chars("aaaa-aa"), &chars("aa"), &chars("b")).into_iter().collect();
    assert_eq!(out, "bb-b");
    let out: String = replace_all(&chars("@X@X@"), &chars("@X@"), &chars("<>")).into_iter().collect();
    assert_eq!(out, "<>X@");
}

#[test]
fn generation_plan_for_default_settings() {
    let plan = App::default().generation_plan().unwrap();
    assert_eq!(plan.project_name, "my_opengl_app");
    assert_eq!(plan.root, "./generated/my_opengl_app");
    assert_eq!(plan.directories.len(), 8);
    assert_eq!(plan.files.len(), 9);
    assert_eq!(plan.glad_branch, Some("master"));
    assert!(plan.init_git);
    assert_eq!(plan.message, "Generated 'my_opengl_app' at './generated/my_opengl_app' with GLFW + glad");
}

#[test]
fn generation_plan_is_refused_for_an_empty_name() {
    let app = App { project_name: "***".to_owned(), ..App::default() };
    assert_eq!(app.generation_plan().unwrap_err(), "Project name is empty after sanitization");
}

#[test]
fn generation_plan_for_glew_without_git() {
    let app = App {
        project_name: "Demo Game".to_owned(),
        output_directory: "out/".to_owned(),
        gl_loader: GlLoader::Glew,
        create_git_repo: false,
        ..App::default()
    };
    let plan = app.generation_plan().unwrap();
    assert_eq!(plan.root, "out/demo_game");
    assert_eq!(plan.glad_branch, None);
    assert!(!plan.init_git);
    assert_eq!(plan.message, "Generated 'demo_game' at 'out/demo_game' with GLFW + GLEW");
}
