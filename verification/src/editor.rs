//! Editor and tooling files of a generated project: VS Code tasks and
//! launch configuration, `.gitignore` and `.clang-format`.

use vstd::prelude::*;
use crate::app::App;
use crate::options::BuildSystem;
use crate::text::{chars_of, replace_all, replaced, string_of};

verus! {

/// `.vscode/tasks.json` for CMake: configure, then build.
pub const CMAKE_TASKS: &'static str = r#"{
  "version": "2.0.0",
  "tasks": [
    {
      "label": "CMake: Configure",
      "type": "shell",
      "command": "cmake --preset default"
    },
    {
      "label": "CMake: Build",
      "type": "shell",
      "command": "cmake --build --preset default",
      "group": "build",
      "dependsOn": ["CMake: Configure"]
    }
  ]
}
"#;

/// `.vscode/tasks.json` for Meson: set up, then compile.
pub const MESON_TASKS: &'static str = r#"{
  "version": "2.0.0",
  "tasks": [
    {
      "label": "Meson: Setup",
      "type": "shell",
      "command": "meson setup build"
    },
    {
      "label": "Meson: Build",
      "type": "shell",
      "command": "meson compile -C build",
      "group": "build",
      "dependsOn": ["Meson: Setup"]
    }
  ]
}
"#;

/// `.vscode/launch.json`, with `@NAME@` placeholders.
pub const LAUNCH_TEMPLATE: &'static str = r#"{
  "version": "0.2.0",
  "configurations": [
    {
      "name": "Launch @PROJECT_NAME@",
      "type": "cppdbg",
      "request": "launch",
      "program": "@BINARY_DIR@/@PROJECT_NAME@",
      "args": [],
      "cwd": "@BINARY_DIR@",
      "stopAtEntry": false,
      "externalConsole": false,
      "MIMode": "gdb",
      "preLaunchTask": "@BUILD_TASK@",
      "osx": {
        "MIMode": "lldb"
      },
      "windows": {
        "type": "cppvsdbg",
        "program": "@BINARY_DIR@/@PROJECT_NAME@.exe"
      }
    }
  ]
}
"#;

/// `.gitignore`: build output, editor and OS files.
pub const GITIGNORE: &'static str = r#"# Build artifacts
/build*/
/bin/
compile_commands.json

# IDE
.vscode/*
!.vscode/tasks.json
!.vscode/launch.json

# OS
.DS_Store
Thumbs.db

# CMake
CMakeUserPresets.json
"#;

/// `.clang-format`: LLVM style, four-space indents, Allman braces.
pub const CLANG_FORMAT: &'static str = r#"BasedOnStyle: LLVM
IndentWidth: 4
ColumnLimit: 100
BreakBeforeBraces: Allman
AllowShortFunctionsOnASingleLine: Empty
"#;

/// `.vscode/tasks.json` for the build system.
pub open spec fn tasks_text(build: BuildSystem) -> Seq<char> {
    match build {
        BuildSystem::CMake => CMAKE_TASKS@,
        BuildSystem::Meson => MESON_TASKS@,
    }
}

/// Where the executable ends up: CMake puts it in `build/bin`, Meson at the
/// top of `build`.
pub open spec fn binary_dir(build: BuildSystem) -> Seq<char> {
    match build {
        BuildSystem::CMake => "${workspaceFolder}/build/bin"@,
        BuildSystem::Meson => "${workspaceFolder}/build"@,
    }
}

/// The task that builds before launching.
pub open spec fn build_task(build: BuildSystem) -> Seq<char> {
    match build {
        BuildSystem::CMake => "CMake: Build"@,
        BuildSystem::Meson => "Meson: Build"@,
    }
}

/// `.vscode/launch.json`: the template with the project name, the binary
/// directory and the build task put in for their placeholders.
pub open spec fn launch_text(app: App, project_name: Seq<char>) -> Seq<char> {
    let t1 = replaced(LAUNCH_TEMPLATE@, "@PROJECT_NAME@"@, project_name);
    let t2 = replaced(t1, "@BINARY_DIR@"@, binary_dir(app.build_system));
    replaced(t2, "@BUILD_TASK@"@, build_task(app.build_system))
}

impl App {
    /// The text of `.vscode/tasks.json`.
    pub fn vscode_tasks_template(&self) -> (out: String)
        ensures
            out@ == tasks_text(self.build_system),
    {
        match self.build_system {
            BuildSystem::CMake => CMAKE_TASKS.to_owned(),
            BuildSystem::Meson => MESON_TASKS.to_owned(),
        }
    }

    /// The text of `.vscode/launch.json`.
    pub fn vscode_launch_template(&self, project_name: &str) -> (out: String)
        ensures
            out@ == launch_text(*self, project_name@),
    {
        let (binary_dir, build_task) = match self.build_system {
            BuildSystem::CMake => ("${workspaceFolder}/build/bin", "CMake: Build"),
            BuildSystem::Meson => ("${workspaceFolder}/build", "Meson: Build"),
        };
        proof {
            reveal_strlit("@PROJECT_NAME@");
            reveal_strlit("@BINARY_DIR@");
            reveal_strlit("@BUILD_TASK@");
        }
        let template = chars_of(LAUNCH_TEMPLATE);
        let t1 = replace_all(&template, &chars_of("@PROJECT_NAME@"), &chars_of(project_name));
        let t2 = replace_all(&t1, &chars_of("@BINARY_DIR@"), &chars_of(binary_dir));
        let t3 = replace_all(&t2, &chars_of("@BUILD_TASK@"), &chars_of(build_task));
        string_of(&t3)
    }
}

/// The text of `.gitignore`.
pub fn gitignore_template() -> (out: String)
    ensures
        out@ == GITIGNORE@,
{
    GITIGNORE.to_owned()
}

/// The text of `.clang-format`.
pub fn clang_format_template() -> (out: String)
    ensures
        out@ == CLANG_FORMAT@,
{
    CLANG_FORMAT.to_owned()
}

} // verus!
