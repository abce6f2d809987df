//! The files of a generated project, in the order they are written.

use vstd::prelude::*;
use crate::app::{
    generated_message, glad_branch, join_outcome, layout, output_base, views, App,
};
use crate::naming::sanitized;
use crate::cmake::{cmake_lists_text, CMAKE_PRESETS};
use crate::cpp::main_cpp_text;
use crate::docs::{readme_text, third_party_text};
use crate::editor::{
    clang_format_template, gitignore_template, launch_text, tasks_text, CLANG_FORMAT, GITIGNORE,
};
use crate::meson::meson_text;
use crate::options::BuildSystem;

verus! {

/// A file to write: its path relative to the project root, and its text.
#[derive(Clone, Debug)]
pub struct ProjectFile {
    pub path: String,
    pub contents: String,
}

/// A file as a pair of path and text.
pub open spec fn file_view(f: ProjectFile) -> (Seq<char>, Seq<char>) {
    (f.path@, f.contents@)
}

/// The files of a project and their texts, in the order they are written:
/// the source, the two READMEs, the build files of the chosen build system,
/// then the extras that are switched on.
pub open spec fn project_files(app: App, project_name: Seq<char>) -> Seq<(Seq<char>, Seq<char>)> {
    let base = seq![
        ("src/main.cpp"@, main_cpp_text(app, project_name)),
        ("README.md"@, readme_text(app, project_name)),
        ("third_party/README.md"@, third_party_text(app)),
    ];
    let with_build = match app.build_system {
        BuildSystem::CMake => {
            let lists = base.push(("CMakeLists.txt"@, cmake_lists_text(app, project_name)));
            if app.include_cmake_presets {
                lists.push(("CMakePresets.json"@, CMAKE_PRESETS@))
            } else {
                lists
            }
        },
        BuildSystem::Meson => base.push(("meson.build"@, meson_text(app, project_name))),
    };
    let with_gitignore = if app.include_gitignore {
        with_build.push((".gitignore"@, GITIGNORE@))
    } else {
        with_build
    };
    let with_format = if app.include_clang_format {
        with_gitignore.push((".clang-format"@, CLANG_FORMAT@))
    } else {
        with_gitignore
    };
    if app.include_vscode_files {
        with_format.push((".vscode/tasks.json"@, tasks_text(app.build_system))).push(
            (".vscode/launch.json"@, launch_text(app, project_name)),
        )
    } else {
        with_format
    }
}

fn add_file(files: &mut Vec<ProjectFile>, path: &str, contents: String)
    ensures
        final(files)@.map_values(|f: ProjectFile| file_view(f)) == old(files)@.map_values(
            |f: ProjectFile| file_view(f),
        ).push((path@, contents@)),
{
    let ghost before = files@;
    files.push(ProjectFile { path: path.to_owned(), contents });
    assert(files@.map_values(|f: ProjectFile| file_view(f)) == before.map_values(
        |f: ProjectFile| file_view(f),
    ).push((path@, contents@)));
}

impl App {
    /// The files that generating the project writes, relative to its root,
    /// in the order they are written.
    pub fn write_project_files(&self, project_name: &str) -> (out: Vec<ProjectFile>)
        ensures
            out@.map_values(|f: ProjectFile| file_view(f)) == project_files(*self, project_name@),
    {
        let mut files: Vec<ProjectFile> = Vec::new();
        add_file(&mut files, "src/main.cpp", self.main_cpp_template(project_name));
        add_file(&mut files, "README.md", self.readme_template(project_name));
        add_file(&mut files, "third_party/README.md", self.third_party_readme());
        match self.build_system {
            BuildSystem::CMake => {
                add_file(&mut files, "CMakeLists.txt", self.cmake_template(project_name));
                if self.include_cmake_presets {
                    add_file(&mut files, "CMakePresets.json", self.cmake_presets_template());
                }
            },
            BuildSystem::Meson => {
                add_file(&mut files, "meson.build", self.meson_template(project_name));
            },
        }
        if self.include_gitignore {
            add_file(&mut files, ".gitignore", gitignore_template());
        }
        if self.include_clang_format {
            add_file(&mut files, ".clang-format", clang_format_template());
        }
        if self.include_vscode_files {
            add_file(&mut files, ".vscode/tasks.json", self.vscode_tasks_template());
            add_file(&mut files, ".vscode/launch.json", self.vscode_launch_template(project_name));
        }
        files
    }
}

/// Everything that generating a project does, decided before anything is
/// done: where the project goes, the directories and files it gets, the
/// glad branch to check out into `third_party/glad` (if any), whether a git
/// repository is started there, and the message shown when all went well.
#[derive(Clone, Debug)]
pub struct GenerationPlan {
    pub project_name: String,
    pub root: String,
    pub directories: Vec<String>,
    pub files: Vec<ProjectFile>,
    pub glad_branch: Option<&'static str>,
    pub init_git: bool,
    pub message: String,
}

impl App {
    /// Plans the generation of the project: refused, with the error the user
    /// sees, when nothing is left of the project name after sanitizing it.
    pub fn generation_plan(&self) -> (out: Result<GenerationPlan, String>)
        ensures
            out is Err <==> sanitized(self.project_name@).len() == 0,
            out matches Err(err) ==> err@ == "Project name is empty after sanitization"@,
            out matches Ok(plan) ==> {
                let name = sanitized(self.project_name@);
                &&& plan.project_name@ == name
                &&& join_outcome(output_base(self.output_directory@), name, plan.root@)
                &&& views(plan.directories@) == layout(*self)
                &&& plan.files@.map_values(|f: ProjectFile| file_view(f)) == project_files(*self, name)
                &&& (glad_branch(self.gl_loader) matches Some(b) ==> (plan.glad_branch matches Some(s) && s@ == b))
                &&& (glad_branch(self.gl_loader) is None ==> plan.glad_branch is None)
                &&& plan.init_git == self.create_git_repo
                &&& plan.message@ == generated_message(*self, name, plan.root@)
            },
    {
        let project_name = match self.checked_project_name() {
            Ok(name) => name,
            Err(err) => return Err(err),
        };
        let root = self.project_root(project_name.as_str());
        let directories = self.layout_directories();
        let files = self.write_project_files(project_name.as_str());
        let glad_branch = self.setup_loader_dependencies();
        let message = self.generation_message(project_name.as_str(), root.as_str());
        Ok(
            GenerationPlan {
                project_name,
                root,
                directories,
                files,
                glad_branch,
                init_git: self.create_git_repo,
                message,
            },
        )
    }
}

} // verus!
