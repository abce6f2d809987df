//! Properties of generated projects that hold for every choice: what every
//! `CMakeLists.txt` holds, that the glad header, the glad checkout and the
//! CMake fetch hint agree, that the README names what the CMake checks
//! require, and how the optional libraries, the presets file and the OpenGL
//! version range behave.

use vstd::prelude::*;
use crate::app::{
    constrained_minor, glad_branch, is_separator, max_minor, output_base, path_join,
    starts_with_drive, App,
};
use crate::cmake::{
    api_version, backend_block_text, cmake_lists_template, cmake_lists_text, filled, glad_profile,
    lines_joined, loader_block_text, optional_block_text, optional_uses, ADD_EXECUTABLE_LINE,
    BACKEND_BLOCK_SLOT, BACKEND_HEADING, BACKEND_REQUIRED, CMAKE_APP_SOURCES, CMAKE_ASSETS,
    CMAKE_MINIMUM_LINE, CMAKE_PRESETS, CMAKE_SETTINGS, CMAKE_STANDARD_LINE,
    CMAKE_STANDARD_REQUIRED, CMAKE_TARGET_SETUP, CMAKE_WARNINGS, CXX_STANDARD_SLOT,
    GLAD2_BLOCK_API, GLAD2_BLOCK_CLOSE, GLAD2_BLOCK_OPEN, GLAD2_JINJA_FAILURE, GLAD2_JINJA_NOTE,
    GLAD_API_OPEN, GLAD_BLOCK_CLOSE, GLAD_BLOCK_OPEN, GLAD_BLOCK_PROFILE, GLAD_FETCH_TAIL,
    GLAD_SOURCES_NOTE, GLFW_FIND, GLFW_INSTALL_HINTS, GLFW_PKG_CONFIG, GLFW_SET_BACKEND,
    JINJA2_CHECK, LINK_LIBRARIES_LINES, LOADER_BLOCK_SLOT, LOADER_HEADING, OPTIONAL_BLOCK_SLOT,
    OPTIONAL_HEADER, OPTIONAL_HELPER, PROJECT_NAME_SLOT, PYTHON_REQUIRED, SDL3_FIND,
    SDL3_INSTALL_HINTS, SDL3_PKG_CONFIG, SDL3_SET_BACKEND, STB_IMAGE_BLOCK,
};
use crate::cpp::{loader_include, main_cpp_text};
use crate::docs::{loader_requirement_text, readme_text};
use crate::naming::{
    cpp_standard, is_accepted_standard, is_project_name_char, sanitized, sanitized_name_shape,
};
use crate::options::{BuildSystem, GlLoader, WindowBackend};
use crate::file_laws::{lemma_readme_lists_requirement, main_cpp_follows_choices};
use crate::editor::{launch_text, tasks_text};
use crate::project::project_files;
use crate::text::{
    contains, decimal, lemma_contains_at, lemma_contains_part,
    lemma_contains_within, lemma_replaced_absent, lemma_replaced_untouched,
    lemma_replaced_barrier, lemma_replaced_whole, replaced,
};

verus! {

/// Text without `@`, long enough that no placeholder can reach across it.
pub open spec fn is_barrier(s: Seq<char>) -> bool {
    &&& s.len() >= 16
    &&& forall|i: int| 0 <= i < s.len() ==> s[i] != '@'
}

/// The shape of every placeholder: at most 16 characters, between two `@`.
pub open spec fn is_slot(p: Seq<char>) -> bool {
    &&& 2 <= p.len() <= 16
    &&& p[0] == '@'
    &&& p.last() == '@'
}

pub(crate) proof fn lemma_slots()
    ensures
        is_slot(PROJECT_NAME_SLOT@),
        is_slot(CXX_STANDARD_SLOT@),
        is_slot(BACKEND_BLOCK_SLOT@),
        is_slot(LOADER_BLOCK_SLOT@),
        is_slot(OPTIONAL_BLOCK_SLOT@),
{
    reveal_strlit("@PROJECT_NAME@");
    reveal_strlit("@CXX_STANDARD@");
    reveal_strlit("@BACKEND_BLOCK@");
    reveal_strlit("@LOADER_BLOCK@");
    reveal_strlit("@OPTIONAL_BLOCK@");
}

/// Filling in the placeholders leaves a barrier as it is, and fills in what
/// stands on either side of it on its own.
pub(crate) proof fn lemma_filled_keeps_barrier(x: Seq<char>, s: Seq<char>, y: Seq<char>, app: App, name: Seq<char>)
    requires
        is_barrier(s),
    ensures
        filled(x + s + y, app, name) == filled(x, app, name) + s + filled(y, app, name),
{
    lemma_slots();
    let p1 = PROJECT_NAME_SLOT@;
    let r1 = name;
    let p2 = CXX_STANDARD_SLOT@;
    let r2 = decimal(cpp_standard(app.cpp_standard@));
    let p3 = BACKEND_BLOCK_SLOT@;
    let r3 = backend_block_text(app.window_backend);
    let p4 = LOADER_BLOCK_SLOT@;
    let r4 = loader_block_text(app);
    let p5 = OPTIONAL_BLOCK_SLOT@;
    let r5 = optional_block_text(app);
    lemma_replaced_barrier(x, s, y, p1, r1);
    let (x1, y1) = (replaced(x, p1, r1), replaced(y, p1, r1));
    lemma_replaced_barrier(x1, s, y1, p2, r2);
    let (x2, y2) = (replaced(x1, p2, r2), replaced(y1, p2, r2));
    lemma_replaced_barrier(x2, s, y2, p3, r3);
    let (x3, y3) = (replaced(x2, p3, r3), replaced(y2, p3, r3));
    lemma_replaced_barrier(x3, s, y3, p4, r4);
    let (x4, y4) = (replaced(x3, p4, r4), replaced(y3, p4, r4));
    lemma_replaced_barrier(x4, s, y4, p5, r5);
}

pub(crate) proof fn lemma_template_barriers()
    ensures
        is_barrier(CMAKE_MINIMUM_LINE@),
        is_barrier(CMAKE_STANDARD_LINE@),
        is_barrier(CMAKE_STANDARD_REQUIRED@),
        is_barrier(BACKEND_HEADING@),
        is_barrier(LOADER_HEADING@),
        is_barrier(ADD_EXECUTABLE_LINE@),
        is_barrier(LINK_LIBRARIES_LINES@),
        is_barrier(GLFW_SET_BACKEND@),
        is_barrier(SDL3_SET_BACKEND@),
        is_barrier(BACKEND_REQUIRED@),
{
    reveal_strlit("cmake_minimum_required(VERSION 3.21)\nproject(");
    reveal_strlit(" LANGUAGES C CXX)\n\nset(CMAKE_CXX_STANDARD ");
    reveal_strlit(")\nset(CMAKE_CXX_STANDARD_REQUIRED ON)\n");
    reveal_strlit("# ---------------------------------------------------------------- Window backend\n");
    reveal_strlit("\n# ---------------------------------------------------------------- OpenGL loader\n");
    reveal_strlit("add_executable(${PROJECT_NAME} ${APP_SOURCES})");
    reveal_strlit("        ${BACKEND_LIB}\n        ${LOADER_LIB}\n)\n");
    reveal_strlit("    set(BACKEND_LIB glfw)\n");
    reveal_strlit("    set(BACKEND_LIB SDL3::SDL3)\n");
    reveal_strlit("if(NOT BACKEND_LIB)\n    message(FATAL_ERROR\n");
}

/// The pieces of the template before `add_executable`.
spec fn pieces_before_executable() -> Seq<char> {
    CMAKE_MINIMUM_LINE@ + PROJECT_NAME_SLOT@ + CMAKE_STANDARD_LINE@ + CXX_STANDARD_SLOT@
        + CMAKE_STANDARD_REQUIRED@ + CMAKE_SETTINGS@ + BACKEND_HEADING@ + BACKEND_BLOCK_SLOT@ + LOADER_HEADING@
        + LOADER_BLOCK_SLOT@ + CMAKE_APP_SOURCES@
}

/// The pieces of the template after the linked libraries.
spec fn pieces_after_links() -> Seq<char> {
    CMAKE_WARNINGS@ + OPTIONAL_BLOCK_SLOT@ + CMAKE_ASSETS@
}

/// The pieces of the template after the loader placeholder.
spec fn pieces_after_loader() -> Seq<char> {
    LOADER_BLOCK_SLOT@ + CMAKE_APP_SOURCES@ + ADD_EXECUTABLE_LINE@ + CMAKE_TARGET_SETUP@
        + LINK_LIBRARIES_LINES@ + pieces_after_links()
}

/// The pieces of the template before the backend heading.
spec fn pieces_before_backend() -> Seq<char> {
    CMAKE_MINIMUM_LINE@ + PROJECT_NAME_SLOT@ + CMAKE_STANDARD_LINE@ + CXX_STANDARD_SLOT@
        + CMAKE_STANDARD_REQUIRED@ + CMAKE_SETTINGS@
}

/// `CMAKE_MINIMUM_LINE` stands first, whatever follows it.
proof fn lemma_min_line_kept(app: App, name: Seq<char>)
    ensures
        contains(cmake_lists_text(app, name), "cmake_minimum_required(VERSION 3.21)"@),
{
    lemma_template_barriers();
    let t = cmake_lists_template();
    let min = CMAKE_MINIMUM_LINE@;
    let rest = PROJECT_NAME_SLOT@ + CMAKE_STANDARD_LINE@ + CXX_STANDARD_SLOT@
        + CMAKE_STANDARD_REQUIRED@ + CMAKE_SETTINGS@
        + BACKEND_HEADING@ + BACKEND_BLOCK_SLOT@ + LOADER_HEADING@ + pieces_after_loader();
    let empty = Seq::<char>::empty();
    assert(t == empty + min + rest);
    lemma_filled_keeps_barrier(empty, min, rest, app, name);
    let target = "cmake_minimum_required(VERSION 3.21)"@;
    reveal_strlit("cmake_minimum_required(VERSION 3.21)");
    reveal_strlit("cmake_minimum_required(VERSION 3.21)\nproject(");
    assert(min.subrange(0, target.len() as int) == target);
    lemma_contains_at(min, target, 0);
    lemma_contains_within(filled(empty, app, name), min, filled(rest, app, name), target);
}

/// The `add_executable` line and the linked libraries stand in every
/// `CMakeLists.txt`.
proof fn lemma_target_lines_kept(app: App, name: Seq<char>)
    ensures
        contains(cmake_lists_text(app, name), "add_executable(${PROJECT_NAME} ${APP_SOURCES})"@),
        contains(cmake_lists_text(app, name), "${BACKEND_LIB}"@),
        contains(cmake_lists_text(app, name), "${LOADER_LIB}"@),
{
    lemma_template_barriers();
    let t = cmake_lists_template();
    let add = ADD_EXECUTABLE_LINE@;
    let links = LINK_LIBRARIES_LINES@;
    let before = pieces_before_executable();
    let after = pieces_after_links();
    assert(t == before + add + (CMAKE_TARGET_SETUP@ + links + after));
    lemma_filled_keeps_barrier(before, add, CMAKE_TARGET_SETUP@ + links + after, app, name);
    reveal_strlit("add_executable(${PROJECT_NAME} ${APP_SOURCES})");
    assert(add.subrange(0, add.len() as int) == add);
    lemma_contains_at(add, add, 0);
    lemma_contains_within(
        filled(before, app, name),
        add,
        filled(CMAKE_TARGET_SETUP@ + links + after, app, name),
        "add_executable(${PROJECT_NAME} ${APP_SOURCES})"@,
    );
    let before_links = before + add + CMAKE_TARGET_SETUP@;
    assert(t == before_links + links + after);
    lemma_filled_keeps_barrier(before_links, links, after, app, name);
    reveal_strlit("        ${BACKEND_LIB}\n        ${LOADER_LIB}\n)\n");
    reveal_strlit("${BACKEND_LIB}");
    reveal_strlit("${LOADER_LIB}");
    assert(links.subrange(8, 8 + "${BACKEND_LIB}"@.len() as int) == "${BACKEND_LIB}"@);
    assert(contains(links, "${BACKEND_LIB}"@));
    assert(links.subrange(31, 31 + "${LOADER_LIB}"@.len() as int) == "${LOADER_LIB}"@);
    assert(contains(links, "${LOADER_LIB}"@));
    lemma_contains_within(
        filled(before_links, app, name),
        links,
        filled(after, app, name),
        "${BACKEND_LIB}"@,
    );
    lemma_contains_within(
        filled(before_links, app, name),
        links,
        filled(after, app, name),
        "${LOADER_LIB}"@,
    );
}

/// `CMakeLists.txt` names the project after the user's project name, as it
/// stands, in its project line, for every name without `@` (the character
/// that marks the template's placeholders).
#[verifier::rlimit(40)]
pub proof fn cmake_lists_name_the_project(app: App, project_name: Seq<char>)
    requires
        forall|i: int| 0 <= i < project_name.len() ==> project_name[i] != '@',
    ensures
        contains(
            cmake_lists_text(app, project_name),
            "project("@ + project_name + " LANGUAGES C CXX)"@,
        ),
{
    lemma_template_barriers();
    lemma_slots();
    let empty = Seq::<char>::empty();
    let m = CMAKE_MINIMUM_LINE@;
    let slot = PROJECT_NAME_SLOT@;
    let l = CMAKE_STANDARD_LINE@;
    let rest = CXX_STANDARD_SLOT@ + CMAKE_STANDARD_REQUIRED@ + CMAKE_SETTINGS@ + BACKEND_HEADING@
        + BACKEND_BLOCK_SLOT@ + LOADER_HEADING@ + LOADER_BLOCK_SLOT@ + CMAKE_APP_SOURCES@
        + ADD_EXECUTABLE_LINE@ + CMAKE_TARGET_SETUP@ + LINK_LIBRARIES_LINES@ + CMAKE_WARNINGS@
        + OPTIONAL_BLOCK_SLOT@ + CMAKE_ASSETS@;
    let t = cmake_lists_template();
    assert(t == empty + m + (slot + l + rest));
    lemma_filled_keeps_barrier(empty, m, slot + l + rest, app, project_name);
    lemma_filled_keeps_barrier(slot, l, rest, app, project_name);
    // the name goes in for its placeholder and is left alone by the later passes
    lemma_replaced_whole(slot, project_name);
    lemma_replaced_untouched(project_name, CXX_STANDARD_SLOT@, decimal(cpp_standard(app.cpp_standard@)));
    lemma_replaced_untouched(project_name, BACKEND_BLOCK_SLOT@, backend_block_text(app.window_backend));
    lemma_replaced_untouched(project_name, LOADER_BLOCK_SLOT@, loader_block_text(app));
    lemma_replaced_untouched(project_name, OPTIONAL_BLOCK_SLOT@, optional_block_text(app));
    assert(filled(slot, app, project_name) == project_name);
    assert(filled(empty, app, project_name) == empty);
    let text = cmake_lists_text(app, project_name);
    let after = filled(rest, app, project_name);
    assert(text == empty + m + (project_name + l + after));
    reveal_strlit("cmake_minimum_required(VERSION 3.21)\nproject(");
    reveal_strlit(" LANGUAGES C CXX)\n\nset(CMAKE_CXX_STANDARD ");
    reveal_strlit("cmake_minimum_required(VERSION 3.21)\n");
    reveal_strlit("project(");
    reveal_strlit(" LANGUAGES C CXX)");
    reveal_strlit("\n\nset(CMAKE_CXX_STANDARD ");
    let lead = "cmake_minimum_required(VERSION 3.21)\n"@;
    let open = "project("@;
    let close = " LANGUAGES C CXX)"@;
    let next = "\n\nset(CMAKE_CXX_STANDARD "@;
    assert(m == lead + open);
    assert(l == close + next);
    assert(text == lead + (open + project_name + close) + (next + after));
    lemma_contains_part(lead, open + project_name + close, next + after);
}

/// The line that records the backend's target, inside the backend block.
pub open spec fn set_backend_line(backend: WindowBackend) -> Seq<char> {
    match backend {
        WindowBackend::Glfw => GLFW_SET_BACKEND@,
        WindowBackend::Sdl3 => SDL3_SET_BACKEND@,
    }
}

/// The template once the project name, the standard and the backend block
/// are filled in.
spec fn after_backend_pass(app: App, name: Seq<char>) -> Seq<char> {
    let t1 = replaced(cmake_lists_template(), PROJECT_NAME_SLOT@, name);
    let t2 = replaced(t1, CXX_STANDARD_SLOT@, decimal(cpp_standard(app.cpp_standard@)));
    replaced(t2, BACKEND_BLOCK_SLOT@, backend_block_text(app.window_backend))
}

/// The backend block is put in where its placeholder stands, between the
/// two headings around it.
proof fn lemma_backend_block_put_in(app: App, name: Seq<char>) -> (xy: (Seq<char>, Seq<char>))
    ensures
        after_backend_pass(app, name) == xy.0 + BACKEND_HEADING@ + (backend_block_text(
            app.window_backend,
        ) + LOADER_HEADING@ + xy.1),
{
    lemma_template_barriers();
    lemma_slots();
    let t = cmake_lists_template();
    let heading = BACKEND_HEADING@;
    let slot = BACKEND_BLOCK_SLOT@;
    let loader_heading = LOADER_HEADING@;
    let x = pieces_before_backend();
    let y = pieces_after_loader();
    assert(t == x + heading + (slot + loader_heading + y));
    let p1 = PROJECT_NAME_SLOT@;
    let r1 = name;
    let p2 = CXX_STANDARD_SLOT@;
    let r2 = decimal(cpp_standard(app.cpp_standard@));
    let p3 = BACKEND_BLOCK_SLOT@;
    let r3 = backend_block_text(app.window_backend);
    reveal_strlit("@PROJECT_NAME@");
    reveal_strlit("@CXX_STANDARD@");
    reveal_strlit("@BACKEND_BLOCK@");
    // the first two placeholders do not occur in the backend placeholder
    lemma_replaced_absent(slot, p1, r1);
    lemma_replaced_absent(slot, p2, r2);
    // pass 1
    lemma_replaced_barrier(x, heading, slot + loader_heading + y, p1, r1);
    lemma_replaced_barrier(slot, loader_heading, y, p1, r1);
    let x1 = replaced(x, p1, r1);
    let y1 = replaced(y, p1, r1);
    let t1 = replaced(t, p1, r1);
    assert(t1 == x1 + heading + (slot + loader_heading + y1));
    // pass 2
    lemma_replaced_barrier(x1, heading, slot + loader_heading + y1, p2, r2);
    lemma_replaced_barrier(slot, loader_heading, y1, p2, r2);
    let x2 = replaced(x1, p2, r2);
    let y2 = replaced(y1, p2, r2);
    let t2 = replaced(t1, p2, r2);
    assert(t2 == x2 + heading + (slot + loader_heading + y2));
    // pass 3 puts the block in
    lemma_replaced_barrier(x2, heading, slot + loader_heading + y2, p3, r3);
    lemma_replaced_barrier(slot, loader_heading, y2, p3, r3);
    lemma_replaced_whole(slot, r3);
    (replaced(x2, p3, r3), replaced(y2, p3, r3))
}

/// The loader and optional placeholders are filled in around a barrier.
proof fn lemma_last_passes_keep_barrier(a: Seq<char>, s: Seq<char>, b: Seq<char>, app: App) -> (ab: (
    Seq<char>,
    Seq<char>,
))
    requires
        is_barrier(s),
    ensures
        replaced(
            replaced(a + s + b, LOADER_BLOCK_SLOT@, loader_block_text(app)),
            OPTIONAL_BLOCK_SLOT@,
            optional_block_text(app),
        ) == ab.0 + s + ab.1,
{
    lemma_slots();
    let p4 = LOADER_BLOCK_SLOT@;
    let r4 = loader_block_text(app);
    let p5 = OPTIONAL_BLOCK_SLOT@;
    let r5 = optional_block_text(app);
    lemma_replaced_barrier(a, s, b, p4, r4);
    let a4 = replaced(a, p4, r4);
    let b4 = replaced(b, p4, r4);
    lemma_replaced_barrier(a4, s, b4, p5, r5);
    (replaced(a4, p5, r5), replaced(b4, p5, r5))
}

/// The line of the backend block that sets `BACKEND_LIB` stays to the end.
proof fn lemma_backend_set_kept(app: App, name: Seq<char>)
    ensures
        contains(cmake_lists_text(app, name), "set(BACKEND_LIB"@),
{
    lemma_template_barriers();
    let (x3, y3) = lemma_backend_block_put_in(app, name);
    let set_line = set_backend_line(app.window_backend);
    let (find, rest) = match app.window_backend {
        WindowBackend::Glfw => (GLFW_FIND@, GLFW_PKG_CONFIG@ + BACKEND_REQUIRED@ + GLFW_INSTALL_HINTS@),
        WindowBackend::Sdl3 => (SDL3_FIND@, SDL3_PKG_CONFIG@ + BACKEND_REQUIRED@ + SDL3_INSTALL_HINTS@),
    };
    assert(backend_block_text(app.window_backend) == find + set_line + rest);
    let a = x3 + BACKEND_HEADING@ + find;
    let b = rest + LOADER_HEADING@ + y3;
    assert(after_backend_pass(app, name) == a + set_line + b);
    let (a5, b5) = lemma_last_passes_keep_barrier(a, set_line, b, app);
    let target = "set(BACKEND_LIB"@;
    reveal_strlit("set(BACKEND_LIB");
    reveal_strlit("    set(BACKEND_LIB glfw)\n");
    reveal_strlit("    set(BACKEND_LIB SDL3::SDL3)\n");
    assert(set_line.subrange(4, 4 + target.len() as int) == target);
    lemma_contains_at(set_line, target, 4);
    lemma_contains_within(a5, set_line, b5, target);
}

/// The check that stops the configuration when `BACKEND_LIB` stays unset
/// stays to the end.
proof fn lemma_backend_check_kept(app: App, name: Seq<char>)
    ensures
        contains(cmake_lists_text(app, name), "if(NOT BACKEND_LIB)"@),
{
    lemma_template_barriers();
    let (x3, y3) = lemma_backend_block_put_in(app, name);
    let required = BACKEND_REQUIRED@;
    let (head, hints) = match app.window_backend {
        WindowBackend::Glfw => (GLFW_FIND@ + GLFW_SET_BACKEND@ + GLFW_PKG_CONFIG@, GLFW_INSTALL_HINTS@),
        WindowBackend::Sdl3 => (SDL3_FIND@ + SDL3_SET_BACKEND@ + SDL3_PKG_CONFIG@, SDL3_INSTALL_HINTS@),
    };
    assert(backend_block_text(app.window_backend) == head + required + hints);
    let c = x3 + BACKEND_HEADING@ + head;
    let d = hints + LOADER_HEADING@ + y3;
    assert(after_backend_pass(app, name) == c + required + d);
    let (c5, d5) = lemma_last_passes_keep_barrier(c, required, d, app);
    let check = "if(NOT BACKEND_LIB)"@;
    reveal_strlit("if(NOT BACKEND_LIB)");
    reveal_strlit("if(NOT BACKEND_LIB)\n    message(FATAL_ERROR\n");
    assert(required.subrange(0, check.len() as int) == check);
    lemma_contains_at(required, check, 0);
    lemma_contains_within(c5, required, d5, check);
}

/// Every `CMakeLists.txt`, whatever the choices and the project name, asks
/// for CMake 3.21, declares the executable, links the targets that the
/// backend and loader blocks found, and has the backend block set
/// `BACKEND_LIB` and fail loudly when it stays unset.
pub proof fn cmake_lists_declare_and_link_targets(app: App, project_name: Seq<char>)
    ensures
        contains(cmake_lists_text(app, project_name), "cmake_minimum_required(VERSION 3.21)"@),
        contains(
            cmake_lists_text(app, project_name),
            "add_executable(${PROJECT_NAME} ${APP_SOURCES})"@,
        ),
        contains(cmake_lists_text(app, project_name), "${BACKEND_LIB}"@),
        contains(cmake_lists_text(app, project_name), "${LOADER_LIB}"@),
        contains(cmake_lists_text(app, project_name), "set(BACKEND_LIB"@),
        contains(cmake_lists_text(app, project_name), "if(NOT BACKEND_LIB)"@),
{
    lemma_min_line_kept(app, project_name);
    lemma_target_lines_kept(app, project_name);
    lemma_backend_set_kept(app, project_name);
    lemma_backend_check_kept(app, project_name);
}

/// The glad checkout and the sources agree: `main.cpp` includes the header
/// of the loader (`glad/glad.h` for glad 0.1, `glad/gl.h` for glad2,
/// `GL/glew.h` for GLEW), a glad loader is checked out on its own branch
/// (`master` for glad 0.1, `glad2` for glad2), and the CMake hint for
/// fetching glad by hand names that same branch.
pub proof fn glad_header_matches_checkout(app: App, project_name: Seq<char>)
    ensures
        contains(main_cpp_text(app, project_name), loader_include(app.gl_loader)),
        app.gl_loader == GlLoader::Glad ==> loader_include(app.gl_loader) == "#include <glad/glad.h>"@
            && glad_branch(app.gl_loader) == Some("master"@),
        app.gl_loader == GlLoader::Glad2 ==> loader_include(app.gl_loader) == "#include <glad/gl.h>"@
            && glad_branch(app.gl_loader) == Some("glad2"@),
        app.gl_loader == GlLoader::Glew ==> loader_include(app.gl_loader) == "#include <GL/glew.h>"@
            && glad_branch(app.gl_loader) is None,
        glad_branch(app.gl_loader) matches Some(branch) ==> contains(
            loader_block_text(app),
            "--branch "@ + branch,
        ),
{
    main_cpp_follows_choices(app, project_name);
    if let Some(branch) = glad_branch(app.gl_loader) {
        let block = loader_block_text(app);
        let hint = "--branch "@ + branch;
        let open = if app.gl_loader == GlLoader::Glad {
            GLAD_BLOCK_OPEN@
        } else {
            GLAD2_BLOCK_OPEN@
        };
        let j = open.len() as int;
        assert(block.subrange(j, j + hint.len()) == hint);
        lemma_contains_at(block, hint, j);
    }
}

/// The optional libraries section is empty exactly when no optional library
/// is chosen.
pub proof fn optional_block_empty_iff_nothing_chosen(app: App)
    ensures
        (optional_block_text(app).len() == 0) <==> !(app.include_glm || app.include_imgui
            || app.include_assimp || app.include_fmt || app.include_spdlog
            || app.include_stb_image),
{
    reveal_strlit("\n# ---------------------------------------------------------------- Optional libraries");
    let uses = optional_uses(app);
    if app.include_glm || app.include_imgui || app.include_assimp || app.include_fmt
        || app.include_spdlog {
        assert(uses.len() > 0);
    } else {
        assert(uses.len() == 0);
    }
}

/// Each optional library chosen gets its `app_use_optional` call.
pub proof fn chosen_libraries_are_used(app: App)
    ensures
        forall|i: int|
            0 <= i < optional_uses(app).len() ==> contains(
                optional_block_text(app),
                #[trigger] optional_uses(app)[i],
            ),
{
    let uses = optional_uses(app);
    assert forall|i: int| 0 <= i < uses.len() implies contains(
        optional_block_text(app),
        #[trigger] uses[i],
    ) by {
        lemma_line_in_joined(uses, i);
        let joined = lines_joined(uses);
        let head = OPTIONAL_HEADER@ + OPTIONAL_HELPER@;
        let tail = "\n"@ + (if app.include_stb_image {
            STB_IMAGE_BLOCK@
        } else {
            Seq::empty()
        });
        assert(optional_block_text(app) == head + joined + tail);
        lemma_contains_within(head, joined, tail, uses[i]);
    }
}

/// Each line is contained in the lines joined.
proof fn lemma_line_in_joined(lines: Seq<Seq<char>>, i: int)
    requires
        0 <= i < lines.len(),
    ensures
        contains(lines_joined(lines), lines[i]),
    decreases lines.len(),
{
    let empty = Seq::<char>::empty();
    if lines.len() == 1 {
        assert(lines_joined(lines) == empty + lines[0] + empty);
        assert(lines[0].subrange(0, lines[0].len() as int) == lines[0]);
        lemma_contains_at(lines[0], lines[0], 0);
        lemma_contains_within(empty, lines[0], empty, lines[0]);
    } else if i == lines.len() - 1 {
        let front = lines_joined(lines.drop_last()) + "\n"@;
        assert(lines_joined(lines) == front + lines[i] + empty);
        assert(lines[i].subrange(0, lines[i].len() as int) == lines[i]);
        lemma_contains_at(lines[i], lines[i], 0);
        lemma_contains_within(front, lines[i], empty, lines[i]);
    } else {
        lemma_line_in_joined(lines.drop_last(), i);
        let back = "\n"@ + lines.last();
        assert(lines_joined(lines) == empty + lines_joined(lines.drop_last()) + back);
        lemma_contains_within(empty, lines_joined(lines.drop_last()), back, lines[i]);
    }
}

/// Keeping the OpenGL version in range twice is keeping it in range once,
/// and the minor version it leaves is offered for the major version.
pub proof fn constraining_version_is_idempotent(major: u8, minor: u8)
    ensures
        constrained_minor(major, constrained_minor(major, minor)) == constrained_minor(major, minor),
        constrained_minor(major, minor) <= max_minor(major),
        constrained_minor(major, minor) <= minor,
{
}

/// `CMakePresets.json` is written exactly for a CMake project with presets
/// switched on, and then with the presets text.
pub proof fn presets_written_iff_chosen(app: App, project_name: Seq<char>)
    ensures
        (exists|i: int|
            0 <= i < project_files(app, project_name).len() && (#[trigger] project_files(
                app,
                project_name,
            )[i]).0 == "CMakePresets.json"@) <==> (app.build_system == BuildSystem::CMake
            && app.include_cmake_presets),
        forall|i: int|
            0 <= i < project_files(app, project_name).len() && (#[trigger] project_files(
                app,
                project_name,
            )[i]).0 == "CMakePresets.json"@ ==> project_files(app, project_name)[i].1
                == CMAKE_PRESETS@,
{
    let files = project_files(app, project_name);
    reveal_strlit("CMakePresets.json");
    reveal_strlit("src/main.cpp");
    reveal_strlit("README.md");
    reveal_strlit("third_party/README.md");
    reveal_strlit("CMakeLists.txt");
    reveal_strlit("meson.build");
    reveal_strlit(".gitignore");
    reveal_strlit(".clang-format");
    reveal_strlit(".vscode/tasks.json");
    reveal_strlit(".vscode/launch.json");
    if app.build_system == BuildSystem::CMake && app.include_cmake_presets {
        assert(files[4].0 == "CMakePresets.json"@);
    }
    assert forall|i: int|
        0 <= i < files.len() && (#[trigger] files[i]).0 == "CMakePresets.json"@ implies i == 4
        && app.build_system == BuildSystem::CMake && app.include_cmake_presets && files[i].1
        == CMAKE_PRESETS@ by {
        if i != 4 || !(app.build_system == BuildSystem::CMake && app.include_cmake_presets) {
            assert(files[i].0.len() != 17 || files[i].0[0] != 'C' || files[i].0[6] != 'P');
        }
    }
}

/// `.vscode/tasks.json` is written exactly when the VS Code files are
/// switched on, with the tasks of the build system.
#[verifier::rlimit(80)]
proof fn lemma_vscode_tasks_written(app: App, project_name: Seq<char>)
    ensures
        (exists|i: int|
            0 <= i < project_files(app, project_name).len() && (#[trigger] project_files(
                app,
                project_name,
            )[i]).0 == ".vscode/tasks.json"@) <==> app.include_vscode_files,
        forall|i: int|
            0 <= i < project_files(app, project_name).len() && (#[trigger] project_files(
                app,
                project_name,
            )[i]).0 == ".vscode/tasks.json"@ ==> project_files(app, project_name)[i].1 == tasks_text(app.build_system),
{
    let files = project_files(app, project_name);
    let n = files.len() as int;
    reveal_strlit("CMakePresets.json");
    reveal_strlit("src/main.cpp");
    reveal_strlit("README.md");
    reveal_strlit("third_party/README.md");
    reveal_strlit("CMakeLists.txt");
    reveal_strlit("meson.build");
    reveal_strlit(".gitignore");
    reveal_strlit(".clang-format");
    reveal_strlit(".vscode/tasks.json");
    reveal_strlit(".vscode/launch.json");
    if app.include_vscode_files {
        assert(files[n - 2].0 == ".vscode/tasks.json"@);
    }
    assert forall|i: int|
        0 <= i < n && (#[trigger] files[i]).0 == ".vscode/tasks.json"@ implies app.include_vscode_files && i == n
        - 2 && files[i].1 == tasks_text(app.build_system) by {
        if !(app.include_vscode_files && i == n - 2) {
            assert(files[i].0.len() != 18);
        }
    }
}

/// `.vscode/launch.json` is written exactly when the VS Code files are
/// switched on, with the launch configuration of the project.
#[verifier::rlimit(80)]
proof fn lemma_vscode_launch_written(app: App, project_name: Seq<char>)
    ensures
        (exists|i: int|
            0 <= i < project_files(app, project_name).len() && (#[trigger] project_files(
                app,
                project_name,
            )[i]).0 == ".vscode/launch.json"@) <==> app.include_vscode_files,
        forall|i: int|
            0 <= i < project_files(app, project_name).len() && (#[trigger] project_files(
                app,
                project_name,
            )[i]).0 == ".vscode/launch.json"@ ==> project_files(app, project_name)[i].1 == launch_text(app, project_name),
{
    let files = project_files(app, project_name);
    let n = files.len() as int;
    reveal_strlit("CMakePresets.json");
    reveal_strlit("src/main.cpp");
    reveal_strlit("README.md");
    reveal_strlit("third_party/README.md");
    reveal_strlit("CMakeLists.txt");
    reveal_strlit("meson.build");
    reveal_strlit(".gitignore");
    reveal_strlit(".clang-format");
    reveal_strlit(".vscode/tasks.json");
    reveal_strlit(".vscode/launch.json");
    if app.include_vscode_files {
        assert(files[n - 1].0 == ".vscode/launch.json"@);
    }
    assert forall|i: int|
        0 <= i < n && (#[trigger] files[i]).0 == ".vscode/launch.json"@ implies app.include_vscode_files && i == n
        - 1 && files[i].1 == launch_text(app, project_name) by {
        if !(app.include_vscode_files && i == n - 1) {
            assert(files[i].0.len() != 19);
        }
    }
}

/// `.vscode/tasks.json` and `.vscode/launch.json` are written exactly when
/// the VS Code files are switched on, whatever the build system: the tasks
/// with the tasks of the project's build system, the launch configuration
/// with the text for the project.
pub proof fn vscode_files_written_iff_chosen(app: App, project_name: Seq<char>)
    ensures
        (exists|i: int|
            0 <= i < project_files(app, project_name).len() && (#[trigger] project_files(
                app,
                project_name,
            )[i]).0 == ".vscode/tasks.json"@) <==> app.include_vscode_files,
        (exists|i: int|
            0 <= i < project_files(app, project_name).len() && (#[trigger] project_files(
                app,
                project_name,
            )[i]).0 == ".vscode/launch.json"@) <==> app.include_vscode_files,
        forall|i: int|
            0 <= i < project_files(app, project_name).len() && (#[trigger] project_files(
                app,
                project_name,
            )[i]).0 == ".vscode/tasks.json"@ ==> project_files(app, project_name)[i].1
                == tasks_text(app.build_system),
        forall|i: int|
            0 <= i < project_files(app, project_name).len() && (#[trigger] project_files(
                app,
                project_name,
            )[i]).0 == ".vscode/launch.json"@ ==> project_files(app, project_name)[i].1
                == launch_text(app, project_name),
{
    lemma_vscode_tasks_written(app, project_name);
    lemma_vscode_launch_written(app, project_name);
}

/// The decimal numeral of a number has no `@`.
pub(crate) proof fn lemma_decimal_digits(n: nat)
    ensures
        forall|i: int| 0 <= i < decimal(n).len() ==> decimal(n)[i] != '@',
        decimal(n).len() > 0,
    decreases n,
{
    if n >= 10 {
        lemma_decimal_digits(n / 10);
        assert forall|i: int| 0 <= i < decimal(n).len() implies decimal(n)[i] != '@' by {
            if i < decimal(n / 10).len() {
                assert(decimal(n)[i] == decimal(n / 10)[i]);
            }
        }
    }
}

/// Every `CMakeLists.txt` sets `CMAKE_CXX_STANDARD` to the standard read out
/// of the user's value, which CMake accepts.
#[verifier::rlimit(40)]
pub proof fn cmake_lists_set_accepted_standard(app: App, project_name: Seq<char>)
    ensures
        contains(
            cmake_lists_text(app, project_name),
            "set(CMAKE_CXX_STANDARD "@ + decimal(cpp_standard(app.cpp_standard@)) + ")"@,
        ),
        is_accepted_standard(cpp_standard(app.cpp_standard@)),
{
    lemma_template_barriers();
    lemma_slots();
    let name = project_name;
    let t = cmake_lists_template();
    let line = CMAKE_STANDARD_LINE@;
    let slot = CXX_STANDARD_SLOT@;
    let required = CMAKE_STANDARD_REQUIRED@;
    let x = CMAKE_MINIMUM_LINE@ + PROJECT_NAME_SLOT@;
    let y = CMAKE_SETTINGS@ + BACKEND_HEADING@ + BACKEND_BLOCK_SLOT@ + LOADER_HEADING@
        + pieces_after_loader();
    assert(t == x + line + (slot + required + y));
    let p1 = PROJECT_NAME_SLOT@;
    let r1 = name;
    let p2 = CXX_STANDARD_SLOT@;
    let r2 = decimal(cpp_standard(app.cpp_standard@));
    let p3 = BACKEND_BLOCK_SLOT@;
    let r3 = backend_block_text(app.window_backend);
    let p4 = LOADER_BLOCK_SLOT@;
    let r4 = loader_block_text(app);
    let p5 = OPTIONAL_BLOCK_SLOT@;
    let r5 = optional_block_text(app);
    reveal_strlit("@PROJECT_NAME@");
    reveal_strlit("@CXX_STANDARD@");
    lemma_replaced_absent(slot, p1, r1);
    // pass 1 leaves the standard placeholder between its two barriers
    lemma_replaced_barrier(x, line, slot + required + y, p1, r1);
    lemma_replaced_barrier(slot, required, y, p1, r1);
    let x1 = replaced(x, p1, r1);
    let y1 = replaced(y, p1, r1);
    let t1 = replaced(t, p1, r1);
    assert(t1 == x1 + line + (slot + required + y1));
    // pass 2 puts the standard in
    lemma_replaced_barrier(x1, line, slot + required + y1, p2, r2);
    lemma_replaced_barrier(slot, required, y1, p2, r2);
    lemma_replaced_whole(slot, r2);
    let x2 = replaced(x1, p2, r2);
    let y2 = replaced(y1, p2, r2);
    let t2 = replaced(t1, p2, r2);
    assert(t2 == x2 + (line + r2 + required) + y2);
    // the setting as a whole is a barrier for the remaining passes
    let setting = line + r2 + required;
    lemma_decimal_digits(cpp_standard(app.cpp_standard@));
    assert(is_barrier(setting));
    assert(t2 == x2 + setting + y2);
    lemma_replaced_barrier(x2, setting, y2, p3, r3);
    let x3 = replaced(x2, p3, r3);
    let y3 = replaced(y2, p3, r3);
    lemma_replaced_barrier(x3, setting, y3, p4, r4);
    let x4 = replaced(x3, p4, r4);
    let y4 = replaced(y3, p4, r4);
    lemma_replaced_barrier(x4, setting, y4, p5, r5);
    let text = cmake_lists_text(app, name);
    assert(text == replaced(x4, p5, r5) + setting + replaced(y4, p5, r5));
    let wanted = "set(CMAKE_CXX_STANDARD "@ + r2 + ")"@;
    reveal_strlit(" LANGUAGES C CXX)\n\nset(CMAKE_CXX_STANDARD ");
    reveal_strlit("set(CMAKE_CXX_STANDARD ");
    reveal_strlit(")\nset(CMAKE_CXX_STANDARD_REQUIRED ON)\n");
    reveal_strlit(")");
    assert(setting.subrange(19, 19 + wanted.len() as int) == wanted);
    lemma_contains_at(setting, wanted, 19);
    lemma_contains_within(replaced(x4, p5, r5), setting, replaced(y4, p5, r5), wanted);
}

/// The README and the CMake checks agree on what the loader needs at build
/// time: the README lists the loader's requirement; for glad and glad2 it
/// names Python 3, and the loader block requires the Python interpreter; for
/// glad2 it names Jinja2 too, and the loader block checks for it; for GLEW it
/// names GLEW's development files, and the loader block looks for GLEW.
pub proof fn readme_states_what_cmake_checks(app: App, project_name: Seq<char>)
    ensures
        contains(readme_text(app, project_name), loader_requirement_text(app.gl_loader)),
        app.gl_loader != GlLoader::Glew ==> contains(loader_requirement_text(app.gl_loader), "Python 3"@)
            && contains(loader_block_text(app), "find_package(Python COMPONENTS Interpreter REQUIRED)"@),
        app.gl_loader == GlLoader::Glad2 ==> contains(loader_requirement_text(app.gl_loader), "Jinja2"@)
            && contains(loader_block_text(app), "import jinja2"@),
        app.gl_loader == GlLoader::Glew ==> contains(loader_requirement_text(app.gl_loader), "GLEW development files"@)
            && contains(loader_block_text(app), "find_package(GLEW QUIET)"@),
{
    lemma_readme_lists_requirement(app, project_name);
    lemma_requirement_matches_checks(app);
}

/// What each loader's requirement names, and what its loader block checks.
/// What the Glad requirement names, and what its loader block checks.
proof fn lemma_requirement_matches_checks_glad(app: App)
    requires
        app.gl_loader == GlLoader::Glad,
    ensures
        app.gl_loader != GlLoader::Glew ==> contains(loader_requirement_text(app.gl_loader), "Python 3"@)
            && contains(loader_block_text(app), "find_package(Python COMPONENTS Interpreter REQUIRED)"@),
        app.gl_loader == GlLoader::Glad2 ==> contains(loader_requirement_text(app.gl_loader), "Jinja2"@)
            && contains(loader_block_text(app), "import jinja2"@),
        app.gl_loader == GlLoader::Glew ==> contains(loader_requirement_text(app.gl_loader), "GLEW development files"@)
            && contains(loader_block_text(app), "find_package(GLEW QUIET)"@),
{
    let requirement = loader_requirement_text(app.gl_loader);
    let block = loader_block_text(app);
    let python = "find_package(Python COMPONENTS Interpreter REQUIRED)"@;
    reveal_strlit("find_package(Python COMPONENTS Interpreter REQUIRED)");
    reveal_strlit("find_package(Python COMPONENTS Interpreter REQUIRED)\n");
    assert(PYTHON_REQUIRED@.subrange(0, python.len() as int) == python);
    lemma_contains_at(PYTHON_REQUIRED@, python, 0);
    reveal_strlit("Python 3");
    reveal_strlit("- Python 3 on PATH: glad generates its sources during the build (standard library only).");
    assert(requirement.subrange(2, 2 + "Python 3"@.len() as int) == "Python 3"@);
    lemma_contains_at(requirement, "Python 3"@, 2);
    let a = GLAD_BLOCK_OPEN@ + "--branch "@ + "master"@ + GLAD_FETCH_TAIL@ + GLAD_SOURCES_NOTE@;
    let b = GLAD_API_OPEN@ + api_version(app) + GLAD_BLOCK_PROFILE@ + glad_profile(app)
        + GLAD_BLOCK_CLOSE@;
    assert(block == a + PYTHON_REQUIRED@ + b);
    lemma_contains_within(a, PYTHON_REQUIRED@, b, python);
}

/// glad2's requirement names Python 3 and Jinja2.
proof fn lemma_glad2_requirement_names()
    ensures
        contains(loader_requirement_text(GlLoader::Glad2), "Python 3"@),
        contains(loader_requirement_text(GlLoader::Glad2), "Jinja2"@),
{
    let requirement = loader_requirement_text(GlLoader::Glad2);
    reveal_strlit("Python 3");
    reveal_strlit("- Python 3 on PATH plus the Jinja2 module (`python -m pip install --user jinja2`):\n  the glad2 generator runs during the build.");
    assert(requirement.subrange(2, 2 + "Python 3"@.len() as int) == "Python 3"@);
    lemma_contains_at(requirement, "Python 3"@, 2);
    reveal_strlit("Jinja2");
    assert(requirement.subrange(28, 28 + "Jinja2"@.len() as int) == "Jinja2"@);
    lemma_contains_at(requirement, "Jinja2"@, 28);
}

/// glad2's loader block requires the Python interpreter and checks for
/// Jinja2.
proof fn lemma_glad2_block_checks(app: App)
    requires
        app.gl_loader == GlLoader::Glad2,
    ensures
        contains(loader_block_text(app), "find_package(Python COMPONENTS Interpreter REQUIRED)"@),
        contains(loader_block_text(app), "import jinja2"@),
{
    let block = loader_block_text(app);
    let python = "find_package(Python COMPONENTS Interpreter REQUIRED)"@;
    reveal_strlit("find_package(Python COMPONENTS Interpreter REQUIRED)");
    reveal_strlit("find_package(Python COMPONENTS Interpreter REQUIRED)\n");
    assert(PYTHON_REQUIRED@.subrange(0, python.len() as int) == python);
    lemma_contains_at(PYTHON_REQUIRED@, python, 0);
    let a = GLAD2_BLOCK_OPEN@ + "--branch "@ + "glad2"@ + GLAD_FETCH_TAIL@;
    let jinja = "import jinja2"@;
    reveal_strlit("import jinja2");
    reveal_strlit("    COMMAND \"${Python_EXECUTABLE}\" -c \"import jinja2\"\n");
    assert(JINJA2_CHECK@.subrange(39, 39 + jinja.len() as int) == jinja);
    lemma_contains_at(JINJA2_CHECK@, jinja, 39);
    let d = GLAD2_JINJA_FAILURE@ + glad_profile(app) + GLAD2_BLOCK_API@ + api_version(app)
        + GLAD2_BLOCK_CLOSE@;
    let b = GLAD2_JINJA_NOTE@ + JINJA2_CHECK@ + d;
    assert(block == a + PYTHON_REQUIRED@ + b);
    lemma_contains_within(a, PYTHON_REQUIRED@, b, python);
    let c = a + PYTHON_REQUIRED@ + GLAD2_JINJA_NOTE@;
    assert(block == c + JINJA2_CHECK@ + d);
    lemma_contains_within(c, JINJA2_CHECK@, d, jinja);
}

/// What the Glad2 requirement names, and what its loader block checks.
proof fn lemma_requirement_matches_checks_glad2(app: App)
    requires
        app.gl_loader == GlLoader::Glad2,
    ensures
        contains(loader_requirement_text(app.gl_loader), "Python 3"@) && contains(
            loader_block_text(app),
            "find_package(Python COMPONENTS Interpreter REQUIRED)"@,
        ),
        contains(loader_requirement_text(app.gl_loader), "Jinja2"@) && contains(
            loader_block_text(app),
            "import jinja2"@,
        ),
{
    lemma_glad2_requirement_names();
    lemma_glad2_block_checks(app);
}

/// What the Glew requirement names, and what its loader block checks.
proof fn lemma_requirement_matches_checks_glew(app: App)
    requires
        app.gl_loader == GlLoader::Glew,
    ensures
        app.gl_loader != GlLoader::Glew ==> contains(loader_requirement_text(app.gl_loader), "Python 3"@)
            && contains(loader_block_text(app), "find_package(Python COMPONENTS Interpreter REQUIRED)"@),
        app.gl_loader == GlLoader::Glad2 ==> contains(loader_requirement_text(app.gl_loader), "Jinja2"@)
            && contains(loader_block_text(app), "import jinja2"@),
        app.gl_loader == GlLoader::Glew ==> contains(loader_requirement_text(app.gl_loader), "GLEW development files"@)
            && contains(loader_block_text(app), "find_package(GLEW QUIET)"@),
{
    let requirement = loader_requirement_text(app.gl_loader);
    let block = loader_block_text(app);
    let python = "find_package(Python COMPONENTS Interpreter REQUIRED)"@;
    reveal_strlit("find_package(Python COMPONENTS Interpreter REQUIRED)");
    reveal_strlit("find_package(Python COMPONENTS Interpreter REQUIRED)\n");
    assert(PYTHON_REQUIRED@.subrange(0, python.len() as int) == python);
    lemma_contains_at(PYTHON_REQUIRED@, python, 0);
    reveal_strlit("Python 3");
    reveal_strlit("- GLEW development files.");
    reveal_strlit("GLEW development files");
    assert(requirement.subrange(2, 2 + "GLEW development files"@.len() as int) == "GLEW development files"@);
    lemma_contains_at(requirement, "GLEW development files"@, 2);
    let find = "find_package(GLEW QUIET)"@;
    reveal_strlit("find_package(GLEW QUIET)");
    reveal_strlit("find_package(GLEW QUIET)\n");
    assert(block.subrange(0, find.len() as int) == find);
    lemma_contains_at(block, find, 0);
}

/// What each loader's requirement names, and what its loader block checks.
pub(crate) proof fn lemma_requirement_matches_checks(app: App)
    ensures
        app.gl_loader != GlLoader::Glew ==> contains(loader_requirement_text(app.gl_loader), "Python 3"@)
            && contains(loader_block_text(app), "find_package(Python COMPONENTS Interpreter REQUIRED)"@),
        app.gl_loader == GlLoader::Glad2 ==> contains(loader_requirement_text(app.gl_loader), "Jinja2"@)
            && contains(loader_block_text(app), "import jinja2"@),
        app.gl_loader == GlLoader::Glew ==> contains(loader_requirement_text(app.gl_loader), "GLEW development files"@)
            && contains(loader_block_text(app), "find_package(GLEW QUIET)"@),
{
    match app.gl_loader {
        GlLoader::Glad => lemma_requirement_matches_checks_glad(app),
        GlLoader::Glad2 => lemma_requirement_matches_checks_glad2(app),
        GlLoader::Glew => lemma_requirement_matches_checks_glew(app),
    }
}

/// A project always goes right inside the output directory (or `.` when
/// that is blank), with either separator: its sanitized name never starts a
/// path or a drive of its own.
pub proof fn project_stays_in_output_directory(app: App, sep: char)
    requires
        sep == '/' || sep == '\\',
    ensures
        ({
            let base = output_base(app.output_directory@);
            let name = sanitized(app.project_name@);
            path_join(base, name, sep) == base + (if is_separator(base.last(), sep) || (sep == '\\'
                && base.len() == 2 && starts_with_drive(base)) {
                Seq::<char>::empty()
            } else {
                seq![sep]
            }) + name
        }),
{
    let base = output_base(app.output_directory@);
    let name = sanitized(app.project_name@);
    sanitized_name_shape(app.project_name@);
    reveal_strlit(".");
    assert(base.len() > 0);
    if name.len() > 0 {
        assert(is_project_name_char(name[0]));
    }
    if name.len() > 1 {
        assert(is_project_name_char(name[1]));
    }
    assert(base + Seq::<char>::empty() == base);
}

} // verus!
