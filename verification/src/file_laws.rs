//! Properties of the smaller generated files that hold for every choice:
//! what each of them says, and what each does not depend on.

use vstd::prelude::*;
use crate::app::App;
use crate::meson::{
    meson_backend_dep, meson_loader_dep, meson_loader_line, meson_std_option, meson_text,
    meson_window_line, MESON_EXECUTABLE_CLOSE, MESON_OPENGL_DEP,
};
use crate::cpp::{
    glfw_create_window, glfw_flag, glfw_hint, glfw_loader_init_text, glfw_main_text, glfw_profile,
    loader_include, main_cpp_text, sdl_attribute, sdl_create_window, sdl_loader_init_text,
    sdl_main_text, sdl_profile, GLFW_CONTEXT_READY, GLFW_INCLUDE, GLFW_MAIN_OPEN,
    GLFW_RENDER_LOOP, GLFW_WINDOW_OPEN, IOSTREAM_INCLUDE, SDL_CONTEXT_READY, SDL_INCLUDE,
    SDL_MAIN_OPEN, SDL_RENDER_LOOP, SDL_WINDOW_OPEN, STATEMENT_BREAK,
};
use crate::docs::{
    base_dependencies, library_lines, loader_requirement_text, opengl_version_text,
    readme_requirements, readme_stack, readme_text, readme_title, third_party_text, yes_no_text,
    README_BACKEND_FILES, README_BUILD_STEPS, README_INTRO, README_LIBRARIES_HEADING,
    README_OPTIONAL_NOTE, THIRD_PARTY_INSTALL, THIRD_PARTY_INTRO,
};
use crate::options::{GlLoader, WindowBackend};
use crate::text::{
    contains, decimal, lemma_contains_extend, lemma_contains_part, lemma_contains_self,
    lemma_contains_suffix, lemma_contains_suffix_pair, lemma_contains_trans, lemma_contains_within,
};

verus! {

/// `meson.build` passes the C++ standard on exactly as the user typed it
/// (not read as a number), picks `sdl3` or `glfw3` for the window and `glew`
/// or `glad` for the loader (glad for both glad generations), and depends on
/// nothing else: not on the OpenGL version, the profile, or the optional
/// libraries and extras.
pub proof fn meson_build_follows_choices(app: App, other: App, project_name: Seq<char>)
    ensures
        contains(meson_text(app, project_name), "cpp_std="@ + app.cpp_standard@),
        contains(meson_text(app, project_name), "window_dep = "@ + meson_backend_dep(app.window_backend)),
        contains(meson_text(app, project_name), "loader_dep = "@ + meson_loader_dep(app.gl_loader)),
        meson_backend_dep(app.window_backend) == (if app.window_backend == WindowBackend::Sdl3 {
            "dependency('sdl3')"@
        } else {
            "dependency('glfw3')"@
        }),
        meson_loader_dep(app.gl_loader) == (if app.gl_loader == GlLoader::Glew {
            "dependency('glew')"@
        } else {
            "dependency('glad')"@
        }),
        other.cpp_standard@ == app.cpp_standard@ && other.window_backend == app.window_backend && (
        other.gl_loader == GlLoader::Glew) == (app.gl_loader == GlLoader::Glew) ==> meson_text(
            other,
            project_name,
        ) == meson_text(app, project_name),
{
    let text = meson_text(app, project_name);
    let head = "project('"@ + project_name + "', 'cpp', default_options: ['"@;
    let std_option = meson_std_option(app);
    let window = meson_window_line(app);
    let loader = meson_loader_line(app);
    let tail = "\n\nexecutable('"@ + project_name + MESON_EXECUTABLE_CLOSE@;
    lemma_contains_self(std_option);
    assert(text == head + std_option + (MESON_OPENGL_DEP@ + window + "\n"@ + loader + tail));
    lemma_contains_within(head, std_option, MESON_OPENGL_DEP@ + window + "\n"@ + loader + tail, std_option);
    lemma_contains_self(window);
    assert(text == head + std_option + MESON_OPENGL_DEP@ + window + ("\n"@ + loader + tail));
    lemma_contains_within(head + std_option + MESON_OPENGL_DEP@, window, "\n"@ + loader + tail, window);
    lemma_contains_self(loader);
    assert(text == head + std_option + MESON_OPENGL_DEP@ + window + "\n"@ + loader + tail);
    lemma_contains_within(head + std_option + MESON_OPENGL_DEP@ + window + "\n"@, loader, tail, loader);
}

/// `README.md` lists what the loader needs at build time.
pub proof fn lemma_readme_lists_requirement(app: App, project_name: Seq<char>)
    ensures
        contains(readme_text(app, project_name), loader_requirement_text(app.gl_loader)),
{
    let requirement = loader_requirement_text(app.gl_loader);
    let requirements = readme_requirements(app);
    let lead = README_BUILD_STEPS@ + app.window_backend.label() + README_BACKEND_FILES@;
    assert(requirements == lead + requirement + Seq::<char>::empty());
    lemma_contains_part(lead, requirement, Seq::<char>::empty());
    let before = readme_title(project_name) + README_INTRO@ + readme_stack(app)
        + README_LIBRARIES_HEADING@ + library_lines(app);
    lemma_contains_part(before, requirements, README_OPTIONAL_NOTE@);
    lemma_contains_trans(readme_text(app, project_name), requirements, requirement);
}

/// `text` says `yes` or `no` for each optional library, as chosen in `app`.
pub open spec fn lists_libraries(text: Seq<char>, app: App) -> bool {
    &&& contains(text, "- GLM: "@ + yes_no_text(app.include_glm))
    &&& contains(text, "- Dear ImGui: "@ + yes_no_text(app.include_imgui))
    &&& contains(text, "- stb_image: "@ + yes_no_text(app.include_stb_image))
    &&& contains(text, "- Assimp: "@ + yes_no_text(app.include_assimp))
    &&& contains(text, "- fmt: "@ + yes_no_text(app.include_fmt))
    &&& contains(text, "- spdlog: "@ + yes_no_text(app.include_spdlog))
}

/// The library lines list each library.
proof fn lemma_library_lines_listed(app: App)
    ensures
        lists_libraries(library_lines(app), app),
{
    let glm = yes_no_text(app.include_glm);
    let imgui = yes_no_text(app.include_imgui);
    let stb = yes_no_text(app.include_stb_image);
    let assimp = yes_no_text(app.include_assimp);
    let fmt = yes_no_text(app.include_fmt);
    let spdlog = yes_no_text(app.include_spdlog);
    let s2 = "- GLM: "@ + glm;
    let s3 = s2 + "\n"@;
    let s4 = s3 + "- Dear ImGui: "@;
    let s5 = s4 + imgui;
    let s6 = s5 + "\n"@;
    let s7 = s6 + "- stb_image: "@;
    let s8 = s7 + stb;
    let s9 = s8 + "\n"@;
    let s10 = s9 + "- Assimp: "@;
    let s11 = s10 + assimp;
    let s12 = s11 + "\n"@;
    let s13 = s12 + "- fmt: "@;
    let s14 = s13 + fmt;
    let s15 = s14 + "\n"@;
    let s16 = s15 + "- spdlog: "@;
    let s17 = s16 + spdlog;
    lemma_contains_self(s2);
    lemma_contains_extend(s2, "\n"@, "- GLM: "@ + glm);
    lemma_contains_extend(s3, "- Dear ImGui: "@, "- GLM: "@ + glm);
    lemma_contains_extend(s4, imgui, "- GLM: "@ + glm);
    lemma_contains_extend(s5, "\n"@, "- GLM: "@ + glm);
    lemma_contains_extend(s6, "- stb_image: "@, "- GLM: "@ + glm);
    lemma_contains_extend(s7, stb, "- GLM: "@ + glm);
    lemma_contains_extend(s8, "\n"@, "- GLM: "@ + glm);
    lemma_contains_extend(s9, "- Assimp: "@, "- GLM: "@ + glm);
    lemma_contains_extend(s10, assimp, "- GLM: "@ + glm);
    lemma_contains_extend(s11, "\n"@, "- GLM: "@ + glm);
    lemma_contains_extend(s12, "- fmt: "@, "- GLM: "@ + glm);
    lemma_contains_extend(s13, fmt, "- GLM: "@ + glm);
    lemma_contains_extend(s14, "\n"@, "- GLM: "@ + glm);
    lemma_contains_extend(s15, "- spdlog: "@, "- GLM: "@ + glm);
    lemma_contains_extend(s16, spdlog, "- GLM: "@ + glm);
    lemma_contains_suffix_pair(s3, "- Dear ImGui: "@, imgui);
    lemma_contains_extend(s5, "\n"@, "- Dear ImGui: "@ + imgui);
    lemma_contains_extend(s6, "- stb_image: "@, "- Dear ImGui: "@ + imgui);
    lemma_contains_extend(s7, stb, "- Dear ImGui: "@ + imgui);
    lemma_contains_extend(s8, "\n"@, "- Dear ImGui: "@ + imgui);
    lemma_contains_extend(s9, "- Assimp: "@, "- Dear ImGui: "@ + imgui);
    lemma_contains_extend(s10, assimp, "- Dear ImGui: "@ + imgui);
    lemma_contains_extend(s11, "\n"@, "- Dear ImGui: "@ + imgui);
    lemma_contains_extend(s12, "- fmt: "@, "- Dear ImGui: "@ + imgui);
    lemma_contains_extend(s13, fmt, "- Dear ImGui: "@ + imgui);
    lemma_contains_extend(s14, "\n"@, "- Dear ImGui: "@ + imgui);
    lemma_contains_extend(s15, "- spdlog: "@, "- Dear ImGui: "@ + imgui);
    lemma_contains_extend(s16, spdlog, "- Dear ImGui: "@ + imgui);
    lemma_contains_suffix_pair(s6, "- stb_image: "@, stb);
    lemma_contains_extend(s8, "\n"@, "- stb_image: "@ + stb);
    lemma_contains_extend(s9, "- Assimp: "@, "- stb_image: "@ + stb);
    lemma_contains_extend(s10, assimp, "- stb_image: "@ + stb);
    lemma_contains_extend(s11, "\n"@, "- stb_image: "@ + stb);
    lemma_contains_extend(s12, "- fmt: "@, "- stb_image: "@ + stb);
    lemma_contains_extend(s13, fmt, "- stb_image: "@ + stb);
    lemma_contains_extend(s14, "\n"@, "- stb_image: "@ + stb);
    lemma_contains_extend(s15, "- spdlog: "@, "- stb_image: "@ + stb);
    lemma_contains_extend(s16, spdlog, "- stb_image: "@ + stb);
    lemma_contains_suffix_pair(s9, "- Assimp: "@, assimp);
    lemma_contains_extend(s11, "\n"@, "- Assimp: "@ + assimp);
    lemma_contains_extend(s12, "- fmt: "@, "- Assimp: "@ + assimp);
    lemma_contains_extend(s13, fmt, "- Assimp: "@ + assimp);
    lemma_contains_extend(s14, "\n"@, "- Assimp: "@ + assimp);
    lemma_contains_extend(s15, "- spdlog: "@, "- Assimp: "@ + assimp);
    lemma_contains_extend(s16, spdlog, "- Assimp: "@ + assimp);
    lemma_contains_suffix_pair(s12, "- fmt: "@, fmt);
    lemma_contains_extend(s14, "\n"@, "- fmt: "@ + fmt);
    lemma_contains_extend(s15, "- spdlog: "@, "- fmt: "@ + fmt);
    lemma_contains_extend(s16, spdlog, "- fmt: "@ + fmt);
    lemma_contains_suffix_pair(s15, "- spdlog: "@, spdlog);
}

/// A text that holds the library lines lists each library.
proof fn lemma_lists_libraries_within(text: Seq<char>, app: App)
    requires
        contains(text, library_lines(app)),
    ensures
        lists_libraries(text, app),
{
    lemma_library_lines_listed(app);
    lemma_contains_trans(text, library_lines(app), "- GLM: "@ + yes_no_text(app.include_glm));
    lemma_contains_trans(text, library_lines(app), "- Dear ImGui: "@ + yes_no_text(app.include_imgui));
    lemma_contains_trans(text, library_lines(app), "- stb_image: "@ + yes_no_text(app.include_stb_image));
    lemma_contains_trans(text, library_lines(app), "- Assimp: "@ + yes_no_text(app.include_assimp));
    lemma_contains_trans(text, library_lines(app), "- fmt: "@ + yes_no_text(app.include_fmt));
    lemma_contains_trans(text, library_lines(app), "- spdlog: "@ + yes_no_text(app.include_spdlog));
}

/// `third_party/README.md` names the window backend and the loader, says
/// `yes` or `no` for each optional library, and depends on nothing else: not
/// on the build system, the OpenGL version or profile, the C++ standard or
/// the extras.
pub proof fn third_party_readme_lists_choices(app: App, other: App)
    ensures
        contains(
            third_party_text(app),
            "- Window backend: "@ + app.window_backend.label() + "\n- OpenGL loader: "@
                + app.gl_loader.label(),
        ),
        lists_libraries(third_party_text(app), app),
        other.window_backend == app.window_backend && other.gl_loader == app.gl_loader
            && other.include_glm == app.include_glm && other.include_imgui == app.include_imgui
            && other.include_stb_image == app.include_stb_image && other.include_assimp
            == app.include_assimp && other.include_fmt == app.include_fmt && other.include_spdlog
            == app.include_spdlog ==> third_party_text(other) == third_party_text(app),
{
    let text = third_party_text(app);
    let base = base_dependencies(app);
    let lines = library_lines(app);
    lemma_contains_suffix(THIRD_PARTY_INTRO@, base);
    lemma_contains_extend(THIRD_PARTY_INTRO@ + base, THIRD_PARTY_INSTALL@, base);
    lemma_contains_extend(THIRD_PARTY_INTRO@ + base + THIRD_PARTY_INSTALL@, lines, base);
    lemma_contains_extend(THIRD_PARTY_INTRO@ + base + THIRD_PARTY_INSTALL@ + lines, "\n"@, base);
    lemma_contains_suffix(THIRD_PARTY_INTRO@ + base + THIRD_PARTY_INSTALL@, lines);
    lemma_contains_extend(THIRD_PARTY_INTRO@ + base + THIRD_PARTY_INSTALL@ + lines, "\n"@, lines);
    lemma_lists_libraries_within(text, app);
}

/// `README.md` starts with the project's name as its title, lists the
/// window backend, the loader, the build system and the OpenGL version,
/// says `yes` or `no` for each optional library, and names what the loader
/// needs at build time.
pub proof fn readme_lists_choices(app: App, project_name: Seq<char>)
    ensures
        ("# "@ + project_name + "\n"@).is_prefix_of(readme_text(app, project_name)),
        contains(readme_text(app, project_name), "- Windowing: "@ + app.window_backend.label()),
        contains(readme_text(app, project_name), "- GL loader: "@ + app.gl_loader.label()),
        contains(readme_text(app, project_name), "- Build system: "@ + app.build_system.label()),
        contains(readme_text(app, project_name), "- OpenGL: "@ + opengl_version_text(app)),
        lists_libraries(readme_text(app, project_name), app),
        contains(readme_text(app, project_name), loader_requirement_text(app.gl_loader)),
{
    let text = readme_text(app, project_name);
    let title = readme_title(project_name);
    let stack = readme_stack(app);
    let lines = library_lines(app);
    let requirements = readme_requirements(app);
    let w = app.window_backend.label();
    let l = app.gl_loader.label();
    let b = app.build_system.label();
    let version = opengl_version_text(app);
    assert(text.subrange(0, title.len() as int) == title);
    let s2 = title + README_INTRO@;
    let s3 = s2 + stack;
    let s4 = s3 + README_LIBRARIES_HEADING@;
    let s5 = s4 + lines;
    let s6 = s5 + requirements;
    let s7 = s6 + README_OPTIONAL_NOTE@;
    let t2 = "- Windowing: "@ + w;
    let t3 = t2 + "\n"@;
    let t4 = t3 + "- GL loader: "@;
    let t5 = t4 + l;
    let t6 = t5 + "\n"@;
    let t7 = t6 + "- Build system: "@;
    let t8 = t7 + b;
    let t9 = t8 + "\n"@;
    let t10 = t9 + "- OpenGL: "@;
    let t11 = t10 + version;
    lemma_contains_suffix(s2, stack);
    lemma_contains_extend(s3, README_LIBRARIES_HEADING@, stack);
    lemma_contains_extend(s4, lines, stack);
    lemma_contains_extend(s5, requirements, stack);
    lemma_contains_extend(s6, README_OPTIONAL_NOTE@, stack);
    lemma_contains_self(t2);
    lemma_contains_extend(t2, "\n"@, "- Windowing: "@ + w);
    lemma_contains_extend(t3, "- GL loader: "@, "- Windowing: "@ + w);
    lemma_contains_extend(t4, l, "- Windowing: "@ + w);
    lemma_contains_extend(t5, "\n"@, "- Windowing: "@ + w);
    lemma_contains_extend(t6, "- Build system: "@, "- Windowing: "@ + w);
    lemma_contains_extend(t7, b, "- Windowing: "@ + w);
    lemma_contains_extend(t8, "\n"@, "- Windowing: "@ + w);
    lemma_contains_extend(t9, "- OpenGL: "@, "- Windowing: "@ + w);
    lemma_contains_extend(t10, version, "- Windowing: "@ + w);
    lemma_contains_trans(text, stack, "- Windowing: "@ + w);
    lemma_contains_suffix_pair(t3, "- GL loader: "@, l);
    lemma_contains_extend(t5, "\n"@, "- GL loader: "@ + l);
    lemma_contains_extend(t6, "- Build system: "@, "- GL loader: "@ + l);
    lemma_contains_extend(t7, b, "- GL loader: "@ + l);
    lemma_contains_extend(t8, "\n"@, "- GL loader: "@ + l);
    lemma_contains_extend(t9, "- OpenGL: "@, "- GL loader: "@ + l);
    lemma_contains_extend(t10, version, "- GL loader: "@ + l);
    lemma_contains_trans(text, stack, "- GL loader: "@ + l);
    lemma_contains_suffix_pair(t6, "- Build system: "@, b);
    lemma_contains_extend(t8, "\n"@, "- Build system: "@ + b);
    lemma_contains_extend(t9, "- OpenGL: "@, "- Build system: "@ + b);
    lemma_contains_extend(t10, version, "- Build system: "@ + b);
    lemma_contains_trans(text, stack, "- Build system: "@ + b);
    lemma_contains_suffix_pair(t9, "- OpenGL: "@, version);
    lemma_contains_trans(text, stack, "- OpenGL: "@ + version);
    lemma_contains_suffix(s4, lines);
    lemma_contains_extend(s5, requirements, lines);
    lemma_contains_extend(s6, README_OPTIONAL_NOTE@, lines);
    lemma_lists_libraries_within(text, app);
    lemma_readme_lists_requirement(app, project_name);
}

/// What the GLFW `main.cpp` holds.
proof fn lemma_glfw_main_parts(app: App, project_name: Seq<char>)
    ensures
        contains(glfw_main_text(app, project_name), loader_include(app.gl_loader)),
        contains(glfw_main_text(app, project_name), GLFW_INCLUDE@),
        contains(glfw_main_text(app, project_name), glfw_hint("GLFW_CONTEXT_VERSION_MAJOR"@, decimal(app.opengl_major as nat))),
        contains(glfw_main_text(app, project_name), glfw_hint("GLFW_CONTEXT_VERSION_MINOR"@, decimal(app.opengl_minor as nat))),
        contains(glfw_main_text(app, project_name), glfw_hint("GLFW_OPENGL_PROFILE"@, glfw_profile(app.core_profile))),
        contains(glfw_main_text(app, project_name), glfw_hint("GLFW_OPENGL_DEBUG_CONTEXT"@, glfw_flag(app.debug_context))),
        contains(glfw_main_text(app, project_name), glfw_create_window(project_name)),
        contains(glfw_main_text(app, project_name), glfw_loader_init_text(app.gl_loader)),
{
    let major = glfw_hint("GLFW_CONTEXT_VERSION_MAJOR"@, decimal(app.opengl_major as nat));
    let minor = glfw_hint("GLFW_CONTEXT_VERSION_MINOR"@, decimal(app.opengl_minor as nat));
    let profile = glfw_hint("GLFW_OPENGL_PROFILE"@, glfw_profile(app.core_profile));
    let debug = glfw_hint("GLFW_OPENGL_DEBUG_CONTEXT"@, glfw_flag(app.debug_context));
    let srgb = glfw_hint("GLFW_SRGB_CAPABLE"@, glfw_flag(app.srgb_framebuffer));
    let window = glfw_create_window(project_name);
    let init = glfw_loader_init_text(app.gl_loader);
    let s2 = IOSTREAM_INCLUDE@ + loader_include(app.gl_loader);
    let s3 = s2 + "\n"@;
    let s4 = s3 + GLFW_INCLUDE@;
    let s5 = s4 + GLFW_MAIN_OPEN@;
    let s6 = s5 + major;
    let s7 = s6 + STATEMENT_BREAK@;
    let s8 = s7 + minor;
    let s9 = s8 + STATEMENT_BREAK@;
    let s10 = s9 + profile;
    let s11 = s10 + STATEMENT_BREAK@;
    let s12 = s11 + debug;
    let s13 = s12 + STATEMENT_BREAK@;
    let s14 = s13 + srgb;
    let s15 = s14 + GLFW_WINDOW_OPEN@;
    let s16 = s15 + window;
    let s17 = s16 + GLFW_CONTEXT_READY@;
    let s18 = s17 + init;
    let s19 = s18 + GLFW_RENDER_LOOP@;
    lemma_contains_suffix(IOSTREAM_INCLUDE@, loader_include(app.gl_loader));
    lemma_contains_extend(s2, "\n"@, loader_include(app.gl_loader));
    lemma_contains_extend(s3, GLFW_INCLUDE@, loader_include(app.gl_loader));
    lemma_contains_extend(s4, GLFW_MAIN_OPEN@, loader_include(app.gl_loader));
    lemma_contains_extend(s5, major, loader_include(app.gl_loader));
    lemma_contains_extend(s6, STATEMENT_BREAK@, loader_include(app.gl_loader));
    lemma_contains_extend(s7, minor, loader_include(app.gl_loader));
    lemma_contains_extend(s8, STATEMENT_BREAK@, loader_include(app.gl_loader));
    lemma_contains_extend(s9, profile, loader_include(app.gl_loader));
    lemma_contains_extend(s10, STATEMENT_BREAK@, loader_include(app.gl_loader));
    lemma_contains_extend(s11, debug, loader_include(app.gl_loader));
    lemma_contains_extend(s12, STATEMENT_BREAK@, loader_include(app.gl_loader));
    lemma_contains_extend(s13, srgb, loader_include(app.gl_loader));
    lemma_contains_extend(s14, GLFW_WINDOW_OPEN@, loader_include(app.gl_loader));
    lemma_contains_extend(s15, window, loader_include(app.gl_loader));
    lemma_contains_extend(s16, GLFW_CONTEXT_READY@, loader_include(app.gl_loader));
    lemma_contains_extend(s17, init, loader_include(app.gl_loader));
    lemma_contains_extend(s18, GLFW_RENDER_LOOP@, loader_include(app.gl_loader));
    lemma_contains_suffix(s3, GLFW_INCLUDE@);
    lemma_contains_extend(s4, GLFW_MAIN_OPEN@, GLFW_INCLUDE@);
    lemma_contains_extend(s5, major, GLFW_INCLUDE@);
    lemma_contains_extend(s6, STATEMENT_BREAK@, GLFW_INCLUDE@);
    lemma_contains_extend(s7, minor, GLFW_INCLUDE@);
    lemma_contains_extend(s8, STATEMENT_BREAK@, GLFW_INCLUDE@);
    lemma_contains_extend(s9, profile, GLFW_INCLUDE@);
    lemma_contains_extend(s10, STATEMENT_BREAK@, GLFW_INCLUDE@);
    lemma_contains_extend(s11, debug, GLFW_INCLUDE@);
    lemma_contains_extend(s12, STATEMENT_BREAK@, GLFW_INCLUDE@);
    lemma_contains_extend(s13, srgb, GLFW_INCLUDE@);
    lemma_contains_extend(s14, GLFW_WINDOW_OPEN@, GLFW_INCLUDE@);
    lemma_contains_extend(s15, window, GLFW_INCLUDE@);
    lemma_contains_extend(s16, GLFW_CONTEXT_READY@, GLFW_INCLUDE@);
    lemma_contains_extend(s17, init, GLFW_INCLUDE@);
    lemma_contains_extend(s18, GLFW_RENDER_LOOP@, GLFW_INCLUDE@);
    lemma_contains_suffix(s5, major);
    lemma_contains_extend(s6, STATEMENT_BREAK@, major);
    lemma_contains_extend(s7, minor, major);
    lemma_contains_extend(s8, STATEMENT_BREAK@, major);
    lemma_contains_extend(s9, profile, major);
    lemma_contains_extend(s10, STATEMENT_BREAK@, major);
    lemma_contains_extend(s11, debug, major);
    lemma_contains_extend(s12, STATEMENT_BREAK@, major);
    lemma_contains_extend(s13, srgb, major);
    lemma_contains_extend(s14, GLFW_WINDOW_OPEN@, major);
    lemma_contains_extend(s15, window, major);
    lemma_contains_extend(s16, GLFW_CONTEXT_READY@, major);
    lemma_contains_extend(s17, init, major);
    lemma_contains_extend(s18, GLFW_RENDER_LOOP@, major);
    lemma_contains_suffix(s7, minor);
    lemma_contains_extend(s8, STATEMENT_BREAK@, minor);
    lemma_contains_extend(s9, profile, minor);
    lemma_contains_extend(s10, STATEMENT_BREAK@, minor);
    lemma_contains_extend(s11, debug, minor);
    lemma_contains_extend(s12, STATEMENT_BREAK@, minor);
    lemma_contains_extend(s13, srgb, minor);
    lemma_contains_extend(s14, GLFW_WINDOW_OPEN@, minor);
    lemma_contains_extend(s15, window, minor);
    lemma_contains_extend(s16, GLFW_CONTEXT_READY@, minor);
    lemma_contains_extend(s17, init, minor);
    lemma_contains_extend(s18, GLFW_RENDER_LOOP@, minor);
    lemma_contains_suffix(s9, profile);
    lemma_contains_extend(s10, STATEMENT_BREAK@, profile);
    lemma_contains_extend(s11, debug, profile);
    lemma_contains_extend(s12, STATEMENT_BREAK@, profile);
    lemma_contains_extend(s13, srgb, profile);
    lemma_contains_extend(s14, GLFW_WINDOW_OPEN@, profile);
    lemma_contains_extend(s15, window, profile);
    lemma_contains_extend(s16, GLFW_CONTEXT_READY@, profile);
    lemma_contains_extend(s17, init, profile);
    lemma_contains_extend(s18, GLFW_RENDER_LOOP@, profile);
    lemma_contains_suffix(s11, debug);
    lemma_contains_extend(s12, STATEMENT_BREAK@, debug);
    lemma_contains_extend(s13, srgb, debug);
    lemma_contains_extend(s14, GLFW_WINDOW_OPEN@, debug);
    lemma_contains_extend(s15, window, debug);
    lemma_contains_extend(s16, GLFW_CONTEXT_READY@, debug);
    lemma_contains_extend(s17, init, debug);
    lemma_contains_extend(s18, GLFW_RENDER_LOOP@, debug);
    lemma_contains_suffix(s15, window);
    lemma_contains_extend(s16, GLFW_CONTEXT_READY@, window);
    lemma_contains_extend(s17, init, window);
    lemma_contains_extend(s18, GLFW_RENDER_LOOP@, window);
    lemma_contains_suffix(s17, init);
    lemma_contains_extend(s18, GLFW_RENDER_LOOP@, init);
}

/// What the SDL3 `main.cpp` holds.
proof fn lemma_sdl_main_parts(app: App, project_name: Seq<char>)
    ensures
        contains(sdl_main_text(app, project_name), loader_include(app.gl_loader)),
        contains(sdl_main_text(app, project_name), SDL_INCLUDE@),
        contains(sdl_main_text(app, project_name), sdl_attribute("SDL_GL_CONTEXT_MAJOR_VERSION"@, decimal(app.opengl_major as nat))),
        contains(sdl_main_text(app, project_name), sdl_attribute("SDL_GL_CONTEXT_MINOR_VERSION"@, decimal(app.opengl_minor as nat))),
        contains(sdl_main_text(app, project_name), sdl_attribute("SDL_GL_CONTEXT_PROFILE_MASK"@, sdl_profile(app.core_profile))),
        contains(sdl_main_text(app, project_name), sdl_loader_init_text(app.gl_loader)),
        contains(sdl_main_text(app, project_name), sdl_create_window(project_name)),
{
    let major = sdl_attribute("SDL_GL_CONTEXT_MAJOR_VERSION"@, decimal(app.opengl_major as nat));
    let minor = sdl_attribute("SDL_GL_CONTEXT_MINOR_VERSION"@, decimal(app.opengl_minor as nat));
    let profile = sdl_attribute("SDL_GL_CONTEXT_PROFILE_MASK"@, sdl_profile(app.core_profile));
    let srgb = sdl_attribute(
        "SDL_GL_FRAMEBUFFER_SRGB_CAPABLE"@,
        if app.srgb_framebuffer {
            "1"@
        } else {
            "0"@
        },
    );
    let window = sdl_create_window(project_name);
    let init = sdl_loader_init_text(app.gl_loader);
    let s2 = IOSTREAM_INCLUDE@ + loader_include(app.gl_loader);
    let s3 = s2 + "\n"@;
    let s4 = s3 + SDL_INCLUDE@;
    let s5 = s4 + SDL_MAIN_OPEN@;
    let s6 = s5 + major;
    let s7 = s6 + STATEMENT_BREAK@;
    let s8 = s7 + minor;
    let s9 = s8 + STATEMENT_BREAK@;
    let s10 = s9 + profile;
    let s11 = s10 + STATEMENT_BREAK@;
    let s12 = s11 + srgb;
    let s13 = s12 + SDL_WINDOW_OPEN@;
    let s14 = s13 + window;
    let s15 = s14 + SDL_CONTEXT_READY@;
    let s16 = s15 + init;
    let s17 = s16 + SDL_RENDER_LOOP@;
    lemma_contains_suffix(IOSTREAM_INCLUDE@, loader_include(app.gl_loader));
    lemma_contains_extend(s2, "\n"@, loader_include(app.gl_loader));
    lemma_contains_extend(s3, SDL_INCLUDE@, loader_include(app.gl_loader));
    lemma_contains_extend(s4, SDL_MAIN_OPEN@, loader_include(app.gl_loader));
    lemma_contains_extend(s5, major, loader_include(app.gl_loader));
    lemma_contains_extend(s6, STATEMENT_BREAK@, loader_include(app.gl_loader));
    lemma_contains_extend(s7, minor, loader_include(app.gl_loader));
    lemma_contains_extend(s8, STATEMENT_BREAK@, loader_include(app.gl_loader));
    lemma_contains_extend(s9, profile, loader_include(app.gl_loader));
    lemma_contains_extend(s10, STATEMENT_BREAK@, loader_include(app.gl_loader));
    lemma_contains_extend(s11, srgb, loader_include(app.gl_loader));
    lemma_contains_extend(s12, SDL_WINDOW_OPEN@, loader_include(app.gl_loader));
    lemma_contains_extend(s13, window, loader_include(app.gl_loader));
    lemma_contains_extend(s14, SDL_CONTEXT_READY@, loader_include(app.gl_loader));
    lemma_contains_extend(s15, init, loader_include(app.gl_loader));
    lemma_contains_extend(s16, SDL_RENDER_LOOP@, loader_include(app.gl_loader));
    lemma_contains_suffix(s3, SDL_INCLUDE@);
    lemma_contains_extend(s4, SDL_MAIN_OPEN@, SDL_INCLUDE@);
    lemma_contains_extend(s5, major, SDL_INCLUDE@);
    lemma_contains_extend(s6, STATEMENT_BREAK@, SDL_INCLUDE@);
    lemma_contains_extend(s7, minor, SDL_INCLUDE@);
    lemma_contains_extend(s8, STATEMENT_BREAK@, SDL_INCLUDE@);
    lemma_contains_extend(s9, profile, SDL_INCLUDE@);
    lemma_contains_extend(s10, STATEMENT_BREAK@, SDL_INCLUDE@);
    lemma_contains_extend(s11, srgb, SDL_INCLUDE@);
    lemma_contains_extend(s12, SDL_WINDOW_OPEN@, SDL_INCLUDE@);
    lemma_contains_extend(s13, window, SDL_INCLUDE@);
    lemma_contains_extend(s14, SDL_CONTEXT_READY@, SDL_INCLUDE@);
    lemma_contains_extend(s15, init, SDL_INCLUDE@);
    lemma_contains_extend(s16, SDL_RENDER_LOOP@, SDL_INCLUDE@);
    lemma_contains_suffix(s5, major);
    lemma_contains_extend(s6, STATEMENT_BREAK@, major);
    lemma_contains_extend(s7, minor, major);
    lemma_contains_extend(s8, STATEMENT_BREAK@, major);
    lemma_contains_extend(s9, profile, major);
    lemma_contains_extend(s10, STATEMENT_BREAK@, major);
    lemma_contains_extend(s11, srgb, major);
    lemma_contains_extend(s12, SDL_WINDOW_OPEN@, major);
    lemma_contains_extend(s13, window, major);
    lemma_contains_extend(s14, SDL_CONTEXT_READY@, major);
    lemma_contains_extend(s15, init, major);
    lemma_contains_extend(s16, SDL_RENDER_LOOP@, major);
    lemma_contains_suffix(s7, minor);
    lemma_contains_extend(s8, STATEMENT_BREAK@, minor);
    lemma_contains_extend(s9, profile, minor);
    lemma_contains_extend(s10, STATEMENT_BREAK@, minor);
    lemma_contains_extend(s11, srgb, minor);
    lemma_contains_extend(s12, SDL_WINDOW_OPEN@, minor);
    lemma_contains_extend(s13, window, minor);
    lemma_contains_extend(s14, SDL_CONTEXT_READY@, minor);
    lemma_contains_extend(s15, init, minor);
    lemma_contains_extend(s16, SDL_RENDER_LOOP@, minor);
    lemma_contains_suffix(s9, profile);
    lemma_contains_extend(s10, STATEMENT_BREAK@, profile);
    lemma_contains_extend(s11, srgb, profile);
    lemma_contains_extend(s12, SDL_WINDOW_OPEN@, profile);
    lemma_contains_extend(s13, window, profile);
    lemma_contains_extend(s14, SDL_CONTEXT_READY@, profile);
    lemma_contains_extend(s15, init, profile);
    lemma_contains_extend(s16, SDL_RENDER_LOOP@, profile);
    lemma_contains_suffix(s13, window);
    lemma_contains_extend(s14, SDL_CONTEXT_READY@, window);
    lemma_contains_extend(s15, init, window);
    lemma_contains_extend(s16, SDL_RENDER_LOOP@, window);
    lemma_contains_suffix(s15, init);
    lemma_contains_extend(s16, SDL_RENDER_LOOP@, init);
}

/// `main.cpp` includes the chosen loader's header and the chosen window
/// library's header, asks for the OpenGL version and profile chosen (and,
/// with GLFW, for a debug context when one is chosen), opens a window titled
/// with the project's name, and loads OpenGL through the chosen loader in
/// the way that fits the window library. With SDL3 the text does not depend
/// on the debug-context choice.
pub proof fn main_cpp_follows_choices(app: App, project_name: Seq<char>)
    ensures
        contains(main_cpp_text(app, project_name), loader_include(app.gl_loader)),
        app.window_backend == WindowBackend::Glfw ==> {
            let text = main_cpp_text(app, project_name);
            &&& contains(text, GLFW_INCLUDE@)
            &&& contains(text, glfw_hint("GLFW_CONTEXT_VERSION_MAJOR"@, decimal(app.opengl_major as nat)))
            &&& contains(text, glfw_hint("GLFW_CONTEXT_VERSION_MINOR"@, decimal(app.opengl_minor as nat)))
            &&& contains(text, glfw_hint("GLFW_OPENGL_PROFILE"@, glfw_profile(app.core_profile)))
            &&& contains(text, glfw_hint("GLFW_OPENGL_DEBUG_CONTEXT"@, glfw_flag(app.debug_context)))
            &&& contains(text, glfw_create_window(project_name))
            &&& contains(text, glfw_loader_init_text(app.gl_loader))
        },
        app.window_backend == WindowBackend::Sdl3 ==> {
            let text = main_cpp_text(app, project_name);
            &&& contains(text, SDL_INCLUDE@)
            &&& contains(text, sdl_attribute("SDL_GL_CONTEXT_MAJOR_VERSION"@, decimal(app.opengl_major as nat)))
            &&& contains(text, sdl_attribute("SDL_GL_CONTEXT_MINOR_VERSION"@, decimal(app.opengl_minor as nat)))
            &&& contains(text, sdl_attribute("SDL_GL_CONTEXT_PROFILE_MASK"@, sdl_profile(app.core_profile)))
            &&& contains(text, sdl_create_window(project_name))
            &&& contains(text, sdl_loader_init_text(app.gl_loader))
            &&& main_cpp_text((App { debug_context: !app.debug_context, ..app }), project_name) == text
        },
{
    match app.window_backend {
        WindowBackend::Glfw => lemma_glfw_main_parts(app, project_name),
        WindowBackend::Sdl3 => lemma_sdl_main_parts(app, project_name),
    }
}

} // verus!
