# opengl_project_generator

Scaffolds starter C++ OpenGL projects: a window backend (GLFW or SDL3), an
OpenGL loader (glad, glad2 or GLEW), a build system (CMake or Meson) and a
few extras (git repository, VS Code files, formatting configuration,
optional libraries).

The library in `src/` is written in Verus. Every function states what it
returns over a mathematical model of text (`Seq<char>`), and Verus proves
it:

- `text` — strings as character sequences: trimming, decimal numerals,
  search and left-to-right replacement.
- `naming` — the project's directory name and the C++ standard read from
  what the user typed.
- `options` — backend, loader and build system.
- `app` — the settings, the OpenGL version range, where a project goes and
  what the user is told.
- `cpp`, `cmake`, `meson`, `docs`, `editor` — the text of every generated
  file.
- `project` — the files of a project and the plan of a whole generation.
- `laws`, `cmake_laws`, `loader_laws`, `main_cpp_laws`, `file_laws`,
  `editor_laws` — properties proved for every choice: what every
  `CMakeLists.txt` holds and in what order its blocks stand, that no
  placeholder is left; that the glad header, the glad branch checked out and
  the CMake fetch hint agree; which headers `main.cpp` includes and what it
  asks the window library for; that the README names what the CMake checks
  require; what the READMEs and `meson.build` list and depend on; and that
  `launch.json` runs what the build task of `tasks.json` builds.

`app/` is the desktop front end (eframe/egui): the window, the file system
and the `git` calls, carrying out the plan the library makes.
