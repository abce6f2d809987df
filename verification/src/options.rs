//! The choices a generated project is built from: window backend, OpenGL
//! loader and build system.

use vstd::prelude::*;

verus! {

/// The library that opens the window and creates the OpenGL context.
#[derive(Clone, Copy, Debug, PartialEq, Eq, Structural)]
pub enum WindowBackend {
    Glfw,
    Sdl3,
}

/// The library that loads the OpenGL entry points.
#[derive(Clone, Copy, Debug, PartialEq, Eq, Structural)]
pub enum GlLoader {
    Glad,
    Glad2,
    Glew,
}

/// The build system that the generated project is configured with.
#[derive(Clone, Copy, Debug, PartialEq, Eq, Structural)]
pub enum BuildSystem {
    CMake,
    Meson,
}

impl WindowBackend {
    /// The name shown for the backend.
    pub open spec fn label(self) -> Seq<char> {
        match self {
            WindowBackend::Glfw => "GLFW"@,
            WindowBackend::Sdl3 => "SDL3"@,
        }
    }

    pub fn as_str(self) -> (out: &'static str)
        ensures
            out@ == self.label(),
    {
        match self {
            WindowBackend::Glfw => "GLFW",
            WindowBackend::Sdl3 => "SDL3",
        }
    }
}

impl GlLoader {
    /// The name shown for the loader.
    pub open spec fn label(self) -> Seq<char> {
        match self {
            GlLoader::Glad => "glad"@,
            GlLoader::Glad2 => "glad2"@,
            GlLoader::Glew => "GLEW"@,
        }
    }

    pub fn as_str(self) -> (out: &'static str)
        ensures
            out@ == self.label(),
    {
        match self {
            GlLoader::Glad => "glad",
            GlLoader::Glad2 => "glad2",
            GlLoader::Glew => "GLEW",
        }
    }
}

impl BuildSystem {
    /// The name shown for the build system.
    pub open spec fn label(self) -> Seq<char> {
        match self {
            BuildSystem::CMake => "CMake"@,
            BuildSystem::Meson => "Meson"@,
        }
    }

    pub fn as_str(self) -> (out: &'static str)
        ensures
            out@ == self.label(),
    {
        match self {
            BuildSystem::CMake => "CMake",
            BuildSystem::Meson => "Meson",
        }
    }
}

} // verus!
