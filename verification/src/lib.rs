//! Scaffolding logic for starter C++ OpenGL projects: the choices a user
//! makes, the names and numbers taken from free text, and the text of every
//! file that a generated project holds.

pub mod text;
pub mod naming;
pub mod options;
pub mod app;
pub mod cpp;
pub mod cmake;
pub mod docs;
pub mod meson;
pub mod editor;
pub mod project;
pub mod laws;
pub mod file_laws;
pub mod loader_laws;
pub mod cmake_laws;
pub mod editor_laws;
pub mod main_cpp_laws;
