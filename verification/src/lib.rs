//! Core logic of the Notypo Markdown editor host: document state and its
//! change counter, recent files, the mounted folder, the file sidebar tree,
//! settings, asset serving and the routing of bridge messages.

pub mod text;
pub mod paths;
pub mod document;
pub mod recent;
pub mod mount;
pub mod session;
pub mod file_tree;
pub mod settings;
pub mod assets;
pub mod bridge;
pub mod scripts;
