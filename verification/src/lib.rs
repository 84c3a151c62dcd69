//! Core of a desktop cluster inspector: the uniform display model for
//! Kubernetes objects, the rules that derive it from what a cluster returns,
//! and the connection state that the shell around it drives.

pub mod age;
pub mod aggregate;
pub mod client;
pub mod contexts;
pub mod decimal;
pub mod error;
pub mod kind;
pub mod logs;
pub mod objects;
pub mod resources;
pub mod settings;
pub mod shell;
pub mod status;
pub mod theme;
