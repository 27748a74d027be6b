//! Local backend of a desktop development tool: repository lifecycle, status,
//! staging, commits and remote synchronisation, with the decisions of each
//! operation stated as contracts and proved.

pub mod text;
pub mod error;
pub mod model;
pub mod status;
pub mod head;
pub mod remote;
pub mod credentials;
pub mod history;
pub mod commit;
pub mod init;
pub mod files;
pub mod backend;
pub mod store;
pub mod manager;
pub mod repository;
pub mod commands;
