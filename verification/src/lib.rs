//! Update checking, version comparison and settings patching for the
//! TauriTavern desktop shell.
pub mod text;
pub mod version;
pub mod errors;
pub mod models;
pub mod update_service;
pub mod github_update_repository;
pub mod settings_dto;
pub mod settings_service;
