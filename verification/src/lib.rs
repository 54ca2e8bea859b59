//! Decision logic of the Staged workspace app, with its contracts.
pub mod badges;
pub mod cleanup;
pub mod models;
pub mod projects;
pub mod repos;
pub mod sessions;
pub mod startup;
pub mod text;
pub mod web;
pub mod workspaces;
