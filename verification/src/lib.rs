//! G&N Engine core logic: each public function states its result in its
//! contract.
//!
//! - `ecs`: entities and their components, stored kind by kind.
//! - `components`, `asset`: component types and asset management.
//! - `material`, `mesh_storage`, `texture_catalog`, `lighting`, `handles`:
//!   the bookkeeping of the renderer (handles, names, bounded lists).
//! - `launcher`, `asset_browser`, `scene_tree`, `properties`, `viewport`,
//!   `editor`, `backend`, `cli`: the editor's state and decisions.
pub mod asset;
pub mod asset_browser;
pub mod backend;
pub mod cli;
pub mod components;
pub mod ecs;
pub mod editor;
pub mod error;
pub mod handles;
pub mod launcher;
pub mod lighting;
pub mod material;
pub mod mesh_storage;
pub mod properties;
pub mod scene_tree;
mod slot;
mod table;
pub mod text;
pub mod texture_catalog;
pub mod viewport;
