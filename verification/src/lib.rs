//! Verified core of the Folio browser.

pub mod address;
pub mod cli;
pub mod download;
pub mod download_laws;
pub mod download_manager;
pub mod export;
pub mod export_laws;
pub mod filename;
pub mod history;
pub mod icon;
pub mod json;
pub mod ledger;
pub mod migration;
pub mod navigation;
pub mod pages;
pub mod paths;
pub mod picker;
pub mod popup;
pub mod profile;
pub mod query;
pub mod registry;
pub mod search;
pub mod tab_laws;
pub mod tabs;
pub mod tasks;
pub mod text;
pub mod timestamp;
pub mod views;
pub mod window;
