pub mod utf8_facts;
pub mod text_input;
pub mod text_util;
pub mod search;
pub mod config;
pub mod json;
pub mod api;
pub mod models;
pub mod session;
pub mod app;
pub mod update;
pub mod state;
pub mod keys;
pub mod host_keys;
pub mod assignment_keys;
pub mod flows;
pub mod outcomes;
pub mod popup_keys;
pub mod form_keys;
pub mod dashboard_keys;
pub mod dispatch;
pub mod stats;
pub mod hints;
pub mod info_view;
pub mod views;
pub mod laws;
pub mod config_file;
pub mod config_doc;
pub mod list_laws;
