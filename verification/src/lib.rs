//! Verified core of the glorp game client: the decisions and text handling that the
//! Windows front end drives.
#![allow(non_snake_case)]

pub mod wide;
pub mod text;
pub mod json;
pub mod web_message;
pub mod userscript;
pub mod config;
pub mod window;
pub mod laws;
pub mod render;
pub mod capture;
pub mod webview_proc;
pub mod resources;
pub mod lists;
pub mod update;
pub mod client;
