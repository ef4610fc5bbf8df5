//! Channel tool routing, tool request handling and budget administration.
pub mod budget;
pub mod channel_routing;
pub mod http;
pub mod json;
pub mod loom_render;
pub mod names;
pub mod text;
pub mod tool;
pub mod zoho_mail;
