//! Verified core of a Discord bot that runs Nushell pipelines: request
//! signature checks, interaction routing, response construction, option
//! extraction and the text layout used when rendering pipeline output.

pub mod bot;
pub mod executor;
pub mod handler;
pub mod http;
pub mod interaction;
pub mod nu_command;
pub mod render;
pub mod response;
pub mod signature;
pub mod text;
