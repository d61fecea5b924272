//! The start of the official Roslyn language server from an editor extension.
//!
//! The library decides; what it decides on is done outside. [`server::Launch`] says what it needs
//! next, takes the answer, and goes on until it has the call that starts the server, or a reason
//! why there is none. Every step of that has a contract, and what holds of whole runs is stated
//! and proved in [`runs`]. The modules called `_laws` state, for all inputs and in terms of places,
//! values and texts, what the definitions that the contracts speak of come to.
pub mod command;
pub mod command_laws;
pub mod dotnet;
pub mod dotnet_laws;
pub mod events;
pub mod json;
pub mod path_laws;
pub mod paths;
pub mod razor;
pub mod razor_laws;
pub mod roslyn;
pub mod runs;
pub mod sdk;
pub mod sdk_laws;
pub mod server;
pub mod server_laws;
pub mod settings;
pub mod settings_laws;
pub mod text;
pub mod text_laws;
pub mod version;
pub mod version_laws;
pub mod view_laws;
