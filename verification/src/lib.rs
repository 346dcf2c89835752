//! DevBridge: validation, request planning, configuration transitions and
//! protocol decisions of the DevBridge tunnel CLI, with their contracts.
pub mod text;
pub mod cli;
pub mod http;
pub mod control;
pub mod codec;
pub mod tunnel;
pub mod frontend;
pub mod table;
