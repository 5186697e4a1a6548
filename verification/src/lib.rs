//! Visuara: the verified core of a self-hosted remote-desktop tool.
//!
//! The library holds the decisions and data formats shared by the
//! signaling server and the desktop client: the embedded-config slot of
//! downloadable client binaries, the signaling hub's connection registry
//! and message handling, account rules, HTML rendering, credential
//! minting, file-transfer framing and clipboard echo avoidance.

pub mod embedded_config;
pub mod text;
pub mod html;
pub mod auth;
pub mod turn;
pub mod ids;
pub mod signaling;
pub mod accounts;
pub mod hub;
pub mod ws;
pub mod control;
pub mod paths;
pub mod file_transfer;
pub mod clipboard_sync;
pub mod client_flow;
pub mod platforms;
pub mod api;
pub mod downloads;
pub mod release;
pub mod web;
pub mod admin;
pub mod local_config;
pub mod viewer;
