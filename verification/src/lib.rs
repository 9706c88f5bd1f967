//! Ergon: the orchestration core of a desktop chat client that talks to
//! several large-language-model providers and to pluggable tool servers.
//!
//! The crate is organised around a backend-neutral data model (`models`),
//! per-provider adapters (`openai`, `anthropic`, `vllm`), a completion
//! router (`router`), a tool-server registry with namespacing (`registry`),
//! a tool dispatcher (`dispatch`), and the conversation orchestrator
//! (`orchestrator`), together with the user-facing state machines
//! (`chat`, `settings`, `shell`), the configuration types (`config`), the
//! tool-server handshake commands (`commands`), the error taxonomy
//! (`error`) and the verified text helpers (`text`). Network, file and
//! process plumbing lives outside this crate; every function here is
//! specified and verified.

pub mod error;
pub mod models;
pub mod openai;
pub mod orchestrator;
pub mod anthropic;
pub mod chat;
pub mod commands;
pub mod config;
pub mod dispatch;
pub mod registry;
pub mod router;
pub mod settings;
pub mod shell;
pub mod text;
pub mod vllm;

pub use error::ApiError;
