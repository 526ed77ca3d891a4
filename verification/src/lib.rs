//! Decision logic for agent sessions: discovery of Meta models, mailbox tools
//! for agent teams, and the choice of an image generation service.

pub mod agent_collaboration;
pub mod endpoint;
pub mod entry_map;
pub mod fingerprint;
pub mod image_generation_provider;
pub mod mailbox;
pub mod meta_models;
pub mod model_entry;
pub mod redaction;
pub mod text;
