//! Chat prompts: a conversation of role-tagged messages rendered into the
//! single string a text-generation model expects, in one of several
//! model-specific layouts.

pub mod context;
pub mod engine;
pub mod error;
pub mod laws;
pub mod message;
pub mod template;

pub use error::{
    ApplyChatMLTemplateError, ApplyMistralInstructTemplateError, ApplyTAIDETemplateError,
    ApplyTemplateError,
};
pub use message::Message;
pub use template::{apply_template, ChatTemplate};
