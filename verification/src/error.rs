//! The typed failures of rendering.
//!
//! Each carries the engine's error under the step that failed: adding the
//! template, getting it back, or rendering it.

use vstd::prelude::*;

verus! {

/// Why applying the ChatML template failed.
#[derive(Debug)]
pub enum ApplyChatMLTemplateError {
    AddTemplateError(minijinja::Error),
    GetTemplateError(minijinja::Error),
    RenderTemplateError(minijinja::Error),
}

/// Why applying the Mistral instruct template failed.
#[derive(Debug)]
pub enum ApplyMistralInstructTemplateError {
    AddTemplateError(minijinja::Error),
    GetTemplateError(minijinja::Error),
    RenderTemplateError(minijinja::Error),
}

/// Why applying the TAIDE template failed.
#[derive(Debug)]
pub enum ApplyTAIDETemplateError {
    AddTemplateError(minijinja::Error),
    GetTemplateError(minijinja::Error),
    RenderTemplateError(minijinja::Error),
}

/// Why `apply_template` failed: the failure of the template that was asked for.
#[derive(Debug)]
pub enum ApplyTemplateError {
    ApplyChatMLTemplateError(ApplyChatMLTemplateError),
    ApplyMistralInstructTemplateError(ApplyMistralInstructTemplateError),
    ApplyTAIDETemplateError(ApplyTAIDETemplateError),
}

} // verus!
