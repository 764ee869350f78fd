//! Search patterns, compiled by the engine from source text.

use crate::engine::{
    compile_pattern, describe_refusal, engine_pattern, engine_refusal, SearchPattern,
};
use ast_grep_language::SupportLang;
use vstd::prelude::*;

verus! {

/// The engine has refused the source text of a pattern.
pub struct PatternRefused {
    /// The engine's message: what is wrong with the text.
    pub reason: String,
}

impl SearchPattern {
    /// Compiles `source` as a pattern of the language `lang`.
    ///
    /// Succeeds exactly where the engine does, with the engine's pattern; where
    /// the engine refuses the text the error holds the engine's message.
    pub fn try_new(source: &str, lang: SupportLang) -> (pattern: Result<Self, PatternRefused>)
        ensures
            match engine_pattern(source@, lang) {
                Ok(compiled) => pattern == Ok::<Self, PatternRefused>(compiled),
                Err(error) => pattern is Err && pattern->Err_0.reason@ == engine_refusal(error),
            },
    {
        match compile_pattern(source, lang) {
            Ok(compiled) => Ok(compiled),
            Err(error) => Err(PatternRefused { reason: describe_refusal(&error) }),
        }
    }
}

} // verus!
