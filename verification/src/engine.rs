//! The boundary to the matching engine.
//!
//! Everything the engine owns stays opaque here: a matched node, a compiled
//! pattern, a rewrite template and a rule are carried through unread. What
//! the engine is asked to compute is given a name, one for each of its
//! functions, so that the rest of the crate can speak of it exactly.

use ast_grep_config::RuleConfig;
use ast_grep_core::replacer::TemplateFix;
use ast_grep_core::tree_sitter::StrDoc;
use ast_grep_core::{NodeMatch, Pattern, PatternError};
use ast_grep_language::SupportLang;
use vstd::prelude::*;

verus! {

/// A node of a parsed source file that satisfied a search, together with what
/// the search captured.
///
/// Holds the engine's `NodeMatch` over a string document in one of the
/// languages of `SupportLang`. The verifier is told nothing of what is
/// inside: two values are equal only where it can see that they are the same.
#[verifier::external_body]
pub struct MatchedNode<'n> {
    /// The engine's own value, for the renderers and the engine to read.
    pub inner: NodeMatch<'n, StrDoc<SupportLang>>,
}

/// The rule that a match is reported for: its id, its message and its
/// severity live in the engine's `RuleConfig`, which is borrowed here and
/// handed to the renderers unread.
#[verifier::external_body]
pub struct RuleHandle<'r> {
    /// The engine's own value.
    pub inner: &'r RuleConfig<SupportLang>,
}

/// A search pattern that the engine has compiled from source text.
///
/// Holds the engine's `Pattern`. The field is private and
/// [`SearchPattern::try_new`] is the only way to a value, so every pattern
/// in use has passed the engine's own checks: it stands for one syntax node
/// and is no bare `$$$`, which the engine's search cannot take.
#[verifier::external_body]
pub struct SearchPattern {
    inner: Pattern,
}

/// `ast_grep_language::SupportLang`, the language of a source text. Opaque.
#[verifier::external_type_specification]
#[verifier::external_body]
pub struct ExSupportLang(SupportLang);

/// `ast_grep_core::PatternError`, why the engine refused a pattern. Opaque.
#[verifier::external_type_specification]
#[verifier::external_body]
pub struct ExPatternError(PatternError);

/// `ast_grep_core::replacer::TemplateFix`, a rewrite template split into its
/// text and its variables. Opaque.
#[verifier::external_type_specification]
#[verifier::external_body]
pub struct ExTemplateFix(TemplateFix);

/// What `Pattern::try_new` of the engine yields for a source text and a
/// language: the compiled pattern, or why there is none.
pub uninterp spec fn engine_pattern(source: Seq<char>, lang: SupportLang) -> Result<
    SearchPattern,
    PatternError,
>;

/// The message that the engine's `PatternError` displays.
pub uninterp spec fn engine_refusal(error: PatternError) -> Seq<char>;

/// What `Node::find` of the engine yields for a matched node and a pattern:
/// the first node at or below the matched node, in the engine's order of
/// walking the tree, that the pattern matches, with what the pattern
/// captured there; `None` where the pattern matches none.
pub uninterp spec fn engine_find(node_match: MatchedNode<'_>, matcher: SearchPattern) -> Option<
    MatchedNode<'_>,
>;

/// The text that `NodeMatch::replace_by` of the engine inserts for a match
/// and a rewrite template: the template with each variable replaced by what
/// the match captured under its name, indented as the match is.
pub uninterp spec fn engine_fill(found: MatchedNode<'_>, rewrite: Seq<char>) -> Seq<char>;

/// How `TemplateFix::with_transform` of the engine reads a rewrite template
/// in the language of a matched node, with no transformed variable.
pub uninterp spec fn engine_template(node_match: MatchedNode<'_>, rewrite: Seq<char>) -> TemplateFix;

/// The names that `TemplateFix::used_vars` of the engine finds in a
/// template: those of its `$NAME` and `$$$NAME`.
pub uninterp spec fn engine_used_vars(template: TemplateFix) -> Set<Seq<char>>;

/// Whether `MetaVarEnv::get_match` of the engine finds a node for `name`
/// among the captures of a matched node.
pub uninterp spec fn engine_has_match(node_match: MatchedNode<'_>, name: Seq<char>) -> bool;

/// Whether `MetaVarEnv::get_labels` of the engine finds a list of nodes for
/// `name` among the captures of a matched node: the list that a `$$$NAME` of
/// the pattern was bound to, which may be empty.
pub uninterp spec fn engine_has_list(node_match: MatchedNode<'_>, name: Seq<char>) -> bool;

/// The texts that occur in a list of strings.
pub open spec fn texts_in(names: Seq<String>) -> Set<Seq<char>> {
    Set::new(|text: Seq<char>| exists|i: int| 0 <= i < names.len() && #[trigger] names[i]@ == text)
}

/// Calls `ast_grep_core::Pattern::try_new`.
///
/// Trusted: the result is the engine's answer for this text and language.
#[verifier::external_body]
pub(crate) fn compile_pattern(source: &str, lang: SupportLang) -> (compiled: Result<
    SearchPattern,
    PatternError,
>)
    ensures
        compiled == engine_pattern(source@, lang),
{
    match Pattern::try_new(source, lang) {
        Ok(inner) => Ok(SearchPattern { inner }),
        Err(error) => Err(error),
    }
}

/// Formats a `PatternError` through its `Display` impl.
///
/// Trusted: the result is the engine's message for this error.
#[verifier::external_body]
pub(crate) fn describe_refusal(error: &PatternError) -> (message: String)
    ensures
        message@ == engine_refusal(*error),
{
    format!("{error}")
}

/// Calls `ast_grep_core::Node::find` on the matched node, with the pattern
/// as the matcher.
///
/// Trusted: the result is the engine's find for these arguments.
#[verifier::external_body]
pub(crate) fn find_match<'n>(node_match: &MatchedNode<'n>, matcher: &SearchPattern) -> (found:
    Option<MatchedNode<'n>>)
    ensures
        found == engine_find(*node_match, *matcher),
{
    match node_match.inner.find(&matcher.inner) {
        Some(inner) => Some(MatchedNode { inner }),
        None => None,
    }
}

/// Calls `ast_grep_core::NodeMatch::replace_by` on the match, with the
/// template as the replacer, and keeps the inserted text of the edit that
/// comes back.
///
/// Trusted: the result is the engine's text for these arguments. The engine
/// returns the text as the bytes of a string document, which are read back
/// as a string.
#[verifier::external_body]
pub(crate) fn fill_template(found: &MatchedNode<'_>, rewrite: &str) -> (text: String)
    ensures
        text@ == engine_fill(*found, rewrite@),
{
    String::from_utf8_lossy(&found.inner.replace_by(rewrite).inserted_text).into_owned()
}

/// Calls `ast_grep_core::replacer::TemplateFix::with_transform` with the
/// language of the matched node and no transformed variable, as the engine
/// does when it fills a template given as text.
///
/// Trusted: the result is the engine's reading of the template.
#[verifier::external_body]
pub(crate) fn read_template(node_match: &MatchedNode<'_>, rewrite: &str) -> (template: TemplateFix)
    ensures
        template == engine_template(*node_match, rewrite@),
{
    TemplateFix::with_transform(rewrite, node_match.inner.lang(), &[])
}

/// Calls `TemplateFix::used_vars` and copies the names out of the set that
/// comes back.
///
/// Trusted: the names returned are the engine's, each at least once; the
/// order in which they come is left open.
#[verifier::external_body]
pub(crate) fn used_variables(template: &TemplateFix) -> (names: Vec<String>)
    ensures
        texts_in(names@) == engine_used_vars(*template),
{
    template.used_vars().into_iter().map(String::from).collect()
}

/// Calls `MetaVarEnv::get_match` on the captures of the matched node.
///
/// Trusted: the result says whether the engine found a node.
#[verifier::external_body]
pub(crate) fn has_match(node_match: &MatchedNode<'_>, name: &str) -> (found: bool)
    ensures
        found == engine_has_match(*node_match, name@),
{
    node_match.inner.get_env().get_match(name).is_some()
}

/// Calls `MetaVarEnv::get_labels` on the captures of the matched node.
///
/// Trusted: the result says whether the engine found a list.
#[verifier::external_body]
pub(crate) fn has_list(node_match: &MatchedNode<'_>, name: &str) -> (found: bool)
    ensures
        found == engine_has_list(*node_match, name@),
{
    node_match.inner.get_env().get_labels(name).is_some()
}

impl<'n> Clone for MatchedNode<'n> {
    /// Calls `NodeMatch::clone`, which copies the handle to the node and the
    /// captures.
    ///
    /// Trusted: the copy is the same matched node.
    #[verifier::external_body]
    fn clone(&self) -> (copy: Self)
        ensures
            copy == *self,
    {
        MatchedNode { inner: self.inner.clone() }
    }
}

} // verus!
