//! A proposed edit: one matched node and the text that a rewrite puts in its
//! place.

use crate::engine::{
    engine_fill, engine_find, engine_has_list, engine_has_match, engine_template,
    engine_used_vars, fill_template, find_match, has_list, has_match, read_template, texts_in,
    used_variables, MatchedNode, SearchPattern,
};
use std::borrow::Cow;
use vstd::prelude::*;

verus! {

/// One matched node with its replacement text, fully resolved.
///
/// A `Diff` is made once, by [`Diff::generate`] or one of its companions, and
/// never changed afterwards.
pub struct Diff<'n> {
    /// the matched node
    pub node_match: MatchedNode<'n>,
    /// string content for the replacement
    pub replacement: Cow<'n, str>,
}

/// The match has captured something under `name`: one node, or a list of
/// nodes.
///
/// The two are not told apart. The engine fills `$NAME` from a node and
/// `$$$NAME` from a list, and says of a template only which names it uses,
/// not how it writes them. So a rewrite that writes a captured name in the
/// other form is taken as bound, and the engine puts nothing in its place.
pub open spec fn is_captured(node_match: MatchedNode<'_>, name: Seq<char>) -> bool {
    engine_has_match(node_match, name) || engine_has_list(node_match, name)
}

/// Every variable that the rewrite template names is one that the match has
/// captured.
pub open spec fn rewrite_is_bound(node_match: MatchedNode<'_>, rewrite: Seq<char>) -> bool {
    forall|name: Seq<char>| #[trigger]
        engine_used_vars(engine_template(node_match, rewrite)).contains(name) ==> is_captured(
            node_match,
            name,
        )
}

/// The text of the edit of `node_match` under `matcher` and `rewrite`.
///
/// The engine looks for the first node at or below `node_match` that
/// `matcher` matches and fills the rewrite with what it captured there. There
/// is no edit where `matcher` matches nothing, nor where the rewrite names a
/// variable that was not captured.
pub open spec fn edit_text(
    node_match: MatchedNode<'_>,
    matcher: SearchPattern,
    rewrite: Seq<char>,
) -> Option<Seq<char>> {
    match engine_find(node_match, matcher) {
        Some(found) => if rewrite_is_bound(found, rewrite) {
            Some(engine_fill(found, rewrite))
        } else {
            None
        },
        None => None,
    }
}

/// Tells whether every variable that `rewrite` names is one that
/// `node_match` has captured.
pub fn is_rewrite_bound(node_match: &MatchedNode<'_>, rewrite: &str) -> (bound: bool)
    ensures
        bound == rewrite_is_bound(*node_match, rewrite@),
{
    let template = read_template(node_match, rewrite);
    let names = used_variables(&template);
    let ghost used = engine_used_vars(engine_template(*node_match, rewrite@));
    let mut i: usize = 0;
    while i < names.len()
        invariant
            i <= names.len(),
            texts_in(names@) == used,
            used == engine_used_vars(engine_template(*node_match, rewrite@)),
            forall|j: int| 0 <= j < i ==> is_captured(*node_match, #[trigger] names[j]@),
        decreases names.len() - i,
    {
        let name = names[i].as_str();
        if !has_match(node_match, name) && !has_list(node_match, name) {
            assert(used.contains(names[i as int]@));
            return false;
        }
        i += 1;
    }
    assert forall|name: Seq<char>| #[trigger] used.contains(name) implies is_captured(
        *node_match,
        name,
    ) by {
        let j = choose|j: int| 0 <= j < names.len() && #[trigger] names[j]@ == name;
        assert(is_captured(*node_match, names[j]@));
    }
    true
}

impl<'n> Diff<'n> {
    /// `self` pairs `node_match` with the text that the engine's replacement
    /// of `node_match` under `matcher` and `rewrite` inserts.
    pub open spec fn is_generated_from(
        self,
        node_match: MatchedNode<'n>,
        matcher: SearchPattern,
        rewrite: Seq<char>,
    ) -> bool {
        &&& self.node_match == node_match
        &&& edit_text(node_match, matcher, rewrite) == Some(self.replacement@)
    }

    /// Builds the diff from the text of the edit of `node_match`.
    ///
    /// The edit must exist: asking for a diff of a node that has no edit is
    /// a mistake of the caller.
    pub fn from_edit(node_match: MatchedNode<'n>, edit: Option<String>) -> (diff: Self)
        requires
            edit is Some,
        ensures
            diff.node_match == node_match,
            diff.replacement == Cow::<'n, str>::Owned(edit->0),
    {
        let text = edit.unwrap();
        Diff { node_match, replacement: Cow::Owned(text) }
    }

    /// Computes the replacement of `node_match` under `matcher` and `rewrite`
    /// and returns it with the node.
    ///
    /// Meant for nodes that `matcher` has matched and for rewrites that name
    /// only what it has captured: a node that `matcher` does not match has
    /// no edit, nor has a rewrite that names another variable, and to ask for
    /// either is a mistake of the caller. Where this is not known beforehand,
    /// use [`Diff::try_generate`].
    pub fn generate(node_match: MatchedNode<'n>, matcher: &SearchPattern, rewrite: &str) -> (diff:
        Self)
        requires
            edit_text(node_match, *matcher, rewrite@) is Some,
        ensures
            diff.is_generated_from(node_match, *matcher, rewrite@),
    {
        let found = find_match(&node_match, matcher).unwrap();
        Self::from_found(node_match, &found, rewrite)
    }

    /// The diff of `node_match` whose text is `rewrite` filled with what
    /// `found` has captured.
    fn from_found(node_match: MatchedNode<'n>, found: &MatchedNode<'n>, rewrite: &str) -> (diff:
        Self)
        ensures
            diff.node_match == node_match,
            diff.replacement@ == engine_fill(*found, rewrite@),
    {
        let text = fill_template(found, rewrite);
        Self::from_edit(node_match, Some(text))
    }

    /// As [`Diff::generate`], for any node and any rewrite: `None` exactly
    /// where there is no edit. Searches once.
    pub fn try_generate(node_match: MatchedNode<'n>, matcher: &SearchPattern, rewrite: &str) -> (diff:
        Option<Self>)
        ensures
            diff is Some <==> edit_text(node_match, *matcher, rewrite@) is Some,
            diff is Some ==> diff->0.is_generated_from(node_match, *matcher, rewrite@),
    {
        match find_match(&node_match, matcher) {
            Some(found) => {
                if is_rewrite_bound(&found, rewrite) {
                    Some(Self::from_found(node_match, &found, rewrite))
                } else {
                    None
                }
            },
            None => None,
        }
    }
}

impl<'n> Clone for Diff<'n> {
    fn clone(&self) -> (copy: Self)
        ensures
            copy == *self,
    {
        let replacement = match &self.replacement {
            Cow::Borrowed(text) => Cow::Borrowed(*text),
            Cow::Owned(text) => Cow::Owned(text.clone()),
        };
        Diff { node_match: self.node_match.clone(), replacement }
    }
}

/// Generating is a function of its inputs: two diffs generated from the same
/// node, matcher and rewrite carry the same node and the same replacement
/// text.
pub proof fn lemma_generate_is_deterministic<'n>(
    first: Diff<'n>,
    second: Diff<'n>,
    node_match: MatchedNode<'n>,
    matcher: SearchPattern,
    rewrite: Seq<char>,
)
    requires
        first.is_generated_from(node_match, matcher, rewrite),
        second.is_generated_from(node_match, matcher, rewrite),
    ensures
        first.node_match == second.node_match,
        first.replacement@ == second.replacement@,
{
}

/// A rewrite that names a variable which the matcher has not captured has
/// no edit, whatever the engine would put in the variable's place.
pub proof fn lemma_unbound_variable_has_no_edit(
    node_match: MatchedNode<'_>,
    matcher: SearchPattern,
    rewrite: Seq<char>,
    found: MatchedNode<'_>,
    name: Seq<char>,
)
    requires
        engine_find(node_match, matcher) == Some(found),
        engine_used_vars(engine_template(found, rewrite)).contains(name),
        !is_captured(found, name),
    ensures
        edit_text(node_match, matcher, rewrite) is None,
{
}

/// A node that the matcher does not match, at or below, has no edit.
pub proof fn lemma_unmatched_node_has_no_edit(
    node_match: MatchedNode<'_>,
    matcher: SearchPattern,
    rewrite: Seq<char>,
)
    requires
        engine_find(node_match, matcher) is None,
    ensures
        edit_text(node_match, matcher, rewrite) is None,
{
}

} // verus!
