//! The contract between whoever finds matches and whoever shows them.
//!
//! A renderer receives matches or proposed edits one at a time, from a
//! sequence that it walks once, front to back. What it has shown is modelled
//! as a sequence of [`Rendered`] items: the contract says how each call
//! extends that sequence, and nothing of the bytes that reach a terminal or a
//! file.

use crate::diff::Diff;
use crate::engine::{MatchedNode, RuleHandle};
use codespan_reporting::files::SimpleFile;
use std::borrow::Cow;
use std::path::Path;
use vstd::prelude::*;
use vstd::std_specs::iter::IteratorSpec;

verus! {

/// `std::path::Path`, carried through to the renderers. Opaque.
#[verifier::external_type_specification]
#[verifier::external_body]
pub struct ExPath(Path);

/// `codespan_reporting::files::SimpleFile`: a display name and the whole
/// source text of a file, carried through to the renderers. Opaque.
#[verifier::external_type_specification]
#[verifier::external_body]
#[verifier::reject_recursive_types(Name)]
#[verifier::reject_recursive_types(Source)]
pub struct ExSimpleFile<Name, Source>(SimpleFile<Name, Source>);

/// One item that a renderer has shown, with the file it was shown for.
pub enum Rendered<'a> {
    /// A match reported for a rule.
    RuleMatch {
        file: SimpleFile<Cow<'a, str>, &'a String>,
        rule: RuleHandle<'a>,
        node_match: MatchedNode<'a>,
    },
    /// A match of an ad hoc search.
    Match { path: &'a Path, node_match: MatchedNode<'a> },
    /// A proposed edit of an ad hoc rewrite.
    Diff { path: &'a Path, diff: Diff<'a> },
    /// A proposed edit attributed to a rule.
    RuleDiff { path: &'a Path, rule: RuleHandle<'a>, diff: Diff<'a> },
}

/// What a renderer has shown: its items, oldest first.
pub type Shown = Seq<Rendered<'static>>;

/// The items that showing `matches` for `rule` in `file` adds, in the order
/// of `matches`.
pub open spec fn rule_match_items<'a>(
    matches: Seq<MatchedNode<'a>>,
    file: SimpleFile<Cow<'a, str>, &'a String>,
    rule: RuleHandle<'a>,
) -> Seq<Rendered<'a>> {
    matches.map_values(|m: MatchedNode<'a>| Rendered::RuleMatch { file, rule, node_match: m })
}

/// The items that showing `matches` for the file at `path` adds, in the
/// order of `matches`.
pub open spec fn match_items<'a>(matches: Seq<MatchedNode<'a>>, path: &'a Path) -> Seq<
    Rendered<'a>,
> {
    matches.map_values(|m: MatchedNode<'a>| Rendered::Match { path, node_match: m })
}

/// The items that showing `diffs` for the file at `path` adds, in the order
/// of `diffs`.
pub open spec fn diff_items<'a>(diffs: Seq<Diff<'a>>, path: &'a Path) -> Seq<Rendered<'a>> {
    diffs.map_values(|d: Diff<'a>| Rendered::Diff { path, diff: d })
}

/// The items that showing `diffs` for `rule` and the file at `path` adds, in
/// the order of `diffs`.
pub open spec fn rule_diff_items<'a>(
    diffs: Seq<Diff<'a>>,
    path: &'a Path,
    rule: RuleHandle<'a>,
) -> Seq<Rendered<'a>> {
    diffs.map_values(|d: Diff<'a>| Rendered::RuleDiff { path, rule, diff: d })
}

/// `after` is `before` followed by the first `shown` of `items`.
pub open spec fn extends_by_prefix<'a>(
    before: Seq<Rendered<'a>>,
    after: Seq<Rendered<'a>>,
    items: Seq<Rendered<'a>>,
    shown: int,
) -> bool {
    &&& 0 <= shown <= items.len()
    &&& after == before + items.subrange(0, shown)
}

/// What one print call does to the items shown: it adds `items` front to back
/// and stops nowhere but at the end, unless it fails, and then it has added
/// the items up to some point and none after it.
pub open spec fn renders_in_order<'a>(
    before: Seq<Rendered<'a>>,
    after: Seq<Rendered<'a>>,
    items: Seq<Rendered<'a>>,
    succeeded: bool,
) -> bool {
    &&& exists|shown: int| #[trigger] extends_by_prefix(before, after, items, shown)
    &&& succeeded ==> after == before + items
    &&& items.len() == 0 ==> succeeded
}

/// A way of showing matches and proposed edits: a coloured report, an
/// interactive session, a stream of records.
///
/// Whoever drives a renderer calls `before_print` once, then any number of the
/// four print operations, then `after_print` once, and does so also where
/// there is nothing to print. [`crate::batch::Batch`] drives a renderer so.
///
/// The clauses on the print operations bind the renderer for every sequence
/// that ends: for one that does not keep the laws of iterators nothing is
/// promised.
pub trait Printer: Sized {
    /// How rendering fails: an I/O or a formatting fault, say.
    type Error;

    /// The items shown so far, oldest first. Each renderer says here what
    /// its output refers to.
    spec fn rendered(&self) -> Shown;

    /// Shows the matches that `rule` reported in `file`, in the order in which
    /// `matches` yields them, each with the rule it is reported for.
    fn print_rule<'a, I: Iterator<Item = MatchedNode<'a>>>(
        &mut self,
        matches: I,
        file: SimpleFile<Cow<'a, str>, &'a String>,
        rule: RuleHandle<'a>,
    ) -> (result: Result<(), Self::Error>)
        ensures
            matches.obeys_prophetic_iter_laws() ==> renders_in_order(
                old(self).rendered(),
                final(self).rendered(),
                rule_match_items(matches.remaining(), file, rule),
                result is Ok,
            ),
    ;

    /// Shows the matches of an ad hoc search in the file at `path`, in the
    /// order in which `matches` yields them.
    fn print_matches<'a, I: Iterator<Item = MatchedNode<'a>>>(
        &mut self,
        matches: I,
        path: &Path,
    ) -> (result: Result<(), Self::Error>)
        ensures
            matches.obeys_prophetic_iter_laws() ==> renders_in_order(
                old(self).rendered(),
                final(self).rendered(),
                match_items(matches.remaining(), path),
                result is Ok,
            ),
    ;

    /// Shows the edits proposed for the file at `path`, in the order in which
    /// `diffs` yields them.
    fn print_diffs<'a, I: Iterator<Item = Diff<'a>>>(&mut self, diffs: I, path: &Path) -> (result:
        Result<(), Self::Error>)
        ensures
            diffs.obeys_prophetic_iter_laws() ==> renders_in_order(
                old(self).rendered(),
                final(self).rendered(),
                diff_items(diffs.remaining(), path),
                result is Ok,
            ),
    ;

    /// Shows the edits that `rule` proposes for the file at `path`, in the
    /// order in which `diffs` yields them, each with the rule.
    fn print_rule_diffs<'a, I: Iterator<Item = Diff<'a>>>(
        &mut self,
        diffs: I,
        path: &Path,
        rule: RuleHandle<'a>,
    ) -> (result: Result<(), Self::Error>)
        ensures
            diffs.obeys_prophetic_iter_laws() ==> renders_in_order(
                old(self).rendered(),
                final(self).rendered(),
                rule_diff_items(diffs.remaining(), path, rule),
                result is Ok,
            ),
    ;

    /// Called once before the print operations of a batch. A renderer may
    /// open here what spans the batch; it shows no item. Does nothing unless
    /// the renderer says otherwise.
    #[inline]
    fn before_print(&mut self) -> (result: Result<(), Self::Error>)
        ensures
            final(self).rendered() == old(self).rendered(),
        default_ensures
            result is Ok,
            *final(self) == *old(self),
    {
        Ok(())
    }

    /// Called once after the print operations of a batch. A renderer may
    /// close here what `before_print` opened; it shows no item. Does nothing
    /// unless the renderer says otherwise.
    #[inline]
    fn after_print(&mut self) -> (result: Result<(), Self::Error>)
        ensures
            final(self).rendered() == old(self).rendered(),
        default_ensures
            result is Ok,
            *final(self) == *old(self),
    {
        Ok(())
    }
}

/// A print call that is handed nothing succeeds and shows nothing.
pub proof fn lemma_empty_input_shows_nothing<'a>(
    before: Seq<Rendered<'a>>,
    after: Seq<Rendered<'a>>,
    items: Seq<Rendered<'a>>,
    succeeded: bool,
)
    requires
        renders_in_order(before, after, items, succeeded),
        items.len() == 0,
    ensures
        succeeded,
        after == before,
{
    assert(before + items == before);
}

/// A print call leaves what was shown before it in place and adds the items
/// it was handed in their own order, without a gap: whatever stands at place
/// `i` behind the old items is the `i`-th item handed in. A call that
/// succeeds has added them all.
pub proof fn lemma_items_shown_in_order<'a>(
    before: Seq<Rendered<'a>>,
    after: Seq<Rendered<'a>>,
    items: Seq<Rendered<'a>>,
    succeeded: bool,
)
    requires
        renders_in_order(before, after, items, succeeded),
    ensures
        before.len() <= after.len() <= before.len() + items.len(),
        succeeded ==> after.len() == before.len() + items.len(),
        forall|i: int| 0 <= i < before.len() ==> after[i] == before[i],
        forall|i: int| 0 <= i < after.len() - before.len() ==> after[before.len() + i] == items[i],
{
    let shown = choose|shown: int| #[trigger] extends_by_prefix(before, after, items, shown);
    assert(after == before + items.subrange(0, shown));
}

/// Matches come out in the order in which they were yielded: after a print
/// call that succeeded, the `i`-th match handed in stands at place `i` behind
/// the old items, so an earlier match is always shown before a later one.
pub proof fn lemma_matches_shown_in_yield_order<'a>(
    before: Seq<Rendered<'a>>,
    after: Seq<Rendered<'a>>,
    matches: Seq<MatchedNode<'a>>,
    path: &'a Path,
    i: int,
)
    requires
        renders_in_order(before, after, match_items(matches, path), true),
        0 <= i < matches.len(),
    ensures
        after.len() == before.len() + matches.len(),
        after[before.len() + i] == (Rendered::Match { path, node_match: matches[i] }),
{
    lemma_items_shown_in_order(before, after, match_items(matches, path), true);
}

/// Edits come out in the order in which they were yielded, as matches do.
pub proof fn lemma_diffs_shown_in_yield_order<'a>(
    before: Seq<Rendered<'a>>,
    after: Seq<Rendered<'a>>,
    diffs: Seq<Diff<'a>>,
    path: &'a Path,
    i: int,
)
    requires
        renders_in_order(before, after, diff_items(diffs, path), true),
        0 <= i < diffs.len(),
    ensures
        after.len() == before.len() + diffs.len(),
        after[before.len() + i] == (Rendered::Diff { path, diff: diffs[i] }),
{
    lemma_items_shown_in_order(before, after, diff_items(diffs, path), true);
}

/// Two print calls that succeed, one after the other, show what one call
/// with both inputs in a row would show.
pub proof fn lemma_calls_compose<'a>(
    start: Seq<Rendered<'a>>,
    middle: Seq<Rendered<'a>>,
    end: Seq<Rendered<'a>>,
    first: Seq<Rendered<'a>>,
    second: Seq<Rendered<'a>>,
)
    requires
        renders_in_order(start, middle, first, true),
        renders_in_order(middle, end, second, true),
    ensures
        renders_in_order(start, end, first + second, true),
{
    let all = first + second;
    assert(end == start + all);
    assert(all.subrange(0, all.len() as int) == all);
    assert(extends_by_prefix(start, end, all, all.len() as int));
}

} // verus!
