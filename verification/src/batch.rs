//! One batch of printing: the calls that a renderer receives from start to
//! end.
//!
//! A renderer is meant to see `before_print` once, then the print calls, then
//! `after_print` once, also where there is nothing to print. A [`Batch`] is
//! made by the first hook, forwards the print calls and is used up by the
//! second hook. The contracts of its two ends name the hook that was called
//! and hand on whatever the renderer promises of it; the print calls in
//! between hand on what every renderer promises of a print call.

use crate::diff::Diff;
use crate::engine::{MatchedNode, RuleHandle};
use crate::printer::{
    diff_items, match_items, renders_in_order, rule_diff_items, rule_match_items, Printer,
};
use codespan_reporting::files::SimpleFile;
use std::borrow::Cow;
use std::path::Path;
use vstd::prelude::*;
use vstd::std_specs::iter::IteratorSpec;

verus! {

/// Makes `call` on the renderer, once.
fn call_on<P, R, F: FnOnce(&mut P) -> R>(call: F, printer: &mut P) -> (result: R)
    requires
        forall|taken: &mut P| #[trigger] call_requires(call, (taken,)),
    ensures
        exists|taken: &mut P|
            *taken == *old(printer) && *final(taken) == *final(printer) && #[trigger] call_ensures(
                call,
                (taken,),
                result,
            ),
{
    call(printer)
}

/// A batch that has begun and not ended: a renderer that has received
/// `before_print` and, since then, print calls only.
pub struct Batch<P: Printer> {
    printer: P,
}

impl<P: Printer> Batch<P> {
    /// The renderer of the batch, as it stands.
    pub closed spec fn printer(&self) -> P {
        self.printer
    }

    /// What becomes of a renderer that `before_print` has left as `printer`
    /// with `outcome`: a batch where the hook succeeded, else the renderer
    /// and the failure.
    pub open spec fn opens(
        batch: Result<Self, (P, P::Error)>,
        printer: P,
        outcome: Result<(), P::Error>,
    ) -> bool {
        match outcome {
            Ok(_) => batch is Ok && batch->Ok_0.printer() == printer,
            Err(error) => batch == Err::<Self, (P, P::Error)>((printer, error)),
        }
    }

    /// The batch of a renderer whose first hook has returned `outcome`.
    fn opened(printer: P, outcome: Result<(), P::Error>) -> (batch: Result<Self, (P, P::Error)>)
        ensures
            Self::opens(batch, printer, outcome),
    {
        match outcome {
            Ok(_) => Ok(Batch { printer }),
            Err(error) => Err((printer, error)),
        }
    }

    /// Begins a batch: calls `before_print` on the renderer, once. Where the
    /// hook fails there is no batch: the renderer comes back with the
    /// failure.
    pub fn begin(printer: P) -> (batch: Result<Self, (P, P::Error)>)
        ensures
            exists|taken: &mut P, outcome: Result<(), P::Error>|
                *taken == printer && #[trigger] call_ensures(P::before_print, (taken,), outcome)
                    && Self::opens(batch, *final(taken), outcome),
            batch is Ok ==> batch->Ok_0.printer().rendered() == printer.rendered(),
            batch is Err ==> batch->Err_0.0.rendered() == printer.rendered(),
    {
        let ghost before = printer;
        let mut printer = printer;
        let outcome = call_on(P::before_print, &mut printer);
        let ghost after = printer;
        let ghost taken = choose|taken: &mut P|
            *taken == before && *final(taken) == after && #[trigger] call_ensures(
                P::before_print,
                (taken,),
                outcome,
            );
        let batch = Self::opened(printer, outcome);
        assert(*taken == before);
        assert(call_ensures(P::before_print, (taken,), outcome));
        assert(Self::opens(batch, *final(taken), outcome));
        batch
    }

    /// Forwards to [`Printer::print_rule`]: one print call.
    pub fn print_rule<'a, I: Iterator<Item = MatchedNode<'a>>>(
        &mut self,
        matches: I,
        file: SimpleFile<Cow<'a, str>, &'a String>,
        rule: RuleHandle<'a>,
    ) -> (result: Result<(), P::Error>)
        ensures
            matches.obeys_prophetic_iter_laws() ==> renders_in_order(
                old(self).printer().rendered(),
                final(self).printer().rendered(),
                rule_match_items(matches.remaining(), file, rule),
                result is Ok,
            ),
    {
        self.printer.print_rule(matches, file, rule)
    }

    /// Forwards to [`Printer::print_matches`]: one print call.
    pub fn print_matches<'a, I: Iterator<Item = MatchedNode<'a>>>(
        &mut self,
        matches: I,
        path: &'a Path,
    ) -> (result: Result<(), P::Error>)
        ensures
            matches.obeys_prophetic_iter_laws() ==> renders_in_order(
                old(self).printer().rendered(),
                final(self).printer().rendered(),
                match_items(matches.remaining(), path),
                result is Ok,
            ),
    {
        self.printer.print_matches(matches, path)
    }

    /// Forwards to [`Printer::print_diffs`]: one print call.
    pub fn print_diffs<'a, I: Iterator<Item = Diff<'a>>>(
        &mut self,
        diffs: I,
        path: &'a Path,
    ) -> (result: Result<(), P::Error>)
        ensures
            diffs.obeys_prophetic_iter_laws() ==> renders_in_order(
                old(self).printer().rendered(),
                final(self).printer().rendered(),
                diff_items(diffs.remaining(), path),
                result is Ok,
            ),
    {
        self.printer.print_diffs(diffs, path)
    }

    /// Forwards to [`Printer::print_rule_diffs`]: one print call.
    pub fn print_rule_diffs<'a, I: Iterator<Item = Diff<'a>>>(
        &mut self,
        diffs: I,
        path: &'a Path,
        rule: RuleHandle<'a>,
    ) -> (result: Result<(), P::Error>)
        ensures
            diffs.obeys_prophetic_iter_laws() ==> renders_in_order(
                old(self).printer().rendered(),
                final(self).printer().rendered(),
                rule_diff_items(diffs.remaining(), path, rule),
                result is Ok,
            ),
    {
        self.printer.print_rule_diffs(diffs, path, rule)
    }

    /// Ends the batch: calls `after_print` on the renderer, once, and hands
    /// the renderer back with what the hook returned.
    pub fn finish(self) -> (done: (P, Result<(), P::Error>))
        ensures
            exists|taken: &mut P|
                *taken == self.printer() && *final(taken) == done.0 && #[trigger] call_ensures(
                    P::after_print,
                    (taken,),
                    done.1,
                ),
            done.0.rendered() == self.printer().rendered(),
    {
        let ghost before = self.printer;
        let mut printer = self.printer;
        let result = call_on(P::after_print, &mut printer);
        let ghost taken = choose|taken: &mut P|
            *taken == before && *final(taken) == printer && #[trigger] call_ensures(
                P::after_print,
                (taken,),
                result,
            );
        let done = (printer, result);
        assert(*taken == before);
        assert(*final(taken) == done.0);
        assert(call_ensures(P::after_print, (taken,), done.1));
        done
    }
}

} // verus!
