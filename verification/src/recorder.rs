//! A renderer that writes nothing and records what it is asked to do: each
//! call it receives, in order, and how many items it has been shown.
//!
//! It has room for a number of items that is fixed when it is made, and
//! fails a print call that brings more.

use crate::diff::Diff;
use crate::engine::{MatchedNode, RuleHandle};
use crate::printer::{
    diff_items, extends_by_prefix, match_items, renders_in_order, rule_diff_items,
    rule_match_items, Printer, Rendered, Shown,
};
use codespan_reporting::files::SimpleFile;
use std::borrow::Cow;
use std::path::Path;
use vstd::prelude::*;
use vstd::std_specs::iter::IteratorSpec;

verus! {

/// One call that a renderer receives.
#[derive(Clone, Copy, Debug, PartialEq, Eq)]
pub enum Call {
    /// `before_print`
    BeforePrint,
    /// one of the four print operations
    Print,
    /// `after_print`
    AfterPrint,
}

/// A print call has brought more items than the recorder has room for.
#[derive(Debug, PartialEq, Eq)]
pub struct RecorderFull;

/// The recording renderer.
pub struct Recorder {
    /// The calls received, oldest first.
    pub calls: Vec<Call>,
    /// How many items have been shown.
    pub taken: usize,
    /// How many items can be shown in all.
    pub room: usize,
    /// The items shown, oldest first.
    pub shown: Ghost<Shown>,
}

/// `count` print calls in a row.
pub open spec fn print_calls(count: nat) -> Seq<Call> {
    Seq::new(count, |i: int| Call::Print)
}

/// The calls of a whole batch with `count` print calls.
pub open spec fn batch_calls(count: nat) -> Seq<Call> {
    seq![Call::BeforePrint] + print_calls(count) + seq![Call::AfterPrint]
}

impl Recorder {
    /// A recorder that has received no call, with room for `room` items.
    pub fn new(room: usize) -> (recorder: Self)
        ensures
            recorder.calls@ == Seq::<Call>::empty(),
            recorder.taken == 0,
            recorder.room == room,
            recorder.rendered() == Seq::<Rendered<'static>>::empty(),
    {
        Recorder { calls: Vec::new(), taken: 0, room, shown: Ghost(Seq::empty()) }
    }

    /// Takes the items one by one and shows each, as long as there is room.
    fn record<T, I: Iterator<Item = T>>(
        &mut self,
        items: I,
        Ghost(wrap): Ghost<spec_fn(T) -> Rendered<'static>>,
    ) -> (result: Result<(), RecorderFull>)
        ensures
            final(self).calls == old(self).calls,
            final(self).room == old(self).room,
            old(self).taken <= final(self).taken,
            final(self).taken - old(self).taken == final(self).shown@.len() - old(self).shown@.len(),
            items.obeys_prophetic_iter_laws() ==> {
                let all = items.remaining().map_values(wrap);
                &&& renders_in_order(old(self).shown@, final(self).shown@, all, result is Ok)
                &&& result is Ok <==> all.len() == 0 || old(self).taken + all.len() <= old(
                    self,
                ).room
            },
    {
        let ghost all = items.remaining().map_values(wrap);
        let ghost start = self.shown@;
        let ghost mut done: int = 0;
        let mut rest = items;
        loop
            invariant
                rest.obeys_prophetic_iter_laws() == items.obeys_prophetic_iter_laws(),
                all == items.remaining().map_values(wrap),
                start == old(self).shown@,
                self.calls == old(self).calls,
                self.room == old(self).room,
                self.taken == old(self).taken + done,
                0 <= done,
                self.shown@.len() == start.len() + done,
                done > 0 ==> self.taken <= self.room,
                rest.obeys_prophetic_iter_laws() ==> {
                    &&& done <= all.len()
                    &&& rest.remaining().map_values(wrap) == all.subrange(done, all.len() as int)
                    &&& self.shown@ == start + all.subrange(0, done)
                },
            decreases self.room - self.taken,
        {
            let ghost ahead = rest.remaining();
            match rest.next() {
                None => {
                    proof {
                        if rest.obeys_prophetic_iter_laws() {
                            assert(done == all.len());
                            assert(all.subrange(0, done) == all);
                            assert(extends_by_prefix(start, self.shown@, all, done));
                        }
                    }
                    return Ok(());
                },
                Some(item) => {
                    if self.taken >= self.room {
                        proof {
                            if rest.obeys_prophetic_iter_laws() {
                                assert(ahead.map_values(wrap).len() > 0);
                                assert(done < all.len());
                                assert(extends_by_prefix(start, self.shown@, all, done));
                                assert(self.shown@.len() < (start + all).len());
                            }
                        }
                        return Err(RecorderFull);
                    }
                    proof {
                        if rest.obeys_prophetic_iter_laws() {
                            assert(ahead.map_values(wrap)[0] == wrap(item));
                            assert(all.subrange(done, all.len() as int)[0] == all[done]);
                            assert(all[done] == wrap(item));
                            assert(all.subrange(0, done + 1) == all.subrange(0, done).push(
                                wrap(item),
                            ));
                            assert(rest.remaining().map_values(wrap) == all.subrange(
                                done + 1,
                                all.len() as int,
                            )) by {
                                assert(rest.remaining() == ahead.drop_first());
                                assert(ahead.drop_first().map_values(wrap) == ahead.map_values(
                                    wrap,
                                ).drop_first());
                            }
                        }
                        self.shown@ = self.shown@.push(wrap(item));
                        done = done + 1;
                    }
                    self.taken = self.taken + 1;
                },
            }
        }
    }
}

impl Printer for Recorder {
    type Error = RecorderFull;

    open spec fn rendered(&self) -> Shown {
        self.shown@
    }

    fn print_rule<'a, I: Iterator<Item = MatchedNode<'a>>>(
        &mut self,
        matches: I,
        file: SimpleFile<Cow<'a, str>, &'a String>,
        rule: RuleHandle<'a>,
    ) -> (result: Result<(), RecorderFull>)
        ensures
            final(self).calls@ == old(self).calls@.push(Call::Print),
            final(self).room == old(self).room,
            final(self).taken - old(self).taken == final(self).rendered().len() - old(
                self,
            ).rendered().len(),
            matches.obeys_prophetic_iter_laws() ==> (result is Ok <==> matches.remaining().len()
                == 0 || old(self).taken + matches.remaining().len() <= old(self).room),
    {
        self.calls.push(Call::Print);
        let ghost wrap = |m: MatchedNode<'a>| Rendered::RuleMatch { file, rule, node_match: m };
        proof {
            assert(matches.remaining().map_values(wrap) == rule_match_items(
                matches.remaining(),
                file,
                rule,
            ));
        }
        self.record(matches, Ghost(wrap))
    }

    fn print_matches<'a, I: Iterator<Item = MatchedNode<'a>>>(
        &mut self,
        matches: I,
        path: &Path,
    ) -> (result: Result<(), RecorderFull>)
        ensures
            final(self).calls@ == old(self).calls@.push(Call::Print),
            final(self).room == old(self).room,
            final(self).taken - old(self).taken == final(self).rendered().len() - old(
                self,
            ).rendered().len(),
            matches.obeys_prophetic_iter_laws() ==> (result is Ok <==> matches.remaining().len()
                == 0 || old(self).taken + matches.remaining().len() <= old(self).room),
    {
        self.calls.push(Call::Print);
        let ghost wrap = |m: MatchedNode<'a>| Rendered::Match { path, node_match: m };
        proof {
            assert(matches.remaining().map_values(wrap) == match_items(matches.remaining(), path));
        }
        self.record(matches, Ghost(wrap))
    }

    fn print_diffs<'a, I: Iterator<Item = Diff<'a>>>(&mut self, diffs: I, path: &Path) -> (result:
        Result<(), RecorderFull>)
        ensures
            final(self).calls@ == old(self).calls@.push(Call::Print),
            final(self).room == old(self).room,
            final(self).taken - old(self).taken == final(self).rendered().len() - old(
                self,
            ).rendered().len(),
            diffs.obeys_prophetic_iter_laws() ==> (result is Ok <==> diffs.remaining().len() == 0
                || old(self).taken + diffs.remaining().len() <= old(self).room),
    {
        self.calls.push(Call::Print);
        let ghost wrap = |d: Diff<'a>| Rendered::Diff { path, diff: d };
        proof {
            assert(diffs.remaining().map_values(wrap) == diff_items(diffs.remaining(), path));
        }
        self.record(diffs, Ghost(wrap))
    }

    fn print_rule_diffs<'a, I: Iterator<Item = Diff<'a>>>(
        &mut self,
        diffs: I,
        path: &Path,
        rule: RuleHandle<'a>,
    ) -> (result: Result<(), RecorderFull>)
        ensures
            final(self).calls@ == old(self).calls@.push(Call::Print),
            final(self).room == old(self).room,
            final(self).taken - old(self).taken == final(self).rendered().len() - old(
                self,
            ).rendered().len(),
            diffs.obeys_prophetic_iter_laws() ==> (result is Ok <==> diffs.remaining().len() == 0
                || old(self).taken + diffs.remaining().len() <= old(self).room),
    {
        self.calls.push(Call::Print);
        let ghost wrap = |d: Diff<'a>| Rendered::RuleDiff { path, rule, diff: d };
        proof {
            assert(diffs.remaining().map_values(wrap) == rule_diff_items(
                diffs.remaining(),
                path,
                rule,
            ));
        }
        self.record(diffs, Ghost(wrap))
    }

    fn before_print(&mut self) -> (result: Result<(), RecorderFull>)
        ensures
            result is Ok,
            final(self).calls@ == old(self).calls@.push(Call::BeforePrint),
            final(self).taken == old(self).taken,
            final(self).room == old(self).room,
    {
        self.calls.push(Call::BeforePrint);
        Ok(())
    }

    fn after_print(&mut self) -> (result: Result<(), RecorderFull>)
        ensures
            result is Ok,
            final(self).calls@ == old(self).calls@.push(Call::AfterPrint),
            final(self).taken == old(self).taken,
            final(self).room == old(self).room,
    {
        self.calls.push(Call::AfterPrint);
        Ok(())
    }
}

/// The hooks pair around every batch: among the calls of a batch with any
/// number of print calls, none included, `before_print` is the first call
/// and no other, `after_print` is the last call and no other, and all
/// between them are print calls.
pub proof fn lemma_hooks_pair(count: nat)
    ensures
        batch_calls(count).len() == count + 2,
        forall|i: int|
            0 <= i < batch_calls(count).len() ==> (#[trigger] batch_calls(count)[i]
                == Call::BeforePrint <==> i == 0),
        forall|i: int|
            0 <= i < batch_calls(count).len() ==> (#[trigger] batch_calls(count)[i]
                == Call::AfterPrint <==> i == count + 1),
        forall|i: int| 0 < i < count + 1 ==> #[trigger] batch_calls(count)[i] == Call::Print,
{
}

/// A log that has grown by `before_print`, then by `count` print calls, then
/// by `after_print`, has grown by the calls of a batch, and the hooks pair in
/// it.
pub proof fn lemma_batch_is_logged(
    start: Seq<Call>,
    opened: Seq<Call>,
    printed: Seq<Call>,
    done: Seq<Call>,
    count: nat,
)
    requires
        opened == start.push(Call::BeforePrint),
        printed == opened + print_calls(count),
        done == printed.push(Call::AfterPrint),
    ensures
        done == start + batch_calls(count),
        done[start.len() as int] == Call::BeforePrint,
        done[done.len() - 1] == Call::AfterPrint,
        forall|i: int|
            start.len() < i < done.len() - 1 ==> #[trigger] done[i] == Call::Print,
{
    lemma_hooks_pair(count);
    assert(done == start + batch_calls(count));
    assert forall|i: int| start.len() < i < done.len() - 1 implies #[trigger] done[i]
        == Call::Print by {
        assert(done[i] == batch_calls(count)[i - start.len()]);
    }
}

/// One more print call in a row is the row with a print call behind it.
pub proof fn lemma_one_more_print_call(count: nat)
    ensures
        print_calls(count + 1) == print_calls(count).push(Call::Print),
{
}

/// The batch without a print call is the two hooks and nothing else.
pub proof fn lemma_empty_batch()
    ensures
        batch_calls(0) == seq![Call::BeforePrint, Call::AfterPrint],
{
}

} // verus!
