use vstd::prelude::*;

use crate::checker::{loaded, status_of, step, Action, CheckerModel, Event};
use crate::error_log::failure_line;
use crate::normalize::normalized;
use crate::status::{status_settled, Status};

verus! {

/// The state after a sequence of events, applied one after another from `m`.
pub open spec fn run(m: CheckerModel, events: Seq<Event>) -> CheckerModel
    decreases events.len(),
{
    if events.len() == 0 {
        m
    } else {
        step(run(m, events.drop_last()), events.last()).0
    }
}

/// Every completion in `events` names an existing entry of a list of `n`.
pub open spec fn completions_within(events: Seq<Event>, n: int) -> bool {
    forall|k: int|
        0 <= k < events.len() ==> match #[trigger] events[k] {
            Event::Completed(i, _) => 0 <= i < n,
            _ => false,
        }
}

/// Entry `i` is named by some completion in `events`.
pub open spec fn completes(events: Seq<Event>, i: int) -> bool {
    exists|k: int|
        0 <= k < events.len() && match #[trigger] events[k] {
            Event::Completed(j, _) => j == i,
            _ => false,
        }
}

/// Starting a check marks the entry as being checked at once and sends one
/// probe to its normalized address; when the probe comes back the entry is
/// accessible on success, and on failure it is inaccessible with the reason
/// and the error log gains exactly one line naming the URL and the reason.
/// No other entry changes.
pub proof fn lemma_check_transitions(m: CheckerModel, i: int, result: Result<(), Seq<char>>)
    requires
        0 <= i < m.entries.len(),
    ensures
        ({
            let (started, action) = step(m, Event::CheckOne(i));
            let settled = step(started, Event::Completed(i, result)).0;
            let url = m.entries[i].0;
            &&& started.entries[i] == (url, Status::Checking)
            &&& action == Action::Probe(seq![(i, normalized(url))])
            &&& started.errors == m.errors
            &&& settled.entries.len() == m.entries.len()
            &&& forall|j: int|
                0 <= j < m.entries.len() && j != i ==> #[trigger] settled.entries[j] == m.entries[j]
            &&& match result {
                Ok(()) => settled.entries[i] == (url, Status::Accessible) && settled.errors
                    == m.errors,
                Err(reason) => settled.entries[i] == (url, Status::Inaccessible(reason))
                    && settled.errors == m.errors.push(failure_line(url, reason)),
            }
        }),
{
}

/// Completions keep the list's length and its URLs, set every entry they
/// name to a settled status, and leave every other entry as it was.
proof fn lemma_completions_settle(m: CheckerModel, events: Seq<Event>)
    requires
        completions_within(events, m.entries.len() as int),
    ensures
        run(m, events).entries.len() == m.entries.len(),
        forall|i: int|
            0 <= i < m.entries.len() ==> (#[trigger] run(m, events).entries[i]).0 == m.entries[i].0,
        forall|i: int|
            0 <= i < m.entries.len() && completes(events, i) ==> status_settled(
                #[trigger] run(m, events).entries[i].1,
            ),
        forall|i: int|
            0 <= i < m.entries.len() && !completes(events, i) ==> #[trigger] run(m, events).entries[i]
                == m.entries[i],
    decreases events.len(),
{
    if events.len() > 0 {
        let rest = events.drop_last();
        assert forall|k: int| 0 <= k < rest.len() implies match #[trigger] rest[k] {
            Event::Completed(i, _) => 0 <= i < m.entries.len(),
            _ => false,
        } by {
            assert(rest[k] == events[k]);
        }
        lemma_completions_settle(m, rest);
        let last = events.last();
        assert(match events[events.len() - 1] {
            Event::Completed(i, _) => 0 <= i < m.entries.len(),
            _ => false,
        });
        assert forall|i: int|
            0 <= i < m.entries.len() && completes(events, i) implies status_settled(
            #[trigger] run(m, events).entries[i].1,
        ) by {
            if !completes(rest, i) {
                let k = choose|k: int|
                    0 <= k < events.len() && match #[trigger] events[k] {
                        Event::Completed(j, _) => j == i,
                        _ => false,
                    };
                if k < rest.len() {
                    assert(rest[k] == events[k]);
                }
            }
        }
        assert forall|i: int|
            0 <= i < m.entries.len() && !completes(events, i) implies #[trigger] run(
            m,
            events,
        ).entries[i] == m.entries[i] by {
            if completes(rest, i) {
                let k = choose|k: int|
                    0 <= k < rest.len() && match #[trigger] rest[k] {
                        Event::Completed(j, _) => j == i,
                        _ => false,
                    };
                assert(rest[k] == events[k]);
            }
            assert(!match events[events.len() - 1] {
                Event::Completed(j, _) => j == i,
                _ => false,
            });
        }
    }
}

/// After checking all of `m`'s entries and then receiving completions, in
/// any order, that name every entry at least once, the list has as many
/// entries as before and every one of them is accessible or inaccessible:
/// none is left checking or not checked.
pub proof fn lemma_fan_out_settles(m: CheckerModel, completions: Seq<Event>)
    requires
        completions_within(completions, m.entries.len() as int),
        forall|i: int| 0 <= i < m.entries.len() ==> completes(completions, i),
    ensures
        ({
            let after = run(step(m, Event::CheckAll).0, completions);
            &&& after.entries.len() == m.entries.len()
            &&& forall|i: int|
                0 <= i < m.entries.len() ==> status_settled(#[trigger] after.entries[i].1)
        }),
{
    let started = step(m, Event::CheckAll).0;
    lemma_completions_settle(started, completions);
}

/// Resetting, whatever checks came before, asks for the URL list to be read
/// again; the state built from what was read then has every entry not
/// checked, in the order read, and an empty error log.
pub proof fn lemma_reset_clears(
    m: CheckerModel,
    history: Seq<Event>,
    source: Result<Seq<Seq<char>>, Seq<char>>,
)
    ensures
        step(run(m, history), Event::Reset).1 == Action::ReloadSource,
        loaded(source).errors.len() == 0,
        forall|i: int|
            0 <= i < loaded(source).entries.len() ==> (#[trigger] loaded(source).entries[i]).1
                == Status::NotChecked,
        match source {
            Ok(urls) => loaded(source).entries.len() == urls.len() && forall|i: int|
                0 <= i < urls.len() ==> (#[trigger] loaded(source).entries[i]).0 == urls[i],
            Err(_) => loaded(source).entries.len() == 0,
        },
{
}

/// Checking an entry again goes through checking once more and ends on the
/// status that the new outcome gives, whatever the entry's status was
/// before: two states that differ only there end up with the same entry.
pub proof fn lemma_recheck_ignores_prior_status(
    m1: CheckerModel,
    m2: CheckerModel,
    i: int,
    result: Result<(), Seq<char>>,
)
    requires
        0 <= i < m1.entries.len(),
        0 <= i < m2.entries.len(),
        m1.entries[i].0 == m2.entries[i].0,
    ensures
        step(m1, Event::CheckOne(i)).0.entries[i].1 == Status::Checking,
        run(m1, seq![Event::CheckOne(i), Event::Completed(i, result)]).entries[i] == (
            m1.entries[i].0,
            status_of(result),
        ),
        run(m1, seq![Event::CheckOne(i), Event::Completed(i, result)]).entries[i] == run(
            m2,
            seq![Event::CheckOne(i), Event::Completed(i, result)],
        ).entries[i],
{
    let evs = seq![Event::CheckOne(i), Event::Completed(i, result)];
    assert(evs.drop_last() =~= seq![Event::CheckOne(i)]);
    assert(seq![Event::CheckOne(i)].drop_last() =~= Seq::<Event>::empty());
    reveal_with_fuel(run, 3);
}

} // verus!
