//! Foreground-application watch for per-app profile switching: the
//! frontend is told the executable name of the focused application each
//! time it changes.

use vstd::prelude::*;
use crate::text::str_eq;

verus! {

/// Event carrying the lowercased executable file name of the new
/// foreground application.
pub const FOREGROUND_EVENT: &'static str = "foreground:changed";

/// How often the foreground window is polled.
pub const POLL_INTERVAL_MS: u64 = 750;

pub struct ForegroundWatch {
    last: String,
}

impl ForegroundWatch {
    /// The name last reported.
    pub closed spec fn last(&self) -> Seq<char> {
        self.last@
    }

    pub fn new() -> (w: ForegroundWatch)
        ensures
            w.last() == Seq::<char>::empty(),
    {
        ForegroundWatch { last: String::new() }
    }

    /// Records the current foreground name; true when it differs from the
    /// last one, i.e. when the change is to be reported.
    pub fn observe(&mut self, name: &str) -> (changed: bool)
        ensures
            changed == (name@ != old(self).last()),
            final(self).last() == name@,
    {
        if str_eq(name, self.last.as_str()) {
            false
        } else {
            self.last = String::from_str(name);
            true
        }
    }

    /// One poll of the foreground application (`None` when it could not be
    /// read): the name to report, if any, and the new state.
    pub fn poll(&mut self, polled: Option<&str>) -> (r: Option<String>)
        ensures
            opt_view(r) == step_report(old(self).last(), polled_view(polled)),
            final(self).last() == step_last(old(self).last(), polled_view(polled)),
    {
        match polled {
            None => None,
            Some(name) => {
                if self.observe(name) {
                    Some(String::from_str(name))
                } else {
                    None
                }
            },
        }
    }
}

/// The text of a polled name, if one was read.
pub open spec fn polled_view(p: Option<&str>) -> Option<Seq<char>> {
    match p {
        Some(n) => Some(n@),
        None => None,
    }
}

/// The text of a reported name, if one was reported.
pub open spec fn opt_view(r: Option<String>) -> Option<Seq<char>> {
    match r {
        Some(n) => Some(n@),
        None => None,
    }
}

/// What one poll reports, given the name last seen: the polled name when it
/// differs from that one.
pub open spec fn step_report(last: Seq<char>, p: Option<Seq<char>>) -> Option<Seq<char>> {
    match p {
        Some(n) => if n != last {
            Some(n)
        } else {
            None
        },
        None => None,
    }
}

/// The name last seen after one poll.
pub open spec fn step_last(last: Seq<char>, p: Option<Seq<char>>) -> Seq<char> {
    match p {
        Some(n) => n,
        None => last,
    }
}

/// The name last seen after a run of polls, starting from `last`.
pub open spec fn last_after(last: Seq<char>, polls: Seq<Option<Seq<char>>>) -> Seq<char>
    decreases polls.len(),
{
    if polls.len() == 0 {
        last
    } else {
        step_last(last_after(last, polls.drop_last()), polls.last())
    }
}

/// Everything a run of polls reports, in order, starting from `last`.
pub open spec fn reports(last: Seq<char>, polls: Seq<Option<Seq<char>>>) -> Seq<Seq<char>>
    decreases polls.len(),
{
    if polls.len() == 0 {
        Seq::empty()
    } else {
        let before = reports(last, polls.drop_last());
        match step_report(last_after(last, polls.drop_last()), polls.last()) {
            Some(n) => before.push(n),
            None => before,
        }
    }
}

/// The names that were read, in order.
pub open spec fn names_read(polls: Seq<Option<Seq<char>>>) -> Seq<Seq<char>>
    decreases polls.len(),
{
    if polls.len() == 0 {
        Seq::empty()
    } else {
        match polls.last() {
            Some(n) => names_read(polls.drop_last()).push(n),
            None => names_read(polls.drop_last()),
        }
    }
}

/// The latest of `names`, or `prev` when there is none.
pub open spec fn latest(prev: Seq<char>, names: Seq<Seq<char>>) -> Seq<char> {
    if names.len() == 0 {
        prev
    } else {
        names.last()
    }
}

/// `names` with every name dropped that equals the one kept before it
/// (`prev` before the first).
pub open spec fn without_repeats(prev: Seq<char>, names: Seq<Seq<char>>) -> Seq<Seq<char>>
    decreases names.len(),
{
    if names.len() == 0 {
        Seq::empty()
    } else {
        let kept = without_repeats(prev, names.drop_last());
        if names.last() == latest(prev, kept) {
            kept
        } else {
            kept.push(names.last())
        }
    }
}

proof fn latest_kept(prev: Seq<char>, names: Seq<Seq<char>>)
    ensures
        latest(prev, without_repeats(prev, names)) == latest(prev, names),
    decreases names.len(),
{
    if names.len() > 0 {
        latest_kept(prev, names.drop_last());
    }
}

proof fn kept_never_repeat(prev: Seq<char>, names: Seq<Seq<char>>)
    ensures
        ({
            let r = without_repeats(prev, names);
            &&& r.len() > 0 ==> r[0] != prev
            &&& forall|i: int| 0 <= i < r.len() - 1 ==> #[trigger] r[i] != r[i + 1]
        }),
    decreases names.len(),
{
    if names.len() > 0 {
        kept_never_repeat(prev, names.drop_last());
        let kept = without_repeats(prev, names.drop_last());
        let r = without_repeats(prev, names);
        if r != kept {
            assert(r == kept.push(names.last()));
            assert forall|i: int| 0 <= i < r.len() - 1 implies #[trigger] r[i] != r[i + 1] by {
                if i + 1 == kept.len() {
                    assert(r[i] == kept.last());
                } else {
                    assert(r[i] == kept[i] && r[i + 1] == kept[i + 1]);
                }
            }
        }
    }
}

/// A run of polls reports exactly the names read, each one dropped that
/// equals the name seen just before it (the initial name before the first),
/// and afterwards the watch holds the latest name read. So every change of
/// the focused application is reported once: no report equals the one
/// before it, and the first differs from the initial name.
pub proof fn watch_reports_each_change_once(last: Seq<char>, polls: Seq<Option<Seq<char>>>)
    ensures
        reports(last, polls) == without_repeats(last, names_read(polls)),
        last_after(last, polls) == latest(last, names_read(polls)),
        reports(last, polls).len() > 0 ==> reports(last, polls)[0] != last,
        forall|i: int|
            0 <= i < reports(last, polls).len() - 1 ==> #[trigger] reports(last, polls)[i]
                != reports(last, polls)[i + 1],
    decreases polls.len(),
{
    if polls.len() > 0 {
        let dl = polls.drop_last();
        watch_reports_each_change_once(last, dl);
        latest_kept(last, names_read(dl));
        match polls.last() {
            Some(n) => {
                assert(names_read(polls).drop_last() == names_read(dl));
            },
            None => {},
        }
    }
    kept_never_repeat(last, names_read(polls));
}

/// Polling once more extends the reports by what that poll reports from
/// the name seen so far.
pub proof fn reports_extend(last: Seq<char>, polls: Seq<Option<Seq<char>>>, p: Option<Seq<char>>)
    ensures
        reports(last, polls.push(p)) == match step_report(last_after(last, polls), p) {
            Some(n) => reports(last, polls).push(n),
            None => reports(last, polls),
        },
        last_after(last, polls.push(p)) == step_last(last_after(last, polls), p),
{
    assert(polls.push(p).drop_last() == polls);
}

} // verus!
