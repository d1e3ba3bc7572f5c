//! The per-tick decision: compare a resolution against the remembered
//! address, keep the new one, and report what happened.

use crate::address::{trim_address, trimmed};
use vstd::prelude::*;

verus! {

/// Why a resolution attempt brought back no address.
#[derive(Clone, Debug)]
pub enum FetchError {
    /// The request did not complete (connection, transport or body error).
    Transport(String),
    /// The source answered with a status outside `200..=299`.
    Status(u16),
}

/// The answer of a source, turned into the outcome of a resolution: the
/// trimmed body on a success status, an error on any other.
pub fn resolution_from_response(status: u16, body: &str) -> (r: Result<String, FetchError>)
    ensures
        (200 <= status <= 299) <==> r is Ok,
        r is Ok ==> r->Ok_0@ == trimmed(body@),
        r is Err ==> r->Err_0 == FetchError::Status(status),
{
    if 200 <= status && status <= 299 {
        Ok(trim_address(body))
    } else {
        Err(FetchError::Status(status))
    }
}

/// What one tick found.
#[derive(Clone, Debug)]
pub enum TickReport {
    /// Resolution failed; the remembered address is kept.
    FetchFailed(FetchError),
    /// The address resolved equals the remembered one.
    Unchanged { address: String },
    /// The address resolved differs from the remembered one, which is now `current`.
    Changed { previous: String, current: String },
}

/// A resolution outcome as the model sees it: the raw answer, or nothing.
pub open spec fn fetched_view(f: Result<String, FetchError>) -> Option<Seq<char>> {
    match f {
        Ok(s) => Some(s@),
        Err(_) => None,
    }
}

/// Whether a tick that starts from `prev` and resolves `fetched` is a change.
pub open spec fn is_change(prev: Seq<char>, fetched: Option<Seq<char>>) -> bool {
    fetched is Some && trimmed(fetched->0) != prev
}

/// The remembered address after a tick that starts from `prev` and resolves
/// `fetched`.
pub open spec fn next_observed(prev: Seq<char>, fetched: Option<Seq<char>>) -> Seq<char> {
    if is_change(prev, fetched) {
        trimmed(fetched->0)
    } else {
        prev
    }
}

/// The remembered address after the ticks `ticks`, starting from `init`.
pub open spec fn run(init: Seq<char>, ticks: Seq<Option<Seq<char>>>) -> Seq<char>
    decreases ticks.len(),
{
    if ticks.len() == 0 {
        init
    } else {
        next_observed(run(init, ticks.drop_last()), ticks.last())
    }
}

/// How many of the ticks `ticks`, starting from `init`, report a change.
pub open spec fn change_count(init: Seq<char>, ticks: Seq<Option<Seq<char>>>) -> nat
    decreases ticks.len(),
{
    if ticks.len() == 0 {
        0
    } else {
        change_count(init, ticks.drop_last()) + if is_change(
            run(init, ticks.drop_last()),
            ticks.last(),
        ) {
            1nat
        } else {
            0nat
        }
    }
}

/// `n` ticks that each resolve the answer `a`.
pub open spec fn repeated(a: Seq<char>, n: nat) -> Seq<Option<Seq<char>>> {
    Seq::new(n, |i: int| Some(a))
}

/// Resolving the same answer tick after tick settles on its trimmed form at
/// the first tick, and no tick after that one reports a change.
pub proof fn lemma_repeated_answer_settles(init: Seq<char>, a: Seq<char>, n: nat)
    ensures
        n > 0 ==> run(init, repeated(a, n)) == trimmed(a),
        change_count(init, repeated(a, n)) == (if n > 0 && trimmed(a) != init {
            1nat
        } else {
            0nat
        }),
    decreases n,
{
    if n > 0 {
        assert(repeated(a, n).drop_last() =~= repeated(a, (n - 1) as nat));
        lemma_repeated_answer_settles(init, a, (n - 1) as nat);
    }
}

/// With `a` observed, the answers `a, a, b, b, a` (distinct once trimmed)
/// report a change exactly at the third and the fifth tick: two in all.
pub proof fn lemma_changes_at_transitions(a: Seq<char>, b: Seq<char>)
    requires
        trimmed(a) != trimmed(b),
    ensures
        ({
            let ticks = seq![Some(a), Some(a), Some(b), Some(b), Some(a)];
            &&& !is_change(run(trimmed(a), ticks.take(0)), ticks[0])
            &&& !is_change(run(trimmed(a), ticks.take(1)), ticks[1])
            &&& is_change(run(trimmed(a), ticks.take(2)), ticks[2])
            &&& !is_change(run(trimmed(a), ticks.take(3)), ticks[3])
            &&& is_change(run(trimmed(a), ticks.take(4)), ticks[4])
            &&& change_count(trimmed(a), ticks) == 2
            &&& run(trimmed(a), ticks) == trimmed(a)
        }),
{
    let ticks = seq![Some(a), Some(a), Some(b), Some(b), Some(a)];
    let init = trimmed(a);
    assert(ticks.take(4).drop_last() =~= ticks.take(3));
    assert(ticks.take(3).drop_last() =~= ticks.take(2));
    assert(ticks.take(2).drop_last() =~= ticks.take(1));
    assert(ticks.take(1).drop_last() =~= ticks.take(0));
    assert(ticks.drop_last() =~= ticks.take(4));
    assert(run(init, ticks.take(0)) == init);
    assert(change_count(init, ticks.take(0)) == 0);
    assert(run(init, ticks.take(1)) == init);
    assert(change_count(init, ticks.take(1)) == 0);
    assert(run(init, ticks.take(2)) == init);
    assert(change_count(init, ticks.take(2)) == 0);
    assert(run(init, ticks.take(3)) == trimmed(b));
    assert(change_count(init, ticks.take(3)) == 1);
    assert(run(init, ticks.take(4)) == trimmed(b));
    assert(change_count(init, ticks.take(4)) == 1);
}

/// A tick whose resolution fails leaves the observed address as it was and
/// reports no change.
pub proof fn lemma_failed_tick_keeps_state(init: Seq<char>, ticks: Seq<Option<Seq<char>>>)
    ensures
        run(init, ticks.push(None)) == run(init, ticks),
        change_count(init, ticks.push(None)) == change_count(init, ticks),
{
    assert(ticks.push(None).drop_last() =~= ticks);
}

/// Two answers with the same trimmed form make the same tick: the same
/// decision and the same remembered address.
pub proof fn lemma_same_trimmed_same_tick(prev: Seq<char>, x: Seq<char>, y: Seq<char>)
    requires
        trimmed(x) == trimmed(y),
    ensures
        is_change(prev, Some(x)) == is_change(prev, Some(y)),
        next_observed(prev, Some(x)) == next_observed(prev, Some(y)),
{
}

/// The loop's state: the last address observed, empty until the first
/// successful resolution.
pub struct ChangeMonitor {
    observed: String,
}

impl View for ChangeMonitor {
    type V = Seq<char>;

    closed spec fn view(&self) -> Seq<char> {
        self.observed@
    }
}

impl ChangeMonitor {
    /// A monitor that has observed nothing yet.
    pub fn new() -> (r: ChangeMonitor)
        ensures
            r@ == Seq::<char>::empty(),
    {
        ChangeMonitor { observed: String::new() }
    }

    /// The address observed last.
    pub fn observed(&self) -> (r: &str)
        ensures
            r@ == self@,
    {
        self.observed.as_str()
    }

    /// Takes the outcome of one resolution: remembers its trimmed value when
    /// it differs from the address observed so far, and reports the tick.
    pub fn on_resolution(&mut self, fetched: Result<String, FetchError>) -> (r: TickReport)
        ensures
            final(self)@ == next_observed(old(self)@, fetched_view(fetched)),
            fetched is Err ==> r == TickReport::FetchFailed(fetched->Err_0),
            fetched is Ok && !is_change(old(self)@, fetched_view(fetched)) ==> (r matches TickReport::Unchanged { address } && address@ == old(self)@),
            is_change(old(self)@, fetched_view(fetched)) ==> (r matches TickReport::Changed { previous, current } && previous@ == old(self)@ && current@ == final(self)@),
    {
        match fetched {
            Err(e) => TickReport::FetchFailed(e),
            Ok(raw) => {
                let current = trim_address(raw.as_str());
                if current == self.observed {
                    TickReport::Unchanged { address: current }
                } else {
                    let previous = self.observed.clone();
                    self.observed = current.clone();
                    TickReport::Changed { previous, current }
                }
            },
        }
    }
}

} // verus!
