//! The change-detection accumulator: it keeps the last observed star and
//! fork counters and, for each new snapshot, reports what changed.

use vstd::prelude::*;

use crate::decimal::{dec_str, u32_to_decimal};

verus! {

/// The integer width of a tracked counter.
pub type Metric = u32;

/// One inbound observation of the two tracked counters.
#[derive(Clone, Copy)]
pub struct GithubRecord {
    pub stars: Metric,
    pub forks: Metric,
}

/// The outgoing notification: a display string describing what changed.
pub struct GithubOutgoing {
    pub result: String,
}

/// The line reporting a new fork count.
pub open spec fn fork_note(forks: Metric) -> Seq<char> {
    ":flags: "@ + dec_str(forks as nat)
}

/// The line reporting a new star count.
pub open spec fn star_note(stars: Metric) -> Seq<char> {
    ":star2: "@ + dec_str(stars as nat)
}

/// The combined message when both counters changed: forks first, then stars.
pub open spec fn both_note(stars: Metric, forks: Metric) -> Seq<char> {
    fork_note(forks) + " \n"@ + star_note(stars)
}

/// Renders [`fork_note`].
fn render_fork_note(forks: Metric) -> (s: String)
    ensures
        s@ == fork_note(forks),
{
    let mut s = String::from_str(":flags: ");
    let digits = u32_to_decimal(forks);
    s.append(digits.as_str());
    s
}

/// Renders [`star_note`].
fn render_star_note(stars: Metric) -> (s: String)
    ensures
        s@ == star_note(stars),
{
    let mut s = String::from_str(":star2: ");
    let digits = u32_to_decimal(stars);
    s.append(digits.as_str());
    s
}

/// Renders [`both_note`].
fn render_both_note(stars: Metric, forks: Metric) -> (s: String)
    ensures
        s@ == both_note(stars, forks),
{
    let mut s = render_fork_note(forks);
    s.append(" \n");
    let star_line = render_star_note(stars);
    s.append(star_line.as_str());
    s
}

/// The abstract state of an accumulator: the stored baseline counters, and
/// whether a baseline has been observed at all (`seen` is false only in the
/// cold-start posture, before any snapshot was accepted).
pub struct StarsForksView {
    pub seen: bool,
    pub stars: Metric,
    pub forks: Metric,
}

/// The baseline after an accepted snapshot: the snapshot's counters, observed.
pub open spec fn after_update(stars: Metric, forks: Metric) -> StarsForksView {
    StarsForksView { seen: true, stars, forks }
}

/// The notification, if any, that a snapshot `(stars, forks)` produces
/// against the baseline `v`: nothing on a cold start or when nothing
/// changed, otherwise the line(s) for the changed counter(s), with the fork
/// line before the star line when both changed.
pub open spec fn note_for(v: StarsForksView, stars: Metric, forks: Metric) -> Option<Seq<char>> {
    if !v.seen {
        None
    } else if stars != v.stars && forks != v.forks {
        Some(both_note(stars, forks))
    } else if forks != v.forks {
        Some(fork_note(forks))
    } else if stars != v.stars {
        Some(star_note(stars))
    } else {
        None
    }
}

/// Accumulator for stars and forks: it owns the last observed baseline and
/// compares every new snapshot against it.
///
/// The pair is updated under one exclusive borrow, so the compare-and-set of
/// the two counters is atomic; a host that shares one accumulator across
/// threads must guard it with a lock of its own.
pub struct StarsForks {
    stars: Metric,
    forks: Metric,
    seen: bool,
}

impl View for StarsForks {
    type V = StarsForksView;

    closed spec fn view(&self) -> StarsForksView {
        StarsForksView { seen: self.seen, stars: self.stars, forks: self.forks }
    }
}

impl StarsForks {
    /// A zeroed accumulator: the baseline is a legitimate `(0, 0)` snapshot.
    pub fn new() -> (s: Self)
        ensures
            s@ == after_update(0, 0),
    {
        Self { stars: 0, forks: 0, seen: true }
    }

    /// A cold accumulator: no snapshot has been observed yet, and the very
    /// first one is adopted silently as the baseline.
    pub fn new_cold() -> (s: Self)
        ensures
            s@ == (StarsForksView { seen: false, stars: 0, forks: 0 }),
    {
        Self { stars: 0, forks: 0, seen: false }
    }

    /// The stored star counter.
    pub fn get_stars(&self) -> (r: Metric)
        ensures
            r == self@.stars,
    {
        self.stars
    }

    /// Stores a star counter; the value counts as an observed baseline.
    pub fn set_stars(&mut self, new: Metric)
        ensures
            final(self)@ == (StarsForksView { seen: true, stars: new, forks: old(self)@.forks }),
    {
        self.stars = new;
        self.seen = true;
    }

    /// The stored fork counter.
    pub fn get_forks(&self) -> (r: Metric)
        ensures
            r == self@.forks,
    {
        self.forks
    }

    /// Stores a fork counter; the value counts as an observed baseline.
    pub fn set_forks(&mut self, new: Metric)
        ensures
            final(self)@ == (StarsForksView { seen: true, stars: old(self)@.stars, forks: new }),
    {
        self.forks = new;
        self.seen = true;
    }

    /// Seeds the baseline from a snapshot, unconditionally and silently.
    pub fn set_both(&mut self, github_record: GithubRecord)
        ensures
            final(self)@ == after_update(github_record.stars, github_record.forks),
    {
        self.set_stars(github_record.stars);
        self.set_forks(github_record.forks);
    }

    /// Compares `new` against the stored baseline, stores `new`, and returns
    /// the notification that [`note_for`] prescribes: nothing on a cold
    /// start or when nothing changed, otherwise exactly the line(s) for the
    /// changed counter(s).
    pub fn update_and_generate_moji_string(&mut self, new: &GithubRecord) -> (r: Option<
        GithubOutgoing,
    >)
        ensures
            final(self)@ == after_update(new.stars, new.forks),
            match r {
                Some(out) => note_for(old(self)@, new.stars, new.forks) == Some(out.result@),
                None => note_for(old(self)@, new.stars, new.forks) is None,
            },
    {
        if !self.seen {
            // Cold start: adopt the first snapshot without a notification.
            self.set_both(*new);
            return None;
        }
        let current_stars = self.get_stars();
        let current_forks = self.get_forks();

        if new.stars != current_stars && new.forks != current_forks {
            let emoji = GithubOutgoing { result: render_both_note(new.stars, new.forks) };
            self.set_forks(new.forks);
            self.set_stars(new.stars);
            Some(emoji)
        } else if new.forks != current_forks {
            let emoji = GithubOutgoing { result: render_fork_note(new.forks) };
            self.set_forks(new.forks);
            Some(emoji)
        } else if new.stars != current_stars {
            let emoji = GithubOutgoing { result: render_star_note(new.stars) };
            self.set_stars(new.stars);
            Some(emoji)
        } else {
            // No changes.
            None
        }
    }
}

impl Default for StarsForks {
    /// Same as [`StarsForks::new`]: the zeroed posture.
    fn default() -> (s: Self)
        ensures
            s@ == after_update(0, 0),
    {
        StarsForks::new()
    }
}

/// Law: updating twice in a row with the same snapshot notifies at most on
/// the first call — and exactly then, when the snapshot differs from an
/// observed baseline — while the second call reports nothing, and the
/// baseline equals the snapshot after either call.
pub proof fn lemma_update_idempotent(v: StarsForksView, stars: Metric, forks: Metric)
    ensures
        v.seen && (stars != v.stars || forks != v.forks) ==> note_for(v, stars, forks) is Some,
        note_for(after_update(stars, forks), stars, forks) is None,
        after_update(stars, forks).stars == stars,
        after_update(stars, forks).forks == forks,
{
}

/// Law: a snapshot equal to an observed baseline produces no notification
/// and leaves the baseline unchanged.
pub proof fn lemma_noop_on_equal(v: StarsForksView)
    requires
        v.seen,
    ensures
        note_for(v, v.stars, v.forks) is None,
        after_update(v.stars, v.forks) == v,
{
}

/// Law: when only the fork counter differs, the notification is exactly the
/// fork line — the star counter is not mentioned — and the stored star
/// counter is unchanged.
pub proof fn lemma_fork_change_isolated(v: StarsForksView, forks: Metric)
    requires
        v.seen,
        forks != v.forks,
    ensures
        note_for(v, v.stars, forks) == Some(fork_note(forks)),
        after_update(v.stars, forks).stars == v.stars,
{
}

/// Law: when only the star counter differs, the notification is exactly the
/// star line — the fork counter is not mentioned — and the stored fork
/// counter is unchanged.
pub proof fn lemma_star_change_isolated(v: StarsForksView, stars: Metric)
    requires
        v.seen,
        stars != v.stars,
    ensures
        note_for(v, stars, v.forks) == Some(star_note(stars)),
        after_update(stars, v.forks).forks == v.forks,
{
}

/// Law: when both counters differ, the notification mentions both, the fork
/// line before the star line.
pub proof fn lemma_both_change_combined(v: StarsForksView, stars: Metric, forks: Metric)
    requires
        v.seen,
        stars != v.stars,
        forks != v.forks,
    ensures
        note_for(v, stars, forks) == Some(fork_note(forks) + " \n"@ + star_note(stars)),
{
}

/// Law: the very first snapshot on a cold accumulator never produces a
/// notification, whatever its values, and becomes the observed baseline.
pub proof fn lemma_cold_start_suppression(v: StarsForksView, stars: Metric, forks: Metric)
    requires
        !v.seen,
    ensures
        note_for(v, stars, forks) is None,
        after_update(stars, forks) == (StarsForksView { seen: true, stars, forks }),
{
}

} // verus!
