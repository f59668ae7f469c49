//! The update scheduler: which line to publish on each event, so that the
//! window manager never receives the same line twice in a row, and how long
//! a notification banner stays up.

use vstd::prelude::*;
use crate::text::text_of;

verus! {

/// The longest time, in milliseconds, that a banner stays up.
pub const MAX_BANNER_MS: u64 = 10000;

/// The time, in milliseconds, between two polls of the sensors.
pub const POLL_INTERVAL_MS: u64 = 500;

/// A desktop notification: summary, body, and the requested display time in
/// milliseconds, negative for the default.
#[derive(Clone, Debug)]
pub struct Notification {
    pub summary: String,
    pub body: String,
    pub timeout: i32,
}

/// The state of the scheduler: idle, or showing a banner.
#[derive(Clone, Copy, Debug, PartialEq, Eq, Structural)]
pub enum Phase {
    Idle,
    BannerActive,
}

/// What to do when a notification arrives: publish the banner (unless it is
/// already the published line), then hold it for `sleep_ms` milliseconds.
#[derive(Clone, Debug)]
pub struct BannerPlan {
    pub publish: Option<String>,
    pub sleep_ms: u64,
}

/// How long a banner stays up: the requested time, or the ceiling where the
/// request is negative or above it.
pub open spec fn banner_ms(timeout: int) -> int {
    if timeout < 0 || timeout > MAX_BANNER_MS {
        MAX_BANNER_MS as int
    } else {
        timeout
    }
}

/// The banner line of a notification: its summary, a space, its body.
pub open spec fn banner_text(summary: Seq<char>, body: Seq<char>) -> Seq<char> {
    summary + " "@ + body
}

/// The line to hand to the publisher, if any: a candidate is published only
/// when it differs from the line last published.
pub open spec fn publish_step(published: Seq<char>, candidate: Seq<char>) -> Option<Seq<char>> {
    if candidate == published {
        None
    } else {
        Some(candidate)
    }
}

/// The lines published, in order, for a run of candidates, starting after
/// `published`.
pub open spec fn publications(published: Seq<char>, candidates: Seq<Seq<char>>) -> Seq<Seq<char>>
    decreases candidates.len(),
{
    if candidates.len() == 0 {
        Seq::empty()
    } else {
        let head = match publish_step(published, candidates[0]) {
            Some(line) => seq![line],
            None => Seq::empty(),
        };
        head + publications(candidates[0], candidates.skip(1))
    }
}

pub open spec fn string_opt_view(o: Option<String>) -> Option<Seq<char>> {
    match o {
        Some(s) => Some(s@),
        None => None,
    }
}

/// The display time of a banner, in milliseconds.
pub fn effective_timeout(timeout: i32) -> (r: u64)
    ensures
        r as int == banner_ms(timeout as int),
{
    if timeout < 0 || timeout as u64 > MAX_BANNER_MS {
        MAX_BANNER_MS
    } else {
        timeout as u64
    }
}

/// The banner line of a notification.
pub fn banner(n: &Notification) -> (r: String)
    ensures
        r@ == banner_text(n.summary@, n.body@),
{
    let mut r = n.summary.clone();
    r.append(" ");
    r.append(n.body.as_str());
    r
}

/// The decisions of the update loop. It remembers the line last published.
pub struct Scheduler {
    published: String,
    phase: Phase,
}

impl Scheduler {
    /// The line last handed to the publisher.
    pub closed spec fn last_published(&self) -> Seq<char> {
        self.published@
    }

    pub closed spec fn current_phase(&self) -> Phase {
        self.phase
    }

    /// An idle scheduler; the window title starts out empty.
    pub fn new() -> (r: Scheduler)
        ensures
            r.last_published() == Seq::<char>::empty(),
            r.current_phase() == Phase::Idle,
    {
        Scheduler { published: String::new(), phase: Phase::Idle }
    }

    pub fn phase(&self) -> (r: Phase)
        ensures
            r == self.current_phase(),
    {
        self.phase
    }

    /// The line last handed to the publisher.
    pub fn published(&self) -> (r: String)
        ensures
            r@ == self.last_published(),
    {
        self.published.clone()
    }

    fn offer(&mut self, candidate: String) -> (r: Option<String>)
        ensures
            string_opt_view(r) == publish_step(old(self).last_published(), candidate@),
            final(self).last_published() == candidate@,
            final(self).current_phase() == old(self).current_phase(),
    {
        if candidate == self.published {
            None
        } else {
            self.published = candidate.clone();
            Some(candidate)
        }
    }

    /// A notification arrived: show its banner and hold it for its display time.
    pub fn on_notification(&mut self, n: &Notification) -> (r: BannerPlan)
        ensures
            string_opt_view(r.publish) == publish_step(
                old(self).last_published(),
                banner_text(n.summary@, n.body@),
            ),
            final(self).last_published() == banner_text(n.summary@, n.body@),
            r.sleep_ms as int == banner_ms(n.timeout as int),
            final(self).current_phase() == Phase::BannerActive,
    {
        let line = banner(n);
        let publish = self.offer(line);
        self.phase = Phase::BannerActive;
        BannerPlan { publish, sleep_ms: effective_timeout(n.timeout) }
    }

    /// The sensors were read and composed into `candidate`: publish it if it
    /// changed. A banner that was up gives way to it.
    pub fn on_status(&mut self, candidate: String) -> (r: Option<String>)
        ensures
            string_opt_view(r) == publish_step(old(self).last_published(), candidate@),
            final(self).last_published() == candidate@,
            final(self).current_phase() == Phase::Idle,
    {
        let r = self.offer(candidate);
        self.phase = Phase::Idle;
        r
    }
}

/// The scheduler never publishes a line equal to the one it published just
/// before: the first publication differs from the line already shown, and
/// any two consecutive publications differ.
pub proof fn law_no_line_published_twice_in_a_row(published: Seq<char>, candidates: Seq<Seq<char>>)
    ensures
        publications(published, candidates).len() > 0 ==> publications(published, candidates)[0]
            != published,
        forall|i: int|
            0 <= i < publications(published, candidates).len() - 1 ==> #[trigger] publications(
                published,
                candidates,
            )[i] != publications(published, candidates)[i + 1],
    decreases candidates.len(),
{
    if candidates.len() > 0 {
        let c = candidates[0];
        let rest = candidates.skip(1);
        law_no_line_published_twice_in_a_row(c, rest);
        let tail = publications(c, rest);
        let all = publications(published, candidates);
        if c == published {
            assert(all =~= tail);
        } else {
            assert(all =~= seq![c] + tail);
            assert forall|i: int| 0 <= i < all.len() - 1 implies #[trigger] all[i] != all[i + 1] by {
                if i > 0 {
                    assert(all[i] == tail[i - 1]);
                    assert(all[i + 1] == tail[i]);
                }
            }
        }
    }
}

/// Offering the same line twice in a row publishes it at most once.
pub proof fn law_same_candidate_twice_publishes_once(published: Seq<char>, candidate: Seq<char>)
    ensures
        publish_step(candidate, candidate) is None,
        publications(published, seq![candidate, candidate]) == publications(published, seq![candidate]),
{
    let one = seq![candidate];
    let two = seq![candidate, candidate];
    assert(two.skip(1) =~= one);
    assert(one.skip(1) =~= Seq::<Seq<char>>::empty());
    assert(publications(candidate, Seq::<Seq<char>>::empty()) =~= Seq::<Seq<char>>::empty());
    assert(one[0] == candidate);
    assert(publications(candidate, one) =~= Seq::<Seq<char>>::empty() + publications(
        candidate,
        one.skip(1),
    ));
    assert(publications(candidate, one) =~= Seq::<Seq<char>>::empty());
}

/// A single-slot hand-off from the notification listener to the scheduler.
/// A notification that arrives before the previous one was taken replaces it.
pub struct Mailbox {
    slot: Option<Notification>,
}

impl Mailbox {
    /// The notification waiting to be taken, if any.
    pub closed spec fn pending(&self) -> Option<Notification> {
        self.slot
    }

    pub fn new() -> (r: Mailbox)
        ensures
            r.pending() is None,
    {
        Mailbox { slot: None }
    }

    /// Leaves a notification; the latest one wins.
    pub fn offer(&mut self, n: Notification)
        ensures
            final(self).pending() == Some(n),
    {
        self.slot = Some(n);
    }

    /// Takes the waiting notification, leaving the slot empty.
    pub fn take(&mut self) -> (r: Option<Notification>)
        ensures
            r == old(self).pending(),
            final(self).pending() is None,
    {
        let r = self.slot.take();
        r
    }
}

} // verus!
