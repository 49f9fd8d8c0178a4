//! Waiting for a destroyed window to give its label back.
//!
//! The label of a window is released only when the event loop has processed
//! its destruction, which happens after the call that destroys it has
//! returned. Building a window under the same label straight away would fail,
//! so the caller polls the label until it is free or a deadline has passed.
//!
//! Times are nanoseconds on a monotonic clock of the caller's.

use vstd::prelude::*;

verus! {

/// How long to wait for a label before giving up on the rebuild.
pub const LABEL_RELEASE_TIMEOUT: u64 = 2_000_000_000;

/// How long to sleep between two looks at the label.
pub const LABEL_RELEASE_POLL: u64 = 10_000_000;

/// The wait for one label.
#[derive(Debug, Clone, Copy, PartialEq, Eq)]
pub struct LabelRelease {
    pub deadline: u64,
}

/// What a look at the label leads to.
#[derive(Debug, PartialEq, Eq)]
pub enum ReleasePoll<E> {
    /// The label is free.
    Released,
    /// The label is still taken and the deadline has passed.
    TimedOut(E),
    /// The label is still taken: sleep this long and look again.
    Sleep(u64),
}

impl View for ReleasePoll<String> {
    type V = ReleasePoll<Seq<char>>;

    open spec fn view(&self) -> ReleasePoll<Seq<char>> {
        match self {
            ReleasePoll::Released => ReleasePoll::Released,
            ReleasePoll::TimedOut(error) => ReleasePoll::TimedOut(error@),
            ReleasePoll::Sleep(time) => ReleasePoll::Sleep(*time),
        }
    }
}

/// The error of a wait that has timed out.
pub open spec fn not_released(label: Seq<char>) -> Seq<char> {
    "window `"@ + label + "` did not release its label after destroy"@
}

/// What a look at the label at time `now` leads to. A free label counts even
/// when the deadline has passed.
pub open spec fn poll_result(deadline: u64, label: Seq<char>, taken: bool, now: u64) -> ReleasePoll<
    Seq<char>,
> {
    if !taken {
        ReleasePoll::Released
    } else if now >= deadline {
        ReleasePoll::TimedOut(not_released(label))
    } else {
        ReleasePoll::Sleep(LABEL_RELEASE_POLL)
    }
}

impl LabelRelease {
    /// Begin to wait at time `now`, when the call that destroys the window
    /// has returned. An error of that call does not matter: the window may
    /// already be half-destroyed, in which case its label is on its way out
    /// and waiting is still the right move.
    pub fn after_destroy(_destroyed: &Result<(), String>, now: u64) -> (wait: LabelRelease)
        requires
            now + LABEL_RELEASE_TIMEOUT <= u64::MAX,
        ensures
            wait.deadline == now + LABEL_RELEASE_TIMEOUT,
    {
        LabelRelease { deadline: now + LABEL_RELEASE_TIMEOUT }
    }

    /// Decide from a look at the label at time `now`.
    pub fn poll(&self, label: &str, taken: bool, now: u64) -> (result: ReleasePoll<String>)
        ensures
            result@ == poll_result(self.deadline, label@, taken, now),
            result is Released <==> !taken,
            result is TimedOut <==> taken && now >= self.deadline,
            result is Sleep <==> taken && now < self.deadline,
            result matches ReleasePoll::Sleep(time) ==> time == LABEL_RELEASE_POLL,
            result matches ReleasePoll::TimedOut(error) ==> error@ == "window `"@ + label@
                + "` did not release its label after destroy"@,
    {
        if !taken {
            return ReleasePoll::Released;
        }
        if now >= self.deadline {
            let mut error = "window `".to_string();
            error.append(label);
            error.append("` did not release its label after destroy");
            return ReleasePoll::TimedOut(error);
        }
        ReleasePoll::Sleep(LABEL_RELEASE_POLL)
    }
}

/// One look at the label: whether it is still taken, and when that was seen.
pub struct Look {
    pub taken: bool,
    pub now: u64,
}

/// Whether a look ends the wait.
pub open spec fn ends_wait(deadline: u64, look: Look) -> bool {
    !look.taken || look.now >= deadline
}

/// How a wait ends: with the first look that does not lead to another sleep;
/// `None` while every look does.
pub open spec fn wait_outcome(deadline: u64, label: Seq<char>, looks: Seq<Look>) -> Option<
    Result<(), Seq<char>>,
>
    decreases looks.len(),
{
    if looks.len() == 0 {
        None
    } else {
        match poll_result(deadline, label, looks[0].taken, looks[0].now) {
            ReleasePoll::Released => Some(Ok(())),
            ReleasePoll::TimedOut(error) => Some(Err(error)),
            ReleasePoll::Sleep(_) => wait_outcome(deadline, label, looks.skip(1)),
        }
    }
}

/// The first look that finds the label free or the deadline passed decides:
/// the wait succeeds exactly when that look finds the label free.
pub proof fn the_first_ending_look_decides(
    deadline: u64,
    label: Seq<char>,
    looks: Seq<Look>,
    i: int,
)
    requires
        0 <= i < looks.len(),
        ends_wait(deadline, looks[i]),
        forall|j: int| 0 <= j < i ==> !ends_wait(deadline, #[trigger] looks[j]),
    ensures
        wait_outcome(deadline, label, looks) == Some(
            if looks[i].taken {
                Err::<(), Seq<char>>(not_released(label))
            } else {
                Ok(())
            },
        ),
    decreases i,
{
    if i > 0 {
        assert(!ends_wait(deadline, looks[0]));
        assert forall|j: int| 0 <= j < i - 1 implies !ends_wait(
            deadline,
            #[trigger] looks.skip(1)[j],
        ) by {
            assert(looks.skip(1)[j] == looks[j + 1]);
        }
        the_first_ending_look_decides(deadline, label, looks.skip(1), i - 1);
    }
}

/// The wait goes on for as long as every look finds the label taken before
/// the deadline.
pub proof fn a_taken_label_is_waited_for(deadline: u64, label: Seq<char>, looks: Seq<Look>)
    requires
        forall|j: int| 0 <= j < looks.len() ==> !ends_wait(deadline, #[trigger] looks[j]),
    ensures
        wait_outcome(deadline, label, looks) is None,
    decreases looks.len(),
{
    if looks.len() > 0 {
        assert(!ends_wait(deadline, looks[0]));
        assert forall|j: int| 0 <= j < looks.skip(1).len() implies !ends_wait(
            deadline,
            #[trigger] looks.skip(1)[j],
        ) by {
            assert(looks.skip(1)[j] == looks[j + 1]);
        }
        a_taken_label_is_waited_for(deadline, label, looks.skip(1));
    }
}

/// Every sleep is one poll interval, whatever the deadline, the label and the
/// time: the wait is asked for only while the label is taken and the deadline
/// is ahead.
pub proof fn every_sleep_is_one_interval(deadline: u64, label: Seq<char>, taken: bool, now: u64)
    ensures
        poll_result(deadline, label, taken, now) matches ReleasePoll::Sleep(time) ==> time
            == LABEL_RELEASE_POLL && taken && now < deadline,
        taken && now < deadline ==> poll_result(deadline, label, taken, now) is Sleep,
{
}

/// A wait does not depend on when it begins: the same look, as long after the
/// beginning, leads to the same thing on a clock that stands elsewhere.
pub proof fn a_wait_does_not_depend_on_the_clock(
    start: u64,
    other_start: u64,
    label: Seq<char>,
    taken: bool,
    elapsed: u64,
)
    requires
        start + LABEL_RELEASE_TIMEOUT <= u64::MAX,
        other_start + LABEL_RELEASE_TIMEOUT <= u64::MAX,
        start + elapsed <= u64::MAX,
        other_start + elapsed <= u64::MAX,
    ensures
        poll_result(
            (start + LABEL_RELEASE_TIMEOUT) as u64,
            label,
            taken,
            (start + elapsed) as u64,
        ) == poll_result(
            (other_start + LABEL_RELEASE_TIMEOUT) as u64,
            label,
            taken,
            (other_start + elapsed) as u64,
        ),
{
}

/// A wait is given up exactly when the label is still taken once the timeout
/// has elapsed, and the error names the label between the fixed words. A free
/// label ends it at any time.
pub proof fn a_wait_is_given_up_after_the_timeout(
    start: u64,
    label: Seq<char>,
    taken: bool,
    elapsed: u64,
)
    requires
        start + LABEL_RELEASE_TIMEOUT <= u64::MAX,
        start + elapsed <= u64::MAX,
    ensures
        ({
            let result = poll_result(
                (start + LABEL_RELEASE_TIMEOUT) as u64,
                label,
                taken,
                (start + elapsed) as u64,
            );
            &&& result is Released <==> !taken
            &&& result is TimedOut <==> taken && elapsed >= LABEL_RELEASE_TIMEOUT
            &&& result matches ReleasePoll::TimedOut(error) ==> error == "window `"@ + label
                + "` did not release its label after destroy"@
        }),
{
}

/// Whether each look that is asked to sleep is followed by one at least as
/// much later as it was asked to sleep, and at most `late` later than that.
pub open spec fn spaced_as_asked(
    deadline: u64,
    label: Seq<char>,
    looks: Seq<Look>,
    late: nat,
) -> bool {
    forall|j: int|
        0 < j < looks.len() ==> match poll_result(
            deadline,
            label,
            looks[j - 1].taken,
            looks[j - 1].now,
        ) {
            ReleasePoll::Sleep(time) => looks[j - 1].now + time <= (#[trigger] looks[j]).now
                <= looks[j - 1].now + time + late,
            _ => true,
        }
}

/// A wait always ends: when each sleep lasts at least as long as it was asked
/// to, the deadline passes within `LABEL_RELEASE_TIMEOUT / LABEL_RELEASE_POLL`
/// sleeps, so that many looks and one more settle the outcome.
pub proof fn a_wait_always_ends(start: u64, label: Seq<char>, looks: Seq<Look>)
    requires
        start + LABEL_RELEASE_TIMEOUT <= u64::MAX,
        looks.len() > LABEL_RELEASE_TIMEOUT / LABEL_RELEASE_POLL,
        looks[0].now >= start,
        forall|j: int|
            0 < j < looks.len() ==> match poll_result(
                (start + LABEL_RELEASE_TIMEOUT) as u64,
                label,
                looks[j - 1].taken,
                looks[j - 1].now,
            ) {
                ReleasePoll::Sleep(time) => (#[trigger] looks[j]).now >= looks[j - 1].now + time,
                _ => true,
            },
    ensures
        wait_outcome((start + LABEL_RELEASE_TIMEOUT) as u64, label, looks) is Some,
{
    let deadline = (start + LABEL_RELEASE_TIMEOUT) as u64;
    if forall|j: int| 0 <= j <= 200 ==> !ends_wait(deadline, #[trigger] looks[j]) {
        lemma_looks_advance(start, label, looks, 200);
        assert(!ends_wait(deadline, looks[200]));
    } else {
        let i = choose|i: int| 0 <= i <= 200 && ends_wait(deadline, #[trigger] looks[i]);
        lemma_some_ending_look(deadline, label, looks, i);
    }
}

/// A wait ends on time. When the first look comes at the beginning and every
/// sleep lasts as long as it was asked to, give or take being woken `late`,
/// the look that ends the wait comes no later than one poll interval (and
/// that lateness) after the deadline.
pub proof fn a_wait_ends_on_time(
    start: u64,
    label: Seq<char>,
    looks: Seq<Look>,
    late: nat,
    i: int,
)
    requires
        start + LABEL_RELEASE_TIMEOUT <= u64::MAX,
        looks.len() > 0,
        looks[0].now == start,
        spaced_as_asked((start + LABEL_RELEASE_TIMEOUT) as u64, label, looks, late),
        0 <= i < looks.len(),
        forall|j: int|
            0 <= j < i ==> !ends_wait((start + LABEL_RELEASE_TIMEOUT) as u64, #[trigger] looks[j]),
    ensures
        looks[i].now <= start + LABEL_RELEASE_TIMEOUT + LABEL_RELEASE_POLL + late,
{
    let deadline = (start + LABEL_RELEASE_TIMEOUT) as u64;
    if i > 0 {
        assert(!ends_wait(deadline, looks[i - 1]));
        every_sleep_is_one_interval(deadline, label, looks[i - 1].taken, looks[i - 1].now);
    }
}

/// Looks that are all asked to sleep come at least one interval apart.
proof fn lemma_looks_advance(start: u64, label: Seq<char>, looks: Seq<Look>, i: int)
    requires
        start + LABEL_RELEASE_TIMEOUT <= u64::MAX,
        0 <= i < looks.len(),
        looks[0].now >= start,
        forall|j: int|
            0 <= j <= i ==> !ends_wait((start + LABEL_RELEASE_TIMEOUT) as u64, #[trigger] looks[j]),
        forall|j: int|
            0 < j < looks.len() ==> match poll_result(
                (start + LABEL_RELEASE_TIMEOUT) as u64,
                label,
                looks[j - 1].taken,
                looks[j - 1].now,
            ) {
                ReleasePoll::Sleep(time) => (#[trigger] looks[j]).now >= looks[j - 1].now + time,
                _ => true,
            },
    ensures
        looks[i].now >= start + i * LABEL_RELEASE_POLL,
    decreases i,
{
    if i > 0 {
        let deadline = (start + LABEL_RELEASE_TIMEOUT) as u64;
        lemma_looks_advance(start, label, looks, i - 1);
        assert(!ends_wait(deadline, looks[i - 1]));
        every_sleep_is_one_interval(deadline, label, looks[i - 1].taken, looks[i - 1].now);
        assert(looks[i].now >= looks[i - 1].now + LABEL_RELEASE_POLL);
    }
}

proof fn lemma_some_ending_look(deadline: u64, label: Seq<char>, looks: Seq<Look>, i: int)
    requires
        0 <= i < looks.len(),
        ends_wait(deadline, looks[i]),
    ensures
        wait_outcome(deadline, label, looks) is Some,
    decreases i,
{
    if !ends_wait(deadline, looks[0]) {
        assert(looks.skip(1)[i - 1] == looks[i]);
        lemma_some_ending_look(deadline, label, looks.skip(1), i - 1);
    }
}

} // verus!
