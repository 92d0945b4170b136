//! How the answers of several plugins to one read become one answer.
//!
//! The plugins are asked in order. A read for "any device" hears all of them;
//! a read for one device stops at the first plugin that succeeds, since a
//! device belongs to one plugin. Of the values heard the greatest is
//! returned. Failures are only returned where nothing was heard but failures,
//! and then the last one stands for all.

use crate::analog::Analog;
use crate::device::DeviceID;
use crate::result::{SDKResult, WootingAnalogResult};
use vstd::prelude::*;

verus! {

/// The answer of one plugin to a single-key read.
pub type AnalogAnswer = Result<Analog, WootingAnalogResult>;

/// The position of the first success among `answers`.
pub open spec fn first_success<T>(answers: Seq<Result<T, WootingAnalogResult>>) -> Option<int>
    decreases answers.len(),
{
    if answers.len() == 0 {
        None
    } else {
        match first_success(answers.drop_last()) {
            Some(i) => Some(i),
            None => if answers.last() is Ok {
                Some(answers.len() - 1)
            } else {
                None
            },
        }
    }
}

/// The answers that count: all of them in a read for "any device", and in a
/// read for one device those up to the first success.
pub open spec fn heard<T>(answers: Seq<Result<T, WootingAnalogResult>>, device_id: DeviceID) -> Seq<
    Result<T, WootingAnalogResult>,
> {
    if device_id == 0 {
        answers
    } else {
        match first_success(answers) {
            Some(i) => answers.take(i + 1),
            None => answers,
        }
    }
}

/// Whether `answers` can be what a round of asking `plugins` plugins gave: a
/// round for one device ends with the first success, any other round asks
/// everyone.
pub open spec fn is_a_round<T>(
    answers: Seq<Result<T, WootingAnalogResult>>,
    plugins: nat,
    device_id: DeviceID,
) -> bool {
    &&& answers.len() <= plugins
    &&& heard(answers, device_id) == answers
    &&& answers.len() < plugins ==> device_id != 0 && answers.len() > 0 && answers.last() is Ok
}

/// The kind of the last failure among `answers`, and `OK` where there is none.
pub open spec fn last_failure<T>(answers: Seq<Result<T, WootingAnalogResult>>) -> WootingAnalogResult
    decreases answers.len(),
{
    if answers.len() == 0 {
        WootingAnalogResult::OK
    } else {
        match answers.last() {
            Err(kind) => kind,
            Ok(_) => last_failure(answers.drop_last()),
        }
    }
}

/// The greatest level among the successes in `answers`.
pub open spec fn highest(answers: Seq<AnalogAnswer>) -> Option<Analog>
    decreases answers.len(),
{
    if answers.len() == 0 {
        None
    } else {
        match (highest(answers.drop_last()), answers.last()) {
            (Some(level), Ok(other)) => Some(level.higher(other)),
            (None, Ok(other)) => Some(other),
            (before, Err(_)) => before,
        }
    }
}

/// The outcome of a single-key read to which the plugins gave `answers`.
pub open spec fn analog_verdict(answers: Seq<AnalogAnswer>, device_id: DeviceID) -> AnalogAnswer {
    match highest(heard(answers, device_id)) {
        Some(level) => Ok(level),
        None => Err(last_failure(heard(answers, device_id))),
    }
}

/// The answers in the plain form in which the rules above speak of them.
pub open spec fn plain<T>(answers: Seq<SDKResult<T>>) -> Seq<Result<T, WootingAnalogResult>> {
    answers.map_values(|answer: SDKResult<T>| answer.0)
}

/// Before the first success there is none, and where there is no first
/// success there is no success.
pub proof fn lemma_first_success<T>(answers: Seq<Result<T, WootingAnalogResult>>)
    ensures
        first_success(answers) matches Some(i) ==> {
            &&& 0 <= i < answers.len()
            &&& answers[i] is Ok
            &&& forall|j: int| 0 <= j < i ==> answers[j] is Err
        },
        first_success(answers) is None ==> forall|j: int| 0 <= j < answers.len() ==> answers[j] is Err,
    decreases answers.len(),
{
    if answers.len() > 0 {
        let before = answers.drop_last();
        lemma_first_success(before);
        assert forall|j: int| 0 <= j < before.len() implies before[j] == answers[j] by {}
        match first_success(before) {
            Some(i) => {
                assert(answers[i] == before[i]);
                assert forall|j: int| 0 <= j < i implies answers[j] is Err by {
                    assert(answers[j] == before[j]);
                }
            },
            None => {
                assert forall|j: int| 0 <= j < answers.len() - 1 implies answers[j] is Err by {
                    assert(answers[j] == before[j]);
                }
            },
        }
    }
}

/// Answers that hold no success before their last place are heard in full,
/// whatever the device.
pub proof fn lemma_heard_in_full<T>(answers: Seq<Result<T, WootingAnalogResult>>, device_id: DeviceID)
    requires
        forall|j: int| 0 <= j < answers.len() - 1 ==> answers[j] is Err,
    ensures
        heard(answers, device_id) == answers,
{
    lemma_first_success(answers);
    if device_id != 0 {
        if let Some(i) = first_success(answers) {
            assert(i == answers.len() - 1);
            assert(answers.take(i + 1) =~= answers);
        }
    }
}

/// The verdict of a read names a level exactly when a success was heard; the
/// level is then one that was heard and none that was heard is above it.
pub proof fn lemma_highest_is_the_greatest_heard(answers: Seq<AnalogAnswer>)
    ensures
        highest(answers) is None <==> forall|j: int| 0 <= j < answers.len() ==> answers[j] is Err,
        highest(answers) matches Some(level) ==> {
            &&& exists|j: int| 0 <= j < answers.len() && answers[j] == Ok::<Analog, WootingAnalogResult>(level)
            &&& forall|j: int|
                0 <= j < answers.len() ==> (#[trigger] answers[j] matches Ok(other)
                    ==> other.pattern() <= level.pattern())
        },
    decreases answers.len(),
{
    if answers.len() > 0 {
        let before = answers.drop_last();
        lemma_highest_is_the_greatest_heard(before);
        assert forall|j: int| 0 <= j < before.len() implies before[j] == answers[j] by {}
        match (highest(before), answers.last()) {
            (Some(level), Ok(other)) => {
                let top = level.higher(other);
                if top == other {
                    assert(answers[answers.len() - 1] == Ok::<Analog, WootingAnalogResult>(top));
                } else {
                    let j = choose|j: int|
                        0 <= j < before.len() && before[j] == Ok::<Analog, WootingAnalogResult>(level);
                    assert(answers[j] == Ok::<Analog, WootingAnalogResult>(top));
                }
            },
            (None, Ok(other)) => {
                assert(answers[answers.len() - 1] == Ok::<Analog, WootingAnalogResult>(other));
            },
            (Some(level), Err(_)) => {
                let j = choose|j: int|
                    0 <= j < before.len() && before[j] == Ok::<Analog, WootingAnalogResult>(level);
                assert(answers[j] == Ok::<Analog, WootingAnalogResult>(level));
            },
            (None, Err(_)) => {},
        }
    }
}

/// Where nothing but failures was heard, the last of them is returned; where
/// nothing at all was heard, the kind returned is `OK`.
pub proof fn lemma_last_failure_is_the_last(answers: Seq<AnalogAnswer>)
    requires
        forall|j: int| 0 <= j < answers.len() ==> answers[j] is Err,
    ensures
        answers.len() == 0 ==> last_failure(answers) == WootingAnalogResult::OK,
        answers.len() > 0 ==> answers.last() == Err::<Analog, WootingAnalogResult>(
            last_failure(answers),
        ),
{
}

/// A read for one device returns what the first plugin that succeeds
/// answered.
pub proof fn lemma_one_device_takes_the_first_success(
    answers: Seq<AnalogAnswer>,
    device_id: DeviceID,
    i: int,
)
    requires
        device_id != 0,
        0 <= i < answers.len(),
        answers[i] is Ok,
        forall|j: int| 0 <= j < i ==> answers[j] is Err,
    ensures
        analog_verdict(answers, device_id) == answers[i],
{
    lemma_first_success(answers);
    let first = first_success(answers)->0;
    assert(first == i) by {
        if first < i {
            assert(answers[first] is Err);
        }
    }
    let h = answers.take(i + 1);
    lemma_highest_is_the_greatest_heard(h.drop_last());
    assert forall|j: int| 0 <= j < h.drop_last().len() implies h.drop_last()[j] is Err by {
        assert(h.drop_last()[j] == answers[j]);
    }
    assert(h.last() == answers[i]);
}

/// Combines the answers of the plugins to a single-key read.
pub fn collate_analog(answers: &Vec<SDKResult<Analog>>, device_id: DeviceID) -> (result: SDKResult<
    Analog,
>)
    ensures
        result.0 == analog_verdict(plain(answers@), device_id),
{
    let ghost all = plain(answers@);
    let mut value: Option<Analog> = None;
    let mut err = WootingAnalogResult::OK;
    let mut i: usize = 0;
    let mut stopped = false;
    while i < answers.len() && !stopped
        invariant
            i <= answers.len(),
            all == plain(answers@),
            value == highest(all.take(i as int)),
            err == last_failure(all.take(i as int)),
            heard(all.take(i as int), device_id) == all.take(i as int),
            stopped ==> device_id != 0 && first_success(all) == Some(i - 1),
            !stopped ==> first_success(all.take(i as int)) is None || device_id == 0,
        decreases answers.len() - i + if stopped { 0int } else { 1int },
    {
        let ghost before = all.take(i as int);
        let ghost now = all.take(i + 1);
        proof {
            assert(now.drop_last() =~= before);
            assert(now.last() == answers@[i as int].0);
            lemma_first_success(before);
            lemma_first_success(now);
        }
        match &answers[i].0 {
            Ok(level) => {
                value = match value {
                    Some(held) => Some(held.max(*level)),
                    None => Some(*level),
                };
                if device_id != 0 {
                    stopped = true;
                }
            },
            Err(kind) => {
                err = *kind;
            },
        }
        i += 1;
        proof {
            if device_id != 0 {
                assert forall|j: int| 0 <= j < now.len() - 1 implies now[j] is Err by {
                    assert(now[j] == before[j]);
                }
                lemma_heard_in_full(now, device_id);
            }
            if stopped {
                lemma_first_success_of_a_prefix(all, i as int);
            }
        }
    }
    proof {
        if stopped {
            assert(heard(all, device_id) == all.take(i as int));
        } else {
            assert(all.take(i as int) =~= all);
        }
    }
    match value {
        Some(level) => SDKResult(Ok(level)),
        None => SDKResult(Err(err)),
    }
}

/// A success that is the first of a prefix is the first of the whole.
pub proof fn lemma_first_success_of_a_prefix<T>(answers: Seq<Result<T, WootingAnalogResult>>, n: int)
    requires
        0 < n <= answers.len(),
        first_success(answers.take(n)) == Some(n - 1),
    ensures
        first_success(answers) == Some(n - 1),
    decreases answers.len() - n,
{
    if n < answers.len() {
        assert(answers.drop_last().take(n) =~= answers.take(n));
        lemma_first_success_of_a_prefix(answers.drop_last(), n);
    } else {
        assert(answers.take(n) =~= answers);
    }
}

} // verus!
