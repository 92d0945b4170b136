//! Listing the connected devices: how the lists of several plugins become
//! one.
//!
//! Every plugin that is initialised is asked for its devices. The lists are
//! put one behind the other in the order of the plugins. A failure is only
//! returned where no device at all was listed, and then the last failure
//! stands for all.

use crate::device::DeviceInfo;
use crate::result::{SDKResult, WootingAnalogResult};
use vstd::prelude::*;

verus! {

/// The answer of one plugin to a listing: `None` where the plugin was not
/// asked, as it is not initialised.
pub type ListingAnswer = Option<Result<Seq<DeviceInfo>, WootingAnalogResult>>;

/// Whether the plugin was asked and failed.
pub open spec fn is_failure(answer: ListingAnswer) -> bool {
    answer matches Some(Err(_))
}

/// The devices that the successes among `answers` list, in order.
pub open spec fn listed(answers: Seq<ListingAnswer>) -> Seq<DeviceInfo>
    decreases answers.len(),
{
    if answers.len() == 0 {
        Seq::empty()
    } else {
        match answers.last() {
            Some(Ok(devices)) => listed(answers.drop_last()) + devices,
            _ => listed(answers.drop_last()),
        }
    }
}

/// The kind of the last failure among `answers`, and `OK` where there is none.
pub open spec fn last_listing_failure(answers: Seq<ListingAnswer>) -> WootingAnalogResult
    decreases answers.len(),
{
    if answers.len() == 0 {
        WootingAnalogResult::OK
    } else {
        match answers.last() {
            Some(Err(kind)) => kind,
            _ => last_listing_failure(answers.drop_last()),
        }
    }
}

/// The outcome of a listing to which the plugins gave `answers`.
pub open spec fn listing_verdict(answers: Seq<ListingAnswer>) -> Result<
    Seq<DeviceInfo>,
    WootingAnalogResult,
> {
    if listed(answers).len() == 0 && last_listing_failure(answers) != WootingAnalogResult::OK {
        Err(last_listing_failure(answers))
    } else {
        Ok(listed(answers))
    }
}

/// A listing answer as the rules above speak of it.
pub open spec fn listing_of(answer: Option<SDKResult<Vec<DeviceInfo>>>) -> ListingAnswer {
    match answer {
        Some(SDKResult(Ok(devices))) => Some(Ok(devices@)),
        Some(SDKResult(Err(kind))) => Some(Err(kind)),
        None => None,
    }
}

/// The listing answers as the rules above speak of them.
pub open spec fn listings_of(answers: Seq<Option<SDKResult<Vec<DeviceInfo>>>>) -> Seq<ListingAnswer> {
    answers.map_values(|answer: Option<SDKResult<Vec<DeviceInfo>>>| listing_of(answer))
}

/// The outcome of a listing in the form of the rules above.
pub open spec fn listing_outcome(result: SDKResult<Vec<DeviceInfo>>) -> Result<
    Seq<DeviceInfo>,
    WootingAnalogResult,
> {
    match result.0 {
        Ok(devices) => Ok(devices@),
        Err(kind) => Err(kind),
    }
}

/// A listing fails only where no plugin listed a device and one of them
/// failed; a listing in which nobody failed succeeds, be it with no device.
pub proof fn lemma_listing_fails_only_when_empty(answers: Seq<ListingAnswer>)
    ensures
        listing_verdict(answers) is Err ==> listed(answers).len() == 0 && exists|i: int|
            0 <= i < answers.len() && answers[i] == Some(
                Err::<Seq<DeviceInfo>, WootingAnalogResult>(listing_verdict(answers)->Err_0),
            ),
        (forall|i: int| 0 <= i < answers.len() ==> !is_failure(#[trigger] answers[i]))
            ==> listing_verdict(answers) is Ok,
    decreases answers.len(),
{
    lemma_last_listing_failure(answers);
}

/// The last failure is one of the answers, and where no answer is a failure
/// its kind is `OK`.
proof fn lemma_last_listing_failure(answers: Seq<ListingAnswer>)
    ensures
        last_listing_failure(answers) != WootingAnalogResult::OK ==> exists|i: int|
            0 <= i < answers.len() && answers[i] == Some(
                Err::<Seq<DeviceInfo>, WootingAnalogResult>(last_listing_failure(answers)),
            ),
        (forall|i: int| 0 <= i < answers.len() ==> !is_failure(#[trigger] answers[i]))
            ==> last_listing_failure(answers) == WootingAnalogResult::OK,
    decreases answers.len(),
{
    if answers.len() > 0 {
        let before = answers.drop_last();
        lemma_last_listing_failure(before);
        assert forall|i: int| 0 <= i < before.len() implies before[i] == answers[i] by {}
        match answers.last() {
            Some(Err(kind)) => {
                assert(answers[answers.len() - 1] == Some(
                    Err::<Seq<DeviceInfo>, WootingAnalogResult>(kind),
                ));
            },
            _ => {
                if last_listing_failure(before) != WootingAnalogResult::OK {
                    let i = choose|i: int|
                        0 <= i < before.len() && before[i] == Some(
                            Err::<Seq<DeviceInfo>, WootingAnalogResult>(
                                last_listing_failure(before),
                            ),
                        );
                    assert(answers[i] == before[i]);
                }
                if forall|i: int| 0 <= i < answers.len() ==> !is_failure(#[trigger] answers[i]) {
                    assert forall|i: int| 0 <= i < before.len() implies !is_failure(
                        #[trigger] before[i],
                    ) by {
                        assert(before[i] == answers[i]);
                    }
                }
            },
        }
    }
}

/// Combines the answers of the plugins to a listing.
pub fn collate_device_info(answers: Vec<Option<SDKResult<Vec<DeviceInfo>>>>) -> (result: SDKResult<
    Vec<DeviceInfo>,
>)
    ensures
        listing_outcome(result) == listing_verdict(listings_of(answers@)),
{
    let ghost all = listings_of(answers@);
    let mut answers = answers;
    let mut devices: Vec<DeviceInfo> = Vec::new();
    let mut error = WootingAnalogResult::OK;
    let ghost mut done: int = 0;
    while answers.len() > 0
        invariant
            0 <= done <= all.len(),
            answers@.len() == all.len() - done,
            listings_of(answers@) == all.skip(done),
            devices@ == listed(all.take(done)),
            error == last_listing_failure(all.take(done)),
        decreases answers.len(),
    {
        let ghost rest = answers@;
        let answer = answers.remove(0);
        proof {
            assert(listing_of(answer) == all[done]) by {
                assert(listings_of(rest)[0] == all.skip(done)[0]);
            }
            assert(all.take(done + 1).drop_last() =~= all.take(done));
            assert(listings_of(answers@) =~= all.skip(done + 1)) by {
                assert forall|j: int| 0 <= j < answers@.len() implies listings_of(answers@)[j]
                    == all.skip(done + 1)[j] by {
                    assert(answers@[j] == rest[j + 1]);
                    assert(listings_of(rest)[j + 1] == all.skip(done)[j + 1]);
                }
            }
            done = done + 1;
        }
        match answer {
            Some(SDKResult(Ok(mut found))) => {
                devices.append(&mut found);
            },
            Some(SDKResult(Err(kind))) => {
                error = kind;
            },
            None => {},
        }
    }
    proof {
        assert(all.take(done) =~= all);
    }
    if devices.is_empty() && !error.is_ok() {
        SDKResult(Err(error))
    } else {
        SDKResult(Ok(devices))
    }
}

} // verus!
