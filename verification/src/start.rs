//! Starting the plugins: how what they answer becomes the outcome of the
//! start.
//!
//! A plugin that starts tells how many devices it found. The runtime has
//! started when at least one plugin did, and then it reports the devices of
//! all that did.

use crate::aggregate::plain;
use crate::result::{SDKResult, WootingAnalogResult};
use vstd::prelude::*;

verus! {

/// The answer of one plugin to its start.
pub type StartAnswer = Result<u32, WootingAnalogResult>;

/// How many of `answers` are successes.
pub open spec fn successes(answers: Seq<StartAnswer>) -> nat
    decreases answers.len(),
{
    if answers.len() == 0 {
        0
    } else {
        successes(answers.drop_last()) + if answers.last() is Ok {
            1nat
        } else {
            0nat
        }
    }
}

/// The sum of the device counts of the successes among `answers`.
pub open spec fn devices_found(answers: Seq<StartAnswer>) -> nat
    decreases answers.len(),
{
    if answers.len() == 0 {
        0
    } else {
        devices_found(answers.drop_last()) + match answers.last() {
            Ok(count) => count as nat,
            Err(_) => 0nat,
        }
    }
}

/// The outcome of starting plugins that answered `answers`: the number of
/// devices that those which started found between them, which is capped at
/// the greatest count that can be returned; `NoPlugins` where none started.
pub open spec fn start_verdict(answers: Seq<StartAnswer>) -> StartAnswer {
    if successes(answers) == 0 {
        Err(WootingAnalogResult::NoPlugins)
    } else if devices_found(answers) > u32::MAX {
        Ok(u32::MAX)
    } else {
        Ok(devices_found(answers) as u32)
    }
}

/// Combines the answers of the plugins to their start.
pub fn collate_start(answers: &Vec<SDKResult<u32>>) -> (result: SDKResult<u32>)
    ensures
        result.0 == start_verdict(plain(answers@)),
{
    let ghost all = plain(answers@);
    let mut plugins_initialised: usize = 0;
    let mut device_no: u32 = 0;
    let mut i: usize = 0;
    while i < answers.len()
        invariant
            i <= answers.len(),
            all == plain(answers@),
            plugins_initialised == successes(all.take(i as int)),
            plugins_initialised <= i,
            device_no == if devices_found(all.take(i as int)) > u32::MAX {
                u32::MAX as nat
            } else {
                devices_found(all.take(i as int))
            },
        decreases answers.len() - i,
    {
        proof {
            assert(all.take(i + 1).drop_last() =~= all.take(i as int));
            assert(all.take(i + 1).last() == answers@[i as int].0);
        }
        if let Ok(num) = &answers[i].0 {
            plugins_initialised += 1;
            device_no = device_no.saturating_add(*num);
        }
        i += 1;
    }
    proof {
        assert(all.take(i as int) =~= all);
    }
    if plugins_initialised == 0 {
        SDKResult(Err(WootingAnalogResult::NoPlugins))
    } else {
        SDKResult(Ok(device_no))
    }
}

/// A start succeeds exactly when one of the plugins started.
pub proof fn lemma_start_needs_one_plugin(answers: Seq<StartAnswer>)
    ensures
        start_verdict(answers) is Ok <==> exists|i: int| 0 <= i < answers.len() && answers[i] is Ok,
        start_verdict(answers) is Err ==> start_verdict(answers) == Err::<u32, WootingAnalogResult>(
            WootingAnalogResult::NoPlugins,
        ),
    decreases answers.len(),
{
    if answers.len() > 0 {
        let before = answers.drop_last();
        lemma_start_needs_one_plugin(before);
        if start_verdict(before) is Ok {
            let i = choose|i: int| 0 <= i < before.len() && before[i] is Ok;
            assert(answers[i] is Ok);
        } else if answers.last() is Ok {
            assert(answers[answers.len() - 1] is Ok);
        } else {
            assert forall|i: int| 0 <= i < answers.len() implies !(answers[i] is Ok) by {
                if i < before.len() {
                    assert(before[i] == answers[i]);
                }
            }
        }
    }
}

/// Where the device counts fit, the start reports their sum.
pub proof fn lemma_start_reports_the_sum(answers: Seq<StartAnswer>)
    requires
        successes(answers) > 0,
        devices_found(answers) <= u32::MAX,
    ensures
        start_verdict(answers) == Ok::<u32, WootingAnalogResult>(devices_found(answers) as u32),
{
}

} // verus!
