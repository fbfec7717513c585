//! Alerts, and when a detection calls for one.

use crate::ai::VisionResult;
use crate::score::Score;
use vstd::prelude::*;
use vstd::string::StringExecFns;

verus! {

/// A named alert.
pub struct Alert {
    pub name: String,
}

impl Alert {
    /// An alert of the given name.
    pub fn new(name: &str) -> (alert: Alert)
        ensures
            alert.name@ == name@,
    {
        Alert { name: name.to_owned() }
    }

    /// The line that announces the alert when it is sent.
    pub fn announcement(&self) -> (line: String)
        ensures
            line@ == "Sending alert: "@ + self.name@,
    {
        let mut line = "Sending alert: ".to_owned();
        line.append(self.name.as_str());
        line
    }
}

/// Whether a detection calls for a predator alert: a predator was detected
/// with a confidence of at least `threshold`.
pub open spec fn calls_for_alert(result: &VisionResult, threshold: Score) -> bool {
    result.predator_detected && result.confidence.spec_at_least(threshold)
}

/// Whether a detection calls for a predator alert.
#[verifier::when_used_as_spec(calls_for_alert)]
pub fn warrants_alert(result: &VisionResult, threshold: Score) -> (r: bool)
    ensures
        r == calls_for_alert(result, threshold),
{
    result.predator_detected && result.confidence.at_least(threshold)
}

/// Whether the frame of a detection is worth keeping: it shows a chicken or
/// a predator.
pub fn warrants_capture(result: &VisionResult) -> (r: bool)
    ensures
        r == (result.chicken_detected || result.predator_detected),
{
    result.chicken_detected || result.predator_detected
}

/// The alert for a detection in a source of pictures named `source`, where
/// the detection calls for one.
pub fn predator_alert(result: &VisionResult, threshold: Score, source: &str) -> (alert: Option<
    Alert,
>)
    ensures
        alert is Some <==> calls_for_alert(result, threshold),
        alert matches Some(a) ==> a.name@ == "Predator detected in "@ + source@,
{
    if warrants_alert(result, threshold) {
        let mut name = "Predator detected in ".to_owned();
        name.append(source);
        Some(Alert { name })
    } else {
        None
    }
}

} // verus!
