//! Performance alerts: the corrective actions suggested when the frame rate
//! stays low. Frame rates are in thousandths of a frame per second.
use vstd::prelude::*;

verus! {

/// A suggested corrective action.
#[derive(Debug, Clone, Copy, PartialEq, Eq)]
pub enum CorrectiveAction {
    CloseUnusedApplications,
    ReduceSplitViewports,
    DisableVisualEffects,
    LowerTextureQuality,
    CloseBackgroundSectors,
    EnablePerformanceMode,
    CheckForRunawayProcesses,
}

impl CorrectiveAction {
    pub open spec fn spec_description(self) -> Seq<char> {
        match self {
            CorrectiveAction::CloseUnusedApplications => "Close unused applications"@,
            CorrectiveAction::ReduceSplitViewports => "Reduce number of split viewports"@,
            CorrectiveAction::DisableVisualEffects => "Disable visual effects and animations"@,
            CorrectiveAction::LowerTextureQuality => "Lower texture quality in background levels"@,
            CorrectiveAction::CloseBackgroundSectors => "Close inactive background sectors"@,
            CorrectiveAction::EnablePerformanceMode => "Enable performance mode (reduced features)"@,
            CorrectiveAction::CheckForRunawayProcesses => "Check for runaway processes"@,
        }
    }

    /// What the action asks of the user.
    pub fn description(&self) -> (s: &'static str)
        ensures
            s@ == self.spec_description(),
    {
        match self {
            CorrectiveAction::CloseUnusedApplications => "Close unused applications",
            CorrectiveAction::ReduceSplitViewports => "Reduce number of split viewports",
            CorrectiveAction::DisableVisualEffects => "Disable visual effects and animations",
            CorrectiveAction::LowerTextureQuality => "Lower texture quality in background levels",
            CorrectiveAction::CloseBackgroundSectors => "Close inactive background sectors",
            CorrectiveAction::EnablePerformanceMode => "Enable performance mode (reduced features)",
            CorrectiveAction::CheckForRunawayProcesses => "Check for runaway processes",
        }
    }

    pub open spec fn spec_priority(self) -> u8 {
        match self {
            CorrectiveAction::CloseUnusedApplications => 1,
            CorrectiveAction::ReduceSplitViewports => 2,
            CorrectiveAction::DisableVisualEffects => 3,
            CorrectiveAction::LowerTextureQuality => 4,
            CorrectiveAction::CloseBackgroundSectors => 5,
            CorrectiveAction::EnablePerformanceMode => 6,
            CorrectiveAction::CheckForRunawayProcesses => 7,
        }
    }

    /// Order in which actions are suggested.
    pub fn priority(&self) -> (p: u8)
        ensures
            p == self.spec_priority(),
    {
        match self {
            CorrectiveAction::CloseUnusedApplications => 1,
            CorrectiveAction::ReduceSplitViewports => 2,
            CorrectiveAction::DisableVisualEffects => 3,
            CorrectiveAction::LowerTextureQuality => 4,
            CorrectiveAction::CloseBackgroundSectors => 5,
            CorrectiveAction::EnablePerformanceMode => 6,
            CorrectiveAction::CheckForRunawayProcesses => 7,
        }
    }
}

/// Whether an action is suggested, given the number of frame samples and
/// the average rate of the last sixty: the first three always; with sixty
/// samples or more, performance mode and runaway processes below 20 fps,
/// background sectors and texture quality below 15 fps.
pub open spec fn suggested(a: CorrectiveAction, samples: usize, recent_avg_milli: u32) -> bool {
    match a {
        CorrectiveAction::CloseUnusedApplications | CorrectiveAction::ReduceSplitViewports
        | CorrectiveAction::DisableVisualEffects => true,
        CorrectiveAction::EnablePerformanceMode | CorrectiveAction::CheckForRunawayProcesses => samples
            >= 60 && recent_avg_milli < 20_000,
        CorrectiveAction::CloseBackgroundSectors | CorrectiveAction::LowerTextureQuality => samples
            >= 60 && recent_avg_milli < 15_000,
    }
}

/// The corrective actions to suggest, ordered by priority, each once.
pub fn suggestions_for(samples: usize, recent_avg_milli: u32) -> (v: Vec<CorrectiveAction>)
    ensures
        forall|a: CorrectiveAction| v@.contains(a) <==> suggested(a, samples, recent_avg_milli),
        forall|i: int, j: int| 0 <= i < j < v@.len() ==> v@[i].spec_priority() < v@[j].spec_priority(),
{
    let mut v: Vec<CorrectiveAction> = Vec::new();
    v.push(CorrectiveAction::CloseUnusedApplications);
    v.push(CorrectiveAction::ReduceSplitViewports);
    v.push(CorrectiveAction::DisableVisualEffects);
    let long = samples >= 60;
    if long && recent_avg_milli < 15_000 {
        v.push(CorrectiveAction::LowerTextureQuality);
        v.push(CorrectiveAction::CloseBackgroundSectors);
    }
    if long && recent_avg_milli < 20_000 {
        v.push(CorrectiveAction::EnablePerformanceMode);
        v.push(CorrectiveAction::CheckForRunawayProcesses);
    }
    assert forall|a: CorrectiveAction| v@.contains(a) <==> suggested(a, samples, recent_avg_milli) by {
        if suggested(a, samples, recent_avg_milli) {
            match a {
                CorrectiveAction::CloseUnusedApplications => assert(v@[0] == a),
                CorrectiveAction::ReduceSplitViewports => assert(v@[1] == a),
                CorrectiveAction::DisableVisualEffects => assert(v@[2] == a),
                CorrectiveAction::LowerTextureQuality => assert(v@[3] == a),
                CorrectiveAction::CloseBackgroundSectors => assert(v@[4] == a),
                CorrectiveAction::EnablePerformanceMode => {
                    if recent_avg_milli < 15_000 {
                        assert(v@[5] == a);
                    } else {
                        assert(v@[3] == a);
                    }
                },
                CorrectiveAction::CheckForRunawayProcesses => {
                    if recent_avg_milli < 15_000 {
                        assert(v@[6] == a);
                    } else {
                        assert(v@[4] == a);
                    }
                },
            }
        }
    }
    v
}

} // verus!
