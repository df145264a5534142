use vstd::prelude::*;

verus! {

/// The status that a report suggests for the build.
#[derive(Copy, Clone, Debug, PartialEq, Eq, Structural)]
pub enum BuildStatus {
    Queued,
    Running,
    Succeeded,
    Failed,
    Cancelled,
    Unknown,
}

impl BuildStatus {
    /// The wire name of a status.
    pub open spec fn label(self) -> Seq<char> {
        match self {
            BuildStatus::Queued => seq!['q', 'u', 'e', 'u', 'e', 'd'],
            BuildStatus::Running => seq!['r', 'u', 'n', 'n', 'i', 'n', 'g'],
            BuildStatus::Succeeded => seq!['s', 'u', 'c', 'c', 'e', 'e', 'd', 'e', 'd'],
            BuildStatus::Failed => seq!['f', 'a', 'i', 'l', 'e', 'd'],
            BuildStatus::Cancelled => seq!['c', 'a', 'n', 'c', 'e', 'l', 'l', 'e', 'd'],
            BuildStatus::Unknown => seq!['u', 'n', 'k', 'n', 'o', 'w', 'n'],
        }
    }

    pub fn as_str(&self) -> (r: &'static str)
        ensures
            r@ == self.label(),
    {
        match self {
            BuildStatus::Queued => {
                proof { reveal_strlit("queued"); }
                "queued"
            },
            BuildStatus::Running => {
                proof { reveal_strlit("running"); }
                "running"
            },
            BuildStatus::Succeeded => {
                proof { reveal_strlit("succeeded"); }
                "succeeded"
            },
            BuildStatus::Failed => {
                proof { reveal_strlit("failed"); }
                "failed"
            },
            BuildStatus::Cancelled => {
                proof { reveal_strlit("cancelled"); }
                "cancelled"
            },
            BuildStatus::Unknown => {
                proof { reveal_strlit("unknown"); }
                "unknown"
            },
        }
    }
}

} // verus!
