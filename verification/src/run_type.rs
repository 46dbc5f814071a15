use vstd::prelude::*;

verus! {

/// Execution mode requested from the engine: either commit the update, or
/// only validate and simulate it (a dry run).
///
/// The engine's wire layout represents this tag positionally: the first
/// variant is 0, the second is 1.
#[derive(Clone, Copy, PartialEq, Eq, Structural, Debug)]
pub enum RunType {
    Normal,
    Dryrun,
}

impl RunType {
    /// The integer the engine's layout uses for this tag.
    pub open spec fn code_spec(self) -> u32 {
        match self {
            RunType::Normal => 0,
            RunType::Dryrun => 1,
        }
    }

    /// The integer the engine's layout uses for this tag.
    pub fn code(self) -> (c: u32)
        ensures
            c == self.code_spec(),
    {
        match self {
            RunType::Normal => 0,
            RunType::Dryrun => 1,
        }
    }

    /// The mode selected by the caller's dry-run flag.
    pub fn from_flag(dry_run: bool) -> (r: RunType)
        ensures
            r == (if dry_run { RunType::Dryrun } else { RunType::Normal }),
    {
        if dry_run {
            RunType::Dryrun
        } else {
            RunType::Normal
        }
    }
}

} // verus!
