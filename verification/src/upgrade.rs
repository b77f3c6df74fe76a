//! The upgrades that can be bought, how many levels each has, and the
//! levels bought so far.
use vstd::prelude::*;

verus! {

/// The upgrades, in the order in which they are listed.
#[derive(Clone, Copy, Debug, PartialEq, Eq, Hash, PartialOrd, Ord, Structural)]
pub enum UpgradeId {
    IncreaseCorrectIncrement,
    ResetMoneyForTrust,
    UnlockStreak,
    CapitalLetterBonus,
    UnlockAutomation,
    Seniority,
    Graphs,
    LetterCompression,
    DisablePenalty,
    AutoLetterCount,
}

pub const NUM_UPGRADES: usize = 10;

/// The upgrade at a position in the list.
pub open spec fn upgrade_at(i: int) -> UpgradeId {
    if i == 0 {
        UpgradeId::IncreaseCorrectIncrement
    } else if i == 1 {
        UpgradeId::ResetMoneyForTrust
    } else if i == 2 {
        UpgradeId::UnlockStreak
    } else if i == 3 {
        UpgradeId::CapitalLetterBonus
    } else if i == 4 {
        UpgradeId::UnlockAutomation
    } else if i == 5 {
        UpgradeId::Seniority
    } else if i == 6 {
        UpgradeId::Graphs
    } else if i == 7 {
        UpgradeId::LetterCompression
    } else if i == 8 {
        UpgradeId::DisablePenalty
    } else {
        UpgradeId::AutoLetterCount
    }
}

pub open spec fn index_of(id: UpgradeId) -> int {
    match id {
        UpgradeId::IncreaseCorrectIncrement => 0,
        UpgradeId::ResetMoneyForTrust => 1,
        UpgradeId::UnlockStreak => 2,
        UpgradeId::CapitalLetterBonus => 3,
        UpgradeId::UnlockAutomation => 4,
        UpgradeId::Seniority => 5,
        UpgradeId::Graphs => 6,
        UpgradeId::LetterCompression => 7,
        UpgradeId::DisablePenalty => 8,
        UpgradeId::AutoLetterCount => 9,
    }
}

/// How many levels an upgrade has (the number of its prices).
pub open spec fn level_count(id: UpgradeId) -> nat {
    match id {
        UpgradeId::IncreaseCorrectIncrement => 50,
        UpgradeId::Seniority => 5,
        UpgradeId::AutoLetterCount => 200,
        _ => 1,
    }
}

/// Whether an upgrade can be bought again and again (its level never rises).
pub open spec fn infinite(id: UpgradeId) -> bool {
    id == UpgradeId::ResetMoneyForTrust
}

/// The name shown for an upgrade.
pub open spec fn upgrade_name(id: UpgradeId) -> Seq<char> {
    match id {
        UpgradeId::IncreaseCorrectIncrement => "Writing Skill"@,
        UpgradeId::ResetMoneyForTrust => "Beg for help"@,
        UpgradeId::UnlockStreak => "Unlock Trust"@,
        UpgradeId::CapitalLetterBonus => "Discover the shift key"@,
        UpgradeId::UnlockAutomation => "Let the robots write"@,
        UpgradeId::Seniority => "Seniority"@,
        UpgradeId::Graphs => "Graphs"@,
        UpgradeId::LetterCompression => "Letter compression"@,
        UpgradeId::DisablePenalty => "Pay off editors"@,
        UpgradeId::AutoLetterCount => "Auto letter count"@,
    }
}

/// What the upgrade list says an upgrade does.
pub open spec fn upgrade_description(id: UpgradeId) -> Seq<char> {
    match id {
        UpgradeId::IncreaseCorrectIncrement => "Add a 10th more cent per correct letter"@,
        UpgradeId::ResetMoneyForTrust => "Lose trust to get back to $0"@,
        UpgradeId::UnlockStreak => "Profit is multiplied by (1.15)^trust"@,
        UpgradeId::CapitalLetterBonus => "Capital letters are worth 10x"@,
        UpgradeId::UnlockAutomation => "Unlock the letter machine"@,
        UpgradeId::Seniority => "For each level of seniority, 20% lower correctness requirement to gain trust"@,
        UpgradeId::Graphs => "Visualize your progress"@,
        UpgradeId::LetterCompression => "Lowercase letters are compressed to uppercase letters"@,
        UpgradeId::DisablePenalty => "Mistakes no longer cost money"@,
        UpgradeId::AutoLetterCount => "The letter machine automatically counts letters for you"@,
    }
}

impl UpgradeId {
    pub fn index(&self) -> (r: usize)
        ensures
            r == index_of(*self),
            r < NUM_UPGRADES,
            upgrade_at(r as int) == *self,
    {
        match self {
            UpgradeId::IncreaseCorrectIncrement => 0,
            UpgradeId::ResetMoneyForTrust => 1,
            UpgradeId::UnlockStreak => 2,
            UpgradeId::CapitalLetterBonus => 3,
            UpgradeId::UnlockAutomation => 4,
            UpgradeId::Seniority => 5,
            UpgradeId::Graphs => 6,
            UpgradeId::LetterCompression => 7,
            UpgradeId::DisablePenalty => 8,
            UpgradeId::AutoLetterCount => 9,
        }
    }

    pub fn from_index(i: usize) -> (r: UpgradeId)
        requires
            i < NUM_UPGRADES,
        ensures
            r == upgrade_at(i as int),
            index_of(r) == i,
    {
        if i == 0 {
            UpgradeId::IncreaseCorrectIncrement
        } else if i == 1 {
            UpgradeId::ResetMoneyForTrust
        } else if i == 2 {
            UpgradeId::UnlockStreak
        } else if i == 3 {
            UpgradeId::CapitalLetterBonus
        } else if i == 4 {
            UpgradeId::UnlockAutomation
        } else if i == 5 {
            UpgradeId::Seniority
        } else if i == 6 {
            UpgradeId::Graphs
        } else if i == 7 {
            UpgradeId::LetterCompression
        } else if i == 8 {
            UpgradeId::DisablePenalty
        } else {
            UpgradeId::AutoLetterCount
        }
    }

    /// How many levels the upgrade has.
    pub fn max_level(&self) -> (r: usize)
        ensures
            r == level_count(*self),
    {
        match self {
            UpgradeId::IncreaseCorrectIncrement => 50,
            UpgradeId::Seniority => 5,
            UpgradeId::AutoLetterCount => 200,
            _ => 1,
        }
    }

    /// Whether buying the upgrade leaves its level as it was.
    pub fn is_infinite(&self) -> (r: bool)
        ensures
            r == infinite(*self),
    {
        match self {
            UpgradeId::ResetMoneyForTrust => true,
            _ => false,
        }
    }

    pub fn name(&self) -> (r: &'static str)
        ensures
            r@ == upgrade_name(*self),
    {
        match self {
            UpgradeId::IncreaseCorrectIncrement => "Writing Skill",
            UpgradeId::ResetMoneyForTrust => "Beg for help",
            UpgradeId::UnlockStreak => "Unlock Trust",
            UpgradeId::CapitalLetterBonus => "Discover the shift key",
            UpgradeId::UnlockAutomation => "Let the robots write",
            UpgradeId::Seniority => "Seniority",
            UpgradeId::Graphs => "Graphs",
            UpgradeId::LetterCompression => "Letter compression",
            UpgradeId::DisablePenalty => "Pay off editors",
            UpgradeId::AutoLetterCount => "Auto letter count",
        }
    }

    pub fn description(&self) -> (r: &'static str)
        ensures
            r@ == upgrade_description(*self),
    {
        match self {
            UpgradeId::IncreaseCorrectIncrement => "Add a 10th more cent per correct letter",
            UpgradeId::ResetMoneyForTrust => "Lose trust to get back to $0",
            UpgradeId::UnlockStreak => "Profit is multiplied by (1.15)^trust",
            UpgradeId::CapitalLetterBonus => "Capital letters are worth 10x",
            UpgradeId::UnlockAutomation => "Unlock the letter machine",
            UpgradeId::Seniority => "For each level of seniority, 20% lower correctness requirement to gain trust",
            UpgradeId::Graphs => "Visualize your progress",
            UpgradeId::LetterCompression => "Lowercase letters are compressed to uppercase letters",
            UpgradeId::DisablePenalty => "Mistakes no longer cost money",
            UpgradeId::AutoLetterCount => "The letter machine automatically counts letters for you",
        }
    }
}

/// The level bought of each upgrade (zero for one never bought), by the
/// upgrade's position in the list. It is an array rather than a `HashMap`
/// keyed by `UpgradeId`: vstd's map contracts need a hashing model for the
/// key, which a derived `Hash` on an enum of this crate does not have.
#[derive(Clone, Copy, Debug, PartialEq, Eq)]
pub struct UpgradeLevels {
    levels: [usize; 10],
}

impl UpgradeLevels {
    /// The levels, by position in the list of upgrades.
    pub closed spec fn levels(self) -> Seq<usize> {
        self.levels@
    }

    pub open spec fn level(self, id: UpgradeId) -> usize {
        self.levels()[index_of(id)]
    }

    pub fn new() -> (r: UpgradeLevels)
        ensures
            forall|id: UpgradeId| #[trigger] r.level(id) == 0,
    {
        let r = UpgradeLevels { levels: [0, 0, 0, 0, 0, 0, 0, 0, 0, 0] };
        proof {
            assert forall|id: UpgradeId| #[trigger] r.level(id) == 0 by {
                assert(r.levels@[index_of(id)] == 0);
            }
        }
        r
    }

    pub fn get(&self, id: UpgradeId) -> (r: usize)
        ensures
            r == self.level(id),
    {
        self.levels[id.index()]
    }

    pub fn set(&mut self, id: UpgradeId, level: usize)
        ensures
            final(self).level(id) == level,
            forall|other: UpgradeId|
                other != id ==> #[trigger] final(self).level(other) == old(self).level(other),
    {
        let i = id.index();
        self.levels[i] = level;
        proof {
            assert forall|other: UpgradeId| other != id implies #[trigger] final(self).level(other)
                == old(self).level(other) by {
                if index_of(other) == index_of(id) {
                    assert(other == id);
                }
            }
        }
    }
}

} // verus!
