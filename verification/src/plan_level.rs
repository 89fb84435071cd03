//! Subscription plan levels and the names they are written with.

use vstd::prelude::*;
use crate::text::same_text;

verus! {

/// The subscription tier of an organization.
#[derive(Debug, Clone, Copy, PartialEq, Eq, Hash, Structural)]
pub enum PlanLevel {
    Free,
    Team,
    Enterprise,
}

/// A text that names no plan level.
#[derive(Debug, Clone, PartialEq, Eq)]
pub enum ValidError {
    PlanLevel(String),
}

/// The plan level that a text names: each level has a short name, and the
/// paid levels have a long one as well. Names are matched letter for
/// letter.
pub open spec fn named_level(text: Seq<char>) -> Option<PlanLevel> {
    if text == "free"@ {
        Some(PlanLevel::Free)
    } else if text == "team"@ || text == "Bencher Team"@ {
        Some(PlanLevel::Team)
    } else if text == "enterprise"@ || text == "Bencher Enterprise"@ {
        Some(PlanLevel::Enterprise)
    } else {
        None
    }
}

/// The short name of a plan level.
pub open spec fn level_name(level: PlanLevel) -> Seq<char> {
    match level {
        PlanLevel::Free => "free"@,
        PlanLevel::Team => "team"@,
        PlanLevel::Enterprise => "enterprise"@,
    }
}

/// Tells whether a text names a plan level.
pub fn is_valid_plan_level(plan_level: &str) -> (valid: bool)
    ensures
        valid == named_level(plan_level@) is Some,
{
    same_text(plan_level, "free") || same_text(plan_level, "team") || same_text(
        plan_level,
        "Bencher Team",
    ) || same_text(plan_level, "enterprise") || same_text(plan_level, "Bencher Enterprise")
}

impl PlanLevel {
    /// Reads a plan level from its name. Any other text comes back in the
    /// error.
    pub fn from_str(plan_level: &str) -> (level: Result<PlanLevel, ValidError>)
        ensures
            match level {
                Ok(l) => named_level(plan_level@) == Some(l),
                Err(ValidError::PlanLevel(text)) => named_level(plan_level@) is None && text@
                    == plan_level@,
            },
    {
        if same_text(plan_level, "free") {
            Ok(PlanLevel::Free)
        } else if same_text(plan_level, "team") || same_text(plan_level, "Bencher Team") {
            Ok(PlanLevel::Team)
        } else if same_text(plan_level, "enterprise") || same_text(plan_level, "Bencher Enterprise") {
            Ok(PlanLevel::Enterprise)
        } else {
            Err(ValidError::PlanLevel(plan_level.to_owned()))
        }
    }

    /// The short name of the plan level.
    pub fn as_ref(&self) -> (name: &'static str)
        ensures
            name@ == level_name(*self),
    {
        match self {
            PlanLevel::Free => "free",
            PlanLevel::Team => "team",
            PlanLevel::Enterprise => "enterprise",
        }
    }

    /// The short name of the plan level as an owned text.
    pub fn to_text(&self) -> (name: String)
        ensures
            name@ == level_name(*self),
    {
        self.as_ref().to_owned()
    }
}

impl Default for PlanLevel {
    fn default() -> (level: PlanLevel)
        ensures
            level == PlanLevel::Free,
    {
        PlanLevel::Free
    }
}

/// The short name of a plan level names that level.
pub proof fn lemma_name_names_level(level: PlanLevel)
    ensures
        named_level(level_name(level)) == Some(level),
{
    reveal_strlit("free");
    reveal_strlit("team");
    reveal_strlit("enterprise");
    reveal_strlit("Bencher Team");
    reveal_strlit("Bencher Enterprise");
    assert("free"@.len() == 4 && "team"@.len() == 4 && "enterprise"@.len() == 10);
    assert("free"@[0] == 'f' && "team"@[0] == 't');
}

} // verus!
