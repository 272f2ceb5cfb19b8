//! The European Qualifications Framework: eight levels of qualification, each
//! described by the knowledge, the skills, and the responsibility and autonomy
//! that a qualification at that level stands for.

use vstd::prelude::*;
use crate::vocabulary::{Domain, Vocabulary};

verus! {

/// A level of the European Qualifications Framework.
#[derive(Clone, Copy, Debug, PartialEq, Eq, Structural)]
pub enum EQFLevel {
    /// Basic general knowledge and basic skills for simple tasks; work or
    /// study under direct supervision in a structured context.
    Level1,
    /// Basic factual knowledge of a field; routine problems solved with simple
    /// rules and tools; supervision with some autonomy.
    Level2,
    /// Knowledge of facts, principles, processes and general concepts;
    /// responsibility for completing tasks.
    Level3,
    /// Factual and theoretical knowledge in broad contexts; self-management
    /// within guidelines that are usually predictable.
    Level4,
    /// Comprehensive, specialised knowledge and awareness of its boundaries;
    /// management and supervision where change is unpredictable.
    Level5,
    /// Advanced knowledge with a critical understanding of theories and
    /// principles; management of complex activities or projects.
    Level6,
    /// Highly specialised knowledge, some of it at the forefront of a field;
    /// management of contexts that need new strategic approaches.
    Level7,
    /// Knowledge at the most advanced frontier of a field; substantial
    /// authority, innovation and scholarly integrity.
    Level8,
}

/// The codes of [`EQFLevel`]: the level numbers.
pub const EQF_LEVEL_CODES: [&'static str; 8] = [
    "1", "2", "3", "4", "5", "6", "7", "8",
];

impl Vocabulary for EQFLevel {
    open spec fn domain_of() -> Domain {
        Domain::EqfLevel
    }

    open spec fn codes() -> Seq<&'static str> {
        EQF_LEVEL_CODES@
    }

    open spec fn position(&self) -> int {
        match self {
            EQFLevel::Level1 => 0,
            EQFLevel::Level2 => 1,
            EQFLevel::Level3 => 2,
            EQFLevel::Level4 => 3,
            EQFLevel::Level5 => 4,
            EQFLevel::Level6 => 5,
            EQFLevel::Level7 => 6,
            EQFLevel::Level8 => 7,
        }
    }

    fn domain() -> Domain {
        Domain::EqfLevel
    }

    fn table() -> &'static [&'static str] {
        &EQF_LEVEL_CODES
    }

    fn at(i: usize) -> Self {
        match i {
            0 => EQFLevel::Level1,
            1 => EQFLevel::Level2,
            2 => EQFLevel::Level3,
            3 => EQFLevel::Level4,
            4 => EQFLevel::Level5,
            5 => EQFLevel::Level6,
            6 => EQFLevel::Level7,
            _ => EQFLevel::Level8,
        }
    }

    fn index(&self) -> usize {
        match self {
            EQFLevel::Level1 => 0,
            EQFLevel::Level2 => 1,
            EQFLevel::Level3 => 2,
            EQFLevel::Level4 => 3,
            EQFLevel::Level5 => 4,
            EQFLevel::Level6 => 5,
            EQFLevel::Level7 => 6,
            EQFLevel::Level8 => 7,
        }
    }
}

} // verus!
