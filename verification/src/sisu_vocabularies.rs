//! The closed lists of literals that an attainment record may hold.

use vstd::prelude::*;
use crate::vocabulary::{resolve, resolves, Domain, VocabError, Vocabulary};

verus! {

/// The roles in which a person accepts an attainment.
#[derive(Clone, Copy, Debug, PartialEq, Eq, Structural)]
pub enum RoleURN {
    ApprovedBy,
    CoordinatingSupervisor,
    CoordinatingProfessor,
    SupervisingProfessor,
    MoreSupervisingProfessor,
    Examinator,
    Supervisor,
    ThesisAdvisor,
    Examiner,
    PreliminaryExaminer,
    Opponent,
    Custos,
}

/// The literals of [`RoleURN`], in the order of its terms.
pub const ROLE_CODES: [&'static str; 12] = [
    "urn:code:attainment-acceptor-type:approved-by",
    "urn:code:attainment-acceptor-type:coordinating-supervisor",
    "urn:code:attainment-acceptor-type:coordinating-professor",
    "urn:code:attainment-acceptor-type:supervising-professor",
    "urn:code:attainment-acceptor-type:more-supervising-professor",
    "urn:code:attainment-acceptor-type:examinator",
    "urn:code:attainment-acceptor-type:supervisor",
    "urn:code:attainment-acceptor-type:thesis-advisor",
    "urn:code:attainment-acceptor-type:examiner",
    "urn:code:attainment-acceptor-type:preliminary-examiner",
    "urn:code:attainment-acceptor-type:opponent",
    "urn:code:attainment-acceptor-type:custos",
];

impl Vocabulary for RoleURN {
    open spec fn domain_of() -> Domain {
        Domain::Role
    }

    open spec fn codes() -> Seq<&'static str> {
        ROLE_CODES@
    }

    open spec fn position(&self) -> int {
        match self {
            RoleURN::ApprovedBy => 0,
            RoleURN::CoordinatingSupervisor => 1,
            RoleURN::CoordinatingProfessor => 2,
            RoleURN::SupervisingProfessor => 3,
            RoleURN::MoreSupervisingProfessor => 4,
            RoleURN::Examinator => 5,
            RoleURN::Supervisor => 6,
            RoleURN::ThesisAdvisor => 7,
            RoleURN::Examiner => 8,
            RoleURN::PreliminaryExaminer => 9,
            RoleURN::Opponent => 10,
            RoleURN::Custos => 11,
        }
    }

    fn domain() -> Domain {
        Domain::Role
    }

    fn table() -> &'static [&'static str] {
        &ROLE_CODES
    }

    fn at(i: usize) -> Self {
        match i {
            0 => RoleURN::ApprovedBy,
            1 => RoleURN::CoordinatingSupervisor,
            2 => RoleURN::CoordinatingProfessor,
            3 => RoleURN::SupervisingProfessor,
            4 => RoleURN::MoreSupervisingProfessor,
            5 => RoleURN::Examinator,
            6 => RoleURN::Supervisor,
            7 => RoleURN::ThesisAdvisor,
            8 => RoleURN::Examiner,
            9 => RoleURN::PreliminaryExaminer,
            10 => RoleURN::Opponent,
            _ => RoleURN::Custos,
        }
    }

    fn index(&self) -> usize {
        match self {
            RoleURN::ApprovedBy => 0,
            RoleURN::CoordinatingSupervisor => 1,
            RoleURN::CoordinatingProfessor => 2,
            RoleURN::SupervisingProfessor => 3,
            RoleURN::MoreSupervisingProfessor => 4,
            RoleURN::Examinator => 5,
            RoleURN::Supervisor => 6,
            RoleURN::ThesisAdvisor => 7,
            RoleURN::Examiner => 8,
            RoleURN::PreliminaryExaminer => 9,
            RoleURN::Opponent => 10,
            RoleURN::Custos => 11,
        }
    }
}

/// The state that a document is in.
#[derive(Clone, Copy, Debug, PartialEq, Eq, Structural)]
pub enum DocumentState {
    Draft,
    Active,
    Deleted,
}

/// The literals of [`DocumentState`], in the order of its terms.
pub const DOCUMENT_STATE_CODES: [&'static str; 3] = [
    "DRAFT",
    "ACTIVE",
    "DELETED",
];

impl Vocabulary for DocumentState {
    open spec fn domain_of() -> Domain {
        Domain::DocumentState
    }

    open spec fn codes() -> Seq<&'static str> {
        DOCUMENT_STATE_CODES@
    }

    open spec fn position(&self) -> int {
        match self {
            DocumentState::Draft => 0,
            DocumentState::Active => 1,
            DocumentState::Deleted => 2,
        }
    }

    fn domain() -> Domain {
        Domain::DocumentState
    }

    fn table() -> &'static [&'static str] {
        &DOCUMENT_STATE_CODES
    }

    fn at(i: usize) -> Self {
        match i {
            0 => DocumentState::Draft,
            1 => DocumentState::Active,
            _ => DocumentState::Deleted,
        }
    }

    fn index(&self) -> usize {
        match self {
            DocumentState::Draft => 0,
            DocumentState::Active => 1,
            DocumentState::Deleted => 2,
        }
    }
}

/// How a grade average was calculated.
#[derive(Clone, Copy, Debug, PartialEq, Eq, Structural)]
pub enum AverageCalculationMethod {
    CourseUnitArithmeticMeanWeightingByCredits,
    ArithmeticMeanWeightingByCredits,
}

/// The literals of [`AverageCalculationMethod`], in the order of its terms.
pub const AVERAGE_CALCULATION_METHOD_CODES: [&'static str; 2] = [
    "COURSE_UNIT_ARITHMETIC_MEAN_WEIGHTING_BY_CREDITS",
    "ARITHMETIC_MEAN_WEIGHTING_BY_CREDITS",
];

impl Vocabulary for AverageCalculationMethod {
    open spec fn domain_of() -> Domain {
        Domain::AverageCalculationMethod
    }

    open spec fn codes() -> Seq<&'static str> {
        AVERAGE_CALCULATION_METHOD_CODES@
    }

    open spec fn position(&self) -> int {
        match self {
            AverageCalculationMethod::CourseUnitArithmeticMeanWeightingByCredits => 0,
            AverageCalculationMethod::ArithmeticMeanWeightingByCredits => 1,
        }
    }

    fn domain() -> Domain {
        Domain::AverageCalculationMethod
    }

    fn table() -> &'static [&'static str] {
        &AVERAGE_CALCULATION_METHOD_CODES
    }

    fn at(i: usize) -> Self {
        match i {
            0 => AverageCalculationMethod::CourseUnitArithmeticMeanWeightingByCredits,
            _ => AverageCalculationMethod::ArithmeticMeanWeightingByCredits,
        }
    }

    fn index(&self) -> usize {
        match self {
            AverageCalculationMethod::CourseUnitArithmeticMeanWeightingByCredits => 0,
            AverageCalculationMethod::ArithmeticMeanWeightingByCredits => 1,
        }
    }
}

/// The state that an attainment is in.
#[derive(Clone, Copy, Debug, PartialEq, Eq, Structural)]
pub enum AttainmentState {
    Attained,
    Included,
    Substituted,
    Failed,
}

/// The literals of [`AttainmentState`], in the order of its terms.
pub const ATTAINMENT_STATE_CODES: [&'static str; 4] = [
    "ATTAINED",
    "INCLUDED",
    "SUBSTITUTED",
    "FAILED",
];

impl Vocabulary for AttainmentState {
    open spec fn domain_of() -> Domain {
        Domain::AttainmentState
    }

    open spec fn codes() -> Seq<&'static str> {
        ATTAINMENT_STATE_CODES@
    }

    open spec fn position(&self) -> int {
        match self {
            AttainmentState::Attained => 0,
            AttainmentState::Included => 1,
            AttainmentState::Substituted => 2,
            AttainmentState::Failed => 3,
        }
    }

    fn domain() -> Domain {
        Domain::AttainmentState
    }

    fn table() -> &'static [&'static str] {
        &ATTAINMENT_STATE_CODES
    }

    fn at(i: usize) -> Self {
        match i {
            0 => AttainmentState::Attained,
            1 => AttainmentState::Included,
            2 => AttainmentState::Substituted,
            _ => AttainmentState::Failed,
        }
    }

    fn index(&self) -> usize {
        match self {
            AttainmentState::Attained => 0,
            AttainmentState::Included => 1,
            AttainmentState::Substituted => 2,
            AttainmentState::Failed => 3,
        }
    }
}

/// What an attainment was given for.
#[derive(Clone, Copy, Debug, PartialEq, Eq, Structural)]
pub enum AttainmentType {
    AssessmentItemAttainment,
    CourseUnitAttainment,
    ModuleAttainment,
}

/// The literals of [`AttainmentType`], in the order of its terms.
pub const ATTAINMENT_TYPE_CODES: [&'static str; 3] = [
    "AssessmentItemAttainment",
    "CourseUnitAttainment",
    "ModuleAttainment",
];

impl Vocabulary for AttainmentType {
    open spec fn domain_of() -> Domain {
        Domain::AttainmentType
    }

    open spec fn codes() -> Seq<&'static str> {
        ATTAINMENT_TYPE_CODES@
    }

    open spec fn position(&self) -> int {
        match self {
            AttainmentType::AssessmentItemAttainment => 0,
            AttainmentType::CourseUnitAttainment => 1,
            AttainmentType::ModuleAttainment => 2,
        }
    }

    fn domain() -> Domain {
        Domain::AttainmentType
    }

    fn table() -> &'static [&'static str] {
        &ATTAINMENT_TYPE_CODES
    }

    fn at(i: usize) -> Self {
        match i {
            0 => AttainmentType::AssessmentItemAttainment,
            1 => AttainmentType::CourseUnitAttainment,
            _ => AttainmentType::ModuleAttainment,
        }
    }

    fn index(&self) -> usize {
        match self {
            AttainmentType::AssessmentItemAttainment => 0,
            AttainmentType::CourseUnitAttainment => 1,
            AttainmentType::ModuleAttainment => 2,
        }
    }
}

impl RoleURN {
    /// The role written `value`, matched exactly; `UnknownCode` for a URN that
    /// the table does not list.
    pub fn try_from(value: &str) -> (outcome: Result<RoleURN, VocabError>)
        ensures
            resolves::<RoleURN>(value@, outcome),
    {
        resolve::<RoleURN>(value)
    }
}

} // verus!
