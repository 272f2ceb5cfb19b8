//! The errors of the credential model and of the mapping engine.

use vstd::prelude::*;
use crate::vocabulary::Domain;

verus! {

/// The relations by which an entity of the model refers to an entity of its
/// own kind.
#[derive(Clone, Copy, Debug, PartialEq, Eq, Structural)]
pub enum Relation {
    /// A credential contains a smaller credential.
    Contains,
    /// An organisation has a unit.
    HasUnit,
    /// An organisation is a unit of a larger one.
    UnitOf,
    /// A specification has a narrower part.
    HasPart,
    /// A specification specialises another.
    SpecialisationOf,
}

impl Relation {
    /// The relation's name, as the credential schema writes it.
    pub open spec fn name_of(self) -> Seq<char> {
        match self {
            Relation::Contains => "contains"@,
            Relation::HasUnit => "has_unit"@,
            Relation::UnitOf => "unit_of"@,
            Relation::HasPart => "has_part"@,
            Relation::SpecialisationOf => "specialisation_of"@,
        }
    }

    /// The relation's name, as the credential schema writes it.
    pub fn name(&self) -> (name: &'static str)
        ensures
            name@ == self.name_of(),
    {
        match self {
            Relation::Contains => "contains",
            Relation::HasUnit => "has_unit",
            Relation::UnitOf => "unit_of",
            Relation::HasPart => "has_part",
            Relation::SpecialisationOf => "specialisation_of",
        }
    }
}

/// Why an entity of the model could not be built.
#[derive(Clone, Copy, Debug, PartialEq, Eq, Structural)]
pub enum ModelError {
    /// An identifier without content, or with scheme fields that do not fit
    /// together.
    InvalidIdentifier,
    /// An entity would reach itself again over `relation`.
    StructuralCycle { relation: Relation },
}

/// Why an attainment record could not be mapped onto a credential.
#[derive(Debug)]
pub enum MappingError {
    /// The record's field `field` holds `value`, which the vocabulary of
    /// `domain` does not list.
    UnknownCode { domain: Domain, field: String, value: String },
    /// An identifier without content, or with scheme fields that do not fit
    /// together.
    InvalidIdentifier,
    /// An entity would reach itself again over `relation`.
    StructuralCycle { relation: Relation },
    /// The record lacks the required field `name`.
    MissingField { name: String },
    /// The record's field `field` holds `value`, which is no date.
    DateParseError { field: String, value: String },
    /// The record's field `field` holds a number outside the range that the
    /// field allows, or no number at all.
    NumericRangeError { field: String },
}

/// The plain content of a mapping error: what it is, with each text as a
/// sequence of characters.
pub enum MappingFault {
    UnknownCode { domain: Domain, field: Seq<char>, value: Seq<char> },
    InvalidIdentifier,
    StructuralCycle { relation: Relation },
    MissingField { name: Seq<char> },
    DateParseError { field: Seq<char>, value: Seq<char> },
    NumericRangeError { field: Seq<char> },
}

impl View for MappingError {
    type V = MappingFault;

    open spec fn view(&self) -> MappingFault {
        match self {
            MappingError::UnknownCode { domain, field, value } => MappingFault::UnknownCode {
                domain: *domain,
                field: field@,
                value: value@,
            },
            MappingError::InvalidIdentifier => MappingFault::InvalidIdentifier,
            MappingError::StructuralCycle { relation } => MappingFault::StructuralCycle { relation: *relation },
            MappingError::MissingField { name } => MappingFault::MissingField { name: name@ },
            MappingError::DateParseError { field, value } => MappingFault::DateParseError {
                field: field@,
                value: value@,
            },
            MappingError::NumericRangeError { field } => MappingFault::NumericRangeError { field: field@ },
        }
    }
}

impl ModelError {
    /// The fault that a mapping reports for this error.
    pub open spec fn fault(self) -> MappingFault {
        match self {
            ModelError::InvalidIdentifier => MappingFault::InvalidIdentifier,
            ModelError::StructuralCycle { relation } => MappingFault::StructuralCycle { relation },
        }
    }
}

impl MappingError {
    /// The mapping error that stands for an error of the model.
    pub fn from_model(error: ModelError) -> (e: MappingError)
        ensures
            e@ == error.fault(),
    {
        match error {
            ModelError::InvalidIdentifier => MappingError::InvalidIdentifier,
            ModelError::StructuralCycle { relation } => MappingError::StructuralCycle { relation },
        }
    }
}

} // verus!
