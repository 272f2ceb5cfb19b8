//! The attainment record of the SISU student information system, as it is
//! read from the system's answer: every field holds what the answer gave for
//! it, unread, and `None` where the answer had no such field.

use vstd::prelude::*;
use crate::errors::MappingError;
use crate::europass_learning_model::EuropassCredential;
use crate::mapping::{map_attainment, maps_to};

verus! {

/// A text in English, Finnish and Swedish.
#[derive(Clone, Debug)]
pub struct LocalizedString {
    pub en: Option<String>,
    pub fi: Option<String>,
    pub sv: Option<String>,
}

/// A person who accepted the attainment, with the role in which the person
/// did so.
#[derive(Clone, Debug)]
pub struct PersonWithAttainmentAcceptorType {
    /// The identifier of the person.
    pub person_id: Option<String>,
    /// The role of the person, as a URN.
    pub role_urn: Option<String>,
    /// Further information on the person.
    pub text: Option<LocalizedString>,
    /// The title of the person.
    pub title: Option<LocalizedString>,
}

/// Where a transferred attainment comes from.
#[derive(Clone, Debug)]
pub struct CreditTransferInfo {
    /// The day of the credit transfer.
    pub credit_transfer_date: Option<String>,
    /// The institution where the credit was attained, as a URN.
    pub educational_institution_urn: Option<String>,
    /// The institution abroad, where the former names a foreign institution.
    pub international_institution_urn: Option<String>,
    /// A description of the organisation, where no URN can be given.
    pub organisation: Option<String>,
}

/// A grade average and how it was calculated.
#[derive(Clone, Debug)]
pub struct GradeAverage {
    /// The grade scale that was used.
    pub grade_scale_id: Option<String>,
    /// The method of calculation.
    pub method: Option<String>,
    /// The number of credits that went into the calculation.
    pub total_included_credits: Option<String>,
    /// The average.
    pub value: Option<String>,
}

/// An organisation that is responsible for the attainment, in a role and
/// for a share.
#[derive(Clone, Debug)]
pub struct OrganisationRoleShareBase {
    /// The educational institution, as a URN.
    pub educational_institution_urn: Option<String>,
    /// The identifier of the organisation.
    pub organisation_id: Option<String>,
    /// The role of the organisation, as a URN.
    pub role_urn: Option<String>,
    /// The share: greater than zero and at most one. The shares of one role
    /// sum to one.
    pub share: Option<String>,
}

/// One attainment of one student: a grade and credits, given for an
/// assessment item, a course unit or a module.
#[derive(Clone, Debug)]
pub struct SISUAttainment {
    /// Those who accepted the attainment.
    pub acceptor_persons: Option<Vec<PersonWithAttainmentAcceptorType>>,
    /// Further information on the attainment.
    pub additional_info: Option<LocalizedString>,
    /// The day on which the attainment was received.
    pub attainment_date: Option<String>,
    /// The language of the attainment, as a URN.
    pub attainment_language_urn: Option<String>,
    /// Where the attainment comes from, if it was transferred.
    pub credit_transfer_info: Option<CreditTransferInfo>,
    /// The number of credits.
    pub credits: Option<String>,
    /// The state of the record as a document.
    pub document_state: Option<String>,
    /// The day on which the attainment expires.
    pub expiry_date: Option<String>,
    /// The grade average.
    pub grade_average: Option<GradeAverage>,
    /// The index of the grade within its grade scale.
    pub grade_id: Option<String>,
    /// The grade scale.
    pub grade_scale_id: Option<String>,
    /// The identifier of the attainment.
    pub id: Option<String>,
    /// Whether the attainment was registered by mistake.
    pub misregistration: Option<bool>,
    /// Why the attainment counts as registered by mistake.
    pub misregistration_rationale: Option<String>,
    /// The module content application that affects the same module.
    pub module_content_application_id: Option<String>,
    /// The organisations responsible for the attainment.
    pub organisations: Option<Vec<OrganisationRoleShareBase>>,
    /// The first names of the student.
    pub person_first_names: Option<String>,
    /// The identifier of the student.
    pub person_id: Option<String>,
    /// The last name of the student.
    pub person_last_name: Option<String>,
    /// The student number.
    pub person_student_number: Option<String>,
    /// Whether this is the primary attainment among several.
    pub primary: Option<bool>,
    /// The day on which the attainment was registered.
    pub registration_date: Option<String>,
    /// The state of the attainment.
    pub state: Option<String>,
    /// The student application that led to the attainment.
    pub student_application_id: Option<String>,
    /// The field of study, as a URN.
    pub study_field_urn: Option<String>,
    /// The study right that the attainment belongs to.
    pub study_right_id: Option<String>,
    /// The number of study weeks, for attainments older than credits.
    pub study_weeks: Option<String>,
    /// What the attainment was given for.
    pub attainment_type: Option<String>,
    /// The identifier of the person who verified the attainment.
    pub verifier_person_id: Option<String>,
}

impl SISUAttainment {
    /// Maps the attainment onto a credential, or says why it cannot be
    /// mapped. No credential comes back unless every stage has passed.
    pub fn to_europass_credential(&self) -> (outcome: Result<EuropassCredential, MappingError>)
        ensures
            maps_to(self, outcome),
    {
        map_attainment(self)
    }
}

} // verus!
