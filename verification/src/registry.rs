//! The vocabulary registry: one place that resolves a code of any domain to
//! the term it stands for.

use vstd::prelude::*;
use crate::controlled_vocabularies::{
    ACCREDITATION_TYPE_CODES, ASSESSMENT_TYPE_CODES, AccreditationType, AssessmentType,
    COMMUNICATION_CHANNEL_TYPE_CODES, COMMUNICATION_CHANNEL_USAGE_TYPE_CODES,
    CONTENT_ENCODING_CODES, CREDENTIAL_TYPE_CODES, CURRENCY_CODES, CommunicationChannelType,
    CommunicationChannelUsageType, ContentEncodingTypes, CredentialType,
    EDUCATIONAL_CREDIT_SYSTEM_CODES, ENTITLEMENT_STATUS_CODES, ENTITLEMENT_TYPE_CODES,
    EducationalCreditSystems, EntitlementStatus, EntitlementType, EuropeanLanguage,
    LANGUAGE_CODES, LEARNING_ACTIVITY_TYPE_CODES, LEARNING_OPPORTUNITY_TYPE_CODES,
    LEARNING_SCHEDULE_TYPE_CODES, LEARNING_SETTING_TYPE_CODES, LearningActivityType,
    LearningOpportunityType, LearningScheduleType, LearningSettingType, LearningTargetGroup,
    MDRcurrency, MDRunit, MODE_OF_LEARNING_CODES, ModeOfLearningType, TARGET_GROUP_CODES,
    UNIT_CODES, VERIFICATION_STATUS_CODES, VERIFICATION_TYPE_CODES, VerificationStatus,
    VerificationType,
};
use crate::european_qualifications_framework::{EQFLevel, EQF_LEVEL_CODES};
use crate::sisu_vocabularies::{
    ATTAINMENT_STATE_CODES, ATTAINMENT_TYPE_CODES, AVERAGE_CALCULATION_METHOD_CODES,
    AttainmentState, AttainmentType, AverageCalculationMethod, DOCUMENT_STATE_CODES,
    DocumentState, ROLE_CODES, RoleURN,
};
use crate::vocabulary::{code_of, is_listed, is_position, resolve, Domain, VocabError, Vocabulary};

verus! {

/// A term of one of the controlled vocabularies.
#[derive(Clone, Copy, Debug)]
pub enum Term {
    Currency(MDRcurrency),
    MeasurementUnit(MDRunit),
    EqfLevel(EQFLevel),
    AccreditationType(AccreditationType),
    AssessmentType(AssessmentType),
    CommunicationChannelType(CommunicationChannelType),
    CommunicationChannelUsageType(CommunicationChannelUsageType),
    ContentEncoding(ContentEncodingTypes),
    EducationalCreditSystem(EducationalCreditSystems),
    CredentialType(CredentialType),
    EntitlementStatus(EntitlementStatus),
    EntitlementType(EntitlementType),
    LearningActivityType(LearningActivityType),
    LearningOpportunityType(LearningOpportunityType),
    LearningScheduleType(LearningScheduleType),
    LearningSettingType(LearningSettingType),
    ModeOfLearning(ModeOfLearningType),
    TargetGroup(LearningTargetGroup),
    VerificationStatus(VerificationStatus),
    VerificationType(VerificationType),
    Language(EuropeanLanguage),
    Role(RoleURN),
    DocumentState(DocumentState),
    AverageCalculationMethod(AverageCalculationMethod),
    AttainmentState(AttainmentState),
    AttainmentType(AttainmentType),
}

/// The table of codes of a domain.
pub open spec fn codes_of(domain: Domain) -> Seq<&'static str> {
    match domain {
        Domain::Currency => CURRENCY_CODES@,
        Domain::MeasurementUnit => UNIT_CODES@,
        Domain::EqfLevel => EQF_LEVEL_CODES@,
        Domain::AccreditationType => ACCREDITATION_TYPE_CODES@,
        Domain::AssessmentType => ASSESSMENT_TYPE_CODES@,
        Domain::CommunicationChannelType => COMMUNICATION_CHANNEL_TYPE_CODES@,
        Domain::CommunicationChannelUsageType => COMMUNICATION_CHANNEL_USAGE_TYPE_CODES@,
        Domain::ContentEncoding => CONTENT_ENCODING_CODES@,
        Domain::EducationalCreditSystem => EDUCATIONAL_CREDIT_SYSTEM_CODES@,
        Domain::CredentialType => CREDENTIAL_TYPE_CODES@,
        Domain::EntitlementStatus => ENTITLEMENT_STATUS_CODES@,
        Domain::EntitlementType => ENTITLEMENT_TYPE_CODES@,
        Domain::LearningActivityType => LEARNING_ACTIVITY_TYPE_CODES@,
        Domain::LearningOpportunityType => LEARNING_OPPORTUNITY_TYPE_CODES@,
        Domain::LearningScheduleType => LEARNING_SCHEDULE_TYPE_CODES@,
        Domain::LearningSettingType => LEARNING_SETTING_TYPE_CODES@,
        Domain::ModeOfLearning => MODE_OF_LEARNING_CODES@,
        Domain::TargetGroup => TARGET_GROUP_CODES@,
        Domain::VerificationStatus => VERIFICATION_STATUS_CODES@,
        Domain::VerificationType => VERIFICATION_TYPE_CODES@,
        Domain::Language => LANGUAGE_CODES@,
        Domain::Role => ROLE_CODES@,
        Domain::DocumentState => DOCUMENT_STATE_CODES@,
        Domain::AverageCalculationMethod => AVERAGE_CALCULATION_METHOD_CODES@,
        Domain::AttainmentState => ATTAINMENT_STATE_CODES@,
        Domain::AttainmentType => ATTAINMENT_TYPE_CODES@,
    }
}

impl Term {
    /// The domain that the term belongs to.
    pub open spec fn domain_of(self) -> Domain {
        match self {
            Term::Currency(_) => Domain::Currency,
            Term::MeasurementUnit(_) => Domain::MeasurementUnit,
            Term::EqfLevel(_) => Domain::EqfLevel,
            Term::AccreditationType(_) => Domain::AccreditationType,
            Term::AssessmentType(_) => Domain::AssessmentType,
            Term::CommunicationChannelType(_) => Domain::CommunicationChannelType,
            Term::CommunicationChannelUsageType(_) => Domain::CommunicationChannelUsageType,
            Term::ContentEncoding(_) => Domain::ContentEncoding,
            Term::EducationalCreditSystem(_) => Domain::EducationalCreditSystem,
            Term::CredentialType(_) => Domain::CredentialType,
            Term::EntitlementStatus(_) => Domain::EntitlementStatus,
            Term::EntitlementType(_) => Domain::EntitlementType,
            Term::LearningActivityType(_) => Domain::LearningActivityType,
            Term::LearningOpportunityType(_) => Domain::LearningOpportunityType,
            Term::LearningScheduleType(_) => Domain::LearningScheduleType,
            Term::LearningSettingType(_) => Domain::LearningSettingType,
            Term::ModeOfLearning(_) => Domain::ModeOfLearning,
            Term::TargetGroup(_) => Domain::TargetGroup,
            Term::VerificationStatus(_) => Domain::VerificationStatus,
            Term::VerificationType(_) => Domain::VerificationType,
            Term::Language(_) => Domain::Language,
            Term::Role(_) => Domain::Role,
            Term::DocumentState(_) => Domain::DocumentState,
            Term::AverageCalculationMethod(_) => Domain::AverageCalculationMethod,
            Term::AttainmentState(_) => Domain::AttainmentState,
            Term::AttainmentType(_) => Domain::AttainmentType,
        }
    }

    /// The position of the term's code in the table of its domain.
    pub open spec fn position(self) -> int {
        match self {
            Term::Currency(term) => term.position(),
            Term::MeasurementUnit(term) => term.position(),
            Term::EqfLevel(term) => term.position(),
            Term::AccreditationType(term) => term.position(),
            Term::AssessmentType(term) => term.position(),
            Term::CommunicationChannelType(term) => term.position(),
            Term::CommunicationChannelUsageType(term) => term.position(),
            Term::ContentEncoding(term) => term.position(),
            Term::EducationalCreditSystem(term) => term.position(),
            Term::CredentialType(term) => term.position(),
            Term::EntitlementStatus(term) => term.position(),
            Term::EntitlementType(term) => term.position(),
            Term::LearningActivityType(term) => term.position(),
            Term::LearningOpportunityType(term) => term.position(),
            Term::LearningScheduleType(term) => term.position(),
            Term::LearningSettingType(term) => term.position(),
            Term::ModeOfLearning(term) => term.position(),
            Term::TargetGroup(term) => term.position(),
            Term::VerificationStatus(term) => term.position(),
            Term::VerificationType(term) => term.position(),
            Term::Language(term) => term.position(),
            Term::Role(term) => term.position(),
            Term::DocumentState(term) => term.position(),
            Term::AverageCalculationMethod(term) => term.position(),
            Term::AttainmentState(term) => term.position(),
            Term::AttainmentType(term) => term.position(),
        }
    }

    /// The term's code, as the table of its domain writes it.
    pub open spec fn code_of(self) -> Seq<char> {
        codes_of(self.domain_of())[self.position()]@
    }

    /// The domain that the term belongs to.
    pub fn domain(&self) -> (domain: Domain)
        ensures
            domain == self.domain_of(),
    {
        match self {
            Term::Currency(_) => Domain::Currency,
            Term::MeasurementUnit(_) => Domain::MeasurementUnit,
            Term::EqfLevel(_) => Domain::EqfLevel,
            Term::AccreditationType(_) => Domain::AccreditationType,
            Term::AssessmentType(_) => Domain::AssessmentType,
            Term::CommunicationChannelType(_) => Domain::CommunicationChannelType,
            Term::CommunicationChannelUsageType(_) => Domain::CommunicationChannelUsageType,
            Term::ContentEncoding(_) => Domain::ContentEncoding,
            Term::EducationalCreditSystem(_) => Domain::EducationalCreditSystem,
            Term::CredentialType(_) => Domain::CredentialType,
            Term::EntitlementStatus(_) => Domain::EntitlementStatus,
            Term::EntitlementType(_) => Domain::EntitlementType,
            Term::LearningActivityType(_) => Domain::LearningActivityType,
            Term::LearningOpportunityType(_) => Domain::LearningOpportunityType,
            Term::LearningScheduleType(_) => Domain::LearningScheduleType,
            Term::LearningSettingType(_) => Domain::LearningSettingType,
            Term::ModeOfLearning(_) => Domain::ModeOfLearning,
            Term::TargetGroup(_) => Domain::TargetGroup,
            Term::VerificationStatus(_) => Domain::VerificationStatus,
            Term::VerificationType(_) => Domain::VerificationType,
            Term::Language(_) => Domain::Language,
            Term::Role(_) => Domain::Role,
            Term::DocumentState(_) => Domain::DocumentState,
            Term::AverageCalculationMethod(_) => Domain::AverageCalculationMethod,
            Term::AttainmentState(_) => Domain::AttainmentState,
            Term::AttainmentType(_) => Domain::AttainmentType,
        }
    }

    /// The term's code, as the table of its domain writes it.
    pub fn code(&self) -> (code: &'static str)
        ensures
            code@ == self.code_of(),
    {
        match self {
            Term::Currency(term) => code_of(term),
            Term::MeasurementUnit(term) => code_of(term),
            Term::EqfLevel(term) => code_of(term),
            Term::AccreditationType(term) => code_of(term),
            Term::AssessmentType(term) => code_of(term),
            Term::CommunicationChannelType(term) => code_of(term),
            Term::CommunicationChannelUsageType(term) => code_of(term),
            Term::ContentEncoding(term) => code_of(term),
            Term::EducationalCreditSystem(term) => code_of(term),
            Term::CredentialType(term) => code_of(term),
            Term::EntitlementStatus(term) => code_of(term),
            Term::EntitlementType(term) => code_of(term),
            Term::LearningActivityType(term) => code_of(term),
            Term::LearningOpportunityType(term) => code_of(term),
            Term::LearningScheduleType(term) => code_of(term),
            Term::LearningSettingType(term) => code_of(term),
            Term::ModeOfLearning(term) => code_of(term),
            Term::TargetGroup(term) => code_of(term),
            Term::VerificationStatus(term) => code_of(term),
            Term::VerificationType(term) => code_of(term),
            Term::Language(term) => code_of(term),
            Term::Role(term) => code_of(term),
            Term::DocumentState(term) => code_of(term),
            Term::AverageCalculationMethod(term) => code_of(term),
            Term::AttainmentState(term) => code_of(term),
            Term::AttainmentType(term) => code_of(term),
        }
    }

    /// The position of the term's code in the table of its domain.
    pub fn index(&self) -> (i: usize)
        ensures
            i == self.position(),
            i < codes_of(self.domain_of()).len(),
    {
        match self {
            Term::Currency(term) => {
                let i = term.index();
                assert(codes_of(self.domain_of()) == CURRENCY_CODES@);
                i
            },
            Term::MeasurementUnit(term) => {
                let i = term.index();
                assert(codes_of(self.domain_of()) == UNIT_CODES@);
                i
            },
            Term::EqfLevel(term) => {
                let i = term.index();
                assert(codes_of(self.domain_of()) == EQF_LEVEL_CODES@);
                i
            },
            Term::AccreditationType(term) => {
                let i = term.index();
                assert(codes_of(self.domain_of()) == ACCREDITATION_TYPE_CODES@);
                i
            },
            Term::AssessmentType(term) => {
                let i = term.index();
                assert(codes_of(self.domain_of()) == ASSESSMENT_TYPE_CODES@);
                i
            },
            Term::CommunicationChannelType(term) => {
                let i = term.index();
                assert(codes_of(self.domain_of()) == COMMUNICATION_CHANNEL_TYPE_CODES@);
                i
            },
            Term::CommunicationChannelUsageType(term) => {
                let i = term.index();
                assert(codes_of(self.domain_of()) == COMMUNICATION_CHANNEL_USAGE_TYPE_CODES@);
                i
            },
            Term::ContentEncoding(term) => {
                let i = term.index();
                assert(codes_of(self.domain_of()) == CONTENT_ENCODING_CODES@);
                i
            },
            Term::EducationalCreditSystem(term) => {
                let i = term.index();
                assert(codes_of(self.domain_of()) == EDUCATIONAL_CREDIT_SYSTEM_CODES@);
                i
            },
            Term::CredentialType(term) => {
                let i = term.index();
                assert(codes_of(self.domain_of()) == CREDENTIAL_TYPE_CODES@);
                i
            },
            Term::EntitlementStatus(term) => {
                let i = term.index();
                assert(codes_of(self.domain_of()) == ENTITLEMENT_STATUS_CODES@);
                i
            },
            Term::EntitlementType(term) => {
                let i = term.index();
                assert(codes_of(self.domain_of()) == ENTITLEMENT_TYPE_CODES@);
                i
            },
            Term::LearningActivityType(term) => {
                let i = term.index();
                assert(codes_of(self.domain_of()) == LEARNING_ACTIVITY_TYPE_CODES@);
                i
            },
            Term::LearningOpportunityType(term) => {
                let i = term.index();
                assert(codes_of(self.domain_of()) == LEARNING_OPPORTUNITY_TYPE_CODES@);
                i
            },
            Term::LearningScheduleType(term) => {
                let i = term.index();
                assert(codes_of(self.domain_of()) == LEARNING_SCHEDULE_TYPE_CODES@);
                i
            },
            Term::LearningSettingType(term) => {
                let i = term.index();
                assert(codes_of(self.domain_of()) == LEARNING_SETTING_TYPE_CODES@);
                i
            },
            Term::ModeOfLearning(term) => {
                let i = term.index();
                assert(codes_of(self.domain_of()) == MODE_OF_LEARNING_CODES@);
                i
            },
            Term::TargetGroup(term) => {
                let i = term.index();
                assert(codes_of(self.domain_of()) == TARGET_GROUP_CODES@);
                i
            },
            Term::VerificationStatus(term) => {
                let i = term.index();
                assert(codes_of(self.domain_of()) == VERIFICATION_STATUS_CODES@);
                i
            },
            Term::VerificationType(term) => {
                let i = term.index();
                assert(codes_of(self.domain_of()) == VERIFICATION_TYPE_CODES@);
                i
            },
            Term::Language(term) => {
                let i = term.index();
                assert(codes_of(self.domain_of()) == LANGUAGE_CODES@);
                i
            },
            Term::Role(term) => {
                let i = term.index();
                assert(codes_of(self.domain_of()) == ROLE_CODES@);
                i
            },
            Term::DocumentState(term) => {
                let i = term.index();
                assert(codes_of(self.domain_of()) == DOCUMENT_STATE_CODES@);
                i
            },
            Term::AverageCalculationMethod(term) => {
                let i = term.index();
                assert(codes_of(self.domain_of()) == AVERAGE_CALCULATION_METHOD_CODES@);
                i
            },
            Term::AttainmentState(term) => {
                let i = term.index();
                assert(codes_of(self.domain_of()) == ATTAINMENT_STATE_CODES@);
                i
            },
            Term::AttainmentType(term) => {
                let i = term.index();
                assert(codes_of(self.domain_of()) == ATTAINMENT_TYPE_CODES@);
                i
            },
        }
    }
}

/// What the registry answers when asked for `code` in `domain`: the term at
/// the first table entry that equals `code` character for character, or
/// `UnknownCode` with the domain and the code when no entry does.
pub open spec fn validates(domain: Domain, code: Seq<char>, outcome: Result<Term, VocabError>) -> bool {
    match outcome {
        Ok(term) => {
            &&& term.domain_of() == domain
            &&& is_position(codes_of(domain), code, term.position())
        },
        Err(VocabError::UnknownCode { domain: d, code: c }) => {
            &&& !is_listed(codes_of(domain), code)
            &&& d == domain
            &&& c@ == code
        },
    }
}

/// Resolves `code` in `domain`. Matching is exact: no case folding, no
/// trimming, no partial match.
pub fn validate(domain: Domain, code: &str) -> (outcome: Result<Term, VocabError>)
    ensures
        validates(domain, code@, outcome),
{
    match domain {
        Domain::Currency => match resolve::<MDRcurrency>(code) {
            Ok(term) => Ok(Term::Currency(term)),
            Err(e) => Err(e),
        },
        Domain::MeasurementUnit => match resolve::<MDRunit>(code) {
            Ok(term) => Ok(Term::MeasurementUnit(term)),
            Err(e) => Err(e),
        },
        Domain::EqfLevel => match resolve::<EQFLevel>(code) {
            Ok(term) => Ok(Term::EqfLevel(term)),
            Err(e) => Err(e),
        },
        Domain::AccreditationType => match resolve::<AccreditationType>(code) {
            Ok(term) => Ok(Term::AccreditationType(term)),
            Err(e) => Err(e),
        },
        Domain::AssessmentType => match resolve::<AssessmentType>(code) {
            Ok(term) => Ok(Term::AssessmentType(term)),
            Err(e) => Err(e),
        },
        Domain::CommunicationChannelType => match resolve::<CommunicationChannelType>(code) {
            Ok(term) => Ok(Term::CommunicationChannelType(term)),
            Err(e) => Err(e),
        },
        Domain::CommunicationChannelUsageType => match resolve::<CommunicationChannelUsageType>(code) {
            Ok(term) => Ok(Term::CommunicationChannelUsageType(term)),
            Err(e) => Err(e),
        },
        Domain::ContentEncoding => match resolve::<ContentEncodingTypes>(code) {
            Ok(term) => Ok(Term::ContentEncoding(term)),
            Err(e) => Err(e),
        },
        Domain::EducationalCreditSystem => match resolve::<EducationalCreditSystems>(code) {
            Ok(term) => Ok(Term::EducationalCreditSystem(term)),
            Err(e) => Err(e),
        },
        Domain::CredentialType => match resolve::<CredentialType>(code) {
            Ok(term) => Ok(Term::CredentialType(term)),
            Err(e) => Err(e),
        },
        Domain::EntitlementStatus => match resolve::<EntitlementStatus>(code) {
            Ok(term) => Ok(Term::EntitlementStatus(term)),
            Err(e) => Err(e),
        },
        Domain::EntitlementType => match resolve::<EntitlementType>(code) {
            Ok(term) => Ok(Term::EntitlementType(term)),
            Err(e) => Err(e),
        },
        Domain::LearningActivityType => match resolve::<LearningActivityType>(code) {
            Ok(term) => Ok(Term::LearningActivityType(term)),
            Err(e) => Err(e),
        },
        Domain::LearningOpportunityType => match resolve::<LearningOpportunityType>(code) {
            Ok(term) => Ok(Term::LearningOpportunityType(term)),
            Err(e) => Err(e),
        },
        Domain::LearningScheduleType => match resolve::<LearningScheduleType>(code) {
            Ok(term) => Ok(Term::LearningScheduleType(term)),
            Err(e) => Err(e),
        },
        Domain::LearningSettingType => match resolve::<LearningSettingType>(code) {
            Ok(term) => Ok(Term::LearningSettingType(term)),
            Err(e) => Err(e),
        },
        Domain::ModeOfLearning => match resolve::<ModeOfLearningType>(code) {
            Ok(term) => Ok(Term::ModeOfLearning(term)),
            Err(e) => Err(e),
        },
        Domain::TargetGroup => match resolve::<LearningTargetGroup>(code) {
            Ok(term) => Ok(Term::TargetGroup(term)),
            Err(e) => Err(e),
        },
        Domain::VerificationStatus => match resolve::<VerificationStatus>(code) {
            Ok(term) => Ok(Term::VerificationStatus(term)),
            Err(e) => Err(e),
        },
        Domain::VerificationType => match resolve::<VerificationType>(code) {
            Ok(term) => Ok(Term::VerificationType(term)),
            Err(e) => Err(e),
        },
        Domain::Language => match resolve::<EuropeanLanguage>(code) {
            Ok(term) => Ok(Term::Language(term)),
            Err(e) => Err(e),
        },
        Domain::Role => match resolve::<RoleURN>(code) {
            Ok(term) => Ok(Term::Role(term)),
            Err(e) => Err(e),
        },
        Domain::DocumentState => match resolve::<DocumentState>(code) {
            Ok(term) => Ok(Term::DocumentState(term)),
            Err(e) => Err(e),
        },
        Domain::AverageCalculationMethod => match resolve::<AverageCalculationMethod>(code) {
            Ok(term) => Ok(Term::AverageCalculationMethod(term)),
            Err(e) => Err(e),
        },
        Domain::AttainmentState => match resolve::<AttainmentState>(code) {
            Ok(term) => Ok(Term::AttainmentState(term)),
            Err(e) => Err(e),
        },
        Domain::AttainmentType => match resolve::<AttainmentType>(code) {
            Ok(term) => Ok(Term::AttainmentType(term)),
            Err(e) => Err(e),
        },
    }
}

/// A code is accepted exactly when the table of its domain lists it, and the
/// term that comes back is written as that code.
pub proof fn law_validate_follows_table(domain: Domain, code: Seq<char>, outcome: Result<Term, VocabError>)
    requires
        validates(domain, code, outcome),
    ensures
        outcome is Ok <==> is_listed(codes_of(domain), code),
        outcome is Ok ==> outcome->Ok_0.code_of() == code,
        outcome is Err ==> (outcome->Err_0 matches VocabError::UnknownCode { domain: d, code: c } && d == domain
            && c@ == code),
{
}

/// Two strings that differ are never resolved to the same term: a lookup
/// neither folds case nor normalises.
pub proof fn law_validate_is_exact(
    domain: Domain,
    a: Seq<char>,
    b: Seq<char>,
    on_a: Result<Term, VocabError>,
    on_b: Result<Term, VocabError>,
)
    requires
        validates(domain, a, on_a),
        validates(domain, b, on_b),
        on_a is Ok,
        on_b is Ok,
        on_a->Ok_0.position() == on_b->Ok_0.position(),
    ensures
        a == b,
{
}

} // verus!
