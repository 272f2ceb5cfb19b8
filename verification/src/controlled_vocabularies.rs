//! The controlled vocabularies of the credential model: closed lists of
//! terms, each with the table of codes by which its terms are written.

use vstd::prelude::*;
use crate::vocabulary::{resolve, resolves, Domain, VocabError, Vocabulary};

verus! {

/// The kinds of accreditation that an organisation or a programme can hold.
#[derive(Clone, Copy, Debug, PartialEq, Eq, Structural)]
pub enum AccreditationType {
    /// A licence for an organisation to operate, awarded by a public authority.
    InstitutionalLicense,
    /// Quality assurance of one or several programmes, without legal effect.
    ProgramQualityAssurance,
    /// Quality assurance of an organisation, without legal effect.
    InstitutionalQualityAssurance,
    /// A licence for an institution to provide a specific programme.
    ProgramLicense,
}

/// The codes of [`AccreditationType`], in the order of its terms.
pub const ACCREDITATION_TYPE_CODES: [&'static str; 4] = [
    "institutional-license", "program-quality-assurance", "institutional-quality-assurance", "program-license",
];

impl Vocabulary for AccreditationType {
    open spec fn domain_of() -> Domain {
        Domain::AccreditationType
    }

    open spec fn codes() -> Seq<&'static str> {
        ACCREDITATION_TYPE_CODES@
    }

    open spec fn position(&self) -> int {
        match self {
            AccreditationType::InstitutionalLicense => 0,
            AccreditationType::ProgramQualityAssurance => 1,
            AccreditationType::InstitutionalQualityAssurance => 2,
            AccreditationType::ProgramLicense => 3,
        }
    }

    fn domain() -> Domain {
        Domain::AccreditationType
    }

    fn table() -> &'static [&'static str] {
        &ACCREDITATION_TYPE_CODES
    }

    fn at(i: usize) -> Self {
        match i {
            0 => AccreditationType::InstitutionalLicense,
            1 => AccreditationType::ProgramQualityAssurance,
            2 => AccreditationType::InstitutionalQualityAssurance,
            _ => AccreditationType::ProgramLicense,
        }
    }

    fn index(&self) -> usize {
        match self {
            AccreditationType::InstitutionalLicense => 0,
            AccreditationType::ProgramQualityAssurance => 1,
            AccreditationType::InstitutionalQualityAssurance => 2,
            AccreditationType::ProgramLicense => 3,
        }
    }
}

/// The forms that an assessment can take.
#[derive(Clone, Copy, Debug, PartialEq, Eq, Structural)]
pub enum AssessmentType {
    PeerAssessment,
    MarkedAssignment,
    ContinuousEvaluation,
    Portfolio,
    GroupPerformance,
    PracticalAssessment,
    WrittenExamination,
    LevelOfAttendance,
    ProjectWork,
    PeerReview,
    Quiz,
    ProblemBasedLearning,
    OralExamination,
    ArtefactAssessment,
}

/// The codes of [`AssessmentType`], in the order of its terms.
pub const ASSESSMENT_TYPE_CODES: [&'static str; 14] = [
    "peer-assessment", "marked-assignment", "continuous-evaluation", "portfolio",
    "group-performance", "practical-assessment", "written-examination", "level-of-attendance",
    "project-work", "peer-review", "quiz", "problem-based-learning",
    "oral-examination", "artefact-assessment",
];

impl Vocabulary for AssessmentType {
    open spec fn domain_of() -> Domain {
        Domain::AssessmentType
    }

    open spec fn codes() -> Seq<&'static str> {
        ASSESSMENT_TYPE_CODES@
    }

    open spec fn position(&self) -> int {
        match self {
            AssessmentType::PeerAssessment => 0,
            AssessmentType::MarkedAssignment => 1,
            AssessmentType::ContinuousEvaluation => 2,
            AssessmentType::Portfolio => 3,
            AssessmentType::GroupPerformance => 4,
            AssessmentType::PracticalAssessment => 5,
            AssessmentType::WrittenExamination => 6,
            AssessmentType::LevelOfAttendance => 7,
            AssessmentType::ProjectWork => 8,
            AssessmentType::PeerReview => 9,
            AssessmentType::Quiz => 10,
            AssessmentType::ProblemBasedLearning => 11,
            AssessmentType::OralExamination => 12,
            AssessmentType::ArtefactAssessment => 13,
        }
    }

    fn domain() -> Domain {
        Domain::AssessmentType
    }

    fn table() -> &'static [&'static str] {
        &ASSESSMENT_TYPE_CODES
    }

    fn at(i: usize) -> Self {
        match i {
            0 => AssessmentType::PeerAssessment,
            1 => AssessmentType::MarkedAssignment,
            2 => AssessmentType::ContinuousEvaluation,
            3 => AssessmentType::Portfolio,
            4 => AssessmentType::GroupPerformance,
            5 => AssessmentType::PracticalAssessment,
            6 => AssessmentType::WrittenExamination,
            7 => AssessmentType::LevelOfAttendance,
            8 => AssessmentType::ProjectWork,
            9 => AssessmentType::PeerReview,
            10 => AssessmentType::Quiz,
            11 => AssessmentType::ProblemBasedLearning,
            12 => AssessmentType::OralExamination,
            _ => AssessmentType::ArtefactAssessment,
        }
    }

    fn index(&self) -> usize {
        match self {
            AssessmentType::PeerAssessment => 0,
            AssessmentType::MarkedAssignment => 1,
            AssessmentType::ContinuousEvaluation => 2,
            AssessmentType::Portfolio => 3,
            AssessmentType::GroupPerformance => 4,
            AssessmentType::PracticalAssessment => 5,
            AssessmentType::WrittenExamination => 6,
            AssessmentType::LevelOfAttendance => 7,
            AssessmentType::ProjectWork => 8,
            AssessmentType::PeerReview => 9,
            AssessmentType::Quiz => 10,
            AssessmentType::ProblemBasedLearning => 11,
            AssessmentType::OralExamination => 12,
            AssessmentType::ArtefactAssessment => 13,
        }
    }
}

/// The media over which an agent can be contacted.
#[derive(Clone, Copy, Debug, PartialEq, Eq, Structural)]
pub enum CommunicationChannelType {
    Post,
    Email,
    MobilePhone,
    Fax,
    Web,
}

/// The codes of [`CommunicationChannelType`], in the order of its terms.
pub const COMMUNICATION_CHANNEL_TYPE_CODES: [&'static str; 5] = [
    "post", "email", "mobile-phone", "fax", "web",
];

impl Vocabulary for CommunicationChannelType {
    open spec fn domain_of() -> Domain {
        Domain::CommunicationChannelType
    }

    open spec fn codes() -> Seq<&'static str> {
        COMMUNICATION_CHANNEL_TYPE_CODES@
    }

    open spec fn position(&self) -> int {
        match self {
            CommunicationChannelType::Post => 0,
            CommunicationChannelType::Email => 1,
            CommunicationChannelType::MobilePhone => 2,
            CommunicationChannelType::Fax => 3,
            CommunicationChannelType::Web => 4,
        }
    }

    fn domain() -> Domain {
        Domain::CommunicationChannelType
    }

    fn table() -> &'static [&'static str] {
        &COMMUNICATION_CHANNEL_TYPE_CODES
    }

    fn at(i: usize) -> Self {
        match i {
            0 => CommunicationChannelType::Post,
            1 => CommunicationChannelType::Email,
            2 => CommunicationChannelType::MobilePhone,
            3 => CommunicationChannelType::Fax,
            _ => CommunicationChannelType::Web,
        }
    }

    fn index(&self) -> usize {
        match self {
            CommunicationChannelType::Post => 0,
            CommunicationChannelType::Email => 1,
            CommunicationChannelType::MobilePhone => 2,
            CommunicationChannelType::Fax => 3,
            CommunicationChannelType::Web => 4,
        }
    }
}

/// The settings in which a communication channel is used.
#[derive(Clone, Copy, Debug, PartialEq, Eq, Structural)]
pub enum CommunicationChannelUsageType {
    Personal,
    Legal,
    Business,
    Mobile,
}

/// The codes of [`CommunicationChannelUsageType`], in the order of its terms.
pub const COMMUNICATION_CHANNEL_USAGE_TYPE_CODES: [&'static str; 4] = [
    "personal", "legal", "business", "mobile",
];

impl Vocabulary for CommunicationChannelUsageType {
    open spec fn domain_of() -> Domain {
        Domain::CommunicationChannelUsageType
    }

    open spec fn codes() -> Seq<&'static str> {
        COMMUNICATION_CHANNEL_USAGE_TYPE_CODES@
    }

    open spec fn position(&self) -> int {
        match self {
            CommunicationChannelUsageType::Personal => 0,
            CommunicationChannelUsageType::Legal => 1,
            CommunicationChannelUsageType::Business => 2,
            CommunicationChannelUsageType::Mobile => 3,
        }
    }

    fn domain() -> Domain {
        Domain::CommunicationChannelUsageType
    }

    fn table() -> &'static [&'static str] {
        &COMMUNICATION_CHANNEL_USAGE_TYPE_CODES
    }

    fn at(i: usize) -> Self {
        match i {
            0 => CommunicationChannelUsageType::Personal,
            1 => CommunicationChannelUsageType::Legal,
            2 => CommunicationChannelUsageType::Business,
            _ => CommunicationChannelUsageType::Mobile,
        }
    }

    fn index(&self) -> usize {
        match self {
            CommunicationChannelUsageType::Personal => 0,
            CommunicationChannelUsageType::Legal => 1,
            CommunicationChannelUsageType::Business => 2,
            CommunicationChannelUsageType::Mobile => 3,
        }
    }
}

/// The encodings of embedded binary content.
#[derive(Clone, Copy, Debug, PartialEq, Eq, Structural)]
pub enum ContentEncodingTypes {
    Base64,
}

/// The codes of [`ContentEncodingTypes`], in the order of its terms.
pub const CONTENT_ENCODING_CODES: [&'static str; 1] = [
    "base64",
];

impl Vocabulary for ContentEncodingTypes {
    open spec fn domain_of() -> Domain {
        Domain::ContentEncoding
    }

    open spec fn codes() -> Seq<&'static str> {
        CONTENT_ENCODING_CODES@
    }

    open spec fn position(&self) -> int {
        match self {
            ContentEncodingTypes::Base64 => 0,
        }
    }

    fn domain() -> Domain {
        Domain::ContentEncoding
    }

    fn table() -> &'static [&'static str] {
        &CONTENT_ENCODING_CODES
    }

    fn at(i: usize) -> Self {
        match i {
            _ => ContentEncodingTypes::Base64,
        }
    }

    fn index(&self) -> usize {
        match self {
            ContentEncodingTypes::Base64 => 0,
        }
    }
}

/// The European educational credit systems.
#[derive(Clone, Copy, Debug, PartialEq, Eq, Structural)]
pub enum EducationalCreditSystems {
    /// European credit system for vocational education and training.
    VocationalSystem,
    /// European Credit Transfer System.
    CreditTransferSystem,
}

/// The codes of [`EducationalCreditSystems`], in the order of its terms.
pub const EDUCATIONAL_CREDIT_SYSTEM_CODES: [&'static str; 2] = [
    "ecvet", "ects",
];

impl Vocabulary for EducationalCreditSystems {
    open spec fn domain_of() -> Domain {
        Domain::EducationalCreditSystem
    }

    open spec fn codes() -> Seq<&'static str> {
        EDUCATIONAL_CREDIT_SYSTEM_CODES@
    }

    open spec fn position(&self) -> int {
        match self {
            EducationalCreditSystems::VocationalSystem => 0,
            EducationalCreditSystems::CreditTransferSystem => 1,
        }
    }

    fn domain() -> Domain {
        Domain::EducationalCreditSystem
    }

    fn table() -> &'static [&'static str] {
        &EDUCATIONAL_CREDIT_SYSTEM_CODES
    }

    fn at(i: usize) -> Self {
        match i {
            0 => EducationalCreditSystems::VocationalSystem,
            _ => EducationalCreditSystems::CreditTransferSystem,
        }
    }

    fn index(&self) -> usize {
        match self {
            EducationalCreditSystems::VocationalSystem => 0,
            EducationalCreditSystems::CreditTransferSystem => 1,
        }
    }
}

/// The standard kinds of credential.
#[derive(Clone, Copy, Debug, PartialEq, Eq, Structural)]
pub enum CredentialType {
    /// An activity has been or is being done.
    LearningActivity,
    /// The award of a qualification by an accredited institution.
    QualificationAward,
    /// The award of a higher education qualification with its diploma supplement.
    DiplomaSupplement,
    /// The holder has received a right.
    LearningEntitlement,
    /// The kind of a credential that is none of the others.
    Generic,
}

/// The codes of [`CredentialType`], in the order of its terms.
pub const CREDENTIAL_TYPE_CODES: [&'static str; 5] = [
    "learning-activity", "qualification-award", "diploma-supplement", "learning-entitlement",
    "generic",
];

impl Vocabulary for CredentialType {
    open spec fn domain_of() -> Domain {
        Domain::CredentialType
    }

    open spec fn codes() -> Seq<&'static str> {
        CREDENTIAL_TYPE_CODES@
    }

    open spec fn position(&self) -> int {
        match self {
            CredentialType::LearningActivity => 0,
            CredentialType::QualificationAward => 1,
            CredentialType::DiplomaSupplement => 2,
            CredentialType::LearningEntitlement => 3,
            CredentialType::Generic => 4,
        }
    }

    fn domain() -> Domain {
        Domain::CredentialType
    }

    fn table() -> &'static [&'static str] {
        &CREDENTIAL_TYPE_CODES
    }

    fn at(i: usize) -> Self {
        match i {
            0 => CredentialType::LearningActivity,
            1 => CredentialType::QualificationAward,
            2 => CredentialType::DiplomaSupplement,
            3 => CredentialType::LearningEntitlement,
            _ => CredentialType::Generic,
        }
    }

    fn index(&self) -> usize {
        match self {
            CredentialType::LearningActivity => 0,
            CredentialType::QualificationAward => 1,
            CredentialType::DiplomaSupplement => 2,
            CredentialType::LearningEntitlement => 3,
            CredentialType::Generic => 4,
        }
    }
}

/// Whether an entitlement grants a right or the right to apply for it.
#[derive(Clone, Copy, Debug, PartialEq, Eq, Structural)]
pub enum EntitlementStatus {
    /// The right to apply for a learning opportunity, employment or membership.
    Prospective,
    /// The right to pursue a learning opportunity, employment or membership.
    Actual,
}

/// The codes of [`EntitlementStatus`], in the order of its terms.
pub const ENTITLEMENT_STATUS_CODES: [&'static str; 2] = [
    "prospective", "actual",
];

impl Vocabulary for EntitlementStatus {
    open spec fn domain_of() -> Domain {
        Domain::EntitlementStatus
    }

    open spec fn codes() -> Seq<&'static str> {
        ENTITLEMENT_STATUS_CODES@
    }

    open spec fn position(&self) -> int {
        match self {
            EntitlementStatus::Prospective => 0,
            EntitlementStatus::Actual => 1,
        }
    }

    fn domain() -> Domain {
        Domain::EntitlementStatus
    }

    fn table() -> &'static [&'static str] {
        &ENTITLEMENT_STATUS_CODES
    }

    fn at(i: usize) -> Self {
        match i {
            0 => EntitlementStatus::Prospective,
            _ => EntitlementStatus::Actual,
        }
    }

    fn index(&self) -> usize {
        match self {
            EntitlementStatus::Prospective => 0,
            EntitlementStatus::Actual => 1,
        }
    }
}

/// What an entitlement gives access to.
#[derive(Clone, Copy, Debug, PartialEq, Eq, Structural)]
pub enum EntitlementType {
    Occupation,
    LearningOpportunity,
    Membership,
}

/// The codes of [`EntitlementType`], in the order of its terms.
pub const ENTITLEMENT_TYPE_CODES: [&'static str; 3] = [
    "occupation", "learning-opportunity", "membership",
];

impl Vocabulary for EntitlementType {
    open spec fn domain_of() -> Domain {
        Domain::EntitlementType
    }

    open spec fn codes() -> Seq<&'static str> {
        ENTITLEMENT_TYPE_CODES@
    }

    open spec fn position(&self) -> int {
        match self {
            EntitlementType::Occupation => 0,
            EntitlementType::LearningOpportunity => 1,
            EntitlementType::Membership => 2,
        }
    }

    fn domain() -> Domain {
        Domain::EntitlementType
    }

    fn table() -> &'static [&'static str] {
        &ENTITLEMENT_TYPE_CODES
    }

    fn at(i: usize) -> Self {
        match i {
            0 => EntitlementType::Occupation,
            1 => EntitlementType::LearningOpportunity,
            _ => EntitlementType::Membership,
        }
    }

    fn index(&self) -> usize {
        match self {
            EntitlementType::Occupation => 0,
            EntitlementType::LearningOpportunity => 1,
            EntitlementType::Membership => 2,
        }
    }
}

/// The activities through which learning outcomes are acquired.
#[derive(Clone, Copy, Debug, PartialEq, Eq, Structural)]
pub enum LearningActivityType {
    /// Lab, simulation or practice coursework.
    PracticalCoursework,
    JobExperience,
    Volunteering,
    Research,
    SelfMotivatedStudy,
    ELearningCoursework,
    Internship,
    Apprenticeship,
    /// Workshop, seminar or conference.
    Workshop,
    EducationalProgramme,
    ClassroomCoursework,
}

/// The codes of [`LearningActivityType`], in the order of its terms.
pub const LEARNING_ACTIVITY_TYPE_CODES: [&'static str; 11] = [
    "practical-coursework", "job-experience", "volunteering", "research",
    "self-motivated-study", "e-learning-coursework", "internship", "apprenticeship",
    "workshop", "educational-programme", "classroom-coursework",
];

impl Vocabulary for LearningActivityType {
    open spec fn domain_of() -> Domain {
        Domain::LearningActivityType
    }

    open spec fn codes() -> Seq<&'static str> {
        LEARNING_ACTIVITY_TYPE_CODES@
    }

    open spec fn position(&self) -> int {
        match self {
            LearningActivityType::PracticalCoursework => 0,
            LearningActivityType::JobExperience => 1,
            LearningActivityType::Volunteering => 2,
            LearningActivityType::Research => 3,
            LearningActivityType::SelfMotivatedStudy => 4,
            LearningActivityType::ELearningCoursework => 5,
            LearningActivityType::Internship => 6,
            LearningActivityType::Apprenticeship => 7,
            LearningActivityType::Workshop => 8,
            LearningActivityType::EducationalProgramme => 9,
            LearningActivityType::ClassroomCoursework => 10,
        }
    }

    fn domain() -> Domain {
        Domain::LearningActivityType
    }

    fn table() -> &'static [&'static str] {
        &LEARNING_ACTIVITY_TYPE_CODES
    }

    fn at(i: usize) -> Self {
        match i {
            0 => LearningActivityType::PracticalCoursework,
            1 => LearningActivityType::JobExperience,
            2 => LearningActivityType::Volunteering,
            3 => LearningActivityType::Research,
            4 => LearningActivityType::SelfMotivatedStudy,
            5 => LearningActivityType::ELearningCoursework,
            6 => LearningActivityType::Internship,
            7 => LearningActivityType::Apprenticeship,
            8 => LearningActivityType::Workshop,
            9 => LearningActivityType::EducationalProgramme,
            _ => LearningActivityType::ClassroomCoursework,
        }
    }

    fn index(&self) -> usize {
        match self {
            LearningActivityType::PracticalCoursework => 0,
            LearningActivityType::JobExperience => 1,
            LearningActivityType::Volunteering => 2,
            LearningActivityType::Research => 3,
            LearningActivityType::SelfMotivatedStudy => 4,
            LearningActivityType::ELearningCoursework => 5,
            LearningActivityType::Internship => 6,
            LearningActivityType::Apprenticeship => 7,
            LearningActivityType::Workshop => 8,
            LearningActivityType::EducationalProgramme => 9,
            LearningActivityType::ClassroomCoursework => 10,
        }
    }
}

/// The formats in which organised learning is delivered.
#[derive(Clone, Copy, Debug, PartialEq, Eq, Structural)]
pub enum LearningOpportunityType {
    Course,
    ProgrammeModule,
    Mentoring,
    MOOC,
    Apprenticeship,
    StudyVisit,
    ShortLearningProgramme,
    Internship,
    EducationalProgramme,
    Class,
    ServiceLearning,
    Thesis,
}

/// The codes of [`LearningOpportunityType`], in the order of its terms.
pub const LEARNING_OPPORTUNITY_TYPE_CODES: [&'static str; 12] = [
    "course", "programme-module", "mentoring", "mooc",
    "apprenticeship", "study-visit", "short-learning-programme", "internship",
    "educational-programme", "class", "service-learning", "thesis",
];

impl Vocabulary for LearningOpportunityType {
    open spec fn domain_of() -> Domain {
        Domain::LearningOpportunityType
    }

    open spec fn codes() -> Seq<&'static str> {
        LEARNING_OPPORTUNITY_TYPE_CODES@
    }

    open spec fn position(&self) -> int {
        match self {
            LearningOpportunityType::Course => 0,
            LearningOpportunityType::ProgrammeModule => 1,
            LearningOpportunityType::Mentoring => 2,
            LearningOpportunityType::MOOC => 3,
            LearningOpportunityType::Apprenticeship => 4,
            LearningOpportunityType::StudyVisit => 5,
            LearningOpportunityType::ShortLearningProgramme => 6,
            LearningOpportunityType::Internship => 7,
            LearningOpportunityType::EducationalProgramme => 8,
            LearningOpportunityType::Class => 9,
            LearningOpportunityType::ServiceLearning => 10,
            LearningOpportunityType::Thesis => 11,
        }
    }

    fn domain() -> Domain {
        Domain::LearningOpportunityType
    }

    fn table() -> &'static [&'static str] {
        &LEARNING_OPPORTUNITY_TYPE_CODES
    }

    fn at(i: usize) -> Self {
        match i {
            0 => LearningOpportunityType::Course,
            1 => LearningOpportunityType::ProgrammeModule,
            2 => LearningOpportunityType::Mentoring,
            3 => LearningOpportunityType::MOOC,
            4 => LearningOpportunityType::Apprenticeship,
            5 => LearningOpportunityType::StudyVisit,
            6 => LearningOpportunityType::ShortLearningProgramme,
            7 => LearningOpportunityType::Internship,
            8 => LearningOpportunityType::EducationalProgramme,
            9 => LearningOpportunityType::Class,
            10 => LearningOpportunityType::ServiceLearning,
            _ => LearningOpportunityType::Thesis,
        }
    }

    fn index(&self) -> usize {
        match self {
            LearningOpportunityType::Course => 0,
            LearningOpportunityType::ProgrammeModule => 1,
            LearningOpportunityType::Mentoring => 2,
            LearningOpportunityType::MOOC => 3,
            LearningOpportunityType::Apprenticeship => 4,
            LearningOpportunityType::StudyVisit => 5,
            LearningOpportunityType::ShortLearningProgramme => 6,
            LearningOpportunityType::Internship => 7,
            LearningOpportunityType::EducationalProgramme => 8,
            LearningOpportunityType::Class => 9,
            LearningOpportunityType::ServiceLearning => 10,
            LearningOpportunityType::Thesis => 11,
        }
    }
}

/// The intensity of learning.
#[derive(Clone, Copy, Debug, PartialEq, Eq, Structural)]
pub enum LearningScheduleType {
    /// Less than 8 hours a week.
    PartTimeLight,
    /// More than 30 hours a week.
    FullTime,
    /// From 8 to 30 hours a week.
    PartTimeIntensive,
}

/// The codes of [`LearningScheduleType`], in the order of its terms.
pub const LEARNING_SCHEDULE_TYPE_CODES: [&'static str; 3] = [
    "part-time-light", "full-time", "part-time-intensive",
];

impl Vocabulary for LearningScheduleType {
    open spec fn domain_of() -> Domain {
        Domain::LearningScheduleType
    }

    open spec fn codes() -> Seq<&'static str> {
        LEARNING_SCHEDULE_TYPE_CODES@
    }

    open spec fn position(&self) -> int {
        match self {
            LearningScheduleType::PartTimeLight => 0,
            LearningScheduleType::FullTime => 1,
            LearningScheduleType::PartTimeIntensive => 2,
        }
    }

    fn domain() -> Domain {
        Domain::LearningScheduleType
    }

    fn table() -> &'static [&'static str] {
        &LEARNING_SCHEDULE_TYPE_CODES
    }

    fn at(i: usize) -> Self {
        match i {
            0 => LearningScheduleType::PartTimeLight,
            1 => LearningScheduleType::FullTime,
            _ => LearningScheduleType::PartTimeIntensive,
        }
    }

    fn index(&self) -> usize {
        match self {
            LearningScheduleType::PartTimeLight => 0,
            LearningScheduleType::FullTime => 1,
            LearningScheduleType::PartTimeIntensive => 2,
        }
    }
}

/// Whether learning is formal or non-formal.
#[derive(Clone, Copy, Debug, PartialEq, Eq, Structural)]
pub enum LearningSettingType {
    FormalLearning,
    NonFormalLearning,
}

/// The codes of [`LearningSettingType`], in the order of its terms.
pub const LEARNING_SETTING_TYPE_CODES: [&'static str; 2] = [
    "formal-learning", "non-formal-learning",
];

impl Vocabulary for LearningSettingType {
    open spec fn domain_of() -> Domain {
        Domain::LearningSettingType
    }

    open spec fn codes() -> Seq<&'static str> {
        LEARNING_SETTING_TYPE_CODES@
    }

    open spec fn position(&self) -> int {
        match self {
            LearningSettingType::FormalLearning => 0,
            LearningSettingType::NonFormalLearning => 1,
        }
    }

    fn domain() -> Domain {
        Domain::LearningSettingType
    }

    fn table() -> &'static [&'static str] {
        &LEARNING_SETTING_TYPE_CODES
    }

    fn at(i: usize) -> Self {
        match i {
            0 => LearningSettingType::FormalLearning,
            _ => LearningSettingType::NonFormalLearning,
        }
    }

    fn index(&self) -> usize {
        match self {
            LearningSettingType::FormalLearning => 0,
            LearningSettingType::NonFormalLearning => 1,
        }
    }
}

/// The means by which learning and assessment are carried out.
#[derive(Clone, Copy, Debug, PartialEq, Eq, Structural)]
pub enum ModeOfLearningType {
    WorkBased,
    ProjectBased,
    Presential,
    Online,
    Blended,
    ResearchLabBased,
}

/// The codes of [`ModeOfLearningType`], in the order of its terms.
pub const MODE_OF_LEARNING_CODES: [&'static str; 6] = [
    "work-based", "project-based", "presential", "online",
    "blended", "research-lab-based",
];

impl Vocabulary for ModeOfLearningType {
    open spec fn domain_of() -> Domain {
        Domain::ModeOfLearning
    }

    open spec fn codes() -> Seq<&'static str> {
        MODE_OF_LEARNING_CODES@
    }

    open spec fn position(&self) -> int {
        match self {
            ModeOfLearningType::WorkBased => 0,
            ModeOfLearningType::ProjectBased => 1,
            ModeOfLearningType::Presential => 2,
            ModeOfLearningType::Online => 3,
            ModeOfLearningType::Blended => 4,
            ModeOfLearningType::ResearchLabBased => 5,
        }
    }

    fn domain() -> Domain {
        Domain::ModeOfLearning
    }

    fn table() -> &'static [&'static str] {
        &MODE_OF_LEARNING_CODES
    }

    fn at(i: usize) -> Self {
        match i {
            0 => ModeOfLearningType::WorkBased,
            1 => ModeOfLearningType::ProjectBased,
            2 => ModeOfLearningType::Presential,
            3 => ModeOfLearningType::Online,
            4 => ModeOfLearningType::Blended,
            _ => ModeOfLearningType::ResearchLabBased,
        }
    }

    fn index(&self) -> usize {
        match self {
            ModeOfLearningType::WorkBased => 0,
            ModeOfLearningType::ProjectBased => 1,
            ModeOfLearningType::Presential => 2,
            ModeOfLearningType::Online => 3,
            ModeOfLearningType::Blended => 4,
            ModeOfLearningType::ResearchLabBased => 5,
        }
    }
}

/// The groups of learners that a learning opportunity is designed for.
#[derive(Clone, Copy, Debug, PartialEq, Eq, Structural)]
pub enum LearningTargetGroup {
    HighAchievers,
    NonNativeSpeakers,
    RequiringEmploymentRetraining,
    InTertiaryEducationEQF6,
    CompletedPrimaryEducation,
    InCompulsoryEducation,
    CompletedTertiaryEducationEQF7,
    InPrimaryEducation,
    WorkedLessThan3Years,
    CompletedTertiaryEducationEQF8,
    CompletedCompulsoryEducation,
    InTertiaryEducationEQF7,
    InTertiaryEducationEQF8,
    Migrants,
    Worked3to10Years,
    WorkedOver10Years,
    WithLearningDisability,
    NativeSpeakers,
    CompletedTertiaryEducationEQF6,
    LowAchievers,
}

/// The codes of [`LearningTargetGroup`], in the order of its terms.
pub const TARGET_GROUP_CODES: [&'static str; 20] = [
    "high-achievers", "non-native-speakers", "requiring-employment-retraining", "in-tertiary-education-eqf-6",
    "completed-primary-education", "in-compulsory-education", "completed-tertiary-education-eqf-7", "in-primary-education",
    "worked-less-than-3-years", "completed-tertiary-education-eqf-8", "completed-compulsory-education", "in-tertiary-education-eqf-7",
    "in-tertiary-education-eqf-8", "migrants", "worked-3-to-10-years", "worked-over-10-years",
    "with-learning-disability", "native-speakers", "completed-tertiary-education-eqf-6", "low-achievers",
];

impl Vocabulary for LearningTargetGroup {
    open spec fn domain_of() -> Domain {
        Domain::TargetGroup
    }

    open spec fn codes() -> Seq<&'static str> {
        TARGET_GROUP_CODES@
    }

    open spec fn position(&self) -> int {
        match self {
            LearningTargetGroup::HighAchievers => 0,
            LearningTargetGroup::NonNativeSpeakers => 1,
            LearningTargetGroup::RequiringEmploymentRetraining => 2,
            LearningTargetGroup::InTertiaryEducationEQF6 => 3,
            LearningTargetGroup::CompletedPrimaryEducation => 4,
            LearningTargetGroup::InCompulsoryEducation => 5,
            LearningTargetGroup::CompletedTertiaryEducationEQF7 => 6,
            LearningTargetGroup::InPrimaryEducation => 7,
            LearningTargetGroup::WorkedLessThan3Years => 8,
            LearningTargetGroup::CompletedTertiaryEducationEQF8 => 9,
            LearningTargetGroup::CompletedCompulsoryEducation => 10,
            LearningTargetGroup::InTertiaryEducationEQF7 => 11,
            LearningTargetGroup::InTertiaryEducationEQF8 => 12,
            LearningTargetGroup::Migrants => 13,
            LearningTargetGroup::Worked3to10Years => 14,
            LearningTargetGroup::WorkedOver10Years => 15,
            LearningTargetGroup::WithLearningDisability => 16,
            LearningTargetGroup::NativeSpeakers => 17,
            LearningTargetGroup::CompletedTertiaryEducationEQF6 => 18,
            LearningTargetGroup::LowAchievers => 19,
        }
    }

    fn domain() -> Domain {
        Domain::TargetGroup
    }

    fn table() -> &'static [&'static str] {
        &TARGET_GROUP_CODES
    }

    fn at(i: usize) -> Self {
        match i {
            0 => LearningTargetGroup::HighAchievers,
            1 => LearningTargetGroup::NonNativeSpeakers,
            2 => LearningTargetGroup::RequiringEmploymentRetraining,
            3 => LearningTargetGroup::InTertiaryEducationEQF6,
            4 => LearningTargetGroup::CompletedPrimaryEducation,
            5 => LearningTargetGroup::InCompulsoryEducation,
            6 => LearningTargetGroup::CompletedTertiaryEducationEQF7,
            7 => LearningTargetGroup::InPrimaryEducation,
            8 => LearningTargetGroup::WorkedLessThan3Years,
            9 => LearningTargetGroup::CompletedTertiaryEducationEQF8,
            10 => LearningTargetGroup::CompletedCompulsoryEducation,
            11 => LearningTargetGroup::InTertiaryEducationEQF7,
            12 => LearningTargetGroup::InTertiaryEducationEQF8,
            13 => LearningTargetGroup::Migrants,
            14 => LearningTargetGroup::Worked3to10Years,
            15 => LearningTargetGroup::WorkedOver10Years,
            16 => LearningTargetGroup::WithLearningDisability,
            17 => LearningTargetGroup::NativeSpeakers,
            18 => LearningTargetGroup::CompletedTertiaryEducationEQF6,
            _ => LearningTargetGroup::LowAchievers,
        }
    }

    fn index(&self) -> usize {
        match self {
            LearningTargetGroup::HighAchievers => 0,
            LearningTargetGroup::NonNativeSpeakers => 1,
            LearningTargetGroup::RequiringEmploymentRetraining => 2,
            LearningTargetGroup::InTertiaryEducationEQF6 => 3,
            LearningTargetGroup::CompletedPrimaryEducation => 4,
            LearningTargetGroup::InCompulsoryEducation => 5,
            LearningTargetGroup::CompletedTertiaryEducationEQF7 => 6,
            LearningTargetGroup::InPrimaryEducation => 7,
            LearningTargetGroup::WorkedLessThan3Years => 8,
            LearningTargetGroup::CompletedTertiaryEducationEQF8 => 9,
            LearningTargetGroup::CompletedCompulsoryEducation => 10,
            LearningTargetGroup::InTertiaryEducationEQF7 => 11,
            LearningTargetGroup::InTertiaryEducationEQF8 => 12,
            LearningTargetGroup::Migrants => 13,
            LearningTargetGroup::Worked3to10Years => 14,
            LearningTargetGroup::WorkedOver10Years => 15,
            LearningTargetGroup::WithLearningDisability => 16,
            LearningTargetGroup::NativeSpeakers => 17,
            LearningTargetGroup::CompletedTertiaryEducationEQF6 => 18,
            LearningTargetGroup::LowAchievers => 19,
        }
    }
}

/// The outcomes of a verification check.
#[derive(Clone, Copy, Debug, PartialEq, Eq, Structural)]
pub enum VerificationStatus {
    Gray,
    Green,
    Red,
}

/// The codes of [`VerificationStatus`], in the order of its terms.
pub const VERIFICATION_STATUS_CODES: [&'static str; 3] = [
    "gray", "green", "red",
];

impl Vocabulary for VerificationStatus {
    open spec fn domain_of() -> Domain {
        Domain::VerificationStatus
    }

    open spec fn codes() -> Seq<&'static str> {
        VERIFICATION_STATUS_CODES@
    }

    open spec fn position(&self) -> int {
        match self {
            VerificationStatus::Gray => 0,
            VerificationStatus::Green => 1,
            VerificationStatus::Red => 2,
        }
    }

    fn domain() -> Domain {
        Domain::VerificationStatus
    }

    fn table() -> &'static [&'static str] {
        &VERIFICATION_STATUS_CODES
    }

    fn at(i: usize) -> Self {
        match i {
            0 => VerificationStatus::Gray,
            1 => VerificationStatus::Green,
            _ => VerificationStatus::Red,
        }
    }

    fn index(&self) -> usize {
        match self {
            VerificationStatus::Gray => 0,
            VerificationStatus::Green => 1,
            VerificationStatus::Red => 2,
        }
    }
}

/// The checks that a verifier can run on a credential.
#[derive(Clone, Copy, Debug, PartialEq, Eq, Structural)]
pub enum VerificationType {
    /// Whether the person presenting the credential is its owner.
    Owner,
    /// Whether the credential has been revoked.
    Revocation,
    /// Whether the credential follows the standard of its kind.
    Format,
    /// Whether the credential is still valid.
    Validity,
    /// A check defined by a third-party verifier.
    Custom,
    /// Whether the awarding body is authorised to issue the credential.
    Accreditation,
    /// Whether the credential has been tampered with.
    Seal,
}

/// The codes of [`VerificationType`], in the order of its terms.
pub const VERIFICATION_TYPE_CODES: [&'static str; 7] = [
    "owner", "revocation", "format", "validity",
    "custom", "accreditation", "seal",
];

impl Vocabulary for VerificationType {
    open spec fn domain_of() -> Domain {
        Domain::VerificationType
    }

    open spec fn codes() -> Seq<&'static str> {
        VERIFICATION_TYPE_CODES@
    }

    open spec fn position(&self) -> int {
        match self {
            VerificationType::Owner => 0,
            VerificationType::Revocation => 1,
            VerificationType::Format => 2,
            VerificationType::Validity => 3,
            VerificationType::Custom => 4,
            VerificationType::Accreditation => 5,
            VerificationType::Seal => 6,
        }
    }

    fn domain() -> Domain {
        Domain::VerificationType
    }

    fn table() -> &'static [&'static str] {
        &VERIFICATION_TYPE_CODES
    }

    fn at(i: usize) -> Self {
        match i {
            0 => VerificationType::Owner,
            1 => VerificationType::Revocation,
            2 => VerificationType::Format,
            3 => VerificationType::Validity,
            4 => VerificationType::Custom,
            5 => VerificationType::Accreditation,
            _ => VerificationType::Seal,
        }
    }

    fn index(&self) -> usize {
        match self {
            VerificationType::Owner => 0,
            VerificationType::Revocation => 1,
            VerificationType::Format => 2,
            VerificationType::Validity => 3,
            VerificationType::Custom => 4,
            VerificationType::Accreditation => 5,
            VerificationType::Seal => 6,
        }
    }
}

/// How an assessment was supervised and the identity of the person assessed
/// was verified: one of the verification types.
#[derive(Clone, Copy, Debug, PartialEq, Eq, Structural)]
pub struct SupervisionAndVerificationType(pub VerificationType);

impl SupervisionAndVerificationType {
    /// The verification type that this value stands for.
    pub fn verification_type(&self) -> (kind: VerificationType)
        ensures
            kind == self.0,
    {
        self.0
    }
}

/// The official languages of the European Union, by their ISO 639-1 codes.
#[derive(Clone, Copy, Debug, PartialEq, Eq, Structural)]
pub enum EuropeanLanguage {
    Bulgarian,
    Croatian,
    Czech,
    Danish,
    Dutch,
    English,
    Estonian,
    Finnish,
    French,
    German,
    Greek,
    Hungarian,
    Irish,
    Italian,
    Latvian,
    Lithuanian,
    Maltese,
    Polish,
    Portugese,
    Romanian,
    Slovak,
    Slovene,
    Spanish,
    Swedish,
}

/// The codes of [`EuropeanLanguage`], in the order of its terms.
pub const LANGUAGE_CODES: [&'static str; 24] = [
    "bg", "hr", "cs", "da", "nl", "en", "et", "fi",
    "fr", "de", "el", "hu", "ga", "it", "lv", "lt",
    "mt", "pl", "pt", "ro", "sk", "sl", "es", "sv",
];

impl Vocabulary for EuropeanLanguage {
    open spec fn domain_of() -> Domain {
        Domain::Language
    }

    open spec fn codes() -> Seq<&'static str> {
        LANGUAGE_CODES@
    }

    open spec fn position(&self) -> int {
        match self {
            EuropeanLanguage::Bulgarian => 0,
            EuropeanLanguage::Croatian => 1,
            EuropeanLanguage::Czech => 2,
            EuropeanLanguage::Danish => 3,
            EuropeanLanguage::Dutch => 4,
            EuropeanLanguage::English => 5,
            EuropeanLanguage::Estonian => 6,
            EuropeanLanguage::Finnish => 7,
            EuropeanLanguage::French => 8,
            EuropeanLanguage::German => 9,
            EuropeanLanguage::Greek => 10,
            EuropeanLanguage::Hungarian => 11,
            EuropeanLanguage::Irish => 12,
            EuropeanLanguage::Italian => 13,
            EuropeanLanguage::Latvian => 14,
            EuropeanLanguage::Lithuanian => 15,
            EuropeanLanguage::Maltese => 16,
            EuropeanLanguage::Polish => 17,
            EuropeanLanguage::Portugese => 18,
            EuropeanLanguage::Romanian => 19,
            EuropeanLanguage::Slovak => 20,
            EuropeanLanguage::Slovene => 21,
            EuropeanLanguage::Spanish => 22,
            EuropeanLanguage::Swedish => 23,
        }
    }

    fn domain() -> Domain {
        Domain::Language
    }

    fn table() -> &'static [&'static str] {
        &LANGUAGE_CODES
    }

    fn at(i: usize) -> Self {
        match i {
            0 => EuropeanLanguage::Bulgarian,
            1 => EuropeanLanguage::Croatian,
            2 => EuropeanLanguage::Czech,
            3 => EuropeanLanguage::Danish,
            4 => EuropeanLanguage::Dutch,
            5 => EuropeanLanguage::English,
            6 => EuropeanLanguage::Estonian,
            7 => EuropeanLanguage::Finnish,
            8 => EuropeanLanguage::French,
            9 => EuropeanLanguage::German,
            10 => EuropeanLanguage::Greek,
            11 => EuropeanLanguage::Hungarian,
            12 => EuropeanLanguage::Irish,
            13 => EuropeanLanguage::Italian,
            14 => EuropeanLanguage::Latvian,
            15 => EuropeanLanguage::Lithuanian,
            16 => EuropeanLanguage::Maltese,
            17 => EuropeanLanguage::Polish,
            18 => EuropeanLanguage::Portugese,
            19 => EuropeanLanguage::Romanian,
            20 => EuropeanLanguage::Slovak,
            21 => EuropeanLanguage::Slovene,
            22 => EuropeanLanguage::Spanish,
            _ => EuropeanLanguage::Swedish,
        }
    }

    fn index(&self) -> usize {
        match self {
            EuropeanLanguage::Bulgarian => 0,
            EuropeanLanguage::Croatian => 1,
            EuropeanLanguage::Czech => 2,
            EuropeanLanguage::Danish => 3,
            EuropeanLanguage::Dutch => 4,
            EuropeanLanguage::English => 5,
            EuropeanLanguage::Estonian => 6,
            EuropeanLanguage::Finnish => 7,
            EuropeanLanguage::French => 8,
            EuropeanLanguage::German => 9,
            EuropeanLanguage::Greek => 10,
            EuropeanLanguage::Hungarian => 11,
            EuropeanLanguage::Irish => 12,
            EuropeanLanguage::Italian => 13,
            EuropeanLanguage::Latvian => 14,
            EuropeanLanguage::Lithuanian => 15,
            EuropeanLanguage::Maltese => 16,
            EuropeanLanguage::Polish => 17,
            EuropeanLanguage::Portugese => 18,
            EuropeanLanguage::Romanian => 19,
            EuropeanLanguage::Slovak => 20,
            EuropeanLanguage::Slovene => 21,
            EuropeanLanguage::Spanish => 22,
            EuropeanLanguage::Swedish => 23,
        }
    }
}

/// The units of measurement of the measurement-unit authority table, whose
/// codes follow the UN/CEFACT list of units used in international trade.
#[derive(Clone, Copy, Debug, PartialEq, Eq, Structural)]
pub enum MDRunit {
    Decibel,
    Manmonth,
    Byte,
    Ampere,
    Bar,
    Bit,
    Becquerel,
    Mole,
    Nanometre,
    Candela,
    DegreeCelsius,
    SquareCentimetre,
    CubicCentimetre,
    Centimetre,
    TeraJoule,
    GigaByte,
    Gram,
    GrossTonnage,
    GigaWattHour,
    Hectare,
    HectoLitre,
    Hertz,
    Hour,
    Joule,
    Kelvin,
    Kilogram,
    KilometrePerHour,
    SquareKilometre,
    Kilometre,
    KiloWattHour,
    KiloWatt,
    LabourHour,
    Litre,
    MegaWatt,
    MilliGram,
    Minute,
    MilliLitre,
    MilliMetre,
    SquareMetre,
    Metre,
    MetrePerSecond,
    Newton,
    Pascal,
    Second,
    TonneKilometre,
    Tonne,
    TonneOfOilEquvalent,
    Volt,
    Watt,
}

/// The codes of [`MDRunit`], in the order of its terms.
pub const UNIT_CODES: [&'static str; 49] = [
    "2N", "3C", "AD", "AMP", "BAR", "BIT", "BQL", "C34",
    "C45", "CDL", "CEL", "CMK", "CMQ", "CMT", "D30", "E34",
    "GRM", "GTE", "GWH", "HAR", "HLT", "HTZ", "HUR", "JOU",
    "KEL", "KGM", "KMH", "KMK", "KTM", "KWH", "KWT", "LH",
    "LTR", "MAW", "MGM", "MIN", "MLT", "MMT", "MTK", "MTR",
    "MTS", "NEW", "PAL", "SEC", "TKM", "TNE", "TOE", "VLT",
    "WTT",
];

impl Vocabulary for MDRunit {
    open spec fn domain_of() -> Domain {
        Domain::MeasurementUnit
    }

    open spec fn codes() -> Seq<&'static str> {
        UNIT_CODES@
    }

    open spec fn position(&self) -> int {
        match self {
            MDRunit::Decibel => 0,
            MDRunit::Manmonth => 1,
            MDRunit::Byte => 2,
            MDRunit::Ampere => 3,
            MDRunit::Bar => 4,
            MDRunit::Bit => 5,
            MDRunit::Becquerel => 6,
            MDRunit::Mole => 7,
            MDRunit::Nanometre => 8,
            MDRunit::Candela => 9,
            MDRunit::DegreeCelsius => 10,
            MDRunit::SquareCentimetre => 11,
            MDRunit::CubicCentimetre => 12,
            MDRunit::Centimetre => 13,
            MDRunit::TeraJoule => 14,
            MDRunit::GigaByte => 15,
            MDRunit::Gram => 16,
            MDRunit::GrossTonnage => 17,
            MDRunit::GigaWattHour => 18,
            MDRunit::Hectare => 19,
            MDRunit::HectoLitre => 20,
            MDRunit::Hertz => 21,
            MDRunit::Hour => 22,
            MDRunit::Joule => 23,
            MDRunit::Kelvin => 24,
            MDRunit::Kilogram => 25,
            MDRunit::KilometrePerHour => 26,
            MDRunit::SquareKilometre => 27,
            MDRunit::Kilometre => 28,
            MDRunit::KiloWattHour => 29,
            MDRunit::KiloWatt => 30,
            MDRunit::LabourHour => 31,
            MDRunit::Litre => 32,
            MDRunit::MegaWatt => 33,
            MDRunit::MilliGram => 34,
            MDRunit::Minute => 35,
            MDRunit::MilliLitre => 36,
            MDRunit::MilliMetre => 37,
            MDRunit::SquareMetre => 38,
            MDRunit::Metre => 39,
            MDRunit::MetrePerSecond => 40,
            MDRunit::Newton => 41,
            MDRunit::Pascal => 42,
            MDRunit::Second => 43,
            MDRunit::TonneKilometre => 44,
            MDRunit::Tonne => 45,
            MDRunit::TonneOfOilEquvalent => 46,
            MDRunit::Volt => 47,
            MDRunit::Watt => 48,
        }
    }

    fn domain() -> Domain {
        Domain::MeasurementUnit
    }

    fn table() -> &'static [&'static str] {
        &UNIT_CODES
    }

    fn at(i: usize) -> Self {
        match i {
            0 => MDRunit::Decibel,
            1 => MDRunit::Manmonth,
            2 => MDRunit::Byte,
            3 => MDRunit::Ampere,
            4 => MDRunit::Bar,
            5 => MDRunit::Bit,
            6 => MDRunit::Becquerel,
            7 => MDRunit::Mole,
            8 => MDRunit::Nanometre,
            9 => MDRunit::Candela,
            10 => MDRunit::DegreeCelsius,
            11 => MDRunit::SquareCentimetre,
            12 => MDRunit::CubicCentimetre,
            13 => MDRunit::Centimetre,
            14 => MDRunit::TeraJoule,
            15 => MDRunit::GigaByte,
            16 => MDRunit::Gram,
            17 => MDRunit::GrossTonnage,
            18 => MDRunit::GigaWattHour,
            19 => MDRunit::Hectare,
            20 => MDRunit::HectoLitre,
            21 => MDRunit::Hertz,
            22 => MDRunit::Hour,
            23 => MDRunit::Joule,
            24 => MDRunit::Kelvin,
            25 => MDRunit::Kilogram,
            26 => MDRunit::KilometrePerHour,
            27 => MDRunit::SquareKilometre,
            28 => MDRunit::Kilometre,
            29 => MDRunit::KiloWattHour,
            30 => MDRunit::KiloWatt,
            31 => MDRunit::LabourHour,
            32 => MDRunit::Litre,
            33 => MDRunit::MegaWatt,
            34 => MDRunit::MilliGram,
            35 => MDRunit::Minute,
            36 => MDRunit::MilliLitre,
            37 => MDRunit::MilliMetre,
            38 => MDRunit::SquareMetre,
            39 => MDRunit::Metre,
            40 => MDRunit::MetrePerSecond,
            41 => MDRunit::Newton,
            42 => MDRunit::Pascal,
            43 => MDRunit::Second,
            44 => MDRunit::TonneKilometre,
            45 => MDRunit::Tonne,
            46 => MDRunit::TonneOfOilEquvalent,
            47 => MDRunit::Volt,
            _ => MDRunit::Watt,
        }
    }

    fn index(&self) -> usize {
        match self {
            MDRunit::Decibel => 0,
            MDRunit::Manmonth => 1,
            MDRunit::Byte => 2,
            MDRunit::Ampere => 3,
            MDRunit::Bar => 4,
            MDRunit::Bit => 5,
            MDRunit::Becquerel => 6,
            MDRunit::Mole => 7,
            MDRunit::Nanometre => 8,
            MDRunit::Candela => 9,
            MDRunit::DegreeCelsius => 10,
            MDRunit::SquareCentimetre => 11,
            MDRunit::CubicCentimetre => 12,
            MDRunit::Centimetre => 13,
            MDRunit::TeraJoule => 14,
            MDRunit::GigaByte => 15,
            MDRunit::Gram => 16,
            MDRunit::GrossTonnage => 17,
            MDRunit::GigaWattHour => 18,
            MDRunit::Hectare => 19,
            MDRunit::HectoLitre => 20,
            MDRunit::Hertz => 21,
            MDRunit::Hour => 22,
            MDRunit::Joule => 23,
            MDRunit::Kelvin => 24,
            MDRunit::Kilogram => 25,
            MDRunit::KilometrePerHour => 26,
            MDRunit::SquareKilometre => 27,
            MDRunit::Kilometre => 28,
            MDRunit::KiloWattHour => 29,
            MDRunit::KiloWatt => 30,
            MDRunit::LabourHour => 31,
            MDRunit::Litre => 32,
            MDRunit::MegaWatt => 33,
            MDRunit::MilliGram => 34,
            MDRunit::Minute => 35,
            MDRunit::MilliLitre => 36,
            MDRunit::MilliMetre => 37,
            MDRunit::SquareMetre => 38,
            MDRunit::Metre => 39,
            MDRunit::MetrePerSecond => 40,
            MDRunit::Newton => 41,
            MDRunit::Pascal => 42,
            MDRunit::Second => 43,
            MDRunit::TonneKilometre => 44,
            MDRunit::Tonne => 45,
            MDRunit::TonneOfOilEquvalent => 46,
            MDRunit::Volt => 47,
            MDRunit::Watt => 48,
        }
    }
}

impl MDRunit {
    /// The unit written `value`, matched exactly; `UnknownCode` for a string
    /// that the table does not list.
    pub fn try_from(value: &str) -> (outcome: Result<MDRunit, VocabError>)
        ensures
            resolves::<MDRunit>(value@, outcome),
    {
        resolve::<MDRunit>(value)
    }
}

/// The codes of [`MDRcurrency`]: the currency authority table, which follows
/// ISO 4217 and keeps the codes of currencies no longer in use.
pub const CURRENCY_CODES: [&'static str; 273] = [
    "ADP", "AED", "AFA", "AFN", "ALK", "ALL", "AMD", "ANG", "AOA", "AON", "AOR", "ARA",
    "ARM", "ARP", "ARS", "ATS", "AUD", "AWG", "AZM", "AZN", "BAM", "BBD", "BDT", "BEF",
    "BGJ", "BGK", "BGL", "BGN", "BHD", "BIF", "BMD", "BND", "BOB", "BOP", "BOV", "BRB",
    "BRC", "BRE", "BRL", "BRN", "BRR", "BRZ", "BSD", "BTN", "BWP", "BYN", "BYR", "BZD",
    "CAD", "CDF", "CHE", "CHF", "CHW", "CLE", "CLF", "CLP", "CNY", "COP", "COU", "CRC",
    "CSJ", "CSK", "CUC", "CUP", "CVE", "CYP", "CZK", "DDM", "DEM", "DJF", "DKK", "DOP",
    "DZD", "ECS", "EEK", "EGP", "ERN", "ESP", "ETB", "EUR", "FIM", "FJD", "FKP", "FRF",
    "GBP", "GEL", "GHC", "GHS", "GIP", "GMD", "GNE", "GNF", "GQE", "GRD", "GTQ", "GWP",
    "GYD", "HKD", "HNL", "HRK", "HTG", "HUF", "IDR", "IEP", "ILP", "ILR", "ILS", "INR",
    "IQD", "IRR", "ISJ", "ISK", "ITL", "JMD", "JOD", "JPY", "KES", "KGS", "KHR", "KMF",
    "KPW", "KRW", "KWD", "KYD", "KZT", "LAJ", "LAK", "LBP", "LKR", "LRD", "LSL", "LTL",
    "LUF", "LVL", "LYD", "MAD", "MDL", "MGA", "MGF", "MKD", "MLF", "MMK", "MNT", "MOP",
    "MRO", "MRU", "MTL", "MTP", "MUR", "MVQ", "MVR", "MWK", "MXN", "MXP", "MXV", "MYR",
    "MZM", "MZN", "NAD", "NFD", "NGN", "NIO", "NLG", "NOK", "NPR", "NZD", "OMR", "PAB",
    "PEH", "PEI", "PEN", "PGK", "PHP", "PKR", "PLN", "PLZ", "PTE", "PYG", "QAR", "ROL",
    "RON", "RSD", "RUB", "RUR", "RWF", "SAR", "SBD", "SCR", "SDD", "SDG", "SEK", "SGD",
    "SHP", "SIT", "SKK", "SLL", "SOS", "SRD", "SRG", "SSP", "STD", "STN", "SUR", "SVC",
    "SYP", "SZL", "THB", "TJR", "TJS", "TMM", "TMT", "TND", "TOP", "TPE", "TRL", "TRY",
    "TTD", "TWD", "TZS", "UAH", "UAK", "UGS", "UGX", "USD", "USN", "USS", "UYI", "UYN",
    "UYU", "UYW", "UZS", "VEB", "VEF", "VES", "VNC", "VND", "VUV", "WST", "XAF", "XAG",
    "XAU", "XBA", "XBB", "XBC", "XBD", "XCD", "XDR", "XEU", "XOF", "XPD", "XPF", "XPT",
    "XSU", "XTS", "XUA", "XXX", "YDD", "YER", "YUD", "YUF", "YUM", "YUN", "YUS", "ZAR",
    "ZMK", "ZMW", "ZRN", "ZRZ", "ZWC", "ZWD", "ZWL", "ZWN", "ZWR",
];

/// A currency of the currency authority table. A value of this type always
/// stands for a listed code: it can only be made from one.
#[derive(Clone, Copy, Debug)]
pub struct MDRcurrency {
    entry: usize,
}

impl MDRcurrency {
    #[verifier::type_invariant]
    spec fn is_listed(self) -> bool {
        self.entry < CURRENCY_CODES@.len()
    }

    /// The currency's code, as the table writes it.
    pub open spec fn code_of(&self) -> Seq<char> {
        CURRENCY_CODES@[self.position()]@
    }

    /// The currency written `value`, matched exactly; `UnknownCode` for a
    /// string that the table does not list.
    pub fn try_from(value: &str) -> (outcome: Result<MDRcurrency, VocabError>)
        ensures
            resolves::<MDRcurrency>(value@, outcome),
            outcome is Ok ==> outcome->Ok_0.code_of() == value@,
    {
        resolve::<MDRcurrency>(value)
    }

    /// The currency's code, as the table writes it.
    pub fn code(&self) -> (code: &'static str)
        ensures
            code@ == self.code_of(),
    {
        CURRENCY_CODES[self.index()]
    }
}

impl Vocabulary for MDRcurrency {
    open spec fn domain_of() -> Domain {
        Domain::Currency
    }

    open spec fn codes() -> Seq<&'static str> {
        CURRENCY_CODES@
    }

    closed spec fn position(&self) -> int {
        self.entry as int
    }

    fn domain() -> Domain {
        Domain::Currency
    }

    fn table() -> &'static [&'static str] {
        &CURRENCY_CODES
    }

    fn at(i: usize) -> Self {
        MDRcurrency { entry: i }
    }

    fn index(&self) -> usize {
        proof {
            use_type_invariant(self);
        }
        self.entry
    }
}

} // verus!
