use europass::calendar::CalendarDate;
use europass::controlled_vocabularies::{
    AccreditationType, AssessmentType, CredentialType, EntitlementStatus, EntitlementType, EuropeanLanguage,
    LearningActivityType, LearningSettingType, LearningTargetGroup, ModeOfLearningType,
    SupervisionAndVerificationType, VerificationType,
};
use europass::decimal::Decimal;
use europass::errors::{ModelError, Relation};
use europass::european_qualifications_framework::EQFLevel;
use europass::europass_learning_model::{
    reaches, Accreditation, Agent, Assessment, AssessmentSpecification, AwardingProcess, Entitlement,
    EntitlementSpecification, EuropassAttachment, EuropassCredential, LearningAchievement,
    LearningActivitySpecification, LearningSpecification, Linked, Organisation, Person,
};
use europass::national_qualification_frameworks::{FinlandNQF, NQF};
use europass::value_types::{Code, Duration, Identifier, Measure, Note, NumericScore, Proof, Text};
use europass::vocabulary::Domain;

fn id(content: &str) -> Identifier {
    Identifier::plain(content.to_string()).unwrap()
}

fn id_in(content: &str, scheme: &str) -> Identifier {
    Identifier::new(content.to_string(), Some(scheme.to_string()), None, None, None, None, None, None).unwrap()
}

fn text(content: &str) -> Option<Text> {
    Some(Text::in_language(content.to_string(), EuropeanLanguage::English))
}

fn note(content: &str) -> Option<Note> {
    Some(Note::in_language(content.to_string(), EuropeanLanguage::English, None, None))
}

fn organisation(content: &str, unit: Option<Organisation>, parent: Option<Organisation>) -> Organisation {
    Organisation::new(id(content), None, None, None, unit, parent).unwrap()
}

fn specification(content: &str, part: Option<LearningSpecification>, general: Option<LearningSpecification>) -> LearningSpecification {
    LearningSpecification::new(
        id(content),
        None,
        None,
        None,
        None,
        None,
        None,
        None,
        None,
        None,
        None,
        part,
        general,
    )
    .unwrap()
}

fn person(content: &str) -> Person {
    Person::new(id(content), None, None, None, None, None, None, None)
}

fn credential(content: &str, contains: Option<EuropassCredential>) -> Result<EuropassCredential, ModelError> {
    EuropassCredential::new(
        id(content),
        CredentialType::Generic,
        Text::in_language("Degree".to_string(), EuropeanLanguage::English),
        None,
        organisation("issuer", None, None),
        person("subject"),
        None,
        None,
        None,
        None,
        None,
        None,
        contains,
    )
}

#[test]
fn an_organisation_holds_its_units() {
    let department = organisation("department", None, None);
    let faculty = organisation("faculty", Some(department), None);
    let university = Organisation::new(
        id("university"),
        text("Tampere University"),
        text("TUNI"),
        Some("https://www.tuni.fi".to_string()),
        Some(faculty),
        None,
    )
    .unwrap();
    university.attest();
    assert_eq!(university.identifier().content(), "university");
    assert_eq!(university.preferred_name().as_ref().unwrap().content(), "Tampere University");
    assert_eq!(university.alternative_name().as_ref().unwrap().content(), "TUNI");
    assert_eq!(university.home_page().as_deref(), Some("https://www.tuni.fi"));
    assert!(university.unit_of().is_none());
    let faculty = university.has_unit().unwrap();
    assert_eq!(faculty.identifier().content(), "faculty");
    let department = faculty.has_unit().unwrap();
    assert_eq!(department.identifier().content(), "department");
    assert!(department.has_unit().is_none());
}

#[test]
fn an_organisation_cannot_be_its_own_unit() {
    let same = organisation("university", None, None);
    let made = Organisation::new(id("university"), None, None, None, Some(same), None);
    assert_eq!(made.unwrap_err(), ModelError::StructuralCycle { relation: Relation::HasUnit });
}

#[test]
fn an_organisation_cannot_reach_itself_through_its_units() {
    let department = organisation("university", None, None);
    let faculty = organisation("faculty", Some(department), None);
    let institute = organisation("institute", Some(faculty), None);
    let made = Organisation::new(id("university"), None, None, None, Some(institute), None);
    assert_eq!(made.unwrap_err(), ModelError::StructuralCycle { relation: Relation::HasUnit });
}

#[test]
fn an_organisation_cannot_be_a_unit_of_itself() {
    let group = organisation("department", None, None);
    let university = organisation("university", None, Some(group));
    let made = Organisation::new(id("department"), None, None, None, None, Some(university));
    assert_eq!(made.unwrap_err(), ModelError::StructuralCycle { relation: Relation::UnitOf });
}

#[test]
fn the_relations_of_an_organisation_are_held_apart() {
    let below = organisation("x", None, None);
    let above = organisation("y", None, None);
    assert!(Organisation::new(id("z"), None, None, None, Some(below), Some(above)).is_ok());

    // The same organisation above and below is no cycle over either relation.
    let below = organisation("x", None, None);
    let above = organisation("x", None, None);
    assert!(Organisation::new(id("z"), None, None, None, Some(below), Some(above)).is_ok());

    // A cycle over both relations is reported for the first.
    let below = organisation("z", None, None);
    let above = organisation("z", None, None);
    let made = Organisation::new(id("z"), None, None, None, Some(below), Some(above));
    assert_eq!(made.unwrap_err(), ModelError::StructuralCycle { relation: Relation::HasUnit });

    // What is reached over the other relation does not count.
    let inner_parent = organisation("z", None, None);
    let below = organisation("x", None, Some(inner_parent));
    assert!(Organisation::new(id("z"), None, None, None, Some(below), None).is_ok());
}

#[test]
fn the_same_content_in_another_scheme_is_another_entity() {
    let unit = Organisation::new(id_in("1", "urn:a"), None, None, None, None, None).unwrap();
    assert!(Organisation::new(id_in("1", "urn:b"), None, None, None, Some(unit), None).is_ok());
    let unit = Organisation::new(id_in("1", "urn:a"), None, None, None, None, None).unwrap();
    assert!(Organisation::new(id("1"), None, None, None, Some(unit), None).is_ok());
    let unit = Organisation::new(id_in("1", "urn:a"), None, None, None, None, None).unwrap();
    let made = Organisation::new(id_in("1", "urn:a"), None, None, None, Some(unit), None);
    assert_eq!(made.unwrap_err(), ModelError::StructuralCycle { relation: Relation::HasUnit });
}

#[test]
fn reaching_follows_one_relation() {
    let department = organisation("department", None, None);
    let parent = organisation("ministry", None, None);
    let faculty = organisation("faculty", Some(department), Some(parent));
    assert!(reaches(&faculty, Relation::HasUnit, &id("faculty")));
    assert!(reaches(&faculty, Relation::HasUnit, &id("department")));
    assert!(!reaches(&faculty, Relation::HasUnit, &id("ministry")));
    assert!(reaches(&faculty, Relation::UnitOf, &id("ministry")));
    assert!(!reaches(&faculty, Relation::UnitOf, &id("department")));
    assert!(reaches(&faculty, Relation::Contains, &id("faculty")));
    assert!(!reaches(&faculty, Relation::Contains, &id("department")));
    assert_eq!(faculty.identity().content(), "faculty");
    assert_eq!(faculty.next(Relation::HasUnit).unwrap().identifier().content(), "department");
    assert!(faculty.next(Relation::HasPart).is_none());
}

#[test]
fn a_learning_specification_has_parts_and_specialises() {
    let module = specification("module", None, None);
    let standard = specification("standard", None, None);
    let degree = LearningSpecification::new(
        id("degree"),
        text("Master of Science"),
        note("A degree"),
        Some(Code::new(Domain::LearningOpportunityType, "educational-programme").unwrap()),
        NumericScore::new(Decimal::parse("120").unwrap()),
        Some(EQFLevel::Level7),
        Some(NQF::Finland(FinlandNQF::Level7)),
        Some(EuropeanLanguage::Finnish),
        Some(ModeOfLearningType::Blended),
        Some(LearningSettingType::FormalLearning),
        Some(LearningTargetGroup::CompletedTertiaryEducationEQF6),
        Some(module),
        Some(standard),
    )
    .unwrap();
    degree.attest();
    assert_eq!(degree.title().as_ref().unwrap().content(), "Master of Science");
    assert_eq!(degree.definition().as_ref().unwrap().content(), "A degree");
    assert_eq!(degree.learning_opportunity_type().as_ref().unwrap().notation(), "educational-programme");
    assert_eq!(degree.ects_credit_points().unwrap().content().units(), 120_000_000_000);
    assert_eq!(degree.eqf_level(), Some(EQFLevel::Level7));
    assert_eq!(degree.nqf_level(), Some(NQF::Finland(FinlandNQF::Level7)));
    assert_eq!(degree.language(), Some(EuropeanLanguage::Finnish));
    assert_eq!(degree.mode(), Some(ModeOfLearningType::Blended));
    assert_eq!(degree.learning_setting(), Some(LearningSettingType::FormalLearning));
    assert_eq!(degree.target_group(), Some(LearningTargetGroup::CompletedTertiaryEducationEQF6));
    assert_eq!(degree.has_part().unwrap().identifier().content(), "module");
    assert_eq!(degree.specialisation_of().unwrap().identifier().content(), "standard");
}

#[test]
fn a_learning_specification_cannot_reach_itself() {
    let inner = specification("degree", None, None);
    let module = specification("module", Some(inner), None);
    let made = LearningSpecification::new(
        id("degree"),
        None,
        None,
        None,
        None,
        None,
        None,
        None,
        None,
        None,
        None,
        Some(module),
        None,
    );
    assert_eq!(made.unwrap_err(), ModelError::StructuralCycle { relation: Relation::HasPart });

    let general = specification("degree", None, None);
    let made = LearningSpecification::new(
        id("degree"),
        None,
        None,
        None,
        None,
        None,
        None,
        None,
        None,
        None,
        None,
        None,
        Some(general),
    );
    assert_eq!(made.unwrap_err(), ModelError::StructuralCycle { relation: Relation::SpecialisationOf });
}

#[test]
fn activity_specifications_cannot_reach_themselves() {
    let lab = LearningActivitySpecification::new(
        id("lab"),
        text("Laboratory"),
        note("Weekly"),
        Some(LearningActivityType::PracticalCoursework),
        Duration::new(Measure::new(Decimal::parse("30").unwrap(), "HUR").unwrap()),
        Some(EuropeanLanguage::English),
        Some(ModeOfLearningType::Presential),
        None,
        None,
    )
    .unwrap();
    assert_eq!(lab.learning_activity_type(), Some(LearningActivityType::PracticalCoursework));
    assert_eq!(lab.workload().unwrap().measure().content().units(), 30_000_000_000);
    assert_eq!(lab.title().as_ref().unwrap().content(), "Laboratory");
    assert_eq!(lab.description().as_ref().unwrap().content(), "Weekly");
    assert_eq!(lab.language(), Some(EuropeanLanguage::English));
    assert_eq!(lab.mode(), Some(ModeOfLearningType::Presential));
    let course =
        LearningActivitySpecification::new(id("course"), None, None, None, None, None, None, Some(lab), None)
            .unwrap();
    assert_eq!(course.has_part().unwrap().identifier().content(), "lab");
    assert!(course.specialisation_of().is_none());
    let made =
        LearningActivitySpecification::new(id("lab"), None, None, None, None, None, None, Some(course), None);
    assert_eq!(made.unwrap_err(), ModelError::StructuralCycle { relation: Relation::HasPart });
    let general =
        LearningActivitySpecification::new(id("a"), None, None, None, None, None, None, None, None).unwrap();
    let made = LearningActivitySpecification::new(id("a"), None, None, None, None, None, None, None, Some(general));
    assert_eq!(made.unwrap_err(), ModelError::StructuralCycle { relation: Relation::SpecialisationOf });
}

#[test]
fn assessment_specifications_cannot_reach_themselves() {
    let exam = AssessmentSpecification::new(
        id("exam"),
        text("Examination"),
        None,
        Some(AssessmentType::WrittenExamination),
        Some(EuropeanLanguage::Swedish),
        Some(ModeOfLearningType::Online),
        None,
        None,
    )
    .unwrap();
    assert_eq!(exam.assessment_type(), Some(AssessmentType::WrittenExamination));
    assert_eq!(exam.language(), Some(EuropeanLanguage::Swedish));
    assert_eq!(exam.mode(), Some(ModeOfLearningType::Online));
    assert!(exam.description().is_none());
    let made = AssessmentSpecification::new(id("exam"), None, None, None, None, None, Some(exam), None);
    assert_eq!(made.unwrap_err(), ModelError::StructuralCycle { relation: Relation::HasPart });
    let general = AssessmentSpecification::new(id("exam"), None, None, None, None, None, None, None).unwrap();
    let made = AssessmentSpecification::new(id("exam"), None, None, None, None, None, None, Some(general));
    assert_eq!(made.unwrap_err(), ModelError::StructuralCycle { relation: Relation::SpecialisationOf });
    let general = AssessmentSpecification::new(id("standard"), None, None, None, None, None, None, None).unwrap();
    let made = AssessmentSpecification::new(id("exam"), None, None, None, None, None, None, Some(general)).unwrap();
    assert_eq!(made.specialisation_of().unwrap().identifier().content(), "standard");
    assert!(made.has_part().is_none());
}

#[test]
fn entitlement_specifications_cannot_reach_themselves() {
    let right = EntitlementSpecification::new(
        id("right"),
        text("Right to practise"),
        note("Nursing"),
        EntitlementType::Occupation,
        EntitlementStatus::Actual,
        Some(organisation("valvira", None, None)),
        Some(Code::new(Domain::Language, "fi").unwrap()),
        None,
        None,
    )
    .unwrap();
    assert_eq!(right.entitlement_type(), EntitlementType::Occupation);
    assert_eq!(right.status(), EntitlementStatus::Actual);
    assert_eq!(right.limit_organisation().as_ref().unwrap().identifier().content(), "valvira");
    assert_eq!(right.limit_jurisdiction().as_ref().unwrap().notation(), "fi");
    let made = EntitlementSpecification::new(
        id("right"),
        None,
        None,
        EntitlementType::Membership,
        EntitlementStatus::Prospective,
        None,
        None,
        Some(right),
        None,
    );
    assert_eq!(made.unwrap_err(), ModelError::StructuralCycle { relation: Relation::HasPart });
    let general = EntitlementSpecification::new(
        id("right"),
        None,
        None,
        EntitlementType::Membership,
        EntitlementStatus::Prospective,
        None,
        None,
        None,
        None,
    )
    .unwrap();
    let made = EntitlementSpecification::new(
        id("right"),
        None,
        None,
        EntitlementType::Membership,
        EntitlementStatus::Prospective,
        None,
        None,
        None,
        Some(general),
    );
    assert_eq!(made.unwrap_err(), ModelError::StructuralCycle { relation: Relation::SpecialisationOf });
}

#[test]
fn a_credential_contains_credentials_and_never_itself() {
    let micro = credential("micro", None).unwrap();
    let module = credential("module", Some(micro)).unwrap();
    let degree = credential("degree", Some(module)).unwrap();
    degree.attest();
    assert_eq!(degree.contains().unwrap().identifier().content(), "module");
    assert_eq!(degree.contains().unwrap().contains().unwrap().identifier().content(), "micro");
    assert!(degree.contains().unwrap().contains().unwrap().contains().is_none());

    let micro = credential("degree", None).unwrap();
    assert_eq!(
        credential("degree", Some(micro)).unwrap_err(),
        ModelError::StructuralCycle { relation: Relation::Contains }
    );
    let micro = credential("degree", None).unwrap();
    let module = credential("module", Some(micro)).unwrap();
    assert_eq!(
        credential("degree", Some(module)).unwrap_err(),
        ModelError::StructuralCycle { relation: Relation::Contains }
    );
}

#[test]
fn a_credential_holds_what_it_was_given() {
    let day = CalendarDate::new(2019, 1, 1);
    let agent = Agent::new(
        id("examiner"),
        Some(Code::new(Domain::Role, "urn:code:attainment-acceptor-type:examiner").unwrap()),
        text("Examiner"),
        note("External"),
    );
    agent.attest();
    assert_eq!(agent.preferred_name().as_ref().unwrap().content(), "Examiner");
    assert_eq!(agent.note().as_ref().unwrap().content(), "External");
    let assessment = Assessment::new(
        id("assessment"),
        text("Thesis"),
        note("Defended in public"),
        Some("5".to_string()),
        Some("0-5".to_string()),
        day,
        Some(SupervisionAndVerificationType(VerificationType::Owner)),
        Some(Code::new(Domain::AttainmentState, "ATTAINED").unwrap()),
        vec![agent],
        None,
    );
    assert_eq!(assessment.title().as_ref().unwrap().content(), "Thesis");
    assert_eq!(assessment.description().as_ref().unwrap().content(), "Defended in public");
    assert_eq!(assessment.grade().as_deref(), Some("5"));
    assert_eq!(assessment.grading_scheme().as_deref(), Some("0-5"));
    assert_eq!(assessment.id_verification().unwrap().verification_type(), VerificationType::Owner);
    assert!(assessment.specified_by().is_none());
    assert_eq!(assessment.assessed_by()[0].agent_type().as_ref().unwrap().domain(), Domain::Role);
    let awarding = AwardingProcess::new(id("awarding"), note("In a ceremony"), organisation("tuni", None, None), day);
    assert_eq!(awarding.description().as_ref().unwrap().content(), "In a ceremony");
    assert_eq!(awarding.identifier().content(), "awarding");
    let entitlement = Entitlement::new(id("entitlement"), text("Doctoral studies"), None, day, None, None);
    assert_eq!(entitlement.title().as_ref().unwrap().content(), "Doctoral studies");
    assert_eq!(entitlement.issued_date().unwrap().year(), 2019);
    assert!(entitlement.expiry_date().is_none());
    assert!(entitlement.description().is_none());
    assert!(entitlement.specified_by().is_none());
    let achievement = LearningAchievement::new(
        id("achievement"),
        text("Master's thesis"),
        note("Accepted"),
        note("With distinction"),
        Some(assessment),
        Some(awarding),
        Some(entitlement),
        Some(specification("degree", None, None)),
    );
    assert_eq!(achievement.title().as_ref().unwrap().content(), "Master's thesis");
    assert_eq!(achievement.description().as_ref().unwrap().content(), "Accepted");
    assert_eq!(achievement.additional_note().as_ref().unwrap().content(), "With distinction");
    assert_eq!(achievement.entitles_to().as_ref().unwrap().identifier().content(), "entitlement");
    let subject = Person::new(
        id("student"),
        Some("010190-123A".to_string()),
        text("Aino Virtanen"),
        text("Aino"),
        text("Virtanen"),
        CalendarDate::new(1990, 1, 1),
        Some(achievement),
        None,
    );
    subject.attest();
    assert_eq!(subject.national_id().as_deref(), Some("010190-123A"));
    assert_eq!(subject.full_name().as_ref().unwrap().content(), "Aino Virtanen");
    assert_eq!(subject.given_names().as_ref().unwrap().content(), "Aino");
    assert_eq!(subject.family_name().as_ref().unwrap().content(), "Virtanen");
    assert_eq!(subject.date_of_birth().unwrap().year(), 1990);
    assert!(subject.entitled_to().is_none());
    let credential = EuropassCredential::new(
        id("credential"),
        CredentialType::DiplomaSupplement,
        Text::in_language("Diploma".to_string(), EuropeanLanguage::English),
        note("A diploma"),
        organisation("tuni", None, None),
        subject,
        day,
        day,
        CalendarDate::new(2029, 1, 1),
        Some(Code::new(Domain::DocumentState, "ACTIVE").unwrap()),
        Some(EuropassAttachment::PDF),
        Some(Proof::new("summary".to_string(), Some("https://www.tuni.fi/seal.png".to_string()))),
        None,
    )
    .unwrap();
    assert_eq!(credential.credential_proof().as_ref().unwrap().display_code(), "summary");
    assert_eq!(credential.credential_proof().as_ref().unwrap().background().as_deref(), Some("https://www.tuni.fi/seal.png"));
    assert_eq!(credential.credential_type(), CredentialType::DiplomaSupplement);
    assert_eq!(credential.title().content(), "Diploma");
    assert_eq!(credential.description().as_ref().unwrap().content(), "A diploma");
    assert_eq!(credential.issuer().identifier().content(), "tuni");
    assert_eq!(credential.issuance_date().unwrap().year(), 2019);
    assert_eq!(credential.valid_from().unwrap().day(), 1);
    assert_eq!(credential.expiration_date().unwrap().year(), 2029);
    assert_eq!(credential.status().as_ref().unwrap().notation(), "ACTIVE");
    assert_eq!(credential.attachment(), Some(EuropassAttachment::PDF));
    let achieved = credential.credential_subject().achieved().as_ref().unwrap();
    assert_eq!(achieved.was_derived_from().as_ref().unwrap().identifier().content(), "assessment");
    assert_eq!(achieved.was_awarded_by().as_ref().unwrap().awarding_body().identifier().content(), "tuni");
    assert_eq!(achieved.specified_by().as_ref().unwrap().identifier().content(), "degree");
}

#[test]
fn an_accreditation_holds_what_it_was_given() {
    let accreditation = Accreditation::new(
        id("accreditation"),
        AccreditationType::InstitutionalQualityAssurance,
        text("Audit"),
        Some("passed".to_string()),
        organisation("tuni", None, None),
        Some(organisation("karvi", None, None)),
        Some(EQFLevel::Level7),
        Some(Code::new(Domain::Language, "fi").unwrap()),
        CalendarDate::new(2019, 1, 1),
        CalendarDate::new(2022, 1, 1),
        CalendarDate::new(2025, 1, 1),
    );
    accreditation.attest();
    assert_eq!(accreditation.identifier().content(), "accreditation");
    assert_eq!(accreditation.accreditation_type(), AccreditationType::InstitutionalQualityAssurance);
    assert_eq!(accreditation.title().as_ref().unwrap().content(), "Audit");
    assert_eq!(accreditation.decision().as_deref(), Some("passed"));
    assert_eq!(accreditation.organisation().identifier().content(), "tuni");
    assert_eq!(accreditation.accrediting_agent().as_ref().unwrap().identifier().content(), "karvi");
    assert_eq!(accreditation.limit_eqf_level(), Some(EQFLevel::Level7));
    assert_eq!(accreditation.limit_jurisdiction().as_ref().unwrap().notation(), "fi");
    assert_eq!(accreditation.issue_date().unwrap().year(), 2019);
    assert_eq!(accreditation.review_date().unwrap().year(), 2022);
    assert_eq!(accreditation.expiry_date().unwrap().year(), 2025);
}
