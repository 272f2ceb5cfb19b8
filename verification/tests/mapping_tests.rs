use europass::controlled_vocabularies::{CredentialType, EuropeanLanguage};
use europass::errors::MappingError;
use europass::sisu_attainment::{
    CreditTransferInfo, GradeAverage, LocalizedString, OrganisationRoleShareBase, PersonWithAttainmentAcceptorType,
    SISUAttainment,
};
use europass::vocabulary::Domain;

fn some(text: &str) -> Option<String> {
    Some(text.to_string())
}

fn acceptor(person: &str, role: &str) -> PersonWithAttainmentAcceptorType {
    PersonWithAttainmentAcceptorType { person_id: some(person), role_urn: some(role), text: None, title: None }
}

fn organisation(id: &str, role: &str, share: &str) -> OrganisationRoleShareBase {
    OrganisationRoleShareBase {
        educational_institution_urn: some("urn:code:educational-institution:tuni"),
        organisation_id: some(id),
        role_urn: some(role),
        share: some(share),
    }
}

/// A record with the required fields only.
fn minimal() -> SISUAttainment {
    SISUAttainment {
        acceptor_persons: Some(vec![acceptor("hlo-1", "urn:code:attainment-acceptor-type:approved-by")]),
        additional_info: None,
        attainment_date: some("2019-01-01"),
        attainment_language_urn: None,
        credit_transfer_info: None,
        credits: some("0"),
        document_state: some("DRAFT"),
        expiry_date: None,
        grade_average: None,
        grade_id: None,
        grade_scale_id: None,
        id: some("otm-1"),
        misregistration: None,
        misregistration_rationale: None,
        module_content_application_id: None,
        organisations: Some(vec![organisation("org-1", "urn:code:organisation-role:responsible", "1.0")]),
        person_first_names: None,
        person_id: some("hlo-2"),
        person_last_name: None,
        person_student_number: None,
        primary: None,
        registration_date: None,
        state: some("ATTAINED"),
        student_application_id: None,
        study_field_urn: None,
        study_right_id: None,
        study_weeks: None,
        attainment_type: some("CourseUnitAttainment"),
        verifier_person_id: None,
    }
}

fn missing(record: &SISUAttainment) -> String {
    match record.to_europass_credential() {
        Err(MappingError::MissingField { name }) => name,
        other => panic!("expected a missing field, got {:?}", other),
    }
}

fn out_of_range(record: &SISUAttainment) -> String {
    match record.to_europass_credential() {
        Err(MappingError::NumericRangeError { field }) => field,
        other => panic!("expected a number out of range, got {:?}", other),
    }
}

fn unknown(record: &SISUAttainment) -> (Domain, String, String) {
    match record.to_europass_credential() {
        Err(MappingError::UnknownCode { domain, field, value }) => (domain, field, value),
        other => panic!("expected an unknown code, got {:?}", other),
    }
}

fn bad_date(record: &SISUAttainment) -> (String, String) {
    match record.to_europass_credential() {
        Err(MappingError::DateParseError { field, value }) => (field, value),
        other => panic!("expected a date that cannot be read, got {:?}", other),
    }
}

#[test]
fn minimal_record_maps_to_a_credential_that_matches_it() {
    let credential = minimal().to_europass_credential().unwrap();
    assert_eq!(credential.identifier().content(), "otm-1");
    assert_eq!(credential.credential_type(), CredentialType::Generic);
    assert_eq!(credential.title().content(), "CourseUnitAttainment");
    assert_eq!(credential.title().language(), EuropeanLanguage::English);
    assert!(credential.description().is_none());
    assert!(credential.contains().is_none());
    assert!(credential.attachment().is_none());
    assert!(credential.credential_proof().is_none());

    let issuer = credential.issuer();
    assert_eq!(issuer.identifier().content(), "org-1");
    assert_eq!(issuer.identifier().scheme_id().as_deref(), Some("urn:code:educational-institution:tuni"));
    assert!(issuer.has_unit().is_none());
    assert!(issuer.unit_of().is_none());

    let valid_from = credential.valid_from().unwrap();
    assert_eq!((valid_from.year(), valid_from.month(), valid_from.day()), (2019, 1, 1));
    assert!(credential.issuance_date().is_none());
    assert!(credential.expiration_date().is_none());

    let status = credential.status().as_ref().unwrap();
    assert_eq!(status.domain(), Domain::DocumentState);
    assert_eq!(status.notation(), "DRAFT");

    let subject = credential.credential_subject();
    assert_eq!(subject.identifier().content(), "hlo-2");
    let achievement = subject.achieved().as_ref().unwrap();
    assert_eq!(achievement.identifier().content(), "otm-1");

    let assessment = achievement.was_derived_from().as_ref().unwrap();
    let issued = assessment.issued_date().unwrap();
    assert_eq!((issued.year(), issued.month(), issued.day()), (2019, 1, 1));
    let state = assessment.status().as_ref().unwrap();
    assert_eq!(state.domain(), Domain::AttainmentState);
    assert_eq!(state.notation(), "ATTAINED");
    assert!(assessment.grade().is_none());
    assert_eq!(assessment.assessed_by().len(), 1);
    let agent = &assessment.assessed_by()[0];
    assert_eq!(agent.identifier().content(), "hlo-1");
    let role = agent.agent_type().as_ref().unwrap();
    assert_eq!(role.domain(), Domain::Role);
    assert_eq!(role.notation(), "urn:code:attainment-acceptor-type:approved-by");

    let awarding = achievement.was_awarded_by().as_ref().unwrap();
    assert_eq!(awarding.awarding_body().identifier().content(), "org-1");
    let awarded = awarding.awarding_date().unwrap();
    assert_eq!((awarded.year(), awarded.month(), awarded.day()), (2019, 1, 1));

    let specification = achievement.specified_by().as_ref().unwrap();
    let kind = specification.learning_opportunity_type().as_ref().unwrap();
    assert_eq!(kind.domain(), Domain::AttainmentType);
    assert_eq!(kind.notation(), "CourseUnitAttainment");
    assert_eq!(specification.ects_credit_points().unwrap().content().units(), 0);
}

#[test]
fn optional_fields_are_carried_over() {
    let mut record = minimal();
    record.additional_info = Some(LocalizedString { en: None, fi: some("Lisätieto"), sv: some("Tillägg") });
    record.expiry_date = some("2029-12-31");
    record.registration_date = some("2019-02-28");
    record.credits = some("7.5");
    record.grade_id = some("4");
    record.grade_scale_id = some("sis-0-5");
    record.credit_transfer_info = Some(CreditTransferInfo {
        credit_transfer_date: some("2018-06-30"),
        educational_institution_urn: None,
        international_institution_urn: None,
        organisation: None,
    });
    record.grade_average = Some(GradeAverage {
        grade_scale_id: None,
        method: some("ARITHMETIC_MEAN_WEIGHTING_BY_CREDITS"),
        total_included_credits: None,
        value: None,
    });
    let credential = record.to_europass_credential().unwrap();
    let description = credential.description().as_ref().unwrap();
    assert_eq!(description.content(), "Lisätieto");
    assert_eq!(description.language(), EuropeanLanguage::Finnish);
    let expires = credential.expiration_date().unwrap();
    assert_eq!((expires.year(), expires.month(), expires.day()), (2029, 12, 31));
    let issued = credential.issuance_date().unwrap();
    assert_eq!((issued.year(), issued.month(), issued.day()), (2019, 2, 28));
    let achievement = credential.credential_subject().achieved().as_ref().unwrap();
    let assessment = achievement.was_derived_from().as_ref().unwrap();
    assert_eq!(assessment.grade().as_deref(), Some("4"));
    assert_eq!(assessment.grading_scheme().as_deref(), Some("sis-0-5"));
    let specification = achievement.specified_by().as_ref().unwrap();
    assert_eq!(specification.ects_credit_points().unwrap().content().units(), 7_500_000_000);
}

#[test]
fn unknown_role_yields_unknown_code_and_no_credential() {
    let mut record = minimal();
    record.acceptor_persons = Some(vec![acceptor("hlo-1", "urn:code:unknown-role")]);
    let (domain, field, value) = unknown(&record);
    assert_eq!(domain, Domain::Role);
    assert_eq!(domain.name(), "role");
    assert_eq!(field, "acceptorPersons.roleUrn");
    assert_eq!(value, "urn:code:unknown-role");
}

#[test]
fn the_first_unknown_role_is_reported() {
    let mut record = minimal();
    record.acceptor_persons = Some(vec![
        acceptor("hlo-1", "urn:code:attainment-acceptor-type:custos"),
        acceptor("hlo-3", "urn:code:attainment-acceptor-type:Custos"),
        acceptor("hlo-4", "urn:code:unknown-role"),
    ]);
    let (_, _, value) = unknown(&record);
    assert_eq!(value, "urn:code:attainment-acceptor-type:Custos");
}

#[test]
fn unknown_states_and_types_are_refused() {
    let mut record = minimal();
    record.document_state = some("draft");
    assert_eq!(unknown(&record), (Domain::DocumentState, "documentState".to_string(), "draft".to_string()));

    let mut record = minimal();
    record.state = some("PASSED");
    assert_eq!(unknown(&record), (Domain::AttainmentState, "state".to_string(), "PASSED".to_string()));

    let mut record = minimal();
    record.attainment_type = some("DegreeAttainment");
    assert_eq!(unknown(&record), (Domain::AttainmentType, "type".to_string(), "DegreeAttainment".to_string()));

    let mut record = minimal();
    record.grade_average =
        Some(GradeAverage { grade_scale_id: None, method: some("MEDIAN"), total_included_credits: None, value: None });
    assert_eq!(
        unknown(&record),
        (Domain::AverageCalculationMethod, "gradeAverage.method".to_string(), "MEDIAN".to_string())
    );
}

#[test]
fn shares_that_sum_to_a_half_yield_numeric_range_error() {
    let mut record = minimal();
    record.organisations = Some(vec![
        organisation("org-1", "urn:code:organisation-role:responsible", "0.25"),
        organisation("org-2", "urn:code:organisation-role:responsible", "0.25"),
    ]);
    assert_eq!(out_of_range(&record), "organisations.share");

    let mut record = minimal();
    record.organisations = Some(vec![organisation("org-1", "urn:code:organisation-role:responsible", "0.5")]);
    assert_eq!(out_of_range(&record), "organisations.share");
}

#[test]
fn shares_sum_to_one_for_each_role_apart() {
    let mut record = minimal();
    record.organisations = Some(vec![
        organisation("org-1", "urn:code:organisation-role:responsible", "0.25"),
        organisation("org-2", "urn:code:organisation-role:coordinating", "1"),
        organisation("org-3", "urn:code:organisation-role:responsible", "0.75"),
    ]);
    let credential = record.to_europass_credential().unwrap();
    assert_eq!(credential.issuer().identifier().content(), "org-1");

    let mut record = minimal();
    record.organisations = Some(vec![
        organisation("org-1", "urn:code:organisation-role:responsible", "1"),
        organisation("org-2", "urn:code:organisation-role:coordinating", "0.5"),
    ]);
    assert_eq!(out_of_range(&record), "organisations.share");

    let mut record = minimal();
    record.organisations = Some(vec![
        organisation("org-1", "urn:code:organisation-role:responsible", "0.75"),
        organisation("org-2", "urn:code:organisation-role:responsible", "0.75"),
    ]);
    assert_eq!(out_of_range(&record), "organisations.share");
}

#[test]
fn a_share_outside_its_range_is_refused() {
    for share in ["0", "0.0", "-0.5", "1.5", "2", "one", "", "1e0"] {
        let mut record = minimal();
        record.organisations = Some(vec![organisation("org-1", "urn:code:organisation-role:responsible", share)]);
        assert_eq!(out_of_range(&record), "organisations.share", "share {:?}", share);
    }
}

#[test]
fn credits_and_grades_out_of_range_are_refused() {
    for credits in ["-1", "five", "", "1.", ".5"] {
        let mut record = minimal();
        record.credits = some(credits);
        assert_eq!(out_of_range(&record), "credits", "credits {:?}", credits);
    }
    for grade in ["-1", "2.5", "A"] {
        let mut record = minimal();
        record.grade_id = some(grade);
        assert_eq!(out_of_range(&record), "gradeId", "grade {:?}", grade);
    }
}

#[test]
fn missing_attainment_date_yields_missing_field() {
    let mut record = minimal();
    record.attainment_date = None;
    assert_eq!(missing(&record), "attainmentDate");
}

#[test]
fn each_required_field_is_asked_for() {
    let mut record = minimal();
    record.acceptor_persons = None;
    assert_eq!(missing(&record), "acceptorPersons");

    let mut record = minimal();
    record.acceptor_persons.as_mut().unwrap()[0].person_id = None;
    assert_eq!(missing(&record), "acceptorPersons.personId");

    let mut record = minimal();
    record.acceptor_persons.as_mut().unwrap()[0].role_urn = None;
    assert_eq!(missing(&record), "acceptorPersons.roleUrn");

    let mut record = minimal();
    record.credits = None;
    assert_eq!(missing(&record), "credits");

    let mut record = minimal();
    record.document_state = None;
    assert_eq!(missing(&record), "documentState");

    let mut record = minimal();
    record.id = None;
    assert_eq!(missing(&record), "id");

    let mut record = minimal();
    record.organisations = None;
    assert_eq!(missing(&record), "organisations");

    let mut record = minimal();
    record.organisations = Some(vec![]);
    assert_eq!(missing(&record), "organisations");

    let mut record = minimal();
    record.organisations.as_mut().unwrap()[0].organisation_id = None;
    assert_eq!(missing(&record), "organisations.organisationId");

    let mut record = minimal();
    record.organisations.as_mut().unwrap()[0].role_urn = None;
    assert_eq!(missing(&record), "organisations.roleUrn");

    let mut record = minimal();
    record.organisations.as_mut().unwrap()[0].share = None;
    assert_eq!(missing(&record), "organisations.share");

    let mut record = minimal();
    record.person_id = None;
    assert_eq!(missing(&record), "personId");

    let mut record = minimal();
    record.state = None;
    assert_eq!(missing(&record), "state");

    let mut record = minimal();
    record.attainment_type = None;
    assert_eq!(missing(&record), "type");
}

#[test]
fn a_record_without_acceptors_maps() {
    let mut record = minimal();
    record.acceptor_persons = Some(vec![]);
    let credential = record.to_europass_credential().unwrap();
    let achievement = credential.credential_subject().achieved().as_ref().unwrap();
    assert!(achievement.was_derived_from().as_ref().unwrap().assessed_by().is_empty());
}

#[test]
fn malformed_dates_are_refused() {
    let mut record = minimal();
    record.attainment_date = some("2019-02-30");
    assert_eq!(bad_date(&record), ("attainmentDate".to_string(), "2019-02-30".to_string()));

    let mut record = minimal();
    record.attainment_date = some("01.01.2019");
    assert_eq!(bad_date(&record), ("attainmentDate".to_string(), "01.01.2019".to_string()));

    let mut record = minimal();
    record.expiry_date = some("tomorrow");
    assert_eq!(bad_date(&record), ("expiryDate".to_string(), "tomorrow".to_string()));

    let mut record = minimal();
    record.registration_date = some("");
    assert_eq!(bad_date(&record), ("registrationDate".to_string(), "".to_string()));

    let mut record = minimal();
    record.credit_transfer_info = Some(CreditTransferInfo {
        credit_transfer_date: some("2019-13-01"),
        educational_institution_urn: None,
        international_institution_urn: None,
        organisation: None,
    });
    assert_eq!(bad_date(&record), ("creditTransferInfo.creditTransferDate".to_string(), "2019-13-01".to_string()));
}

#[test]
fn an_identifier_without_content_is_refused() {
    let mut record = minimal();
    record.id = some("");
    assert!(matches!(record.to_europass_credential(), Err(MappingError::InvalidIdentifier)));

    let mut record = minimal();
    record.person_id = some("");
    assert!(matches!(record.to_europass_credential(), Err(MappingError::InvalidIdentifier)));

    let mut record = minimal();
    record.organisations.as_mut().unwrap()[0].organisation_id = some("");
    assert!(matches!(record.to_europass_credential(), Err(MappingError::InvalidIdentifier)));

    let mut record = minimal();
    record.acceptor_persons.as_mut().unwrap()[0].person_id = some("");
    assert!(matches!(record.to_europass_credential(), Err(MappingError::InvalidIdentifier)));
}

#[test]
fn an_earlier_stage_wins_over_a_later_one() {
    let mut record = minimal();
    record.attainment_date = None;
    record.document_state = some("UNKNOWN");
    record.credits = some("-1");
    record.id = some("");
    assert_eq!(missing(&record), "attainmentDate");

    record.attainment_date = some("not a date");
    assert_eq!(unknown(&record).1, "documentState");

    record.document_state = some("ACTIVE");
    assert_eq!(bad_date(&record).0, "attainmentDate");

    record.attainment_date = some("2020-02-29");
    assert_eq!(out_of_range(&record), "credits");

    record.credits = some("3");
    assert!(matches!(record.to_europass_credential(), Err(MappingError::InvalidIdentifier)));

    record.id = some("otm-9");
    assert!(record.to_europass_credential().is_ok());
}

#[test]
fn mapping_the_same_record_twice_gives_the_same_credential() {
    let record = minimal();
    let first = record.to_europass_credential().unwrap();
    let second = record.to_europass_credential().unwrap();
    assert_eq!(format!("{:?}", first), format!("{:?}", second));
}
