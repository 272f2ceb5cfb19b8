use europass::calendar::CalendarDate;
use europass::decimal::Decimal;
use europass::sisu_attainment::{
    CreditTransferInfo, GradeAverage, LocalizedString, OrganisationRoleShareBase, PersonWithAttainmentAcceptorType,
    SISUAttainment,
};
use europass::sisu_vocabularies::{AttainmentState, AttainmentType, AverageCalculationMethod, DocumentState, RoleURN};
use europass::vocabulary::resolve;
use serde_json::Value;

/// The example answer of the SISU Swagger UI.
const SISU_SWAGGER_UI_EXAMPLE_RESPONSE: &str = r#"[
      {
        "acceptorPersons": [
          {
            "personId": "string",
            "roleUrn": "urn:code:attainment-acceptor-type:approved-by",
            "text": {
              "en": "English version",
              "fi": "Finnish version",
              "sv": "Swedish version"
            },
            "title": {
              "en": "English version",
              "fi": "Finnish version",
              "sv": "Swedish version"
            }
          }
        ],
        "additionalInfo": {
          "en": "English version",
          "fi": "Finnish version",
          "sv": "Swedish version"
        },
        "attainmentDate": "2019-01-01",
        "attainmentLanguageUrn": "string",
        "creditTransferInfo": {
          "creditTransferDate": "2019-01-01",
          "educationalInstitutionUrn": "string",
          "internationalInstitutionUrn": "string",
          "organisation": "string"
        },
        "credits": 0,
        "documentState": "DRAFT",
        "expiryDate": "2019-01-01",
        "gradeAverage": {
          "gradeScaleId": "string",
          "method": "COURSE_UNIT_ARITHMETIC_MEAN_WEIGHTING_BY_CREDITS",
          "totalIncludedCredits": 0,
          "value": 0
        },
        "gradeId": 0,
        "gradeScaleId": "string",
        "id": "string",
        "misregistration": true,
        "misregistrationRationale": "string",
        "moduleContentApplicationId": "string",
        "organisations": [
          {
            "educationalInstitutionUrn": "string",
            "organisationId": "string",
            "roleUrn": "string",
            "share": 0
          }
        ],
        "personFirstNames": "string",
        "personId": "string",
        "personLastName": "string",
        "personStudentNumber": "string",
        "primary": true,
        "registrationDate": "2019-01-01",
        "state": "ATTAINED",
        "studentApplicationId": "string",
        "studyFieldUrn": "string",
        "studyRightId": "string",
        "studyWeeks": 0,
        "type": "AssessmentItemAttainment",
        "verifierPersonId": "string"
      }
]"#;

fn text(v: &Value, key: &str) -> Option<String> {
    v.get(key).and_then(|x| x.as_str()).map(|s| s.to_string())
}

fn number(v: &Value, key: &str) -> Option<String> {
    v.get(key).and_then(|x| x.as_number()).map(|n| n.to_string())
}

fn flag(v: &Value, key: &str) -> Option<bool> {
    v.get(key).and_then(|x| x.as_bool())
}

fn localized(v: &Value, key: &str) -> Option<LocalizedString> {
    v.get(key).filter(|x| x.is_object()).map(|x| LocalizedString {
        en: text(x, "en"),
        fi: text(x, "fi"),
        sv: text(x, "sv"),
    })
}

fn acceptor(v: &Value) -> PersonWithAttainmentAcceptorType {
    PersonWithAttainmentAcceptorType {
        person_id: text(v, "personId"),
        role_urn: text(v, "roleUrn"),
        text: localized(v, "text"),
        title: localized(v, "title"),
    }
}

fn organisation(v: &Value) -> OrganisationRoleShareBase {
    OrganisationRoleShareBase {
        educational_institution_urn: text(v, "educationalInstitutionUrn"),
        organisation_id: text(v, "organisationId"),
        role_urn: text(v, "roleUrn"),
        share: number(v, "share"),
    }
}

fn attainment(v: &Value) -> SISUAttainment {
    SISUAttainment {
        acceptor_persons: v
            .get("acceptorPersons")
            .and_then(|x| x.as_array())
            .map(|list| list.iter().map(acceptor).collect()),
        additional_info: localized(v, "additionalInfo"),
        attainment_date: text(v, "attainmentDate"),
        attainment_language_urn: text(v, "attainmentLanguageUrn"),
        credit_transfer_info: v.get("creditTransferInfo").filter(|x| x.is_object()).map(|x| CreditTransferInfo {
            credit_transfer_date: text(x, "creditTransferDate"),
            educational_institution_urn: text(x, "educationalInstitutionUrn"),
            international_institution_urn: text(x, "internationalInstitutionUrn"),
            organisation: text(x, "organisation"),
        }),
        credits: number(v, "credits"),
        document_state: text(v, "documentState"),
        expiry_date: text(v, "expiryDate"),
        grade_average: v.get("gradeAverage").filter(|x| x.is_object()).map(|x| GradeAverage {
            grade_scale_id: text(x, "gradeScaleId"),
            method: text(x, "method"),
            total_included_credits: number(x, "totalIncludedCredits"),
            value: number(x, "value"),
        }),
        grade_id: number(v, "gradeId"),
        grade_scale_id: text(v, "gradeScaleId"),
        id: text(v, "id"),
        misregistration: flag(v, "misregistration"),
        misregistration_rationale: text(v, "misregistrationRationale"),
        module_content_application_id: text(v, "moduleContentApplicationId"),
        organisations: v
            .get("organisations")
            .and_then(|x| x.as_array())
            .map(|list| list.iter().map(organisation).collect()),
        person_first_names: text(v, "personFirstNames"),
        person_id: text(v, "personId"),
        person_last_name: text(v, "personLastName"),
        person_student_number: text(v, "personStudentNumber"),
        primary: flag(v, "primary"),
        registration_date: text(v, "registrationDate"),
        state: text(v, "state"),
        student_application_id: text(v, "studentApplicationId"),
        study_field_urn: text(v, "studyFieldUrn"),
        study_right_id: text(v, "studyRightId"),
        study_weeks: number(v, "studyWeeks"),
        attainment_type: text(v, "type"),
        verifier_person_id: text(v, "verifierPersonId"),
    }
}

/// Reads the last attainment of a JSON array of attainments.
fn parse_example_attainment(example_str: &str) -> SISUAttainment {
    let parsed: Value = match serde_json::from_str(example_str) {
        Ok(value) => value,
        Err(e) => panic!("Could not parse example SISU attainment: {}", e),
    };
    match parsed.as_array().and_then(|list| list.last()) {
        Some(last) => attainment(last),
        None => panic!("No attainment in JSON array!"),
    }
}

fn date_2019_01_01(text: &Option<String>) {
    let date = CalendarDate::parse(text.as_deref().unwrap()).unwrap();
    let expected = chrono::naive::NaiveDate::from_ymd_opt(2019, 1, 1).unwrap();
    assert_eq!(date.year(), chrono::Datelike::year(&expected));
    assert_eq!(date.month() as u32, chrono::Datelike::month(&expected));
    assert_eq!(date.day() as u32, chrono::Datelike::day(&expected));
    assert_eq!((date.year(), date.month(), date.day()), (2019, 1, 1));
}

fn as_u64(text: &Option<String>) -> Option<u64> {
    text.as_deref().and_then(Decimal::parse).and_then(|d| d.as_u64())
}

#[test]
fn sisu_swagger_ui_example_acceptor_persons() {
    let attainment = parse_example_attainment(SISU_SWAGGER_UI_EXAMPLE_RESPONSE);
    let acceptor_persons = attainment.acceptor_persons.as_ref().unwrap();
    let only_acceptor = match acceptor_persons.get(0) {
        Some(acceptor) => acceptor,
        None => panic!("No acceptor found!"),
    };
    let PersonWithAttainmentAcceptorType { person_id, role_urn, text, title } = only_acceptor;
    assert_eq!(person_id.as_deref().unwrap(), "string");
    match RoleURN::try_from(role_urn.as_deref().unwrap()) {
        Ok(RoleURN::ApprovedBy) => {}
        _ => panic!("Wrong acceptor URN type!"),
    }
    let LocalizedString { en, fi, sv } = text.as_ref().unwrap();
    assert_eq!(en.as_deref().unwrap(), "English version");
    assert_eq!(fi.as_deref().unwrap(), "Finnish version");
    assert_eq!(sv.as_deref().unwrap(), "Swedish version");
    let LocalizedString { en, fi, sv } = title.as_ref().unwrap();
    assert_eq!(en.as_deref().unwrap(), "English version");
    assert_eq!(fi.as_deref().unwrap(), "Finnish version");
    assert_eq!(sv.as_deref().unwrap(), "Swedish version");
}

#[test]
fn sisu_swagger_ui_example_additional_info() {
    let attainment = parse_example_attainment(SISU_SWAGGER_UI_EXAMPLE_RESPONSE);
    let additional_info = attainment.additional_info.as_ref().unwrap();
    assert_eq!(additional_info.en.as_deref().unwrap(), "English version");
    assert_eq!(additional_info.fi.as_deref().unwrap(), "Finnish version");
    assert_eq!(additional_info.sv.as_deref().unwrap(), "Swedish version");
}

#[test]
fn sisu_swagger_ui_example_attainment_date() {
    let attainment = parse_example_attainment(SISU_SWAGGER_UI_EXAMPLE_RESPONSE);
    date_2019_01_01(&attainment.attainment_date);
}

#[test]
fn sisu_swagger_ui_example_attainment_language_urn() {
    let attainment = parse_example_attainment(SISU_SWAGGER_UI_EXAMPLE_RESPONSE);
    assert_eq!(attainment.attainment_language_urn.as_deref().unwrap(), "string");
}

#[test]
fn sisu_swagger_ui_example_credit_transfer_info() {
    let attainment = parse_example_attainment(SISU_SWAGGER_UI_EXAMPLE_RESPONSE);
    let CreditTransferInfo {
        credit_transfer_date,
        educational_institution_urn,
        international_institution_urn,
        organisation,
    } = attainment.credit_transfer_info.as_ref().unwrap();
    date_2019_01_01(credit_transfer_date);
    assert_eq!(educational_institution_urn.as_deref().unwrap(), "string");
    assert_eq!(international_institution_urn.as_deref().unwrap(), "string");
    assert_eq!(organisation.as_deref().unwrap(), "string");
}

#[test]
fn sisu_swagger_ui_example_credits() {
    let attainment = parse_example_attainment(SISU_SWAGGER_UI_EXAMPLE_RESPONSE);
    assert!(attainment.credits.is_some());
    if let Some(credits) = as_u64(&attainment.credits) {
        assert_eq!(credits, 0);
    }
}

#[test]
fn sisu_swagger_ui_example_document_state() {
    let attainment = parse_example_attainment(SISU_SWAGGER_UI_EXAMPLE_RESPONSE);
    match resolve::<DocumentState>(attainment.document_state.as_deref().unwrap()) {
        Ok(DocumentState::Draft) => {}
        _ => panic!("Incorrect document state!"),
    }
}

#[test]
fn sisu_swagger_ui_example_expiry_date() {
    let attainment = parse_example_attainment(SISU_SWAGGER_UI_EXAMPLE_RESPONSE);
    date_2019_01_01(&attainment.expiry_date);
}

#[test]
fn sisu_swagger_ui_example_grade_average() {
    let attainment = parse_example_attainment(SISU_SWAGGER_UI_EXAMPLE_RESPONSE);
    let GradeAverage { grade_scale_id, method, total_included_credits, value } =
        attainment.grade_average.as_ref().unwrap();
    assert_eq!(grade_scale_id.as_deref().unwrap(), "string");
    match resolve::<AverageCalculationMethod>(method.as_deref().unwrap()) {
        Ok(AverageCalculationMethod::CourseUnitArithmeticMeanWeightingByCredits) => {}
        _ => panic!("Wrong average calculation method!"),
    }
    if let Some(credits) = as_u64(total_included_credits) {
        assert_eq!(credits, 0);
    } else {
        panic!("No total credits!")
    }
    if let Some(credits) = as_u64(value) {
        assert_eq!(credits, 0);
    } else {
        panic!("No total credits!")
    }
}

#[test]
fn sisu_swagger_ui_example_grade_id() {
    let attainment = parse_example_attainment(SISU_SWAGGER_UI_EXAMPLE_RESPONSE);
    match attainment.grade_id.as_deref().and_then(Decimal::parse) {
        Some(id) if id.units() % 1_000_000_000 == 0 => assert_eq!(id.units() / 1_000_000_000, 0),
        _ => panic!("invalid grade id!"),
    }
}

#[test]
fn sisu_swagger_ui_example_grade_scale_id() {
    let attainment = parse_example_attainment(SISU_SWAGGER_UI_EXAMPLE_RESPONSE);
    assert_eq!(attainment.grade_scale_id.as_deref().unwrap(), "string");
}

#[test]
fn sisu_swagger_ui_example_id() {
    let attainment = parse_example_attainment(SISU_SWAGGER_UI_EXAMPLE_RESPONSE);
    assert_eq!(attainment.id.as_deref().unwrap(), "string");
}

#[test]
fn sisu_swagger_ui_example_misregistration() {
    let attainment = parse_example_attainment(SISU_SWAGGER_UI_EXAMPLE_RESPONSE);
    assert!(attainment.misregistration.unwrap());
}

#[test]
fn sisu_swagger_ui_example_misregistration_rationale() {
    let attainment = parse_example_attainment(SISU_SWAGGER_UI_EXAMPLE_RESPONSE);
    assert_eq!(attainment.misregistration_rationale.as_deref().unwrap(), "string");
}

#[test]
fn sisu_swagger_ui_example_module_content_application_id() {
    let attainment = parse_example_attainment(SISU_SWAGGER_UI_EXAMPLE_RESPONSE);
    assert_eq!(attainment.module_content_application_id.as_deref().unwrap(), "string");
}

#[test]
fn sisu_swagger_ui_example_organisations() {
    let attainment = parse_example_attainment(SISU_SWAGGER_UI_EXAMPLE_RESPONSE);
    let organisations = attainment.organisations.as_ref().unwrap();
    let only_organisation = match organisations.get(0) {
        Some(org) => org,
        None => panic!("No organisations!"),
    };
    let OrganisationRoleShareBase { educational_institution_urn, organisation_id, role_urn, share } =
        only_organisation;
    assert_eq!(educational_institution_urn.as_deref().unwrap(), "string");
    assert_eq!(organisation_id.as_deref().unwrap(), "string");
    assert_eq!(role_urn.as_deref().unwrap(), "string");
    if let Some(number) = share.as_deref().and_then(Decimal::parse) {
        assert_eq!(number.units() as f64 / 1e9, 0.0);
    } else {
        panic!("No valid organisation share ∊ [0,1]!")
    }
}

#[test]
fn sisu_swagger_ui_example_person_first_names() {
    let attainment = parse_example_attainment(SISU_SWAGGER_UI_EXAMPLE_RESPONSE);
    assert_eq!(attainment.person_first_names.as_deref().unwrap(), "string");
}

#[test]
fn sisu_swagger_ui_example_person_id() {
    let attainment = parse_example_attainment(SISU_SWAGGER_UI_EXAMPLE_RESPONSE);
    assert_eq!(attainment.person_id.as_deref().unwrap(), "string");
}

#[test]
fn sisu_swagger_ui_example_person_last_name() {
    let attainment = parse_example_attainment(SISU_SWAGGER_UI_EXAMPLE_RESPONSE);
    assert_eq!(attainment.person_last_name.as_deref().unwrap(), "string");
}

#[test]
fn sisu_swagger_ui_example_person_student_number() {
    let attainment = parse_example_attainment(SISU_SWAGGER_UI_EXAMPLE_RESPONSE);
    assert_eq!(attainment.person_student_number.as_deref().unwrap(), "string");
}

#[test]
fn sisu_swagger_ui_example_primary() {
    let attainment = parse_example_attainment(SISU_SWAGGER_UI_EXAMPLE_RESPONSE);
    assert!(attainment.primary.unwrap());
}

#[test]
fn sisu_swagger_ui_example_registration_date() {
    let attainment = parse_example_attainment(SISU_SWAGGER_UI_EXAMPLE_RESPONSE);
    date_2019_01_01(&attainment.registration_date);
}

#[test]
fn sisu_swagger_ui_example_state() {
    let attainment = parse_example_attainment(SISU_SWAGGER_UI_EXAMPLE_RESPONSE);
    match resolve::<AttainmentState>(attainment.state.as_deref().unwrap()) {
        Ok(AttainmentState::Attained) => {}
        _ => panic!("Wrong attainment state!"),
    }
}

#[test]
fn sisu_swagger_ui_example_student_application_id() {
    let attainment = parse_example_attainment(SISU_SWAGGER_UI_EXAMPLE_RESPONSE);
    assert_eq!(attainment.student_application_id.as_deref().unwrap(), "string");
}

#[test]
fn sisu_swagger_ui_example_study_field_urn() {
    let attainment = parse_example_attainment(SISU_SWAGGER_UI_EXAMPLE_RESPONSE);
    assert_eq!(attainment.study_field_urn.as_deref().unwrap(), "string");
}

#[test]
fn sisu_swagger_ui_example_study_right_id() {
    let attainment = parse_example_attainment(SISU_SWAGGER_UI_EXAMPLE_RESPONSE);
    assert_eq!(attainment.study_right_id.as_deref().unwrap(), "string");
}

#[test]
fn sisu_swagger_ui_example_study_weeks() {
    let attainment = parse_example_attainment(SISU_SWAGGER_UI_EXAMPLE_RESPONSE);
    if let Some(number) = as_u64(&attainment.study_weeks) {
        assert_eq!(number, 0);
    } else {
        panic!("Invalid study week format!")
    }
}

#[test]
fn sisu_swagger_ui_example_attainment_type() {
    let attainment = parse_example_attainment(SISU_SWAGGER_UI_EXAMPLE_RESPONSE);
    match resolve::<AttainmentType>(attainment.attainment_type.as_deref().unwrap()) {
        Ok(AttainmentType::AssessmentItemAttainment) => {}
        _ => panic!("Wrong attainment type!"),
    }
}

#[test]
fn sisu_swagger_ui_example_verifier_person_id() {
    let attainment = parse_example_attainment(SISU_SWAGGER_UI_EXAMPLE_RESPONSE);
    assert_eq!(attainment.verifier_person_id.as_deref().unwrap(), "string");
}
