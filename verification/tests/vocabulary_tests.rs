use europass::controlled_vocabularies::{
    AccreditationType, AssessmentType, CredentialType, EducationalCreditSystems, EuropeanLanguage,
    LearningTargetGroup, MDRcurrency, MDRunit, SupervisionAndVerificationType, VerificationStatus, VerificationType,
    CURRENCY_CODES, LANGUAGE_CODES, UNIT_CODES,
};
use europass::european_qualifications_framework::{EQFLevel, EQF_LEVEL_CODES};
use europass::national_qualification_frameworks::{FinlandNQF, NQF};
use europass::registry::{validate, Term};
use europass::sisu_vocabularies::{DocumentState, RoleURN, ROLE_CODES};
use europass::vocabulary::{code_of, find_code, resolve, str_eq, Domain, VocabError, Vocabulary};

const ALL_DOMAINS: [Domain; 26] = [
    Domain::Currency,
    Domain::MeasurementUnit,
    Domain::EqfLevel,
    Domain::AccreditationType,
    Domain::AssessmentType,
    Domain::CommunicationChannelType,
    Domain::CommunicationChannelUsageType,
    Domain::ContentEncoding,
    Domain::EducationalCreditSystem,
    Domain::CredentialType,
    Domain::EntitlementStatus,
    Domain::EntitlementType,
    Domain::LearningActivityType,
    Domain::LearningOpportunityType,
    Domain::LearningScheduleType,
    Domain::LearningSettingType,
    Domain::ModeOfLearning,
    Domain::TargetGroup,
    Domain::VerificationStatus,
    Domain::VerificationType,
    Domain::Language,
    Domain::Role,
    Domain::DocumentState,
    Domain::AverageCalculationMethod,
    Domain::AttainmentState,
    Domain::AttainmentType,
];

fn unknown(outcome: Result<Term, VocabError>) -> (Domain, String) {
    match outcome {
        Err(VocabError::UnknownCode { domain, code }) => (domain, code),
        Ok(term) => panic!("expected an unknown code, got {:?}", term),
    }
}

#[test]
fn euro_is_a_currency() {
    let euro = MDRcurrency::try_from("EUR").unwrap();
    assert_eq!(euro.code(), "EUR");
    assert_eq!(euro.index(), 79);
    match validate(Domain::Currency, "EUR") {
        Ok(Term::Currency(c)) => assert_eq!(c.code(), "EUR"),
        other => panic!("EUR is a currency, got {:?}", other),
    }
}

#[test]
fn unlisted_currency_is_refused() {
    match MDRcurrency::try_from("XYZ") {
        Err(VocabError::UnknownCode { domain, code }) => {
            assert_eq!(domain, Domain::Currency);
            assert_eq!(code, "XYZ");
        }
        Ok(_) => panic!("XYZ is no currency"),
    }
    assert_eq!(unknown(validate(Domain::Currency, "XYZ")), (Domain::Currency, "XYZ".to_string()));
}

#[test]
fn currency_lookup_is_case_sensitive() {
    assert!(MDRcurrency::try_from("eur").is_err());
    assert!(MDRcurrency::try_from("Eur").is_err());
    assert!(MDRcurrency::try_from(" EUR").is_err());
    assert!(MDRcurrency::try_from("EUR ").is_err());
    assert!(MDRcurrency::try_from("EU").is_err());
    assert!(MDRcurrency::try_from("EURO").is_err());
    assert!(MDRcurrency::try_from("").is_err());
    assert!(MDRcurrency::try_from("ÈUR").is_err());
    assert_eq!(unknown(validate(Domain::Currency, "eur")), (Domain::Currency, "eur".to_string()));
}

#[test]
fn every_listed_currency_resolves_to_itself() {
    assert_eq!(CURRENCY_CODES.len(), 273);
    for (i, code) in CURRENCY_CODES.iter().enumerate() {
        let currency = MDRcurrency::try_from(code).unwrap();
        assert_eq!(currency.code(), *code);
        assert_eq!(currency.index(), i);
        assert!(MDRcurrency::try_from(&code.to_lowercase()).is_err());
    }
}

#[test]
fn every_listed_unit_resolves_to_itself() {
    assert_eq!(UNIT_CODES.len(), 49);
    for (i, code) in UNIT_CODES.iter().enumerate() {
        let unit = MDRunit::try_from(code).unwrap();
        assert_eq!(code_of(&unit), *code);
        assert_eq!(unit.index(), i);
        assert_eq!(unit, MDRunit::at(i));
    }
}

#[test]
fn units_are_read_as_their_table_says() {
    assert_eq!(MDRunit::try_from("2N").unwrap(), MDRunit::Decibel);
    assert_eq!(MDRunit::try_from("HUR").unwrap(), MDRunit::Hour);
    assert_eq!(MDRunit::try_from("LH").unwrap(), MDRunit::LabourHour);
    assert_eq!(MDRunit::try_from("TOE").unwrap(), MDRunit::TonneOfOilEquvalent);
    assert_eq!(MDRunit::try_from("WTT").unwrap(), MDRunit::Watt);
    match MDRunit::try_from("hur") {
        Err(VocabError::UnknownCode { domain, code }) => {
            assert_eq!(domain, Domain::MeasurementUnit);
            assert_eq!(code, "hur");
        }
        Ok(unit) => panic!("hur is no unit, got {:?}", unit),
    }
    assert!(MDRunit::try_from("Hour").is_err());
}

#[test]
fn roles_are_read_as_their_table_says() {
    assert_eq!(ROLE_CODES.len(), 12);
    assert_eq!(RoleURN::try_from("urn:code:attainment-acceptor-type:approved-by").unwrap(), RoleURN::ApprovedBy);
    assert_eq!(
        RoleURN::try_from("urn:code:attainment-acceptor-type:more-supervising-professor").unwrap(),
        RoleURN::MoreSupervisingProfessor
    );
    assert_eq!(RoleURN::try_from("urn:code:attainment-acceptor-type:custos").unwrap(), RoleURN::Custos);
    assert!(RoleURN::try_from("urn:code:unknown-role").is_err());
    assert!(RoleURN::try_from("approved-by").is_err());
    assert_eq!(code_of(&RoleURN::ThesisAdvisor), "urn:code:attainment-acceptor-type:thesis-advisor");
}

#[test]
fn every_domain_resolves_its_own_codes_and_no_others() {
    for domain in ALL_DOMAINS {
        assert_eq!(unknown(validate(domain, "no such code")), (domain, "no such code".to_string()));
        assert_eq!(unknown(validate(domain, "")), (domain, String::new()));
    }
    match validate(Domain::EqfLevel, "6") {
        Ok(Term::EqfLevel(level)) => assert_eq!(level, EQFLevel::Level6),
        other => panic!("6 is a level, got {:?}", other),
    }
    assert!(validate(Domain::EqfLevel, "9").is_err());
    assert!(validate(Domain::EqfLevel, "EUR").is_err());
    assert!(validate(Domain::Currency, "6").is_err());
    match validate(Domain::DocumentState, "DELETED") {
        Ok(Term::DocumentState(state)) => assert_eq!(state, DocumentState::Deleted),
        other => panic!("DELETED is a document state, got {:?}", other),
    }
    match validate(Domain::Language, "fi") {
        Ok(Term::Language(language)) => assert_eq!(language, EuropeanLanguage::Finnish),
        other => panic!("fi is a language, got {:?}", other),
    }
    match validate(Domain::CredentialType, "diploma-supplement") {
        Ok(Term::CredentialType(kind)) => assert_eq!(kind, CredentialType::DiplomaSupplement),
        other => panic!("got {:?}", other),
    }
    match validate(Domain::EducationalCreditSystem, "ects") {
        Ok(Term::EducationalCreditSystem(system)) => {
            assert_eq!(system, EducationalCreditSystems::CreditTransferSystem)
        }
        other => panic!("got {:?}", other),
    }
}

#[test]
fn a_term_knows_its_domain_and_its_code() {
    let term = validate(Domain::TargetGroup, "worked-3-to-10-years").unwrap();
    assert_eq!(term.domain(), Domain::TargetGroup);
    assert_eq!(term.code(), "worked-3-to-10-years");
    assert_eq!(term.index(), LearningTargetGroup::Worked3to10Years.index());
    let term = validate(Domain::AssessmentType, "oral-examination").unwrap();
    assert_eq!(term.code(), code_of(&AssessmentType::OralExamination));
    let term = validate(Domain::AccreditationType, "program-license").unwrap();
    assert_eq!(term.index(), AccreditationType::ProgramLicense.index());
}

#[test]
fn there_are_twenty_four_languages_and_eight_levels() {
    assert_eq!(LANGUAGE_CODES.len(), 24);
    assert_eq!(EQF_LEVEL_CODES.len(), 8);
    assert_eq!(resolve::<EuropeanLanguage>("sv").unwrap(), EuropeanLanguage::Swedish);
    assert_eq!(resolve::<EuropeanLanguage>("ga").unwrap(), EuropeanLanguage::Irish);
    assert!(resolve::<EuropeanLanguage>("no").is_err());
    assert!(resolve::<EuropeanLanguage>("EN").is_err());
    for (i, code) in LANGUAGE_CODES.iter().enumerate() {
        assert_eq!(resolve::<EuropeanLanguage>(code).unwrap().index(), i);
    }
}

#[test]
fn domains_have_names() {
    assert_eq!(Domain::Role.name(), "role");
    assert_eq!(Domain::Currency.name(), "currency");
    assert_eq!(Domain::MeasurementUnit.name(), "measurement-unit");
    assert_eq!(Domain::EqfLevel.name(), "eqf-level");
    assert_eq!(Domain::DocumentState.name(), "document-state");
    assert_eq!(RoleURN::domain(), Domain::Role);
    assert_eq!(MDRcurrency::domain(), Domain::Currency);
}

#[test]
fn strings_compare_exactly() {
    assert!(str_eq("EUR", "EUR"));
    assert!(str_eq("", ""));
    assert!(!str_eq("EUR", "eur"));
    assert!(!str_eq("EUR", "EURO"));
    assert!(!str_eq("EUR", ""));
    assert!(str_eq("Lisätieto", "Lisätieto"));
    assert!(!str_eq("Lisätieto", "Lisatieto"));
}

#[test]
fn the_first_match_of_a_table_is_found() {
    let table = ["a", "b", "a", "c"];
    assert_eq!(find_code(&table, "a"), Some(0));
    assert_eq!(find_code(&table, "c"), Some(3));
    assert_eq!(find_code(&table, "d"), None);
    assert_eq!(find_code(&[], "a"), None);
}

#[test]
fn verification_types_and_national_levels() {
    let supervision = SupervisionAndVerificationType(VerificationType::Seal);
    assert_eq!(supervision.verification_type(), VerificationType::Seal);
    assert_eq!(resolve::<VerificationStatus>("green").unwrap(), VerificationStatus::Green);
    assert_eq!(NQF::Finland(FinlandNQF::Level8), NQF::Finland(FinlandNQF::Level8));
}
