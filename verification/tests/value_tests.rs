use europass::calendar::CalendarDate;
use europass::controlled_vocabularies::{EuropeanLanguage, MDRunit};
use europass::decimal::{Decimal, UNITS_PER_ONE};
use europass::errors::{MappingError, ModelError, Relation};
use europass::value_types::{Amount, Code, Duration, Identifier, Measure, Note, NumericScore, Text};
use europass::vocabulary::{Domain, VocabError};

fn some(text: &str) -> Option<String> {
    Some(text.to_string())
}

#[test]
fn decimals_are_read_exactly() {
    assert_eq!(Decimal::parse("0").unwrap().units(), 0);
    assert_eq!(Decimal::parse("1").unwrap().units(), 1_000_000_000);
    assert_eq!(Decimal::parse("1.0").unwrap().units(), 1_000_000_000);
    assert_eq!(Decimal::parse("0.5").unwrap().units(), 500_000_000);
    assert_eq!(Decimal::parse("-12.25").unwrap().units(), -12_250_000_000);
    assert_eq!(Decimal::parse("0.000000001").unwrap().units(), 1);
    assert_eq!(Decimal::parse("999999999.999999999").unwrap().units(), 999_999_999_999_999_999);
    assert_eq!(Decimal::parse("-999999999.999999999").unwrap().units(), -999_999_999_999_999_999);
    assert_eq!(Decimal::parse("007").unwrap().units(), 7_000_000_000);
    assert_eq!(Decimal::parse("-0").unwrap().units(), 0);
    assert_eq!(Decimal::parse("3.140").unwrap().units(), 3_140_000_000);
}

#[test]
fn what_is_no_decimal_is_refused() {
    for text in [
        "", "-", ".", "1.", ".5", "-.5", "1..2", "1.2.3", "1,5", "+1", " 1", "1 ", "1e3", "0x10", "NaN", "inf", "１",
        "1234567890", "0.1234567890", "--1", "1-", "٣",
    ] {
        assert!(Decimal::parse(text).is_none(), "{:?} is no decimal", text);
    }
}

#[test]
fn shares_lie_above_zero_and_up_to_one() {
    assert!(Decimal::from_units(UNITS_PER_ONE).is_share());
    assert!(Decimal::parse("-1").unwrap().is_negative());
    assert!(!Decimal::parse("0").unwrap().is_negative());
    assert!(Decimal::from_units(1).is_share());
    assert!(!Decimal::from_units(0).is_share());
    assert!(!Decimal::from_units(-1).is_share());
    assert!(!Decimal::from_units(UNITS_PER_ONE + 1).is_share());
}

#[test]
fn whole_numbers_are_counts() {
    assert_eq!(Decimal::parse("0").unwrap().as_u64(), Some(0));
    assert_eq!(Decimal::parse("42.000").unwrap().as_u64(), Some(42));
    assert_eq!(Decimal::parse("42.5").unwrap().as_u64(), None);
    assert_eq!(Decimal::parse("-3").unwrap().as_u64(), None);
}

#[test]
fn dates_exist_in_the_calendar() {
    let date = CalendarDate::new(2020, 2, 29).unwrap();
    assert_eq!((date.year(), date.month(), date.day()), (2020, 2, 29));
    assert!(CalendarDate::new(2019, 2, 29).is_none());
    assert!(CalendarDate::new(1900, 2, 29).is_none());
    assert!(CalendarDate::new(2000, 2, 29).is_some());
    assert!(CalendarDate::new(2019, 4, 31).is_none());
    assert!(CalendarDate::new(2019, 12, 31).is_some());
    assert!(CalendarDate::new(2019, 0, 1).is_none());
    assert!(CalendarDate::new(2019, 13, 1).is_none());
    assert!(CalendarDate::new(2019, 1, 0).is_none());
    assert!(CalendarDate::new(2019, 1, 32).is_none());
    assert!(CalendarDate::new(-4, 2, 29).is_some());
    assert!(CalendarDate::new(2019, 1, 300).is_none());
    assert!(CalendarDate::new(2019, 257, 1).is_none());
    assert!(CalendarDate::leap_year(2024));
    assert!(!CalendarDate::leap_year(2100));
    assert_eq!(CalendarDate::month_length(2024, 2), 29);
    assert_eq!(CalendarDate::month_length(2023, 2), 28);
    assert_eq!(CalendarDate::month_length(2023, 9), 30);
    assert_eq!(CalendarDate::month_length(2023, 10), 31);
    assert_eq!(CalendarDate::month_length(2023, 14), 0);
    assert!(CalendarDate::from_parts(None).is_none());
    assert!(CalendarDate::from_parts(Some((2019, 2, 30))).is_none());
    assert!(CalendarDate::from_parts(Some((2019, 2, 28))).is_some());
}

#[test]
fn dates_are_read_from_text() {
    let date = CalendarDate::parse("2019-01-01").unwrap();
    assert_eq!((date.year(), date.month(), date.day()), (2019, 1, 1));
    let date = CalendarDate::parse("2020-02-29").unwrap();
    assert_eq!((date.year(), date.month(), date.day()), (2020, 2, 29));
    let read = chrono::NaiveDate::from_ymd_opt(1999, 12, 31).unwrap();
    let date = CalendarDate::parse("1999-12-31").unwrap();
    assert_eq!(date.year(), chrono::Datelike::year(&read));
    assert_eq!(date.month() as u32, chrono::Datelike::month(&read));
    assert_eq!(date.day() as u32, chrono::Datelike::day(&read));
    for text in ["", "2019", "2019-01", "2019-02-30", "2019-13-01", "01.01.2019", "yesterday", "2019-01-01T00:00"] {
        assert!(CalendarDate::parse(text).is_none(), "{:?} is no date", text);
    }
}

#[test]
fn an_identifier_needs_content() {
    assert_eq!(Identifier::plain(String::new()).unwrap_err(), ModelError::InvalidIdentifier);
    let id = Identifier::plain("otm-1".to_string()).unwrap();
    assert_eq!(id.content(), "otm-1");
    assert!(id.scheme_id().is_none());
    id.attest();
}

#[test]
fn scheme_fields_fit_together() {
    let refused = |scheme: Option<String>, version: Option<String>, agency, name, agency_name| {
        Identifier::new("x".to_string(), scheme, version, agency, name, agency_name, None, None).is_err()
    };
    assert!(refused(None, some("1.0"), None, None, None));
    assert!(refused(None, None, None, some("Student numbers"), None));
    assert!(refused(None, None, None, None, some("Tampere University")));
    assert!(!refused(some("urn:s"), some("1.0"), None, some("Student numbers"), None));
    assert!(!refused(None, None, some("urn:tuni"), None, some("Tampere University")));
    assert!(!refused(None, None, some("urn:tuni"), None, None));
    assert!(!refused(None, None, None, None, None));

    let id = Identifier::new(
        "123".to_string(),
        some("urn:s"),
        some("1.0"),
        some("urn:tuni"),
        some("Student numbers"),
        some("Tampere University"),
        CalendarDate::new(2019, 1, 1),
        some("student"),
    )
    .unwrap();
    assert_eq!(id.content(), "123");
    assert_eq!(id.scheme_id().as_deref(), Some("urn:s"));
    assert_eq!(id.scheme_version_id().as_deref(), Some("1.0"));
    assert_eq!(id.scheme_agency_id().as_deref(), Some("urn:tuni"));
    assert_eq!(id.scheme_name().as_deref(), Some("Student numbers"));
    assert_eq!(id.scheme_agency_name().as_deref(), Some("Tampere University"));
    assert_eq!(id.issued_date().unwrap().year(), 2019);
    assert_eq!(id.identifier_type().as_deref(), Some("student"));
    let copy = id.duplicate();
    assert_eq!(format!("{:?}", copy), format!("{:?}", id));
    assert!(copy.same_as(&id));
}

#[test]
fn identity_is_scoped_to_the_scheme() {
    let bare = Identifier::plain("123".to_string()).unwrap();
    let in_a = Identifier::new("123".to_string(), some("urn:a"), None, None, None, None, None, None).unwrap();
    let in_b = Identifier::new("123".to_string(), some("urn:b"), None, None, None, None, None, None).unwrap();
    let in_a_too = Identifier::new("123".to_string(), some("urn:a"), some("2"), None, None, None, None, None).unwrap();
    let other = Identifier::new("124".to_string(), some("urn:a"), None, None, None, None, None, None).unwrap();
    assert!(in_a.same_as(&in_a_too));
    assert!(!in_a.same_as(&in_b));
    assert!(!in_a.same_as(&bare));
    assert!(!bare.same_as(&in_a));
    assert!(!in_a.same_as(&other));
    assert!(bare.same_as(&Identifier::plain("123".to_string()).unwrap()));
}

#[test]
fn a_code_is_one_that_its_domain_lists() {
    let code = Code::new(Domain::Currency, "EUR").unwrap();
    assert_eq!(code.domain(), Domain::Currency);
    assert_eq!(code.notation(), "EUR");
    assert_eq!(code.term().code(), "EUR");
    assert!(code.display_name().is_none());
    code.attest();
    match Code::new(Domain::Currency, "eur") {
        Err(VocabError::UnknownCode { domain, code }) => {
            assert_eq!(domain, Domain::Currency);
            assert_eq!(code, "eur");
        }
        Ok(code) => panic!("eur is no currency, got {:?}", code),
    }
    assert!(Code::new(Domain::MeasurementUnit, "EUR").is_err());

    let described = code.described(
        some("http://publications.europa.eu/resource/authority/currency"),
        some("Currency"),
        some("Euro"),
        some("The currency of the euro area"),
        some("http://publications.europa.eu/resource/authority/currency/EUR"),
    );
    assert_eq!(described.notation(), "EUR");
    assert_eq!(described.display_name().as_deref(), Some("Euro"));
    assert_eq!(described.framework_name().as_deref(), Some("Currency"));
    assert_eq!(
        described.framework_uri().as_deref(),
        Some("http://publications.europa.eu/resource/authority/currency")
    );
    assert_eq!(described.description().as_deref(), Some("The currency of the euro area"));
    assert_eq!(described.uri().as_deref(), Some("http://publications.europa.eu/resource/authority/currency/EUR"));
    let copy = described.duplicate();
    assert_eq!(format!("{:?}", copy), format!("{:?}", described));
}

#[test]
fn texts_and_notes_are_in_an_official_language() {
    let text = Text::new("Tutkinto".to_string(), "fi").unwrap();
    assert_eq!(text.content(), "Tutkinto");
    assert_eq!(text.language(), EuropeanLanguage::Finnish);
    assert_eq!(text.duplicate().content(), "Tutkinto");
    match Text::new("Grad".to_string(), "no") {
        Err(VocabError::UnknownCode { domain, code }) => {
            assert_eq!(domain, Domain::Language);
            assert_eq!(code, "no");
        }
        Ok(text) => panic!("no is not an official language, got {:?}", text),
    }
    assert!(Text::new("Degree".to_string(), "EN").is_err());
    assert!(Text::new("Degree".to_string(), "english").is_err());

    let note = Note::new("<p>Hyvä</p>".to_string(), "fi", some("text/html"), some("grade")).unwrap();
    assert_eq!(note.content(), "<p>Hyvä</p>");
    assert_eq!(note.language(), EuropeanLanguage::Finnish);
    assert_eq!(note.format().as_deref(), Some("text/html"));
    assert_eq!(note.topic().as_deref(), Some("grade"));
    assert_eq!(note.duplicate().topic().as_deref(), Some("grade"));
    assert!(Note::new("x".to_string(), "xx", None, None).is_err());
    let plain = Note::in_language("x".to_string(), EuropeanLanguage::Maltese, None, None);
    assert_eq!(plain.language(), EuropeanLanguage::Maltese);
    assert_eq!(Text::in_language("y".to_string(), EuropeanLanguage::Greek).language(), EuropeanLanguage::Greek);
}

#[test]
fn measures_and_amounts_resolve_their_unit() {
    let hours = Measure::new(Decimal::parse("120").unwrap(), "HUR").unwrap();
    assert_eq!(hours.unit(), MDRunit::Hour);
    assert_eq!(hours.content().units(), 120_000_000_000);
    match Measure::new(Decimal::from_units(UNITS_PER_ONE), "hours") {
        Err(VocabError::UnknownCode { domain, code }) => {
            assert_eq!(domain, Domain::MeasurementUnit);
            assert_eq!(code, "hours");
        }
        Ok(measure) => panic!("hours is no unit code, got {:?}", measure),
    }
    let fee = Amount::new(Decimal::parse("-12.5").unwrap(), "EUR").unwrap();
    assert_eq!(fee.unit().code(), "EUR");
    assert_eq!(fee.content().units(), -12_500_000_000);
    match Amount::new(Decimal::from_units(UNITS_PER_ONE), "XYZ") {
        Err(VocabError::UnknownCode { domain, code }) => {
            assert_eq!(domain, Domain::Currency);
            assert_eq!(code, "XYZ");
        }
        Ok(amount) => panic!("XYZ is no currency, got {:?}", amount),
    }
}

#[test]
fn a_duration_is_time_and_never_negative() {
    let measure = |content: &str, unit: &str| Measure::new(Decimal::parse(content).unwrap(), unit).unwrap();
    let hours = Duration::new(measure("1.5", "HUR")).unwrap();
    assert_eq!(hours.measure().unit(), MDRunit::Hour);
    assert_eq!(hours.measure().content().units(), 1_500_000_000);
    assert!(Duration::new(measure("0", "MIN")).is_some());
    assert!(Duration::new(measure("10", "SEC")).is_some());
    assert!(Duration::new(measure("10", "LH")).is_some());
    assert!(Duration::new(measure("10", "3C")).is_some());
    assert!(Duration::new(measure("-1", "HUR")).is_none());
    assert!(Duration::new(measure("1", "MTR")).is_none());
    assert!(Duration::new(measure("1", "KMH")).is_none());
    assert!(Duration::new(measure("-1", "CEL")).is_none());
}

#[test]
fn a_score_is_never_negative() {
    assert_eq!(NumericScore::new(Decimal::parse("5").unwrap()).unwrap().content().units(), 5_000_000_000);
    assert!(NumericScore::new(Decimal::from_units(0)).is_some());
    assert!(NumericScore::new(Decimal::from_units(-1)).is_none());
}

#[test]
fn model_errors_become_mapping_errors() {
    assert!(matches!(MappingError::from_model(ModelError::InvalidIdentifier), MappingError::InvalidIdentifier));
    match MappingError::from_model(ModelError::StructuralCycle { relation: Relation::HasPart }) {
        MappingError::StructuralCycle { relation } => {
            assert_eq!(relation, Relation::HasPart);
            assert_eq!(relation.name(), "has_part");
        }
        other => panic!("got {:?}", other),
    }
    assert_eq!(Relation::Contains.name(), "contains");
    assert_eq!(Relation::HasUnit.name(), "has_unit");
    assert_eq!(Relation::UnitOf.name(), "unit_of");
    assert_eq!(Relation::SpecialisationOf.name(), "specialisation_of");
}
