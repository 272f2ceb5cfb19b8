//! The mapping engine: from one attainment record to one credential, in
//! stages that run strictly in order. Each stage either passes or ends the
//! mapping with its error: extraction of the required fields, resolution of
//! the codes, reading of dates and numbers, and assembly of the credential.

use vstd::prelude::*;
use vstd::string::*;
use crate::calendar::{parsed_date, CalendarDate};
use crate::controlled_vocabularies::{CredentialType, EuropeanLanguage};
use crate::decimal::{decimal_of, Decimal, UNITS_PER_ONE};
use crate::errors::{MappingError, MappingFault};
use crate::europass_learning_model::{
    list_views, Agent, AgentView, Assessment, AssessmentView, AwardingProcess, AwardingProcessView,
    EuropassCredential, EuropassCredentialView, LearningAchievement, LearningAchievementView, LearningSpecification,
    LearningSpecificationView, Organisation, OrganisationView, Person, PersonView,
};
use crate::registry::codes_of;
use crate::sisu_attainment::{
    LocalizedString, OrganisationRoleShareBase, PersonWithAttainmentAcceptorType, SISUAttainment,
};
use crate::value_types::{
    copy_text, views, Code, CodeView, Identifier, IdentifierView, Note, NoteView, NumericScore, Text, TextView,
};
use crate::vocabulary::{is_listed, is_position, str_eq, Domain, VocabError};

verus! {

/// Those who accepted the attainment; none where the record has no list.
pub open spec fn acceptors_of(r: &SISUAttainment) -> Seq<PersonWithAttainmentAcceptorType> {
    match r.acceptor_persons {
        Some(list) => list@,
        None => Seq::empty(),
    }
}

/// The organisations of the attainment; none where the record has no list.
pub open spec fn organisations_of(r: &SISUAttainment) -> Seq<OrganisationRoleShareBase> {
    match r.organisations {
        Some(list) => list@,
        None => Seq::empty(),
    }
}

/// The first required field that the record lacks, by its name in the
/// record's own notation; a field of a list's entries is named after the
/// list. The fields are taken in the order of the record.
pub open spec fn missing_field(r: &SISUAttainment) -> Option<Seq<char>> {
    if r.acceptor_persons is None {
        Some("acceptorPersons"@)
    } else if exists|i: int| 0 <= i < acceptors_of(r).len() && (#[trigger] acceptors_of(r)[i]).person_id is None {
        Some("acceptorPersons.personId"@)
    } else if exists|i: int| 0 <= i < acceptors_of(r).len() && (#[trigger] acceptors_of(r)[i]).role_urn is None {
        Some("acceptorPersons.roleUrn"@)
    } else if r.attainment_date is None {
        Some("attainmentDate"@)
    } else if r.credits is None {
        Some("credits"@)
    } else if r.document_state is None {
        Some("documentState"@)
    } else if r.id is None {
        Some("id"@)
    } else if r.organisations is None || organisations_of(r).len() == 0 {
        Some("organisations"@)
    } else if exists|i: int|
        0 <= i < organisations_of(r).len() && (#[trigger] organisations_of(r)[i]).organisation_id is None {
        Some("organisations.organisationId"@)
    } else if exists|i: int| 0 <= i < organisations_of(r).len() && (#[trigger] organisations_of(r)[i]).role_urn is None {
        Some("organisations.roleUrn"@)
    } else if exists|i: int| 0 <= i < organisations_of(r).len() && (#[trigger] organisations_of(r)[i]).share is None {
        Some("organisations.share"@)
    } else if r.person_id is None {
        Some("personId"@)
    } else if r.state is None {
        Some("state"@)
    } else if r.attainment_type is None {
        Some("type"@)
    } else {
        None
    }
}

/// Whether some acceptor lacks the identifier of the person.
fn some_acceptor_lacks_person(list: &Vec<PersonWithAttainmentAcceptorType>) -> (lacks: bool)
    ensures
        lacks == exists|i: int| 0 <= i < list@.len() && (#[trigger] list@[i]).person_id is None,
{
    let mut i: usize = 0;
    while i < list.len()
        invariant
            i <= list@.len(),
            forall|j: int| 0 <= j < i ==> (#[trigger] list@[j]).person_id is Some,
        decreases list@.len() - i,
    {
        if list[i].person_id.is_none() {
            return true;
        }
        i += 1;
    }
    false
}

/// Whether some acceptor lacks the role.
fn some_acceptor_lacks_role(list: &Vec<PersonWithAttainmentAcceptorType>) -> (lacks: bool)
    ensures
        lacks == exists|i: int| 0 <= i < list@.len() && (#[trigger] list@[i]).role_urn is None,
{
    let mut i: usize = 0;
    while i < list.len()
        invariant
            i <= list@.len(),
            forall|j: int| 0 <= j < i ==> (#[trigger] list@[j]).role_urn is Some,
        decreases list@.len() - i,
    {
        if list[i].role_urn.is_none() {
            return true;
        }
        i += 1;
    }
    false
}

/// Whether some organisation lacks its identifier.
fn some_organisation_lacks_id(list: &Vec<OrganisationRoleShareBase>) -> (lacks: bool)
    ensures
        lacks == exists|i: int| 0 <= i < list@.len() && (#[trigger] list@[i]).organisation_id is None,
{
    let mut i: usize = 0;
    while i < list.len()
        invariant
            i <= list@.len(),
            forall|j: int| 0 <= j < i ==> (#[trigger] list@[j]).organisation_id is Some,
        decreases list@.len() - i,
    {
        if list[i].organisation_id.is_none() {
            return true;
        }
        i += 1;
    }
    false
}

/// Whether some organisation lacks its role.
fn some_organisation_lacks_role(list: &Vec<OrganisationRoleShareBase>) -> (lacks: bool)
    ensures
        lacks == exists|i: int| 0 <= i < list@.len() && (#[trigger] list@[i]).role_urn is None,
{
    let mut i: usize = 0;
    while i < list.len()
        invariant
            i <= list@.len(),
            forall|j: int| 0 <= j < i ==> (#[trigger] list@[j]).role_urn is Some,
        decreases list@.len() - i,
    {
        if list[i].role_urn.is_none() {
            return true;
        }
        i += 1;
    }
    false
}

/// Whether some organisation lacks its share.
fn some_organisation_lacks_share(list: &Vec<OrganisationRoleShareBase>) -> (lacks: bool)
    ensures
        lacks == exists|i: int| 0 <= i < list@.len() && (#[trigger] list@[i]).share is None,
{
    let mut i: usize = 0;
    while i < list.len()
        invariant
            i <= list@.len(),
            forall|j: int| 0 <= j < i ==> (#[trigger] list@[j]).share is Some,
        decreases list@.len() - i,
    {
        if list[i].share.is_none() {
            return true;
        }
        i += 1;
    }
    false
}

/// The first stage: the name of the first required field that the record
/// lacks, if it lacks one.
pub fn extract(r: &SISUAttainment) -> (missing: Option<&'static str>)
    ensures
        views(missing) == missing_field(r),
{
    let acceptors = match &r.acceptor_persons {
        Some(list) => list,
        None => {
            return Some("acceptorPersons");
        },
    };
    if some_acceptor_lacks_person(acceptors) {
        return Some("acceptorPersons.personId");
    }
    if some_acceptor_lacks_role(acceptors) {
        return Some("acceptorPersons.roleUrn");
    }
    if r.attainment_date.is_none() {
        return Some("attainmentDate");
    }
    if r.credits.is_none() {
        return Some("credits");
    }
    if r.document_state.is_none() {
        return Some("documentState");
    }
    if r.id.is_none() {
        return Some("id");
    }
    let organisations = match &r.organisations {
        Some(list) => list,
        None => {
            return Some("organisations");
        },
    };
    if organisations.len() == 0 {
        return Some("organisations");
    }
    if some_organisation_lacks_id(organisations) {
        return Some("organisations.organisationId");
    }
    if some_organisation_lacks_role(organisations) {
        return Some("organisations.roleUrn");
    }
    if some_organisation_lacks_share(organisations) {
        return Some("organisations.share");
    }
    if r.person_id.is_none() {
        return Some("personId");
    }
    if r.state.is_none() {
        return Some("state");
    }
    if r.attainment_type.is_none() {
        return Some("type");
    }
    None
}

/// What a field of the record holds; the field must be there.
pub fn text_of(field: &Option<String>) -> (text: &str)
    requires
        field is Some,
    ensures
        text@ == field->0@,
{
    field.as_ref().unwrap().as_str()
}

/// The code of `domain` that `value` writes, with nothing that describes it.
pub open spec fn code_view(domain: Domain, value: Seq<char>) -> CodeView {
    CodeView {
        domain,
        position: choose|i: int| is_position(codes_of(domain), value, i),
        notation: value,
        framework_uri: None,
        framework_name: None,
        display_name: None,
        description: None,
        uri: None,
    }
}

/// What resolving the field `field`, which holds `value`, gives in `domain`:
/// the code that `value` writes, or `UnknownCode` with the field and the
/// value where the domain does not list it.
pub open spec fn resolves_field(domain: Domain, field: Seq<char>, value: Seq<char>, outcome: Result<Code, MappingError>) -> bool {
    match outcome {
        Ok(code) => is_listed(codes_of(domain), value) && code@ == code_view(domain, value),
        Err(e) => !is_listed(codes_of(domain), value) && e@ == (MappingFault::UnknownCode { domain, field, value }),
    }
}

/// Resolves what one field holds in the vocabulary of `domain`.
pub fn resolve_field(domain: Domain, field: &str, value: &str) -> (outcome: Result<Code, MappingError>)
    ensures
        resolves_field(domain, field@, value@, outcome),
{
    match Code::new(domain, value) {
        Ok(code) => {
            assert(is_position(codes_of(domain), value@, code@.position));
            Ok(code)
        },
        Err(VocabError::UnknownCode { domain: d, code: c }) => Err(
            MappingError::UnknownCode { domain: d, field: field.to_owned(), value: c },
        ),
    }
}

/// The roles of the acceptors before `i` are all listed, and that of the
/// acceptor at `i` is not.
pub open spec fn is_first_unknown_role(list: Seq<PersonWithAttainmentAcceptorType>, i: int) -> bool {
    &&& 0 <= i < list.len()
    &&& !is_listed(codes_of(Domain::Role), list[i].role_urn->0@)
    &&& forall|j: int| 0 <= j < i ==> is_listed(codes_of(Domain::Role), (#[trigger] list[j]).role_urn->0@)
}

/// The fault of a field that holds a code unknown to its domain, if the
/// field is there and its code is unknown.
pub open spec fn code_fault(domain: Domain, field: Seq<char>, value: Option<String>) -> Option<MappingFault> {
    match value {
        Some(v) => if is_listed(codes_of(domain), v@) {
            None
        } else {
            Some(MappingFault::UnknownCode { domain, field, value: v@ })
        },
        None => None,
    }
}

/// The method by which the grade average was calculated, where the record
/// gives one.
pub open spec fn method_of(r: &SISUAttainment) -> Option<String> {
    match r.grade_average {
        Some(average) => average.method,
        None => None,
    }
}

/// The first code of the record that its vocabulary does not list, as the
/// fault that reports it: the roles of the acceptors in their order, then
/// the document state, the method of the grade average, the state and the
/// type of the attainment.
pub open spec fn unknown_code(r: &SISUAttainment) -> Option<MappingFault> {
    if exists|i: int| is_first_unknown_role(acceptors_of(r), i) {
        let i = choose|i: int| is_first_unknown_role(acceptors_of(r), i);
        Some(
            MappingFault::UnknownCode {
                domain: Domain::Role,
                field: "acceptorPersons.roleUrn"@,
                value: acceptors_of(r)[i].role_urn->0@,
            },
        )
    } else if code_fault(Domain::DocumentState, "documentState"@, r.document_state) is Some {
        code_fault(Domain::DocumentState, "documentState"@, r.document_state)
    } else if code_fault(Domain::AverageCalculationMethod, "gradeAverage.method"@, method_of(r)) is Some {
        code_fault(Domain::AverageCalculationMethod, "gradeAverage.method"@, method_of(r))
    } else if code_fault(Domain::AttainmentState, "state"@, r.state) is Some {
        code_fault(Domain::AttainmentState, "state"@, r.state)
    } else {
        code_fault(Domain::AttainmentType, "type"@, r.attainment_type)
    }
}

/// The codes that a record's fields resolve to.
#[derive(Debug)]
pub struct ResolvedCodes {
    /// The roles of the acceptors, in their order.
    pub roles: Vec<Code>,
    /// The state of the record as a document.
    pub document_state: Code,
    /// The state of the attainment.
    pub state: Code,
    /// What the attainment was given for.
    pub attainment_type: Code,
}

/// Whether `codes` are the codes that the fields of `r` write.
pub open spec fn are_codes_of(r: &SISUAttainment, codes: ResolvedCodes) -> bool {
    &&& codes.roles@.len() == acceptors_of(r).len()
    &&& forall|i: int|
        0 <= i < acceptors_of(r).len() ==> (#[trigger] codes.roles@[i])@ == code_view(
            Domain::Role,
            acceptors_of(r)[i].role_urn->0@,
        )
    &&& codes.document_state@ == code_view(Domain::DocumentState, r.document_state->0@)
    &&& codes.state@ == code_view(Domain::AttainmentState, r.state->0@)
    &&& codes.attainment_type@ == code_view(Domain::AttainmentType, r.attainment_type->0@)
}

/// The roles of the acceptors, or the fault of the first role that is not
/// listed.
fn resolve_roles(list: &Vec<PersonWithAttainmentAcceptorType>) -> (outcome: Result<Vec<Code>, MappingError>)
    requires
        forall|i: int| 0 <= i < list@.len() ==> (#[trigger] list@[i]).role_urn is Some,
    ensures
        match outcome {
            Ok(roles) => {
                &&& roles@.len() == list@.len()
                &&& forall|i: int| 0 <= i < list@.len() ==> is_listed(codes_of(Domain::Role), (#[trigger] list@[i]).role_urn->0@)
                &&& forall|i: int|
                    0 <= i < list@.len() ==> (#[trigger] roles@[i])@ == code_view(Domain::Role, list@[i].role_urn->0@)
            },
            Err(e) => exists|i: int|
                is_first_unknown_role(list@, i) && e@ == (MappingFault::UnknownCode {
                    domain: Domain::Role,
                    field: "acceptorPersons.roleUrn"@,
                    value: list@[i].role_urn->0@,
                }),
        },
{
    let mut roles: Vec<Code> = Vec::new();
    let mut i: usize = 0;
    while i < list.len()
        invariant
            i <= list@.len(),
            roles@.len() == i,
            forall|j: int| 0 <= j < list@.len() ==> (#[trigger] list@[j]).role_urn is Some,
            forall|j: int| 0 <= j < i ==> is_listed(codes_of(Domain::Role), (#[trigger] list@[j]).role_urn->0@),
            forall|j: int| 0 <= j < i ==> (#[trigger] roles@[j])@ == code_view(Domain::Role, list@[j].role_urn->0@),
        decreases list@.len() - i,
    {
        assert(list@[i as int].role_urn is Some);
        match resolve_field(Domain::Role, "acceptorPersons.roleUrn", text_of(&list[i].role_urn)) {
            Ok(code) => {
                roles.push(code);
            },
            Err(e) => {
                assert(is_first_unknown_role(list@, i as int));
                return Err(e);
            },
        }
        i += 1;
    }
    Ok(roles)
}

/// The second stage: the codes that the record's fields write, or the fault
/// of the first code that its vocabulary does not list.
pub fn resolve_codes(r: &SISUAttainment) -> (outcome: Result<ResolvedCodes, MappingError>)
    requires
        missing_field(r) is None,
    ensures
        match outcome {
            Ok(codes) => unknown_code(r) is None && are_codes_of(r, codes),
            Err(e) => unknown_code(r) == Some(e@),
        },
{
    let acceptors = r.acceptor_persons.as_ref().unwrap();
    let roles = match resolve_roles(acceptors) {
        Ok(roles) => roles,
        Err(e) => {
            proof {
                let i = choose|i: int| is_first_unknown_role(acceptors_of(r), i);
                let k = choose|k: int|
                    is_first_unknown_role(acceptors@, k) && e@ == (MappingFault::UnknownCode {
                        domain: Domain::Role,
                        field: "acceptorPersons.roleUrn"@,
                        value: acceptors@[k].role_urn->0@,
                    });
                assert(is_first_unknown_role(acceptors_of(r), k));
                assert(i == k) by {
                    if i < k {
                        assert(is_listed(codes_of(Domain::Role), acceptors@[i].role_urn->0@));
                    } else if k < i {
                        assert(is_listed(codes_of(Domain::Role), acceptors@[k].role_urn->0@));
                    }
                }
            }
            return Err(e);
        },
    };
    assert(!exists|i: int| is_first_unknown_role(acceptors_of(r), i));
    let document_state = match resolve_field(Domain::DocumentState, "documentState", text_of(&r.document_state)) {
        Ok(code) => code,
        Err(e) => {
            return Err(e);
        },
    };
    match &r.grade_average {
        Some(average) => match &average.method {
            Some(method) => match resolve_field(Domain::AverageCalculationMethod, "gradeAverage.method", method.as_str()) {
                Ok(_) => {},
                Err(e) => {
                    return Err(e);
                },
            },
            None => {},
        },
        None => {},
    }
    let state = match resolve_field(Domain::AttainmentState, "state", text_of(&r.state)) {
        Ok(code) => code,
        Err(e) => {
            return Err(e);
        },
    };
    let attainment_type = match resolve_field(Domain::AttainmentType, "type", text_of(&r.attainment_type)) {
        Ok(code) => code,
        Err(e) => {
            return Err(e);
        },
    };
    Ok(ResolvedCodes { roles, document_state, state, attainment_type })
}

/// The date that an optional field writes, where the field is there.
pub open spec fn optional_date(text: Option<String>) -> Option<(int, int, int)> {
    match text {
        Some(t) => parsed_date(t@),
        None => None,
    }
}

/// The fault of a field that is there and holds no date.
pub open spec fn date_fault(field: Seq<char>, text: Option<String>) -> Option<MappingFault> {
    match text {
        Some(t) => if parsed_date(t@) is None {
            Some(MappingFault::DateParseError { field, value: t@ })
        } else {
            None
        },
        None => None,
    }
}

/// Whether `text` writes a whole number that is not negative.
pub open spec fn is_count(text: Seq<char>) -> bool {
    decimal_of(text) matches Some(u) && u >= 0 && u % (UNITS_PER_ONE as int) == 0
}

/// Whether `text` writes a share: a number greater than zero and at most
/// one.
pub open spec fn is_share(text: Seq<char>) -> bool {
    decimal_of(text) matches Some(u) && 0 < u <= UNITS_PER_ONE
}

/// The sum of the shares that the first `n` organisations hold in `role`.
pub open spec fn role_total(list: Seq<OrganisationRoleShareBase>, role: Seq<char>, n: int) -> int
    decreases n,
{
    if n <= 0 {
        0
    } else {
        role_total(list, role, n - 1) + if list[n - 1].role_urn->0@ == role {
            decimal_of(list[n - 1].share->0@)->0
        } else {
            0
        }
    }
}

/// Whether every organisation holds a share, and the shares of each role
/// sum to one.
pub open spec fn shares_are_sound(list: Seq<OrganisationRoleShareBase>) -> bool {
    &&& forall|i: int| 0 <= i < list.len() ==> is_share((#[trigger] list[i]).share->0@)
    &&& forall|i: int|
        0 <= i < list.len() ==> role_total(list, (#[trigger] list[i]).role_urn->0@, list.len() as int)
            == UNITS_PER_ONE
}

/// The day of the credit transfer, where the record gives one.
pub open spec fn transfer_date_of(r: &SISUAttainment) -> Option<String> {
    match r.credit_transfer_info {
        Some(info) => info.credit_transfer_date,
        None => None,
    }
}

/// The first date or number of the record that cannot be read or is out of
/// range, as the fault that reports it. The fields are taken in the order of
/// the record.
pub open spec fn normalisation_fault(r: &SISUAttainment) -> Option<MappingFault> {
    if date_fault("attainmentDate"@, r.attainment_date) is Some {
        date_fault("attainmentDate"@, r.attainment_date)
    } else if date_fault("creditTransferInfo.creditTransferDate"@, transfer_date_of(r)) is Some {
        date_fault("creditTransferInfo.creditTransferDate"@, transfer_date_of(r))
    } else if !(decimal_of(r.credits->0@) matches Some(u) && u >= 0) {
        Some(MappingFault::NumericRangeError { field: "credits"@ })
    } else if date_fault("expiryDate"@, r.expiry_date) is Some {
        date_fault("expiryDate"@, r.expiry_date)
    } else if r.grade_id is Some && !is_count(r.grade_id->0@) {
        Some(MappingFault::NumericRangeError { field: "gradeId"@ })
    } else if !shares_are_sound(organisations_of(r)) {
        Some(MappingFault::NumericRangeError { field: "organisations.share"@ })
    } else {
        date_fault("registrationDate"@, r.registration_date)
    }
}

/// The dates and numbers that a record's fields write.
#[derive(Debug)]
pub struct NormalisedValues {
    /// The day on which the attainment was received.
    pub attainment_date: CalendarDate,
    /// The day on which the attainment expires.
    pub expiry_date: Option<CalendarDate>,
    /// The day on which the attainment was registered.
    pub registration_date: Option<CalendarDate>,
    /// The number of credits.
    pub credits: NumericScore,
}

/// Whether `values` are what the fields of `r` write.
pub open spec fn are_values_of(r: &SISUAttainment, values: NormalisedValues) -> bool {
    &&& parsed_date(r.attainment_date->0@) == Some(values.attainment_date@)
    &&& optional_date(r.expiry_date) == views(values.expiry_date)
    &&& optional_date(r.registration_date) == views(values.registration_date)
    &&& decimal_of(r.credits->0@) == Some(values.credits@)
}

/// The fault that reports a number out of range in `field`.
fn out_of_range(field: &str) -> (e: MappingError)
    ensures
        e@ == (MappingFault::NumericRangeError { field: field@ }),
{
    MappingError::NumericRangeError { field: field.to_owned() }
}

/// Reads the date that the field `field` holds.
pub fn date_field(field: &str, text: &str) -> (outcome: Result<CalendarDate, MappingError>)
    ensures
        match outcome {
            Ok(date) => parsed_date(text@) == Some(date@),
            Err(e) => parsed_date(text@) is None && e@ == (MappingFault::DateParseError {
                field: field@,
                value: text@,
            }),
        },
{
    match CalendarDate::parse(text) {
        Some(date) => Ok(date),
        None => Err(MappingError::DateParseError { field: field.to_owned(), value: text.to_owned() }),
    }
}

/// Reads the date that the field `field` holds, where it is there.
pub fn optional_date_field(field: &str, text: &Option<String>) -> (outcome: Result<Option<CalendarDate>, MappingError>)
    ensures
        match outcome {
            Ok(date) => date_fault(field@, *text) is None && views(date) == optional_date(*text),
            Err(e) => date_fault(field@, *text) == Some(e@),
        },
{
    match text {
        Some(t) => match date_field(field, t.as_str()) {
            Ok(date) => Ok(Some(date)),
            Err(e) => Err(e),
        },
        None => Ok(None),
    }
}

/// The shares of a role never shrink as more organisations are counted.
pub proof fn lemma_role_total_grows(list: Seq<OrganisationRoleShareBase>, role: Seq<char>, a: int, b: int)
    requires
        0 <= a <= b <= list.len(),
        forall|i: int| 0 <= i < list.len() ==> is_share((#[trigger] list[i]).share->0@),
    ensures
        0 <= role_total(list, role, a) <= role_total(list, role, b),
    decreases b,
{
    if a < b {
        lemma_role_total_grows(list, role, a, b - 1);
        assert(is_share(list[b - 1].share->0@));
    } else if b > 0 {
        lemma_role_total_grows(list, role, a - 1, b - 1);
        assert(is_share(list[b - 1].share->0@));
    }
}

/// The shares of the organisations, where each holds one.
fn read_shares(list: &Vec<OrganisationRoleShareBase>) -> (shares: Option<Vec<Decimal>>)
    requires
        forall|i: int| 0 <= i < list@.len() ==> (#[trigger] list@[i]).share is Some,
    ensures
        match shares {
            Some(values) => {
                &&& values@.len() == list@.len()
                &&& forall|i: int| 0 <= i < list@.len() ==> is_share((#[trigger] list@[i]).share->0@)
                &&& forall|i: int|
                    0 <= i < list@.len() ==> decimal_of(list@[i].share->0@) == Some((#[trigger] values@[i])@)
            },
            None => exists|i: int| 0 <= i < list@.len() && !is_share((#[trigger] list@[i]).share->0@),
        },
{
    let mut values: Vec<Decimal> = Vec::new();
    let mut i: usize = 0;
    while i < list.len()
        invariant
            i <= list@.len(),
            values@.len() == i,
            forall|j: int| 0 <= j < list@.len() ==> (#[trigger] list@[j]).share is Some,
            forall|j: int| 0 <= j < i ==> is_share((#[trigger] list@[j]).share->0@),
            forall|j: int| 0 <= j < i ==> decimal_of(list@[j].share->0@) == Some((#[trigger] values@[j])@),
        decreases list@.len() - i,
    {
        assert(list@[i as int].share is Some);
        match Decimal::parse(text_of(&list[i].share)) {
            Some(share) => {
                if !share.is_share() {
                    assert(!is_share(list@[i as int].share->0@));
                    return None;
                }
                values.push(share);
            },
            None => {
                assert(!is_share(list@[i as int].share->0@));
                return None;
            },
        }
        i += 1;
    }
    Some(values)
}

/// Whether the shares of the role of the organisation at `at` sum to one.
fn role_sums_to_one(list: &Vec<OrganisationRoleShareBase>, shares: &Vec<Decimal>, at: usize) -> (sound: bool)
    requires
        at < list@.len(),
        shares@.len() == list@.len(),
        forall|i: int| 0 <= i < list@.len() ==> (#[trigger] list@[i]).role_urn is Some,
        forall|i: int| 0 <= i < list@.len() ==> is_share((#[trigger] list@[i]).share->0@),
        forall|i: int| 0 <= i < list@.len() ==> decimal_of(list@[i].share->0@) == Some((#[trigger] shares@[i])@),
    ensures
        sound == (role_total(list@, list@[at as int].role_urn->0@, list@.len() as int) == UNITS_PER_ONE),
{
    let role = text_of(&list[at].role_urn);
    let n: usize = list.len();
    let mut total: i64 = 0;
    let mut j: usize = 0;
    while j < n
        invariant
            j <= n,
            n == list@.len(),
            shares@.len() == list@.len(),
            role@ == list@[at as int].role_urn->0@,
            forall|i: int| 0 <= i < list@.len() ==> (#[trigger] list@[i]).role_urn is Some,
            forall|i: int| 0 <= i < list@.len() ==> is_share((#[trigger] list@[i]).share->0@),
            forall|i: int| 0 <= i < list@.len() ==> decimal_of(list@[i].share->0@) == Some((#[trigger] shares@[i])@),
            total == role_total(list@, role@, j as int),
            0 <= total <= UNITS_PER_ONE,
        decreases n - j,
    {
        assert(list@[j as int].role_urn is Some);
        assert(is_share(list@[j as int].share->0@));
        assert(decimal_of(list@[j as int].share->0@) == Some(shares@[j as int]@));
        if str_eq(text_of(&list[j].role_urn), role) {
            total = total + shares[j].units();
            if total > UNITS_PER_ONE {
                proof {
                    lemma_role_total_grows(list@, role@, j + 1, n as int);
                }
                return false;
            }
        }
        j += 1;
    }
    total == UNITS_PER_ONE
}

/// Whether every organisation holds a share, and the shares of each role
/// sum to one.
pub fn shares_sound(list: &Vec<OrganisationRoleShareBase>) -> (sound: bool)
    requires
        forall|i: int| 0 <= i < list@.len() ==> (#[trigger] list@[i]).role_urn is Some,
        forall|i: int| 0 <= i < list@.len() ==> (#[trigger] list@[i]).share is Some,
    ensures
        sound == shares_are_sound(list@),
{
    let shares = match read_shares(list) {
        Some(shares) => shares,
        None => {
            return false;
        },
    };
    let mut i: usize = 0;
    while i < list.len()
        invariant
            i <= list@.len(),
            shares@.len() == list@.len(),
            forall|k: int| 0 <= k < list@.len() ==> (#[trigger] list@[k]).role_urn is Some,
            forall|k: int| 0 <= k < list@.len() ==> is_share((#[trigger] list@[k]).share->0@),
            forall|k: int| 0 <= k < list@.len() ==> decimal_of(list@[k].share->0@) == Some((#[trigger] shares@[k])@),
            forall|k: int|
                0 <= k < i ==> role_total(list@, (#[trigger] list@[k]).role_urn->0@, list@.len() as int)
                    == UNITS_PER_ONE,
        decreases list@.len() - i,
    {
        if !role_sums_to_one(list, &shares, i) {
            return false;
        }
        i += 1;
    }
    true
}

/// The third stage: the dates and numbers that the record's fields write,
/// or the fault of the first that cannot be read or is out of range.
pub fn normalise(r: &SISUAttainment) -> (outcome: Result<NormalisedValues, MappingError>)
    requires
        missing_field(r) is None,
    ensures
        match outcome {
            Ok(values) => normalisation_fault(r) is None && are_values_of(r, values),
            Err(e) => normalisation_fault(r) == Some(e@),
        },
{
    let attainment_date = match date_field("attainmentDate", text_of(&r.attainment_date)) {
        Ok(date) => date,
        Err(e) => {
            return Err(e);
        },
    };
    match &r.credit_transfer_info {
        Some(info) => match optional_date_field("creditTransferInfo.creditTransferDate", &info.credit_transfer_date) {
            Ok(_) => {},
            Err(e) => {
                return Err(e);
            },
        },
        None => {},
    }
    let credits = match Decimal::parse(text_of(&r.credits)) {
        Some(number) => match NumericScore::new(number) {
            Some(score) => score,
            None => {
                return Err(out_of_range("credits"));
            },
        },
        None => {
            return Err(out_of_range("credits"));
        },
    };
    let expiry_date = match optional_date_field("expiryDate", &r.expiry_date) {
        Ok(date) => date,
        Err(e) => {
            return Err(e);
        },
    };
    match &r.grade_id {
        Some(grade) => {
            let whole = match Decimal::parse(grade.as_str()) {
                Some(number) => number.as_u64().is_some(),
                None => false,
            };
            if !whole {
                return Err(out_of_range("gradeId"));
            }
        },
        None => {},
    }
    let organisations = r.organisations.as_ref().unwrap();
    proof {
        assert forall|i: int| 0 <= i < organisations@.len() implies (#[trigger] organisations@[i]).role_urn is Some
            && organisations@[i].share is Some by {
            assert(organisations_of(r)[i] == organisations@[i]);
        }
    }
    if !shares_sound(organisations) {
        return Err(out_of_range("organisations.share"));
    }
    let registration_date = match optional_date_field("registrationDate", &r.registration_date) {
        Ok(date) => date,
        Err(e) => {
            return Err(e);
        },
    };
    Ok(NormalisedValues { attainment_date, expiry_date, registration_date, credits })
}

/// An identifier that has only content, outside any scheme.
pub open spec fn plain_identifier(content: Seq<char>) -> IdentifierView {
    IdentifierView {
        content,
        scheme_id: None,
        scheme_version_id: None,
        scheme_agency_id: None,
        scheme_name: None,
        scheme_agency_name: None,
        issued_date: None,
        identifier_type: None,
    }
}

/// The note that a localised text gives: its English version, else its
/// Finnish version, else its Swedish version; none where it has no version.
pub open spec fn localized_note(text: Option<LocalizedString>) -> Option<NoteView> {
    match text {
        Some(versions) => if versions.en is Some {
            Some(NoteView { content: versions.en->0@, language: EuropeanLanguage::English, format: None, topic: None })
        } else if versions.fi is Some {
            Some(NoteView { content: versions.fi->0@, language: EuropeanLanguage::Finnish, format: None, topic: None })
        } else if versions.sv is Some {
            Some(NoteView { content: versions.sv->0@, language: EuropeanLanguage::Swedish, format: None, topic: None })
        } else {
            None
        },
        None => None,
    }
}

/// The organisation that an entry of the record's list of organisations
/// names: identified by the entry's identifier within the scheme of its
/// educational institution.
pub open spec fn organisation_view(entry: OrganisationRoleShareBase) -> OrganisationView {
    OrganisationView {
        identifier: IdentifierView {
            content: entry.organisation_id->0@,
            scheme_id: views(entry.educational_institution_urn),
            scheme_version_id: None,
            scheme_agency_id: None,
            scheme_name: None,
            scheme_agency_name: None,
            issued_date: None,
            identifier_type: None,
        },
        preferred_name: None,
        alternative_name: None,
        home_page: None,
        has_unit: None,
        unit_of: None,
    }
}

/// The agent that an acceptor of the record becomes: identified by the
/// person, typed by the role, with the acceptor's text as its note.
pub open spec fn agent_view(acceptor: PersonWithAttainmentAcceptorType, role: CodeView) -> AgentView {
    AgentView {
        identifier: plain_identifier(acceptor.person_id->0@),
        agent_type: Some(role),
        preferred_name: None,
        note: localized_note(acceptor.text),
    }
}

/// The agents that the acceptors of the record become, in their order.
pub open spec fn agent_views(list: Seq<PersonWithAttainmentAcceptorType>, roles: Seq<CodeView>) -> Seq<AgentView> {
    Seq::new(list.len(), |i: int| agent_view(list[i], roles[i]))
}

/// Whether an identifier that the credential needs would have no content:
/// that of the attainment, of the student, of the first organisation or of
/// an acceptor.
pub open spec fn has_empty_identifier(r: &SISUAttainment) -> bool {
    ||| r.id->0@.len() == 0
    ||| r.person_id->0@.len() == 0
    ||| organisations_of(r)[0].organisation_id->0@.len() == 0
    ||| exists|i: int| 0 <= i < acceptors_of(r).len() && (#[trigger] acceptors_of(r)[i]).person_id->0@.len() == 0
}

/// The credential that the record becomes, given the codes, dates and
/// numbers that its fields write.
///
/// The credential is identified by the attainment, is of the generic type
/// and is titled by the type of the attainment. Its issuer is the first
/// organisation of the record; its subject is the student, who has achieved
/// one learning achievement. The achievement is derived from one assessment,
/// which holds the grade, the grade scale, the state of the attainment and
/// the acceptors as agents; it was awarded by the issuer on the day of the
/// attainment; and it is specified by a learning specification that holds
/// the type of the attainment and the credits. The credential is issued on
/// the day of registration, valid from the day of the attainment, and
/// expires on the day of expiry; its status is the document state. It has
/// no attachment, is not sealed and contains no other credential.
pub open spec fn credential_view(
    r: &SISUAttainment,
    roles: Seq<CodeView>,
    document_state: CodeView,
    state: CodeView,
    attainment_type: CodeView,
    attainment_date: (int, int, int),
    expiry_date: Option<(int, int, int)>,
    registration_date: Option<(int, int, int)>,
    credits: int,
) -> EuropassCredentialView {
    let issuer = organisation_view(organisations_of(r)[0]);
    let assessment = AssessmentView {
        identifier: plain_identifier(r.id->0@),
        title: None,
        description: None,
        grade: views(r.grade_id),
        grading_scheme: views(r.grade_scale_id),
        issued_date: Some(attainment_date),
        id_verification: None,
        status: Some(state),
        assessed_by: agent_views(acceptors_of(r), roles),
        specified_by: None,
    };
    let awarding = AwardingProcessView {
        identifier: plain_identifier(r.id->0@),
        description: None,
        awarding_body: issuer,
        awarding_date: Some(attainment_date),
    };
    let specification = LearningSpecificationView {
        identifier: plain_identifier(r.id->0@),
        title: None,
        definition: None,
        learning_opportunity_type: Some(attainment_type),
        ects_credit_points: Some(credits),
        eqf_level: None,
        nqf_level: None,
        language: None,
        mode: None,
        learning_setting: None,
        target_group: None,
        has_part: None,
        specialisation_of: None,
    };
    let achievement = LearningAchievementView {
        identifier: plain_identifier(r.id->0@),
        title: None,
        description: None,
        additional_note: None,
        was_derived_from: Some(assessment),
        was_awarded_by: Some(awarding),
        entitles_to: None,
        specified_by: Some(specification),
    };
    let subject = PersonView {
        identifier: plain_identifier(r.person_id->0@),
        national_id: None,
        full_name: None,
        given_names: None,
        family_name: None,
        date_of_birth: None,
        achieved: Some(achievement),
        entitled_to: None,
    };
    EuropassCredentialView {
        identifier: plain_identifier(r.id->0@),
        credential_type: CredentialType::Generic,
        title: TextView { content: r.attainment_type->0@, language: EuropeanLanguage::English },
        description: localized_note(r.additional_info),
        issuer,
        credential_subject: subject,
        issuance_date: registration_date,
        valid_from: Some(attainment_date),
        expiration_date: expiry_date,
        status: Some(document_state),
        attachment: None,
        credential_proof: None,
        contains: None,
    }
}

/// The identifier with the content `content`, outside any scheme; refused
/// where there is no content.
pub fn plain_id(content: &str) -> (outcome: Result<Identifier, MappingError>)
    ensures
        match outcome {
            Ok(id) => content@.len() > 0 && id@ == plain_identifier(content@),
            Err(e) => content@.len() == 0 && e@ == MappingFault::InvalidIdentifier,
        },
{
    match Identifier::plain(content.to_owned()) {
        Ok(id) => {
            id.attest();
            Ok(id)
        },
        Err(e) => Err(MappingError::from_model(e)),
    }
}

/// The note that a localised text gives.
pub fn note_from(text: &Option<LocalizedString>) -> (note: Option<Note>)
    ensures
        views(note) == localized_note(*text),
{
    match text {
        Some(versions) => match (&versions.en, &versions.fi, &versions.sv) {
            (Some(en), _, _) => Some(Note::in_language(en.clone(), EuropeanLanguage::English, None, None)),
            (None, Some(fi), _) => Some(Note::in_language(fi.clone(), EuropeanLanguage::Finnish, None, None)),
            (None, None, Some(sv)) => Some(Note::in_language(sv.clone(), EuropeanLanguage::Swedish, None, None)),
            (None, None, None) => None,
        },
        None => None,
    }
}

/// The organisation that an entry of the record's list of organisations
/// names; refused where its identifier has no content.
pub fn organisation_from(entry: &OrganisationRoleShareBase) -> (outcome: Result<Organisation, MappingError>)
    requires
        entry.organisation_id is Some,
    ensures
        match outcome {
            Ok(organisation) => entry.organisation_id->0@.len() > 0 && organisation@ == organisation_view(*entry),
            Err(e) => entry.organisation_id->0@.len() == 0 && e@ == MappingFault::InvalidIdentifier,
        },
{
    let identifier = match Identifier::new(
        text_of(&entry.organisation_id).to_owned(),
        copy_text(&entry.educational_institution_urn),
        None,
        None,
        None,
        None,
        None,
        None,
    ) {
        Ok(id) => id,
        Err(e) => {
            return Err(MappingError::from_model(e));
        },
    };
    match Organisation::new(identifier, None, None, None, None, None) {
        Ok(organisation) => Ok(organisation),
        Err(e) => Err(MappingError::from_model(e)),
    }
}

/// The agents that the acceptors become; refused where the identifier of a
/// person has no content.
pub fn agents_from(list: &Vec<PersonWithAttainmentAcceptorType>, roles: &Vec<Code>) -> (outcome: Result<Vec<Agent>, MappingError>)
    requires
        roles@.len() == list@.len(),
        forall|i: int| 0 <= i < list@.len() ==> (#[trigger] list@[i]).person_id is Some,
    ensures
        match outcome {
            Ok(agents) => {
                &&& forall|i: int| 0 <= i < list@.len() ==> (#[trigger] list@[i]).person_id->0@.len() > 0
                &&& list_views(agents@) == agent_views(list@, list_views(roles@))
            },
            Err(e) => {
                &&& exists|i: int| 0 <= i < list@.len() && (#[trigger] list@[i]).person_id->0@.len() == 0
                &&& e@ == MappingFault::InvalidIdentifier
            },
        },
{
    let mut agents: Vec<Agent> = Vec::new();
    let mut i: usize = 0;
    while i < list.len()
        invariant
            i <= list@.len(),
            agents@.len() == i,
            roles@.len() == list@.len(),
            forall|j: int| 0 <= j < list@.len() ==> (#[trigger] list@[j]).person_id is Some,
            forall|j: int| 0 <= j < i ==> (#[trigger] list@[j]).person_id->0@.len() > 0,
            forall|j: int| 0 <= j < i ==> (#[trigger] agents@[j])@ == agent_view(list@[j], roles@[j]@),
        decreases list@.len() - i,
    {
        assert(list@[i as int].person_id is Some);
        let identifier = match plain_id(text_of(&list[i].person_id)) {
            Ok(id) => id,
            Err(e) => {
                assert(list@[i as int].person_id->0@.len() == 0);
                return Err(e);
            },
        };
        let agent = Agent::new(identifier, Some(roles[i].duplicate()), None, note_from(&list[i].text));
        agents.push(agent);
        i += 1;
    }
    assert(list_views(agents@) =~= agent_views(list@, list_views(roles@)));
    Ok(agents)
}

/// The last stages: assembles the credential from the record and from the
/// codes, dates and numbers that its fields were found to write, and holds
/// it to the rules of the model. It is refused with `InvalidIdentifier`
/// where an identifier that the credential needs has no content.
pub fn assemble(r: &SISUAttainment, codes: ResolvedCodes, values: NormalisedValues) -> (outcome: Result<
    EuropassCredential,
    MappingError,
>)
    requires
        missing_field(r) is None,
        codes.roles@.len() == acceptors_of(r).len(),
    ensures
        match outcome {
            Ok(credential) => !has_empty_identifier(r) && credential@ == credential_view(
                r,
                list_views(codes.roles@),
                codes.document_state@,
                codes.state@,
                codes.attainment_type@,
                values.attainment_date@,
                views(values.expiry_date),
                views(values.registration_date),
                values.credits@,
            ),
            Err(e) => has_empty_identifier(r) && e@ == MappingFault::InvalidIdentifier,
        },
{
    let id = text_of(&r.id);
    let acceptors = r.acceptor_persons.as_ref().unwrap();
    let organisations = r.organisations.as_ref().unwrap();
    proof {
        assert forall|i: int| 0 <= i < acceptors@.len() implies (#[trigger] acceptors@[i]).person_id is Some by {
            assert(acceptors_of(r)[i] == acceptors@[i]);
        }
        assert(organisations_of(r)[0] == organisations@[0]);
        assert(organisations@[0].organisation_id is Some);
    }
    let ResolvedCodes { roles, document_state, state, attainment_type } = codes;
    let credential_id = match plain_id(id) {
        Ok(identifier) => identifier,
        Err(e) => {
            return Err(e);
        },
    };
    let subject_id = match plain_id(text_of(&r.person_id)) {
        Ok(identifier) => identifier,
        Err(e) => {
            return Err(e);
        },
    };
    let issuer = match organisation_from(&organisations[0]) {
        Ok(organisation) => organisation,
        Err(e) => {
            return Err(e);
        },
    };
    let awarding_body = match organisation_from(&organisations[0]) {
        Ok(organisation) => organisation,
        Err(e) => {
            return Err(e);
        },
    };
    let agents = match agents_from(acceptors, &roles) {
        Ok(agents) => agents,
        Err(e) => {
            proof {
                let i = choose|i: int| 0 <= i < acceptors@.len() && (#[trigger] acceptors@[i]).person_id->0@.len() == 0;
                assert(acceptors_of(r)[i].person_id->0@.len() == 0);
            }
            return Err(e);
        },
    };
    proof {
        assert forall|i: int| 0 <= i < acceptors_of(r).len() implies (#[trigger] acceptors_of(r)[i]).person_id->0@.len()
            > 0 by {
            assert(acceptors@[i].person_id->0@.len() > 0);
        }
        assert(!has_empty_identifier(r));
    }
    let assessment_id = credential_id.duplicate();
    let awarding_id = credential_id.duplicate();
    let specification_id = credential_id.duplicate();
    let achievement_id = credential_id.duplicate();
    let assessment = Assessment::new(
        assessment_id,
        None,
        None,
        copy_text(&r.grade_id),
        copy_text(&r.grade_scale_id),
        Some(values.attainment_date),
        None,
        Some(state),
        agents,
        None,
    );
    let awarding = AwardingProcess::new(awarding_id, None, awarding_body, Some(values.attainment_date));
    let specification = match LearningSpecification::new(
        specification_id,
        None,
        None,
        Some(attainment_type),
        Some(values.credits),
        None,
        None,
        None,
        None,
        None,
        None,
        None,
        None,
    ) {
        Ok(specification) => specification,
        Err(e) => {
            return Err(MappingError::from_model(e));
        },
    };
    let achievement = LearningAchievement::new(
        achievement_id,
        None,
        None,
        None,
        Some(assessment),
        Some(awarding),
        None,
        Some(specification),
    );
    let subject = Person::new(subject_id, None, None, None, None, None, Some(achievement), None);
    let title = Text::in_language(text_of(&r.attainment_type).to_owned(), EuropeanLanguage::English);
    match EuropassCredential::new(
        credential_id,
        CredentialType::Generic,
        title,
        note_from(&r.additional_info),
        issuer,
        subject,
        values.registration_date,
        Some(values.attainment_date),
        values.expiry_date,
        Some(document_state),
        None,
        None,
        None,
    ) {
        Ok(credential) => Ok(credential),
        Err(e) => Err(MappingError::from_model(e)),
    }
}

/// The credential that the record becomes, where every stage passes.
pub open spec fn credential_of(r: &SISUAttainment) -> EuropassCredentialView {
    credential_view(
        r,
        Seq::new(acceptors_of(r).len(), |i: int| code_view(Domain::Role, acceptors_of(r)[i].role_urn->0@)),
        code_view(Domain::DocumentState, r.document_state->0@),
        code_view(Domain::AttainmentState, r.state->0@),
        code_view(Domain::AttainmentType, r.attainment_type->0@),
        parsed_date(r.attainment_date->0@)->0,
        optional_date(r.expiry_date),
        optional_date(r.registration_date),
        decimal_of(r.credits->0@)->0,
    )
}

/// What mapping the record gives: the fault of the first stage that does
/// not pass, else the credential.
pub open spec fn mapping_of(r: &SISUAttainment) -> Result<EuropassCredentialView, MappingFault> {
    if missing_field(r) is Some {
        Err(MappingFault::MissingField { name: missing_field(r)->0 })
    } else if unknown_code(r) is Some {
        Err(unknown_code(r)->0)
    } else if normalisation_fault(r) is Some {
        Err(normalisation_fault(r)->0)
    } else if has_empty_identifier(r) {
        Err(MappingFault::InvalidIdentifier)
    } else {
        Ok(credential_of(r))
    }
}

/// Whether `outcome` is what mapping the record gives.
pub open spec fn maps_to(r: &SISUAttainment, outcome: Result<EuropassCredential, MappingError>) -> bool {
    match outcome {
        Ok(credential) => mapping_of(r) == Ok::<EuropassCredentialView, MappingFault>(credential@),
        Err(e) => mapping_of(r) == Err::<EuropassCredentialView, MappingFault>(e@),
    }
}

/// Maps an attainment record onto a credential. The stages run in order,
/// and the first that does not pass ends the mapping with its error: a
/// required field is missing; a code is not listed by its vocabulary; a date
/// or a number cannot be read or is out of range; an identifier has no
/// content. No credential comes back unless every stage has passed.
pub fn map_attainment(r: &SISUAttainment) -> (outcome: Result<EuropassCredential, MappingError>)
    ensures
        maps_to(r, outcome),
{
    match extract(r) {
        Some(name) => {
            return Err(MappingError::MissingField { name: name.to_owned() });
        },
        None => {},
    }
    let codes = match resolve_codes(r) {
        Ok(codes) => codes,
        Err(e) => {
            return Err(e);
        },
    };
    let values = match normalise(r) {
        Ok(values) => values,
        Err(e) => {
            return Err(e);
        },
    };
    proof {
        assert(list_views(codes.roles@) =~= Seq::new(
            acceptors_of(r).len(),
            |i: int| code_view(Domain::Role, acceptors_of(r)[i].role_urn->0@),
        ));
    }
    assemble(r, codes, values)
}

/// Mapping is a function of the record: two outcomes of mapping the same
/// record say the same.
pub proof fn law_mapping_is_a_function(
    r: &SISUAttainment,
    first: Result<EuropassCredential, MappingError>,
    second: Result<EuropassCredential, MappingError>,
)
    requires
        maps_to(r, first),
        maps_to(r, second),
    ensures
        first is Ok <==> second is Ok,
        first is Ok ==> first->Ok_0@ == second->Ok_0@,
        first is Err ==> first->Err_0@ == second->Err_0@,
{
}

/// A credential comes back exactly when every stage passes.
pub proof fn law_credential_only_when_every_stage_passes(r: &SISUAttainment)
    ensures
        mapping_of(r) is Ok <==> {
            &&& missing_field(r) is None
            &&& unknown_code(r) is None
            &&& normalisation_fault(r) is None
            &&& !has_empty_identifier(r)
        },
{
}

/// The credential of a record that maps may exist: its identifiers are
/// valid, and no entity in it reaches itself again.
pub proof fn law_mapped_credential_is_sound(r: &SISUAttainment)
    requires
        mapping_of(r) is Ok,
    ensures
        mapping_of(r)->Ok_0.is_sound(),
{
    let credential = mapping_of(r)->Ok_0;
    let achievement = credential.credential_subject.achieved->0;
    let assessment = achievement.was_derived_from->0;
    let specification = achievement.specified_by->0;
    let issuer = credential.issuer;
    assert(seq![issuer.identifier.key()].no_duplicates());
    assert(issuer.is_sound());
    assert(seq![specification.identifier.key()].no_duplicates());
    assert(specification.is_sound());
    assert forall|i: int| 0 <= i < assessment.assessed_by.len() implies (#[trigger] assessment.assessed_by[i]).is_sound() by {
        assert(acceptors_of(r)[i].person_id->0@.len() > 0);
    }
    assert(assessment.is_sound());
    assert(achievement.was_awarded_by->0.is_sound());
    assert(achievement.is_sound());
    assert(credential.credential_subject.is_sound());
    assert(seq![credential.identifier.key()].no_duplicates());
}

/// The credential of a record that maps matches the record: its issuer is
/// the first organisation, its dates are those that the record writes, and
/// its codes are written as the record writes them.
pub proof fn law_credential_matches_record(r: &SISUAttainment)
    requires
        mapping_of(r) is Ok,
    ensures
        ({
            let credential = mapping_of(r)->Ok_0;
            let achievement = credential.credential_subject.achieved->0;
            let assessment = achievement.was_derived_from->0;
            &&& credential.identifier.content == r.id->0@
            &&& credential.issuer.identifier.content == organisations_of(r)[0].organisation_id->0@
            &&& credential.issuer.identifier.scheme_id == views(organisations_of(r)[0].educational_institution_urn)
            &&& credential.credential_subject.identifier.content == r.person_id->0@
            &&& credential.valid_from == parsed_date(r.attainment_date->0@)
            &&& credential.issuance_date == optional_date(r.registration_date)
            &&& credential.expiration_date == optional_date(r.expiry_date)
            &&& credential.status->0.domain == Domain::DocumentState
            &&& credential.status->0.notation == r.document_state->0@
            &&& assessment.status->0.domain == Domain::AttainmentState
            &&& assessment.status->0.notation == r.state->0@
            &&& assessment.issued_date == parsed_date(r.attainment_date->0@)
            &&& assessment.assessed_by.len() == acceptors_of(r).len()
            &&& forall|i: int|
                0 <= i < acceptors_of(r).len() ==> {
                    &&& (#[trigger] assessment.assessed_by[i]).identifier.content == acceptors_of(r)[i].person_id->0@
                    &&& assessment.assessed_by[i].agent_type->0.domain == Domain::Role
                    &&& assessment.assessed_by[i].agent_type->0.notation == acceptors_of(r)[i].role_urn->0@
                }
            &&& achievement.was_awarded_by->0.awarding_body == credential.issuer
            &&& achievement.specified_by->0.learning_opportunity_type->0.domain == Domain::AttainmentType
            &&& achievement.specified_by->0.learning_opportunity_type->0.notation == r.attainment_type->0@
            &&& Some(achievement.specified_by->0.ects_credit_points->0) == decimal_of(r.credits->0@)
        }),
{
}

/// A record that has its acceptors in full and lacks the day of the
/// attainment is refused for that field.
pub proof fn law_missing_attainment_date_is_reported(r: &SISUAttainment)
    requires
        r.acceptor_persons is Some,
        forall|i: int| 0 <= i < acceptors_of(r).len() ==> (#[trigger] acceptors_of(r)[i]).person_id is Some,
        forall|i: int| 0 <= i < acceptors_of(r).len() ==> (#[trigger] acceptors_of(r)[i]).role_urn is Some,
        r.attainment_date is None,
    ensures
        mapping_of(r) == Err::<EuropassCredentialView, MappingFault>(
            MappingFault::MissingField { name: "attainmentDate"@ },
        ),
{
}

/// Among acceptors of whom one has a role that is not listed, there is a
/// first such acceptor.
pub proof fn lemma_first_unknown_role_exists(list: Seq<PersonWithAttainmentAcceptorType>, k: int)
    requires
        0 <= k < list.len(),
        !is_listed(codes_of(Domain::Role), list[k].role_urn->0@),
    ensures
        exists|i: int| is_first_unknown_role(list, i),
    decreases k,
{
    if forall|j: int| 0 <= j < k ==> is_listed(codes_of(Domain::Role), (#[trigger] list[j]).role_urn->0@) {
        assert(is_first_unknown_role(list, k));
    } else {
        let j = choose|j: int| 0 <= j < k && !is_listed(codes_of(Domain::Role), (#[trigger] list[j]).role_urn->0@);
        lemma_first_unknown_role_exists(list, j);
    }
}

/// A record that lacks no field and has an acceptor whose role is not
/// listed is refused with `UnknownCode` in the domain of roles, and the role
/// that is reported is one that is not listed: no role is ever replaced.
pub proof fn law_unknown_role_is_refused(r: &SISUAttainment, k: int)
    requires
        missing_field(r) is None,
        0 <= k < acceptors_of(r).len(),
        !is_listed(codes_of(Domain::Role), acceptors_of(r)[k].role_urn->0@),
    ensures
        mapping_of(r) matches Err(MappingFault::UnknownCode { domain, field, value }) && domain == Domain::Role
            && field == "acceptorPersons.roleUrn"@ && !is_listed(codes_of(Domain::Role), value),
{
    lemma_first_unknown_role_exists(acceptors_of(r), k);
}

/// A record that passes the stages before and in which the shares of some
/// role do not sum to one is refused with `NumericRangeError`.
pub proof fn law_shares_must_sum_to_one(r: &SISUAttainment, k: int)
    requires
        missing_field(r) is None,
        unknown_code(r) is None,
        date_fault("attainmentDate"@, r.attainment_date) is None,
        date_fault("creditTransferInfo.creditTransferDate"@, transfer_date_of(r)) is None,
        decimal_of(r.credits->0@) matches Some(u) && u >= 0,
        date_fault("expiryDate"@, r.expiry_date) is None,
        r.grade_id is Some ==> is_count(r.grade_id->0@),
        0 <= k < organisations_of(r).len(),
        role_total(organisations_of(r), organisations_of(r)[k].role_urn->0@, organisations_of(r).len() as int)
            != UNITS_PER_ONE,
    ensures
        mapping_of(r) == Err::<EuropassCredentialView, MappingFault>(
            MappingFault::NumericRangeError { field: "organisations.share"@ },
        ),
{
}

} // verus!
