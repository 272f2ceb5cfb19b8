//! The machinery shared by every controlled vocabulary: a closed table of
//! codes, exact lookup in it, and the error for a code that is not listed.

use vstd::prelude::*;
use vstd::string::*;
use vstd::utf8::*;

verus! {

/// The controlled-vocabulary domains.
#[derive(Clone, Copy, Debug, PartialEq, Eq, Structural)]
pub enum Domain {
    /// Currencies, by their ISO 4217 codes.
    Currency,
    /// Units of measurement.
    MeasurementUnit,
    /// Levels of the European Qualifications Framework.
    EqfLevel,
    /// The kinds of accreditation that an organisation or a programme can hold.
    AccreditationType,
    /// The forms that an assessment can take.
    AssessmentType,
    /// The media over which an agent can be contacted.
    CommunicationChannelType,
    /// The settings in which a communication channel is used.
    CommunicationChannelUsageType,
    /// The encodings of embedded binary content.
    ContentEncoding,
    /// The European educational credit systems.
    EducationalCreditSystem,
    /// The standard kinds of credential.
    CredentialType,
    /// Whether an entitlement grants a right or the right to apply for it.
    EntitlementStatus,
    /// What an entitlement gives access to.
    EntitlementType,
    /// The activities through which learning outcomes are acquired.
    LearningActivityType,
    /// The formats in which organised learning is delivered.
    LearningOpportunityType,
    /// The intensity of learning.
    LearningScheduleType,
    /// Whether learning is formal or non-formal.
    LearningSettingType,
    /// The means by which learning and assessment are carried out.
    ModeOfLearning,
    /// The groups of learners that a learning opportunity is designed for.
    TargetGroup,
    /// The outcomes of a verification check.
    VerificationStatus,
    /// The checks that a verifier can run on a credential.
    VerificationType,
    /// The official languages of the European Union, by their ISO 639-1 codes.
    Language,
    /// The roles in which a person accepts an attainment.
    Role,
    /// The state that a document is in.
    DocumentState,
    /// How a grade average was calculated.
    AverageCalculationMethod,
    /// The state that an attainment is in.
    AttainmentState,
    /// What an attainment was given for.
    AttainmentType,
}

impl Domain {
    /// The name under which errors report the domain.
    pub open spec fn name_of(self) -> Seq<char> {
        match self {
            Domain::Currency => "currency"@,
            Domain::MeasurementUnit => "measurement-unit"@,
            Domain::EqfLevel => "eqf-level"@,
            Domain::AccreditationType => "accreditation-type"@,
            Domain::AssessmentType => "assessment-type"@,
            Domain::CommunicationChannelType => "communication-channel-type"@,
            Domain::CommunicationChannelUsageType => "communication-channel-usage-type"@,
            Domain::ContentEncoding => "content-encoding"@,
            Domain::EducationalCreditSystem => "educational-credit-system"@,
            Domain::CredentialType => "credential-type"@,
            Domain::EntitlementStatus => "entitlement-status"@,
            Domain::EntitlementType => "entitlement-type"@,
            Domain::LearningActivityType => "learning-activity-type"@,
            Domain::LearningOpportunityType => "learning-opportunity-type"@,
            Domain::LearningScheduleType => "learning-schedule-type"@,
            Domain::LearningSettingType => "learning-setting-type"@,
            Domain::ModeOfLearning => "mode-of-learning"@,
            Domain::TargetGroup => "target-group"@,
            Domain::VerificationStatus => "verification-status"@,
            Domain::VerificationType => "verification-type"@,
            Domain::Language => "language"@,
            Domain::Role => "role"@,
            Domain::DocumentState => "document-state"@,
            Domain::AverageCalculationMethod => "average-calculation-method"@,
            Domain::AttainmentState => "attainment-state"@,
            Domain::AttainmentType => "attainment-type"@,
        }
    }

    /// The name under which errors report the domain.
    pub fn name(&self) -> (name: &'static str)
        ensures
            name@ == self.name_of(),
    {
        match self {
            Domain::Currency => "currency",
            Domain::MeasurementUnit => "measurement-unit",
            Domain::EqfLevel => "eqf-level",
            Domain::AccreditationType => "accreditation-type",
            Domain::AssessmentType => "assessment-type",
            Domain::CommunicationChannelType => "communication-channel-type",
            Domain::CommunicationChannelUsageType => "communication-channel-usage-type",
            Domain::ContentEncoding => "content-encoding",
            Domain::EducationalCreditSystem => "educational-credit-system",
            Domain::CredentialType => "credential-type",
            Domain::EntitlementStatus => "entitlement-status",
            Domain::EntitlementType => "entitlement-type",
            Domain::LearningActivityType => "learning-activity-type",
            Domain::LearningOpportunityType => "learning-opportunity-type",
            Domain::LearningScheduleType => "learning-schedule-type",
            Domain::LearningSettingType => "learning-setting-type",
            Domain::ModeOfLearning => "mode-of-learning",
            Domain::TargetGroup => "target-group",
            Domain::VerificationStatus => "verification-status",
            Domain::VerificationType => "verification-type",
            Domain::Language => "language",
            Domain::Role => "role",
            Domain::DocumentState => "document-state",
            Domain::AverageCalculationMethod => "average-calculation-method",
            Domain::AttainmentState => "attainment-state",
            Domain::AttainmentType => "attainment-type",
        }
    }
}

/// Failure of a vocabulary lookup.
#[derive(Debug)]
pub enum VocabError {
    /// `code` is not listed in the table of `domain`.
    UnknownCode { domain: Domain, code: String },
}

/// Two sequences of characters with the same UTF-8 encoding are equal.
pub proof fn lemma_encoding_is_injective(a: Seq<char>, b: Seq<char>)
    requires
        encode_utf8(a) == encode_utf8(b),
    ensures
        a == b,
{
    encode_utf8_decode_utf8(a);
    encode_utf8_decode_utf8(b);
}

/// Exact, case-sensitive comparison: `true` exactly when both slices hold the
/// same characters in the same order.
pub fn str_eq(a: &str, b: &str) -> (same: bool)
    ensures
        same == (a@ == b@),
{
    let x = a.as_bytes();
    let y = b.as_bytes();
    if x.len() != y.len() {
        return false;
    }
    let n: usize = x.len();
    let mut i: usize = 0;
    while i < n
        invariant
            x@ == encode_utf8(a@),
            y@ == encode_utf8(b@),
            n == x@.len(),
            n == y@.len(),
            i <= n,
            forall|j: int| 0 <= j < i ==> x@[j] == y@[j],
        decreases n - i,
    {
        if x[i] != y[i] {
            assert(x@[i as int] != y@[i as int]);
            return false;
        }
        i += 1;
    }
    proof {
        assert(x@ =~= y@);
        lemma_encoding_is_injective(a@, b@);
    }
    true
}

/// Some entry of `codes` is exactly `value`.
pub open spec fn is_listed(codes: Seq<&'static str>, value: Seq<char>) -> bool {
    exists|i: int| 0 <= i < codes.len() && (#[trigger] codes[i])@ == value
}

/// `i` is the first position of `codes` whose entry is exactly `value`.
pub open spec fn is_position(codes: Seq<&'static str>, value: Seq<char>, i: int) -> bool {
    &&& 0 <= i < codes.len()
    &&& codes[i]@ == value
    &&& forall|j: int| 0 <= j < i ==> (#[trigger] codes[j])@ != value
}

/// The first position of `value` in `codes`, if it is listed.
pub fn find_code(codes: &[&'static str], value: &str) -> (found: Option<usize>)
    ensures
        match found {
            Some(i) => is_position(codes@, value@, i as int),
            None => !is_listed(codes@, value@),
        },
{
    let n: usize = codes.len();
    let mut i: usize = 0;
    while i < n
        invariant
            n == codes@.len(),
            i <= n,
            forall|j: int| 0 <= j < i ==> (#[trigger] codes@[j])@ != value@,
        decreases n - i,
    {
        if str_eq(codes[i], value) {
            return Some(i);
        }
        i += 1;
    }
    None
}

/// A closed vocabulary: a fixed table of codes, each standing for one term.
pub trait Vocabulary: Sized {
    /// The domain that the vocabulary belongs to.
    spec fn domain_of() -> Domain;

    /// The table of codes, in its fixed order.
    spec fn codes() -> Seq<&'static str>;

    /// The position of this term's code in the table.
    spec fn position(&self) -> int;

    fn domain() -> (d: Domain)
        ensures
            d == Self::domain_of(),
    ;

    fn table() -> (t: &'static [&'static str])
        ensures
            t@ == Self::codes(),
    ;

    /// The term whose code stands at position `i`.
    fn at(i: usize) -> (term: Self)
        requires
            i < Self::codes().len(),
        ensures
            term.position() == i,
    ;

    /// The position of this term's code.
    fn index(&self) -> (i: usize)
        ensures
            i == self.position(),
            i < Self::codes().len(),
    ;
}

/// What a lookup of `value` in the vocabulary `V` returns.
pub open spec fn resolves<V: Vocabulary>(value: Seq<char>, outcome: Result<V, VocabError>) -> bool {
    match outcome {
        Ok(term) => is_position(V::codes(), value, term.position()),
        Err(VocabError::UnknownCode { domain, code }) => {
            &&& !is_listed(V::codes(), value)
            &&& domain == V::domain_of()
            &&& code@ == value
        },
    }
}

/// Resolves `value` in the vocabulary `V`: the term of the first table entry
/// that equals `value` character for character, else `UnknownCode`.
pub fn resolve<V: Vocabulary>(value: &str) -> (outcome: Result<V, VocabError>)
    ensures
        resolves::<V>(value@, outcome),
{
    match find_code(V::table(), value) {
        Some(i) => Ok(V::at(i)),
        None => Err(VocabError::UnknownCode { domain: V::domain(), code: value.to_owned() }),
    }
}

/// The code of a term.
pub fn code_of<V: Vocabulary>(term: &V) -> (code: &'static str)
    ensures
        code@ == V::codes()[term.position()]@,
{
    let t = V::table();
    t[term.index()]
}

} // verus!
