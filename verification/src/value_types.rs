//! The validated primitives of the credential model: identifiers, coded
//! terms, localised texts and notes, scores, measures and amounts. Each
//! constructor is the one place where its type is validated: a value that
//! exists is valid.

use vstd::prelude::*;
use vstd::string::*;
use crate::calendar::CalendarDate;
use crate::controlled_vocabularies::{EuropeanLanguage, MDRcurrency, MDRunit, CURRENCY_CODES, UNIT_CODES};
use crate::decimal::Decimal;
use crate::errors::ModelError;
use crate::registry::{codes_of, validate, Term};
use crate::vocabulary::{is_listed, is_position, resolve, resolves, str_eq, Domain, VocabError, Vocabulary};

verus! {

/// The view of an optional value: the view of what it holds.
pub open spec fn views<T: View>(o: Option<T>) -> Option<T::V> {
    match o {
        Some(x) => Some(x@),
        None => None,
    }
}

/// A copy of an optional text.
pub fn copy_text(text: &Option<String>) -> (copy: Option<String>)
    ensures
        views(copy) == views(*text),
{
    match text {
        Some(s) => Some(s.clone()),
        None => None,
    }
}

/// What an identifier says: its content and the scheme that it belongs to.
pub struct IdentifierView {
    pub content: Seq<char>,
    pub scheme_id: Option<Seq<char>>,
    pub scheme_version_id: Option<Seq<char>>,
    pub scheme_agency_id: Option<Seq<char>>,
    pub scheme_name: Option<Seq<char>>,
    pub scheme_agency_name: Option<Seq<char>>,
    pub issued_date: Option<(int, int, int)>,
    pub identifier_type: Option<Seq<char>>,
}

impl IdentifierView {
    /// Whether an identifier may say this: it has content, a scheme version
    /// or a scheme name comes with a scheme, and the name of an agency comes
    /// with the agency.
    pub open spec fn is_valid(self) -> bool {
        &&& self.content.len() > 0
        &&& self.scheme_version_id is Some ==> self.scheme_id is Some
        &&& self.scheme_name is Some ==> self.scheme_id is Some
        &&& self.scheme_agency_name is Some ==> self.scheme_agency_id is Some
    }

    /// What tells one identified thing from another: the content within its
    /// scheme. The same content under another scheme is another thing.
    pub open spec fn key(self) -> (Seq<char>, Option<Seq<char>>) {
        (self.content, self.scheme_id)
    }
}

/// A character string that identifies one thing within an identification
/// scheme managed by an agency.
#[derive(Debug)]
pub struct Identifier {
    content: String,
    scheme_id: Option<String>,
    scheme_version_id: Option<String>,
    scheme_agency_id: Option<String>,
    scheme_name: Option<String>,
    scheme_agency_name: Option<String>,
    issued_date: Option<CalendarDate>,
    identifier_type: Option<String>,
}

impl View for Identifier {
    type V = IdentifierView;

    closed spec fn view(&self) -> IdentifierView {
        IdentifierView {
            content: self.content@,
            scheme_id: views(self.scheme_id),
            scheme_version_id: views(self.scheme_version_id),
            scheme_agency_id: views(self.scheme_agency_id),
            scheme_name: views(self.scheme_name),
            scheme_agency_name: views(self.scheme_agency_name),
            issued_date: views(self.issued_date),
            identifier_type: views(self.identifier_type),
        }
    }
}

impl Identifier {
    #[verifier::type_invariant]
    spec fn valid(self) -> bool {
        self@.is_valid()
    }

    /// An identifier with the given fields. It is refused with
    /// `InvalidIdentifier` where the content is empty, where a scheme version
    /// or a scheme name is given without a scheme, and where an agency's name
    /// is given without the agency.
    pub fn new(
        content: String,
        scheme_id: Option<String>,
        scheme_version_id: Option<String>,
        scheme_agency_id: Option<String>,
        scheme_name: Option<String>,
        scheme_agency_name: Option<String>,
        issued_date: Option<CalendarDate>,
        identifier_type: Option<String>,
    ) -> (made: Result<Identifier, ModelError>)
        ensures
            match made {
                Ok(id) => id@ == (IdentifierView {
                    content: content@,
                    scheme_id: views(scheme_id),
                    scheme_version_id: views(scheme_version_id),
                    scheme_agency_id: views(scheme_agency_id),
                    scheme_name: views(scheme_name),
                    scheme_agency_name: views(scheme_agency_name),
                    issued_date: views(issued_date),
                    identifier_type: views(identifier_type),
                }) && id@.is_valid(),
                Err(e) => e == ModelError::InvalidIdentifier && !(IdentifierView {
                    content: content@,
                    scheme_id: views(scheme_id),
                    scheme_version_id: views(scheme_version_id),
                    scheme_agency_id: views(scheme_agency_id),
                    scheme_name: views(scheme_name),
                    scheme_agency_name: views(scheme_agency_name),
                    issued_date: views(issued_date),
                    identifier_type: views(identifier_type),
                }).is_valid(),
            },
    {
        if content.as_str().is_empty() {
            return Err(ModelError::InvalidIdentifier);
        }
        if scheme_id.is_none() && (scheme_version_id.is_some() || scheme_name.is_some()) {
            return Err(ModelError::InvalidIdentifier);
        }
        if scheme_agency_id.is_none() && scheme_agency_name.is_some() {
            return Err(ModelError::InvalidIdentifier);
        }
        Ok(
            Identifier {
                content,
                scheme_id,
                scheme_version_id,
                scheme_agency_id,
                scheme_name,
                scheme_agency_name,
                issued_date,
                identifier_type,
            },
        )
    }

    /// An identifier that has only content, outside any scheme.
    pub fn plain(content: String) -> (made: Result<Identifier, ModelError>)
        ensures
            match made {
                Ok(id) => content@.len() > 0 && id@ == (IdentifierView {
                    content: content@,
                    scheme_id: None,
                    scheme_version_id: None,
                    scheme_agency_id: None,
                    scheme_name: None,
                    scheme_agency_name: None,
                    issued_date: None,
                    identifier_type: None,
                }),
                Err(e) => e == ModelError::InvalidIdentifier && content@.len() == 0,
            },
    {
        Self::new(content, None, None, None, None, None, None, None)
    }

    /// Every identifier is valid.
    pub fn attest(&self)
        ensures
            self@.is_valid(),
    {
        proof {
            use_type_invariant(self);
        }
    }

    pub fn content(&self) -> (content: &String)
        ensures
            content@ == self@.content,
            content@.len() > 0,
    {
        proof {
            use_type_invariant(self);
        }
        &self.content
    }

    pub fn scheme_id(&self) -> (scheme_id: &Option<String>)
        ensures
            views(*scheme_id) == self@.scheme_id,
    {
        &self.scheme_id
    }

    pub fn scheme_version_id(&self) -> (scheme_version_id: &Option<String>)
        ensures
            views(*scheme_version_id) == self@.scheme_version_id,
    {
        &self.scheme_version_id
    }

    pub fn scheme_agency_id(&self) -> (scheme_agency_id: &Option<String>)
        ensures
            views(*scheme_agency_id) == self@.scheme_agency_id,
    {
        &self.scheme_agency_id
    }

    pub fn scheme_name(&self) -> (scheme_name: &Option<String>)
        ensures
            views(*scheme_name) == self@.scheme_name,
    {
        &self.scheme_name
    }

    pub fn scheme_agency_name(&self) -> (scheme_agency_name: &Option<String>)
        ensures
            views(*scheme_agency_name) == self@.scheme_agency_name,
    {
        &self.scheme_agency_name
    }

    pub fn issued_date(&self) -> (issued_date: &Option<CalendarDate>)
        ensures
            views(*issued_date) == self@.issued_date,
    {
        &self.issued_date
    }

    pub fn identifier_type(&self) -> (identifier_type: &Option<String>)
        ensures
            views(*identifier_type) == self@.identifier_type,
    {
        &self.identifier_type
    }

    /// Whether both identify the same thing: the same content within the same
    /// scheme.
    pub fn same_as(&self, other: &Identifier) -> (same: bool)
        ensures
            same == (self@.key() == other@.key()),
    {
        if !str_eq(self.content.as_str(), other.content.as_str()) {
            return false;
        }
        match (&self.scheme_id, &other.scheme_id) {
            (Some(a), Some(b)) => str_eq(a.as_str(), b.as_str()),
            (None, None) => true,
            _ => false,
        }
    }

    /// A copy that says the same.
    pub fn duplicate(&self) -> (copy: Identifier)
        ensures
            copy@ == self@,
    {
        proof {
            use_type_invariant(self);
        }
        Identifier {
            content: self.content.clone(),
            scheme_id: copy_text(&self.scheme_id),
            scheme_version_id: copy_text(&self.scheme_version_id),
            scheme_agency_id: copy_text(&self.scheme_agency_id),
            scheme_name: copy_text(&self.scheme_name),
            scheme_agency_name: copy_text(&self.scheme_agency_name),
            issued_date: self.issued_date,
            identifier_type: copy_text(&self.identifier_type),
        }
    }
}

/// What a code says: the term it stands for, by the domain and the position
/// of its notation in the domain's table, and what describes the term.
pub struct CodeView {
    pub domain: Domain,
    pub position: int,
    pub notation: Seq<char>,
    pub framework_uri: Option<Seq<char>>,
    pub framework_name: Option<Seq<char>>,
    pub display_name: Option<Seq<char>>,
    pub description: Option<Seq<char>>,
    pub uri: Option<Seq<char>>,
}

/// A term of a controlled vocabulary, with what describes it. The notation
/// of a code is always one that the vocabulary of its domain lists.
#[derive(Debug)]
pub struct Code {
    term: Term,
    framework_uri: Option<String>,
    framework_name: Option<String>,
    display_name: Option<String>,
    description: Option<String>,
    uri: Option<String>,
}

impl View for Code {
    type V = CodeView;

    closed spec fn view(&self) -> CodeView {
        CodeView {
            domain: self.term.domain_of(),
            position: self.term.position(),
            notation: self.term.code_of(),
            framework_uri: views(self.framework_uri),
            framework_name: views(self.framework_name),
            display_name: views(self.display_name),
            description: views(self.description),
            uri: views(self.uri),
        }
    }
}

impl Code {
    /// The code of `domain` written `notation`, with nothing that describes
    /// it. A notation that the domain does not list is refused with
    /// `UnknownCode`.
    pub fn new(domain: Domain, notation: &str) -> (made: Result<Code, VocabError>)
        ensures
            match made {
                Ok(code) => {
                    &&& is_position(codes_of(domain), notation@, code@.position)
                    &&& code@ == (CodeView {
                        domain,
                        position: code@.position,
                        notation: notation@,
                        framework_uri: None,
                        framework_name: None,
                        display_name: None,
                        description: None,
                        uri: None,
                    })
                },
                Err(VocabError::UnknownCode { domain: d, code: c }) => {
                    &&& !is_listed(codes_of(domain), notation@)
                    &&& d == domain
                    &&& c@ == notation@
                },
            },
    {
        match validate(domain, notation) {
            Ok(term) => Ok(Self::of_term(term)),
            Err(e) => Err(e),
        }
    }

    /// The code that stands for `term`, with nothing that describes it.
    pub fn of_term(term: Term) -> (code: Code)
        ensures
            code@ == (CodeView {
                domain: term.domain_of(),
                position: term.position(),
                notation: term.code_of(),
                framework_uri: None,
                framework_name: None,
                display_name: None,
                description: None,
                uri: None,
            }),
    {
        Code { term, framework_uri: None, framework_name: None, display_name: None, description: None, uri: None }
    }

    /// The same code, described by the given texts in place of those it had.
    pub fn described(
        self,
        framework_uri: Option<String>,
        framework_name: Option<String>,
        display_name: Option<String>,
        description: Option<String>,
        uri: Option<String>,
    ) -> (code: Code)
        ensures
            code@ == (CodeView {
                domain: self@.domain,
                position: self@.position,
                notation: self@.notation,
                framework_uri: views(framework_uri),
                framework_name: views(framework_name),
                display_name: views(display_name),
                description: views(description),
                uri: views(uri),
            }),
    {
        Code { term: self.term, framework_uri, framework_name, display_name, description, uri }
    }

    /// The notation of a code is listed by the vocabulary of its domain, at
    /// the position that the code holds.
    pub fn attest(&self)
        ensures
            0 <= self@.position < codes_of(self@.domain).len(),
            self@.notation == codes_of(self@.domain)[self@.position]@,
            is_listed(codes_of(self@.domain), self@.notation),
    {
        let _ = self.term.code();
        let _ = self.term.index();
    }

    /// The term that the code stands for.
    pub fn term(&self) -> (term: Term)
        ensures
            term.domain_of() == self@.domain,
            term.position() == self@.position,
    {
        self.term
    }

    pub fn domain(&self) -> (domain: Domain)
        ensures
            domain == self@.domain,
    {
        self.term.domain()
    }

    pub fn notation(&self) -> (notation: &'static str)
        ensures
            notation@ == self@.notation,
    {
        self.term.code()
    }

    pub fn framework_uri(&self) -> (framework_uri: &Option<String>)
        ensures
            views(*framework_uri) == self@.framework_uri,
    {
        &self.framework_uri
    }

    pub fn framework_name(&self) -> (framework_name: &Option<String>)
        ensures
            views(*framework_name) == self@.framework_name,
    {
        &self.framework_name
    }

    pub fn display_name(&self) -> (display_name: &Option<String>)
        ensures
            views(*display_name) == self@.display_name,
    {
        &self.display_name
    }

    pub fn description(&self) -> (description: &Option<String>)
        ensures
            views(*description) == self@.description,
    {
        &self.description
    }

    pub fn uri(&self) -> (uri: &Option<String>)
        ensures
            views(*uri) == self@.uri,
    {
        &self.uri
    }

    /// A copy that says the same.
    pub fn duplicate(&self) -> (copy: Code)
        ensures
            copy@ == self@,
    {
        Code {
            term: self.term,
            framework_uri: copy_text(&self.framework_uri),
            framework_name: copy_text(&self.framework_name),
            display_name: copy_text(&self.display_name),
            description: copy_text(&self.description),
            uri: copy_text(&self.uri),
        }
    }
}

/// What a text says, and in which language.
pub struct TextView {
    pub content: Seq<char>,
    pub language: EuropeanLanguage,
}

/// A character string in one of the official languages of the European
/// Union.
#[derive(Debug)]
pub struct Text {
    content: String,
    language: EuropeanLanguage,
}

impl View for Text {
    type V = TextView;

    closed spec fn view(&self) -> TextView {
        TextView { content: self.content@, language: self.language }
    }
}

impl Text {
    /// The text `content` in the language written `language_code`. A code
    /// that is not one of the official languages is refused with
    /// `UnknownCode`.
    pub fn new(content: String, language_code: &str) -> (made: Result<Text, VocabError>)
        ensures
            match made {
                Ok(text) => text@.content == content@ && is_position(
                    EuropeanLanguage::codes(),
                    language_code@,
                    text@.language.position(),
                ),
                Err(e) => resolves::<EuropeanLanguage>(language_code@, Err(e)),
            },
    {
        match resolve::<EuropeanLanguage>(language_code) {
            Ok(language) => Ok(Text { content, language }),
            Err(e) => Err(e),
        }
    }

    /// The text `content` in `language`.
    pub fn in_language(content: String, language: EuropeanLanguage) -> (text: Text)
        ensures
            text@ == (TextView { content: content@, language }),
    {
        Text { content, language }
    }

    pub fn content(&self) -> (content: &String)
        ensures
            content@ == self@.content,
    {
        &self.content
    }

    pub fn language(&self) -> (language: EuropeanLanguage)
        ensures
            language == self@.language,
    {
        self.language
    }

    /// A copy that says the same.
    pub fn duplicate(&self) -> (copy: Text)
        ensures
            copy@ == self@,
    {
        Text { content: self.content.clone(), language: self.language }
    }
}

/// What a note says, in which language, in which format and on which topic.
pub struct NoteView {
    pub content: Seq<char>,
    pub language: EuropeanLanguage,
    pub format: Option<Seq<char>>,
    pub topic: Option<Seq<char>>,
}

/// A formatted character string in one of the official languages of the
/// European Union.
#[derive(Debug)]
pub struct Note {
    content: String,
    language: EuropeanLanguage,
    format: Option<String>,
    topic: Option<String>,
}

impl View for Note {
    type V = NoteView;

    closed spec fn view(&self) -> NoteView {
        NoteView {
            content: self.content@,
            language: self.language,
            format: views(self.format),
            topic: views(self.topic),
        }
    }
}

impl Note {
    /// The note `content` in the language written `language_code`, in the
    /// given format and on the given topic. A code that is not one of the
    /// official languages is refused with `UnknownCode`.
    pub fn new(content: String, language_code: &str, format: Option<String>, topic: Option<String>) -> (made:
        Result<Note, VocabError>)
        ensures
            match made {
                Ok(note) => {
                    &&& note@.content == content@
                    &&& note@.format == views(format)
                    &&& note@.topic == views(topic)
                    &&& is_position(EuropeanLanguage::codes(), language_code@, note@.language.position())
                },
                Err(e) => resolves::<EuropeanLanguage>(language_code@, Err(e)),
            },
    {
        match resolve::<EuropeanLanguage>(language_code) {
            Ok(language) => Ok(Note { content, language, format, topic }),
            Err(e) => Err(e),
        }
    }

    /// The note `content` in `language`, in the given format and on the given
    /// topic.
    pub fn in_language(content: String, language: EuropeanLanguage, format: Option<String>, topic: Option<String>) -> (note: Note)
        ensures
            note@ == (NoteView { content: content@, language, format: views(format), topic: views(topic) }),
    {
        Note { content, language, format, topic }
    }

    pub fn content(&self) -> (content: &String)
        ensures
            content@ == self@.content,
    {
        &self.content
    }

    pub fn language(&self) -> (language: EuropeanLanguage)
        ensures
            language == self@.language,
    {
        self.language
    }

    pub fn format(&self) -> (format: &Option<String>)
        ensures
            views(*format) == self@.format,
    {
        &self.format
    }

    pub fn topic(&self) -> (topic: &Option<String>)
        ensures
            views(*topic) == self@.topic,
    {
        &self.topic
    }

    /// A copy that says the same.
    pub fn duplicate(&self) -> (copy: Note)
        ensures
            copy@ == self@,
    {
        Note {
            content: self.content.clone(),
            language: self.language,
            format: copy_text(&self.format),
            topic: copy_text(&self.topic),
        }
    }
}

/// What a proof says.
pub struct ProofView {
    pub display_code: Seq<char>,
    pub background: Option<Seq<char>>,
}

/// What comes with a sealed credential so that tampering can be detected
/// and authorship verified: the code by which the summary of the credential
/// is displayed, and the address of its background image.
#[derive(Debug)]
pub struct Proof {
    display_code: String,
    background: Option<String>,
}

impl View for Proof {
    type V = ProofView;

    closed spec fn view(&self) -> ProofView {
        ProofView { display_code: self.display_code@, background: views(self.background) }
    }
}

impl Proof {
    /// The proof with the given display code and background.
    pub fn new(display_code: String, background: Option<String>) -> (proof_of: Proof)
        ensures
            proof_of@ == (ProofView { display_code: display_code@, background: views(background) }),
    {
        Proof { display_code, background }
    }

    pub fn display_code(&self) -> (display_code: &String)
        ensures
            display_code@ == self@.display_code,
    {
        &self.display_code
    }

    pub fn background(&self) -> (background: &Option<String>)
        ensures
            views(*background) == self@.background,
    {
        &self.background
    }
}

/// A score that counts something, such as credit points: never negative.
#[derive(Clone, Copy, Debug)]
pub struct NumericScore {
    content: Decimal,
}

impl View for NumericScore {
    type V = int;

    /// The score, in units of a thousand-millionth.
    closed spec fn view(&self) -> int {
        self.content@
    }
}

impl NumericScore {
    #[verifier::type_invariant]
    spec fn not_negative(self) -> bool {
        self.content@ >= 0
    }

    /// The score `content`, unless it is negative.
    pub fn new(content: Decimal) -> (made: Option<NumericScore>)
        ensures
            match made {
                Some(score) => score@ == content@ && content@ >= 0,
                None => content@ < 0,
            },
    {
        if content.is_negative() {
            None
        } else {
            Some(NumericScore { content })
        }
    }

    pub fn content(&self) -> (content: Decimal)
        ensures
            content@ == self@,
            content@ >= 0,
    {
        proof {
            use_type_invariant(self);
        }
        self.content
    }
}

/// How much a measure is, and in which unit.
pub struct MeasureView {
    pub content: int,
    pub unit: MDRunit,
}

/// A number with a unit of measurement.
#[derive(Clone, Copy, Debug)]
pub struct Measure {
    content: Decimal,
    unit: MDRunit,
}

impl View for Measure {
    type V = MeasureView;

    closed spec fn view(&self) -> MeasureView {
        MeasureView { content: self.content@, unit: self.unit }
    }
}

impl Measure {
    /// The measure of `content` in the unit written `unit_code`. A code that
    /// the table of units does not list is refused with `UnknownCode`.
    pub fn new(content: Decimal, unit_code: &str) -> (made: Result<Measure, VocabError>)
        ensures
            match made {
                Ok(measure) => measure@.content == content@ && is_position(
                    UNIT_CODES@,
                    unit_code@,
                    measure@.unit.position(),
                ),
                Err(e) => resolves::<MDRunit>(unit_code@, Err(e)),
            },
    {
        match MDRunit::try_from(unit_code) {
            Ok(unit) => Ok(Measure { content, unit }),
            Err(e) => Err(e),
        }
    }

    pub fn content(&self) -> (content: Decimal)
        ensures
            content@ == self@.content,
    {
        self.content
    }

    pub fn unit(&self) -> (unit: MDRunit)
        ensures
            unit == self@.unit,
    {
        self.unit
    }
}

/// Whether `unit` measures time, or work by the time it takes.
pub open spec fn measures_time(unit: MDRunit) -> bool {
    unit == MDRunit::Second || unit == MDRunit::Minute || unit == MDRunit::Hour || unit == MDRunit::LabourHour
        || unit == MDRunit::Manmonth
}

/// A length of time: a measure in a unit of time that is never negative.
#[derive(Clone, Copy, Debug)]
pub struct Duration {
    measure: Measure,
}

impl View for Duration {
    type V = MeasureView;

    closed spec fn view(&self) -> MeasureView {
        self.measure@
    }
}

impl Duration {
    #[verifier::type_invariant]
    spec fn is_length_of_time(self) -> bool {
        self.measure@.content >= 0 && measures_time(self.measure@.unit)
    }

    /// The duration that `measure` gives, where its unit measures time and
    /// it is not negative.
    pub fn new(measure: Measure) -> (made: Option<Duration>)
        ensures
            made is Some <==> measure@.content >= 0 && measures_time(measure@.unit),
            made is Some ==> made->0@ == measure@,
    {
        let unit = measure.unit();
        let in_time = match unit {
            MDRunit::Second | MDRunit::Minute | MDRunit::Hour | MDRunit::LabourHour | MDRunit::Manmonth => true,
            _ => false,
        };
        if in_time && !measure.content().is_negative() {
            Some(Duration { measure })
        } else {
            None
        }
    }

    /// The duration as a measure: never negative, in a unit of time.
    pub fn measure(&self) -> (measure: Measure)
        ensures
            measure@ == self@,
            measure@.content >= 0,
            measures_time(measure@.unit),
    {
        proof {
            use_type_invariant(self);
        }
        self.measure
    }
}

/// How much an amount is, and the code of its currency.
pub struct AmountView {
    pub content: int,
    pub currency: Seq<char>,
}

/// A number with a currency.
#[derive(Clone, Copy, Debug)]
pub struct Amount {
    content: Decimal,
    unit: MDRcurrency,
}

impl View for Amount {
    type V = AmountView;

    closed spec fn view(&self) -> AmountView {
        AmountView { content: self.content@, currency: self.unit.code_of() }
    }
}

impl Amount {
    /// The amount of `content` in the currency written `currency_code`. A
    /// code that the table of currencies does not list is refused with
    /// `UnknownCode`.
    pub fn new(content: Decimal, currency_code: &str) -> (made: Result<Amount, VocabError>)
        ensures
            match made {
                Ok(amount) => {
                    &&& amount@ == (AmountView { content: content@, currency: currency_code@ })
                    &&& is_listed(CURRENCY_CODES@, currency_code@)
                },
                Err(e) => resolves::<MDRcurrency>(currency_code@, Err(e)),
            },
    {
        match MDRcurrency::try_from(currency_code) {
            Ok(unit) => Ok(Amount { content, unit }),
            Err(e) => Err(e),
        }
    }

    pub fn content(&self) -> (content: Decimal)
        ensures
            content@ == self@.content,
    {
        self.content
    }

    pub fn unit(&self) -> (unit: MDRcurrency)
        ensures
            unit.code_of() == self@.currency,
    {
        self.unit
    }
}

} // verus!
