//! The credential data model: the entities of a credential, built from
//! validated values. An entity is assembled once and never changed, and no
//! entity reaches itself again over a relation to its own kind.

use vstd::prelude::*;
use crate::calendar::CalendarDate;
use crate::controlled_vocabularies::{
    AccreditationType, AssessmentType, CredentialType, EntitlementStatus, EntitlementType, EuropeanLanguage,
    LearningActivityType, LearningSettingType, LearningTargetGroup, ModeOfLearningType,
    SupervisionAndVerificationType,
};
use crate::errors::{ModelError, Relation};
use crate::european_qualifications_framework::EQFLevel;
use crate::national_qualification_frameworks::NQF;
use crate::value_types::{
    views, Code, CodeView, Duration, Identifier, IdentifierView, MeasureView, Note, NoteView, NumericScore, Proof,
    ProofView, Text, TextView,
};

verus! {

/// What tells one entity from another: the content of its identifier within
/// the identifier's scheme.
pub type Key = (Seq<char>, Option<Seq<char>>);

/// The same optional value, boxed.
pub open spec fn boxed<T>(o: Option<T>) -> Option<Box<T>> {
    match o {
        Some(x) => Some(Box::new(x)),
        None => None,
    }
}

/// The views of the values of a list, in order.
pub open spec fn list_views<T: View>(list: Seq<T>) -> Seq<T::V> {
    Seq::new(list.len(), |i: int| list[i]@)
}

/// A sequence without duplicates stays so when a new element is put first.
pub proof fn lemma_distinct_with_new_head<A>(head: A, tail: Seq<A>)
    requires
        tail.no_duplicates(),
        !tail.contains(head),
    ensures
        (seq![head] + tail).no_duplicates(),
{
    let s = seq![head] + tail;
    assert forall|i: int, j: int| 0 <= i < s.len() && 0 <= j < s.len() && i != j implies s[i] != s[j] by {
        if i == 0 {
            assert(s[j] == tail[j - 1]);
            assert(tail.contains(tail[j - 1]));
        } else if j == 0 {
            assert(s[i] == tail[i - 1]);
            assert(tail.contains(tail[i - 1]));
        } else {
            assert(s[i] == tail[i - 1]);
            assert(s[j] == tail[j - 1]);
        }
    }
}

/// An element other than the head is in a sequence exactly when it is in the
/// tail.
pub proof fn lemma_contains_past_head<A>(head: A, tail: Seq<A>, k: A)
    requires
        k != head,
    ensures
        (seq![head] + tail).contains(k) == tail.contains(k),
{
    let s = seq![head] + tail;
    if s.contains(k) {
        let i = choose|i: int| 0 <= i < s.len() && s[i] == k;
        assert(tail[i - 1] == k);
    }
    if tail.contains(k) {
        let i = choose|i: int| 0 <= i < tail.len() && tail[i] == k;
        assert(s[i + 1] == k);
    }
}

/// The first element of a sequence without duplicates does not occur in it
/// again.
pub proof fn lemma_head_not_reached_again<A>(chain: Seq<A>)
    requires
        chain.no_duplicates(),
        chain.len() > 0,
    ensures
        !chain.skip(1).contains(chain[0]),
{
    let rest = chain.skip(1);
    if rest.contains(chain[0]) {
        let i = choose|i: int| 0 <= i < rest.len() && rest[i] == chain[0];
        assert(chain[i + 1] == chain[0]);
    }
}

/// An entity that may refer to an entity of its own kind.
pub trait Linked: Sized {
    /// What identifies the entity.
    spec fn key(&self) -> Key;

    /// The keys of the entity and of those reached from it over `relation`,
    /// in order.
    spec fn chain(&self, relation: Relation) -> Seq<Key>;

    /// The identifier of the entity.
    fn identity(&self) -> (id: &Identifier)
        ensures
            id@.key() == self.key(),
    ;

    /// The entity that this one refers to over `relation`.
    fn next(&self, relation: Relation) -> (next: Option<&Self>)
        ensures
            match next {
                Some(n) => self.chain(relation) == seq![self.key()] + n.chain(relation),
                None => self.chain(relation) == seq![self.key()],
            },
    ;
}

/// Whether `id` identifies `start` or an entity reached from it over
/// `relation`.
pub fn reaches<T: Linked>(start: &T, relation: Relation, id: &Identifier) -> (found: bool)
    ensures
        found == start.chain(relation).contains(id@.key()),
{
    let mut node: &T = start;
    loop
        invariant
            start.chain(relation).contains(id@.key()) == node.chain(relation).contains(id@.key()),
        decreases node.chain(relation).len(),
    {
        let ghost links = node.chain(relation);
        if node.identity().same_as(id) {
            match node.next(relation) {
                Some(_) => {},
                None => {},
            }
            assert(links[0] == id@.key());
            return true;
        }
        match node.next(relation) {
            Some(next) => {
                proof {
                    lemma_contains_past_head(node.key(), next.chain(relation), id@.key());
                }
                node = next;
            },
            None => {
                assert(!links.contains(id@.key()));
                return false;
            },
        }
    }
}

/// The format of a document attached to a credential.
#[derive(Clone, Copy, Debug, PartialEq, Eq, Structural)]
pub enum EuropassAttachment {
    /// Portable Document Format.
    PDF,
    /// Portable Network Graphics.
    PNG,
    /// JPEG.
    JPEG,
}

/// What a value of [`Agent`] says.
pub struct AgentView {
    pub identifier: IdentifierView,
    pub agent_type: Option<CodeView>,
    pub preferred_name: Option<TextView>,
    pub note: Option<NoteView>,
}

impl AgentView {
    /// Whether the agent may exist: its identifier is valid, every entity
    /// that it holds may exist.
    pub open spec fn is_sound(self) -> bool
    {
        &&& self.identifier.is_valid()
    }
}

/// A person or a body that is able to carry out actions, such as to accept
/// an attainment.
#[derive(Debug)]
pub struct Agent {
    identifier: Identifier,
    agent_type: Option<Code>,
    preferred_name: Option<Text>,
    note: Option<Note>,
}

impl View for Agent {
    type V = AgentView;

    closed spec fn view(&self) -> AgentView {
        AgentView {
            identifier: self.identifier@,
            agent_type: views(self.agent_type),
            preferred_name: views(self.preferred_name),
            note: views(self.note),
        }
    }
}

impl Agent {
    #[verifier::type_invariant]
    spec fn sound(self) -> bool {
        self@.is_sound()
    }

    /// Assembles the agent from validated values.
    pub fn new(
        identifier: Identifier,
        agent_type: Option<Code>,
        preferred_name: Option<Text>,
        note: Option<Note>,
    ) -> (entity: Agent)
        ensures
            entity@ == (AgentView {
                identifier: identifier@,
                agent_type: views(agent_type),
                preferred_name: views(preferred_name),
                note: views(note),
            }),
            entity@.is_sound(),
    {
        identifier.attest();
        Agent {
            identifier,
            agent_type,
            preferred_name,
            note,
        }
    }

    /// Every value of this type may exist.
    pub fn attest(&self)
        ensures
            self@.is_sound(),
    {
        proof {
            use_type_invariant(self);
        }
    }

    /// The identifier of the agent.
    pub fn identifier(&self) -> (identifier: &Identifier)
        ensures
            identifier@ == self@.identifier,
    {
        &self.identifier
    }

    /// The type of the agent, or the role in which it acts.
    pub fn agent_type(&self) -> (agent_type: &Option<Code>)
        ensures
            views(*agent_type) == self@.agent_type,
    {
        &self.agent_type
    }

    /// The primary name of the agent.
    pub fn preferred_name(&self) -> (preferred_name: &Option<Text>)
        ensures
            views(*preferred_name) == self@.preferred_name,
    {
        &self.preferred_name
    }

    /// A further note about the agent.
    pub fn note(&self) -> (note: &Option<Note>)
        ensures
            views(*note) == self@.note,
    {
        &self.note
    }
}

/// What a value of [`Organisation`] says.
pub struct OrganisationView {
    pub identifier: IdentifierView,
    pub preferred_name: Option<TextView>,
    pub alternative_name: Option<TextView>,
    pub home_page: Option<Seq<char>>,
    pub has_unit: Option<Box<OrganisationView>>,
    pub unit_of: Option<Box<OrganisationView>>,
}

impl OrganisationView {
    /// The keys of the organisation and of those reached from it over
    /// `has_unit`, in order.
    pub open spec fn has_unit_chain(self) -> Seq<Key>
        decreases self,
    {
        match self.has_unit {
            Some(next) => seq![self.identifier.key()] + next.has_unit_chain(),
            None => seq![self.identifier.key()],
        }
    }

    /// The keys of the organisation and of those reached from it over
    /// `unit_of`, in order.
    pub open spec fn unit_of_chain(self) -> Seq<Key>
        decreases self,
    {
        match self.unit_of {
            Some(next) => seq![self.identifier.key()] + next.unit_of_chain(),
            None => seq![self.identifier.key()],
        }
    }

    /// Whether the organisation may exist: its identifier is valid, every
    /// entity that it holds may exist, and no entity is reached twice over
    /// `has_unit` or over `unit_of`.
    pub open spec fn is_sound(self) -> bool
        decreases self,
    {
        &&& self.identifier.is_valid()
        &&& self.has_unit_chain().no_duplicates()
        &&& match self.has_unit {
            Some(next) => next.is_sound(),
            None => true,
        }
        &&& self.unit_of_chain().no_duplicates()
        &&& match self.unit_of {
            Some(next) => next.is_sound(),
            None => true,
        }
    }

    /// The relation over which an entity identified by `key` would reach
    /// itself again when given these entities to refer to: the first such
    /// relation, if there is one.
    pub open spec fn cycle_of(
        key: Key,
        has_unit: Option<OrganisationView>,
        unit_of: Option<OrganisationView>,
    ) -> Option<Relation> {
        if has_unit is Some && has_unit->0.has_unit_chain().contains(key) {
            Some(Relation::HasUnit)
        } else if unit_of is Some && unit_of->0.unit_of_chain().contains(key) {
            Some(Relation::UnitOf)
        } else {
            None
        }
    }
}

/// A legal person or a registered organisation, with the unit that it has
/// and the organisation that it is a unit of.
#[derive(Debug)]
pub struct Organisation {
    identifier: Identifier,
    preferred_name: Option<Text>,
    alternative_name: Option<Text>,
    home_page: Option<String>,
    has_unit: Option<Box<Organisation>>,
    unit_of: Option<Box<Organisation>>,
}

impl View for Organisation {
    type V = OrganisationView;

    closed spec fn view(&self) -> OrganisationView
        decreases self,
    {
        OrganisationView {
            identifier: self.identifier@,
            preferred_name: views(self.preferred_name),
            alternative_name: views(self.alternative_name),
            home_page: views(self.home_page),
            has_unit: match self.has_unit {
                Some(next) => Some(Box::new((*next).view())),
                None => None,
            },
            unit_of: match self.unit_of {
                Some(next) => Some(Box::new((*next).view())),
                None => None,
            },
        }
    }
}

impl Linked for Organisation {
    open spec fn key(&self) -> Key {
        self@.identifier.key()
    }

    open spec fn chain(&self, relation: Relation) -> Seq<Key> {
        match relation {
            Relation::HasUnit => self@.has_unit_chain(),
            Relation::UnitOf => self@.unit_of_chain(),
            _ => seq![self@.identifier.key()],
        }
    }

    fn identity(&self) -> &Identifier {
        &self.identifier
    }

    fn next(&self, relation: Relation) -> Option<&Self> {
        match relation {
            Relation::HasUnit => match &self.has_unit {
                Some(next) => Some(&**next),
                None => None,
            },
            Relation::UnitOf => match &self.unit_of {
                Some(next) => Some(&**next),
                None => None,
            },
            _ => None,
        }
    }
}

impl Organisation {
    #[verifier::type_invariant]
    spec fn sound(self) -> bool {
        self@.is_sound()
    }

    /// Assembles the organisation from validated values. It is refused with
    /// `StructuralCycle` where the organisation would reach itself again:
    /// where its identifier is that of an entity reached from `has_unit` over
    /// `has_unit` or from `unit_of` over `unit_of`.
    pub fn new(
        identifier: Identifier,
        preferred_name: Option<Text>,
        alternative_name: Option<Text>,
        home_page: Option<String>,
        has_unit: Option<Organisation>,
        unit_of: Option<Organisation>,
    ) -> (made: Result<Organisation, ModelError>)
        ensures
            match made {
                Ok(entity) => {
                    &&& OrganisationView::cycle_of(
                        identifier@.key(),
                        views(has_unit),
                        views(unit_of),
                    ) is None
                    &&& entity@ == (OrganisationView {
                        identifier: identifier@,
                        preferred_name: views(preferred_name),
                        alternative_name: views(alternative_name),
                        home_page: views(home_page),
                        has_unit: boxed(views(has_unit)),
                        unit_of: boxed(views(unit_of)),
                    })
                    &&& entity@.is_sound()
                },
                Err(e) => {
                    &&& OrganisationView::cycle_of(
                        identifier@.key(),
                        views(has_unit),
                        views(unit_of),
                    ) is Some
                    &&& e == (ModelError::StructuralCycle { relation: OrganisationView::cycle_of(
                        identifier@.key(),
                        views(has_unit),
                        views(unit_of),
                    )->0 })
                },
            },
    {
        match &has_unit {
            Some(next) => {
                if reaches(next, Relation::HasUnit, &identifier) {
                    return Err(ModelError::StructuralCycle { relation: Relation::HasUnit });
                }
                proof {
                    use_type_invariant(next);
                    lemma_distinct_with_new_head(identifier@.key(), next@.has_unit_chain());
                }
            },
            None => {
                assert(seq![identifier@.key()].no_duplicates());
            },
        }
        match &unit_of {
            Some(next) => {
                if reaches(next, Relation::UnitOf, &identifier) {
                    return Err(ModelError::StructuralCycle { relation: Relation::UnitOf });
                }
                proof {
                    use_type_invariant(next);
                    lemma_distinct_with_new_head(identifier@.key(), next@.unit_of_chain());
                }
            },
            None => {
                assert(seq![identifier@.key()].no_duplicates());
            },
        }
        identifier.attest();
        Ok(Organisation {
            identifier,
            preferred_name,
            alternative_name,
            home_page,
            has_unit: match has_unit {
                Some(next) => Some(Box::new(next)),
                None => None,
            },
            unit_of: match unit_of {
                Some(next) => Some(Box::new(next)),
                None => None,
            },
        })
    }

    /// Every value of this type may exist.
    pub fn attest(&self)
        ensures
            self@.is_sound(),
    {
        proof {
            use_type_invariant(self);
        }
    }

    /// The identifier of the organisation.
    pub fn identifier(&self) -> (identifier: &Identifier)
        ensures
            identifier@ == self@.identifier,
    {
        &self.identifier
    }

    /// The primary name of the organisation.
    pub fn preferred_name(&self) -> (preferred_name: &Option<Text>)
        ensures
            views(*preferred_name) == self@.preferred_name,
    {
        &self.preferred_name
    }

    /// Another name of the organisation, as documents use it.
    pub fn alternative_name(&self) -> (alternative_name: &Option<Text>)
        ensures
            views(*alternative_name) == self@.alternative_name,
    {
        &self.alternative_name
    }

    /// The address of the home page of the organisation.
    pub fn home_page(&self) -> (home_page: &Option<String>)
        ensures
            views(*home_page) == self@.home_page,
    {
        &self.home_page
    }

    /// A smaller organisation that forms part of this one.
    pub fn has_unit(&self) -> (has_unit: Option<&Organisation>)
        ensures
            self@.has_unit == boxed(views(has_unit)),
    {
        match &self.has_unit {
            Some(next) => Some(&**next),
            None => None,
        }
    }

    /// The larger organisation that this one is a unit of.
    pub fn unit_of(&self) -> (unit_of: Option<&Organisation>)
        ensures
            self@.unit_of == boxed(views(unit_of)),
    {
        match &self.unit_of {
            Some(next) => Some(&**next),
            None => None,
        }
    }
}

/// No organisation reaches itself again: the key of one that may exist is not
/// among the keys of those that it reaches over `has_unit` or over `unit_of`,
/// and each of those may exist too, so that the same holds of it.
pub proof fn law_organisation_never_reaches_itself(entity: OrganisationView)
    requires
        entity.is_sound(),
    ensures
        !entity.has_unit_chain().skip(1).contains(entity.identifier.key()),
        entity.has_unit is Some ==> entity.has_unit->0.is_sound(),
        !entity.unit_of_chain().skip(1).contains(entity.identifier.key()),
        entity.unit_of is Some ==> entity.unit_of->0.is_sound(),
{
    lemma_head_not_reached_again(entity.has_unit_chain());
    lemma_head_not_reached_again(entity.unit_of_chain());
}

/// What a value of [`LearningSpecification`] says.
pub struct LearningSpecificationView {
    pub identifier: IdentifierView,
    pub title: Option<TextView>,
    pub definition: Option<NoteView>,
    pub learning_opportunity_type: Option<CodeView>,
    pub ects_credit_points: Option<int>,
    pub eqf_level: Option<EQFLevel>,
    pub nqf_level: Option<NQF>,
    pub language: Option<EuropeanLanguage>,
    pub mode: Option<ModeOfLearningType>,
    pub learning_setting: Option<LearningSettingType>,
    pub target_group: Option<LearningTargetGroup>,
    pub has_part: Option<Box<LearningSpecificationView>>,
    pub specialisation_of: Option<Box<LearningSpecificationView>>,
}

impl LearningSpecificationView {
    /// The keys of the learning specification and of those reached from it
    /// over `has_part`, in order.
    pub open spec fn has_part_chain(self) -> Seq<Key>
        decreases self,
    {
        match self.has_part {
            Some(next) => seq![self.identifier.key()] + next.has_part_chain(),
            None => seq![self.identifier.key()],
        }
    }

    /// The keys of the learning specification and of those reached from it
    /// over `specialisation_of`, in order.
    pub open spec fn specialisation_of_chain(self) -> Seq<Key>
        decreases self,
    {
        match self.specialisation_of {
            Some(next) => seq![self.identifier.key()] + next.specialisation_of_chain(),
            None => seq![self.identifier.key()],
        }
    }

    /// Whether the learning specification may exist: its identifier is valid,
    /// every entity that it holds may exist, and no entity is reached twice
    /// over `has_part` or over `specialisation_of`.
    pub open spec fn is_sound(self) -> bool
        decreases self,
    {
        &&& self.identifier.is_valid()
        &&& self.has_part_chain().no_duplicates()
        &&& match self.has_part {
            Some(next) => next.is_sound(),
            None => true,
        }
        &&& self.specialisation_of_chain().no_duplicates()
        &&& match self.specialisation_of {
            Some(next) => next.is_sound(),
            None => true,
        }
    }

    /// The relation over which an entity identified by `key` would reach
    /// itself again when given these entities to refer to: the first such
    /// relation, if there is one.
    pub open spec fn cycle_of(
        key: Key,
        has_part: Option<LearningSpecificationView>,
        specialisation_of: Option<LearningSpecificationView>,
    ) -> Option<Relation> {
        if has_part is Some && has_part->0.has_part_chain().contains(key) {
            Some(Relation::HasPart)
        } else if specialisation_of is Some && specialisation_of->0.specialisation_of_chain().contains(key) {
            Some(Relation::SpecialisationOf)
        } else {
            None
        }
    }
}

/// What a person may learn, expressed as learning outcomes.
#[derive(Debug)]
pub struct LearningSpecification {
    identifier: Identifier,
    title: Option<Text>,
    definition: Option<Note>,
    learning_opportunity_type: Option<Code>,
    ects_credit_points: Option<NumericScore>,
    eqf_level: Option<EQFLevel>,
    nqf_level: Option<NQF>,
    language: Option<EuropeanLanguage>,
    mode: Option<ModeOfLearningType>,
    learning_setting: Option<LearningSettingType>,
    target_group: Option<LearningTargetGroup>,
    has_part: Option<Box<LearningSpecification>>,
    specialisation_of: Option<Box<LearningSpecification>>,
}

impl View for LearningSpecification {
    type V = LearningSpecificationView;

    closed spec fn view(&self) -> LearningSpecificationView
        decreases self,
    {
        LearningSpecificationView {
            identifier: self.identifier@,
            title: views(self.title),
            definition: views(self.definition),
            learning_opportunity_type: views(self.learning_opportunity_type),
            ects_credit_points: views(self.ects_credit_points),
            eqf_level: self.eqf_level,
            nqf_level: self.nqf_level,
            language: self.language,
            mode: self.mode,
            learning_setting: self.learning_setting,
            target_group: self.target_group,
            has_part: match self.has_part {
                Some(next) => Some(Box::new((*next).view())),
                None => None,
            },
            specialisation_of: match self.specialisation_of {
                Some(next) => Some(Box::new((*next).view())),
                None => None,
            },
        }
    }
}

impl Linked for LearningSpecification {
    open spec fn key(&self) -> Key {
        self@.identifier.key()
    }

    open spec fn chain(&self, relation: Relation) -> Seq<Key> {
        match relation {
            Relation::HasPart => self@.has_part_chain(),
            Relation::SpecialisationOf => self@.specialisation_of_chain(),
            _ => seq![self@.identifier.key()],
        }
    }

    fn identity(&self) -> &Identifier {
        &self.identifier
    }

    fn next(&self, relation: Relation) -> Option<&Self> {
        match relation {
            Relation::HasPart => match &self.has_part {
                Some(next) => Some(&**next),
                None => None,
            },
            Relation::SpecialisationOf => match &self.specialisation_of {
                Some(next) => Some(&**next),
                None => None,
            },
            _ => None,
        }
    }
}

impl LearningSpecification {
    #[verifier::type_invariant]
    spec fn sound(self) -> bool {
        self@.is_sound()
    }

    /// Assembles the learning specification from validated values. It is
    /// refused with `StructuralCycle` where the learning specification would
    /// reach itself again: where its identifier is that of an entity reached
    /// from `has_part` over `has_part` or from `specialisation_of` over
    /// `specialisation_of`.
    pub fn new(
        identifier: Identifier,
        title: Option<Text>,
        definition: Option<Note>,
        learning_opportunity_type: Option<Code>,
        ects_credit_points: Option<NumericScore>,
        eqf_level: Option<EQFLevel>,
        nqf_level: Option<NQF>,
        language: Option<EuropeanLanguage>,
        mode: Option<ModeOfLearningType>,
        learning_setting: Option<LearningSettingType>,
        target_group: Option<LearningTargetGroup>,
        has_part: Option<LearningSpecification>,
        specialisation_of: Option<LearningSpecification>,
    ) -> (made: Result<LearningSpecification, ModelError>)
        ensures
            match made {
                Ok(entity) => {
                    &&& LearningSpecificationView::cycle_of(
                        identifier@.key(),
                        views(has_part),
                        views(specialisation_of),
                    ) is None
                    &&& entity@ == (LearningSpecificationView {
                        identifier: identifier@,
                        title: views(title),
                        definition: views(definition),
                        learning_opportunity_type: views(learning_opportunity_type),
                        ects_credit_points: views(ects_credit_points),
                        eqf_level: eqf_level,
                        nqf_level: nqf_level,
                        language: language,
                        mode: mode,
                        learning_setting: learning_setting,
                        target_group: target_group,
                        has_part: boxed(views(has_part)),
                        specialisation_of: boxed(views(specialisation_of)),
                    })
                    &&& entity@.is_sound()
                },
                Err(e) => {
                    &&& LearningSpecificationView::cycle_of(
                        identifier@.key(),
                        views(has_part),
                        views(specialisation_of),
                    ) is Some
                    &&& e == (ModelError::StructuralCycle { relation: LearningSpecificationView::cycle_of(
                        identifier@.key(),
                        views(has_part),
                        views(specialisation_of),
                    )->0 })
                },
            },
    {
        match &has_part {
            Some(next) => {
                if reaches(next, Relation::HasPart, &identifier) {
                    return Err(ModelError::StructuralCycle { relation: Relation::HasPart });
                }
                proof {
                    use_type_invariant(next);
                    lemma_distinct_with_new_head(identifier@.key(), next@.has_part_chain());
                }
            },
            None => {
                assert(seq![identifier@.key()].no_duplicates());
            },
        }
        match &specialisation_of {
            Some(next) => {
                if reaches(next, Relation::SpecialisationOf, &identifier) {
                    return Err(ModelError::StructuralCycle { relation: Relation::SpecialisationOf });
                }
                proof {
                    use_type_invariant(next);
                    lemma_distinct_with_new_head(identifier@.key(), next@.specialisation_of_chain());
                }
            },
            None => {
                assert(seq![identifier@.key()].no_duplicates());
            },
        }
        identifier.attest();
        Ok(LearningSpecification {
            identifier,
            title,
            definition,
            learning_opportunity_type,
            ects_credit_points,
            eqf_level,
            nqf_level,
            language,
            mode,
            learning_setting,
            target_group,
            has_part: match has_part {
                Some(next) => Some(Box::new(next)),
                None => None,
            },
            specialisation_of: match specialisation_of {
                Some(next) => Some(Box::new(next)),
                None => None,
            },
        })
    }

    /// Every value of this type may exist.
    pub fn attest(&self)
        ensures
            self@.is_sound(),
    {
        proof {
            use_type_invariant(self);
        }
    }

    /// The identifier of the learning specification.
    pub fn identifier(&self) -> (identifier: &Identifier)
        ensures
            identifier@ == self@.identifier,
    {
        &self.identifier
    }

    /// The title of the learning specification.
    pub fn title(&self) -> (title: &Option<Text>)
        ensures
            views(*title) == self@.title,
    {
        &self.title
    }

    /// A short description of the learning specification.
    pub fn definition(&self) -> (definition: &Option<Note>)
        ensures
            views(*definition) == self@.definition,
    {
        &self.definition
    }

    /// The type of the learning opportunity.
    pub fn learning_opportunity_type(&self) -> (learning_opportunity_type: &Option<Code>)
        ensures
            views(*learning_opportunity_type) == self@.learning_opportunity_type,
    {
        &self.learning_opportunity_type
    }

    /// The credit points of the European Credit Transfer System.
    pub fn ects_credit_points(&self) -> (ects_credit_points: &Option<NumericScore>)
        ensures
            views(*ects_credit_points) == self@.ects_credit_points,
    {
        &self.ects_credit_points
    }

    /// The level of the European Qualifications Framework.
    pub fn eqf_level(&self) -> (eqf_level: Option<EQFLevel>)
        ensures
            eqf_level == self@.eqf_level,
    {
        self.eqf_level
    }

    /// The level of a national qualification framework.
    pub fn nqf_level(&self) -> (nqf_level: Option<NQF>)
        ensures
            nqf_level == self@.nqf_level,
    {
        self.nqf_level
    }

    /// The language of instruction.
    pub fn language(&self) -> (language: Option<EuropeanLanguage>)
        ensures
            language == self@.language,
    {
        self.language
    }

    /// The mode of learning.
    pub fn mode(&self) -> (mode: Option<ModeOfLearningType>)
        ensures
            mode == self@.mode,
    {
        self.mode
    }

    /// Whether the learning is formal or non-formal.
    pub fn learning_setting(&self) -> (learning_setting: Option<LearningSettingType>)
        ensures
            learning_setting == self@.learning_setting,
    {
        self.learning_setting
    }

    /// The group of learners that the specification is designed for.
    pub fn target_group(&self) -> (target_group: Option<LearningTargetGroup>)
        ensures
            target_group == self@.target_group,
    {
        self.target_group
    }

    /// A narrower learning specification that is part of this one.
    pub fn has_part(&self) -> (has_part: Option<&LearningSpecification>)
        ensures
            self@.has_part == boxed(views(has_part)),
    {
        match &self.has_part {
            Some(next) => Some(&**next),
            None => None,
        }
    }

    /// The learning specification that this one specialises.
    pub fn specialisation_of(&self) -> (specialisation_of: Option<&LearningSpecification>)
        ensures
            self@.specialisation_of == boxed(views(specialisation_of)),
    {
        match &self.specialisation_of {
            Some(next) => Some(&**next),
            None => None,
        }
    }
}

/// No learning specification reaches itself again: the key of one that may
/// exist is not among the keys of those that it reaches over `has_part` or
/// over `specialisation_of`, and each of those may exist too, so that the
/// same holds of it.
pub proof fn law_learning_specification_never_reaches_itself(entity: LearningSpecificationView)
    requires
        entity.is_sound(),
    ensures
        !entity.has_part_chain().skip(1).contains(entity.identifier.key()),
        entity.has_part is Some ==> entity.has_part->0.is_sound(),
        !entity.specialisation_of_chain().skip(1).contains(entity.identifier.key()),
        entity.specialisation_of is Some ==> entity.specialisation_of->0.is_sound(),
{
    lemma_head_not_reached_again(entity.has_part_chain());
    lemma_head_not_reached_again(entity.specialisation_of_chain());
}

/// What a value of [`LearningActivitySpecification`] says.
pub struct LearningActivitySpecificationView {
    pub identifier: IdentifierView,
    pub title: Option<TextView>,
    pub description: Option<NoteView>,
    pub learning_activity_type: Option<LearningActivityType>,
    pub workload: Option<MeasureView>,
    pub language: Option<EuropeanLanguage>,
    pub mode: Option<ModeOfLearningType>,
    pub has_part: Option<Box<LearningActivitySpecificationView>>,
    pub specialisation_of: Option<Box<LearningActivitySpecificationView>>,
}

impl LearningActivitySpecificationView {
    /// The keys of the learning activity specification and of those reached
    /// from it over `has_part`, in order.
    pub open spec fn has_part_chain(self) -> Seq<Key>
        decreases self,
    {
        match self.has_part {
            Some(next) => seq![self.identifier.key()] + next.has_part_chain(),
            None => seq![self.identifier.key()],
        }
    }

    /// The keys of the learning activity specification and of those reached
    /// from it over `specialisation_of`, in order.
    pub open spec fn specialisation_of_chain(self) -> Seq<Key>
        decreases self,
    {
        match self.specialisation_of {
            Some(next) => seq![self.identifier.key()] + next.specialisation_of_chain(),
            None => seq![self.identifier.key()],
        }
    }

    /// Whether the learning activity specification may exist: its identifier
    /// is valid, every entity that it holds may exist, and no entity is
    /// reached twice over `has_part` or over `specialisation_of`.
    pub open spec fn is_sound(self) -> bool
        decreases self,
    {
        &&& self.identifier.is_valid()
        &&& self.has_part_chain().no_duplicates()
        &&& match self.has_part {
            Some(next) => next.is_sound(),
            None => true,
        }
        &&& self.specialisation_of_chain().no_duplicates()
        &&& match self.specialisation_of {
            Some(next) => next.is_sound(),
            None => true,
        }
    }

    /// The relation over which an entity identified by `key` would reach
    /// itself again when given these entities to refer to: the first such
    /// relation, if there is one.
    pub open spec fn cycle_of(
        key: Key,
        has_part: Option<LearningActivitySpecificationView>,
        specialisation_of: Option<LearningActivitySpecificationView>,
    ) -> Option<Relation> {
        if has_part is Some && has_part->0.has_part_chain().contains(key) {
            Some(Relation::HasPart)
        } else if specialisation_of is Some && specialisation_of->0.specialisation_of_chain().contains(key) {
            Some(Relation::SpecialisationOf)
        } else {
            None
        }
    }
}

/// The specification of a process that leads to the acquisition of knowledge,
/// skills or responsibility and autonomy.
#[derive(Debug)]
pub struct LearningActivitySpecification {
    identifier: Identifier,
    title: Option<Text>,
    description: Option<Note>,
    learning_activity_type: Option<LearningActivityType>,
    workload: Option<Duration>,
    language: Option<EuropeanLanguage>,
    mode: Option<ModeOfLearningType>,
    has_part: Option<Box<LearningActivitySpecification>>,
    specialisation_of: Option<Box<LearningActivitySpecification>>,
}

impl View for LearningActivitySpecification {
    type V = LearningActivitySpecificationView;

    closed spec fn view(&self) -> LearningActivitySpecificationView
        decreases self,
    {
        LearningActivitySpecificationView {
            identifier: self.identifier@,
            title: views(self.title),
            description: views(self.description),
            learning_activity_type: self.learning_activity_type,
            workload: views(self.workload),
            language: self.language,
            mode: self.mode,
            has_part: match self.has_part {
                Some(next) => Some(Box::new((*next).view())),
                None => None,
            },
            specialisation_of: match self.specialisation_of {
                Some(next) => Some(Box::new((*next).view())),
                None => None,
            },
        }
    }
}

impl Linked for LearningActivitySpecification {
    open spec fn key(&self) -> Key {
        self@.identifier.key()
    }

    open spec fn chain(&self, relation: Relation) -> Seq<Key> {
        match relation {
            Relation::HasPart => self@.has_part_chain(),
            Relation::SpecialisationOf => self@.specialisation_of_chain(),
            _ => seq![self@.identifier.key()],
        }
    }

    fn identity(&self) -> &Identifier {
        &self.identifier
    }

    fn next(&self, relation: Relation) -> Option<&Self> {
        match relation {
            Relation::HasPart => match &self.has_part {
                Some(next) => Some(&**next),
                None => None,
            },
            Relation::SpecialisationOf => match &self.specialisation_of {
                Some(next) => Some(&**next),
                None => None,
            },
            _ => None,
        }
    }
}

impl LearningActivitySpecification {
    #[verifier::type_invariant]
    spec fn sound(self) -> bool {
        self@.is_sound()
    }

    /// Assembles the learning activity specification from validated values.
    /// It is refused with `StructuralCycle` where the learning activity
    /// specification would reach itself again: where its identifier is that
    /// of an entity reached from `has_part` over `has_part` or from
    /// `specialisation_of` over `specialisation_of`.
    pub fn new(
        identifier: Identifier,
        title: Option<Text>,
        description: Option<Note>,
        learning_activity_type: Option<LearningActivityType>,
        workload: Option<Duration>,
        language: Option<EuropeanLanguage>,
        mode: Option<ModeOfLearningType>,
        has_part: Option<LearningActivitySpecification>,
        specialisation_of: Option<LearningActivitySpecification>,
    ) -> (made: Result<LearningActivitySpecification, ModelError>)
        ensures
            match made {
                Ok(entity) => {
                    &&& LearningActivitySpecificationView::cycle_of(
                        identifier@.key(),
                        views(has_part),
                        views(specialisation_of),
                    ) is None
                    &&& entity@ == (LearningActivitySpecificationView {
                        identifier: identifier@,
                        title: views(title),
                        description: views(description),
                        learning_activity_type: learning_activity_type,
                        workload: views(workload),
                        language: language,
                        mode: mode,
                        has_part: boxed(views(has_part)),
                        specialisation_of: boxed(views(specialisation_of)),
                    })
                    &&& entity@.is_sound()
                },
                Err(e) => {
                    &&& LearningActivitySpecificationView::cycle_of(
                        identifier@.key(),
                        views(has_part),
                        views(specialisation_of),
                    ) is Some
                    &&& e == (ModelError::StructuralCycle { relation: LearningActivitySpecificationView::cycle_of(
                        identifier@.key(),
                        views(has_part),
                        views(specialisation_of),
                    )->0 })
                },
            },
    {
        match &has_part {
            Some(next) => {
                if reaches(next, Relation::HasPart, &identifier) {
                    return Err(ModelError::StructuralCycle { relation: Relation::HasPart });
                }
                proof {
                    use_type_invariant(next);
                    lemma_distinct_with_new_head(identifier@.key(), next@.has_part_chain());
                }
            },
            None => {
                assert(seq![identifier@.key()].no_duplicates());
            },
        }
        match &specialisation_of {
            Some(next) => {
                if reaches(next, Relation::SpecialisationOf, &identifier) {
                    return Err(ModelError::StructuralCycle { relation: Relation::SpecialisationOf });
                }
                proof {
                    use_type_invariant(next);
                    lemma_distinct_with_new_head(identifier@.key(), next@.specialisation_of_chain());
                }
            },
            None => {
                assert(seq![identifier@.key()].no_duplicates());
            },
        }
        identifier.attest();
        Ok(LearningActivitySpecification {
            identifier,
            title,
            description,
            learning_activity_type,
            workload,
            language,
            mode,
            has_part: match has_part {
                Some(next) => Some(Box::new(next)),
                None => None,
            },
            specialisation_of: match specialisation_of {
                Some(next) => Some(Box::new(next)),
                None => None,
            },
        })
    }

    /// Every value of this type may exist.
    pub fn attest(&self)
        ensures
            self@.is_sound(),
    {
        proof {
            use_type_invariant(self);
        }
    }

    /// The identifier of the learning activity specification.
    pub fn identifier(&self) -> (identifier: &Identifier)
        ensures
            identifier@ == self@.identifier,
    {
        &self.identifier
    }

    /// The title of the learning activity specification.
    pub fn title(&self) -> (title: &Option<Text>)
        ensures
            views(*title) == self@.title,
    {
        &self.title
    }

    /// A description of the learning activity specification.
    pub fn description(&self) -> (description: &Option<Note>)
        ensures
            views(*description) == self@.description,
    {
        &self.description
    }

    /// The type of activity.
    pub fn learning_activity_type(&self) -> (learning_activity_type: Option<LearningActivityType>)
        ensures
            learning_activity_type == self@.learning_activity_type,
    {
        self.learning_activity_type
    }

    /// The time that a learner is expected to spend on the activity.
    pub fn workload(&self) -> (workload: &Option<Duration>)
        ensures
            views(*workload) == self@.workload,
    {
        &self.workload
    }

    /// The language of instruction.
    pub fn language(&self) -> (language: Option<EuropeanLanguage>)
        ensures
            language == self@.language,
    {
        self.language
    }

    /// The mode of learning.
    pub fn mode(&self) -> (mode: Option<ModeOfLearningType>)
        ensures
            mode == self@.mode,
    {
        self.mode
    }

    /// A smaller activity specification that is part of this one.
    pub fn has_part(&self) -> (has_part: Option<&LearningActivitySpecification>)
        ensures
            self@.has_part == boxed(views(has_part)),
    {
        match &self.has_part {
            Some(next) => Some(&**next),
            None => None,
        }
    }

    /// The activity specification that this one specialises.
    pub fn specialisation_of(&self) -> (specialisation_of: Option<&LearningActivitySpecification>)
        ensures
            self@.specialisation_of == boxed(views(specialisation_of)),
    {
        match &self.specialisation_of {
            Some(next) => Some(&**next),
            None => None,
        }
    }
}

/// No learning activity specification reaches itself again: the key of one
/// that may exist is not among the keys of those that it reaches over
/// `has_part` or over `specialisation_of`, and each of those may exist too,
/// so that the same holds of it.
pub proof fn law_learning_activity_specification_never_reaches_itself(entity: LearningActivitySpecificationView)
    requires
        entity.is_sound(),
    ensures
        !entity.has_part_chain().skip(1).contains(entity.identifier.key()),
        entity.has_part is Some ==> entity.has_part->0.is_sound(),
        !entity.specialisation_of_chain().skip(1).contains(entity.identifier.key()),
        entity.specialisation_of is Some ==> entity.specialisation_of->0.is_sound(),
{
    lemma_head_not_reached_again(entity.has_part_chain());
    lemma_head_not_reached_again(entity.specialisation_of_chain());
}

/// What a value of [`AssessmentSpecification`] says.
pub struct AssessmentSpecificationView {
    pub identifier: IdentifierView,
    pub title: Option<TextView>,
    pub description: Option<NoteView>,
    pub assessment_type: Option<AssessmentType>,
    pub language: Option<EuropeanLanguage>,
    pub mode: Option<ModeOfLearningType>,
    pub has_part: Option<Box<AssessmentSpecificationView>>,
    pub specialisation_of: Option<Box<AssessmentSpecificationView>>,
}

impl AssessmentSpecificationView {
    /// The keys of the assessment specification and of those reached from it
    /// over `has_part`, in order.
    pub open spec fn has_part_chain(self) -> Seq<Key>
        decreases self,
    {
        match self.has_part {
            Some(next) => seq![self.identifier.key()] + next.has_part_chain(),
            None => seq![self.identifier.key()],
        }
    }

    /// The keys of the assessment specification and of those reached from it
    /// over `specialisation_of`, in order.
    pub open spec fn specialisation_of_chain(self) -> Seq<Key>
        decreases self,
    {
        match self.specialisation_of {
            Some(next) => seq![self.identifier.key()] + next.specialisation_of_chain(),
            None => seq![self.identifier.key()],
        }
    }

    /// Whether the assessment specification may exist: its identifier is
    /// valid, every entity that it holds may exist, and no entity is reached
    /// twice over `has_part` or over `specialisation_of`.
    pub open spec fn is_sound(self) -> bool
        decreases self,
    {
        &&& self.identifier.is_valid()
        &&& self.has_part_chain().no_duplicates()
        &&& match self.has_part {
            Some(next) => next.is_sound(),
            None => true,
        }
        &&& self.specialisation_of_chain().no_duplicates()
        &&& match self.specialisation_of {
            Some(next) => next.is_sound(),
            None => true,
        }
    }

    /// The relation over which an entity identified by `key` would reach
    /// itself again when given these entities to refer to: the first such
    /// relation, if there is one.
    pub open spec fn cycle_of(
        key: Key,
        has_part: Option<AssessmentSpecificationView>,
        specialisation_of: Option<AssessmentSpecificationView>,
    ) -> Option<Relation> {
        if has_part is Some && has_part->0.has_part_chain().contains(key) {
            Some(Relation::HasPart)
        } else if specialisation_of is Some && specialisation_of->0.specialisation_of_chain().contains(key) {
            Some(Relation::SpecialisationOf)
        } else {
            None
        }
    }
}

/// The specification of a process that establishes how far a learner has
/// attained given learning outcomes.
#[derive(Debug)]
pub struct AssessmentSpecification {
    identifier: Identifier,
    title: Option<Text>,
    description: Option<Note>,
    assessment_type: Option<AssessmentType>,
    language: Option<EuropeanLanguage>,
    mode: Option<ModeOfLearningType>,
    has_part: Option<Box<AssessmentSpecification>>,
    specialisation_of: Option<Box<AssessmentSpecification>>,
}

impl View for AssessmentSpecification {
    type V = AssessmentSpecificationView;

    closed spec fn view(&self) -> AssessmentSpecificationView
        decreases self,
    {
        AssessmentSpecificationView {
            identifier: self.identifier@,
            title: views(self.title),
            description: views(self.description),
            assessment_type: self.assessment_type,
            language: self.language,
            mode: self.mode,
            has_part: match self.has_part {
                Some(next) => Some(Box::new((*next).view())),
                None => None,
            },
            specialisation_of: match self.specialisation_of {
                Some(next) => Some(Box::new((*next).view())),
                None => None,
            },
        }
    }
}

impl Linked for AssessmentSpecification {
    open spec fn key(&self) -> Key {
        self@.identifier.key()
    }

    open spec fn chain(&self, relation: Relation) -> Seq<Key> {
        match relation {
            Relation::HasPart => self@.has_part_chain(),
            Relation::SpecialisationOf => self@.specialisation_of_chain(),
            _ => seq![self@.identifier.key()],
        }
    }

    fn identity(&self) -> &Identifier {
        &self.identifier
    }

    fn next(&self, relation: Relation) -> Option<&Self> {
        match relation {
            Relation::HasPart => match &self.has_part {
                Some(next) => Some(&**next),
                None => None,
            },
            Relation::SpecialisationOf => match &self.specialisation_of {
                Some(next) => Some(&**next),
                None => None,
            },
            _ => None,
        }
    }
}

impl AssessmentSpecification {
    #[verifier::type_invariant]
    spec fn sound(self) -> bool {
        self@.is_sound()
    }

    /// Assembles the assessment specification from validated values. It is
    /// refused with `StructuralCycle` where the assessment specification
    /// would reach itself again: where its identifier is that of an entity
    /// reached from `has_part` over `has_part` or from `specialisation_of`
    /// over `specialisation_of`.
    pub fn new(
        identifier: Identifier,
        title: Option<Text>,
        description: Option<Note>,
        assessment_type: Option<AssessmentType>,
        language: Option<EuropeanLanguage>,
        mode: Option<ModeOfLearningType>,
        has_part: Option<AssessmentSpecification>,
        specialisation_of: Option<AssessmentSpecification>,
    ) -> (made: Result<AssessmentSpecification, ModelError>)
        ensures
            match made {
                Ok(entity) => {
                    &&& AssessmentSpecificationView::cycle_of(
                        identifier@.key(),
                        views(has_part),
                        views(specialisation_of),
                    ) is None
                    &&& entity@ == (AssessmentSpecificationView {
                        identifier: identifier@,
                        title: views(title),
                        description: views(description),
                        assessment_type: assessment_type,
                        language: language,
                        mode: mode,
                        has_part: boxed(views(has_part)),
                        specialisation_of: boxed(views(specialisation_of)),
                    })
                    &&& entity@.is_sound()
                },
                Err(e) => {
                    &&& AssessmentSpecificationView::cycle_of(
                        identifier@.key(),
                        views(has_part),
                        views(specialisation_of),
                    ) is Some
                    &&& e == (ModelError::StructuralCycle { relation: AssessmentSpecificationView::cycle_of(
                        identifier@.key(),
                        views(has_part),
                        views(specialisation_of),
                    )->0 })
                },
            },
    {
        match &has_part {
            Some(next) => {
                if reaches(next, Relation::HasPart, &identifier) {
                    return Err(ModelError::StructuralCycle { relation: Relation::HasPart });
                }
                proof {
                    use_type_invariant(next);
                    lemma_distinct_with_new_head(identifier@.key(), next@.has_part_chain());
                }
            },
            None => {
                assert(seq![identifier@.key()].no_duplicates());
            },
        }
        match &specialisation_of {
            Some(next) => {
                if reaches(next, Relation::SpecialisationOf, &identifier) {
                    return Err(ModelError::StructuralCycle { relation: Relation::SpecialisationOf });
                }
                proof {
                    use_type_invariant(next);
                    lemma_distinct_with_new_head(identifier@.key(), next@.specialisation_of_chain());
                }
            },
            None => {
                assert(seq![identifier@.key()].no_duplicates());
            },
        }
        identifier.attest();
        Ok(AssessmentSpecification {
            identifier,
            title,
            description,
            assessment_type,
            language,
            mode,
            has_part: match has_part {
                Some(next) => Some(Box::new(next)),
                None => None,
            },
            specialisation_of: match specialisation_of {
                Some(next) => Some(Box::new(next)),
                None => None,
            },
        })
    }

    /// Every value of this type may exist.
    pub fn attest(&self)
        ensures
            self@.is_sound(),
    {
        proof {
            use_type_invariant(self);
        }
    }

    /// The identifier of the assessment specification.
    pub fn identifier(&self) -> (identifier: &Identifier)
        ensures
            identifier@ == self@.identifier,
    {
        &self.identifier
    }

    /// The title of the assessment specification.
    pub fn title(&self) -> (title: &Option<Text>)
        ensures
            views(*title) == self@.title,
    {
        &self.title
    }

    /// A description of the assessment specification.
    pub fn description(&self) -> (description: &Option<Note>)
        ensures
            views(*description) == self@.description,
    {
        &self.description
    }

    /// The type of assessment.
    pub fn assessment_type(&self) -> (assessment_type: Option<AssessmentType>)
        ensures
            assessment_type == self@.assessment_type,
    {
        self.assessment_type
    }

    /// The language of assessment.
    pub fn language(&self) -> (language: Option<EuropeanLanguage>)
        ensures
            language == self@.language,
    {
        self.language
    }

    /// The mode of assessment.
    pub fn mode(&self) -> (mode: Option<ModeOfLearningType>)
        ensures
            mode == self@.mode,
    {
        self.mode
    }

    /// A narrower assessment specification that is part of this one.
    pub fn has_part(&self) -> (has_part: Option<&AssessmentSpecification>)
        ensures
            self@.has_part == boxed(views(has_part)),
    {
        match &self.has_part {
            Some(next) => Some(&**next),
            None => None,
        }
    }

    /// The assessment specification that this one specialises.
    pub fn specialisation_of(&self) -> (specialisation_of: Option<&AssessmentSpecification>)
        ensures
            self@.specialisation_of == boxed(views(specialisation_of)),
    {
        match &self.specialisation_of {
            Some(next) => Some(&**next),
            None => None,
        }
    }
}

/// No assessment specification reaches itself again: the key of one that may
/// exist is not among the keys of those that it reaches over `has_part` or
/// over `specialisation_of`, and each of those may exist too, so that the
/// same holds of it.
pub proof fn law_assessment_specification_never_reaches_itself(entity: AssessmentSpecificationView)
    requires
        entity.is_sound(),
    ensures
        !entity.has_part_chain().skip(1).contains(entity.identifier.key()),
        entity.has_part is Some ==> entity.has_part->0.is_sound(),
        !entity.specialisation_of_chain().skip(1).contains(entity.identifier.key()),
        entity.specialisation_of is Some ==> entity.specialisation_of->0.is_sound(),
{
    lemma_head_not_reached_again(entity.has_part_chain());
    lemma_head_not_reached_again(entity.specialisation_of_chain());
}

/// What a value of [`EntitlementSpecification`] says.
pub struct EntitlementSpecificationView {
    pub identifier: IdentifierView,
    pub title: Option<TextView>,
    pub description: Option<NoteView>,
    pub entitlement_type: EntitlementType,
    pub status: EntitlementStatus,
    pub limit_organisation: Option<OrganisationView>,
    pub limit_jurisdiction: Option<CodeView>,
    pub has_part: Option<Box<EntitlementSpecificationView>>,
    pub specialisation_of: Option<Box<EntitlementSpecificationView>>,
}

impl EntitlementSpecificationView {
    /// The keys of the entitlement specification and of those reached from it
    /// over `has_part`, in order.
    pub open spec fn has_part_chain(self) -> Seq<Key>
        decreases self,
    {
        match self.has_part {
            Some(next) => seq![self.identifier.key()] + next.has_part_chain(),
            None => seq![self.identifier.key()],
        }
    }

    /// The keys of the entitlement specification and of those reached from it
    /// over `specialisation_of`, in order.
    pub open spec fn specialisation_of_chain(self) -> Seq<Key>
        decreases self,
    {
        match self.specialisation_of {
            Some(next) => seq![self.identifier.key()] + next.specialisation_of_chain(),
            None => seq![self.identifier.key()],
        }
    }

    /// Whether the entitlement specification may exist: its identifier is
    /// valid, every entity that it holds may exist, and no entity is reached
    /// twice over `has_part` or over `specialisation_of`.
    pub open spec fn is_sound(self) -> bool
        decreases self,
    {
        &&& self.identifier.is_valid()
        &&& match self.limit_organisation {
            Some(inner) => inner.is_sound(),
            None => true,
        }
        &&& self.has_part_chain().no_duplicates()
        &&& match self.has_part {
            Some(next) => next.is_sound(),
            None => true,
        }
        &&& self.specialisation_of_chain().no_duplicates()
        &&& match self.specialisation_of {
            Some(next) => next.is_sound(),
            None => true,
        }
    }

    /// The relation over which an entity identified by `key` would reach
    /// itself again when given these entities to refer to: the first such
    /// relation, if there is one.
    pub open spec fn cycle_of(
        key: Key,
        has_part: Option<EntitlementSpecificationView>,
        specialisation_of: Option<EntitlementSpecificationView>,
    ) -> Option<Relation> {
        if has_part is Some && has_part->0.has_part_chain().contains(key) {
            Some(Relation::HasPart)
        } else if specialisation_of is Some && specialisation_of->0.specialisation_of_chain().contains(key) {
            Some(Relation::SpecialisationOf)
        } else {
            None
        }
    }
}

/// The specification of a right that a person has access to, typically as
/// the result of a learning achievement.
#[derive(Debug)]
pub struct EntitlementSpecification {
    identifier: Identifier,
    title: Option<Text>,
    description: Option<Note>,
    entitlement_type: EntitlementType,
    status: EntitlementStatus,
    limit_organisation: Option<Organisation>,
    limit_jurisdiction: Option<Code>,
    has_part: Option<Box<EntitlementSpecification>>,
    specialisation_of: Option<Box<EntitlementSpecification>>,
}

impl View for EntitlementSpecification {
    type V = EntitlementSpecificationView;

    closed spec fn view(&self) -> EntitlementSpecificationView
        decreases self,
    {
        EntitlementSpecificationView {
            identifier: self.identifier@,
            title: views(self.title),
            description: views(self.description),
            entitlement_type: self.entitlement_type,
            status: self.status,
            limit_organisation: views(self.limit_organisation),
            limit_jurisdiction: views(self.limit_jurisdiction),
            has_part: match self.has_part {
                Some(next) => Some(Box::new((*next).view())),
                None => None,
            },
            specialisation_of: match self.specialisation_of {
                Some(next) => Some(Box::new((*next).view())),
                None => None,
            },
        }
    }
}

impl Linked for EntitlementSpecification {
    open spec fn key(&self) -> Key {
        self@.identifier.key()
    }

    open spec fn chain(&self, relation: Relation) -> Seq<Key> {
        match relation {
            Relation::HasPart => self@.has_part_chain(),
            Relation::SpecialisationOf => self@.specialisation_of_chain(),
            _ => seq![self@.identifier.key()],
        }
    }

    fn identity(&self) -> &Identifier {
        &self.identifier
    }

    fn next(&self, relation: Relation) -> Option<&Self> {
        match relation {
            Relation::HasPart => match &self.has_part {
                Some(next) => Some(&**next),
                None => None,
            },
            Relation::SpecialisationOf => match &self.specialisation_of {
                Some(next) => Some(&**next),
                None => None,
            },
            _ => None,
        }
    }
}

impl EntitlementSpecification {
    #[verifier::type_invariant]
    spec fn sound(self) -> bool {
        self@.is_sound()
    }

    /// Assembles the entitlement specification from validated values. It is
    /// refused with `StructuralCycle` where the entitlement specification
    /// would reach itself again: where its identifier is that of an entity
    /// reached from `has_part` over `has_part` or from `specialisation_of`
    /// over `specialisation_of`.
    pub fn new(
        identifier: Identifier,
        title: Option<Text>,
        description: Option<Note>,
        entitlement_type: EntitlementType,
        status: EntitlementStatus,
        limit_organisation: Option<Organisation>,
        limit_jurisdiction: Option<Code>,
        has_part: Option<EntitlementSpecification>,
        specialisation_of: Option<EntitlementSpecification>,
    ) -> (made: Result<EntitlementSpecification, ModelError>)
        ensures
            match made {
                Ok(entity) => {
                    &&& EntitlementSpecificationView::cycle_of(
                        identifier@.key(),
                        views(has_part),
                        views(specialisation_of),
                    ) is None
                    &&& entity@ == (EntitlementSpecificationView {
                        identifier: identifier@,
                        title: views(title),
                        description: views(description),
                        entitlement_type: entitlement_type,
                        status: status,
                        limit_organisation: views(limit_organisation),
                        limit_jurisdiction: views(limit_jurisdiction),
                        has_part: boxed(views(has_part)),
                        specialisation_of: boxed(views(specialisation_of)),
                    })
                    &&& entity@.is_sound()
                },
                Err(e) => {
                    &&& EntitlementSpecificationView::cycle_of(
                        identifier@.key(),
                        views(has_part),
                        views(specialisation_of),
                    ) is Some
                    &&& e == (ModelError::StructuralCycle { relation: EntitlementSpecificationView::cycle_of(
                        identifier@.key(),
                        views(has_part),
                        views(specialisation_of),
                    )->0 })
                },
            },
    {
        match &has_part {
            Some(next) => {
                if reaches(next, Relation::HasPart, &identifier) {
                    return Err(ModelError::StructuralCycle { relation: Relation::HasPart });
                }
                proof {
                    use_type_invariant(next);
                    lemma_distinct_with_new_head(identifier@.key(), next@.has_part_chain());
                }
            },
            None => {
                assert(seq![identifier@.key()].no_duplicates());
            },
        }
        match &specialisation_of {
            Some(next) => {
                if reaches(next, Relation::SpecialisationOf, &identifier) {
                    return Err(ModelError::StructuralCycle { relation: Relation::SpecialisationOf });
                }
                proof {
                    use_type_invariant(next);
                    lemma_distinct_with_new_head(identifier@.key(), next@.specialisation_of_chain());
                }
            },
            None => {
                assert(seq![identifier@.key()].no_duplicates());
            },
        }
        match &limit_organisation {
            Some(inner) => {
                proof {
                    use_type_invariant(inner);
                }
            },
            None => {},
        }
        identifier.attest();
        Ok(EntitlementSpecification {
            identifier,
            title,
            description,
            entitlement_type,
            status,
            limit_organisation,
            limit_jurisdiction,
            has_part: match has_part {
                Some(next) => Some(Box::new(next)),
                None => None,
            },
            specialisation_of: match specialisation_of {
                Some(next) => Some(Box::new(next)),
                None => None,
            },
        })
    }

    /// Every value of this type may exist.
    pub fn attest(&self)
        ensures
            self@.is_sound(),
    {
        proof {
            use_type_invariant(self);
        }
    }

    /// The identifier of the entitlement specification.
    pub fn identifier(&self) -> (identifier: &Identifier)
        ensures
            identifier@ == self@.identifier,
    {
        &self.identifier
    }

    /// The title of the entitlement specification.
    pub fn title(&self) -> (title: &Option<Text>)
        ensures
            views(*title) == self@.title,
    {
        &self.title
    }

    /// A description of the entitlement specification.
    pub fn description(&self) -> (description: &Option<Note>)
        ensures
            views(*description) == self@.description,
    {
        &self.description
    }

    /// What the entitlement gives access to.
    pub fn entitlement_type(&self) -> (entitlement_type: EntitlementType)
        ensures
            entitlement_type == self@.entitlement_type,
    {
        self.entitlement_type
    }

    /// Whether the entitlement grants the right or the right to apply for it.
    pub fn status(&self) -> (status: EntitlementStatus)
        ensures
            status == self@.status,
    {
        self.status
    }

    /// The organisation that acknowledges the entitlement.
    pub fn limit_organisation(&self) -> (limit_organisation: &Option<Organisation>)
        ensures
            views(*limit_organisation) == self@.limit_organisation,
    {
        &self.limit_organisation
    }

    /// The jurisdiction for which the entitlement is valid.
    pub fn limit_jurisdiction(&self) -> (limit_jurisdiction: &Option<Code>)
        ensures
            views(*limit_jurisdiction) == self@.limit_jurisdiction,
    {
        &self.limit_jurisdiction
    }

    /// A smaller entitlement specification that is part of this one.
    pub fn has_part(&self) -> (has_part: Option<&EntitlementSpecification>)
        ensures
            self@.has_part == boxed(views(has_part)),
    {
        match &self.has_part {
            Some(next) => Some(&**next),
            None => None,
        }
    }

    /// The entitlement specification that this one specialises.
    pub fn specialisation_of(&self) -> (specialisation_of: Option<&EntitlementSpecification>)
        ensures
            self@.specialisation_of == boxed(views(specialisation_of)),
    {
        match &self.specialisation_of {
            Some(next) => Some(&**next),
            None => None,
        }
    }
}

/// No entitlement specification reaches itself again: the key of one that may
/// exist is not among the keys of those that it reaches over `has_part` or
/// over `specialisation_of`, and each of those may exist too, so that the
/// same holds of it.
pub proof fn law_entitlement_specification_never_reaches_itself(entity: EntitlementSpecificationView)
    requires
        entity.is_sound(),
    ensures
        !entity.has_part_chain().skip(1).contains(entity.identifier.key()),
        entity.has_part is Some ==> entity.has_part->0.is_sound(),
        !entity.specialisation_of_chain().skip(1).contains(entity.identifier.key()),
        entity.specialisation_of is Some ==> entity.specialisation_of->0.is_sound(),
{
    lemma_head_not_reached_again(entity.has_part_chain());
    lemma_head_not_reached_again(entity.specialisation_of_chain());
}

/// What a value of [`Accreditation`] says.
pub struct AccreditationView {
    pub identifier: IdentifierView,
    pub accreditation_type: AccreditationType,
    pub title: Option<TextView>,
    pub decision: Option<Seq<char>>,
    pub organisation: OrganisationView,
    pub accrediting_agent: Option<OrganisationView>,
    pub limit_eqf_level: Option<EQFLevel>,
    pub limit_jurisdiction: Option<CodeView>,
    pub issue_date: Option<(int, int, int)>,
    pub review_date: Option<(int, int, int)>,
    pub expiry_date: Option<(int, int, int)>,
}

impl AccreditationView {
    /// Whether the accreditation may exist: its identifier is valid, every
    /// entity that it holds may exist.
    pub open spec fn is_sound(self) -> bool
    {
        &&& self.identifier.is_valid()
        &&& self.organisation.is_sound()
        &&& match self.accrediting_agent {
            Some(inner) => inner.is_sound(),
            None => true,
        }
    }
}

/// The quality assurance or licensing of an organisation or a qualification.
#[derive(Debug)]
pub struct Accreditation {
    identifier: Identifier,
    accreditation_type: AccreditationType,
    title: Option<Text>,
    decision: Option<String>,
    organisation: Organisation,
    accrediting_agent: Option<Organisation>,
    limit_eqf_level: Option<EQFLevel>,
    limit_jurisdiction: Option<Code>,
    issue_date: Option<CalendarDate>,
    review_date: Option<CalendarDate>,
    expiry_date: Option<CalendarDate>,
}

impl View for Accreditation {
    type V = AccreditationView;

    closed spec fn view(&self) -> AccreditationView {
        AccreditationView {
            identifier: self.identifier@,
            accreditation_type: self.accreditation_type,
            title: views(self.title),
            decision: views(self.decision),
            organisation: self.organisation@,
            accrediting_agent: views(self.accrediting_agent),
            limit_eqf_level: self.limit_eqf_level,
            limit_jurisdiction: views(self.limit_jurisdiction),
            issue_date: views(self.issue_date),
            review_date: views(self.review_date),
            expiry_date: views(self.expiry_date),
        }
    }
}

impl Accreditation {
    #[verifier::type_invariant]
    spec fn sound(self) -> bool {
        self@.is_sound()
    }

    /// Assembles the accreditation from validated values.
    pub fn new(
        identifier: Identifier,
        accreditation_type: AccreditationType,
        title: Option<Text>,
        decision: Option<String>,
        organisation: Organisation,
        accrediting_agent: Option<Organisation>,
        limit_eqf_level: Option<EQFLevel>,
        limit_jurisdiction: Option<Code>,
        issue_date: Option<CalendarDate>,
        review_date: Option<CalendarDate>,
        expiry_date: Option<CalendarDate>,
    ) -> (entity: Accreditation)
        ensures
            entity@ == (AccreditationView {
                identifier: identifier@,
                accreditation_type: accreditation_type,
                title: views(title),
                decision: views(decision),
                organisation: organisation@,
                accrediting_agent: views(accrediting_agent),
                limit_eqf_level: limit_eqf_level,
                limit_jurisdiction: views(limit_jurisdiction),
                issue_date: views(issue_date),
                review_date: views(review_date),
                expiry_date: views(expiry_date),
            }),
            entity@.is_sound(),
    {
        proof {
            use_type_invariant(&organisation);
        }
        match &accrediting_agent {
            Some(inner) => {
                proof {
                    use_type_invariant(inner);
                }
            },
            None => {},
        }
        identifier.attest();
        Accreditation {
            identifier,
            accreditation_type,
            title,
            decision,
            organisation,
            accrediting_agent,
            limit_eqf_level,
            limit_jurisdiction,
            issue_date,
            review_date,
            expiry_date,
        }
    }

    /// Every value of this type may exist.
    pub fn attest(&self)
        ensures
            self@.is_sound(),
    {
        proof {
            use_type_invariant(self);
        }
    }

    /// The identifier of the accreditation.
    pub fn identifier(&self) -> (identifier: &Identifier)
        ensures
            identifier@ == self@.identifier,
    {
        &self.identifier
    }

    /// The type of accreditation.
    pub fn accreditation_type(&self) -> (accreditation_type: AccreditationType)
        ensures
            accreditation_type == self@.accreditation_type,
    {
        self.accreditation_type
    }

    /// The title of the accreditation.
    pub fn title(&self) -> (title: &Option<Text>)
        ensures
            views(*title) == self@.title,
    {
        &self.title
    }

    /// The decision that the quality assuring authority issued.
    pub fn decision(&self) -> (decision: &Option<String>)
        ensures
            views(*decision) == self@.decision,
    {
        &self.decision
    }

    /// The organisation whose activities are accredited.
    pub fn organisation(&self) -> (organisation: &Organisation)
        ensures
            organisation@ == self@.organisation,
    {
        &self.organisation
    }

    /// The quality assuring authority.
    pub fn accrediting_agent(&self) -> (accrediting_agent: &Option<Organisation>)
        ensures
            views(*accrediting_agent) == self@.accrediting_agent,
    {
        &self.accrediting_agent
    }

    /// The level of the European Qualifications Framework for which the
    /// accreditation is valid.
    pub fn limit_eqf_level(&self) -> (limit_eqf_level: Option<EQFLevel>)
        ensures
            limit_eqf_level == self@.limit_eqf_level,
    {
        self.limit_eqf_level
    }

    /// The jurisdiction for which the accreditation is valid.
    pub fn limit_jurisdiction(&self) -> (limit_jurisdiction: &Option<Code>)
        ensures
            views(*limit_jurisdiction) == self@.limit_jurisdiction,
    {
        &self.limit_jurisdiction
    }

    /// The day on which the accreditation was issued.
    pub fn issue_date(&self) -> (issue_date: &Option<CalendarDate>)
        ensures
            views(*issue_date) == self@.issue_date,
    {
        &self.issue_date
    }

    /// The day on which the accreditation has to be reviewed.
    pub fn review_date(&self) -> (review_date: &Option<CalendarDate>)
        ensures
            views(*review_date) == self@.review_date,
    {
        &self.review_date
    }

    /// The day on which the accreditation expires.
    pub fn expiry_date(&self) -> (expiry_date: &Option<CalendarDate>)
        ensures
            views(*expiry_date) == self@.expiry_date,
    {
        &self.expiry_date
    }
}

/// What a value of [`Assessment`] says.
pub struct AssessmentView {
    pub identifier: IdentifierView,
    pub title: Option<TextView>,
    pub description: Option<NoteView>,
    pub grade: Option<Seq<char>>,
    pub grading_scheme: Option<Seq<char>>,
    pub issued_date: Option<(int, int, int)>,
    pub id_verification: Option<SupervisionAndVerificationType>,
    pub status: Option<CodeView>,
    pub assessed_by: Seq<AgentView>,
    pub specified_by: Option<AssessmentSpecificationView>,
}

impl AssessmentView {
    /// Whether the assessment may exist: its identifier is valid, every
    /// entity that it holds may exist.
    pub open spec fn is_sound(self) -> bool
    {
        &&& self.identifier.is_valid()
        &&& forall|i: int| 0 <= i < self.assessed_by.len() ==> (#[trigger] self.assessed_by[i]).is_sound()
        &&& match self.specified_by {
            Some(inner) => inner.is_sound(),
            None => true,
        }
    }
}

/// The result of a process that establishes how far a learner has attained
/// given learning outcomes.
#[derive(Debug)]
pub struct Assessment {
    identifier: Identifier,
    title: Option<Text>,
    description: Option<Note>,
    grade: Option<String>,
    grading_scheme: Option<String>,
    issued_date: Option<CalendarDate>,
    id_verification: Option<SupervisionAndVerificationType>,
    status: Option<Code>,
    assessed_by: Vec<Agent>,
    specified_by: Option<AssessmentSpecification>,
}

impl View for Assessment {
    type V = AssessmentView;

    closed spec fn view(&self) -> AssessmentView {
        AssessmentView {
            identifier: self.identifier@,
            title: views(self.title),
            description: views(self.description),
            grade: views(self.grade),
            grading_scheme: views(self.grading_scheme),
            issued_date: views(self.issued_date),
            id_verification: self.id_verification,
            status: views(self.status),
            assessed_by: list_views(self.assessed_by@),
            specified_by: views(self.specified_by),
        }
    }
}

impl Assessment {
    #[verifier::type_invariant]
    spec fn sound(self) -> bool {
        self@.is_sound()
    }

    /// Assembles the assessment from validated values.
    pub fn new(
        identifier: Identifier,
        title: Option<Text>,
        description: Option<Note>,
        grade: Option<String>,
        grading_scheme: Option<String>,
        issued_date: Option<CalendarDate>,
        id_verification: Option<SupervisionAndVerificationType>,
        status: Option<Code>,
        assessed_by: Vec<Agent>,
        specified_by: Option<AssessmentSpecification>,
    ) -> (entity: Assessment)
        ensures
            entity@ == (AssessmentView {
                identifier: identifier@,
                title: views(title),
                description: views(description),
                grade: views(grade),
                grading_scheme: views(grading_scheme),
                issued_date: views(issued_date),
                id_verification: id_verification,
                status: views(status),
                assessed_by: list_views(assessed_by@),
                specified_by: views(specified_by),
            }),
            entity@.is_sound(),
    {
        let mut checked: usize = 0;
        while checked < assessed_by.len()
            invariant
                checked <= assessed_by@.len(),
                forall|i: int| 0 <= i < checked ==> (#[trigger] list_views(assessed_by@)[i]).is_sound(),
            decreases assessed_by@.len() - checked,
        {
            assessed_by[checked].attest();
            checked += 1;
        }
        match &specified_by {
            Some(inner) => {
                proof {
                    use_type_invariant(inner);
                }
            },
            None => {},
        }
        identifier.attest();
        Assessment {
            identifier,
            title,
            description,
            grade,
            grading_scheme,
            issued_date,
            id_verification,
            status,
            assessed_by,
            specified_by,
        }
    }

    /// Every value of this type may exist.
    pub fn attest(&self)
        ensures
            self@.is_sound(),
    {
        proof {
            use_type_invariant(self);
        }
    }

    /// The identifier of the assessment.
    pub fn identifier(&self) -> (identifier: &Identifier)
        ensures
            identifier@ == self@.identifier,
    {
        &self.identifier
    }

    /// The title of the assessment.
    pub fn title(&self) -> (title: &Option<Text>)
        ensures
            views(*title) == self@.title,
    {
        &self.title
    }

    /// A description of the assessment.
    pub fn description(&self) -> (description: &Option<Note>)
        ensures
            views(*description) == self@.description,
    {
        &self.description
    }

    /// The grade that the assessment resulted in.
    pub fn grade(&self) -> (grade: &Option<String>)
        ensures
            views(*grade) == self@.grade,
    {
        &self.grade
    }

    /// The scheme that the grade is read against.
    pub fn grading_scheme(&self) -> (grading_scheme: &Option<String>)
        ensures
            views(*grading_scheme) == self@.grading_scheme,
    {
        &self.grading_scheme
    }

    /// The day on which the grade was awarded.
    pub fn issued_date(&self) -> (issued_date: &Option<CalendarDate>)
        ensures
            views(*issued_date) == self@.issued_date,
    {
        &self.issued_date
    }

    /// How the assessment was supervised and the identity verified.
    pub fn id_verification(&self) -> (id_verification: Option<SupervisionAndVerificationType>)
        ensures
            id_verification == self@.id_verification,
    {
        self.id_verification
    }

    /// The state that the assessed attainment is in.
    pub fn status(&self) -> (status: &Option<Code>)
        ensures
            views(*status) == self@.status,
    {
        &self.status
    }

    /// Those who awarded or accepted the grade.
    pub fn assessed_by(&self) -> (assessed_by: &Vec<Agent>)
        ensures
            list_views(assessed_by@) == self@.assessed_by,
    {
        &self.assessed_by
    }

    /// The specification of the assessment.
    pub fn specified_by(&self) -> (specified_by: &Option<AssessmentSpecification>)
        ensures
            views(*specified_by) == self@.specified_by,
    {
        &self.specified_by
    }
}

/// What a value of [`AwardingProcess`] says.
pub struct AwardingProcessView {
    pub identifier: IdentifierView,
    pub description: Option<NoteView>,
    pub awarding_body: OrganisationView,
    pub awarding_date: Option<(int, int, int)>,
}

impl AwardingProcessView {
    /// Whether the awarding process may exist: its identifier is valid, every
    /// entity that it holds may exist.
    pub open spec fn is_sound(self) -> bool
    {
        &&& self.identifier.is_valid()
        &&& self.awarding_body.is_sound()
    }
}

/// The awarding of a learning achievement to a person by an organisation.
#[derive(Debug)]
pub struct AwardingProcess {
    identifier: Identifier,
    description: Option<Note>,
    awarding_body: Organisation,
    awarding_date: Option<CalendarDate>,
}

impl View for AwardingProcess {
    type V = AwardingProcessView;

    closed spec fn view(&self) -> AwardingProcessView {
        AwardingProcessView {
            identifier: self.identifier@,
            description: views(self.description),
            awarding_body: self.awarding_body@,
            awarding_date: views(self.awarding_date),
        }
    }
}

impl AwardingProcess {
    #[verifier::type_invariant]
    spec fn sound(self) -> bool {
        self@.is_sound()
    }

    /// Assembles the awarding process from validated values.
    pub fn new(
        identifier: Identifier,
        description: Option<Note>,
        awarding_body: Organisation,
        awarding_date: Option<CalendarDate>,
    ) -> (entity: AwardingProcess)
        ensures
            entity@ == (AwardingProcessView {
                identifier: identifier@,
                description: views(description),
                awarding_body: awarding_body@,
                awarding_date: views(awarding_date),
            }),
            entity@.is_sound(),
    {
        proof {
            use_type_invariant(&awarding_body);
        }
        identifier.attest();
        AwardingProcess {
            identifier,
            description,
            awarding_body,
            awarding_date,
        }
    }

    /// Every value of this type may exist.
    pub fn attest(&self)
        ensures
            self@.is_sound(),
    {
        proof {
            use_type_invariant(self);
        }
    }

    /// The identifier of the awarding process.
    pub fn identifier(&self) -> (identifier: &Identifier)
        ensures
            identifier@ == self@.identifier,
    {
        &self.identifier
    }

    /// A description of the awarding process.
    pub fn description(&self) -> (description: &Option<Note>)
        ensures
            views(*description) == self@.description,
    {
        &self.description
    }

    /// The body that awarded the achievement.
    pub fn awarding_body(&self) -> (awarding_body: &Organisation)
        ensures
            awarding_body@ == self@.awarding_body,
    {
        &self.awarding_body
    }

    /// The day on which the achievement was awarded.
    pub fn awarding_date(&self) -> (awarding_date: &Option<CalendarDate>)
        ensures
            views(*awarding_date) == self@.awarding_date,
    {
        &self.awarding_date
    }
}

/// What a value of [`Entitlement`] says.
pub struct EntitlementView {
    pub identifier: IdentifierView,
    pub title: Option<TextView>,
    pub description: Option<NoteView>,
    pub issued_date: Option<(int, int, int)>,
    pub expiry_date: Option<(int, int, int)>,
    pub specified_by: Option<EntitlementSpecificationView>,
}

impl EntitlementView {
    /// Whether the entitlement may exist: its identifier is valid, every
    /// entity that it holds may exist.
    pub open spec fn is_sound(self) -> bool
    {
        &&& self.identifier.is_valid()
        &&& match self.specified_by {
            Some(inner) => inner.is_sound(),
            None => true,
        }
    }
}

/// A right, such as to practise a profession or to take up a learning
/// opportunity, that results from a learning achievement.
#[derive(Debug)]
pub struct Entitlement {
    identifier: Identifier,
    title: Option<Text>,
    description: Option<Note>,
    issued_date: Option<CalendarDate>,
    expiry_date: Option<CalendarDate>,
    specified_by: Option<EntitlementSpecification>,
}

impl View for Entitlement {
    type V = EntitlementView;

    closed spec fn view(&self) -> EntitlementView {
        EntitlementView {
            identifier: self.identifier@,
            title: views(self.title),
            description: views(self.description),
            issued_date: views(self.issued_date),
            expiry_date: views(self.expiry_date),
            specified_by: views(self.specified_by),
        }
    }
}

impl Entitlement {
    #[verifier::type_invariant]
    spec fn sound(self) -> bool {
        self@.is_sound()
    }

    /// Assembles the entitlement from validated values.
    pub fn new(
        identifier: Identifier,
        title: Option<Text>,
        description: Option<Note>,
        issued_date: Option<CalendarDate>,
        expiry_date: Option<CalendarDate>,
        specified_by: Option<EntitlementSpecification>,
    ) -> (entity: Entitlement)
        ensures
            entity@ == (EntitlementView {
                identifier: identifier@,
                title: views(title),
                description: views(description),
                issued_date: views(issued_date),
                expiry_date: views(expiry_date),
                specified_by: views(specified_by),
            }),
            entity@.is_sound(),
    {
        match &specified_by {
            Some(inner) => {
                proof {
                    use_type_invariant(inner);
                }
            },
            None => {},
        }
        identifier.attest();
        Entitlement {
            identifier,
            title,
            description,
            issued_date,
            expiry_date,
            specified_by,
        }
    }

    /// Every value of this type may exist.
    pub fn attest(&self)
        ensures
            self@.is_sound(),
    {
        proof {
            use_type_invariant(self);
        }
    }

    /// The identifier of the entitlement.
    pub fn identifier(&self) -> (identifier: &Identifier)
        ensures
            identifier@ == self@.identifier,
    {
        &self.identifier
    }

    /// The title of the entitlement.
    pub fn title(&self) -> (title: &Option<Text>)
        ensures
            views(*title) == self@.title,
    {
        &self.title
    }

    /// A description of the rights that the holder has acquired.
    pub fn description(&self) -> (description: &Option<Note>)
        ensures
            views(*description) == self@.description,
    {
        &self.description
    }

    /// The day from which the entitlement holds.
    pub fn issued_date(&self) -> (issued_date: &Option<CalendarDate>)
        ensures
            views(*issued_date) == self@.issued_date,
    {
        &self.issued_date
    }

    /// The day until which the entitlement holds.
    pub fn expiry_date(&self) -> (expiry_date: &Option<CalendarDate>)
        ensures
            views(*expiry_date) == self@.expiry_date,
    {
        &self.expiry_date
    }

    /// The specification of the entitlement.
    pub fn specified_by(&self) -> (specified_by: &Option<EntitlementSpecification>)
        ensures
            views(*specified_by) == self@.specified_by,
    {
        &self.specified_by
    }
}

/// What a value of [`LearningAchievement`] says.
pub struct LearningAchievementView {
    pub identifier: IdentifierView,
    pub title: Option<TextView>,
    pub description: Option<NoteView>,
    pub additional_note: Option<NoteView>,
    pub was_derived_from: Option<AssessmentView>,
    pub was_awarded_by: Option<AwardingProcessView>,
    pub entitles_to: Option<EntitlementView>,
    pub specified_by: Option<LearningSpecificationView>,
}

impl LearningAchievementView {
    /// Whether the learning achievement may exist: its identifier is valid,
    /// every entity that it holds may exist.
    pub open spec fn is_sound(self) -> bool
    {
        &&& self.identifier.is_valid()
        &&& match self.was_derived_from {
            Some(inner) => inner.is_sound(),
            None => true,
        }
        &&& match self.was_awarded_by {
            Some(inner) => inner.is_sound(),
            None => true,
        }
        &&& match self.entitles_to {
            Some(inner) => inner.is_sound(),
            None => true,
        }
        &&& match self.specified_by {
            Some(inner) => inner.is_sound(),
            None => true,
        }
    }
}

/// A recognised and awarded set of learning outcomes of a person.
#[derive(Debug)]
pub struct LearningAchievement {
    identifier: Identifier,
    title: Option<Text>,
    description: Option<Note>,
    additional_note: Option<Note>,
    was_derived_from: Option<Assessment>,
    was_awarded_by: Option<AwardingProcess>,
    entitles_to: Option<Entitlement>,
    specified_by: Option<LearningSpecification>,
}

impl View for LearningAchievement {
    type V = LearningAchievementView;

    closed spec fn view(&self) -> LearningAchievementView {
        LearningAchievementView {
            identifier: self.identifier@,
            title: views(self.title),
            description: views(self.description),
            additional_note: views(self.additional_note),
            was_derived_from: views(self.was_derived_from),
            was_awarded_by: views(self.was_awarded_by),
            entitles_to: views(self.entitles_to),
            specified_by: views(self.specified_by),
        }
    }
}

impl LearningAchievement {
    #[verifier::type_invariant]
    spec fn sound(self) -> bool {
        self@.is_sound()
    }

    /// Assembles the learning achievement from validated values.
    pub fn new(
        identifier: Identifier,
        title: Option<Text>,
        description: Option<Note>,
        additional_note: Option<Note>,
        was_derived_from: Option<Assessment>,
        was_awarded_by: Option<AwardingProcess>,
        entitles_to: Option<Entitlement>,
        specified_by: Option<LearningSpecification>,
    ) -> (entity: LearningAchievement)
        ensures
            entity@ == (LearningAchievementView {
                identifier: identifier@,
                title: views(title),
                description: views(description),
                additional_note: views(additional_note),
                was_derived_from: views(was_derived_from),
                was_awarded_by: views(was_awarded_by),
                entitles_to: views(entitles_to),
                specified_by: views(specified_by),
            }),
            entity@.is_sound(),
    {
        match &was_derived_from {
            Some(inner) => {
                proof {
                    use_type_invariant(inner);
                }
            },
            None => {},
        }
        match &was_awarded_by {
            Some(inner) => {
                proof {
                    use_type_invariant(inner);
                }
            },
            None => {},
        }
        match &entitles_to {
            Some(inner) => {
                proof {
                    use_type_invariant(inner);
                }
            },
            None => {},
        }
        match &specified_by {
            Some(inner) => {
                proof {
                    use_type_invariant(inner);
                }
            },
            None => {},
        }
        identifier.attest();
        LearningAchievement {
            identifier,
            title,
            description,
            additional_note,
            was_derived_from,
            was_awarded_by,
            entitles_to,
            specified_by,
        }
    }

    /// Every value of this type may exist.
    pub fn attest(&self)
        ensures
            self@.is_sound(),
    {
        proof {
            use_type_invariant(self);
        }
    }

    /// The identifier of the learning achievement.
    pub fn identifier(&self) -> (identifier: &Identifier)
        ensures
            identifier@ == self@.identifier,
    {
        &self.identifier
    }

    /// The title of the achievement.
    pub fn title(&self) -> (title: &Option<Text>)
        ensures
            views(*title) == self@.title,
    {
        &self.title
    }

    /// A description of the achievement.
    pub fn description(&self) -> (description: &Option<Note>)
        ensures
            views(*description) == self@.description,
    {
        &self.description
    }

    /// A further note about the achievement.
    pub fn additional_note(&self) -> (additional_note: &Option<Note>)
        ensures
            views(*additional_note) == self@.additional_note,
    {
        &self.additional_note
    }

    /// The assessment that proves the learning outcomes.
    pub fn was_derived_from(&self) -> (was_derived_from: &Option<Assessment>)
        ensures
            views(*was_derived_from) == self@.was_derived_from,
    {
        &self.was_derived_from
    }

    /// The awarding of the achievement.
    pub fn was_awarded_by(&self) -> (was_awarded_by: &Option<AwardingProcess>)
        ensures
            views(*was_awarded_by) == self@.was_awarded_by,
    {
        &self.was_awarded_by
    }

    /// The entitlement that the achievement gives.
    pub fn entitles_to(&self) -> (entitles_to: &Option<Entitlement>)
        ensures
            views(*entitles_to) == self@.entitles_to,
    {
        &self.entitles_to
    }

    /// What has been learned.
    pub fn specified_by(&self) -> (specified_by: &Option<LearningSpecification>)
        ensures
            views(*specified_by) == self@.specified_by,
    {
        &self.specified_by
    }
}

/// What a value of [`Person`] says.
pub struct PersonView {
    pub identifier: IdentifierView,
    pub national_id: Option<Seq<char>>,
    pub full_name: Option<TextView>,
    pub given_names: Option<TextView>,
    pub family_name: Option<TextView>,
    pub date_of_birth: Option<(int, int, int)>,
    pub achieved: Option<LearningAchievementView>,
    pub entitled_to: Option<EntitlementView>,
}

impl PersonView {
    /// Whether the person may exist: its identifier is valid, every entity
    /// that it holds may exist.
    pub open spec fn is_sound(self) -> bool
    {
        &&& self.identifier.is_valid()
        &&& match self.achieved {
            Some(inner) => inner.is_sound(),
            None => true,
        }
        &&& match self.entitled_to {
            Some(inner) => inner.is_sound(),
            None => true,
        }
    }
}

/// A human being about whom claims are made.
#[derive(Debug)]
pub struct Person {
    identifier: Identifier,
    national_id: Option<String>,
    full_name: Option<Text>,
    given_names: Option<Text>,
    family_name: Option<Text>,
    date_of_birth: Option<CalendarDate>,
    achieved: Option<LearningAchievement>,
    entitled_to: Option<Entitlement>,
}

impl View for Person {
    type V = PersonView;

    closed spec fn view(&self) -> PersonView {
        PersonView {
            identifier: self.identifier@,
            national_id: views(self.national_id),
            full_name: views(self.full_name),
            given_names: views(self.given_names),
            family_name: views(self.family_name),
            date_of_birth: views(self.date_of_birth),
            achieved: views(self.achieved),
            entitled_to: views(self.entitled_to),
        }
    }
}

impl Person {
    #[verifier::type_invariant]
    spec fn sound(self) -> bool {
        self@.is_sound()
    }

    /// Assembles the person from validated values.
    pub fn new(
        identifier: Identifier,
        national_id: Option<String>,
        full_name: Option<Text>,
        given_names: Option<Text>,
        family_name: Option<Text>,
        date_of_birth: Option<CalendarDate>,
        achieved: Option<LearningAchievement>,
        entitled_to: Option<Entitlement>,
    ) -> (entity: Person)
        ensures
            entity@ == (PersonView {
                identifier: identifier@,
                national_id: views(national_id),
                full_name: views(full_name),
                given_names: views(given_names),
                family_name: views(family_name),
                date_of_birth: views(date_of_birth),
                achieved: views(achieved),
                entitled_to: views(entitled_to),
            }),
            entity@.is_sound(),
    {
        match &achieved {
            Some(inner) => {
                proof {
                    use_type_invariant(inner);
                }
            },
            None => {},
        }
        match &entitled_to {
            Some(inner) => {
                proof {
                    use_type_invariant(inner);
                }
            },
            None => {},
        }
        identifier.attest();
        Person {
            identifier,
            national_id,
            full_name,
            given_names,
            family_name,
            date_of_birth,
            achieved,
            entitled_to,
        }
    }

    /// Every value of this type may exist.
    pub fn attest(&self)
        ensures
            self@.is_sound(),
    {
        proof {
            use_type_invariant(self);
        }
    }

    /// The identifier of the person.
    pub fn identifier(&self) -> (identifier: &Identifier)
        ensures
            identifier@ == self@.identifier,
    {
        &self.identifier
    }

    /// The national identifier of the person.
    pub fn national_id(&self) -> (national_id: &Option<String>)
        ensures
            views(*national_id) == self@.national_id,
    {
        &self.national_id
    }

    /// The complete name of the person.
    pub fn full_name(&self) -> (full_name: &Option<Text>)
        ensures
            views(*full_name) == self@.full_name,
    {
        &self.full_name
    }

    /// The given names of the person.
    pub fn given_names(&self) -> (given_names: &Option<Text>)
        ensures
            views(*given_names) == self@.given_names,
    {
        &self.given_names
    }

    /// The family name of the person.
    pub fn family_name(&self) -> (family_name: &Option<Text>)
        ensures
            views(*family_name) == self@.family_name,
    {
        &self.family_name
    }

    /// The day on which the person was born.
    pub fn date_of_birth(&self) -> (date_of_birth: &Option<CalendarDate>)
        ensures
            views(*date_of_birth) == self@.date_of_birth,
    {
        &self.date_of_birth
    }

    /// An achievement of the person.
    pub fn achieved(&self) -> (achieved: &Option<LearningAchievement>)
        ensures
            views(*achieved) == self@.achieved,
    {
        &self.achieved
    }

    /// An entitlement of the person.
    pub fn entitled_to(&self) -> (entitled_to: &Option<Entitlement>)
        ensures
            views(*entitled_to) == self@.entitled_to,
    {
        &self.entitled_to
    }
}

/// What a value of [`EuropassCredential`] says.
pub struct EuropassCredentialView {
    pub identifier: IdentifierView,
    pub credential_type: CredentialType,
    pub title: TextView,
    pub description: Option<NoteView>,
    pub issuer: OrganisationView,
    pub credential_subject: PersonView,
    pub issuance_date: Option<(int, int, int)>,
    pub valid_from: Option<(int, int, int)>,
    pub expiration_date: Option<(int, int, int)>,
    pub status: Option<CodeView>,
    pub attachment: Option<EuropassAttachment>,
    pub credential_proof: Option<ProofView>,
    pub contains: Option<Box<EuropassCredentialView>>,
}

impl EuropassCredentialView {
    /// The keys of the credential and of those reached from it over
    /// `contains`, in order.
    pub open spec fn contains_chain(self) -> Seq<Key>
        decreases self,
    {
        match self.contains {
            Some(next) => seq![self.identifier.key()] + next.contains_chain(),
            None => seq![self.identifier.key()],
        }
    }

    /// Whether the credential may exist: its identifier is valid, every
    /// entity that it holds may exist, and no entity is reached twice over
    /// `contains`.
    pub open spec fn is_sound(self) -> bool
        decreases self,
    {
        &&& self.identifier.is_valid()
        &&& self.issuer.is_sound()
        &&& self.credential_subject.is_sound()
        &&& self.contains_chain().no_duplicates()
        &&& match self.contains {
            Some(next) => next.is_sound(),
            None => true,
        }
    }

    /// The relation over which an entity identified by `key` would reach
    /// itself again when given these entities to refer to: the first such
    /// relation, if there is one.
    pub open spec fn cycle_of(
        key: Key,
        contains: Option<EuropassCredentialView>,
    ) -> Option<Relation> {
        if contains is Some && contains->0.contains_chain().contains(key) {
            Some(Relation::Contains)
        } else {
            None
        }
    }
}

/// A set of claims made by an issuer about a person: that the person has
/// certain skills or has achieved certain learning outcomes.
#[derive(Debug)]
pub struct EuropassCredential {
    identifier: Identifier,
    credential_type: CredentialType,
    title: Text,
    description: Option<Note>,
    issuer: Organisation,
    credential_subject: Person,
    issuance_date: Option<CalendarDate>,
    valid_from: Option<CalendarDate>,
    expiration_date: Option<CalendarDate>,
    status: Option<Code>,
    attachment: Option<EuropassAttachment>,
    credential_proof: Option<Proof>,
    contains: Option<Box<EuropassCredential>>,
}

impl View for EuropassCredential {
    type V = EuropassCredentialView;

    closed spec fn view(&self) -> EuropassCredentialView
        decreases self,
    {
        EuropassCredentialView {
            identifier: self.identifier@,
            credential_type: self.credential_type,
            title: self.title@,
            description: views(self.description),
            issuer: self.issuer@,
            credential_subject: self.credential_subject@,
            issuance_date: views(self.issuance_date),
            valid_from: views(self.valid_from),
            expiration_date: views(self.expiration_date),
            status: views(self.status),
            attachment: self.attachment,
            credential_proof: views(self.credential_proof),
            contains: match self.contains {
                Some(next) => Some(Box::new((*next).view())),
                None => None,
            },
        }
    }
}

impl Linked for EuropassCredential {
    open spec fn key(&self) -> Key {
        self@.identifier.key()
    }

    open spec fn chain(&self, relation: Relation) -> Seq<Key> {
        match relation {
            Relation::Contains => self@.contains_chain(),
            _ => seq![self@.identifier.key()],
        }
    }

    fn identity(&self) -> &Identifier {
        &self.identifier
    }

    fn next(&self, relation: Relation) -> Option<&Self> {
        match relation {
            Relation::Contains => match &self.contains {
                Some(next) => Some(&**next),
                None => None,
            },
            _ => None,
        }
    }
}

impl EuropassCredential {
    #[verifier::type_invariant]
    spec fn sound(self) -> bool {
        self@.is_sound()
    }

    /// Assembles the credential from validated values. It is refused with
    /// `StructuralCycle` where the credential would reach itself again: where
    /// its identifier is that of an entity reached from `contains` over
    /// `contains`.
    pub fn new(
        identifier: Identifier,
        credential_type: CredentialType,
        title: Text,
        description: Option<Note>,
        issuer: Organisation,
        credential_subject: Person,
        issuance_date: Option<CalendarDate>,
        valid_from: Option<CalendarDate>,
        expiration_date: Option<CalendarDate>,
        status: Option<Code>,
        attachment: Option<EuropassAttachment>,
        credential_proof: Option<Proof>,
        contains: Option<EuropassCredential>,
    ) -> (made: Result<EuropassCredential, ModelError>)
        ensures
            match made {
                Ok(entity) => {
                    &&& EuropassCredentialView::cycle_of(
                        identifier@.key(),
                        views(contains),
                    ) is None
                    &&& entity@ == (EuropassCredentialView {
                        identifier: identifier@,
                        credential_type: credential_type,
                        title: title@,
                        description: views(description),
                        issuer: issuer@,
                        credential_subject: credential_subject@,
                        issuance_date: views(issuance_date),
                        valid_from: views(valid_from),
                        expiration_date: views(expiration_date),
                        status: views(status),
                        attachment: attachment,
                        credential_proof: views(credential_proof),
                        contains: boxed(views(contains)),
                    })
                    &&& entity@.is_sound()
                },
                Err(e) => {
                    &&& EuropassCredentialView::cycle_of(
                        identifier@.key(),
                        views(contains),
                    ) is Some
                    &&& e == (ModelError::StructuralCycle { relation: EuropassCredentialView::cycle_of(
                        identifier@.key(),
                        views(contains),
                    )->0 })
                },
            },
    {
        match &contains {
            Some(next) => {
                if reaches(next, Relation::Contains, &identifier) {
                    return Err(ModelError::StructuralCycle { relation: Relation::Contains });
                }
                proof {
                    use_type_invariant(next);
                    lemma_distinct_with_new_head(identifier@.key(), next@.contains_chain());
                }
            },
            None => {
                assert(seq![identifier@.key()].no_duplicates());
            },
        }
        proof {
            use_type_invariant(&issuer);
        }
        proof {
            use_type_invariant(&credential_subject);
        }
        identifier.attest();
        Ok(EuropassCredential {
            identifier,
            credential_type,
            title,
            description,
            issuer,
            credential_subject,
            issuance_date,
            valid_from,
            expiration_date,
            status,
            attachment,
            credential_proof,
            contains: match contains {
                Some(next) => Some(Box::new(next)),
                None => None,
            },
        })
    }

    /// Every value of this type may exist.
    pub fn attest(&self)
        ensures
            self@.is_sound(),
    {
        proof {
            use_type_invariant(self);
        }
    }

    /// The identifier of the credential.
    pub fn identifier(&self) -> (identifier: &Identifier)
        ensures
            identifier@ == self@.identifier,
    {
        &self.identifier
    }

    /// The type of the credential.
    pub fn credential_type(&self) -> (credential_type: CredentialType)
        ensures
            credential_type == self@.credential_type,
    {
        self.credential_type
    }

    /// The full official title of the credential.
    pub fn title(&self) -> (title: &Text)
        ensures
            title@ == self@.title,
    {
        &self.title
    }

    /// A summary of the claims that the credential makes.
    pub fn description(&self) -> (description: &Option<Note>)
        ensures
            views(*description) == self@.description,
    {
        &self.description
    }

    /// The organisation that issued the credential.
    pub fn issuer(&self) -> (issuer: &Organisation)
        ensures
            issuer@ == self@.issuer,
    {
        &self.issuer
    }

    /// The person about whom the claims are made.
    pub fn credential_subject(&self) -> (credential_subject: &Person)
        ensures
            credential_subject@ == self@.credential_subject,
    {
        &self.credential_subject
    }

    /// The day on which the credential was issued.
    pub fn issuance_date(&self) -> (issuance_date: &Option<CalendarDate>)
        ensures
            views(*issuance_date) == self@.issuance_date,
    {
        &self.issuance_date
    }

    /// The day from which the claims hold.
    pub fn valid_from(&self) -> (valid_from: &Option<CalendarDate>)
        ensures
            views(*valid_from) == self@.valid_from,
    {
        &self.valid_from
    }

    /// The day on which the credential expires.
    pub fn expiration_date(&self) -> (expiration_date: &Option<CalendarDate>)
        ensures
            views(*expiration_date) == self@.expiration_date,
    {
        &self.expiration_date
    }

    /// The state that the credential, as a document, is in.
    pub fn status(&self) -> (status: &Option<Code>)
        ensures
            views(*status) == self@.status,
    {
        &self.status
    }

    /// The format of a document attached to the credential.
    pub fn attachment(&self) -> (attachment: Option<EuropassAttachment>)
        ensures
            attachment == self@.attachment,
    {
        self.attachment
    }

    /// What comes with the credential once it is sealed.
    pub fn credential_proof(&self) -> (credential_proof: &Option<Proof>)
        ensures
            views(*credential_proof) == self@.credential_proof,
    {
        &self.credential_proof
    }

    /// A smaller credential that this one contains.
    pub fn contains(&self) -> (contains: Option<&EuropassCredential>)
        ensures
            self@.contains == boxed(views(contains)),
    {
        match &self.contains {
            Some(next) => Some(&**next),
            None => None,
        }
    }
}

/// No credential reaches itself again: the key of one that may exist is not
/// among the keys of those that it reaches over `contains`, and each of those
/// may exist too, so that the same holds of it.
pub proof fn law_europass_credential_never_reaches_itself(entity: EuropassCredentialView)
    requires
        entity.is_sound(),
    ensures
        !entity.contains_chain().skip(1).contains(entity.identifier.key()),
        entity.contains is Some ==> entity.contains->0.is_sound(),
{
    lemma_head_not_reached_again(entity.contains_chain());
}

} // verus!
