//! Ontology statements, as values the engine emits.
use vstd::prelude::*;
use vstd::string::StringExecFns;

verus! {

/// The value of an annotation: an IRI or a plain literal.
#[derive(Debug, Clone, PartialEq)]
pub enum AnnotationValue {
    Iri(String),
    Literal(String),
}

/// One statement of an ontology; every entity, class and property is named
/// by its IRI.
#[derive(Debug, Clone, PartialEq)]
pub enum Axiom {
    DeclareClass(String),
    DeclareNamedIndividual(String),
    DeclareObjectProperty(String),
    DeclareAnnotationProperty(String),
    ClassAssertion { class: String, individual: String },
    ObjectPropertyAssertion { property: String, subject: String, object: String },
    AnnotationAssertion { subject: String, property: String, value: AnnotationValue },
    OntologyAnnotation { property: String, value: AnnotationValue },
}

/// The mathematical value of an `AnnotationValue`.
pub enum ValueModel {
    Iri(Seq<char>),
    Literal(Seq<char>),
}

/// The mathematical value of an `Axiom`.
pub enum Statement {
    DeclareClass(Seq<char>),
    DeclareNamedIndividual(Seq<char>),
    DeclareObjectProperty(Seq<char>),
    DeclareAnnotationProperty(Seq<char>),
    ClassAssertion { class: Seq<char>, individual: Seq<char> },
    ObjectPropertyAssertion { property: Seq<char>, subject: Seq<char>, object: Seq<char> },
    AnnotationAssertion { subject: Seq<char>, property: Seq<char>, value: ValueModel },
    OntologyAnnotation { property: Seq<char>, value: ValueModel },
}

impl View for AnnotationValue {
    type V = ValueModel;

    open spec fn view(&self) -> ValueModel {
        match self {
            AnnotationValue::Iri(s) => ValueModel::Iri(s@),
            AnnotationValue::Literal(s) => ValueModel::Literal(s@),
        }
    }
}

impl View for Axiom {
    type V = Statement;

    open spec fn view(&self) -> Statement {
        match self {
            Axiom::DeclareClass(c) => Statement::DeclareClass(c@),
            Axiom::DeclareNamedIndividual(i) => Statement::DeclareNamedIndividual(i@),
            Axiom::DeclareObjectProperty(p) => Statement::DeclareObjectProperty(p@),
            Axiom::DeclareAnnotationProperty(p) => Statement::DeclareAnnotationProperty(p@),
            Axiom::ClassAssertion { class, individual } => Statement::ClassAssertion {
                class: class@,
                individual: individual@,
            },
            Axiom::ObjectPropertyAssertion { property, subject, object } =>
                Statement::ObjectPropertyAssertion {
                property: property@,
                subject: subject@,
                object: object@,
            },
            Axiom::AnnotationAssertion { subject, property, value } =>
                Statement::AnnotationAssertion {
                subject: subject@,
                property: property@,
                value: value@,
            },
            Axiom::OntologyAnnotation { property, value } => Statement::OntologyAnnotation {
                property: property@,
                value: value@,
            },
        }
    }
}

/// A declaration of `class` and the assertion that `individual` belongs to it.
pub open spec fn class_assertion_spec(class: Seq<char>, individual: Seq<char>) -> Seq<Statement> {
    seq![
        Statement::DeclareClass(class),
        Statement::ClassAssertion { class, individual },
    ]
}

/// A declaration of `property` and the assertion that it links `subject` to
/// `object`.
pub open spec fn relation_spec(property: Seq<char>, subject: Seq<char>, object: Seq<char>) -> Seq<
    Statement,
> {
    seq![
        Statement::DeclareObjectProperty(property),
        Statement::ObjectPropertyAssertion { property, subject, object },
    ]
}

/// An ordered collection of axioms.
#[derive(Debug)]
pub struct AxiomSet {
    pub items: Vec<Axiom>,
}

impl View for AxiomSet {
    type V = Seq<Statement>;

    open spec fn view(&self) -> Seq<Statement> {
        self.items@.map_values(|a: Axiom| a@)
    }
}

impl AxiomSet {
    pub fn new() -> (r: AxiomSet)
        ensures
            r@ == Seq::<Statement>::empty(),
    {
        let r = AxiomSet { items: Vec::new() };
        assert(r@ =~= Seq::<Statement>::empty());
        r
    }

    pub fn len(&self) -> (r: usize)
        ensures
            r == self@.len(),
    {
        self.items.len()
    }

    pub fn push(&mut self, a: Axiom)
        ensures
            final(self)@ == old(self)@.push(a@),
    {
        self.items.push(a);
        assert(self@ =~= old(self)@.push(a@));
    }

    /// Moves every axiom of `other` to the end of `self`.
    pub fn extend(&mut self, other: AxiomSet)
        ensures
            final(self)@ == old(self)@ + other@,
    {
        let mut other = other;
        let ghost o = other@;
        self.items.append(&mut other.items);
        assert(self@ =~= old(self)@ + o);
    }

    /// Appends the declaration of `class` and the assertion that `individual`
    /// belongs to it.
    pub fn add_class_assertion(&mut self, class: &str, individual: &str)
        ensures
            final(self)@ == old(self)@ + class_assertion_spec(class@, individual@),
    {
        self.push(Axiom::DeclareClass(String::from_str(class)));
        self.push(
            Axiom::ClassAssertion {
                class: String::from_str(class),
                individual: String::from_str(individual),
            },
        );
        assert(self@ =~= old(self)@ + class_assertion_spec(class@, individual@));
    }

    /// Appends the declaration of `property` and the assertion that it links
    /// `subject` to `object`.
    pub fn add_relation(&mut self, property: &str, subject: &str, object: &str)
        ensures
            final(self)@ == old(self)@ + relation_spec(property@, subject@, object@),
    {
        self.push(Axiom::DeclareObjectProperty(String::from_str(property)));
        self.push(
            Axiom::ObjectPropertyAssertion {
                property: String::from_str(property),
                subject: String::from_str(subject),
                object: String::from_str(object),
            },
        );
        assert(self@ =~= old(self)@ + relation_spec(property@, subject@, object@));
    }

    /// Appends the annotation of `subject` by `property` with the literal
    /// `text`.
    pub fn add_literal(&mut self, subject: &str, property: &str, text: &str)
        ensures
            final(self)@ == old(self)@.push(
                Statement::AnnotationAssertion {
                    subject: subject@,
                    property: property@,
                    value: ValueModel::Literal(text@),
                },
            ),
    {
        self.push(
            Axiom::AnnotationAssertion {
                subject: String::from_str(subject),
                property: String::from_str(property),
                value: AnnotationValue::Literal(String::from_str(text)),
            },
        );
    }
}

} // verus!
