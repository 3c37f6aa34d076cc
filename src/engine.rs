//! Classification of interactions into shapes, and the statements each shape
//! emits.
use vstd::prelude::*;
use vstd::string::StringExecFns;

use crate::idmap::{str_equal, IdMap};
use crate::model::{Actor, Reference, Taxon, AXN, IXN};
use crate::owl::{
    class_assertion_spec, relation_spec, AnnotationValue, Axiom, AxiomSet, Statement, ValueModel,
};
use crate::text::{dec, push_int, push_uint, replace, replace_all};
use crate::{
    class_map_spec, get_class_map, BINDING, COTREATMENT, HAS_INPUT, HAS_PARTICIPANT, PART_OF,
    PROCESS, PROVIDED_BY, CTD_ROOT, CAUSALLY_UPSTREAM_OF, CAUSALLY_UPSTREAM_OF_NEGATIVE_EFFECT,
    CAUSALLY_UPSTREAM_OF_POSITIVE_EFFECT, CHEBI, CHEMICAL_ENTITY, CTDIXN, DC_SOURCE, GENE_ENTITY,
    HAS_FORM, MESH, NCBIGENE, NCBI_TAXON, OCCURS_IN, PMID, RDFS_LABEL,
};

verus! {

/// Why an interaction could not be turned into statements.
#[derive(Debug, Clone, Copy, PartialEq, Eq, Structural)]
pub enum EngineError {
    /// A leaf actor is neither a chemical nor a gene.
    UnsupportedActorType,
    /// A degree code outside `1`, `+` and `-`.
    InvalidDegree(char),
    /// A shape that needs a degree has no action to take it from.
    MissingAction,
}

/// The entity of record `id` under the taxon at position `taxon_idx`.
pub open spec fn record_entity(id: i32, taxon_idx: nat) -> Seq<char> {
    CTDIXN@ + dec(id as int) + "#"@ + dec(taxon_idx as int)
}

/// The entity of an actor under the taxon at position `taxon_idx`.
pub open spec fn actor_entity(a: Actor, taxon_idx: nat) -> Seq<char> {
    CTDIXN@ + dec(a.parent_id as int) + "#"@ + dec(taxon_idx as int) + "-"@ + dec(
        a.position as int,
    )
}

/// The process entity derived from an entity.
pub open spec fn process_entity(e: Seq<char>) -> Seq<char> {
    e + "-process"@
}

/// The organism entity in which the interaction `e` occurs.
pub open spec fn organism_entity(e: Seq<char>) -> Seq<char> {
    e + "-organism"@
}

/// The `idx`-th effect entity that is part of the interaction `e`.
pub open spec fn effect_entity(e: Seq<char>, idx: nat) -> Seq<char> {
    e + "-target-"@ + dec(idx as int)
}

/// The IRI of the entity of record `id` under the taxon at `taxon_idx`.
pub fn record_entity_iri(id: i32, taxon_idx: usize) -> (r: String)
    ensures
        r@ == record_entity(id, taxon_idx as nat),
{
    let mut s = String::from_str(CTDIXN);
    push_int(&mut s, id as i64);
    s.append("#");
    push_uint(&mut s, taxon_idx as u64);
    s
}

/// The IRI of the entity of `a` under the taxon at `taxon_idx`.
pub fn actor_entity_iri(a: &Actor, taxon_idx: usize) -> (r: String)
    ensures
        r@ == actor_entity(*a, taxon_idx as nat),
{
    let mut s = String::from_str(CTDIXN);
    push_int(&mut s, a.parent_id as i64);
    s.append("#");
    push_uint(&mut s, taxon_idx as u64);
    s.append("-");
    push_int(&mut s, a.position as i64);
    s
}

fn suffixed(e: &str, suffix: &str) -> (r: String)
    ensures
        r@ == e@ + suffix@,
{
    let mut s = String::from_str(e);
    s.append(suffix);
    s
}

/// A label annotation on `subject`.
pub open spec fn label_spec(subject: Seq<char>, text: Seq<char>) -> Statement {
    Statement::AnnotationAssertion {
        subject,
        property: RDFS_LABEL@,
        value: ValueModel::Literal(text),
    }
}

/// Whether the actor is a chemical.
pub open spec fn is_chemical(a: Actor) -> bool {
    a.actor_type@ == "chemical"@
}

/// Whether the actor is a gene.
pub open spec fn is_gene(a: Actor) -> bool {
    a.actor_type@ == "gene"@
}

/// Whether the actor is a nested interaction.
pub open spec fn is_composite(a: Actor) -> bool {
    a.actor_type@ == "ixn"@
}

/// The class of a chemical or gene actor. A chemical id absent from the
/// resolver is read as a MeSH id.
pub open spec fn leaf_class(a: Actor, resolver: Map<Seq<char>, Seq<char>>) -> Seq<char> {
    if is_chemical(a) {
        if resolver.contains_key(a.id@) {
            replace_all(resolver[a.id@], "CHEBI:"@, CHEBI@)
        } else {
            replace_all(a.id@, "MESH:"@, MESH@)
        }
    } else {
        replace_all(a.id@, "GENE:"@, NCBIGENE@)
    }
}

/// The category of a chemical or gene actor.
pub open spec fn leaf_category(a: Actor) -> Seq<char> {
    if is_chemical(a) {
        CHEMICAL_ENTITY@
    } else {
        GENE_ENTITY@
    }
}

/// The text of an optional string, empty when absent.
pub open spec fn text_or_empty(o: Option<String>) -> Seq<char> {
    match o {
        Some(t) => t@,
        None => seq![],
    }
}

/// The display text of a chemical or gene actor; a gene without one is shown
/// by its sequence id.
pub open spec fn leaf_text(a: Actor) -> Seq<char> {
    if is_chemical(a) {
        text_or_empty(a.text)
    } else {
        match a.text {
            Some(t) => t@,
            None => text_or_empty(a.seq_id),
        }
    }
}

/// The label of the entity of a chemical or gene actor.
pub open spec fn leaf_label(a: Actor) -> Seq<char> {
    leaf_text(a) + "#"@ + dec(a.parent_id as int) + "-"@ + dec(a.position as int)
}

/// The form annotation of an entity, if the actor has a form.
pub open spec fn form_spec(e: Seq<char>, form: Option<String>) -> Seq<Statement> {
    match form {
        Some(f) => seq![
            Statement::DeclareAnnotationProperty(HAS_FORM@),
            Statement::AnnotationAssertion {
                subject: e,
                property: HAS_FORM@,
                value: ValueModel::Literal(f@),
            },
        ],
        None => seq![],
    }
}

/// The statements that describe a chemical or gene actor.
pub open spec fn leaf_spec(a: Actor, taxon_idx: nat, resolver: Map<Seq<char>, Seq<char>>) -> Seq<
    Statement,
> {
    let e = actor_entity(a, taxon_idx);
    let c = leaf_class(a, resolver);
    seq![Statement::DeclareNamedIndividual(e)] + class_assertion_spec(c, e) + seq![
        label_spec(c, leaf_text(a)),
    ] + class_assertion_spec(leaf_category(a), e) + seq![label_spec(e, leaf_label(a))]
        + form_spec(e, a.form)
}

fn text_of(o: &Option<String>) -> (r: String)
    ensures
        r@ == text_or_empty(*o),
{
    match o {
        Some(t) => t.clone(),
        None => String::new(),
    }
}

/// The entity of a chemical or gene actor and the statements that describe
/// it; an actor of another kind is refused.
pub fn get_local_individual_and_axioms(actor: &Actor, taxon_idx: usize, resolver: &IdMap) -> (r:
    Result<(String, AxiomSet), EngineError>)
    requires
        resolver.wf(),
    ensures
        match r {
            Ok((e, s)) => (is_chemical(*actor) || is_gene(*actor)) && e@ == actor_entity(
                *actor,
                taxon_idx as nat,
            ) && s@ == leaf_spec(*actor, taxon_idx as nat, resolver@),
            Err(err) => !is_chemical(*actor) && !is_gene(*actor) && err
                == EngineError::UnsupportedActorType,
        },
{
    let chemical = str_equal(actor.actor_type.as_str(), "chemical");
    let gene = str_equal(actor.actor_type.as_str(), "gene");
    if !chemical && !gene {
        return Err(EngineError::UnsupportedActorType);
    }
    proof {
        reveal_strlit("CHEBI:");
        reveal_strlit("MESH:");
        reveal_strlit("GENE:");
    }
    let (class, category, text) = if chemical {
        let class = match resolver.get(actor.id.as_str()) {
            Some(c) => replace(c.as_str(), "CHEBI:", CHEBI),
            None => replace(actor.id.as_str(), "MESH:", MESH),
        };
        (class, CHEMICAL_ENTITY, text_of(&actor.text))
    } else {
        let text = match &actor.text {
            Some(t) => t.clone(),
            None => text_of(&actor.seq_id),
        };
        (replace(actor.id.as_str(), "GENE:", NCBIGENE), GENE_ENTITY, text)
    };
    let mut label = text.clone();
    label.append("#");
    push_int(&mut label, actor.parent_id as i64);
    label.append("-");
    push_int(&mut label, actor.position as i64);

    let e = actor_entity_iri(actor, taxon_idx);
    let mut s = AxiomSet::new();
    s.push(Axiom::DeclareNamedIndividual(e.clone()));
    s.add_class_assertion(class.as_str(), e.as_str());
    s.add_literal(class.as_str(), RDFS_LABEL, text.as_str());
    s.add_class_assertion(category, e.as_str());
    s.add_literal(e.as_str(), RDFS_LABEL, label.as_str());
    match &actor.form {
        Some(f) => {
            s.push(Axiom::DeclareAnnotationProperty(String::from_str(HAS_FORM)));
            s.add_literal(e.as_str(), HAS_FORM, f.as_str());
        },
        None => {},
    }
    assert(s@ =~= leaf_spec(*actor, taxon_idx as nat, resolver@));
    Ok((e, s))
}

/// The literature-source annotation of the interaction `e` for one reference.
pub open spec fn source_spec(e: Seq<char>, r: Reference) -> Statement {
    Statement::AnnotationAssertion {
        subject: e,
        property: DC_SOURCE@,
        value: ValueModel::Iri(PMID@ + "/"@ + dec(r.pm_id as int)),
    }
}

/// The statements attached once to every finished interaction entity `e`: its
/// literature sources, and the organism of the taxon in which it occurs.
pub open spec fn remnants_spec(ixn: IXN, taxon: Taxon, e: Seq<char>) -> Seq<Statement> {
    let o = organism_entity(e);
    seq![Statement::DeclareAnnotationProperty(DC_SOURCE@)] + ixn.reference@.map_values(
        |r: Reference| source_spec(e, r),
    ) + class_assertion_spec(NCBI_TAXON@ + dec(taxon.id as int), o) + seq![
        label_spec(o, taxon.text@ + "#"@ + dec(ixn.id as int)),
        Statement::DeclareObjectProperty(OCCURS_IN@),
        Statement::DeclareNamedIndividual(o),
        Statement::ObjectPropertyAssertion { property: OCCURS_IN@, subject: e, object: o },
    ]
}

/// The literature sources and the organism of the interaction `e`.
pub fn add_remnants(ixn: &IXN, taxon: &Taxon, e: &str) -> (r: AxiomSet)
    ensures
        r@ == remnants_spec(*ixn, *taxon, e@),
{
    let mut s = AxiomSet::new();
    s.push(Axiom::DeclareAnnotationProperty(String::from_str(DC_SOURCE)));
    let mut i: usize = 0;
    while i < ixn.reference.len()
        invariant
            0 <= i <= ixn.reference@.len(),
            s@ == seq![Statement::DeclareAnnotationProperty(DC_SOURCE@)]
                + ixn.reference@.subrange(0, i as int).map_values(
                |r: Reference| source_spec(e@, r),
            ),
        decreases ixn.reference.len() - i,
    {
        let mut iri = String::from_str(PMID);
        iri.append("/");
        push_int(&mut iri, ixn.reference[i].pm_id as i64);
        s.push(
            Axiom::AnnotationAssertion {
                subject: String::from_str(e),
                property: String::from_str(DC_SOURCE),
                value: AnnotationValue::Iri(iri),
            },
        );
        assert(ixn.reference@.subrange(0, i + 1) =~= ixn.reference@.subrange(0, i as int).push(
            ixn.reference@[i as int],
        ));
        i = i + 1;
        assert(s@ =~= seq![Statement::DeclareAnnotationProperty(DC_SOURCE@)]
            + ixn.reference@.subrange(0, i as int).map_values(|r: Reference| source_spec(e@, r)));
    }
    assert(ixn.reference@.subrange(0, i as int) =~= ixn.reference@);
    let o = suffixed(e, "-organism");
    let mut taxon_class = String::from_str(NCBI_TAXON);
    push_int(&mut taxon_class, taxon.id as i64);
    s.add_class_assertion(taxon_class.as_str(), o.as_str());
    let mut label = taxon.text.clone();
    label.append("#");
    push_int(&mut label, ixn.id as i64);
    s.add_literal(o.as_str(), RDFS_LABEL, label.as_str());
    s.push(Axiom::DeclareObjectProperty(String::from_str(OCCURS_IN)));
    s.push(Axiom::DeclareNamedIndividual(o.clone()));
    s.push(
        Axiom::ObjectPropertyAssertion {
            property: String::from_str(OCCURS_IN),
            subject: String::from_str(e),
            object: o,
        },
    );
    assert(s@ =~= remnants_spec(*ixn, *taxon, e@));
    s
}

/// The causal relation that a degree code selects.
pub open spec fn degree_relation(degree: char) -> Option<Seq<char>> {
    if degree == '1' {
        Some(CAUSALLY_UPSTREAM_OF@)
    } else if degree == '+' {
        Some(CAUSALLY_UPSTREAM_OF_POSITIVE_EFFECT@)
    } else if degree == '-' {
        Some(CAUSALLY_UPSTREAM_OF_NEGATIVE_EFFECT@)
    } else {
        None
    }
}

/// The causal relation that a degree code selects; other codes are refused.
pub fn process_to_process(degree: char) -> (r: Result<&'static str, EngineError>)
    ensures
        match r {
            Ok(p) => degree_relation(degree) == Some(p@),
            Err(e) => degree_relation(degree) is None && e == EngineError::InvalidDegree(degree),
        },
{
    if degree == '1' {
        Ok(CAUSALLY_UPSTREAM_OF)
    } else if degree == '+' {
        Ok(CAUSALLY_UPSTREAM_OF_POSITIVE_EFFECT)
    } else if degree == '-' {
        Ok(CAUSALLY_UPSTREAM_OF_NEGATIVE_EFFECT)
    } else {
        Err(EngineError::InvalidDegree(degree))
    }
}


/// The shapes an interaction can take, in the order in which they are tried.
#[derive(Debug, Clone, Copy, PartialEq, Eq, Structural)]
pub enum Shape {
    /// Every action is a co-treatment and no actor is nested.
    CoTreatment,
    /// Every action is a binding and no actor is nested.
    Binding,
    /// Every action is a reaction, on two actors of which the second is nested.
    Reaction,
    /// Some action is an effect, on two actors of which the second is not nested.
    CausalAction,
}

/// Whether an action code names an effect that makes an interaction a causal
/// action. The codes `abu`, `ace` and `fol` have a class but do not make one.
pub open spec fn is_effect_code(c: Seq<char>) -> bool {
    c == "act"@
        || c == "pho"@
        || c == "exp"@
        || c == "myl"@
        || c == "sec"@
        || c == "loc"@
        || c == "clv"@
        || c == "mut"@
        || c == "deg"@
        || c == "spl"@
        || c == "rec"@
        || c == "sta"@
        || c == "met"@
        || c == "oxd"@
        || c == "ubq"@
        || c == "nit"@
        || c == "upt"@
        || c == "red"@
        || c == "alk"@
        || c == "sum"@
        || c == "gyc"@
        || c == "trt"@
        || c == "glc"@
        || c == "csy"@
        || c == "hdx"@
}

/// Whether an action code names an effect that makes an interaction a causal
/// action.
pub fn effect_code(c: &str) -> (r: bool)
    ensures
        r == is_effect_code(c@),
{
    str_equal(c, "act")
        || str_equal(c, "pho")
        || str_equal(c, "exp")
        || str_equal(c, "myl")
        || str_equal(c, "sec")
        || str_equal(c, "loc")
        || str_equal(c, "clv")
        || str_equal(c, "mut")
        || str_equal(c, "deg")
        || str_equal(c, "spl")
        || str_equal(c, "rec")
        || str_equal(c, "sta")
        || str_equal(c, "met")
        || str_equal(c, "oxd")
        || str_equal(c, "ubq")
        || str_equal(c, "nit")
        || str_equal(c, "upt")
        || str_equal(c, "red")
        || str_equal(c, "alk")
        || str_equal(c, "sum")
        || str_equal(c, "gyc")
        || str_equal(c, "trt")
        || str_equal(c, "glc")
        || str_equal(c, "csy")
        || str_equal(c, "hdx")
}

/// Whether every action has the code `c`.
pub open spec fn all_codes(axns: Seq<AXN>, c: Seq<char>) -> bool {
    forall|i: int| 0 <= i < axns.len() ==> (#[trigger] axns[i]).code@ == c
}

/// Whether some actor is nested.
pub open spec fn any_composite(actors: Seq<Actor>) -> bool {
    exists|i: int| 0 <= i < actors.len() && is_composite(#[trigger] actors[i])
}

/// Whether some action names an effect.
pub open spec fn any_effect(axns: Seq<AXN>) -> bool {
    exists|i: int| 0 <= i < axns.len() && is_effect_code((#[trigger] axns[i]).code@)
}

/// Whether the condition of a shape holds of the actions and actors.
pub open spec fn rule_holds(shape: Shape, axns: Seq<AXN>, actors: Seq<Actor>) -> bool {
    match shape {
        Shape::CoTreatment => all_codes(axns, "w"@) && !any_composite(actors),
        Shape::Binding => all_codes(axns, "b"@) && !any_composite(actors),
        Shape::Reaction => all_codes(axns, "rxn"@) && actors.len() == 2 && is_composite(actors[1]),
        Shape::CausalAction => any_effect(axns) && actors.len() == 2 && !is_composite(actors[1]),
    }
}

/// The first shape, in order, whose condition holds.
pub open spec fn classify_spec(axns: Seq<AXN>, actors: Seq<Actor>) -> Option<Shape> {
    if rule_holds(Shape::CoTreatment, axns, actors) {
        Some(Shape::CoTreatment)
    } else if rule_holds(Shape::Binding, axns, actors) {
        Some(Shape::Binding)
    } else if rule_holds(Shape::Reaction, axns, actors) {
        Some(Shape::Reaction)
    } else if rule_holds(Shape::CausalAction, axns, actors) {
        Some(Shape::CausalAction)
    } else {
        None
    }
}

fn has_all_codes(axns: &Vec<AXN>, c: &str) -> (r: bool)
    ensures
        r == all_codes(axns@, c@),
{
    let mut i: usize = 0;
    while i < axns.len()
        invariant
            0 <= i <= axns@.len(),
            forall|j: int| 0 <= j < i ==> (#[trigger] axns@[j]).code@ == c@,
        decreases axns.len() - i,
    {
        if !str_equal(axns[i].code.as_str(), c) {
            return false;
        }
        i = i + 1;
    }
    true
}

fn has_effect(axns: &Vec<AXN>) -> (r: bool)
    ensures
        r == any_effect(axns@),
{
    let mut i: usize = 0;
    while i < axns.len()
        invariant
            0 <= i <= axns@.len(),
            forall|j: int| 0 <= j < i ==> !is_effect_code((#[trigger] axns@[j]).code@),
        decreases axns.len() - i,
    {
        if effect_code(axns[i].code.as_str()) {
            return true;
        }
        i = i + 1;
    }
    false
}

fn composite(a: &Actor) -> (r: bool)
    ensures
        r == is_composite(*a),
{
    str_equal(a.actor_type.as_str(), "ixn")
}

fn has_composite(actors: &Vec<Actor>) -> (r: bool)
    ensures
        r == any_composite(actors@),
{
    let mut i: usize = 0;
    while i < actors.len()
        invariant
            0 <= i <= actors@.len(),
            forall|j: int| 0 <= j < i ==> !is_composite(#[trigger] actors@[j]),
        decreases actors.len() - i,
    {
        if composite(&actors[i]) {
            return true;
        }
        i = i + 1;
    }
    false
}

/// The shape of an interaction: the first, in order, whose condition holds.
pub fn classify(axns: &Vec<AXN>, actors: &Vec<Actor>) -> (r: Option<Shape>)
    ensures
        r == classify_spec(axns@, actors@),
{
    let nested = has_composite(actors);
    if has_all_codes(axns, "w") && !nested {
        Some(Shape::CoTreatment)
    } else if has_all_codes(axns, "b") && !nested {
        Some(Shape::Binding)
    } else if has_all_codes(axns, "rxn") && actors.len() == 2 && composite(&actors[1]) {
        Some(Shape::Reaction)
    } else if has_effect(axns) && actors.len() == 2 && !composite(&actors[1]) {
        Some(Shape::CausalAction)
    } else {
        None
    }
}


/// The process entity of the actor entity `se`, and its link to `se`.
pub open spec fn subject_process_spec(se: Seq<char>) -> Seq<Statement> {
    let p = process_entity(se);
    seq![Statement::DeclareNamedIndividual(se), Statement::DeclareNamedIndividual(p)]
        + class_assertion_spec(PROCESS@, p) + relation_spec(HAS_PARTICIPANT@, p, se)
}

/// The statements for the first `n` actors of a co-treatment or binding `e`:
/// each actor's description and its input edge from `e`.
pub open spec fn inputs_spec(
    actors: Seq<Actor>,
    n: int,
    taxon_idx: nat,
    resolver: Map<Seq<char>, Seq<char>>,
    e: Seq<char>,
) -> Result<Seq<Statement>, EngineError>
    decreases n,
{
    if n <= 0 {
        Ok(seq![])
    } else {
        match inputs_spec(actors, n - 1, taxon_idx, resolver, e) {
            Err(x) => Err(x),
            Ok(s) => {
                let a = actors[n - 1];
                if is_chemical(a) || is_gene(a) {
                    Ok(s + leaf_spec(a, taxon_idx, resolver) + relation_spec(
                        HAS_INPUT@,
                        e,
                        actor_entity(a, taxon_idx),
                    ))
                } else {
                    Err(EngineError::UnsupportedActorType)
                }
            },
        }
    }
}

/// The statements of a co-treatment or binding `e`, typed by `class`.
pub open spec fn group_spec(
    ixn: IXN,
    taxon_idx: nat,
    taxon: Taxon,
    resolver: Map<Seq<char>, Seq<char>>,
    e: Seq<char>,
    actors: Seq<Actor>,
    class: Seq<char>,
) -> Result<Option<Seq<Statement>>, EngineError> {
    match inputs_spec(actors, actors.len() as int, taxon_idx, resolver, e) {
        Err(x) => Err(x),
        Ok(s) => Ok(Some(s + class_assertion_spec(class, e) + remnants_spec(ixn, taxon, e))),
    }
}

/// How many of the first `n` actions have a code with a class.
pub open spec fn kept_count(axns: Seq<AXN>, n: int) -> nat
    decreases n,
{
    if n <= 0 {
        0
    } else {
        kept_count(axns, n - 1) + if class_map_spec().contains_key(axns[n - 1].code@) {
            1nat
        } else {
            0nat
        }
    }
}

/// One effect entity `le` of class `cls`: it has the target `te` as
/// participant, the process `p` is causally upstream of it, and it is part of
/// the interaction `e`.
pub open spec fn effect_block(
    cls: Seq<char>,
    le: Seq<char>,
    p: Seq<char>,
    te: Seq<char>,
    e: Seq<char>,
    rel: Seq<char>,
) -> Seq<Statement> {
    class_assertion_spec(cls, le) + seq![
        Statement::DeclareNamedIndividual(le),
        Statement::ObjectPropertyAssertion { property: HAS_PARTICIPANT@, subject: le, object: te },
    ] + relation_spec(rel, p, le) + relation_spec(PART_OF@, le, e)
}

/// The effect entities for the first `n` actions whose code has a class,
/// numbered from zero.
pub open spec fn effects_spec(
    axns: Seq<AXN>,
    n: int,
    e: Seq<char>,
    p: Seq<char>,
    te: Seq<char>,
    rel: Seq<char>,
) -> Seq<Statement>
    decreases n,
{
    if n <= 0 {
        seq![]
    } else {
        let c = axns[n - 1].code@;
        effects_spec(axns, n - 1, e, p, te, rel) + if class_map_spec().contains_key(c) {
            effect_block(
                class_map_spec()[c],
                effect_entity(e, kept_count(axns, n - 1)),
                p,
                te,
                e,
                rel,
            )
        } else {
            seq![]
        }
    }
}

/// The statements of a chemical or gene actor, or a refusal for another
/// kind.
pub open spec fn leaf_result(a: Actor, taxon_idx: nat, resolver: Map<Seq<char>, Seq<char>>) -> Result<
    Option<Seq<Statement>>,
    EngineError,
> {
    if is_chemical(a) || is_gene(a) {
        Ok(Some(leaf_spec(a, taxon_idx, resolver)))
    } else {
        Err(EngineError::UnsupportedActorType)
    }
}

/// The statements that an interaction `e` made of `axns` and `actors` emits,
/// `None` when no shape fits, or the error that stops it.
pub open spec fn process_spec(
    ixn: IXN,
    taxon_idx: nat,
    taxon: Taxon,
    resolver: Map<Seq<char>, Seq<char>>,
    e: Seq<char>,
    axns: Seq<AXN>,
    actors: Vec<Actor>,
) -> Result<Option<Seq<Statement>>, EngineError>
    decreases actors,
{
    match classify_spec(axns, actors@) {
        None => Ok(None),
        Some(Shape::CoTreatment) => group_spec(
            ixn,
            taxon_idx,
            taxon,
            resolver,
            e,
            actors@,
            COTREATMENT@,
        ),
        Some(Shape::Binding) => group_spec(ixn, taxon_idx, taxon, resolver, e, actors@, BINDING@),
        Some(shape) => {
            if axns.len() == 0 {
                Err(EngineError::MissingAction)
            } else {
                match degree_relation(axns[0].degree_code) {
                    None => Err(EngineError::InvalidDegree(axns[0].degree_code)),
                    Some(rel) => {
                        let s0 = actors[0];
                        let se = actor_entity(s0, taxon_idx);
                        let subject = if is_composite(s0) {
                            process_spec(ixn, taxon_idx, taxon, resolver, se, s0.axns@, s0.actors)
                        } else {
                            leaf_result(s0, taxon_idx, resolver)
                        };
                        let target = actors[1];
                        let te = actor_entity(target, taxon_idx);
                        match subject {
                            Err(x) => Err(x),
                            Ok(None) => Ok(None),
                            Ok(Some(ss)) => if shape == Shape::Reaction {
                                match process_spec(
                                    ixn,
                                    taxon_idx,
                                    taxon,
                                    resolver,
                                    te,
                                    target.axns@,
                                    target.actors,
                                ) {
                                    Err(x) => Err(x),
                                    Ok(None) => Ok(None),
                                    Ok(Some(ts)) => Ok(
                                        Some(
                                            ts + ss + subject_process_spec(se)
                                                + class_assertion_spec(PROCESS@, e)
                                                + relation_spec(PART_OF@, te, e) + relation_spec(
                                                rel,
                                                process_entity(se),
                                                te,
                                            ) + remnants_spec(ixn, taxon, e),
                                        ),
                                    ),
                                }
                            } else {
                                match leaf_result(target, taxon_idx, resolver) {
                                    Ok(Some(ts)) => Ok(
                                        Some(
                                            subject_process_spec(se) + ss + ts + effects_spec(
                                                axns,
                                                axns.len() as int,
                                                e,
                                                process_entity(se),
                                                te,
                                                rel,
                                            ) + remnants_spec(ixn, taxon, e),
                                        ),
                                    ),
                                    _ => Err(EngineError::UnsupportedActorType),
                                }
                            },
                        }
                    },
                }
            }
        },
    }
}

/// Whether an outcome of the engine for the entity `e` agrees with `expected`.
pub open spec fn outcome_matches(
    r: Result<Option<(String, AxiomSet)>, EngineError>,
    e: Seq<char>,
    expected: Result<Option<Seq<Statement>>, EngineError>,
) -> bool {
    match r {
        Ok(Some((x, s))) => x@ == e && expected == Ok::<Option<Seq<Statement>>, EngineError>(
            Some(s@),
        ),
        Ok(None) => expected == Ok::<Option<Seq<Statement>>, EngineError>(None),
        Err(x) => expected == Err::<Option<Seq<Statement>>, EngineError>(x),
    }
}


proof fn lemma_inputs_err_stays(
    actors: Seq<Actor>,
    n: int,
    m: int,
    taxon_idx: nat,
    resolver: Map<Seq<char>, Seq<char>>,
    e: Seq<char>,
)
    requires
        0 <= n <= m,
        inputs_spec(actors, n, taxon_idx, resolver, e) is Err,
    ensures
        inputs_spec(actors, m, taxon_idx, resolver, e) == inputs_spec(
            actors,
            n,
            taxon_idx,
            resolver,
            e,
        ),
    decreases m - n,
{
    if m > n {
        lemma_inputs_err_stays(actors, n, m - 1, taxon_idx, resolver, e);
    }
}

fn emit_group(
    ixn: &IXN,
    taxon_idx: usize,
    taxon: &Taxon,
    e: &str,
    resolver: &IdMap,
    actors: &Vec<Actor>,
    class: &str,
) -> (r: Result<AxiomSet, EngineError>)
    requires
        resolver.wf(),
    ensures
        match r {
            Ok(s) => group_spec(*ixn, taxon_idx as nat, *taxon, resolver@, e@, actors@, class@)
                == Ok::<Option<Seq<Statement>>, EngineError>(Some(s@)),
            Err(x) => group_spec(*ixn, taxon_idx as nat, *taxon, resolver@, e@, actors@, class@)
                == Err::<Option<Seq<Statement>>, EngineError>(x),
        },
{
    let mut s = AxiomSet::new();
    let mut i: usize = 0;
    while i < actors.len()
        invariant
            resolver.wf(),
            0 <= i <= actors@.len(),
            inputs_spec(actors@, i as int, taxon_idx as nat, resolver@, e@) == Ok::<
                Seq<Statement>,
                EngineError,
            >(s@),
        decreases actors.len() - i,
    {
        match get_local_individual_and_axioms(&actors[i], taxon_idx, resolver) {
            Ok((ae, leaf)) => {
                s.extend(leaf);
                s.add_relation(HAS_INPUT, e, ae.as_str());
            },
            Err(x) => {
                proof {
                    lemma_inputs_err_stays(
                        actors@,
                        i + 1,
                        actors@.len() as int,
                        taxon_idx as nat,
                        resolver@,
                        e@,
                    );
                }
                return Err(x);
            },
        }
        i = i + 1;
    }
    s.add_class_assertion(class, e);
    s.extend(add_remnants(ixn, taxon, e));
    Ok(s)
}

fn emit_effects(
    axns: &Vec<AXN>,
    e: &str,
    p: &str,
    te: &str,
    rel: &str,
) -> (r: AxiomSet)
    ensures
        r@ == effects_spec(axns@, axns@.len() as int, e@, p@, te@, rel@),
{
    let class_map = get_class_map();
    let mut s = AxiomSet::new();
    let mut kept: usize = 0;
    let mut i: usize = 0;
    while i < axns.len()
        invariant
            class_map.wf(),
            class_map@ == class_map_spec(),
            0 <= kept <= i <= axns@.len(),
            kept == kept_count(axns@, i as int),
            s@ == effects_spec(axns@, i as int, e@, p@, te@, rel@),
        decreases axns.len() - i,
    {
        match class_map.get(axns[i].code.as_str()) {
            Some(cls) => {
                let mut le = String::from_str(e);
                le.append("-target-");
                push_uint(&mut le, kept as u64);
                s.add_class_assertion(cls.as_str(), le.as_str());
                s.push(Axiom::DeclareNamedIndividual(le.clone()));
                s.push(
                    Axiom::ObjectPropertyAssertion {
                        property: String::from_str(HAS_PARTICIPANT),
                        subject: le.clone(),
                        object: String::from_str(te),
                    },
                );
                s.add_relation(rel, p, le.as_str());
                s.add_relation(PART_OF, le.as_str(), e);
                kept = kept + 1;
            },
            None => {},
        }
        i = i + 1;
        assert(s@ =~= effects_spec(axns@, i as int, e@, p@, te@, rel@));
    }
    s
}

/// Classifies the interaction `entity`, made of `axns` and `actors`, and emits
/// the statements of its shape: `None` when no shape fits. A nested actor is
/// classified in turn, as the interaction named by its own entity.
pub fn process_actor(
    ixn: &IXN,
    taxon_idx: usize,
    taxon: &Taxon,
    entity: &str,
    resolver: &IdMap,
    axns: &Vec<AXN>,
    actors: &Vec<Actor>,
) -> (r: Result<Option<(String, AxiomSet)>, EngineError>)
    requires
        resolver.wf(),
    ensures
        outcome_matches(
            r,
            entity@,
            process_spec(*ixn, taxon_idx as nat, *taxon, resolver@, entity@, axns@, *actors),
        ),
    decreases actors,
{
    let shape = classify(axns, actors);
    let shape = match shape {
        None => {
            return Ok(None);
        },
        Some(Shape::CoTreatment) => {
            return match emit_group(ixn, taxon_idx, taxon, entity, resolver, actors, COTREATMENT) {
                Ok(s) => Ok(Some((String::from_str(entity), s))),
                Err(x) => Err(x),
            };
        },
        Some(Shape::Binding) => {
            return match emit_group(ixn, taxon_idx, taxon, entity, resolver, actors, BINDING) {
                Ok(s) => Ok(Some((String::from_str(entity), s))),
                Err(x) => Err(x),
            };
        },
        Some(shape) => shape,
    };
    if axns.len() == 0 {
        return Err(EngineError::MissingAction);
    }
    let rel = match process_to_process(axns[0].degree_code) {
        Ok(rel) => rel,
        Err(x) => {
            return Err(x);
        },
    };
    let s0 = &actors[0];
    let subject = if composite(s0) {
        let se = actor_entity_iri(s0, taxon_idx);
        process_actor(ixn, taxon_idx, taxon, se.as_str(), resolver, &s0.axns, &s0.actors)
    } else {
        match get_local_individual_and_axioms(s0, taxon_idx, resolver) {
            Ok((se, ss)) => Ok(Some((se, ss))),
            Err(x) => Err(x),
        }
    };
    let (se, ss) = match subject {
        Ok(Some(found)) => found,
        Ok(None) => {
            return Ok(None);
        },
        Err(x) => {
            return Err(x);
        },
    };
    let p = suffixed(se.as_str(), "-process");
    let target = &actors[1];
    let mut s = AxiomSet::new();
    if shape == Shape::Reaction {
        let te = actor_entity_iri(target, taxon_idx);
        let ts = match process_actor(
            ixn,
            taxon_idx,
            taxon,
            te.as_str(),
            resolver,
            &target.axns,
            &target.actors,
        ) {
            Ok(Some((_, ts))) => ts,
            Ok(None) => {
                return Ok(None);
            },
            Err(x) => {
                return Err(x);
            },
        };
        s.extend(ts);
        s.extend(ss);
        emit_subject_process(&mut s, se.as_str(), p.as_str());
        s.add_class_assertion(PROCESS, entity);
        s.add_relation(PART_OF, te.as_str(), entity);
        s.add_relation(rel, p.as_str(), te.as_str());
    } else {
        let (te, ts) = match get_local_individual_and_axioms(target, taxon_idx, resolver) {
            Ok(found) => found,
            Err(x) => {
                return Err(x);
            },
        };
        emit_subject_process(&mut s, se.as_str(), p.as_str());
        s.extend(ss);
        s.extend(ts);
        s.extend(emit_effects(axns, entity, p.as_str(), te.as_str(), rel));
    }
    s.extend(add_remnants(ixn, taxon, entity));
    Ok(Some((String::from_str(entity), s)))
}

fn emit_subject_process(s: &mut AxiomSet, se: &str, p: &str)
    requires
        p@ == process_entity(se@),
    ensures
        final(s)@ == old(s)@ + subject_process_spec(se@),
{
    s.push(Axiom::DeclareNamedIndividual(String::from_str(se)));
    s.push(Axiom::DeclareNamedIndividual(String::from_str(p)));
    s.add_class_assertion(PROCESS, p);
    s.add_relation(HAS_PARTICIPANT, p, se);
    assert(s@ =~= old(s)@ + subject_process_spec(se@));
}


/// The statements that open every ontology: its provider.
pub open spec fn header_spec() -> Seq<Statement> {
    seq![
        Statement::DeclareAnnotationProperty(PROVIDED_BY@),
        Statement::OntologyAnnotation {
            property: PROVIDED_BY@,
            value: ValueModel::Iri(CTD_ROOT@),
        },
    ]
}

/// What the pair of `ixn` and its taxon at `idx` contributes: the record
/// entity, and the statements of its shape when the engine succeeds.
pub open spec fn pair_spec(ixn: IXN, idx: int, resolver: Map<Seq<char>, Seq<char>>) -> Seq<
    Statement,
> {
    let e = record_entity(ixn.id, idx as nat);
    seq![Statement::DeclareNamedIndividual(e)] + match process_spec(
        ixn,
        idx as nat,
        ixn.taxon@[idx],
        resolver,
        e,
        ixn.axns@,
        ixn.actors,
    ) {
        Ok(Some(s)) => s,
        _ => seq![],
    }
}

/// What the first `n` taxa of `ixn` contribute.
pub open spec fn taxa_spec(ixn: IXN, n: int, resolver: Map<Seq<char>, Seq<char>>) -> Seq<
    Statement,
>
    decreases n,
{
    if n <= 0 {
        seq![]
    } else {
        taxa_spec(ixn, n - 1, resolver) + pair_spec(ixn, n - 1, resolver)
    }
}

/// What a record contributes: its provider, and each of its taxa.
pub open spec fn record_spec(ixn: IXN, resolver: Map<Seq<char>, Seq<char>>) -> Seq<Statement> {
    seq![
        Statement::AnnotationAssertion {
            subject: CTDIXN@ + dec(ixn.id as int),
            property: PROVIDED_BY@,
            value: ValueModel::Iri(CTD_ROOT@),
        },
    ] + taxa_spec(ixn, ixn.taxon@.len() as int, resolver)
}

/// What the first `n` records contribute.
pub open spec fn records_spec(model: Seq<IXN>, n: int, resolver: Map<Seq<char>, Seq<char>>) -> Seq<
    Statement,
>
    decreases n,
{
    if n <= 0 {
        seq![]
    } else {
        records_spec(model, n - 1, resolver) + record_spec(model[n - 1], resolver)
    }
}

/// Whether the engine fails on some taxon of the record.
pub open spec fn record_failed(ixn: IXN, resolver: Map<Seq<char>, Seq<char>>) -> bool {
    exists|idx: int|
        0 <= idx < ixn.taxon@.len() && (#[trigger] process_spec(
            ixn,
            idx as nat,
            ixn.taxon@[idx],
            resolver,
            record_entity(ixn.id, idx as nat),
            ixn.axns@,
            ixn.actors,
        )) is Err
}

/// Whether no shape fits some taxon of the record.
pub open spec fn record_unhandled(ixn: IXN, resolver: Map<Seq<char>, Seq<char>>) -> bool {
    exists|idx: int|
        0 <= idx < ixn.taxon@.len() && (#[trigger] process_spec(
            ixn,
            idx as nat,
            ixn.taxon@[idx],
            resolver,
            record_entity(ixn.id, idx as nat),
            ixn.axns@,
            ixn.actors,
        )) == Ok::<Option<Seq<Statement>>, EngineError>(None)
}

/// How many of the first `n` records satisfy `pred`.
pub open spec fn count_records(
    model: Seq<IXN>,
    n: int,
    pred: spec_fn(IXN) -> bool,
) -> nat
    decreases n,
{
    if n <= 0 {
        0
    } else {
        count_records(model, n - 1, pred) + if pred(model[n - 1]) {
            1nat
        } else {
            0nat
        }
    }
}

fn convert_record(ixn: &IXN, resolver: &IdMap, s: &mut AxiomSet) -> (r: (bool, bool))
    requires
        resolver.wf(),
    ensures
        final(s)@ == old(s)@ + record_spec(*ixn, resolver@),
        r.0 == record_failed(*ixn, resolver@),
        r.1 == record_unhandled(*ixn, resolver@),
{
    let mut graph = String::from_str(CTDIXN);
    push_int(&mut graph, ixn.id as i64);
    s.push(
        Axiom::AnnotationAssertion {
            subject: graph,
            property: String::from_str(PROVIDED_BY),
            value: AnnotationValue::Iri(String::from_str(CTD_ROOT)),
        },
    );
    let ghost before = s@;
    let mut any_failed = false;
    let mut any_unhandled = false;
    let mut j: usize = 0;
    while j < ixn.taxon.len()
        invariant
            resolver.wf(),
            0 <= j <= ixn.taxon@.len(),
            s@ == before + taxa_spec(*ixn, j as int, resolver@),
            any_failed == exists|idx: int|
                0 <= idx < j && (#[trigger] process_spec(
                    *ixn,
                    idx as nat,
                    ixn.taxon@[idx],
                    resolver@,
                    record_entity(ixn.id, idx as nat),
                    ixn.axns@,
                    ixn.actors,
                )) is Err,
            any_unhandled == exists|idx: int|
                0 <= idx < j && (#[trigger] process_spec(
                    *ixn,
                    idx as nat,
                    ixn.taxon@[idx],
                    resolver@,
                    record_entity(ixn.id, idx as nat),
                    ixn.axns@,
                    ixn.actors,
                )) == Ok::<Option<Seq<Statement>>, EngineError>(None),
        decreases ixn.taxon.len() - j,
    {
        let e = record_entity_iri(ixn.id, j);
        s.push(Axiom::DeclareNamedIndividual(e.clone()));
        let outcome = process_actor(
            ixn,
            j,
            &ixn.taxon[j],
            e.as_str(),
            resolver,
            &ixn.axns,
            &ixn.actors,
        );
        match outcome {
            Ok(Some((_, found))) => {
                s.extend(found);
            },
            Ok(None) => {
                any_unhandled = true;
            },
            Err(_) => {
                any_failed = true;
            },
        }
        j = j + 1;
        assert(s@ =~= before + taxa_spec(*ixn, j as int, resolver@));
    }
    assert(s@ =~= old(s)@ + record_spec(*ixn, resolver@));
    (any_failed, any_unhandled)
}

/// The statements of a set of records, with how many records failed and how
/// many had a taxon that no shape fits.
#[derive(Debug)]
pub struct Conversion {
    pub statements: AxiomSet,
    pub failed: usize,
    pub unhandled: usize,
}

/// Converts every record under every one of its taxa. A record/taxon pair
/// that no shape fits, or on which the engine fails, contributes only its
/// entity declaration; the others go on.
pub fn build_ontology(model: &Vec<IXN>, resolver: &IdMap) -> (r: Conversion)
    requires
        resolver.wf(),
    ensures
        r.statements@ == header_spec() + records_spec(model@, model@.len() as int, resolver@),
        r.failed == count_records(model@, model@.len() as int, |x: IXN| record_failed(x, resolver@)),
        r.unhandled == count_records(
            model@,
            model@.len() as int,
            |x: IXN| record_unhandled(x, resolver@),
        ),
{
    let mut s = AxiomSet::new();
    s.push(Axiom::DeclareAnnotationProperty(String::from_str(PROVIDED_BY)));
    s.push(
        Axiom::OntologyAnnotation {
            property: String::from_str(PROVIDED_BY),
            value: AnnotationValue::Iri(String::from_str(CTD_ROOT)),
        },
    );
    let ghost failed_pred = |x: IXN| record_failed(x, resolver@);
    let ghost unhandled_pred = |x: IXN| record_unhandled(x, resolver@);
    let mut failed: usize = 0;
    let mut unhandled: usize = 0;
    let mut i: usize = 0;
    while i < model.len()
        invariant
            resolver.wf(),
            0 <= i <= model@.len(),
            s@ == header_spec() + records_spec(model@, i as int, resolver@),
            failed_pred == (|x: IXN| record_failed(x, resolver@)),
            unhandled_pred == (|x: IXN| record_unhandled(x, resolver@)),
            failed == count_records(model@, i as int, failed_pred),
            unhandled == count_records(model@, i as int, unhandled_pred),
            failed <= i,
            unhandled <= i,
        decreases model.len() - i,
    {
        let ixn = &model[i];
        let (any_failed, any_unhandled) = convert_record(ixn, resolver, &mut s);
        assert(failed_pred(model@[i as int]) == any_failed);
        assert(unhandled_pred(model@[i as int]) == any_unhandled);
        if any_failed {
            failed = failed + 1;
        }
        if any_unhandled {
            unhandled = unhandled + 1;
        }
        i = i + 1;
        assert(s@ =~= header_spec() + records_spec(model@, i as int, resolver@));
    }
    Conversion { statements: s, failed, unhandled }
}


/// The value of an outcome of the engine.
pub open spec fn outcome_view(r: Result<Option<(String, AxiomSet)>, EngineError>) -> Result<
    Option<(Seq<char>, Seq<Statement>)>,
    EngineError,
> {
    match r {
        Ok(Some((x, s))) => Ok(Some((x@, s@))),
        Ok(None) => Ok(None),
        Err(x) => Err(x),
    }
}

/// Determinism: two runs of the engine on the same record, taxon, entity,
/// actions and actors, with resolvers that hold the same entries (in whatever
/// order they were inserted), give the same outcome, with the same entity and
/// the same statements in the same order.
pub proof fn lemma_engine_deterministic(
    ixn: IXN,
    taxon_idx: nat,
    taxon: Taxon,
    e: Seq<char>,
    axns: Seq<AXN>,
    actors: Vec<Actor>,
    resolver1: IdMap,
    resolver2: IdMap,
    r1: Result<Option<(String, AxiomSet)>, EngineError>,
    r2: Result<Option<(String, AxiomSet)>, EngineError>,
)
    requires
        resolver1@ == resolver2@,
        outcome_matches(r1, e, process_spec(ixn, taxon_idx, taxon, resolver1@, e, axns, actors)),
        outcome_matches(r2, e, process_spec(ixn, taxon_idx, taxon, resolver2@, e, axns, actors)),
    ensures
        outcome_view(r1) == outcome_view(r2),
{
}

/// The place of a shape in the order in which shapes are tried.
pub open spec fn shape_rank(s: Shape) -> nat {
    match s {
        Shape::CoTreatment => 0,
        Shape::Binding => 1,
        Shape::Reaction => 2,
        Shape::CausalAction => 3,
    }
}

/// Shape exclusivity: an interaction takes at most one shape. The shape
/// chosen is one whose condition holds and no shape tried before it holds;
/// none is chosen only when no condition holds.
pub proof fn lemma_shape_exclusive(axns: Seq<AXN>, actors: Seq<Actor>)
    ensures
        match classify_spec(axns, actors) {
            Some(s) => rule_holds(s, axns, actors) && forall|t: Shape|
                shape_rank(t) < shape_rank(s) ==> !#[trigger] rule_holds(t, axns, actors),
            None => forall|t: Shape| !#[trigger] rule_holds(t, axns, actors),
        },
{
    assert forall|t: Shape|
        #![auto]
        shape_rank(t) < 4 && (t == Shape::CoTreatment || t == Shape::Binding || t
            == Shape::Reaction || t == Shape::CausalAction) by {
        match t {
            Shape::CoTreatment => {},
            Shape::Binding => {},
            Shape::Reaction => {},
            Shape::CausalAction => {},
        }
    }
}

/// Leaf resolution fallback: a chemical actor whose id the resolver lacks is
/// still described, and its entity belongs to the class that its id names
/// in the MeSH namespace.
pub proof fn lemma_leaf_fallback(a: Actor, taxon_idx: nat, resolver: Map<Seq<char>, Seq<char>>)
    requires
        is_chemical(a),
        !resolver.contains_key(a.id@),
    ensures
        leaf_result(a, taxon_idx, resolver) is Ok,
        leaf_spec(a, taxon_idx, resolver).contains(
            Statement::ClassAssertion {
                class: replace_all(a.id@, "MESH:"@, MESH@),
                individual: actor_entity(a, taxon_idx),
            },
        ),
{
    assert(leaf_spec(a, taxon_idx, resolver)[2] == Statement::ClassAssertion {
        class: replace_all(a.id@, "MESH:"@, MESH@),
        individual: actor_entity(a, taxon_idx),
    });
}

/// Whether a statement is an occurs-in edge from `e`.
pub open spec fn is_occurs_in_from(st: Statement, e: Seq<char>) -> bool {
    match st {
        Statement::ObjectPropertyAssertion { property, subject, object } => property == OCCURS_IN@
            && subject == e,
        _ => false,
    }
}

/// Whether a statement is a literature-source annotation of `e`.
pub open spec fn is_source_of(st: Statement, e: Seq<char>) -> bool {
    match st {
        Statement::AnnotationAssertion { subject, property, value } => subject == e && property
            == DC_SOURCE@,
        _ => false,
    }
}

proof fn lemma_filter_all<A>(s: Seq<A>, pred: spec_fn(A) -> bool)
    requires
        forall|i: int| 0 <= i < s.len() ==> pred(#[trigger] s[i]),
    ensures
        s.filter(pred) == s,
    decreases s.len(),
{
    reveal(Seq::filter);
    if s.len() > 0 {
        lemma_filter_all(s.drop_last(), pred);
        assert(s.drop_last().push(s.last()) =~= s);
    } else {
        assert(s.filter(pred) =~= s);
    }
}

proof fn lemma_filter_none<A>(s: Seq<A>, pred: spec_fn(A) -> bool)
    requires
        forall|i: int| 0 <= i < s.len() ==> !pred(#[trigger] s[i]),
    ensures
        s.filter(pred).len() == 0,
    decreases s.len(),
{
    reveal(Seq::filter);
    if s.len() > 0 {
        lemma_filter_none(s.drop_last(), pred);
    }
}

/// Remnant completeness: the statements attached to a finished interaction
/// entity `e` hold exactly one occurs-in edge from `e` and exactly one
/// literature-source annotation of `e` per reference of the record.
pub proof fn lemma_remnants_complete(ixn: IXN, taxon: Taxon, e: Seq<char>)
    ensures
        remnants_spec(ixn, taxon, e).filter(|st: Statement| is_occurs_in_from(st, e)).len() == 1,
        remnants_spec(ixn, taxon, e).filter(|st: Statement| is_source_of(st, e)).len()
            == ixn.reference@.len(),
{
    let o = organism_entity(e);
    let head = seq![Statement::DeclareAnnotationProperty(DC_SOURCE@)];
    let sources = ixn.reference@.map_values(|r: Reference| source_spec(e, r));
    let typed = class_assertion_spec(NCBI_TAXON@ + dec(taxon.id as int), o);
    let tail = seq![
        label_spec(o, taxon.text@ + "#"@ + dec(ixn.id as int)),
        Statement::DeclareObjectProperty(OCCURS_IN@),
        Statement::DeclareNamedIndividual(o),
        Statement::ObjectPropertyAssertion { property: OCCURS_IN@, subject: e, object: o },
    ];
    assert(remnants_spec(ixn, taxon, e) == head + sources + typed + tail);
    reveal_strlit("-organism");
    assert(o.len() > e.len());
    let occ = |st: Statement| is_occurs_in_from(st, e);
    let src = |st: Statement| is_source_of(st, e);
    Seq::filter_distributes_over_add(head + sources + typed, tail, occ);
    Seq::filter_distributes_over_add(head + sources, typed, occ);
    Seq::filter_distributes_over_add(head, sources, occ);
    Seq::filter_distributes_over_add(head + sources + typed, tail, src);
    Seq::filter_distributes_over_add(head + sources, typed, src);
    Seq::filter_distributes_over_add(head, sources, src);
    lemma_filter_none(head, occ);
    lemma_filter_none(sources, occ);
    lemma_filter_none(typed, occ);
    lemma_filter_none(head, src);
    lemma_filter_all(sources, src);
    lemma_filter_none(typed, src);
    lemma_filter_none(tail.drop_last(), occ);
    lemma_filter_none(tail, src);
    reveal(Seq::filter);
    assert(tail.drop_last().push(tail.last()) =~= tail);
}


proof fn lemma_distinct_properties()
    ensures
        HAS_INPUT@ != OCCURS_IN@,
        RDFS_LABEL@ != DC_SOURCE@,
        HAS_FORM@ != DC_SOURCE@,
{
    reveal_strlit("http://purl.obolibrary.org/obo/RO_0002233");
    reveal_strlit("http://purl.obolibrary.org/obo/BFO_0000066");
    reveal_strlit("http://www.w3.org/2000/01/rdf-schema#label");
    reveal_strlit("http://purl.org/dc/elements/1.1/source");
    reveal_strlit("http://ctd.example.org/has_form");
    assert(HAS_INPUT@.len() != OCCURS_IN@.len());
    assert(RDFS_LABEL@.len() != DC_SOURCE@.len());
    assert(HAS_FORM@.len() != DC_SOURCE@.len());
}

proof fn lemma_inputs_without_remnants(
    actors: Seq<Actor>,
    n: int,
    taxon_idx: nat,
    resolver: Map<Seq<char>, Seq<char>>,
    e: Seq<char>,
)
    requires
        inputs_spec(actors, n, taxon_idx, resolver, e) is Ok,
    ensures
        inputs_spec(actors, n, taxon_idx, resolver, e)->Ok_0.filter(
            |st: Statement| is_occurs_in_from(st, e),
        ).len() == 0,
        inputs_spec(actors, n, taxon_idx, resolver, e)->Ok_0.filter(
            |st: Statement| is_source_of(st, e),
        ).len() == 0,
    decreases n,
{
    let occ = |st: Statement| is_occurs_in_from(st, e);
    let src = |st: Statement| is_source_of(st, e);
    if n > 0 {
        lemma_inputs_without_remnants(actors, n - 1, taxon_idx, resolver, e);
        lemma_distinct_properties();
        let prev = inputs_spec(actors, n - 1, taxon_idx, resolver, e)->Ok_0;
        let a = actors[n - 1];
        let leaf = leaf_spec(a, taxon_idx, resolver);
        let edge = relation_spec(HAS_INPUT@, e, actor_entity(a, taxon_idx));
        assert(forall|i: int| 0 <= i < leaf.len() ==> !occ(#[trigger] leaf[i]) && !src(leaf[i]));
        assert(forall|i: int| 0 <= i < edge.len() ==> !occ(#[trigger] edge[i]) && !src(edge[i]));
        lemma_filter_none(leaf, occ);
        lemma_filter_none(leaf, src);
        lemma_filter_none(edge, occ);
        lemma_filter_none(edge, src);
        Seq::filter_distributes_over_add(prev + leaf, edge, occ);
        Seq::filter_distributes_over_add(prev, leaf, occ);
        Seq::filter_distributes_over_add(prev + leaf, edge, src);
        Seq::filter_distributes_over_add(prev, leaf, src);
    } else {
        lemma_filter_none(Seq::<Statement>::empty(), occ);
        lemma_filter_none(Seq::<Statement>::empty(), src);
    }
}

/// Remnant completeness for co-treatments and bindings: their statements
/// hold exactly one occurs-in edge from the interaction entity `e` and
/// exactly one literature-source annotation of `e` per reference.
pub proof fn lemma_group_remnants_complete(
    ixn: IXN,
    taxon_idx: nat,
    taxon: Taxon,
    resolver: Map<Seq<char>, Seq<char>>,
    e: Seq<char>,
    actors: Seq<Actor>,
    class: Seq<char>,
)
    requires
        group_spec(ixn, taxon_idx, taxon, resolver, e, actors, class) is Ok,
    ensures
        ({
            let s = group_spec(ixn, taxon_idx, taxon, resolver, e, actors, class)->Ok_0->0;
            &&& s.filter(|st: Statement| is_occurs_in_from(st, e)).len() == 1
            &&& s.filter(|st: Statement| is_source_of(st, e)).len() == ixn.reference@.len()
        }),
{
    let occ = |st: Statement| is_occurs_in_from(st, e);
    let src = |st: Statement| is_source_of(st, e);
    let inputs = inputs_spec(actors, actors.len() as int, taxon_idx, resolver, e)->Ok_0;
    let typed = class_assertion_spec(class, e);
    let rem = remnants_spec(ixn, taxon, e);
    lemma_inputs_without_remnants(actors, actors.len() as int, taxon_idx, resolver, e);
    lemma_remnants_complete(ixn, taxon, e);
    lemma_filter_none(typed, occ);
    lemma_filter_none(typed, src);
    Seq::filter_distributes_over_add(inputs + typed, rem, occ);
    Seq::filter_distributes_over_add(inputs, typed, occ);
    Seq::filter_distributes_over_add(inputs + typed, rem, src);
    Seq::filter_distributes_over_add(inputs, typed, src);
}

} // verus!
