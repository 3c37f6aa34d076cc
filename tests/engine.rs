use ctd_to_owl::engine::{
    add_remnants, build_ontology, classify, get_local_individual_and_axioms, process_actor,
    process_to_process, record_entity_iri, EngineError, Shape,
};
use ctd_to_owl::idmap::IdMap;
use ctd_to_owl::model::{Actor, Reference, Taxon, AXN, IXN};
use ctd_to_owl::owl::{AnnotationValue, Axiom};
use ctd_to_owl::{
    BINDING, CAUSALLY_UPSTREAM_OF, CAUSALLY_UPSTREAM_OF_NEGATIVE_EFFECT,
    CAUSALLY_UPSTREAM_OF_POSITIVE_EFFECT, COTREATMENT, HAS_INPUT, HAS_PARTICIPANT, OCCURS_IN,
    PART_OF, PROCESS, RDFS_LABEL, DC_SOURCE,
};

fn axn(code: &str, degree: char, position: i8, parent_id: i32) -> AXN {
    AXN::new(code.to_string(), degree, position, parent_id, String::new())
}

fn leaf(kind: &str, id: &str, text: &str, position: i8, parent_id: i32) -> Actor {
    let mut a = Actor::new(kind.to_string(), id.to_string(), position, parent_id, None, None, None);
    a.text = Some(text.to_string());
    a
}

fn record(id: i32, axns: Vec<AXN>, actors: Vec<Actor>) -> IXN {
    let mut ixn = IXN::new();
    ixn.id = id;
    ixn.taxon.push(Taxon::new(9606, "Homo sapiens".to_string()));
    ixn.axns = axns;
    ixn.actors = actors;
    ixn
}

fn class_assertions<'a>(s: &'a [Axiom], class: &str) -> Vec<&'a String> {
    s.iter()
        .filter_map(|a| match a {
            Axiom::ClassAssertion { class: c, individual } if c == class => Some(individual),
            _ => None,
        })
        .collect()
}

fn edges<'a>(s: &'a [Axiom], property: &str) -> Vec<(&'a String, &'a String)> {
    s.iter()
        .filter_map(|a| match a {
            Axiom::ObjectPropertyAssertion { property: p, subject, object } if p == property => {
                Some((subject, object))
            }
            _ => None,
        })
        .collect()
}

fn run(ixn: &IXN, resolver: &IdMap) -> Result<Option<(String, Vec<Axiom>)>, EngineError> {
    let e = record_entity_iri(ixn.id, 0);
    process_actor(ixn, 0, &ixn.taxon[0], e.as_str(), resolver, &ixn.axns, &ixn.actors)
        .map(|o| o.map(|(x, s)| (x, s.items)))
}

#[test]
fn binding_record_end_to_end() {
    let ixn = record(
        100,
        vec![axn("b", '1', 0, 100), axn("b", '1', 1, 100)],
        vec![leaf("chemical", "C1", "chem one", 0, 100), leaf("gene", "G1", "gene one", 1, 100)],
    );
    assert_eq!(classify(&ixn.axns, &ixn.actors), Some(Shape::Binding));
    let (e, s) = run(&ixn, &IdMap::new()).unwrap().unwrap();
    let base = "http://ctdbase.org/detail.go?type=relationship&ixnId=";
    assert_eq!(e, format!("{}100#0", base));
    assert_eq!(class_assertions(&s, BINDING), vec![&e]);
    let inputs = edges(&s, HAS_INPUT);
    assert_eq!(inputs.len(), 2);
    assert_eq!(*inputs[0].1, format!("{}100#0-0", base));
    assert_eq!(*inputs[1].1, format!("{}100#0-1", base));
    assert!(inputs.iter().all(|(x, _)| **x == e));
    assert_eq!(class_assertions(&s, "C1"), vec![&format!("{}100#0-0", base)]);
    assert_eq!(class_assertions(&s, "G1"), vec![&format!("{}100#0-1", base)]);
    let occurs = edges(&s, OCCURS_IN);
    assert_eq!(occurs.len(), 1);
    assert_eq!(*occurs[0].0, e);
    assert_eq!(*occurs[0].1, format!("{}-organism", e));
    let sources = s
        .iter()
        .filter(|a| matches!(a, Axiom::AnnotationAssertion { property, .. } if property == DC_SOURCE))
        .count();
    assert_eq!(sources, 0);
}

#[test]
fn reaction_record_end_to_end() {
    let mut inner = Actor::new("ixn".to_string(), "201".to_string(), 1, 200, None, None, None);
    inner.axns.push(axn("b", '1', 0, 201));
    inner.actors.push(leaf("chemical", "MESH:C3", "chem three", 0, 201));
    inner.actors.push(leaf("gene", "GENE:G3", "gene three", 1, 201));
    let ixn = record(200, vec![axn("rxn", '+', 0, 200)], vec![leaf("gene", "G2", "gene two", 0, 200), inner]);
    assert_eq!(classify(&ixn.axns, &ixn.actors), Some(Shape::Reaction));
    let (e, s) = run(&ixn, &IdMap::new()).unwrap().unwrap();
    let base = "http://ctdbase.org/detail.go?type=relationship&ixnId=";
    let inner_e = format!("{}200#0-1", base);
    let g2 = format!("{}200#0-0", base);
    assert_eq!(e, format!("{}200#0", base));
    assert!(class_assertions(&s, PROCESS).contains(&&e));
    assert_eq!(class_assertions(&s, BINDING), vec![&inner_e]);
    assert_eq!(edges(&s, PART_OF), vec![(&inner_e, &e)]);
    let causal = edges(&s, CAUSALLY_UPSTREAM_OF_POSITIVE_EFFECT);
    assert_eq!(causal.len(), 1);
    assert_eq!(*causal[0].0, format!("{}-process", g2));
    assert_eq!(*causal[0].1, inner_e);
    assert_eq!(class_assertions(&s, "http://id.nlm.nih.gov/mesh/C3").len(), 1);
    assert_eq!(class_assertions(&s, "http://identifiers.org/ncbigene/G3").len(), 1);
    assert_eq!(edges(&s, HAS_PARTICIPANT), vec![(&format!("{}-process", g2), &g2)]);
}

#[test]
fn cotreatment_takes_priority_on_no_actions() {
    let ixn = record(
        7,
        vec![],
        vec![leaf("chemical", "C1", "a", 0, 7), leaf("chemical", "C2", "b", 1, 7)],
    );
    assert_eq!(classify(&ixn.axns, &ixn.actors), Some(Shape::CoTreatment));
    let (e, s) = run(&ixn, &IdMap::new()).unwrap().unwrap();
    assert_eq!(class_assertions(&s, COTREATMENT), vec![&e]);
    assert_eq!(class_assertions(&s, BINDING).len(), 0);
    assert_eq!(edges(&s, OCCURS_IN).len(), 1);
}

#[test]
fn causal_action_emits_one_effect_per_classified_code() {
    let ixn = record(
        300,
        vec![axn("exp", '-', 0, 300), axn("abu", '-', 1, 300), axn("zzz", '-', 2, 300)],
        vec![leaf("chemical", "D1", "drug", 0, 300), leaf("gene", "G4", "target", 1, 300)],
    );
    assert_eq!(classify(&ixn.axns, &ixn.actors), Some(Shape::CausalAction));
    let (e, s) = run(&ixn, &IdMap::new()).unwrap().unwrap();
    let t0 = format!("{}-target-0", e);
    let t1 = format!("{}-target-1", e);
    assert_eq!(class_assertions(&s, "http://purl.obolibrary.org/obo/GO_0010467"), vec![&t0]);
    assert_eq!(class_assertions(&s, "http://purl.obolibrary.org/obo/CTDI_1"), vec![&t1]);
    assert_eq!(edges(&s, PART_OF), vec![(&t0, &e), (&t1, &e)]);
    let base = "http://ctdbase.org/detail.go?type=relationship&ixnId=";
    let p = format!("{}300#0-0-process", base);
    assert_eq!(edges(&s, CAUSALLY_UPSTREAM_OF_NEGATIVE_EFFECT), vec![(&p, &t0), (&p, &t1)]);
    assert_eq!(edges(&s, OCCURS_IN).len(), 1);
}

#[test]
fn abu_alone_does_not_make_a_causal_action() {
    let ixn = record(
        301,
        vec![axn("abu", '+', 0, 301)],
        vec![leaf("chemical", "D1", "drug", 0, 301), leaf("gene", "G4", "target", 1, 301)],
    );
    assert_eq!(classify(&ixn.axns, &ixn.actors), None);
    assert!(run(&ixn, &IdMap::new()).unwrap().is_none());
}

#[test]
fn invalid_degree_is_an_error() {
    let ixn = record(
        302,
        vec![axn("exp", '0', 0, 302)],
        vec![leaf("chemical", "D1", "drug", 0, 302), leaf("gene", "G4", "target", 1, 302)],
    );
    assert_eq!(run(&ixn, &IdMap::new()).unwrap_err(), EngineError::InvalidDegree('0'));
}

#[test]
fn reaction_without_actions_is_missing_an_action() {
    let mut inner = Actor::new("ixn".to_string(), "9".to_string(), 1, 8, None, None, None);
    inner.axns.push(axn("b", '1', 0, 9));
    let ixn = record(8, vec![], vec![leaf("gene", "G2", "g", 0, 8), inner]);
    assert_eq!(classify(&ixn.axns, &ixn.actors), Some(Shape::Reaction));
    assert_eq!(run(&ixn, &IdMap::new()).unwrap_err(), EngineError::MissingAction);
}

#[test]
fn unsupported_leaf_kind_is_an_error() {
    let ixn = record(9, vec![axn("w", '1', 0, 9)], vec![leaf("disease", "X", "d", 0, 9)]);
    assert_eq!(run(&ixn, &IdMap::new()).unwrap_err(), EngineError::UnsupportedActorType);
}

#[test]
fn degree_codes_select_relations() {
    assert_eq!(process_to_process('1'), Ok(CAUSALLY_UPSTREAM_OF));
    assert_eq!(process_to_process('+'), Ok(CAUSALLY_UPSTREAM_OF_POSITIVE_EFFECT));
    assert_eq!(process_to_process('-'), Ok(CAUSALLY_UPSTREAM_OF_NEGATIVE_EFFECT));
    assert_eq!(process_to_process('x'), Err(EngineError::InvalidDegree('x')));
}

#[test]
fn chemical_resolved_through_the_table() {
    let mut resolver = IdMap::new();
    resolver.insert("MESH:D1".to_string(), "CHEBI:42".to_string());
    let mut a = leaf("chemical", "MESH:D1", "drug", 3, 55);
    a.form = Some("mRNA".to_string());
    let (e, s) = get_local_individual_and_axioms(&a, 2, &resolver).unwrap();
    assert_eq!(e, "http://ctdbase.org/detail.go?type=relationship&ixnId=55#2-3");
    assert_eq!(s.items[1], Axiom::DeclareClass("http://purl.obolibrary.org/obo/CHEBI_42".to_string()));
    assert_eq!(
        s.items[3],
        Axiom::AnnotationAssertion {
            subject: "http://purl.obolibrary.org/obo/CHEBI_42".to_string(),
            property: RDFS_LABEL.to_string(),
            value: AnnotationValue::Literal("drug".to_string()),
        }
    );
    assert_eq!(
        s.items[6],
        Axiom::AnnotationAssertion {
            subject: e.clone(),
            property: RDFS_LABEL.to_string(),
            value: AnnotationValue::Literal("drug#55-3".to_string()),
        }
    );
    assert_eq!(
        s.items[8],
        Axiom::AnnotationAssertion {
            subject: e.clone(),
            property: "http://ctd.example.org/has_form".to_string(),
            value: AnnotationValue::Literal("mRNA".to_string()),
        }
    );
    assert_eq!(s.len(), 9);
}

#[test]
fn chemical_absent_from_the_table_falls_back_to_mesh() {
    let a = leaf("chemical", "MESH:D2", "other", 0, 5);
    let (e, s) = get_local_individual_and_axioms(&a, 0, &IdMap::new()).unwrap();
    assert_eq!(
        s.items[2],
        Axiom::ClassAssertion { class: "http://id.nlm.nih.gov/mesh/D2".to_string(), individual: e }
    );
}

#[test]
fn gene_without_text_is_labelled_by_sequence_id() {
    let a = Actor::new("gene".to_string(), "GENE:7".to_string(), -2, 12, None, None, Some("NM_1".to_string()));
    let (e, s) = get_local_individual_and_axioms(&a, 0, &IdMap::new()).unwrap();
    assert_eq!(e, "http://ctdbase.org/detail.go?type=relationship&ixnId=12#0--2");
    assert_eq!(
        s.items[6],
        Axiom::AnnotationAssertion {
            subject: e.clone(),
            property: RDFS_LABEL.to_string(),
            value: AnnotationValue::Literal("NM_1#12--2".to_string()),
        }
    );
}

#[test]
fn remnants_list_each_reference() {
    let mut ixn = record(42, vec![], vec![]);
    ixn.reference.push(Reference::new(111));
    ixn.reference.push(Reference::new(222));
    let s = add_remnants(&ixn, &ixn.taxon[0], "E").items;
    assert_eq!(
        s[1],
        Axiom::AnnotationAssertion {
            subject: "E".to_string(),
            property: DC_SOURCE.to_string(),
            value: AnnotationValue::Iri("https://www.ncbi.nlm.nih.gov/pubmed/111".to_string()),
        }
    );
    assert_eq!(class_assertions(&s, "http://purl.obolibrary.org/obo/NCBITaxon_9606"), vec![&"E-organism".to_string()]);
    assert!(s.contains(&Axiom::AnnotationAssertion {
        subject: "E-organism".to_string(),
        property: RDFS_LABEL.to_string(),
        value: AnnotationValue::Literal("Homo sapiens#42".to_string()),
    }));
    assert_eq!(edges(&s, OCCURS_IN), vec![(&"E".to_string(), &"E-organism".to_string())]);
    assert_eq!(s.len(), 9);
}

#[test]
fn engine_runs_are_identical() {
    let ixn = record(
        100,
        vec![axn("b", '1', 0, 100)],
        vec![leaf("chemical", "C1", "c", 0, 100), leaf("gene", "G1", "g", 1, 100)],
    );
    let mut r1 = IdMap::new();
    r1.insert("C1".to_string(), "CHEBI:1".to_string());
    r1.insert("C2".to_string(), "CHEBI:2".to_string());
    let mut r2 = IdMap::new();
    r2.insert("C2".to_string(), "CHEBI:2".to_string());
    r2.insert("C1".to_string(), "CHEBI:1".to_string());
    assert_eq!(run(&ixn, &r1), run(&ixn, &r2));
}

#[test]
fn ontology_counts_skipped_records() {
    let good = record(1, vec![axn("b", '1', 0, 1)], vec![leaf("gene", "G", "g", 0, 1)]);
    let unhandled = record(2, vec![axn("zzz", '1', 0, 2)], vec![leaf("gene", "G", "g", 0, 2)]);
    let failed = record(3, vec![axn("w", '1', 0, 3)], vec![leaf("disease", "D", "d", 0, 3)]);
    let out = build_ontology(&vec![good, unhandled, failed], &IdMap::new());
    assert_eq!(out.failed, 1);
    assert_eq!(out.unhandled, 1);
    let s = &out.statements.items;
    assert_eq!(
        s[2],
        Axiom::AnnotationAssertion {
            subject: "http://ctdbase.org/detail.go?type=relationship&ixnId=1".to_string(),
            property: "http://purl.org/pav/providedBy".to_string(),
            value: AnnotationValue::Iri("http://ctdbase.org".to_string()),
        }
    );
    assert_eq!(class_assertions(s, BINDING).len(), 1);
    assert_eq!(edges(s, OCCURS_IN).len(), 1);
    let declared: Vec<_> = s
        .iter()
        .filter(|a| matches!(a, Axiom::DeclareNamedIndividual(x) if x.ends_with("#0")))
        .collect();
    assert_eq!(declared.len(), 3);
}

#[test]
fn record_entity_renders_negative_ids() {
    assert_eq!(record_entity_iri(-15, 3), "http://ctdbase.org/detail.go?type=relationship&ixnId=-15#3");
}
