use ctd_to_owl::model::Actor;
use ctd_to_owl::tree::{
    get_actor_from_element, get_axn_from_element, parse_actor_element, parse_input, parse_record,
    ParseError, XmlElement,
};

fn el(name: &str, attrs: &[(&str, &str)], text: Option<&str>, children: Vec<XmlElement>) -> XmlElement {
    XmlElement {
        name: name.to_string(),
        attributes: attrs.iter().map(|(k, v)| (k.to_string(), v.to_string())).collect(),
        text: text.map(|t| t.to_string()),
        children,
    }
}

fn axn_el(code: &str, degree: &str, position: &str, parent: &str) -> XmlElement {
    el(
        "axn",
        &[("code", code), ("degreecode", degree), ("position", position), ("parentid", parent)],
        Some("does something"),
        vec![],
    )
}

fn actor_el(kind: &str, id: &str, position: &str, parent: &str, text: Option<&str>, children: Vec<XmlElement>) -> XmlElement {
    el("actor", &[("type", kind), ("id", id), ("position", position), ("parentid", parent)], text, children)
}

fn actor_ids(a: &Actor, out: &mut Vec<String>) {
    out.push(a.id.clone());
    for c in &a.actors {
        actor_ids(c, out);
    }
}

fn check_attached(a: &Actor) {
    for x in &a.axns {
        assert_eq!(a.id, x.parent_id.to_string());
    }
    for c in &a.actors {
        check_attached(c);
    }
}

#[test]
fn record_with_nested_actors_attaches_actions_by_parent_id() {
    // Three levels: a grandchild action names its grandparent actor.
    let inner = actor_el(
        "ixn",
        "12",
        "2",
        "11",
        None,
        vec![
            axn_el("exp", "+", "1", "11"),
            axn_el("b", "1", "1", "12"),
            actor_el("chemical", "MESH:D1", "1", "12", Some("aspirin"), vec![]),
            actor_el("gene", "GENE:5", "2", "12", Some("TP53"), vec![]),
        ],
    );
    let outer = actor_el(
        "ixn",
        "11",
        "2",
        "10",
        None,
        vec![actor_el("chemical", "MESH:D2", "1", "11", Some("water"), vec![]), inner],
    );
    let rec = el(
        "ixn",
        &[("id", "10")],
        None,
        vec![
            el("taxon", &[("id", "9606")], Some("Homo sapiens"), vec![]),
            el("reference", &[("pmid", "123")], None, vec![]),
            axn_el("rxn", "+", "1", "10"),
            axn_el("rxn", "+", "1", "99"),
            actor_el("gene", "GENE:1", "1", "10", Some("A1"), vec![]),
            outer,
            actor_el("gene", "GENE:2", "1", "98", Some("stray"), vec![]),
        ],
    );
    let ixn = parse_record(&rec).unwrap();
    assert_eq!(ixn.id, 10);
    assert_eq!(ixn.taxon.len(), 1);
    assert_eq!(ixn.taxon[0].id, 9606);
    assert_eq!(ixn.taxon[0].text, "Homo sapiens");
    assert_eq!(ixn.reference.len(), 1);
    assert_eq!(ixn.reference[0].pm_id, 123);
    assert_eq!(ixn.axns.len(), 1);
    assert_eq!(ixn.axns[0].parent_id, 10);
    assert_eq!(ixn.actors.len(), 2);
    let outer = &ixn.actors[1];
    assert_eq!(outer.id, "11");
    assert_eq!(outer.axns.len(), 1);
    assert_eq!(outer.axns[0].code, "exp");
    assert_eq!(outer.actors.len(), 2);
    let inner = &outer.actors[1];
    assert_eq!(inner.axns.len(), 1);
    assert_eq!(inner.axns[0].code, "b");
    assert_eq!(inner.actors[0].text.as_deref(), Some("aspirin"));
    for a in &ixn.actors {
        check_attached(a);
    }
    let mut ids = Vec::new();
    actor_ids(outer, &mut ids);
    assert_eq!(ids, vec!["11", "MESH:D2", "12", "MESH:D1", "GENE:5"]);
    let flat: Vec<String> = outer.flat().iter().map(|a| a.id.clone()).collect();
    assert_eq!(flat, ids);
}

#[test]
fn action_naming_no_actor_is_dropped() {
    let e = actor_el("ixn", "5", "1", "4", None, vec![axn_el("b", "1", "1", "77"), actor_el("gene", "G", "1", "5", Some("g"), vec![])]);
    let a = parse_actor_element(&e, &vec![]).unwrap();
    assert_eq!(a.axns.len(), 0);
    assert_eq!(a.actors.len(), 1);
}

#[test]
fn missing_actor_attribute_rejects_the_record() {
    let rec = el(
        "ixn",
        &[("id", "1")],
        None,
        vec![el("actor", &[("type", "gene"), ("id", "G"), ("position", "1")], Some("g"), vec![])],
    );
    assert_eq!(parse_record(&rec).unwrap_err(), ParseError::MissingAttribute);
}

#[test]
fn bad_number_rejects_the_record() {
    let rec = el("ixn", &[("id", "1")], None, vec![el("reference", &[("pmid", "12x")], None, vec![])]);
    assert_eq!(parse_record(&rec).unwrap_err(), ParseError::InvalidNumber);
    let big = actor_el("gene", "G", "300", "1", Some("g"), vec![]);
    assert_eq!(get_actor_from_element(&big).unwrap_err(), ParseError::InvalidNumber);
}

#[test]
fn taxon_without_id_rejects_the_record() {
    let rec = el("ixn", &[("id", "1")], None, vec![el("taxon", &[], Some("Mus"), vec![])]);
    assert_eq!(parse_record(&rec).unwrap_err(), ParseError::MissingAttribute);
}

#[test]
fn one_bad_record_does_not_stop_the_others() {
    let root = el(
        "ixnset",
        &[],
        None,
        vec![
            el("ixn", &[("id", "1")], None, vec![]),
            el("ixn", &[], None, vec![]),
            el("ixn", &[("id", "3")], None, vec![]),
        ],
    );
    let out = parse_input(&root);
    assert_eq!(out.len(), 3);
    assert_eq!(out[0].as_ref().unwrap().id, 1);
    assert_eq!(out[1].as_ref().unwrap_err(), &ParseError::MissingAttribute);
    assert_eq!(out[2].as_ref().unwrap().id, 3);
}

#[test]
fn action_element_is_read() {
    let x = get_axn_from_element(&axn_el("pho", "-", "-3", "+42")).unwrap();
    assert_eq!(x.code, "pho");
    assert_eq!(x.degree_code, '-');
    assert_eq!(x.position, -3);
    assert_eq!(x.parent_id, 42);
    assert_eq!(x.text, "does something");
    let empty = el("axn", &[("code", "b"), ("degreecode", ""), ("position", "1"), ("parentid", "2")], None, vec![]);
    assert_eq!(get_axn_from_element(&empty).unwrap_err(), ParseError::MissingAttribute);
}

#[test]
fn actor_element_is_read() {
    let e = el(
        "actor",
        &[("type", "chemical"), ("id", "MESH:D9"), ("position", "2"), ("parentid", "8"), ("form", "analog"), ("seqid", "S1")],
        Some("x"),
        vec![],
    );
    let a = get_actor_from_element(&e).unwrap();
    assert_eq!(a.actor_type, "chemical");
    assert_eq!(a.id, "MESH:D9");
    assert_eq!(a.position, 2);
    assert_eq!(a.parent_id, 8);
    assert_eq!(a.form.as_deref(), Some("analog"));
    assert_eq!(a.seq_id.as_deref(), Some("S1"));
    assert_eq!(a.text, None);
    let leaf = parse_actor_element(&e, &vec![]).unwrap();
    assert_eq!(leaf.text.as_deref(), Some("x"));
}
