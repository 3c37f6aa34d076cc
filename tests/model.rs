use ctd_to_owl::get_class_map;
use ctd_to_owl::idmap::IdMap;
use ctd_to_owl::model::{Actor, IXNSet, Interaction, Reference, Taxon, AXN, IXN};
use ctd_to_owl::text::{parse_i8, push_int, push_uint};

#[test]
fn constructors_keep_their_arguments() {
    let t = Taxon::new(10090, "Mus musculus".to_string());
    assert_eq!((t.id, t.text.as_str()), (10090, "Mus musculus"));
    assert_eq!(Reference::new(5).pm_id, 5);
    let x = AXN::new("b".to_string(), '+', 1, 2, "t".to_string());
    assert_eq!(x.duplicate(), x);
    let a = Actor::new("gene".to_string(), "G".to_string(), 1, 2, None, None, Some("s".to_string()));
    assert!(a.text.is_none() && a.axns.is_empty() && a.actors.is_empty());
    assert_eq!(a.flat().len(), 1);
    let i = IXN::new();
    assert_eq!(i.id, 0);
    let mut set = IXNSet::new();
    set.ixn_mut().push(IXN::new());
    assert_eq!(set.ixns.len(), 1);
    let ia = Interaction::new(vec!["b".to_string()], vec![]);
    assert_eq!(ia.codes.len(), 1);
}

#[test]
fn class_map_has_each_code() {
    let m = get_class_map();
    assert_eq!(m.get("exp").map(|s| s.as_str()), Some("http://purl.obolibrary.org/obo/GO_0010467"));
    assert_eq!(m.get("hdx").map(|s| s.as_str()), Some("http://purl.obolibrary.org/obo/CTDI_16"));
    assert_eq!(m.get("w").map(|s| s.as_str()), Some("http://purl.obolibrary.org/obo/CTDI_26"));
    assert!(m.contains_key("abu"));
    assert!(!m.contains_key("rxn"));
}

#[test]
fn id_map_replaces_values() {
    let mut m = IdMap::new();
    m.insert("a".to_string(), "1".to_string());
    m.insert("a".to_string(), "2".to_string());
    assert_eq!(m.get("a").map(|s| s.as_str()), Some("2"));
    assert_eq!(m.get("b"), None);
}

#[test]
fn integers_render_in_decimal() {
    let mut s = String::from("x");
    push_int(&mut s, -9223372036854775808);
    assert_eq!(s, "x-9223372036854775808");
    let mut t = String::new();
    push_uint(&mut t, 0);
    push_uint(&mut t, 1907);
    assert_eq!(t, "01907");
    assert_eq!(parse_i8("-128"), Some(-128));
    assert_eq!(parse_i8("128"), None);
    assert_eq!(parse_i8("+7"), Some(7));
    assert_eq!(parse_i8(" 7"), None);
}
