//! Conversion of chemical/gene interaction records into ontology statements.
//!
//! The crate has two parts: a tree builder that turns an element tree of
//! interaction records into `IXN` values, and a classification engine that
//! turns one record into an `AxiomSet`.
use vstd::prelude::*;
use vstd::string::StringExecFns;

pub mod engine;
pub mod idmap;
pub mod model;
pub mod owl;
pub mod text;
pub mod tree;

use crate::idmap::IdMap;

verus! {

/// The OBO namespace.
pub const OBO: &'static str = "http://purl.obolibrary.org/obo";

/// The prefix of interaction records.
pub const CTDIXN: &'static str = "http://ctdbase.org/detail.go?type=relationship&ixnId=";

/// The MeSH namespace.
pub const MESH: &'static str = "http://id.nlm.nih.gov/mesh/";

/// The ChEBI namespace.
pub const CHEBI: &'static str = "http://purl.obolibrary.org/obo/CHEBI_";

/// The NCBI gene namespace.
pub const NCBIGENE: &'static str = "http://identifiers.org/ncbigene/";

/// The PubMed namespace.
pub const PMID: &'static str = "https://www.ncbi.nlm.nih.gov/pubmed";

/// The NCBI taxonomy namespace.
pub const NCBI_TAXON: &'static str = "http://purl.obolibrary.org/obo/NCBITaxon_";

/// The Dublin Core namespace.
pub const DC: &'static str = "http://purl.org/dc/elements/1.1";

/// causally upstream of
pub const CAUSALLY_UPSTREAM_OF: &'static str = "http://purl.obolibrary.org/obo/RO_0002411";

/// causally upstream of, positive effect
pub const CAUSALLY_UPSTREAM_OF_POSITIVE_EFFECT: &'static str = "http://purl.obolibrary.org/obo/RO_0002304";

/// causally upstream of, negative effect
pub const CAUSALLY_UPSTREAM_OF_NEGATIVE_EFFECT: &'static str = "http://purl.obolibrary.org/obo/RO_0002305";

/// part of
pub const PART_OF: &'static str = "http://purl.obolibrary.org/obo/BFO_0000050";

/// has participant
pub const HAS_PARTICIPANT: &'static str = "http://purl.obolibrary.org/obo/RO_0000057";

/// has input
pub const HAS_INPUT: &'static str = "http://purl.obolibrary.org/obo/RO_0002233";

/// occurs in
pub const OCCURS_IN: &'static str = "http://purl.obolibrary.org/obo/BFO_0000066";

/// The class of co-treatments.
pub const COTREATMENT: &'static str = "http://purl.obolibrary.org/obo/CTDI_26";

/// The class of bindings.
pub const BINDING: &'static str = "http://purl.obolibrary.org/obo/GO_0005488";

/// The class of processes.
pub const PROCESS: &'static str = "http://purl.obolibrary.org/obo/BFO_0000015";

/// The class of chemical entities.
pub const CHEMICAL_ENTITY: &'static str = "http://purl.obolibrary.org/obo/CHEBI_24431";

/// The class of genes.
pub const GENE_ENTITY: &'static str = "http://purl.obolibrary.org/obo/SO_0000704";

/// The literature source of a statement.
pub const DC_SOURCE: &'static str = "http://purl.org/dc/elements/1.1/source";

/// The label of an entity.
pub const RDFS_LABEL: &'static str = "http://www.w3.org/2000/01/rdf-schema#label";

/// The form in which a chemical takes part.
pub const HAS_FORM: &'static str = "http://ctd.example.org/has_form";

/// The provider of a record.
pub const PROVIDED_BY: &'static str = "http://purl.org/pav/providedBy";

/// The provider of every record.
pub const CTD_ROOT: &'static str = "http://ctdbase.org";

/// The class of each action code that names an effect.
pub open spec fn class_map_spec() -> Map<Seq<char>, Seq<char>> {
    Map::<Seq<char>, Seq<char>>::empty()
        .insert("exp"@, "http://purl.obolibrary.org/obo/GO_0010467"@)
        .insert("w"@, "http://purl.obolibrary.org/obo/CTDI_26"@)
        .insert("rec"@, "http://purl.obolibrary.org/obo/GO_0042221"@)
        .insert("met"@, "http://purl.obolibrary.org/obo/GO_0008152"@)
        .insert("act"@, "http://purl.obolibrary.org/obo/GO_0003674"@)
        .insert("myl"@, "http://purl.obolibrary.org/obo/GO_0032259"@)
        .insert("upt"@, "http://purl.obolibrary.org/obo/CTDI_25"@)
        .insert("imt"@, "http://purl.obolibrary.org/obo/GO_0098657"@)
        .insert("b"@, "http://purl.obolibrary.org/obo/GO_0005488"@)
        .insert("clv"@, "http://purl.obolibrary.org/obo/CTDI_8"@)
        .insert("oxd"@, "http://purl.obolibrary.org/obo/CTDI_20"@)
        .insert("red"@, "http://purl.obolibrary.org/obo/CTDI_21"@)
        .insert("csy"@, "http://purl.obolibrary.org/obo/CTDI_10"@)
        .insert("pho"@, "http://purl.obolibrary.org/obo/GO_0016310"@)
        .insert("loc"@, "http://purl.obolibrary.org/obo/GO_0051179"@)
        .insert("sec"@, "http://purl.obolibrary.org/obo/GO_0046903"@)
        .insert("spl"@, "http://purl.obolibrary.org/obo/GO_0008380"@)
        .insert("ogl"@, "http://purl.obolibrary.org/obo/GO_0006493"@)
        .insert("mut"@, "http://purl.obolibrary.org/obo/CTDI_19"@)
        .insert("trt"@, "http://purl.obolibrary.org/obo/GO_0006810"@)
        .insert("deg"@, "http://purl.obolibrary.org/obo/GO_0009056"@)
        .insert("sta"@, "http://purl.obolibrary.org/obo/CTDI_24"@)
        .insert("ace"@, "http://purl.obolibrary.org/obo/CTDI_2"@)
        .insert("fol"@, "http://purl.obolibrary.org/obo/CTDI_13"@)
        .insert("ubq"@, "http://purl.obolibrary.org/obo/GO_0016567"@)
        .insert("nit"@, "http://purl.obolibrary.org/obo/GO_0017014"@)
        .insert("alk"@, "http://purl.obolibrary.org/obo/CTDI_5"@)
        .insert("sum"@, "http://purl.obolibrary.org/obo/GO_0016925"@)
        .insert("pre"@, "http://purl.obolibrary.org/obo/GO_0018342"@)
        .insert("gyc"@, "http://purl.obolibrary.org/obo/CTDI_15"@)
        .insert("abu"@, "http://purl.obolibrary.org/obo/CTDI_1"@)
        .insert("glc"@, "http://purl.obolibrary.org/obo/GO_0018411"@)
        .insert("hdx"@, "http://purl.obolibrary.org/obo/CTDI_16"@)
}

/// The class of each action code that names an effect.
pub fn get_class_map() -> (r: IdMap)
    ensures
        r.wf(),
        r@ == class_map_spec(),
{
    let mut map = IdMap::new();
    map.insert(String::from_str("exp"), String::from_str("http://purl.obolibrary.org/obo/GO_0010467"));
    map.insert(String::from_str("w"), String::from_str("http://purl.obolibrary.org/obo/CTDI_26"));
    map.insert(String::from_str("rec"), String::from_str("http://purl.obolibrary.org/obo/GO_0042221"));
    map.insert(String::from_str("met"), String::from_str("http://purl.obolibrary.org/obo/GO_0008152"));
    map.insert(String::from_str("act"), String::from_str("http://purl.obolibrary.org/obo/GO_0003674"));
    map.insert(String::from_str("myl"), String::from_str("http://purl.obolibrary.org/obo/GO_0032259"));
    map.insert(String::from_str("upt"), String::from_str("http://purl.obolibrary.org/obo/CTDI_25"));
    map.insert(String::from_str("imt"), String::from_str("http://purl.obolibrary.org/obo/GO_0098657"));
    map.insert(String::from_str("b"), String::from_str("http://purl.obolibrary.org/obo/GO_0005488"));
    map.insert(String::from_str("clv"), String::from_str("http://purl.obolibrary.org/obo/CTDI_8"));
    map.insert(String::from_str("oxd"), String::from_str("http://purl.obolibrary.org/obo/CTDI_20"));
    map.insert(String::from_str("red"), String::from_str("http://purl.obolibrary.org/obo/CTDI_21"));
    map.insert(String::from_str("csy"), String::from_str("http://purl.obolibrary.org/obo/CTDI_10"));
    map.insert(String::from_str("pho"), String::from_str("http://purl.obolibrary.org/obo/GO_0016310"));
    map.insert(String::from_str("loc"), String::from_str("http://purl.obolibrary.org/obo/GO_0051179"));
    map.insert(String::from_str("sec"), String::from_str("http://purl.obolibrary.org/obo/GO_0046903"));
    map.insert(String::from_str("spl"), String::from_str("http://purl.obolibrary.org/obo/GO_0008380"));
    map.insert(String::from_str("ogl"), String::from_str("http://purl.obolibrary.org/obo/GO_0006493"));
    map.insert(String::from_str("mut"), String::from_str("http://purl.obolibrary.org/obo/CTDI_19"));
    map.insert(String::from_str("trt"), String::from_str("http://purl.obolibrary.org/obo/GO_0006810"));
    map.insert(String::from_str("deg"), String::from_str("http://purl.obolibrary.org/obo/GO_0009056"));
    map.insert(String::from_str("sta"), String::from_str("http://purl.obolibrary.org/obo/CTDI_24"));
    map.insert(String::from_str("ace"), String::from_str("http://purl.obolibrary.org/obo/CTDI_2"));
    map.insert(String::from_str("fol"), String::from_str("http://purl.obolibrary.org/obo/CTDI_13"));
    map.insert(String::from_str("ubq"), String::from_str("http://purl.obolibrary.org/obo/GO_0016567"));
    map.insert(String::from_str("nit"), String::from_str("http://purl.obolibrary.org/obo/GO_0017014"));
    map.insert(String::from_str("alk"), String::from_str("http://purl.obolibrary.org/obo/CTDI_5"));
    map.insert(String::from_str("sum"), String::from_str("http://purl.obolibrary.org/obo/GO_0016925"));
    map.insert(String::from_str("pre"), String::from_str("http://purl.obolibrary.org/obo/GO_0018342"));
    map.insert(String::from_str("gyc"), String::from_str("http://purl.obolibrary.org/obo/CTDI_15"));
    map.insert(String::from_str("abu"), String::from_str("http://purl.obolibrary.org/obo/CTDI_1"));
    map.insert(String::from_str("glc"), String::from_str("http://purl.obolibrary.org/obo/GO_0018411"));
    map.insert(String::from_str("hdx"), String::from_str("http://purl.obolibrary.org/obo/CTDI_16"));
    map
}

} // verus!
