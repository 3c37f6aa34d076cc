//! The tree builder: from an element tree of interaction records to `IXN`
//! values, attaching each action to the actor its parent id names.
use vstd::prelude::*;
use vstd::string::{StrSliceExecFns, StringExecFns};

use crate::idmap::str_equal;
use crate::model::{Actor, Reference, Taxon, AXN, IXN};
use crate::text::{dec, i32_text, i8_text, parse_i32, parse_i8, push_int};

verus! {

/// An element of a parsed document: its name, its attributes, its text when
/// it has some, and its child elements.
#[derive(Debug)]
pub struct XmlElement {
    pub name: String,
    pub attributes: Vec<(String, String)>,
    pub text: Option<String>,
    pub children: Vec<XmlElement>,
}

/// Why a record could not be read.
#[derive(Debug, Clone, Copy, PartialEq, Eq, Structural)]
pub enum ParseError {
    /// A required attribute is absent or empty.
    MissingAttribute,
    /// A numeric attribute does not hold a number of its type.
    InvalidNumber,
}

/// The value of the first attribute named `key`.
pub open spec fn attr_spec(attrs: Seq<(String, String)>, key: Seq<char>) -> Option<String>
    decreases attrs.len(),
{
    if attrs.len() == 0 {
        None
    } else if attrs[0].0@ == key {
        Some(attrs[0].1)
    } else {
        attr_spec(attrs.drop_first(), key)
    }
}

/// The value of the first attribute of `e` named `key`.
pub fn attribute<'a>(e: &'a XmlElement, key: &str) -> (r: Option<&'a String>)
    ensures
        match r {
            Some(v) => attr_spec(e.attributes@, key@) == Some(*v),
            None => attr_spec(e.attributes@, key@) is None,
        },
{
    let mut i: usize = 0;
    assert(e.attributes@.subrange(0, e.attributes@.len() as int) =~= e.attributes@);
    while i < e.attributes.len()
        invariant
            0 <= i <= e.attributes@.len(),
            attr_spec(e.attributes@, key@) == attr_spec(
                e.attributes@.subrange(i as int, e.attributes@.len() as int),
                key@,
            ),
        decreases e.attributes.len() - i,
    {
        let ghost rest = e.attributes@.subrange(i as int, e.attributes@.len() as int);
        if str_equal(e.attributes[i].0.as_str(), key) {
            return Some(&e.attributes[i].1);
        }
        assert(rest.drop_first() =~= e.attributes@.subrange(i + 1, e.attributes@.len() as int));
        i = i + 1;
    }
    None
}

/// Whether an element is named `name`.
pub open spec fn named(e: XmlElement, name: Seq<char>) -> bool {
    e.name@ == name
}

/// The error of reading an actor from `e`, if any: its `type`, `id`,
/// `position` and `parentid` attributes are required, the last two numeric.
pub open spec fn actor_error(e: XmlElement) -> Option<ParseError> {
    let a = e.attributes@;
    if attr_spec(a, "type"@) is None || attr_spec(a, "id"@) is None || attr_spec(
        a,
        "position"@,
    ) is None || attr_spec(a, "parentid"@) is None {
        Some(ParseError::MissingAttribute)
    } else if i8_text(attr_spec(a, "position"@)->0@) is None || i32_text(
        attr_spec(a, "parentid"@)->0@,
    ) is None {
        Some(ParseError::InvalidNumber)
    } else {
        None
    }
}

/// Whether the fields of `r` that attributes give are those of `e`.
pub open spec fn actor_read_from(r: Actor, e: XmlElement) -> bool {
    let a = e.attributes@;
    &&& Some(r.actor_type) == attr_spec(a, "type"@)
    &&& Some(r.id) == attr_spec(a, "id"@)
    &&& Some(r.position) == i8_text(attr_spec(a, "position"@)->0@)
    &&& Some(r.parent_id) == i32_text(attr_spec(a, "parentid"@)->0@)
    &&& r.form == attr_spec(a, "form"@)
    &&& r.form_qualifier is None
    &&& r.seq_id == attr_spec(a, "seqid"@)
}

fn clone_opt(o: Option<&String>) -> (r: Option<String>)
    ensures
        match o {
            Some(s) => r == Some(*s),
            None => r is None,
        },
{
    match o {
        Some(s) => Some(s.clone()),
        None => None,
    }
}

/// Reads the attributes of an `actor` element into an actor without text,
/// actions or nested actors.
pub fn get_actor_from_element(e: &XmlElement) -> (r: Result<Actor, ParseError>)
    ensures
        match r {
            Ok(a) => actor_error(*e) is None && actor_read_from(a, *e) && a.text is None
                && a.axns@.len() == 0 && a.actors@.len() == 0,
            Err(x) => actor_error(*e) == Some(x),
        },
{
    let actor_type = attribute(e, "type");
    let id = attribute(e, "id");
    let position = attribute(e, "position");
    let parent_id = attribute(e, "parentid");
    if actor_type.is_none() || id.is_none() || position.is_none() || parent_id.is_none() {
        return Err(ParseError::MissingAttribute);
    }
    let actor_type = actor_type.unwrap();
    let id = id.unwrap();
    let position = parse_i8(position.unwrap().as_str());
    let parent_id = parse_i32(parent_id.unwrap().as_str());
    if position.is_none() || parent_id.is_none() {
        return Err(ParseError::InvalidNumber);
    }
    let form = clone_opt(attribute(e, "form"));
    let seq_id = clone_opt(attribute(e, "seqid"));
    Ok(
        Actor::new(
            actor_type.clone(),
            id.clone(),
            position.unwrap(),
            parent_id.unwrap(),
            form,
            None,
            seq_id,
        ),
    )
}

/// The error of reading an action from `e`, if any: its `code`,
/// `degreecode`, `position` and `parentid` attributes are required, the
/// degree code non-empty and the last two numeric.
pub open spec fn axn_error(e: XmlElement) -> Option<ParseError> {
    let a = e.attributes@;
    if attr_spec(a, "code"@) is None || attr_spec(a, "degreecode"@) is None || attr_spec(
        a,
        "position"@,
    ) is None || attr_spec(a, "parentid"@) is None || attr_spec(a, "degreecode"@)->0@.len()
        == 0 {
        Some(ParseError::MissingAttribute)
    } else if i8_text(attr_spec(a, "position"@)->0@) is None || i32_text(
        attr_spec(a, "parentid"@)->0@,
    ) is None {
        Some(ParseError::InvalidNumber)
    } else {
        None
    }
}

/// The text of an element, empty when it has none.
pub open spec fn text_spec(e: XmlElement) -> Seq<char> {
    match e.text {
        Some(t) => t@,
        None => seq![],
    }
}

/// Whether `r` is the action that `e` describes.
pub open spec fn axn_read_from(r: AXN, e: XmlElement) -> bool {
    let a = e.attributes@;
    &&& Some(r.code) == attr_spec(a, "code"@)
    &&& r.degree_code == attr_spec(a, "degreecode"@)->0@[0]
    &&& Some(r.position) == i8_text(attr_spec(a, "position"@)->0@)
    &&& Some(r.parent_id) == i32_text(attr_spec(a, "parentid"@)->0@)
    &&& r.text@ == text_spec(e)
}

/// Reads an `axn` element into an action.
pub fn get_axn_from_element(e: &XmlElement) -> (r: Result<AXN, ParseError>)
    ensures
        match r {
            Ok(x) => axn_error(*e) is None && axn_read_from(x, *e),
            Err(x) => axn_error(*e) == Some(x),
        },
{
    let code = attribute(e, "code");
    let degree = attribute(e, "degreecode");
    let position = attribute(e, "position");
    let parent_id = attribute(e, "parentid");
    if code.is_none() || degree.is_none() || position.is_none() || parent_id.is_none() {
        return Err(ParseError::MissingAttribute);
    }
    let degree = degree.unwrap().as_str();
    if degree.unicode_len() == 0 {
        return Err(ParseError::MissingAttribute);
    }
    let degree_code = degree.get_char(0);
    let position = parse_i8(position.unwrap().as_str());
    let parent_id = parse_i32(parent_id.unwrap().as_str());
    if position.is_none() || parent_id.is_none() {
        return Err(ParseError::InvalidNumber);
    }
    let text = match &e.text {
        Some(t) => t.clone(),
        None => String::new(),
    };
    Ok(AXN::new(code.unwrap().clone(), degree_code, position.unwrap(), parent_id.unwrap(), text))
}


/// The `axn` elements under an actor element: its own `axn` children, and
/// those under its nested actor elements that have no text, in document order.
pub open spec fn axn_elements(e: XmlElement) -> Seq<XmlElement>
    decreases e, 1nat,
{
    axn_elements_upto(e, e.children@.len() as int)
}

/// The `axn` elements under the first `n` children of `e`.
pub open spec fn axn_elements_upto(e: XmlElement, n: int) -> Seq<XmlElement>
    decreases e, 0nat, n,
{
    if n <= 0 || n > e.children@.len() {
        seq![]
    } else {
        let c = e.children[n - 1];
        axn_elements_upto(e, n - 1) + if named(c, "axn"@) {
            seq![c]
        } else if named(c, "actor"@) && c.text is None {
            axn_elements(c)
        } else {
            seq![]
        }
    }
}

/// The error of the first element that cannot be read as an action.
pub open spec fn first_axn_error(elems: Seq<XmlElement>) -> Option<ParseError>
    decreases elems.len(),
{
    if elems.len() == 0 {
        None
    } else if axn_error(elems[0]) is Some {
        axn_error(elems[0])
    } else {
        first_axn_error(elems.drop_first())
    }
}

proof fn lemma_first_axn_error_append(a: Seq<XmlElement>, b: Seq<XmlElement>)
    ensures
        first_axn_error(a + b) == if first_axn_error(a) is Some {
            first_axn_error(a)
        } else {
            first_axn_error(b)
        },
    decreases a.len(),
{
    if a.len() > 0 {
        assert((a + b).drop_first() =~= a.drop_first() + b);
        lemma_first_axn_error_append(a.drop_first(), b);
    } else {
        assert(a + b =~= b);
    }
}

/// Whether every action of `out` is read from the element at the same place
/// of `elems`.
pub open spec fn axns_read_from(out: Seq<AXN>, elems: Seq<XmlElement>) -> bool {
    out.len() == elems.len() && forall|i: int|
        0 <= i < out.len() ==> axn_read_from(#[trigger] out[i], elems[i])
}

/// Reads every `axn` element under the actor element `e` and appends the
/// actions to `out`.
pub fn collect_axns(e: &XmlElement, out: &mut Vec<AXN>) -> (r: Result<(), ParseError>)
    ensures
        match r {
            Ok(()) => first_axn_error(axn_elements(*e)) is None && final(out)@.len() >= old(
                out,
            )@.len() && final(out)@.subrange(
                0,
                old(out)@.len() as int,
            ) == old(out)@ && axns_read_from(
                final(out)@.subrange(old(out)@.len() as int, final(out)@.len() as int),
                axn_elements(*e),
            ),
            Err(x) => first_axn_error(axn_elements(*e)) == Some(x),
        },
    decreases e,
{
    let ghost start = out@;
    let mut i: usize = 0;
    while i < e.children.len()
        invariant
            0 <= i <= e.children@.len(),
            out@.len() >= start.len(),
            out@.subrange(0, start.len() as int) == start,
            first_axn_error(axn_elements_upto(*e, i as int)) is None,
            axns_read_from(
                out@.subrange(start.len() as int, out@.len() as int),
                axn_elements_upto(*e, i as int),
            ),
        decreases e.children.len() - i,
    {
        let c = &e.children[i];
        let ghost before = out@;
        let ghost done = axn_elements_upto(*e, i as int);
        let ghost added = if named(*c, "axn"@) {
            seq![*c]
        } else if named(*c, "actor"@) && c.text is None {
            axn_elements(*c)
        } else {
            seq![]
        };
        assert(axn_elements_upto(*e, i + 1) == done + added);
        proof {
            lemma_first_axn_error_append(done, added);
        }
        if str_equal(c.name.as_str(), "axn") {
            match get_axn_from_element(c) {
                Ok(x) => {
                    out.push(x);
                    assert(out@.subrange(0, before.len() as int) =~= before);
                    assert(seq![*c].drop_first() =~= Seq::<XmlElement>::empty());
                    assert(first_axn_error(Seq::<XmlElement>::empty()) is None);
                    assert(first_axn_error(added) is None);
                },
                Err(x) => {
                    assert(first_axn_error(added) == Some(x)) by {
                        assert(added[0] == *c);
                    }
                    proof {
                        assert(axn_elements_upto(*e, e.children@.len() as int) == axn_elements(*e));
                        lemma_upto_error_stays(*e, i + 1, e.children@.len() as int);
                    }
                    return Err(x);
                },
            }
        } else if str_equal(c.name.as_str(), "actor") && c.text.is_none() {
            match collect_axns(c, out) {
                Ok(()) => {},
                Err(x) => {
                    proof {
                        lemma_upto_error_stays(*e, i + 1, e.children@.len() as int);
                    }
                    return Err(x);
                },
            }
        }
        assert(out@.len() >= before.len() && out@.subrange(0, before.len() as int) =~= before);
        proof {
            let mid = out@.subrange(start.len() as int, before.len() as int);
            let tail = out@.subrange(before.len() as int, out@.len() as int);
            assert(out@.subrange(start.len() as int, out@.len() as int) =~= mid + tail);
            assert(mid =~= before.subrange(start.len() as int, before.len() as int));
            assert(out@.subrange(0, start.len() as int) =~= before.subrange(0, start.len() as int));
            assert(axns_read_from(tail, added)) by {
                if named(*c, "axn"@) {
                } else if named(*c, "actor"@) && c.text is None {
                } else {
                    assert(tail.len() == 0);
                }
            }
            assert(first_axn_error(added) is None);
        }
        i = i + 1;
    }
    Ok(())
}

proof fn lemma_upto_error_stays(e: XmlElement, n: int, m: int)
    requires
        0 <= n <= m <= e.children@.len(),
        first_axn_error(axn_elements_upto(e, n)) is Some,
    ensures
        first_axn_error(axn_elements_upto(e, m)) == first_axn_error(axn_elements_upto(e, n)),
    decreases m - n,
{
    if m > n {
        lemma_upto_error_stays(e, n, m - 1);
        let c = e.children[m - 1];
        let added = if named(c, "axn"@) {
            seq![c]
        } else if named(c, "actor"@) && c.text is None {
            axn_elements(c)
        } else {
            seq![]
        };
        lemma_first_axn_error_append(axn_elements_upto(e, m - 1), added);
    }
}


/// Whether the parent id of the action names the actor.
pub open spec fn names_actor(x: AXN, a: Actor) -> bool {
    a.id@ == dec(x.parent_id as int)
}

/// Whether every action in the actor tree is attached to the actor whose id
/// its parent id names.
pub open spec fn attached_by_parent_id(a: Actor) -> bool
    decreases a,
{
    &&& forall|i: int| 0 <= i < a.axns@.len() ==> names_actor(#[trigger] a.axns@[i], a)
    &&& forall|i: int|
        0 <= i < a.actors@.len() ==> attached_by_parent_id(#[trigger] a.actors@[i])
}

/// Whether every actor without text in the tree holds exactly the actions of
/// `pool` whose parent id names it, in the order of `pool`.
pub open spec fn attached_from(a: Actor, pool: Seq<AXN>) -> bool
    decreases a,
{
    &&& a.text is None ==> a.axns@ == pool.filter(|x: AXN| a.id@ == dec(x.parent_id as int))
    &&& forall|i: int|
        0 <= i < a.actors@.len() ==> attached_from(#[trigger] a.actors@[i], pool)
}

/// The error of building an actor tree from `e`, if any.
pub open spec fn tree_error(e: XmlElement) -> Option<ParseError>
    decreases e, 1nat,
{
    if actor_error(e) is Some {
        actor_error(e)
    } else if e.text is Some {
        None
    } else {
        children_error(e, e.children@.len() as int)
    }
}

/// The error of building the nested actors among the first `n` children of
/// `e`, if any.
pub open spec fn children_error(e: XmlElement, n: int) -> Option<ParseError>
    decreases e, 0nat, n,
{
    if n <= 0 || n > e.children@.len() {
        None
    } else if children_error(e, n - 1) is Some {
        children_error(e, n - 1)
    } else if named(e.children[n - 1], "actor"@) {
        tree_error(e.children[n - 1])
    } else {
        None
    }
}

/// How many of the first `n` children of `e` are actor elements.
pub open spec fn actor_children(e: XmlElement, n: int) -> nat
    decreases n,
{
    if n <= 0 || n > e.children@.len() {
        0
    } else {
        actor_children(e, n - 1) + if named(e.children[n - 1], "actor"@) {
            1nat
        } else {
            0nat
        }
    }
}

proof fn lemma_children_error_stays(e: XmlElement, n: int, m: int)
    requires
        0 <= n <= m <= e.children@.len(),
        children_error(e, n) is Some,
    ensures
        children_error(e, m) == children_error(e, n),
    decreases m - n,
{
    if m > n {
        lemma_children_error_stays(e, n, m - 1);
    }
}

fn parent_text(x: &AXN) -> (r: String)
    ensures
        r@ == dec(x.parent_id as int),
{
    let mut s = String::new();
    push_int(&mut s, x.parent_id as i64);
    s
}

/// The actions of `pool` whose parent id names the actor `id`.
pub fn axns_of(pool: &Vec<AXN>, id: &String) -> (r: Vec<AXN>)
    ensures
        r@ == pool@.filter(|x: AXN| id@ == dec(x.parent_id as int)),
{
    let mut r: Vec<AXN> = Vec::new();
    let mut i: usize = 0;
    while i < pool.len()
        invariant
            0 <= i <= pool@.len(),
            r@ == pool@.subrange(0, i as int).filter(|x: AXN| id@ == dec(x.parent_id as int)),
        decreases pool.len() - i,
    {
        let ghost pred = |x: AXN| id@ == dec(x.parent_id as int);
        proof {
            reveal(Seq::filter);
            assert(pool@.subrange(0, i + 1).drop_last() =~= pool@.subrange(0, i as int));
        }
        if str_equal(parent_text(&pool[i]).as_str(), id.as_str()) {
            r.push(pool[i].duplicate());
        }
        i = i + 1;
    }
    assert(pool@.subrange(0, i as int) =~= pool@);
    r
}

/// Builds the actor tree of the actor element `e`. An element with text is a
/// leaf; otherwise its actions are those of `pool` whose parent id names it,
/// and its nested actors are built from its actor children.
pub fn parse_actor_element(e: &XmlElement, pool: &Vec<AXN>) -> (r: Result<Actor, ParseError>)
    ensures
        match r {
            Ok(a) => {
                &&& tree_error(*e) is None
                &&& actor_read_from(a, *e)
                &&& a.text == e.text
                &&& attached_by_parent_id(a)
                &&& attached_from(a, pool@)
                &&& e.text is Some ==> a.axns@.len() == 0 && a.actors@.len() == 0
                &&& e.text is None ==> a.axns@ == pool@.filter(
                    |x: AXN| a.id@ == dec(x.parent_id as int),
                ) && a.actors@.len() == actor_children(*e, e.children@.len() as int)
            },
            Err(x) => tree_error(*e) == Some(x),
        },
    decreases e,
{
    let mut a = match get_actor_from_element(e) {
        Ok(a) => a,
        Err(x) => {
            return Err(x);
        },
    };
    match &e.text {
        Some(t) => {
            a.text = Some(t.clone());
            return Ok(a);
        },
        None => {},
    }
    a.axns = axns_of(pool, &a.id);
    let mut i: usize = 0;
    while i < e.children.len()
        invariant
            0 <= i <= e.children@.len(),
            e.text is None,
            actor_error(*e) is None,
            actor_read_from(a, *e),
            a.text is None,
            a.axns@ == pool@.filter(|x: AXN| a.id@ == dec(x.parent_id as int)),
            children_error(*e, i as int) is None,
            a.actors@.len() == actor_children(*e, i as int),
            forall|j: int| 0 <= j < a.actors@.len() ==> attached_by_parent_id(#[trigger] a.actors@[j]),
            forall|j: int| 0 <= j < a.actors@.len() ==> attached_from(#[trigger] a.actors@[j], pool@),
        decreases e.children.len() - i,
    {
        let c = &e.children[i];
        if str_equal(c.name.as_str(), "actor") {
            match parse_actor_element(c, pool) {
                Ok(child) => {
                    a.actors.push(child);
                },
                Err(x) => {
                    proof {
                        lemma_children_error_stays(*e, i + 1, e.children@.len() as int);
                    }
                    return Err(x);
                },
            }
        }
        i = i + 1;
    }
    proof {
        assert forall|j: int| 0 <= j < a.axns@.len() implies names_actor(#[trigger] a.axns@[j], a) by {
            let pred = |x: AXN| a.id@ == dec(x.parent_id as int);
            assert(pool@.filter(pred).contains(a.axns@[j]));
            pool@.filter_lemma(pred);
        }
    }
    Ok(a)
}


/// The error of reading a numeric attribute `key` of `e`, if any.
pub open spec fn number_error(e: XmlElement, key: Seq<char>) -> Option<ParseError> {
    match attr_spec(e.attributes@, key) {
        None => Some(ParseError::MissingAttribute),
        Some(v) => if i32_text(v@) is None {
            Some(ParseError::InvalidNumber)
        } else {
            None
        },
    }
}

/// The error of reading one child element of a record, if any. Elements of
/// other names are ignored.
pub open spec fn record_child_error(c: XmlElement) -> Option<ParseError> {
    if named(c, "taxon"@) {
        number_error(c, "id"@)
    } else if named(c, "reference"@) {
        number_error(c, "pmid"@)
    } else if named(c, "axn"@) {
        axn_error(c)
    } else if named(c, "actor"@) {
        if c.text is None && first_axn_error(axn_elements(c)) is Some {
            first_axn_error(axn_elements(c))
        } else {
            tree_error(c)
        }
    } else {
        None
    }
}

/// The first error among the first `n` children of a record element.
pub open spec fn record_children_error(e: XmlElement, n: int) -> Option<ParseError>
    decreases n,
{
    if n <= 0 || n > e.children@.len() {
        None
    } else if record_children_error(e, n - 1) is Some {
        record_children_error(e, n - 1)
    } else {
        record_child_error(e.children[n - 1])
    }
}

/// The error of reading the record element `e`, if any.
pub open spec fn record_error(e: XmlElement) -> Option<ParseError> {
    if number_error(e, "id"@) is Some {
        number_error(e, "id"@)
    } else {
        record_children_error(e, e.children@.len() as int)
    }
}

/// The taxa that the first `n` children give, as id and text.
pub open spec fn taxa_upto(cs: Seq<XmlElement>, n: int) -> Seq<(i32, Seq<char>)>
    decreases n,
{
    if n <= 0 || n > cs.len() {
        seq![]
    } else {
        taxa_upto(cs, n - 1) + if named(cs[n - 1], "taxon"@) {
            seq![
                (
                    i32_text(attr_spec(cs[n - 1].attributes@, "id"@)->0@)->0,
                    text_spec(cs[n - 1]),
                ),
            ]
        } else {
            seq![]
        }
    }
}

/// The PubMed ids that the first `n` children give.
pub open spec fn references_upto(cs: Seq<XmlElement>, n: int) -> Seq<i32>
    decreases n,
{
    if n <= 0 || n > cs.len() {
        seq![]
    } else {
        references_upto(cs, n - 1) + if named(cs[n - 1], "reference"@) {
            seq![i32_text(attr_spec(cs[n - 1].attributes@, "pmid"@)->0@)->0]
        } else {
            seq![]
        }
    }
}

/// The taxa of a record, as id and text.
pub open spec fn taxa_view(x: IXN) -> Seq<(i32, Seq<char>)> {
    x.taxon@.map_values(|t: Taxon| (t.id, t.text@))
}

/// The PubMed ids of a record.
pub open spec fn references_view(x: IXN) -> Seq<i32> {
    x.reference@.map_values(|r: Reference| r.pm_id)
}

/// Whether every action and actor at the top of the record names the record
/// as its parent, and every actor tree is attached by parent id.
pub open spec fn record_attached(x: IXN) -> bool {
    &&& forall|i: int| 0 <= i < x.axns@.len() ==> (#[trigger] x.axns@[i]).parent_id == x.id
    &&& forall|i: int|
        0 <= i < x.actors@.len() ==> (#[trigger] x.actors@[i]).parent_id == x.id
            && attached_by_parent_id(x.actors@[i])
}

proof fn lemma_record_error_stays(e: XmlElement, n: int, m: int)
    requires
        0 <= n <= m <= e.children@.len(),
        record_children_error(e, n) is Some,
    ensures
        record_children_error(e, m) == record_children_error(e, n),
    decreases m - n,
{
    if m > n {
        lemma_record_error_stays(e, n, m - 1);
    }
}

fn number_attribute(e: &XmlElement, key: &str) -> (r: Result<i32, ParseError>)
    ensures
        match r {
            Ok(v) => number_error(*e, key@) is None && i32_text(
                attr_spec(e.attributes@, key@)->0@,
            ) == Some(v),
            Err(x) => number_error(*e, key@) == Some(x),
        },
{
    match attribute(e, key) {
        None => Err(ParseError::MissingAttribute),
        Some(v) => match parse_i32(v.as_str()) {
            Some(n) => Ok(n),
            None => Err(ParseError::InvalidNumber),
        },
    }
}

/// Reads one record element. Its taxa and references are kept in document
/// order; an action or actor at its top whose parent id is not the record's
/// is dropped.
pub fn parse_record(e: &XmlElement) -> (r: Result<IXN, ParseError>)
    ensures
        match r {
            Ok(x) => {
                &&& record_error(*e) is None
                &&& Some(x.id) == i32_text(attr_spec(e.attributes@, "id"@)->0@)
                &&& taxa_view(x) == taxa_upto(e.children@, e.children@.len() as int)
                &&& references_view(x) == references_upto(e.children@, e.children@.len() as int)
                &&& record_attached(x)
            },
            Err(x) => record_error(*e) == Some(x),
        },
{
    let mut ixn = IXN::new();
    ixn.id = match number_attribute(e, "id") {
        Ok(v) => v,
        Err(x) => {
            return Err(x);
        },
    };
    let mut i: usize = 0;
    while i < e.children.len()
        invariant
            0 <= i <= e.children@.len(),
            number_error(*e, "id"@) is None,
            Some(ixn.id) == i32_text(attr_spec(e.attributes@, "id"@)->0@),
            record_children_error(*e, i as int) is None,
            taxa_view(ixn) == taxa_upto(e.children@, i as int),
            references_view(ixn) == references_upto(e.children@, i as int),
            record_attached(ixn),
        decreases e.children.len() - i,
    {
        let c = &e.children[i];
        proof {
            reveal_strlit("taxon");
            reveal_strlit("reference");
            assert("taxon"@.len() != "reference"@.len());
        }
        let ghost refs_before = references_view(ixn);
        let step: Result<(), ParseError> = if str_equal(c.name.as_str(), "taxon") {
            match number_attribute(c, "id") {
                Ok(id) => {
                    let text = match &c.text {
                        Some(t) => t.clone(),
                        None => String::new(),
                    };
                    ixn.taxon.push(Taxon::new(id, text));
                    Ok(())
                },
                Err(x) => Err(x),
            }
        } else if str_equal(c.name.as_str(), "reference") {
            match number_attribute(c, "pmid") {
                Ok(pm_id) => {
                    ixn.reference.push(Reference::new(pm_id));
                    assert(references_view(ixn) =~= refs_before.push(pm_id));
                    Ok(())
                },
                Err(x) => Err(x),
            }
        } else if str_equal(c.name.as_str(), "axn") {
            match get_axn_from_element(c) {
                Ok(x) => {
                    if x.parent_id == ixn.id {
                        ixn.axns.push(x);
                    }
                    Ok(())
                },
                Err(x) => Err(x),
            }
        } else if str_equal(c.name.as_str(), "actor") {
            let mut pool: Vec<AXN> = Vec::new();
            let collected = if c.text.is_none() {
                collect_axns(c, &mut pool)
            } else {
                Ok(())
            };
            match collected {
                Ok(()) => match parse_actor_element(c, &pool) {
                    Ok(a) => {
                        if a.parent_id == ixn.id {
                            ixn.actors.push(a);
                        }
                        Ok(())
                    },
                    Err(x) => Err(x),
                },
                Err(x) => Err(x),
            }
        } else {
            Ok(())
        };
        match step {
            Ok(()) => {},
            Err(x) => {
                proof {
                    lemma_record_error_stays(*e, i + 1, e.children@.len() as int);
                }
                return Err(x);
            },
        }
        assert(taxa_view(ixn) =~= taxa_upto(e.children@, i + 1));
        assert(references_upto(e.children@, i + 1) == references_upto(e.children@, i as int) + if named(*c, "reference"@) {
            seq![i32_text(attr_spec(c.attributes@, "pmid"@)->0@)->0]
        } else {
            seq![]
        });
        assert(references_view(ixn) =~= references_upto(e.children@, i + 1));
        i = i + 1;
    }
    Ok(ixn)
}

/// Reads every child element of a document element as a record. A record
/// that cannot be read yields its error; the others are read regardless.
pub fn parse_input(root: &XmlElement) -> (r: Vec<Result<IXN, ParseError>>)
    ensures
        r@.len() == root.children@.len(),
        forall|i: int|
            0 <= i < r@.len() ==> match #[trigger] r@[i] {
                Ok(x) => record_error(root.children@[i]) is None && Some(x.id) == i32_text(
                    attr_spec(root.children@[i].attributes@, "id"@)->0@,
                ) && taxa_view(x) == taxa_upto(
                    root.children@[i].children@,
                    root.children@[i].children@.len() as int,
                ) && references_view(x) == references_upto(
                    root.children@[i].children@,
                    root.children@[i].children@.len() as int,
                ) && record_attached(x),
                Err(x) => record_error(root.children@[i]) == Some(x),
            },
{
    let mut r: Vec<Result<IXN, ParseError>> = Vec::new();
    let mut i: usize = 0;
    while i < root.children.len()
        invariant
            0 <= i <= root.children@.len(),
            r@.len() == i,
            forall|j: int|
                0 <= j < i ==> match #[trigger] r@[j] {
                    Ok(x) => record_error(root.children@[j]) is None && Some(x.id) == i32_text(
                        attr_spec(root.children@[j].attributes@, "id"@)->0@,
                    ) && taxa_view(x) == taxa_upto(
                        root.children@[j].children@,
                        root.children@[j].children@.len() as int,
                    ) && references_view(x) == references_upto(
                        root.children@[j].children@,
                        root.children@[j].children@.len() as int,
                    ) && record_attached(x),
                    Err(x) => record_error(root.children@[j]) == Some(x),
                },
        decreases root.children.len() - i,
    {
        r.push(parse_record(&root.children[i]));
        i = i + 1;
    }
    r
}

} // verus!
