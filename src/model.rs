//! The records of the interaction corpus, as the tree builder produces them.
use vstd::prelude::*;

verus! {

broadcast use vstd::std_specs::vec::axiom_vec_index_decreases;

/// An organism in which an interaction was observed.
#[derive(Debug, Clone, PartialEq)]
pub struct Taxon {
    pub id: i32,
    pub text: String,
}

impl Taxon {
    pub fn new(id: i32, text: String) -> (r: Taxon)
        ensures
            r.id == id,
            r.text == text,
    {
        Taxon { id, text }
    }
}

/// A literature reference, by its PubMed identifier.
#[derive(Debug, Clone, PartialEq)]
pub struct Reference {
    pub pm_id: i32,
}

impl Reference {
    pub fn new(pm_id: i32) -> (r: Reference)
        ensures
            r.pm_id == pm_id,
    {
        Reference { pm_id }
    }
}

/// An action: an effect code with its degree, qualifying the actor or record
/// whose id is `parent_id`.
#[derive(Debug, Clone, PartialEq)]
pub struct AXN {
    pub code: String,
    pub degree_code: char,
    pub position: i8,
    pub parent_id: i32,
    pub text: String,
}

impl AXN {
    pub fn new(code: String, degree_code: char, position: i8, parent_id: i32, text: String) -> (r: AXN)
        ensures
            r.code == code,
            r.degree_code == degree_code,
            r.position == position,
            r.parent_id == parent_id,
            r.text == text,
    {
        AXN { code, degree_code, position, parent_id, text }
    }

    /// A copy of this action.
    pub fn duplicate(&self) -> (r: AXN)
        ensures
            r == *self,
    {
        AXN {
            code: self.code.clone(),
            degree_code: self.degree_code,
            position: self.position,
            parent_id: self.parent_id,
            text: self.text.clone(),
        }
    }
}

/// A participant of an interaction: a chemical or a gene when it carries a
/// display text, otherwise a nested interaction made of its own actions and
/// actors.
#[derive(Debug, PartialEq)]
pub struct Actor {
    pub actor_type: String,
    pub id: String,
    pub position: i8,
    pub parent_id: i32,
    pub form: Option<String>,
    pub form_qualifier: Option<String>,
    pub seq_id: Option<String>,
    pub text: Option<String>,
    pub axns: Vec<AXN>,
    pub actors: Vec<Actor>,
}

/// An actor followed by all the actors nested in it, depth first.
pub open spec fn flat_spec(a: Actor) -> Seq<Actor>
    decreases a, 1nat,
{
    seq![a] + flat_upto(a, a.actors.len() as int)
}

/// The flattenings of the first `i` children of `a`, one after the other.
pub open spec fn flat_upto(a: Actor, i: int) -> Seq<Actor>
    decreases a, 0nat, i,
{
    if 0 < i <= a.actors.len() {
        flat_upto(a, i - 1) + flat_spec(a.actors[i - 1])
    } else {
        seq![]
    }
}

/// The actors that a sequence of references points to.
pub open spec fn deref_all(s: Seq<&Actor>) -> Seq<Actor> {
    s.map_values(|a: &Actor| *a)
}

impl Actor {
    pub fn new(
        actor_type: String,
        id: String,
        position: i8,
        parent_id: i32,
        form: Option<String>,
        form_qualifier: Option<String>,
        seq_id: Option<String>,
    ) -> (r: Actor)
        ensures
            r.actor_type == actor_type,
            r.id == id,
            r.position == position,
            r.parent_id == parent_id,
            r.form == form,
            r.form_qualifier == form_qualifier,
            r.seq_id == seq_id,
            r.text.is_none(),
            r.axns@.len() == 0,
            r.actors@.len() == 0,
    {
        Actor {
            actor_type,
            id,
            position,
            parent_id,
            form,
            form_qualifier,
            seq_id,
            text: None,
            axns: Vec::new(),
            actors: Vec::new(),
        }
    }

    /// This actor and every actor nested in it, depth first.
    pub fn flat(&self) -> (r: Vec<&Actor>)
        ensures
            deref_all(r@) == flat_spec(*self),
        decreases self,
    {
        let mut r: Vec<&Actor> = Vec::new();
        r.push(self);
        let mut i: usize = 0;
        while i < self.actors.len()
            invariant
                0 <= i <= self.actors.len(),
                deref_all(r@) == seq![*self] + flat_upto(*self, i as int),
            decreases self.actors.len() - i,
        {
            let ghost before = r@;
            let mut sub = self.actors[i].flat();
            let ghost added = sub@;
            r.append(&mut sub);
            assert(deref_all(r@) =~= deref_all(before) + deref_all(added));
            i = i + 1;
            assert(deref_all(r@) =~= seq![*self] + flat_upto(*self, i as int));
        }
        r
    }
}

/// An interaction record.
#[derive(Debug, PartialEq)]
pub struct IXN {
    pub id: i32,
    pub taxon: Vec<Taxon>,
    pub reference: Vec<Reference>,
    pub axns: Vec<AXN>,
    pub actors: Vec<Actor>,
}

impl IXN {
    pub fn new() -> (r: IXN)
        ensures
            r.id == 0,
            r.taxon@.len() == 0,
            r.reference@.len() == 0,
            r.axns@.len() == 0,
            r.actors@.len() == 0,
    {
        IXN { id: 0, taxon: Vec::new(), reference: Vec::new(), axns: Vec::new(), actors: Vec::new() }
    }
}

/// A document of interaction records.
#[derive(Debug, PartialEq)]
pub struct IXNSet {
    pub ixns: Vec<IXN>,
}

impl IXNSet {
    pub fn new() -> (r: IXNSet)
        ensures
            r.ixns@.len() == 0,
    {
        IXNSet { ixns: Vec::new() }
    }

    pub fn ixn_mut(&mut self) -> (r: &mut Vec<IXN>)
        ensures
            *r == old(self).ixns,
            final(self).ixns == *final(r),
    {
        &mut self.ixns
    }
}

/// A set of action codes together with the actors they apply to.
pub struct Interaction {
    pub codes: Vec<String>,
    pub actors: Vec<Actor>,
}

impl Interaction {
    pub fn new(codes: Vec<String>, actors: Vec<Actor>) -> (r: Interaction)
        ensures
            r.codes == codes,
            r.actors == actors,
    {
        Interaction { codes, actors }
    }
}

} // verus!
