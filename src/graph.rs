use vstd::prelude::*;
use crate::term::{well_placed, MapError, Term, TermModel};

verus! {

/// The mathematical value of a triple: subject, predicate, object.
pub type TripleModel = (TermModel, TermModel, TermModel);

/// One edge of the graph.
#[derive(Debug, Clone, PartialEq, Eq)]
pub struct Triple {
    pub subject: Term,
    pub predicate: Term,
    pub object: Term,
}

impl View for Triple {
    type V = TripleModel;

    open spec fn view(&self) -> TripleModel {
        (self.subject@, self.predicate@, self.object@)
    }
}

pub open spec fn triples_view(v: Seq<Triple>) -> Seq<TripleModel> {
    v.map_values(|t: Triple| t@)
}

/// The triples of one graph, kept in the order in which they were inserted.
/// Nothing is ever removed, and equal triples are not merged.
pub struct GraphStore {
    triples: Vec<Triple>,
}

impl View for GraphStore {
    type V = Seq<TripleModel>;

    closed spec fn view(&self) -> Seq<TripleModel> {
        triples_view(self.triples@)
    }
}

impl GraphStore {
    pub fn new() -> (r: GraphStore)
        ensures
            r@ == Seq::<TripleModel>::empty(),
    {
        let r = GraphStore { triples: Vec::new() };
        assert(r@ =~= Seq::<TripleModel>::empty());
        r
    }

    /// Appends the triple `(subject, predicate, object)`; refused when the
    /// subject is a literal or the predicate is not a named node.
    pub fn insert(&mut self, subject: Term, predicate: Term, object: Term) -> (r: Result<
        (),
        MapError,
    >)
        ensures
            well_placed(subject@, predicate@) ==> r is Ok && final(self)@ == old(self)@.push(
                (subject@, predicate@, object@),
            ),
            !well_placed(subject@, predicate@) ==> r == Err::<(), MapError>(
                MapError::InvalidTriplePosition,
            ) && final(self)@ == old(self)@,
    {
        if subject.is_literal() || !predicate.is_named() {
            return Err(MapError::InvalidTriplePosition);
        }
        let t = Triple { subject, predicate, object };
        self.triples.push(t);
        assert(self@ =~= old(self)@.push((subject@, predicate@, object@)));
        Ok(())
    }

    /// The triples in insertion order.
    pub fn triples(&self) -> (r: &Vec<Triple>)
        ensures
            triples_view(r@) == self@,
    {
        &self.triples
    }

    pub fn len(&self) -> (r: usize)
        ensures
            r == self@.len(),
    {
        self.triples.len()
    }
}

} // verus!
