use vstd::prelude::*;

verus! {

/// Whether `s` is an absolute IRI (with an optional fragment), as sophia's
/// IRI grammar decides it.
pub uninterp spec fn absolute_iri(s: Seq<char>) -> bool;

/// Relies on sophia_iri's `is_absolute_iri_ref`: a pure check of its text
/// against the grammar of absolute IRIs.
pub assume_specification[ sophia::iri::is_absolute_iri_ref ](txt: &str) -> (r: bool)
    ensures
        r == absolute_iri(txt@),
;

/// What can go wrong while building or rendering a graph.
#[derive(Debug, Clone, Copy, PartialEq, Eq, Structural)]
pub enum MapError {
    InvalidIri,
    UnknownPrefix,
    InvalidTriplePosition,
    SerializationFailure,
}

/// The mathematical value of a term.
pub enum TermModel {
    Named(Seq<char>),
    Blank(u64),
    Literal(Seq<char>, Option<Seq<char>>),
}

pub open spec fn opt_view(o: Option<String>) -> Option<Seq<char>> {
    match o {
        Some(s) => Some(s@),
        None => None,
    }
}

/// Every IRI the term holds, as a node or as a datatype, is absolute.
pub open spec fn iris_valid(t: TermModel) -> bool {
    match t {
        TermModel::Named(i) => absolute_iri(i),
        TermModel::Literal(_, Some(d)) => absolute_iri(d),
        _ => true,
    }
}

#[derive(Debug, Clone, PartialEq, Eq)]
enum Node {
    Named(String),
    Blank(u64),
    Literal(String, Option<String>),
}

/// One RDF term: a named node (an absolute IRI), a blank node (a number
/// unique within one graph, handed out by an `IdGenerator` only), or a
/// literal (a lexical form and an optional datatype IRI; without one it is
/// a plain string). Every IRI a term holds has been checked.
#[derive(Debug, PartialEq, Eq)]
pub struct Term {
    node: Node,
}

impl Clone for Term {
    fn clone(&self) -> (r: Term)
        ensures
            r@ == self@,
    {
        self.duplicate()
    }
}

/// A term taken apart, borrowing its text.
pub enum TermParts<'a> {
    Named(&'a String),
    Blank(u64),
    Literal(&'a String, Option<&'a String>),
}

pub open spec fn parts_view(p: TermParts) -> TermModel {
    match p {
        TermParts::Named(i) => TermModel::Named(i@),
        TermParts::Blank(n) => TermModel::Blank(n),
        TermParts::Literal(v, Some(d)) => TermModel::Literal(v@, Some(d@)),
        TermParts::Literal(v, None) => TermModel::Literal(v@, None),
    }
}

impl View for Term {
    type V = TermModel;

    closed spec fn view(&self) -> TermModel {
        match self.node {
            Node::Named(i) => TermModel::Named(i@),
            Node::Blank(n) => TermModel::Blank(n),
            Node::Literal(v, d) => TermModel::Literal(v@, opt_view(d)),
        }
    }
}

/// A triple whose subject is a named or blank node and whose predicate is a
/// named node.
pub open spec fn well_placed(s: TermModel, p: TermModel) -> bool {
    !(s is Literal) && p is Named
}

impl Term {
    #[verifier::type_invariant]
    closed spec fn valid(&self) -> bool {
        iris_valid(self@)
    }

    /// A named node for `iri`, which must be an absolute IRI.
    pub fn named(iri: &str) -> (r: Result<Term, MapError>)
        ensures
            absolute_iri(iri@) ==> (r matches Ok(t) && t@ == TermModel::Named(iri@)),
            !absolute_iri(iri@) ==> r == Err::<Term, MapError>(MapError::InvalidIri),
    {
        if sophia::iri::is_absolute_iri_ref(iri) {
            Ok(Term { node: Node::Named(iri.to_owned()) })
        } else {
            Err(MapError::InvalidIri)
        }
    }

    /// A literal with lexical form `value`, typed with `datatype` when one is
    /// given, which must then be an absolute IRI.
    pub fn literal(value: &str, datatype: Option<&str>) -> (r: Result<Term, MapError>)
        ensures
            match datatype {
                None => (r matches Ok(t) && t@ == TermModel::Literal(value@, None)),
                Some(d) => if absolute_iri(d@) {
                    (r matches Ok(t) && t@ == TermModel::Literal(value@, Some(d@)))
                } else {
                    r == Err::<Term, MapError>(MapError::InvalidIri)
                },
            },
    {
        match datatype {
            None => Ok(Term { node: Node::Literal(value.to_owned(), None) }),
            Some(d) => {
                if sophia::iri::is_absolute_iri_ref(d) {
                    Ok(Term { node: Node::Literal(value.to_owned(), Some(d.to_owned())) })
                } else {
                    Err(MapError::InvalidIri)
                }
            },
        }
    }

    /// A named node for an IRI already known to be absolute.
    pub(crate) fn from_absolute(iri: String) -> (r: Term)
        requires
            absolute_iri(iri@),
        ensures
            r@ == TermModel::Named(iri@),
    {
        Term { node: Node::Named(iri) }
    }

    /// A plain string literal.
    pub(crate) fn plain(value: String) -> (r: Term)
        ensures
            r@ == TermModel::Literal(value@, None),
    {
        Term { node: Node::Literal(value, None) }
    }

    /// A literal typed with an IRI already known to be absolute.
    pub(crate) fn typed(value: String, datatype: String) -> (r: Term)
        requires
            absolute_iri(datatype@),
        ensures
            r@ == TermModel::Literal(value@, Some(datatype@)),
    {
        Term { node: Node::Literal(value, Some(datatype)) }
    }

    /// The blank node numbered `n`; only the identity generator makes them.
    pub(crate) fn blank(n: u64) -> (r: Term)
        ensures
            r@ == TermModel::Blank(n),
    {
        Term { node: Node::Blank(n) }
    }

    /// The parts of the term; its IRIs are absolute.
    pub fn parts(&self) -> (r: TermParts<'_>)
        ensures
            parts_view(r) == self@,
            iris_valid(self@),
    {
        proof {
            use_type_invariant(self);
        }
        match &self.node {
            Node::Named(i) => TermParts::Named(i),
            Node::Blank(n) => TermParts::Blank(*n),
            Node::Literal(v, d) => TermParts::Literal(v, d.as_ref()),
        }
    }

    /// A copy of this term.
    pub fn duplicate(&self) -> (r: Term)
        ensures
            r@ == self@,
    {
        proof {
            use_type_invariant(self);
        }
        let node = match &self.node {
            Node::Named(i) => Node::Named(i.clone()),
            Node::Blank(n) => Node::Blank(*n),
            Node::Literal(v, d) => {
                let d2 = match d {
                    Some(s) => Some(s.clone()),
                    None => None,
                };
                Node::Literal(v.clone(), d2)
            },
        };
        Term { node }
    }

    pub fn is_literal(&self) -> (r: bool)
        ensures
            r == (self@ is Literal),
    {
        matches!(self.node, Node::Literal(..))
    }

    pub fn is_named(&self) -> (r: bool)
        ensures
            r == (self@ is Named),
    {
        matches!(self.node, Node::Named(..))
    }

    /// The number of a blank node.
    pub fn blank_id(&self) -> (r: Option<u64>)
        ensures
            match self@ {
                TermModel::Blank(n) => r == Some(n),
                _ => r is None,
            },
    {
        match self.node {
            Node::Blank(n) => Some(n),
            _ => None,
        }
    }
}

} // verus!
