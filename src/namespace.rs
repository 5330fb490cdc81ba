use vstd::prelude::*;
use vstd::string::*;
use crate::term::{absolute_iri, MapError, Term, TermModel};

verus! {

/// Prefix/base pairs, as plain text.
pub type Entries = Seq<(Seq<char>, Seq<char>)>;

/// The base bound to prefix `p`: the first entry that carries it.
pub open spec fn base_of(entries: Entries, p: Seq<char>) -> Option<Seq<char>>
    decreases entries.len(),
{
    if entries.len() == 0 {
        None
    } else if entries[0].0 == p {
        Some(entries[0].1)
    } else {
        base_of(entries.drop_first(), p)
    }
}

/// What resolving `(p, local)` against `entries` gives.
pub open spec fn resolve_spec(entries: Entries, p: Seq<char>, local: Seq<char>) -> Result<
    TermModel,
    MapError,
> {
    match base_of(entries, p) {
        None => Err(MapError::UnknownPrefix),
        Some(b) => if absolute_iri(b + local) {
            Ok(TermModel::Named(b + local))
        } else {
            Err(MapError::InvalidIri)
        },
    }
}

pub open spec fn pairs_view(v: Seq<(String, String)>) -> Entries {
    v.map_values(|e: (String, String)| (e.0@, e.1@))
}

/// The prefixes of the ontology and of the general vocabularies it uses.
pub open spec fn ontology_entries() -> Entries {
    seq![
        ("cat"@, "http://example.org/cat#"@),
        ("allores"@, "http://purl.allotrope.org/ontologies/result#"@),
        ("alloqual"@, "http://purl.allotrope.org/ontologies/quality#"@),
        ("qudt"@, "http://qudt.org/schema/qudt/"@),
        ("purl"@, "http://purl.org/dc/terms/"@),
        ("obo"@, "http://purl.obolibrary.org/obo/"@),
        ("schema"@, "https://schema.org/"@),
        ("rdf"@, "http://www.w3.org/1999/02/22-rdf-syntax-ns#"@),
        ("xsd"@, "http://www.w3.org/2001/XMLSchema#"@),
    ]
}

/// A fixed table from short prefixes to IRI bases.
pub struct Namespaces {
    entries: Vec<(String, String)>,
}

impl View for Namespaces {
    type V = Entries;

    closed spec fn view(&self) -> Entries {
        pairs_view(self.entries@)
    }
}

fn entry(p: &str, b: &str) -> (r: (String, String))
    ensures
        r.0@ == p@,
        r.1@ == b@,
{
    (p.to_owned(), b.to_owned())
}

impl Namespaces {
    /// A registry holding exactly `entries`.
    pub fn new(entries: Vec<(String, String)>) -> (r: Namespaces)
        ensures
            r@ == pairs_view(entries@),
    {
        Namespaces { entries }
    }

    /// The registry of the ontology's prefixes.
    pub fn ontology() -> (r: Namespaces)
        ensures
            r@ == ontology_entries(),
    {
        let mut v: Vec<(String, String)> = Vec::new();
        v.push(entry("cat", "http://example.org/cat#"));
        v.push(entry("allores", "http://purl.allotrope.org/ontologies/result#"));
        v.push(entry("alloqual", "http://purl.allotrope.org/ontologies/quality#"));
        v.push(entry("qudt", "http://qudt.org/schema/qudt/"));
        v.push(entry("purl", "http://purl.org/dc/terms/"));
        v.push(entry("obo", "http://purl.obolibrary.org/obo/"));
        v.push(entry("schema", "https://schema.org/"));
        v.push(entry("rdf", "http://www.w3.org/1999/02/22-rdf-syntax-ns#"));
        v.push(entry("xsd", "http://www.w3.org/2001/XMLSchema#"));
        let r = Namespaces { entries: v };
        assert(r@ =~= ontology_entries());
        r
    }

    /// The prefix map, for renderers that write prefixed names.
    pub fn prefix_map(&self) -> (r: &Vec<(String, String)>)
        ensures
            pairs_view(r@) == self@,
    {
        &self.entries
    }

    /// The base bound to `prefix`, if any.
    pub fn base(&self, prefix: &str) -> (r: Option<&String>)
        ensures
            match r {
                Some(b) => base_of(self@, prefix@) == Some(b@),
                None => base_of(self@, prefix@) is None,
            },
    {
        let p = prefix.to_owned();
        let mut i: usize = 0;
        assert(self@.subrange(0, self@.len() as int) =~= self@);
        while i < self.entries.len()
            invariant
                i <= self.entries.len(),
                p@ == prefix@,
                base_of(self@, prefix@) == base_of(self@.subrange(i as int, self@.len() as int), prefix@),
            decreases self.entries.len() - i,
        {
            assert(self@.subrange(i as int, self@.len() as int).drop_first() =~= self@.subrange(
                i + 1,
                self@.len() as int,
            ));
            if self.entries[i].0 == p {
                return Some(&self.entries[i].1);
            }
            i = i + 1;
        }
        None
    }

    /// The named node for `local` under `prefix`.
    pub fn resolve(&self, prefix: &str, local: &str) -> (r: Result<Term, MapError>)
        ensures
            match r {
                Ok(t) => resolve_spec(self@, prefix@, local@) == Ok::<TermModel, MapError>(t@),
                Err(e) => resolve_spec(self@, prefix@, local@) == Err::<TermModel, MapError>(e),
            },
    {
        match self.base(prefix) {
            None => Err(MapError::UnknownPrefix),
            Some(b) => {
                let iri = b.clone().concat(local);
                Term::named(iri.as_str())
            },
        }
    }
}

} // verus!
