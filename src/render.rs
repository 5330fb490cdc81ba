use vstd::prelude::*;
use sophia::api::graph::Graph;
use sophia::api::prefix::Prefix;
use sophia::api::serializer::{QuadSerializer, Stringifier, TripleSerializer};
use sophia::api::term::{BnodeId, FromTerm, IriRef, SimpleTerm};
use sophia::iri::Iri;
use sophia::turtle::serializer::turtle::{TurtleConfig, TurtleSerializer};
use sophia_jsonld::serializer::JsonLdSerializer;
use crate::graph::{triples_view, GraphStore, Triple, TripleModel};
use crate::namespace::{pairs_view, Entries, Namespaces};
use crate::term::{absolute_iri, iris_valid, opt_view, MapError, Term, TermModel, TermParts};

verus! {

/// sophia_api's `SimpleTerm`, carried as it is to sophia's serializers.
#[verifier::external_type_specification]
#[verifier::external_body]
pub struct ExSimpleTerm<'a>(SimpleTerm<'a>);

/// sophia's IRI term for the given text.
pub uninterp spec fn sophia_iri_of(iri: Seq<char>) -> SimpleTerm<'static>;

/// sophia's blank node labelled after the given number.
pub uninterp spec fn sophia_blank_of(n: u64) -> SimpleTerm<'static>;

/// sophia's literal with the given lexical form and datatype IRI.
pub uninterp spec fn sophia_typed_of(value: Seq<char>, datatype: Seq<char>) -> SimpleTerm<'static>;

/// sophia's plain string literal.
pub uninterp spec fn sophia_plain_of(value: Seq<char>) -> SimpleTerm<'static>;

/// What sophia's pretty Turtle serializer writes for a graph and a prefix
/// map, or `None` when it refuses one of them.
pub uninterp spec fn turtle_of(
    graph: Seq<[SimpleTerm<'static>; 3]>,
    prefixes: Seq<(Seq<char>, Seq<char>)>,
) -> Option<Seq<char>>;

/// A term as sophia holds it.
pub open spec fn sophia_of(t: TermModel) -> SimpleTerm<'static> {
    match t {
        TermModel::Named(i) => sophia_iri_of(i),
        TermModel::Blank(n) => sophia_blank_of(n),
        TermModel::Literal(v, Some(d)) => sophia_typed_of(v, d),
        TermModel::Literal(v, None) => sophia_plain_of(v),
    }
}

/// A triple as sophia holds it.
pub open spec fn sophia_triple(t: TripleModel) -> [SimpleTerm<'static>; 3] {
    choose|a: [SimpleTerm<'static>; 3]| (#[trigger] a@) == seq![sophia_of(t.0), sophia_of(t.1), sophia_of(t.2)]
}

/// The triples `g` as sophia holds them.
pub open spec fn sophia_graph(g: Seq<TripleModel>) -> Seq<[SimpleTerm<'static>; 3]> {
    g.map_values(|t: TripleModel| sophia_triple(t))
}

/// The Turtle text of the triples `g` under the prefixes `ns`, or `None`
/// when the serializer refuses them.
pub open spec fn turtle_text(g: Seq<TripleModel>, ns: Entries) -> Option<Seq<char>> {
    turtle_of(sophia_graph(g), ns)
}

/// The IRI of `rdf:rest`, the link between the cells of an RDF list.
pub open spec fn rdf_rest() -> Seq<char> {
    "http://www.w3.org/1999/02/22-rdf-syntax-ns#rest"@
}

/// No triple of `g` is a list link (has predicate `rdf:rest`).
pub open spec fn no_list_links(g: Seq<TripleModel>) -> bool {
    forall|i: int| 0 <= i < g.len() ==> (#[trigger] g[i]).1 != TermModel::Named(rdf_rest())
}

/// Every IRI in `g` is absolute.
pub open spec fn graph_iris_valid(g: Seq<TripleModel>) -> bool {
    forall|i: int|
        0 <= i < g.len() ==> iris_valid((#[trigger] g[i]).0) && iris_valid(g[i].1) && iris_valid(
            g[i].2,
        )
}

/// Relies on sophia_api's `SimpleTerm::Iri` and `IriRef::new_unchecked`:
/// wraps the text as an IRI term, unchanged. `new_unchecked` checks the text
/// against the IRI-reference grammar in debug builds; an absolute IRI passes.
#[verifier::external_body]
fn sophia_iri(iri: &String) -> (r: SimpleTerm<'static>)
    requires
        absolute_iri(iri@),
    ensures
        r == sophia_iri_of(iri@),
{
    SimpleTerm::Iri(IriRef::new_unchecked(iri.clone().into()))
}

/// Relies on sophia_api's `SimpleTerm::BlankNode` and `BnodeId::new_unchecked`:
/// a blank node labelled after its number.
#[verifier::external_body]
fn sophia_blank(n: u64) -> (r: SimpleTerm<'static>)
    ensures
        r == sophia_blank_of(n),
{
    SimpleTerm::BlankNode(BnodeId::new_unchecked(format!("b{}", n).into()))
}

/// Relies on sophia_api's `SimpleTerm::LiteralDatatype` and
/// `IriRef::new_unchecked`: a literal with the given lexical form and
/// datatype IRI, which must be absolute for `new_unchecked` to accept it.
#[verifier::external_body]
fn sophia_typed_literal(value: &String, datatype: &String) -> (r: SimpleTerm<'static>)
    requires
        absolute_iri(datatype@),
    ensures
        r == sophia_typed_of(value@, datatype@),
{
    SimpleTerm::LiteralDatatype(value.clone().into(), IriRef::new_unchecked(datatype.clone().into()))
}

/// Relies on sophia_api's `FromTerm` for `SimpleTerm`, applied to a `str`:
/// a plain string literal.
#[verifier::external_body]
fn sophia_plain_literal(value: &String) -> (r: SimpleTerm<'static>)
    ensures
        r == sophia_plain_of(value@),
{
    SimpleTerm::from_term(value.as_str())
}

/// Relies on sophia_turtle's `TurtleSerializer` in its pretty mode, with the
/// given prefixes; `None` when a prefix or base is refused or writing fails.
#[verifier::external_body]
fn render_turtle(graph: &Vec<[SimpleTerm<'static>; 3]>, prefixes: &Vec<(String, String)>) -> (r:
    Option<String>)
    ensures
        opt_view(r) == turtle_of(graph@, pairs_view(prefixes@)),
{
    let mut pm = Vec::new();
    for (p, b) in prefixes {
        pm.push((Prefix::new(p.clone().into()).ok()?, Iri::new(b.clone().into()).ok()?));
    }
    let config = TurtleConfig::new().with_pretty(true).with_own_prefix_map(pm);
    let mut ser = TurtleSerializer::new_stringifier_with_config(config);
    ser.serialize_graph(graph).ok().map(|s| s.as_str().to_string())
}

/// Relies on sophia_jsonld's `JsonLdSerializer`, writing the graph as the
/// default graph of a dataset; `None` when writing fails. Its list
/// detection looks up, without a check, the parent of each blank node that
/// starts an `rdf:rest` link, and panics when that node has none: so the
/// graph must hold no `rdf:rest` link. Its IRIs must be absolute, as the
/// writer slices the first two bytes of each node's text.
#[verifier::external_body]
fn render_jsonld(graph: &Vec<[SimpleTerm<'static>; 3]>) -> Option<String>
    requires
        exists|g: Seq<TripleModel>|
            graph@ == sophia_graph(g) && #[trigger] no_list_links(g) && graph_iris_valid(g),
{
    let mut ser = JsonLdSerializer::new_stringifier();
    ser.serialize_dataset(&graph.as_dataset()).ok().map(|s| s.as_str().to_string())
}

/// The same term, as sophia holds it.
fn to_sophia(t: &Term) -> (r: SimpleTerm<'static>)
    ensures
        r == sophia_of(t@),
        iris_valid(t@),
{
    match t.parts() {
        TermParts::Named(i) => sophia_iri(i),
        TermParts::Blank(n) => sophia_blank(n),
        TermParts::Literal(v, Some(d)) => sophia_typed_literal(v, d),
        TermParts::Literal(v, None) => sophia_plain_literal(v),
    }
}

/// The triples of the store, in order, as sophia holds them.
fn to_sophia_graph(triples: &Vec<Triple>) -> (r: Vec<[SimpleTerm<'static>; 3]>)
    ensures
        r@ == sophia_graph(triples_view(triples@)),
        graph_iris_valid(triples_view(triples@)),
{
    let ghost tv = triples_view(triples@).map_values(|t: TripleModel| sophia_triple(t));
    let mut g: Vec<[SimpleTerm<'static>; 3]> = Vec::new();
    let mut i: usize = 0;
    while i < triples.len()
        invariant
            i <= triples@.len(),
            tv.len() == triples@.len(),
            tv == triples_view(triples@).map_values(|t: TripleModel| sophia_triple(t)),
            g@ == tv.take(i as int),
            forall|j: int|
                0 <= j < i ==> iris_valid((#[trigger] triples@[j]@).0) && iris_valid(
                    triples@[j]@.1,
                ) && iris_valid(triples@[j]@.2),
        decreases triples.len() - i,
    {
        let t = &triples[i];
        let a = [to_sophia(&t.subject), to_sophia(&t.predicate), to_sophia(&t.object)];
        proof {
            let w = sophia_triple(t@);
            assert(a@ =~= seq![sophia_of(t@.0), sophia_of(t@.1), sophia_of(t@.2)]);
            assert(w@ == a@);
            assert(w =~= a);
            assert(tv[i as int] == w);
        }
        g.push(a);
        i = i + 1;
        assert(g@ =~= tv.take(i as int));
    }
    assert(tv.take(i as int) =~= tv);
    g
}

/// Writes `graph` as pretty Turtle, declaring the prefixes of `namespaces`.
pub fn serialize_graph_to_turtle(graph: &GraphStore, namespaces: &Namespaces) -> (r: Result<
    String,
    MapError,
>)
    ensures
        r matches Ok(t) ==> turtle_text(graph@, namespaces@) == Some(t@),
        r matches Err(e) ==> e == MapError::SerializationFailure && turtle_text(
            graph@,
            namespaces@,
        ) is None,
{
    let g = to_sophia_graph(graph.triples());
    match render_turtle(&g, namespaces.prefix_map()) {
        Some(text) => Ok(text),
        None => Err(MapError::SerializationFailure),
    }
}

/// Writes `graph` as JSON-LD. sophia's JSON-LD writer groups the triples
/// through hash maps, so the order of members may differ from one call to
/// the next; the triples they describe do not.
pub fn serialize_graph_to_jsonld(graph: &GraphStore) -> (r: Result<String, MapError>)
    requires
        no_list_links(graph@),
    ensures
        r matches Err(e) ==> e == MapError::SerializationFailure,
{
    let ts = graph.triples();
    let g = to_sophia_graph(ts);
    assert(no_list_links(triples_view(ts@)));
    match render_jsonld(&g) {
        Some(text) => Ok(text),
        None => Err(MapError::SerializationFailure),
    }
}

} // verus!
