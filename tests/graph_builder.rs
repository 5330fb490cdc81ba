use std::collections::BTreeSet;

use sophia::api::graph::Graph;
use sophia::api::source::{QuadSource, TripleSource};
use sophia::api::term::SimpleTerm;
use sophia::isomorphism::isomorphic_datasets;
use synth_converter::graph::{GraphStore, Triple};
use synth_converter::mapper::{blank_nodes_needed, GraphBuilder};
use synth_converter::namespace::Namespaces;
use synth_converter::record::{
    Action, ActionName, Batch, Chemical, ContainerInfo, ContainerPosition, Observation, Sample,
    SampleItem,
};
use synth_converter::render::serialize_graph_to_turtle;
use synth_converter::ids::IdGenerator;
use synth_converter::term::{MapError, Term, TermParts};

const CAT: &str = "http://example.org/cat#";
const ALLORES: &str = "http://purl.allotrope.org/ontologies/result#";
const RDF_TYPE: &str = "http://www.w3.org/1999/02/22-rdf-syntax-ns#type";
const XSD: &str = "http://www.w3.org/2001/XMLSchema#";
const QUDT: &str = "http://qudt.org/schema/qudt/";

fn named(iri: &str) -> Term {
    Term::named(iri).unwrap()
}

fn iri(base: &str, local: &str) -> Term {
    named(&format!("{}{}", base, local))
}

fn plain(s: &str) -> Term {
    Term::literal(s, None).unwrap()
}

fn typed(s: &str, datatype: &str) -> Term {
    Term::literal(s, Some(datatype)).unwrap()
}

/// The blank node numbered `n`, as a fresh generator hands it out.
fn blank(n: u64) -> Term {
    let mut ids = IdGenerator::new();
    let mut t = ids.new_blank_node();
    for _ in 0..n {
        t = ids.new_blank_node();
    }
    t
}

fn triple(s: Term, p: Term, o: Term) -> Triple {
    Triple { subject: s, predicate: p, object: o }
}

fn obs(unit: &str, value: f64) -> Observation {
    Observation { unit: unit.to_string(), value: value.to_string() }
}

fn bare_action(name: ActionName, start: &str) -> Action {
    Action {
        action_name: name,
        start_time: start.to_string(),
        ending_time: None,
        method_name: None,
        equipment_name: None,
        sub_equipment_name: None,
        container_info: None,
        temperature_shaker: None,
        temperature_tumble_stirrer: None,
        speed_shaker: None,
        dispense_type: None,
        dispense_state: None,
        has_container_position_and_quantity: None,
        has_sample: None,
    }
}

fn chemical(id: &str) -> Chemical {
    Chemical {
        chemical_id: id.to_string(),
        chemical_name: "water".to_string(),
        cas_number: "7732-18-5".to_string(),
        smiles: "O".to_string(),
        molecular_mass: obs("g/mol", 18.015),
    }
}

fn item(id: &str, with_datum: bool) -> SampleItem {
    SampleItem {
        sample_id: id.to_string(),
        role: "reagent".to_string(),
        internal_bar_code: format!("bc-{}", id),
        physical_state: "liquid".to_string(),
        expected_datum: if with_datum { Some(obs("mg", 2.5)) } else { None },
        has_chemical: chemical(&format!("chem-{}", id)),
    }
}

fn full_action() -> Action {
    let mut a = bare_action(ActionName::SetTemperatureAction, "2024-01-01T00:00:00Z");
    a.ending_time = Some("2024-01-01T01:00:00Z".to_string());
    a.method_name = Some("heating".to_string());
    a.equipment_name = Some("shaker".to_string());
    a.sub_equipment_name = Some("slot 3".to_string());
    a.container_info = Some(ContainerInfo {
        container_id: "C-7".to_string(),
        container_barcode: "BC-7".to_string(),
    });
    a.temperature_shaker = Some(obs("degC", 60.0));
    a.temperature_tumble_stirrer = Some(obs("degC", 25.0));
    a.speed_shaker = Some(obs("rpm", 300.0));
    a.dispense_type = Some("volume".to_string());
    a.dispense_state = Some("liquid".to_string());
    a.has_container_position_and_quantity = Some(vec![ContainerPosition {
        position: "A1".to_string(),
        quantity: obs("mL", 1.5),
    }]);
    a.has_sample = Some(Sample {
        container: ContainerInfo {
            container_id: "V-1".to_string(),
            container_barcode: "VB-1".to_string(),
        },
        vial_id: "vial-1".to_string(),
        vial_type: "round".to_string(),
        role: "product".to_string(),
        expected_datum: obs("mg", 10.0),
        has_sample: vec![item("s1", true), item("s2", false)],
    });
    a
}

fn build(batch: &Batch) -> GraphBuilder {
    let mut b = GraphBuilder::new().expect("the ontology's IRIs are valid");
    b.insert_a_batch(batch).expect("mapping does not fail");
    b
}

fn blank_ids(triples: &[Triple]) -> BTreeSet<u64> {
    let mut ids = BTreeSet::new();
    for t in triples {
        for term in [&t.subject, &t.predicate, &t.object] {
            if let Some(n) = term.blank_id() {
                ids.insert(n);
            }
        }
    }
    ids
}

#[test]
fn batch_with_one_add_action() {
    let batch = Batch {
        batch_id: "B-1".to_string(),
        actions: vec![bare_action(ActionName::AddAction, "2024-01-01T00:00:00Z")],
    };
    let b = build(&batch);
    let expected = vec![
        triple(blank(0), named(RDF_TYPE), iri(CAT, "Batch")),
        triple(blank(0), iri("https://schema.org/", "name"), plain("B-1")),
        triple(blank(1), iri(CAT, "hasBatch"), blank(0)),
        triple(
            blank(1),
            iri(ALLORES, "AFX_0000622"),
            typed("2024-01-01T00:00:00Z", &format!("{}dateTime", XSD)),
        ),
        triple(blank(1), named(RDF_TYPE), iri(CAT, "AddAction")),
    ];
    assert_eq!(b.triples(), &expected);
}

#[test]
fn two_container_positions_get_distinct_nodes() {
    let mut a = bare_action(ActionName::AddAction, "2024-01-01T00:00:00Z");
    a.has_container_position_and_quantity = Some(vec![
        ContainerPosition { position: "A1".to_string(), quantity: obs("mL", 1.0) },
        ContainerPosition { position: "A1".to_string(), quantity: obs("mL", 1.0) },
    ]);
    let b = build(&Batch { batch_id: "B-2".to_string(), actions: vec![a] });
    let t = b.triples();
    let has_cp = iri(CAT, "hasContainerPositionAndQuantity");
    let cps: Vec<&Term> = t.iter().filter(|x| x.predicate == has_cp).map(|x| &x.object).collect();
    assert_eq!(cps.len(), 2);
    assert_ne!(cps[0], cps[1]);
    for cp in &cps {
        let of = |p: Term| t.iter().filter(|x| &&x.subject == cp && x.predicate == p).count();
        assert_eq!(of(named(RDF_TYPE)), 1);
        assert_eq!(of(iri(ALLORES, "AFR_0002240")), 1);
        assert_eq!(of(iri(QUDT, "quantity")), 1);
    }
    let quantities: Vec<&Term> = t
        .iter()
        .filter(|x| x.predicate == iri(QUDT, "quantity"))
        .map(|x| &x.object)
        .collect();
    assert_eq!(quantities.len(), 2);
    assert_ne!(quantities[0], quantities[1]);
    for q in &quantities {
        assert_eq!(t.iter().filter(|x| &&x.subject == q).count(), 2);
        assert!(t.contains(&triple((*q).clone(), iri(QUDT, "unit"), plain("mL"))));
        assert!(t.contains(&triple(
            (*q).clone(),
            iri(QUDT, "value"),
            typed("1", &format!("{}double", XSD)),
        )));
    }
    assert_eq!(blank_ids(t).len(), 6);
}

#[test]
fn unrecognized_action_falls_back_to_registered_action() {
    let a = bare_action(ActionName::Unrecognized("filtrateAction".to_string()), "t0");
    let mut b = GraphBuilder::new().unwrap();
    let batch = Batch { batch_id: "B-3".to_string(), actions: vec![a] };
    assert_eq!(b.insert_a_batch(&batch), Ok(()));
    let types: Vec<&Triple> = b
        .triples()
        .iter()
        .filter(|x| x.subject == blank(1) && x.predicate == named(RDF_TYPE))
        .collect();
    assert_eq!(types.len(), 1);
    assert_eq!(types[0].object, iri(ALLORES, "AFRE_0000001"));
}

#[test]
fn set_temperature_action_has_its_own_class() {
    let a = bare_action(ActionName::SetTemperatureAction, "t0");
    let b = build(&Batch { batch_id: "B-4".to_string(), actions: vec![a] });
    let last = b.triples().last().unwrap();
    assert_eq!(last, &triple(blank(1), named(RDF_TYPE), iri(CAT, "setTemperatureAction")));
}

#[test]
fn absent_optional_fields_leave_no_edge() {
    let b = build(&Batch {
        batch_id: "B-5".to_string(),
        actions: vec![bare_action(ActionName::AddAction, "t0")],
    });
    let unused = [
        iri(ALLORES, "AFR_0002423"),
        iri(ALLORES, "AFR_0001606"),
        iri(ALLORES, "AFR_0001723"),
        iri(CAT, "localEquipmentName"),
        iri(CAT, "containerID"),
        iri(CAT, "containerBarcode"),
        iri(CAT, "temperatureShakerShape"),
        iri(CAT, "temperatureTumbleStirrerShape"),
        iri(CAT, "speedInRPM"),
        iri(CAT, "dispenseType"),
        iri("http://purl.allotrope.org/ontologies/quality#", "AFQ_0000111"),
        iri(CAT, "hasContainerPositionAndQuantity"),
        iri(CAT, "hasSample"),
    ];
    for t in b.triples() {
        assert!(!unused.contains(&t.predicate), "unexpected edge {:?}", t);
    }
}

#[test]
fn absent_expected_datum_of_an_item_leaves_no_edge() {
    let mut a = bare_action(ActionName::AddAction, "t0");
    a.has_sample = Some(Sample {
        container: ContainerInfo { container_id: "V".to_string(), container_barcode: "VB".to_string() },
        vial_id: "v".to_string(),
        vial_type: "round".to_string(),
        role: "product".to_string(),
        expected_datum: obs("mg", 1.0),
        has_sample: vec![item("only", false)],
    });
    let b = build(&Batch { batch_id: "B-6".to_string(), actions: vec![a] });
    let datum = iri(CAT, "expectedDatum");
    // the sample's own expected datum is there, the item's is not
    assert_eq!(b.triples().iter().filter(|t| t.predicate == datum).count(), 1);
}

#[test]
fn blank_nodes_match_mapped_instances() {
    let b = build(&Batch {
        batch_id: "B-7".to_string(),
        actions: vec![full_action(), bare_action(ActionName::AddAction, "t1")],
    });
    // batch 1; first action: itself 1, three observations 3, one position 2,
    // sample 2, items (1 + 1 datum + 1 chemical) + (1 + 1 chemical) = 5;
    // second action 1
    let ids = blank_ids(b.triples());
    assert_eq!(ids.len(), 1 + 1 + 3 + 2 + 2 + 5 + 1);
    assert_eq!(ids, (0..15).collect::<BTreeSet<u64>>());
}

#[test]
fn full_action_maps_every_field_once() {
    let b = build(&Batch { batch_id: "B-8".to_string(), actions: vec![full_action()] });
    let t = b.triples();
    let count = |p: Term| t.iter().filter(|x| x.predicate == p).count();
    assert_eq!(count(iri(ALLORES, "AFR_0002423")), 1);
    assert_eq!(count(iri(CAT, "speedInRPM")), 1);
    assert_eq!(count(iri(CAT, "hasSample")), 3);
    assert_eq!(count(iri(CAT, "has_chemical")), 2);
    assert_eq!(count(iri(CAT, "role")), 3);
    assert_eq!(count(iri(CAT, "containerID")), 2);
    assert!(t.contains(&triple(
        blank(1),
        iri(CAT, "localEquipmentName"),
        plain("slot 3"),
    )));
    let mass: Vec<&Triple> = t.iter().filter(|x| x.predicate == iri(ALLORES, "AFR_0002294")).collect();
    assert_eq!(mass.len(), 2);
    assert_eq!(mass[0].object, plain("18.015"));
}

#[test]
fn batches_continue_numbering() {
    let mut b = GraphBuilder::new().unwrap();
    let one = Batch { batch_id: "X".to_string(), actions: vec![] };
    b.insert_a_batch(&one).unwrap();
    b.insert_a_batch(&one).unwrap();
    let t = b.triples();
    assert_eq!(t.len(), 4);
    assert_eq!(t[2].subject, blank(1));
}

fn parse_turtle(text: &str) -> Vec<[SimpleTerm<'static>; 3]> {
    sophia::turtle::parser::turtle::parse_str(text).collect_triples().unwrap()
}

#[test]
fn both_notations_hold_the_same_triples() {
    let b = build(&Batch { batch_id: "B-9".to_string(), actions: vec![full_action()] });
    let ttl = b.serialize_to_turtle().unwrap();
    let json = b.serialize_to_jsonld().unwrap();
    let from_ttl = parse_turtle(&ttl);
    let from_json: Vec<sophia::api::quad::Spog<SimpleTerm<'static>>> =
        sophia_jsonld::parser::parse_str(&json).collect_quads().unwrap();
    assert_eq!(from_ttl.len(), b.triples().len());
    assert_eq!(from_json.len(), b.triples().len());
    assert!(isomorphic_datasets(&from_ttl.as_dataset(), &from_json).unwrap());
}

#[test]
fn turtle_declares_the_prefixes_and_is_stable() {
    let b = build(&Batch {
        batch_id: "B-10".to_string(),
        actions: vec![bare_action(ActionName::AddAction, "t0")],
    });
    let first = b.serialize_to_turtle().unwrap();
    let second = b.serialize_to_turtle().unwrap();
    assert_eq!(first, second);
    assert!(first.contains("PREFIX cat: <http://example.org/cat#>"));
    assert!(first.contains("cat:AddAction"));
    assert_eq!(parse_turtle(&first).len(), 5);
}

#[test]
fn serialize_graph_to_turtle_writes_a_store() {
    let mut g = GraphStore::new();
    g.insert(blank(0), iri(CAT, "role"), plain("solvent")).unwrap();
    let text = serialize_graph_to_turtle(&g, &Namespaces::ontology()).unwrap();
    assert!(text.contains("cat:role"));
    assert!(text.contains("\"solvent\""));
}

#[test]
fn bad_prefix_is_a_serialization_failure() {
    let mut g = GraphStore::new();
    g.insert(blank(0), iri(CAT, "role"), plain("x")).unwrap();
    let ns = Namespaces::new(vec![("cat".to_string(), "not an iri".to_string())]);
    assert_eq!(serialize_graph_to_turtle(&g, &ns), Err(MapError::SerializationFailure));
}

#[test]
fn literal_subject_is_refused() {
    let mut g = GraphStore::new();
    assert_eq!(
        g.insert(plain("x"), iri(CAT, "role"), plain("y")),
        Err(MapError::InvalidTriplePosition)
    );
    assert_eq!(
        g.insert(blank(0), blank(1), plain("y")),
        Err(MapError::InvalidTriplePosition)
    );
    assert_eq!(g.len(), 0);
}

#[test]
fn duplicate_triples_are_kept() {
    let mut g = GraphStore::new();
    g.insert(blank(0), iri(CAT, "role"), plain("y")).unwrap();
    g.insert(blank(0), iri(CAT, "role"), plain("y")).unwrap();
    assert_eq!(g.len(), 2);
    assert_eq!(g.triples()[0], g.triples()[1]);
}

#[test]
fn named_node_needs_an_absolute_iri() {
    let x = Term::named("http://example.org/x").unwrap();
    assert!(matches!(x.parts(), TermParts::Named(i) if i == "http://example.org/x"));
    assert_eq!(Term::named("not an iri"), Err(MapError::InvalidIri));
    assert_eq!(Term::named("relative/path"), Err(MapError::InvalidIri));
    assert_eq!(Term::literal("5", Some("bad iri")), Err(MapError::InvalidIri));
    assert_eq!(
        Term::literal("5", Some("http://www.w3.org/2001/XMLSchema#integer")),
        Ok(typed("5", "http://www.w3.org/2001/XMLSchema#integer"))
    );
    assert_eq!(Term::literal("5", None), Ok(plain("5")));
}

#[test]
fn resolve_reports_unknown_prefix_and_bad_iri() {
    let ns = Namespaces::ontology();
    assert_eq!(ns.resolve("cat", "Batch"), Ok(iri(CAT, "Batch")));
    assert_eq!(ns.resolve("nope", "Batch"), Err(MapError::UnknownPrefix));
    assert_eq!(ns.resolve("cat", "has space"), Err(MapError::InvalidIri));
    let first_wins = Namespaces::new(vec![
        ("p".to_string(), "http://a.org/".to_string()),
        ("p".to_string(), "http://b.org/".to_string()),
    ]);
    assert_eq!(first_wins.resolve("p", "x"), Ok(named("http://a.org/x")));
}

#[test]
fn builder_needs_every_prefix() {
    let ns = Namespaces::new(vec![("cat".to_string(), CAT.to_string())]);
    assert!(matches!(GraphBuilder::with_namespaces(ns), Err(MapError::UnknownPrefix)));
    let bad = Namespaces::new(
        Namespaces::ontology()
            .prefix_map()
            .iter()
            .map(|(p, b)| (p.clone(), if p == "qudt" { "qudt base".to_string() } else { b.clone() }))
            .collect(),
    );
    assert!(matches!(GraphBuilder::with_namespaces(bad), Err(MapError::InvalidIri)));
}

#[test]
fn builder_keeps_its_prefix_map() {
    let b = GraphBuilder::new().unwrap();
    let pm = b.namespaces().prefix_map();
    assert_eq!(pm.len(), 9);
    assert_eq!(pm[0], ("cat".to_string(), CAT.to_string()));
    assert!(b.triples().is_empty());
}

#[test]
fn blank_nodes_needed_counts_every_instance() {
    let batch = Batch {
        batch_id: "B-11".to_string(),
        actions: vec![full_action(), bare_action(ActionName::AddAction, "t1")],
    };
    assert_eq!(blank_nodes_needed(&batch), Some(15));
    let mut b = GraphBuilder::new().unwrap();
    assert_eq!(b.next_blank(), 0);
    b.insert_a_batch(&batch).unwrap();
    assert_eq!(b.next_blank(), 15);
    let empty = Batch { batch_id: "E".to_string(), actions: vec![] };
    assert_eq!(blank_nodes_needed(&empty), Some(1));
}
