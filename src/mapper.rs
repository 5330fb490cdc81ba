use vstd::prelude::*;
use vstd::seq_lib::lemma_concat_associative;
use crate::graph::{triples_view, GraphStore, Triple, TripleModel};
use crate::ids::IdGenerator;
use crate::model::{
    action_blanks, action_class, action_field_triples, action_observation_blanks,
    action_observation_triples, action_triples, actions_blanks, actions_triples, batch_blanks,
    batch_triples, bn, chemical_triples, container_triples, item_blanks, item_triples,
    items_blanks, items_triples, lemma_actions_blanks_prefix, lemma_items_blanks_prefix, lemma_sum_of_prefix, lit, observation_triples, opt_blanks,
    opt_container_triples, opt_literal_triples, opt_observation_triples, opt_positions_triples,
    opt_sample_triples, position_triples, positions_triples, sample_blanks, sample_triples, typed,
};
use crate::namespace::{ontology_entries, resolve_spec, Entries, Namespaces};
use crate::render::{rdf_rest, serialize_graph_to_jsonld, serialize_graph_to_turtle, turtle_text};
use crate::record::{
    Action, ActionName, Batch, Chemical, ContainerInfo, ContainerPosition, Observation, Sample,
    SampleItem,
};
use crate::term::{MapError, Term, TermModel};
use crate::laws::{blank_ids, lemma_ids_empty, lemma_ids_push};
use crate::vocab::{is_vocab_term, lemma_vocab_is_not_rdf_rest, resolves, vocab_parts, vt, Vocab, Vocabulary};

verus! {

/// `t` is no blank node numbered `n` or above.
pub open spec fn below(t: TermModel, n: int) -> bool {
    t matches TermModel::Blank(k) ==> (k as int) < n
}

/// Builds the graph of synthesis batches over the ontology's vocabulary.
pub struct GraphBuilder {
    graph: GraphStore,
    ids: IdGenerator,
    ns: Namespaces,
    voc: Vocabulary,
}

impl View for GraphBuilder {
    type V = Seq<TripleModel>;

    closed spec fn view(&self) -> Seq<TripleModel> {
        self.graph@
    }
}

impl GraphBuilder {
    /// Every term of the vocabulary resolved against the registry in use,
    /// and every blank node in the graph is numbered below `next()`, so the
    /// next one handed out is fresh.
    pub closed spec fn wf(&self) -> bool {
        &&& self.voc.wf(self.ns@)
        &&& forall|k: u64| #[trigger] blank_ids(self@).contains(k) ==> (k as int) < self.next()
        &&& forall|i: int| 0 <= i < self@.len() ==> is_vocab_term(self.ns@, (#[trigger] self@[i]).1)
    }

    /// The prefixes the builder resolves against.
    pub closed spec fn entries(&self) -> Entries {
        self.ns@
    }

    /// The number that the next blank node will carry.
    pub closed spec fn next(&self) -> int {
        self.ids.next_id() as int
    }

    spec fn keeps_setup(&self, before: &GraphBuilder) -> bool {
        self.ns == before.ns && self.voc == before.voc
    }

    /// A builder with an empty graph over `ns`; fails when a term of the
    /// vocabulary does not resolve there.
    pub fn with_namespaces(ns: Namespaces) -> (r: Result<GraphBuilder, MapError>)
        ensures
            r is Ok <==> forall|v: Vocab| resolves(ns@, v),
            r matches Ok(b) ==> b.wf() && b@ == Seq::<TripleModel>::empty() && b.next() == 0
                && b.entries() == ns@,
            r matches Err(e) ==> exists|v: Vocab|
                resolve_spec(ns@, vocab_parts(v).0, vocab_parts(v).1) == Err::<TermModel, MapError>(
                    e,
                ),
    {
        match Vocabulary::new(&ns) {
            Ok(voc) => {
                let b = GraphBuilder { graph: GraphStore::new(), ids: IdGenerator::new(), ns, voc };
                proof {
                    lemma_ids_empty();
                }
                Ok(b)
            },
            Err(e) => Err(e),
        }
    }

    /// A builder with an empty graph over the ontology's prefixes; fails
    /// when a term of the vocabulary does not resolve to an absolute IRI.
    pub fn new() -> (r: Result<GraphBuilder, MapError>)
        ensures
            r is Ok <==> forall|v: Vocab| resolves(ontology_entries(), v),
            r matches Ok(b) ==> b.wf() && b@ == Seq::<TripleModel>::empty() && b.next() == 0
                && b.entries() == ontology_entries(),
            r matches Err(e) ==> exists|v: Vocab|
                resolve_spec(ontology_entries(), vocab_parts(v).0, vocab_parts(v).1) == Err::<
                    TermModel,
                    MapError,
                >(e),
    {
        Self::with_namespaces(Namespaces::ontology())
    }

    /// The number that the next blank node will carry.
    pub fn next_blank(&self) -> (r: u64)
        ensures
            r == self.next(),
    {
        self.ids.peek()
    }

    /// The triples built so far, in insertion order.
    pub fn triples(&self) -> (r: &Vec<Triple>)
        ensures
            triples_view(r@) == self@,
    {
        self.graph.triples()
    }

    /// The prefixes that the builder resolved its terms against.
    pub fn namespaces(&self) -> (r: &Namespaces)
        ensures
            r@ == self.entries(),
    {
        &self.ns
    }

    /// The graph as pretty Turtle, declaring the prefixes it was built with.
    pub fn serialize_to_turtle(&self) -> (r: Result<String, MapError>)
        ensures
            r matches Ok(t) ==> turtle_text(self@, self.entries()) == Some(t@),
            r matches Err(e) ==> e == MapError::SerializationFailure && turtle_text(
                self@,
                self.entries(),
            ) is None,
    {
        serialize_graph_to_turtle(&self.graph, &self.ns)
    }

    /// The graph as JSON-LD. Unlike the Turtle text, the member order of
    /// the JSON may differ from one call to the next.
    pub fn serialize_to_jsonld(&self) -> (r: Result<String, MapError>)
        requires
            self.wf(),
        ensures
            r matches Err(e) ==> e == MapError::SerializationFailure,
    {
        proof {
            assert forall|i: int| 0 <= i < self@.len() implies (#[trigger] self@[i]).1
                != TermModel::Named(rdf_rest()) by {
                let v = choose|v: Vocab| self@[i].1 == #[trigger] vt(self.ns@, v);
                lemma_vocab_is_not_rdf_rest(self.ns@, v);
            }
        }
        serialize_graph_to_jsonld(&self.graph)
    }

    fn named(&self, v: Vocab) -> (r: Term)
        requires
            self.wf(),
        ensures
            r@ == vt(self.ns@, v),
    {
        self.voc.named(Ghost(self.ns@), v)
    }

    fn plain(s: &String) -> (r: Term)
        ensures
            r@ == lit(s@),
    {
        Term::plain(s.clone())
    }

    fn typed_literal(&self, s: &String, dt: Vocab) -> (r: Term)
        requires
            self.wf(),
        ensures
            r@ == typed(self.ns@, s@, dt),
    {
        Term::typed(s.clone(), self.voc.iri(Ghost(self.ns@), dt).clone())
    }

    fn fresh(&mut self) -> (r: Term)
        requires
            old(self).wf(),
            old(self).next() < u64::MAX,
        ensures
            r@ == bn(old(self).next()),
            !blank_ids(old(self)@).contains(old(self).next() as u64),
            final(self).next() == old(self).next() + 1,
            final(self).keeps_setup(old(self)),
            final(self).wf(),
            final(self)@ == old(self)@,
    {
        let r = self.ids.new_blank_node();
        assert(self@ == old(self)@);
        assert forall|k: u64| #[trigger] blank_ids(self@).contains(k) implies (k as int)
            < self.next() by {
            assert(blank_ids(old(self)@).contains(k));
        }
        r
    }

    /// Appends `(subject, p, object)`.
    fn add(&mut self, subject: Term, p: Vocab, object: Term)
        requires
            old(self).wf(),
            !(subject@ is Literal),
            below(subject@, old(self).next()),
            below(object@, old(self).next()),
        ensures
            final(self)@ == old(self)@.push((subject@, vt(old(self).ns@, p), object@)),
            final(self).next() == old(self).next(),
            final(self).keeps_setup(old(self)),
            final(self).wf(),
    {
        let pt = self.named(p);
        let ghost t = (subject@, pt@, object@);
        let _ = self.graph.insert(subject, pt, object);
        proof {
            lemma_ids_push(old(self)@, t);
            assert(is_vocab_term(self.ns@, vt(self.ns@, p)));
            assert forall|i: int| 0 <= i < self@.len() implies is_vocab_term(
                self.ns@,
                (#[trigger] self@[i]).1,
            ) by {
                if i < old(self)@.len() {
                    assert(self@[i] == old(self)@[i]);
                }
            }
        }
    }

    fn insert_an_observation(&mut self, subject: &Term, property: Vocab, observation: &Observation)
        requires
            old(self).wf(),
            !(subject@ is Literal),
            below(subject@, old(self).next()),
            old(self).next() + 1 <= u64::MAX,
        ensures
            final(self)@ == old(self)@ + observation_triples(
                old(self).ns@,
                subject@,
                property,
                *observation,
                old(self).next(),
            ),
            final(self).next() == old(self).next() + 1,
            final(self).keeps_setup(old(self)),
            final(self).wf(),
    {
        let obs = self.fresh();
        self.add(subject.duplicate(), property, obs.duplicate());
        self.add(obs.duplicate(), Vocab::Unit, Self::plain(&observation.unit));
        let value = self.typed_literal(&observation.value, Vocab::Double);
        self.add(obs, Vocab::Value, value);
        assert(self@ =~= old(self)@ + observation_triples(
            old(self).ns@,
            subject@,
            property,
            *observation,
            old(self).next(),
        ));
    }

    fn insert_opt_observation(
        &mut self,
        subject: &Term,
        property: Vocab,
        observation: &Option<Observation>,
    )
        requires
            old(self).wf(),
            !(subject@ is Literal),
            below(subject@, old(self).next()),
            old(self).next() + opt_blanks(*observation) <= u64::MAX,
        ensures
            final(self)@ == old(self)@ + opt_observation_triples(
                old(self).ns@,
                subject@,
                property,
                *observation,
                old(self).next(),
            ),
            final(self).next() == old(self).next() + opt_blanks(*observation),
            final(self).keeps_setup(old(self)),
            final(self).wf(),
    {
        match observation {
            Some(o) => self.insert_an_observation(subject, property, o),
            None => {
                assert(self@ =~= old(self)@ + Seq::<TripleModel>::empty());
            },
        }
    }

    fn insert_opt_literal(&mut self, subject: &Term, property: Vocab, value: &Option<String>)
        requires
            old(self).wf(),
            !(subject@ is Literal),
            below(subject@, old(self).next()),
        ensures
            final(self)@ == old(self)@ + opt_literal_triples(
                old(self).ns@,
                subject@,
                property,
                *value,
            ),
            final(self).next() == old(self).next(),
            final(self).keeps_setup(old(self)),
            final(self).wf(),
    {
        match value {
            Some(s) => {
                self.add(subject.duplicate(), property, Self::plain(s));
                assert(self@ =~= old(self)@ + opt_literal_triples(
                    old(self).ns@,
                    subject@,
                    property,
                    *value,
                ));
            },
            None => {
                assert(self@ =~= old(self)@ + Seq::<TripleModel>::empty());
            },
        }
    }

    fn insert_container_properties(&mut self, subject: &Term, container_info: &ContainerInfo)
        requires
            old(self).wf(),
            !(subject@ is Literal),
            below(subject@, old(self).next()),
        ensures
            final(self)@ == old(self)@ + container_triples(
                old(self).ns@,
                subject@,
                *container_info,
            ),
            final(self).next() == old(self).next(),
            final(self).keeps_setup(old(self)),
            final(self).wf(),
    {
        self.add(subject.duplicate(), Vocab::ContainerId, Self::plain(&container_info.container_id));
        self.add(
            subject.duplicate(),
            Vocab::ContainerBarcode,
            Self::plain(&container_info.container_barcode),
        );
        assert(self@ =~= old(self)@ + container_triples(old(self).ns@, subject@, *container_info));
    }

    fn insert_a_container_position(&mut self, subject: &Term, container_position: &ContainerPosition)
        requires
            old(self).wf(),
            !(subject@ is Literal),
            below(subject@, old(self).next()),
            old(self).next() + 2 <= u64::MAX,
        ensures
            final(self)@ == old(self)@ + position_triples(
                old(self).ns@,
                subject@,
                *container_position,
                old(self).next(),
            ),
            final(self).next() == old(self).next() + 2,
            final(self).keeps_setup(old(self)),
            final(self).wf(),
    {
        let cp = self.fresh();
        self.add(subject.duplicate(), Vocab::HasContainerPositionAndQuantity, cp.duplicate());
        let class = self.named(Vocab::ContainerPositionAndQuantity);
        self.add(cp.duplicate(), Vocab::Type, class);
        self.add(cp.duplicate(), Vocab::Position, Self::plain(&container_position.position));
        self.insert_an_observation(&cp, Vocab::Quantity, &container_position.quantity);
        assert(self@ =~= old(self)@ + position_triples(
            old(self).ns@,
            subject@,
            *container_position,
            old(self).next(),
        ));
    }

    fn insert_container_positions(&mut self, subject: &Term, positions: &Vec<ContainerPosition>)
        requires
            old(self).wf(),
            !(subject@ is Literal),
            below(subject@, old(self).next()),
            old(self).next() + 2 * positions@.len() <= u64::MAX,
        ensures
            final(self)@ == old(self)@ + positions_triples(
                old(self).ns@,
                subject@,
                positions@,
                old(self).next(),
            ),
            final(self).next() == old(self).next() + 2 * positions@.len(),
            final(self).keeps_setup(old(self)),
            final(self).wf(),
    {
        let ghost n0 = self.next();
        let mut i: usize = 0;
        assert(positions@.take(0) =~= Seq::<ContainerPosition>::empty());
        assert(self@ =~= old(self)@ + Seq::<TripleModel>::empty());
        while i < positions.len()
            invariant
                i <= positions@.len(),
                self.wf(),
                self.keeps_setup(old(self)),
                n0 == old(self).next(),
                n0 + 2 * positions@.len() <= u64::MAX,
                !(subject@ is Literal),
                below(subject@, self.next()),
                self.next() == n0 + 2 * i,
                self@ == old(self)@ + positions_triples(
                    old(self).ns@,
                    subject@,
                    positions@.take(i as int),
                    n0,
                ),
            decreases positions.len() - i,
        {
            assert(positions@.take(i + 1).drop_last() =~= positions@.take(i as int));
            self.insert_a_container_position(subject, &positions[i]);
            i = i + 1;
            assert(self@ =~= old(self)@ + positions_triples(
                old(self).ns@,
                subject@,
                positions@.take(i as int),
                n0,
            ));
        }
        assert(positions@.take(i as int) =~= positions@);
    }

    fn insert_a_chemical(&mut self, subject: &Term, chemical: &Chemical)
        requires
            old(self).wf(),
            !(subject@ is Literal),
            below(subject@, old(self).next()),
            old(self).next() + 1 <= u64::MAX,
        ensures
            final(self)@ == old(self)@ + chemical_triples(
                old(self).ns@,
                subject@,
                *chemical,
                old(self).next(),
            ),
            final(self).next() == old(self).next() + 1,
            final(self).keeps_setup(old(self)),
            final(self).wf(),
    {
        let c = self.fresh();
        self.add(subject.duplicate(), Vocab::HasChemical, c.duplicate());
        let class = self.named(Vocab::ChemicalEntity);
        self.add(c.duplicate(), Vocab::Type, class);
        self.add(c.duplicate(), Vocab::Identifier, Self::plain(&chemical.chemical_id));
        self.add(c.duplicate(), Vocab::ChemicalName, Self::plain(&chemical.chemical_name));
        self.add(c.duplicate(), Vocab::CasNumber, Self::plain(&chemical.cas_number));
        self.add(c.duplicate(), Vocab::Smiles, Self::plain(&chemical.smiles));
        self.add(c, Vocab::MolecularMass, Self::plain(&chemical.molecular_mass.value));
        assert(self@ =~= old(self)@ + chemical_triples(
            old(self).ns@,
            subject@,
            *chemical,
            old(self).next(),
        ));
    }

    fn insert_a_sample(&mut self, subject: &Term, sample_item: &SampleItem)
        requires
            old(self).wf(),
            !(subject@ is Literal),
            below(subject@, old(self).next()),
            old(self).next() + item_blanks(*sample_item) <= u64::MAX,
        ensures
            final(self)@ == old(self)@ + item_triples(
                old(self).ns@,
                subject@,
                *sample_item,
                old(self).next(),
            ),
            final(self).next() == old(self).next() + item_blanks(*sample_item),
            final(self).keeps_setup(old(self)),
            final(self).wf(),
    {
        let it = self.fresh();
        let class = self.named(Vocab::Sample);
        self.add(it.duplicate(), Vocab::Type, class);
        self.add(subject.duplicate(), Vocab::HasSample, it.duplicate());
        self.add(it.duplicate(), Vocab::Role, Self::plain(&sample_item.role));
        self.insert_opt_observation(&it, Vocab::ExpectedDatum, &sample_item.expected_datum);
        self.add(it.duplicate(), Vocab::Identifier, Self::plain(&sample_item.sample_id));
        self.add(it.duplicate(), Vocab::PhysicalState, Self::plain(&sample_item.physical_state));
        self.add(it.duplicate(), Vocab::InternalBarCode, Self::plain(&sample_item.internal_bar_code));
        self.insert_a_chemical(&it, &sample_item.has_chemical);
        assert(self@ =~= old(self)@ + item_triples(
            old(self).ns@,
            subject@,
            *sample_item,
            old(self).next(),
        ));
    }

    fn insert_sample_items(&mut self, subject: &Term, items: &Vec<SampleItem>)
        requires
            old(self).wf(),
            !(subject@ is Literal),
            below(subject@, old(self).next()),
            old(self).next() + items_blanks(items@) <= u64::MAX,
        ensures
            final(self)@ == old(self)@ + items_triples(
                old(self).ns@,
                subject@,
                items@,
                old(self).next(),
            ),
            final(self).next() == old(self).next() + items_blanks(items@),
            final(self).keeps_setup(old(self)),
            final(self).wf(),
    {
        let ghost n0 = self.next();
        let mut i: usize = 0;
        assert(items@.take(0) =~= Seq::<SampleItem>::empty());
        assert(self@ =~= old(self)@ + Seq::<TripleModel>::empty());
        while i < items.len()
            invariant
                i <= items@.len(),
                self.wf(),
                self.keeps_setup(old(self)),
                n0 == old(self).next(),
                n0 + items_blanks(items@) <= u64::MAX,
                !(subject@ is Literal),
                below(subject@, self.next()),
                self.next() == n0 + items_blanks(items@.take(i as int)),
                self@ == old(self)@ + items_triples(
                    old(self).ns@,
                    subject@,
                    items@.take(i as int),
                    n0,
                ),
            decreases items.len() - i,
        {
            assert(items@.take(i + 1).drop_last() =~= items@.take(i as int));
            proof {
                lemma_sum_of_prefix(items@, |it: SampleItem| item_blanks(it), i + 1);
            }
            self.insert_a_sample(subject, &items[i]);
            i = i + 1;
            assert(self@ =~= old(self)@ + items_triples(
                old(self).ns@,
                subject@,
                items@.take(i as int),
                n0,
            ));
        }
        assert(items@.take(i as int) =~= items@);
    }

    fn insert_samples(&mut self, subject: &Term, sample: &Sample)
        requires
            old(self).wf(),
            !(subject@ is Literal),
            below(subject@, old(self).next()),
            old(self).next() + sample_blanks(*sample) <= u64::MAX,
        ensures
            final(self)@ == old(self)@ + sample_triples(
                old(self).ns@,
                subject@,
                *sample,
                old(self).next(),
            ),
            final(self).next() == old(self).next() + sample_blanks(*sample),
            final(self).keeps_setup(old(self)),
            final(self).wf(),
    {
        let s = self.fresh();
        self.add(subject.duplicate(), Vocab::HasSample, s.duplicate());
        let class = self.named(Vocab::Sample);
        self.add(s.duplicate(), Vocab::Type, class);
        self.insert_container_properties(&s, &sample.container);
        self.insert_an_observation(&s, Vocab::ExpectedDatum, &sample.expected_datum);
        self.add(s.duplicate(), Vocab::VialShape, Self::plain(&sample.vial_type));
        self.add(s.duplicate(), Vocab::VialId, Self::plain(&sample.vial_id));
        self.add(s.duplicate(), Vocab::Role, Self::plain(&sample.role));
        self.insert_sample_items(&s, &sample.has_sample);
        assert(self@ =~= old(self)@ + sample_triples(
            old(self).ns@,
            subject@,
            *sample,
            old(self).next(),
        ));
    }

    /// Asserts the class of the action: its own for a modelled kind, the
    /// generic registered-action class for any other tag.
    fn insert_action_type(&mut self, subject: &Term, action: &Action)
        requires
            old(self).wf(),
            !(subject@ is Literal),
            below(subject@, old(self).next()),
        ensures
            final(self)@ == old(self)@.push(
                (subject@, vt(old(self).ns@, Vocab::Type), vt(old(self).ns@, action_class(action.action_name))),
            ),
            final(self).next() == old(self).next(),
            final(self).keeps_setup(old(self)),
            final(self).wf(),
    {
        let class = match action.action_name {
            ActionName::AddAction => Vocab::AddAction,
            ActionName::SetTemperatureAction => Vocab::SetTemperatureAction,
            ActionName::Unrecognized(_) => Vocab::RegisteredAction,
        };
        let class_term = self.named(class);
        self.add(subject.duplicate(), Vocab::Type, class_term);
    }

    fn insert_action_fields(&mut self, subject: &Term, action: &Action)
        requires
            old(self).wf(),
            !(subject@ is Literal),
            below(subject@, old(self).next()),
        ensures
            final(self)@ == old(self)@ + action_field_triples(old(self).ns@, subject@, *action),
            final(self).next() == old(self).next(),
            final(self).keeps_setup(old(self)),
            final(self).wf(),
    {
        let start = self.typed_literal(&action.start_time, Vocab::DateTime);
        self.add(subject.duplicate(), Vocab::StartTime, start);
        match &action.ending_time {
            Some(e) => {
                let end = self.typed_literal(e, Vocab::DateTime);
                self.add(subject.duplicate(), Vocab::EndTime, end);
            },
            None => {},
        }
        self.insert_opt_literal(subject, Vocab::MethodName, &action.method_name);
        self.insert_opt_literal(subject, Vocab::EquipmentName, &action.equipment_name);
        self.insert_opt_literal(subject, Vocab::LocalEquipmentName, &action.sub_equipment_name);
        assert(self@ =~= old(self)@ + action_field_triples(old(self).ns@, subject@, *action));
    }

    fn insert_action_observations(&mut self, subject: &Term, action: &Action)
        requires
            old(self).wf(),
            !(subject@ is Literal),
            below(subject@, old(self).next()),
            old(self).next() + action_observation_blanks(*action) <= u64::MAX,
        ensures
            final(self)@ == old(self)@ + action_observation_triples(
                old(self).ns@,
                subject@,
                *action,
                old(self).next(),
            ),
            final(self).next() == old(self).next() + action_observation_blanks(*action),
            final(self).keeps_setup(old(self)),
            final(self).wf(),
    {
        self.insert_opt_observation(subject, Vocab::TemperatureShakerShape, &action.temperature_shaker);
        self.insert_opt_observation(
            subject,
            Vocab::TemperatureTumbleStirrerShape,
            &action.temperature_tumble_stirrer,
        );
        self.insert_opt_observation(subject, Vocab::SpeedInRpm, &action.speed_shaker);
        assert(self@ =~= old(self)@ + action_observation_triples(
            old(self).ns@,
            subject@,
            *action,
            old(self).next(),
        ));
    }

    fn insert_an_action(&mut self, subject: &Term, action: &Action)
        requires
            old(self).wf(),
            !(subject@ is Literal),
            below(subject@, old(self).next()),
            old(self).next() + action_blanks(*action) <= u64::MAX,
        ensures
            final(self)@ == old(self)@ + action_triples(
                old(self).ns@,
                subject@,
                *action,
                old(self).next(),
            ),
            final(self).next() == old(self).next() + action_blanks(*action),
            final(self).keeps_setup(old(self)),
            final(self).wf(),
    {
        let ghost ns = self.ns@;
        let ghost g0 = self@;
        let ghost n = self.next();
        let act = self.fresh();
        self.add(act.duplicate(), Vocab::HasBatch, subject.duplicate());
        let ghost mut acc = seq![(act@, vt(ns, Vocab::HasBatch), subject@)];
        assert(self@ =~= g0 + acc);
        let ghost mut prev = self@;
        self.insert_action_fields(&act, action);
        proof {
            lemma_concat_associative(g0, acc, action_field_triples(ns, act@, *action));
            acc = acc + action_field_triples(ns, act@, *action);
            prev = self@;
        }
        match &action.container_info {
            Some(c) => self.insert_container_properties(&act, c),
            None => {},
        }
        proof {
            let piece = opt_container_triples(ns, act@, action.container_info);
            assert(self@ =~= prev + piece);
            lemma_concat_associative(g0, acc, piece);
            acc = acc + piece;
            prev = self@;
        }
        self.insert_action_observations(&act, action);
        proof {
            let piece = action_observation_triples(ns, act@, *action, n + 1);
            lemma_concat_associative(g0, acc, piece);
            acc = acc + piece;
            prev = self@;
        }
        self.insert_opt_literal(&act, Vocab::DispenseType, &action.dispense_type);
        proof {
            let piece = opt_literal_triples(ns, act@, Vocab::DispenseType, action.dispense_type);
            lemma_concat_associative(g0, acc, piece);
            acc = acc + piece;
            prev = self@;
        }
        self.insert_opt_literal(&act, Vocab::PhysicalState, &action.dispense_state);
        proof {
            let piece = opt_literal_triples(ns, act@, Vocab::PhysicalState, action.dispense_state);
            lemma_concat_associative(g0, acc, piece);
            acc = acc + piece;
            prev = self@;
        }
        let ghost m = self.next();
        match &action.has_container_position_and_quantity {
            Some(positions) => self.insert_container_positions(&act, positions),
            None => {},
        }
        proof {
            let piece = opt_positions_triples(
                ns,
                act@,
                action.has_container_position_and_quantity,
                m,
            );
            assert(self@ =~= prev + piece);
            lemma_concat_associative(g0, acc, piece);
            acc = acc + piece;
            prev = self@;
        }
        let ghost k = self.next();
        match &action.has_sample {
            Some(sample) => self.insert_samples(&act, sample),
            None => {},
        }
        proof {
            let piece = opt_sample_triples(ns, act@, action.has_sample, k);
            assert(self@ =~= prev + piece);
            lemma_concat_associative(g0, acc, piece);
            acc = acc + piece;
            prev = self@;
        }
        self.insert_action_type(&act, action);
        proof {
            let piece = seq![(act@, vt(ns, Vocab::Type), vt(ns, action_class(action.action_name)))];
            assert(self@ =~= prev + piece);
            lemma_concat_associative(g0, acc, piece);
            acc = acc + piece;
            assert(acc == action_triples(ns, subject@, *action, n));
        }
    }

    fn insert_actions(&mut self, subject: &Term, actions: &Vec<Action>)
        requires
            old(self).wf(),
            !(subject@ is Literal),
            below(subject@, old(self).next()),
            old(self).next() + actions_blanks(actions@) <= u64::MAX,
        ensures
            final(self)@ == old(self)@ + actions_triples(
                old(self).ns@,
                subject@,
                actions@,
                old(self).next(),
            ),
            final(self).next() == old(self).next() + actions_blanks(actions@),
            final(self).keeps_setup(old(self)),
            final(self).wf(),
    {
        let ghost n0 = self.next();
        let mut i: usize = 0;
        assert(actions@.take(0) =~= Seq::<Action>::empty());
        assert(self@ =~= old(self)@ + Seq::<TripleModel>::empty());
        while i < actions.len()
            invariant
                i <= actions@.len(),
                self.wf(),
                self.keeps_setup(old(self)),
                n0 == old(self).next(),
                n0 + actions_blanks(actions@) <= u64::MAX,
                !(subject@ is Literal),
                below(subject@, self.next()),
                self.next() == n0 + actions_blanks(actions@.take(i as int)),
                self@ == old(self)@ + actions_triples(
                    old(self).ns@,
                    subject@,
                    actions@.take(i as int),
                    n0,
                ),
            decreases actions.len() - i,
        {
            assert(actions@.take(i + 1).drop_last() =~= actions@.take(i as int));
            proof {
                lemma_sum_of_prefix(actions@, |a: Action| action_blanks(a), i + 1);
            }
            self.insert_an_action(subject, &actions[i]);
            i = i + 1;
            assert(self@ =~= old(self)@ + actions_triples(
                old(self).ns@,
                subject@,
                actions@.take(i as int),
                n0,
            ));
        }
        assert(actions@.take(i as int) =~= actions@);
    }

    /// Maps `batch` into the graph: a node of its own for the batch, typed
    /// and named, then each action in order. Needs only that the blank
    /// nodes it takes can be numbered within `u64`.
    pub fn insert_a_batch(&mut self, batch: &Batch) -> (r: Result<(), MapError>)
        requires
            old(self).wf(),
            old(self).next() + batch_blanks(*batch) <= u64::MAX,
        ensures
            r is Ok,
            final(self).wf(),
            final(self).entries() == old(self).entries(),
            final(self)@ == old(self)@ + batch_triples(old(self).entries(), *batch, old(self).next()),
            final(self).next() == old(self).next() + batch_blanks(*batch),
    {
        let b = self.fresh();
        let class = self.named(Vocab::Batch);
        self.add(b.duplicate(), Vocab::Type, class);
        self.add(b.duplicate(), Vocab::Name, Self::plain(&batch.batch_id));
        self.insert_actions(&b, &batch.actions);
        assert(self@ =~= old(self)@ + batch_triples(old(self).entries(), *batch, old(self).next()));
        Ok(())
    }
}

/// `a + b`, or `None` when it does not fit in `u64`.
fn plus(a: u64, b: u64) -> (r: Option<u64>)
    ensures
        r matches Some(c) ==> c == a + b,
        r is None ==> a + b > u64::MAX,
{
    if a > u64::MAX - b {
        None
    } else {
        Some(a + b)
    }
}

fn item_blank_count(it: &SampleItem) -> (r: u64)
    ensures
        r == item_blanks(*it),
{
    match it.expected_datum {
        Some(_) => 3,
        None => 2,
    }
}

fn sample_blank_count(sample: &Sample) -> (r: Option<u64>)
    ensures
        r matches Some(c) ==> c == sample_blanks(*sample),
        r is None ==> sample_blanks(*sample) > u64::MAX,
{
    let items = &sample.has_sample;
    let mut acc: u64 = 2;
    let mut i: usize = 0;
    assert(items@.take(0) =~= Seq::<SampleItem>::empty());
    while i < items.len()
        invariant
            i <= items@.len(),
            acc == 2 + items_blanks(items@.take(i as int)),
            items@ == sample.has_sample@,
        decreases items.len() - i,
    {
        assert(items@.take(i + 1).drop_last() =~= items@.take(i as int));
        assert(items_blanks(items@.take(i + 1)) == items_blanks(items@.take(i as int))
            + item_blanks(items@[i as int]));
        let c = item_blank_count(&items[i]);
        match plus(acc, c) {
            None => {
                proof {
                    lemma_items_blanks_prefix(items@, i + 1);
                }
                return None;
            },
            Some(n) => {
                acc = n;
            },
        }
        i = i + 1;
    }
    assert(items@.take(i as int) =~= items@);
    Some(acc)
}

fn action_blank_count(action: &Action) -> (r: Option<u64>)
    ensures
        r matches Some(c) ==> c == action_blanks(*action),
        r is None ==> action_blanks(*action) > u64::MAX,
{
    let mut acc: u64 = 1;
    if action.temperature_shaker.is_some() {
        acc = acc + 1;
    }
    if action.temperature_tumble_stirrer.is_some() {
        acc = acc + 1;
    }
    if action.speed_shaker.is_some() {
        acc = acc + 1;
    }
    if let Some(v) = &action.has_container_position_and_quantity {
        let len = v.len() as u64;
        if len > (u64::MAX - acc) / 2 {
            return None;
        }
        acc = acc + 2 * len;
    }
    if let Some(sample) = &action.has_sample {
        match sample_blank_count(sample) {
            None => {
                return None;
            },
            Some(c) => match plus(acc, c) {
                None => {
                    return None;
                },
                Some(n) => {
                    acc = n;
                },
            },
        }
    }
    Some(acc)
}

/// How many blank nodes mapping `batch` takes, or `None` when that number
/// does not fit in `u64`. With `GraphBuilder::next_blank`, it tells a caller
/// whether `insert_a_batch` may be called.
pub fn blank_nodes_needed(batch: &Batch) -> (r: Option<u64>)
    ensures
        r matches Some(c) ==> c == batch_blanks(*batch),
        r is None ==> batch_blanks(*batch) > u64::MAX,
{
    let actions = &batch.actions;
    let mut acc: u64 = 1;
    let mut i: usize = 0;
    assert(actions@.take(0) =~= Seq::<Action>::empty());
    while i < actions.len()
        invariant
            i <= actions@.len(),
            acc == 1 + actions_blanks(actions@.take(i as int)),
            actions@ == batch.actions@,
        decreases actions.len() - i,
    {
        assert(actions@.take(i + 1).drop_last() =~= actions@.take(i as int));
        assert(actions_blanks(actions@.take(i + 1)) == actions_blanks(actions@.take(i as int))
            + action_blanks(actions@[i as int]));
        proof {
            lemma_actions_blanks_prefix(actions@, i + 1);
        }
        match action_blank_count(&actions[i]) {
            None => {
                return None;
            },
            Some(c) => match plus(acc, c) {
                None => {
                    return None;
                },
                Some(n) => {
                    acc = n;
                },
            },
        }
        i = i + 1;
    }
    assert(actions@.take(i as int) =~= actions@);
    Some(acc)
}

} // verus!
