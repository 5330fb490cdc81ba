use vstd::prelude::*;
use crate::graph::TripleModel;
use crate::namespace::Entries;
use crate::record::{
    Action, ActionName, Batch, Chemical, ContainerInfo, ContainerPosition, Observation, Sample,
    SampleItem,
};
use crate::term::TermModel;
use crate::vocab::{iri_of, vt, Vocab};

verus! {

/// The blank node numbered `n`.
pub open spec fn bn(n: int) -> TermModel {
    TermModel::Blank(n as u64)
}

/// A plain string literal.
pub open spec fn lit(s: Seq<char>) -> TermModel {
    TermModel::Literal(s, None)
}

/// A literal typed with the datatype `dt` of the vocabulary.
pub open spec fn typed(ns: Entries, s: Seq<char>, dt: Vocab) -> TermModel {
    TermModel::Literal(s, Some(iri_of(ns, dt)))
}

/// The sum of `f` over `s`.
pub open spec fn sum_of<A>(s: Seq<A>, f: spec_fn(A) -> nat) -> nat
    decreases s.len(),
{
    if s.len() == 0 {
        0
    } else {
        sum_of(s.drop_last(), f) + f(s.last())
    }
}

pub proof fn lemma_sum_of_prefix<A>(s: Seq<A>, f: spec_fn(A) -> nat, i: int)
    requires
        0 <= i <= s.len(),
    ensures
        sum_of(s.take(i), f) <= sum_of(s, f),
    decreases s.len(),
{
    if i < s.len() {
        assert(s.drop_last().take(i) =~= s.take(i));
        lemma_sum_of_prefix(s.drop_last(), f, i);
    } else {
        assert(s.take(i) =~= s);
    }
}

/// A measured quantity: a node of its own with a unit and a value, linked
/// from `subj` by `prop`.
pub open spec fn observation_triples(
    ns: Entries,
    subj: TermModel,
    prop: Vocab,
    o: Observation,
    n: int,
) -> Seq<TripleModel> {
    seq![
        (subj, vt(ns, prop), bn(n)),
        (bn(n), vt(ns, Vocab::Unit), lit(o.unit@)),
        (bn(n), vt(ns, Vocab::Value), typed(ns, o.value@, Vocab::Double)),
    ]
}

pub open spec fn opt_observation_triples(
    ns: Entries,
    subj: TermModel,
    prop: Vocab,
    o: Option<Observation>,
    n: int,
) -> Seq<TripleModel> {
    match o {
        Some(o) => observation_triples(ns, subj, prop, o, n),
        None => Seq::empty(),
    }
}

pub open spec fn opt_blanks<A>(o: Option<A>) -> nat {
    if o is Some {
        1
    } else {
        0
    }
}

pub open spec fn opt_literal_triples(
    ns: Entries,
    subj: TermModel,
    prop: Vocab,
    o: Option<String>,
) -> Seq<TripleModel> {
    match o {
        Some(s) => seq![(subj, vt(ns, prop), lit(s@))],
        None => Seq::empty(),
    }
}

pub open spec fn container_triples(ns: Entries, subj: TermModel, c: ContainerInfo) -> Seq<
    TripleModel,
> {
    seq![
        (subj, vt(ns, Vocab::ContainerId), lit(c.container_id@)),
        (subj, vt(ns, Vocab::ContainerBarcode), lit(c.container_barcode@)),
    ]
}

pub open spec fn opt_container_triples(
    ns: Entries,
    subj: TermModel,
    c: Option<ContainerInfo>,
) -> Seq<TripleModel> {
    match c {
        Some(c) => container_triples(ns, subj, c),
        None => Seq::empty(),
    }
}

/// A container position takes two blank nodes: its own, then its quantity's.
pub open spec fn position_triples(ns: Entries, subj: TermModel, cp: ContainerPosition, n: int) -> Seq<
    TripleModel,
> {
    seq![
        (subj, vt(ns, Vocab::HasContainerPositionAndQuantity), bn(n)),
        (bn(n), vt(ns, Vocab::Type), vt(ns, Vocab::ContainerPositionAndQuantity)),
        (bn(n), vt(ns, Vocab::Position), lit(cp.position@)),
    ] + observation_triples(ns, bn(n), Vocab::Quantity, cp.quantity, n + 1)
}

pub open spec fn positions_triples(
    ns: Entries,
    subj: TermModel,
    s: Seq<ContainerPosition>,
    n: int,
) -> Seq<TripleModel>
    decreases s.len(),
{
    if s.len() == 0 {
        Seq::empty()
    } else {
        positions_triples(ns, subj, s.drop_last(), n) + position_triples(
            ns,
            subj,
            s.last(),
            n + 2 * (s.len() - 1),
        )
    }
}

pub open spec fn opt_positions_blanks(o: Option<Vec<ContainerPosition>>) -> nat {
    match o {
        Some(v) => 2 * v@.len(),
        None => 0,
    }
}

pub open spec fn opt_positions_triples(
    ns: Entries,
    subj: TermModel,
    o: Option<Vec<ContainerPosition>>,
    n: int,
) -> Seq<TripleModel> {
    match o {
        Some(v) => positions_triples(ns, subj, v@, n),
        None => Seq::empty(),
    }
}

/// A chemical takes one blank node.
pub open spec fn chemical_triples(ns: Entries, subj: TermModel, c: Chemical, n: int) -> Seq<
    TripleModel,
> {
    seq![
        (subj, vt(ns, Vocab::HasChemical), bn(n)),
        (bn(n), vt(ns, Vocab::Type), vt(ns, Vocab::ChemicalEntity)),
        (bn(n), vt(ns, Vocab::Identifier), lit(c.chemical_id@)),
        (bn(n), vt(ns, Vocab::ChemicalName), lit(c.chemical_name@)),
        (bn(n), vt(ns, Vocab::CasNumber), lit(c.cas_number@)),
        (bn(n), vt(ns, Vocab::Smiles), lit(c.smiles@)),
        (bn(n), vt(ns, Vocab::MolecularMass), lit(c.molecular_mass.value@)),
    ]
}

/// Blank nodes of a sample item: its own, its expected datum's if any, its
/// chemical's.
pub open spec fn item_blanks(it: SampleItem) -> nat {
    2 + opt_blanks(it.expected_datum)
}

pub open spec fn item_triples(ns: Entries, subj: TermModel, it: SampleItem, n: int) -> Seq<
    TripleModel,
> {
    seq![
        (bn(n), vt(ns, Vocab::Type), vt(ns, Vocab::Sample)),
        (subj, vt(ns, Vocab::HasSample), bn(n)),
        (bn(n), vt(ns, Vocab::Role), lit(it.role@)),
    ] + opt_observation_triples(ns, bn(n), Vocab::ExpectedDatum, it.expected_datum, n + 1) + seq![
        (bn(n), vt(ns, Vocab::Identifier), lit(it.sample_id@)),
        (bn(n), vt(ns, Vocab::PhysicalState), lit(it.physical_state@)),
        (bn(n), vt(ns, Vocab::InternalBarCode), lit(it.internal_bar_code@)),
    ] + chemical_triples(ns, bn(n), it.has_chemical, n + 1 + opt_blanks(it.expected_datum))
}

pub open spec fn items_blanks(s: Seq<SampleItem>) -> nat {
    sum_of(s, |it: SampleItem| item_blanks(it))
}

pub open spec fn items_triples(ns: Entries, subj: TermModel, s: Seq<SampleItem>, n: int) -> Seq<
    TripleModel,
>
    decreases s.len(),
{
    if s.len() == 0 {
        Seq::empty()
    } else {
        items_triples(ns, subj, s.drop_last(), n) + item_triples(
            ns,
            subj,
            s.last(),
            n + items_blanks(s.drop_last()),
        )
    }
}

/// Blank nodes of a sample: its own, its expected datum's, its items'.
pub open spec fn sample_blanks(s: Sample) -> nat {
    2 + items_blanks(s.has_sample@)
}

pub open spec fn sample_triples(ns: Entries, subj: TermModel, s: Sample, n: int) -> Seq<
    TripleModel,
> {
    seq![
        (subj, vt(ns, Vocab::HasSample), bn(n)),
        (bn(n), vt(ns, Vocab::Type), vt(ns, Vocab::Sample)),
    ] + container_triples(ns, bn(n), s.container) + observation_triples(
        ns,
        bn(n),
        Vocab::ExpectedDatum,
        s.expected_datum,
        n + 1,
    ) + seq![
        (bn(n), vt(ns, Vocab::VialShape), lit(s.vial_type@)),
        (bn(n), vt(ns, Vocab::VialId), lit(s.vial_id@)),
        (bn(n), vt(ns, Vocab::Role), lit(s.role@)),
    ] + items_triples(ns, bn(n), s.has_sample@, n + 2)
}

pub open spec fn opt_sample_blanks(o: Option<Sample>) -> nat {
    match o {
        Some(s) => sample_blanks(s),
        None => 0,
    }
}

pub open spec fn opt_sample_triples(ns: Entries, subj: TermModel, o: Option<Sample>, n: int) -> Seq<
    TripleModel,
> {
    match o {
        Some(s) => sample_triples(ns, subj, s, n),
        None => Seq::empty(),
    }
}

/// The class of an action: each modelled kind has its own, every other tag
/// falls back to the generic registered-action class.
pub open spec fn action_class(a: ActionName) -> Vocab {
    match a {
        ActionName::AddAction => Vocab::AddAction,
        ActionName::SetTemperatureAction => Vocab::SetTemperatureAction,
        ActionName::Unrecognized(_) => Vocab::RegisteredAction,
    }
}

/// The number of blank nodes that the measured quantities of an action take.
pub open spec fn action_observation_blanks(a: Action) -> nat {
    opt_blanks(a.temperature_shaker) + opt_blanks(a.temperature_tumble_stirrer) + opt_blanks(
        a.speed_shaker,
    )
}

pub open spec fn action_blanks(a: Action) -> nat {
    1 + action_observation_blanks(a) + opt_positions_blanks(a.has_container_position_and_quantity)
        + opt_sample_blanks(a.has_sample)
}

/// The scalar fields of an action, each present one as one triple.
pub open spec fn action_field_triples(ns: Entries, act: TermModel, a: Action) -> Seq<TripleModel> {
    seq![(act, vt(ns, Vocab::StartTime), typed(ns, a.start_time@, Vocab::DateTime))] + match a.ending_time {
        Some(e) => seq![(act, vt(ns, Vocab::EndTime), typed(ns, e@, Vocab::DateTime))],
        None => Seq::empty(),
    } + opt_literal_triples(ns, act, Vocab::MethodName, a.method_name) + opt_literal_triples(
        ns,
        act,
        Vocab::EquipmentName,
        a.equipment_name,
    ) + opt_literal_triples(ns, act, Vocab::LocalEquipmentName, a.sub_equipment_name)
}

/// The measured quantities of an action, numbered from `n`.
pub open spec fn action_observation_triples(ns: Entries, act: TermModel, a: Action, n: int) -> Seq<
    TripleModel,
> {
    opt_observation_triples(ns, act, Vocab::TemperatureShakerShape, a.temperature_shaker, n)
        + opt_observation_triples(
        ns,
        act,
        Vocab::TemperatureTumbleStirrerShape,
        a.temperature_tumble_stirrer,
        n + opt_blanks(a.temperature_shaker),
    ) + opt_observation_triples(
        ns,
        act,
        Vocab::SpeedInRpm,
        a.speed_shaker,
        n + opt_blanks(a.temperature_shaker) + opt_blanks(a.temperature_tumble_stirrer),
    )
}

/// An action numbered `n`, linked to the batch node `batch`. Actions, like
/// every other synthesized entity (samples, items, chemicals, observations,
/// container positions), are blank nodes: their identity is local to the
/// graph, and no IRI is minted for them.
pub open spec fn action_triples(ns: Entries, batch: TermModel, a: Action, n: int) -> Seq<
    TripleModel,
> {
    let act = bn(n);
    let m = n + 1 + action_observation_blanks(a);
    let k = m + opt_positions_blanks(a.has_container_position_and_quantity);
    seq![(act, vt(ns, Vocab::HasBatch), batch)] + action_field_triples(ns, act, a)
        + opt_container_triples(ns, act, a.container_info) + action_observation_triples(
        ns,
        act,
        a,
        n + 1,
    ) + opt_literal_triples(ns, act, Vocab::DispenseType, a.dispense_type) + opt_literal_triples(
        ns,
        act,
        Vocab::PhysicalState,
        a.dispense_state,
    ) + opt_positions_triples(ns, act, a.has_container_position_and_quantity, m)
        + opt_sample_triples(ns, act, a.has_sample, k) + seq![
        (act, vt(ns, Vocab::Type), vt(ns, action_class(a.action_name))),
    ]
}

pub open spec fn actions_blanks(s: Seq<Action>) -> nat {
    sum_of(s, |a: Action| action_blanks(a))
}

pub open spec fn actions_triples(ns: Entries, batch: TermModel, s: Seq<Action>, n: int) -> Seq<
    TripleModel,
>
    decreases s.len(),
{
    if s.len() == 0 {
        Seq::empty()
    } else {
        actions_triples(ns, batch, s.drop_last(), n) + action_triples(
            ns,
            batch,
            s.last(),
            n + actions_blanks(s.drop_last()),
        )
    }
}

/// The blank nodes that a batch takes: its own, then those of its actions.
pub open spec fn batch_blanks(b: Batch) -> nat {
    1 + actions_blanks(b.actions@)
}

/// Everything a batch maps to, its blank nodes numbered from `n`.
pub open spec fn batch_triples(ns: Entries, b: Batch, n: int) -> Seq<TripleModel> {
    seq![
        (bn(n), vt(ns, Vocab::Type), vt(ns, Vocab::Batch)),
        (bn(n), vt(ns, Vocab::Name), lit(b.batch_id@)),
    ] + actions_triples(ns, bn(n), b.actions@, n + 1)
}

pub proof fn lemma_items_blanks_prefix(s: Seq<SampleItem>, i: int)
    requires
        0 <= i <= s.len(),
    ensures
        items_blanks(s.take(i)) <= items_blanks(s),
    decreases s.len(),
{
    if i < s.len() {
        assert(s.drop_last().take(i) =~= s.take(i));
        lemma_items_blanks_prefix(s.drop_last(), i);
    } else {
        assert(s.take(i) =~= s);
    }
}

pub proof fn lemma_actions_blanks_prefix(s: Seq<Action>, i: int)
    requires
        0 <= i <= s.len(),
    ensures
        actions_blanks(s.take(i)) <= actions_blanks(s),
    decreases s.len(),
{
    if i < s.len() {
        assert(s.drop_last().take(i) =~= s.take(i));
        lemma_actions_blanks_prefix(s.drop_last(), i);
    } else {
        assert(s.take(i) =~= s);
    }
}

} // verus!
