use vstd::prelude::*;
use crate::graph::TripleModel;
use crate::model::{
    action_blanks, action_class, action_field_triples, action_observation_blanks,
    action_observation_triples, action_triples, actions_blanks, actions_triples, batch_blanks,
    batch_triples, bn, chemical_triples, container_triples, item_blanks, item_triples,
    items_blanks, items_triples, observation_triples, opt_blanks,
    opt_container_triples, opt_literal_triples, opt_observation_triples, opt_positions_blanks,
    opt_positions_triples, opt_sample_blanks, opt_sample_triples, position_triples,
    positions_triples, sample_blanks, sample_triples,
};
use crate::namespace::{base_of, ontology_entries, Entries};
use crate::render::turtle_text;
use crate::record::{Action, Batch};
use crate::term::TermModel;
use crate::vocab::{iri_of, vt, Vocab};

verus! {

/// The number of a blank node, if the term is one.
pub open spec fn node_ids(t: TermModel) -> Set<u64> {
    match t {
        TermModel::Blank(k) => set![k],
        _ => Set::empty(),
    }
}

pub open spec fn triple_ids(t: TripleModel) -> Set<u64> {
    node_ids(t.0) + node_ids(t.1) + node_ids(t.2)
}

/// The numbers of the blank nodes that occur in `s`.
pub open spec fn blank_ids(s: Seq<TripleModel>) -> Set<u64> {
    Set::new(|k: u64| exists|i: int| 0 <= i < s.len() && #[trigger] triple_ids(s[i]).contains(k))
}

/// The numbers from `lo` up to, not including, `hi`.
pub open spec fn id_range(lo: int, hi: int) -> Set<u64> {
    Set::new(|k: u64| lo <= k < hi)
}

/// What a substructure numbered from `n` and taking `count` blank nodes
/// contributes when linked from `subj`: nothing when it takes none, else the
/// parent and its own range.
pub open spec fn attached(subj: TermModel, count: int, n: int) -> Set<u64> {
    if count > 0 {
        node_ids(subj) + id_range(n, n + count)
    } else {
        Set::empty()
    }
}

pub(crate) proof fn lemma_ids_empty()
    ensures
        blank_ids(Seq::<TripleModel>::empty()) == Set::<u64>::empty(),
{
    assert(blank_ids(Seq::<TripleModel>::empty()) =~= Set::<u64>::empty());
}

proof fn lemma_ids_concat(a: Seq<TripleModel>, b: Seq<TripleModel>)
    ensures
        blank_ids(a + b) == blank_ids(a) + blank_ids(b),
{
    assert forall|k: u64| #[trigger]
        blank_ids(a + b).contains(k) == (blank_ids(a) + blank_ids(b)).contains(k) by {
        if blank_ids(a + b).contains(k) {
            let i = choose|i: int| 0 <= i < (a + b).len() && #[trigger] triple_ids((a + b)[i]).contains(k);
            if i < a.len() {
                assert(triple_ids(a[i]).contains(k));
            } else {
                assert(triple_ids(b[i - a.len()]).contains(k));
            }
        }
        if blank_ids(a).contains(k) {
            let i = choose|i: int| 0 <= i < a.len() && #[trigger] triple_ids(a[i]).contains(k);
            assert(triple_ids((a + b)[i]).contains(k));
        }
        if blank_ids(b).contains(k) {
            let i = choose|i: int| 0 <= i < b.len() && #[trigger] triple_ids(b[i]).contains(k);
            assert(triple_ids((a + b)[i + a.len()]).contains(k));
        }
    }
    assert(blank_ids(a + b) =~= blank_ids(a) + blank_ids(b));
}

pub(crate) proof fn lemma_ids_push(s: Seq<TripleModel>, t: TripleModel)
    ensures
        blank_ids(s.push(t)) == blank_ids(s) + triple_ids(t),
{
    lemma_ids_concat(s, seq![t]);
    assert(s.push(t) =~= s + seq![t]);
    assert(blank_ids(seq![t]) =~= triple_ids(t)) by {
        assert forall|k: u64| triple_ids(t).contains(k) implies blank_ids(seq![t]).contains(k) by {
            assert(triple_ids(seq![t][0]).contains(k));
        }
    }
}

proof fn lemma_ids1(t0: TripleModel)
    ensures
        blank_ids(seq![t0]) == triple_ids(t0),
{
    lemma_ids_empty();
    lemma_ids_push(Seq::empty(), t0);
    assert(Set::<u64>::empty() + triple_ids(t0) =~= triple_ids(t0));
}

proof fn lemma_ids2(t0: TripleModel, t1: TripleModel)
    ensures
        blank_ids(seq![t0, t1]) == triple_ids(t0) + triple_ids(t1),
{
    lemma_ids1(t0);
    lemma_ids_push(seq![t0], t1);
}

proof fn lemma_ids3(t0: TripleModel, t1: TripleModel, t2: TripleModel)
    ensures
        blank_ids(seq![t0, t1, t2]) == triple_ids(t0) + triple_ids(t1) + triple_ids(t2),
{
    lemma_ids2(t0, t1);
    lemma_ids_push(seq![t0, t1], t2);
}

proof fn lemma_ids_observation(ns: Entries, subj: TermModel, p: Vocab, o: crate::record::Observation, n: int)
    requires
        0 <= n < u64::MAX,
    ensures
        blank_ids(observation_triples(ns, subj, p, o, n)) == attached(subj, 1, n),
{
    let s = observation_triples(ns, subj, p, o, n);
    lemma_ids3(s[0], s[1], s[2]);
    assert(s =~= seq![s[0], s[1], s[2]]);
    assert(blank_ids(s) =~= attached(subj, 1, n));
}

proof fn lemma_ids_opt_observation(
    ns: Entries,
    subj: TermModel,
    p: Vocab,
    o: Option<crate::record::Observation>,
    n: int,
)
    requires
        0 <= n,
        n + opt_blanks(o) <= u64::MAX,
    ensures
        blank_ids(opt_observation_triples(ns, subj, p, o, n)) == attached(subj, opt_blanks(o) as int, n),
{
    match o {
        Some(x) => lemma_ids_observation(ns, subj, p, x, n),
        None => {
            lemma_ids_empty();
        },
    }
}

proof fn lemma_ids_container(ns: Entries, subj: TermModel, c: crate::record::ContainerInfo)
    ensures
        blank_ids(container_triples(ns, subj, c)) == node_ids(subj),
{
    let s = container_triples(ns, subj, c);
    lemma_ids2(s[0], s[1]);
    assert(s =~= seq![s[0], s[1]]);
    assert(blank_ids(s) =~= node_ids(subj));
}

proof fn lemma_ids_opt_container(
    ns: Entries,
    subj: TermModel,
    c: Option<crate::record::ContainerInfo>,
)
    ensures
        blank_ids(opt_container_triples(ns, subj, c)).subset_of(node_ids(subj)),
{
    match c {
        Some(x) => lemma_ids_container(ns, subj, x),
        None => {
            lemma_ids_empty();
        },
    }
}

proof fn lemma_ids_opt_literal(ns: Entries, subj: TermModel, p: Vocab, o: Option<String>)
    ensures
        blank_ids(opt_literal_triples(ns, subj, p, o)).subset_of(node_ids(subj)),
{
    match o {
        Some(x) => {
            let s = opt_literal_triples(ns, subj, p, o);
            lemma_ids1(s[0]);
            assert(s =~= seq![s[0]]);
        },
        None => {
            lemma_ids_empty();
        },
    }
}

proof fn lemma_ids_position(ns: Entries, subj: TermModel, cp: crate::record::ContainerPosition, n: int)
    requires
        0 <= n,
        n + 2 <= u64::MAX,
    ensures
        blank_ids(position_triples(ns, subj, cp, n)) == attached(subj, 2, n),
{
    let head = seq![
        (subj, vt(ns, Vocab::HasContainerPositionAndQuantity), bn(n)),
        (bn(n), vt(ns, Vocab::Type), vt(ns, Vocab::ContainerPositionAndQuantity)),
        (bn(n), vt(ns, Vocab::Position), crate::model::lit(cp.position@)),
    ];
    lemma_ids3(head[0], head[1], head[2]);
    lemma_ids_observation(ns, bn(n), Vocab::Quantity, cp.quantity, n + 1);
    lemma_ids_concat(head, observation_triples(ns, bn(n), Vocab::Quantity, cp.quantity, n + 1));
    assert(blank_ids(position_triples(ns, subj, cp, n)) =~= attached(subj, 2, n));
}

proof fn lemma_ids_positions(
    ns: Entries,
    subj: TermModel,
    s: Seq<crate::record::ContainerPosition>,
    n: int,
)
    requires
        0 <= n,
        n + 2 * s.len() <= u64::MAX,
    ensures
        blank_ids(positions_triples(ns, subj, s, n)) == attached(subj, 2 * s.len() as int, n),
    decreases s.len(),
{
    if s.len() == 0 {
        lemma_ids_empty();
    } else {
        let m = n + 2 * (s.len() - 1);
        lemma_ids_positions(ns, subj, s.drop_last(), n);
        lemma_ids_position(ns, subj, s.last(), m);
        lemma_ids_concat(positions_triples(ns, subj, s.drop_last(), n), position_triples(ns, subj, s.last(), m));
        assert(blank_ids(positions_triples(ns, subj, s, n)) =~= attached(subj, 2 * s.len() as int, n));
    }
}

proof fn lemma_ids_opt_positions(
    ns: Entries,
    subj: TermModel,
    o: Option<Vec<crate::record::ContainerPosition>>,
    n: int,
)
    requires
        0 <= n,
        n + opt_positions_blanks(o) <= u64::MAX,
    ensures
        blank_ids(opt_positions_triples(ns, subj, o, n)) == attached(subj, opt_positions_blanks(o) as int, n),
{
    match o {
        Some(v) => lemma_ids_positions(ns, subj, v@, n),
        None => {
            lemma_ids_empty();
        },
    }
}

proof fn lemma_ids_chemical(ns: Entries, subj: TermModel, c: crate::record::Chemical, n: int)
    requires
        0 <= n < u64::MAX,
    ensures
        blank_ids(chemical_triples(ns, subj, c, n)) == attached(subj, 1, n),
{
    let s = chemical_triples(ns, subj, c, n);
    lemma_ids3(s[0], s[1], s[2]);
    lemma_ids_push(seq![s[0], s[1], s[2]], s[3]);
    lemma_ids_push(seq![s[0], s[1], s[2], s[3]], s[4]);
    lemma_ids_push(seq![s[0], s[1], s[2], s[3], s[4]], s[5]);
    lemma_ids_push(seq![s[0], s[1], s[2], s[3], s[4], s[5]], s[6]);
    assert(s =~= seq![s[0], s[1], s[2], s[3], s[4], s[5], s[6]]);
    let own = set![n as u64];
    assert(triple_ids(s[0]) =~= node_ids(subj) + own);
    assert forall|j: int| 1 <= j < 7 implies #[trigger] triple_ids(s[j]) =~= own by {}
    assert(id_range(n, n + 1) =~= own);
    assert(blank_ids(seq![s[0], s[1], s[2]]) =~= node_ids(subj) + own);
    assert(blank_ids(seq![s[0], s[1], s[2], s[3]]) =~= node_ids(subj) + own);
    assert(blank_ids(seq![s[0], s[1], s[2], s[3], s[4]]) =~= node_ids(subj) + own);
    assert(blank_ids(seq![s[0], s[1], s[2], s[3], s[4], s[5]]) =~= node_ids(subj) + own);
    assert(blank_ids(s) =~= attached(subj, 1, n));
}

proof fn lemma_ids_item(ns: Entries, subj: TermModel, it: crate::record::SampleItem, n: int)
    requires
        0 <= n,
        n + item_blanks(it) <= u64::MAX,
    ensures
        blank_ids(item_triples(ns, subj, it, n)) == attached(subj, item_blanks(it) as int, n),
{
    let me = bn(n);
    let ob = opt_blanks(it.expected_datum);
    let head = seq![
        (me, vt(ns, Vocab::Type), vt(ns, Vocab::Sample)),
        (subj, vt(ns, Vocab::HasSample), me),
        (me, vt(ns, Vocab::Role), crate::model::lit(it.role@)),
    ];
    let datum = opt_observation_triples(ns, me, Vocab::ExpectedDatum, it.expected_datum, n + 1);
    let mid = seq![
        (me, vt(ns, Vocab::Identifier), crate::model::lit(it.sample_id@)),
        (me, vt(ns, Vocab::PhysicalState), crate::model::lit(it.physical_state@)),
        (me, vt(ns, Vocab::InternalBarCode), crate::model::lit(it.internal_bar_code@)),
    ];
    let chem = chemical_triples(ns, me, it.has_chemical, n + 1 + ob);
    lemma_ids3(head[0], head[1], head[2]);
    lemma_ids3(mid[0], mid[1], mid[2]);
    lemma_ids_opt_observation(ns, me, Vocab::ExpectedDatum, it.expected_datum, n + 1);
    lemma_ids_chemical(ns, me, it.has_chemical, n + 1 + ob);
    lemma_ids_concat(head, datum);
    lemma_ids_concat(head + datum, mid);
    lemma_ids_concat(head + datum + mid, chem);
    assert(item_triples(ns, subj, it, n) == head + datum + mid + chem);
    assert(blank_ids(item_triples(ns, subj, it, n)) =~= attached(subj, item_blanks(it) as int, n));
}

proof fn lemma_ids_items(ns: Entries, subj: TermModel, s: Seq<crate::record::SampleItem>, n: int)
    requires
        0 <= n,
        n + items_blanks(s) <= u64::MAX,
    ensures
        blank_ids(items_triples(ns, subj, s, n)) == attached(subj, items_blanks(s) as int, n),
    decreases s.len(),
{
    if s.len() == 0 {
        lemma_ids_empty();
    } else {
        let m = n + items_blanks(s.drop_last());
        assert(items_blanks(s) == items_blanks(s.drop_last()) + item_blanks(s.last()));
        lemma_ids_items(ns, subj, s.drop_last(), n);
        lemma_ids_item(ns, subj, s.last(), m);
        lemma_ids_concat(items_triples(ns, subj, s.drop_last(), n), item_triples(ns, subj, s.last(), m));
        assert(blank_ids(items_triples(ns, subj, s, n)) =~= attached(subj, items_blanks(s) as int, n));
    }
}

proof fn lemma_ids_sample(ns: Entries, subj: TermModel, sm: crate::record::Sample, n: int)
    requires
        0 <= n,
        n + sample_blanks(sm) <= u64::MAX,
    ensures
        blank_ids(sample_triples(ns, subj, sm, n)) == attached(subj, sample_blanks(sm) as int, n),
{
    let me = bn(n);
    let head = seq![
        (subj, vt(ns, Vocab::HasSample), me),
        (me, vt(ns, Vocab::Type), vt(ns, Vocab::Sample)),
    ];
    let cont = container_triples(ns, me, sm.container);
    let datum = observation_triples(ns, me, Vocab::ExpectedDatum, sm.expected_datum, n + 1);
    let mid = seq![
        (me, vt(ns, Vocab::VialShape), crate::model::lit(sm.vial_type@)),
        (me, vt(ns, Vocab::VialId), crate::model::lit(sm.vial_id@)),
        (me, vt(ns, Vocab::Role), crate::model::lit(sm.role@)),
    ];
    let items = items_triples(ns, me, sm.has_sample@, n + 2);
    lemma_ids2(head[0], head[1]);
    lemma_ids3(mid[0], mid[1], mid[2]);
    lemma_ids_container(ns, me, sm.container);
    lemma_ids_observation(ns, me, Vocab::ExpectedDatum, sm.expected_datum, n + 1);
    lemma_ids_items(ns, me, sm.has_sample@, n + 2);
    lemma_ids_concat(head, cont);
    lemma_ids_concat(head + cont, datum);
    lemma_ids_concat(head + cont + datum, mid);
    lemma_ids_concat(head + cont + datum + mid, items);
    assert(sample_triples(ns, subj, sm, n) == head + cont + datum + mid + items);
    assert(blank_ids(sample_triples(ns, subj, sm, n)) =~= attached(subj, sample_blanks(sm) as int, n));
}

proof fn lemma_ids_opt_sample(ns: Entries, subj: TermModel, o: Option<crate::record::Sample>, n: int)
    requires
        0 <= n,
        n + opt_sample_blanks(o) <= u64::MAX,
    ensures
        blank_ids(opt_sample_triples(ns, subj, o, n)) == attached(subj, opt_sample_blanks(o) as int, n),
{
    match o {
        Some(x) => lemma_ids_sample(ns, subj, x, n),
        None => {
            lemma_ids_empty();
        },
    }
}

proof fn lemma_ids_action_fields(ns: Entries, act: TermModel, a: Action)
    ensures
        blank_ids(action_field_triples(ns, act, a)).subset_of(node_ids(act)),
{
    let start = seq![
        (act, vt(ns, Vocab::StartTime), crate::model::typed(ns, a.start_time@, Vocab::DateTime)),
    ];
    let end = match a.ending_time {
        Some(e) => seq![(act, vt(ns, Vocab::EndTime), crate::model::typed(ns, e@, Vocab::DateTime))],
        None => Seq::empty(),
    };
    let m = opt_literal_triples(ns, act, Vocab::MethodName, a.method_name);
    let e = opt_literal_triples(ns, act, Vocab::EquipmentName, a.equipment_name);
    let l = opt_literal_triples(ns, act, Vocab::LocalEquipmentName, a.sub_equipment_name);
    lemma_ids1(start[0]);
    assert(start =~= seq![start[0]]);
    if a.ending_time is Some {
        lemma_ids1(end[0]);
        assert(end =~= seq![end[0]]);
    } else {
        lemma_ids_empty();
    }
    lemma_ids_opt_literal(ns, act, Vocab::MethodName, a.method_name);
    lemma_ids_opt_literal(ns, act, Vocab::EquipmentName, a.equipment_name);
    lemma_ids_opt_literal(ns, act, Vocab::LocalEquipmentName, a.sub_equipment_name);
    lemma_ids_concat(start, end);
    lemma_ids_concat(start + end, m);
    lemma_ids_concat(start + end + m, e);
    lemma_ids_concat(start + end + m + e, l);
    assert(action_field_triples(ns, act, a) == start + end + m + e + l);
}

proof fn lemma_ids_action_observations(ns: Entries, act: TermModel, a: Action, n: int)
    requires
        0 <= n,
        n + action_observation_blanks(a) <= u64::MAX,
    ensures
        blank_ids(action_observation_triples(ns, act, a, n)) == attached(
            act,
            action_observation_blanks(a) as int,
            n,
        ),
{
    let b1 = opt_blanks(a.temperature_shaker);
    let b2 = opt_blanks(a.temperature_tumble_stirrer);
    let o1 = opt_observation_triples(ns, act, Vocab::TemperatureShakerShape, a.temperature_shaker, n);
    let o2 = opt_observation_triples(
        ns,
        act,
        Vocab::TemperatureTumbleStirrerShape,
        a.temperature_tumble_stirrer,
        n + b1,
    );
    let o3 = opt_observation_triples(ns, act, Vocab::SpeedInRpm, a.speed_shaker, n + b1 + b2);
    lemma_ids_opt_observation(ns, act, Vocab::TemperatureShakerShape, a.temperature_shaker, n);
    lemma_ids_opt_observation(
        ns,
        act,
        Vocab::TemperatureTumbleStirrerShape,
        a.temperature_tumble_stirrer,
        n + b1,
    );
    lemma_ids_opt_observation(ns, act, Vocab::SpeedInRpm, a.speed_shaker, n + b1 + b2);
    lemma_ids_concat(o1, o2);
    lemma_ids_concat(o1 + o2, o3);
    assert(blank_ids(action_observation_triples(ns, act, a, n)) =~= attached(
        act,
        action_observation_blanks(a) as int,
        n,
    ));
}

proof fn lemma_ids_action(ns: Entries, batch: TermModel, a: Action, n: int)
    requires
        0 <= n,
        n + action_blanks(a) <= u64::MAX,
    ensures
        blank_ids(action_triples(ns, batch, a, n)) == node_ids(batch) + id_range(
            n,
            n + action_blanks(a),
        ),
{
    let act = bn(n);
    let m = n + 1 + action_observation_blanks(a);
    let k = m + opt_positions_blanks(a.has_container_position_and_quantity);
    let link = seq![(act, vt(ns, Vocab::HasBatch), batch)];
    let fields = action_field_triples(ns, act, a);
    let cont = opt_container_triples(ns, act, a.container_info);
    let obs = action_observation_triples(ns, act, a, n + 1);
    let dtype = opt_literal_triples(ns, act, Vocab::DispenseType, a.dispense_type);
    let dstate = opt_literal_triples(ns, act, Vocab::PhysicalState, a.dispense_state);
    let places = opt_positions_triples(ns, act, a.has_container_position_and_quantity, m);
    let samples = opt_sample_triples(ns, act, a.has_sample, k);
    let class_t = seq![(act, vt(ns, Vocab::Type), vt(ns, action_class(a.action_name)))];
    lemma_ids1(link[0]);
    lemma_ids_action_fields(ns, act, a);
    lemma_ids_opt_container(ns, act, a.container_info);
    lemma_ids_action_observations(ns, act, a, n + 1);
    lemma_ids_opt_literal(ns, act, Vocab::DispenseType, a.dispense_type);
    lemma_ids_opt_literal(ns, act, Vocab::PhysicalState, a.dispense_state);
    lemma_ids_opt_positions(ns, act, a.has_container_position_and_quantity, m);
    lemma_ids_opt_sample(ns, act, a.has_sample, k);
    lemma_ids1(class_t[0]);
    lemma_ids_concat(link, fields);
    lemma_ids_concat(link + fields, cont);
    lemma_ids_concat(link + fields + cont, obs);
    lemma_ids_concat(link + fields + cont + obs, dtype);
    lemma_ids_concat(link + fields + cont + obs + dtype, dstate);
    lemma_ids_concat(link + fields + cont + obs + dtype + dstate, places);
    lemma_ids_concat(link + fields + cont + obs + dtype + dstate + places, samples);
    lemma_ids_concat(link + fields + cont + obs + dtype + dstate + places + samples, class_t);
    assert(action_triples(ns, batch, a, n) == link + fields + cont + obs + dtype + dstate + places + samples + class_t);
    assert(blank_ids(action_triples(ns, batch, a, n)) =~= node_ids(batch) + id_range(
        n,
        n + action_blanks(a),
    ));
}

proof fn lemma_ids_actions(ns: Entries, batch: TermModel, s: Seq<Action>, n: int)
    requires
        0 <= n,
        n + actions_blanks(s) <= u64::MAX,
    ensures
        blank_ids(actions_triples(ns, batch, s, n)) == attached(batch, actions_blanks(s) as int, n),
    decreases s.len(),
{
    if s.len() == 0 {
        lemma_ids_empty();
    } else {
        let m = n + actions_blanks(s.drop_last());
        assert(actions_blanks(s) == actions_blanks(s.drop_last()) + action_blanks(s.last()));
        lemma_ids_actions(ns, batch, s.drop_last(), n);
        lemma_ids_action(ns, batch, s.last(), m);
        lemma_ids_concat(
            actions_triples(ns, batch, s.drop_last(), n),
            action_triples(ns, batch, s.last(), m),
        );
        assert(blank_ids(actions_triples(ns, batch, s, n)) =~= attached(
            batch,
            actions_blanks(s) as int,
            n,
        ));
    }
}

/// The blank nodes that occur in the triples of a batch are exactly the
/// `batch_blanks(b)` numbers handed out from `n` on: one for the batch and
/// one for each action, sample level, chemical, observation and container
/// position, none of them shared and none left unused.
pub proof fn lemma_batch_blank_nodes(ns: Entries, b: Batch, n: int)
    requires
        0 <= n,
        n + batch_blanks(b) <= u64::MAX,
    ensures
        blank_ids(batch_triples(ns, b, n)) == id_range(n, n + batch_blanks(b)),
{
    let head = seq![
        (bn(n), vt(ns, Vocab::Type), vt(ns, Vocab::Batch)),
        (bn(n), vt(ns, Vocab::Name), crate::model::lit(b.batch_id@)),
    ];
    lemma_ids2(head[0], head[1]);
    lemma_ids_actions(ns, bn(n), b.actions@, n + 1);
    lemma_ids_concat(head, actions_triples(ns, bn(n), b.actions@, n + 1));
    assert(blank_ids(batch_triples(ns, b, n)) =~= id_range(n, n + batch_blanks(b)));
}

/// No triple of `s` has predicate `p`.
pub open spec fn pred_free(s: Seq<TripleModel>, p: TermModel) -> bool {
    forall|i: int| 0 <= i < s.len() ==> (#[trigger] s[i]).1 != p
}

/// No other term of the vocabulary shares the IRI of `f` under `ns`.
pub open spec fn own_iri(ns: Entries, f: Vocab) -> bool {
    forall|v: Vocab| v != f ==> #[trigger] vt(ns, v) != vt(ns, f)
}

/// The terms that only an action's own optional fields write as predicates.
pub open spec fn action_field_pred(f: Vocab) -> bool {
    ||| f == Vocab::EndTime
    ||| f == Vocab::MethodName
    ||| f == Vocab::EquipmentName
    ||| f == Vocab::LocalEquipmentName
    ||| f == Vocab::TemperatureShakerShape
    ||| f == Vocab::TemperatureTumbleStirrerShape
    ||| f == Vocab::SpeedInRpm
    ||| f == Vocab::DispenseType
}

/// Whether the optional field of `a` whose predicate is `f` is absent.
pub open spec fn field_absent(a: Action, f: Vocab) -> bool {
    match f {
        Vocab::EndTime => a.ending_time is None,
        Vocab::MethodName => a.method_name is None,
        Vocab::EquipmentName => a.equipment_name is None,
        Vocab::LocalEquipmentName => a.sub_equipment_name is None,
        Vocab::TemperatureShakerShape => a.temperature_shaker is None,
        Vocab::TemperatureTumbleStirrerShape => a.temperature_tumble_stirrer is None,
        Vocab::SpeedInRpm => a.speed_shaker is None,
        Vocab::DispenseType => a.dispense_type is None,
        _ => false,
    }
}

proof fn lemma_free_concat(a: Seq<TripleModel>, b: Seq<TripleModel>, p: TermModel)
    requires
        pred_free(a, p),
        pred_free(b, p),
    ensures
        pred_free(a + b, p),
{
    assert forall|i: int| 0 <= i < (a + b).len() implies (#[trigger] (a + b)[i]).1 != p by {
        if i < a.len() {
            assert((a + b)[i] == a[i]);
        } else {
            assert((a + b)[i] == b[i - a.len()]);
        }
    }
}

proof fn lemma_free_observation(
    ns: Entries,
    subj: TermModel,
    prop: Vocab,
    o: crate::record::Observation,
    n: int,
    f: Vocab,
)
    requires
        own_iri(ns, f),
        prop != f,
        f != Vocab::Unit,
        f != Vocab::Value,
    ensures
        pred_free(observation_triples(ns, subj, prop, o, n), vt(ns, f)),
{
    assert(vt(ns, prop) != vt(ns, f));
    assert(vt(ns, Vocab::Unit) != vt(ns, f));
    assert(vt(ns, Vocab::Value) != vt(ns, f));
}

proof fn lemma_free_opt_observation(
    ns: Entries,
    subj: TermModel,
    prop: Vocab,
    o: Option<crate::record::Observation>,
    n: int,
    f: Vocab,
)
    requires
        own_iri(ns, f),
        prop != f || o is None,
        f != Vocab::Unit,
        f != Vocab::Value,
    ensures
        pred_free(opt_observation_triples(ns, subj, prop, o, n), vt(ns, f)),
{
    if let Some(x) = o {
        lemma_free_observation(ns, subj, prop, x, n, f);
    }
}

proof fn lemma_free_opt_literal(ns: Entries, subj: TermModel, prop: Vocab, o: Option<String>, f: Vocab)
    requires
        own_iri(ns, f),
        prop != f || o is None,
    ensures
        pred_free(opt_literal_triples(ns, subj, prop, o), vt(ns, f)),
{
    if o is Some {
        assert(vt(ns, prop) != vt(ns, f));
    }
}

proof fn lemma_free_opt_container(
    ns: Entries,
    subj: TermModel,
    c: Option<crate::record::ContainerInfo>,
    f: Vocab,
)
    requires
        own_iri(ns, f),
        action_field_pred(f),
    ensures
        pred_free(opt_container_triples(ns, subj, c), vt(ns, f)),
{
    assert(vt(ns, Vocab::ContainerId) != vt(ns, f));
    assert(vt(ns, Vocab::ContainerBarcode) != vt(ns, f));
}

proof fn lemma_free_position(
    ns: Entries,
    subj: TermModel,
    cp: crate::record::ContainerPosition,
    n: int,
    f: Vocab,
)
    requires
        own_iri(ns, f),
        action_field_pred(f),
    ensures
        pred_free(position_triples(ns, subj, cp, n), vt(ns, f)),
{
    let head = seq![
        (subj, vt(ns, Vocab::HasContainerPositionAndQuantity), bn(n)),
        (bn(n), vt(ns, Vocab::Type), vt(ns, Vocab::ContainerPositionAndQuantity)),
        (bn(n), vt(ns, Vocab::Position), crate::model::lit(cp.position@)),
    ];
    assert(vt(ns, Vocab::HasContainerPositionAndQuantity) != vt(ns, f));
    assert(vt(ns, Vocab::Type) != vt(ns, f));
    assert(vt(ns, Vocab::Position) != vt(ns, f));
    assert(pred_free(head, vt(ns, f)));
    lemma_free_observation(ns, bn(n), Vocab::Quantity, cp.quantity, n + 1, f);
    lemma_free_concat(head, observation_triples(ns, bn(n), Vocab::Quantity, cp.quantity, n + 1), vt(ns, f));
}

proof fn lemma_free_positions(
    ns: Entries,
    subj: TermModel,
    s: Seq<crate::record::ContainerPosition>,
    n: int,
    f: Vocab,
)
    requires
        own_iri(ns, f),
        action_field_pred(f),
    ensures
        pred_free(positions_triples(ns, subj, s, n), vt(ns, f)),
    decreases s.len(),
{
    if s.len() > 0 {
        let m = n + 2 * (s.len() - 1);
        lemma_free_positions(ns, subj, s.drop_last(), n, f);
        lemma_free_position(ns, subj, s.last(), m, f);
        lemma_free_concat(
            positions_triples(ns, subj, s.drop_last(), n),
            position_triples(ns, subj, s.last(), m),
            vt(ns, f),
        );
    }
}

proof fn lemma_free_chemical(ns: Entries, subj: TermModel, c: crate::record::Chemical, n: int, f: Vocab)
    requires
        own_iri(ns, f),
        action_field_pred(f),
    ensures
        pred_free(chemical_triples(ns, subj, c, n), vt(ns, f)),
{
    assert(vt(ns, Vocab::HasChemical) != vt(ns, f));
    assert(vt(ns, Vocab::Type) != vt(ns, f));
    assert(vt(ns, Vocab::Identifier) != vt(ns, f));
    assert(vt(ns, Vocab::ChemicalName) != vt(ns, f));
    assert(vt(ns, Vocab::CasNumber) != vt(ns, f));
    assert(vt(ns, Vocab::Smiles) != vt(ns, f));
    assert(vt(ns, Vocab::MolecularMass) != vt(ns, f));
}

proof fn lemma_free_item(ns: Entries, subj: TermModel, it: crate::record::SampleItem, n: int, f: Vocab)
    requires
        own_iri(ns, f),
        action_field_pred(f),
    ensures
        pred_free(item_triples(ns, subj, it, n), vt(ns, f)),
{
    let me = bn(n);
    let ob = opt_blanks(it.expected_datum);
    let head = seq![
        (me, vt(ns, Vocab::Type), vt(ns, Vocab::Sample)),
        (subj, vt(ns, Vocab::HasSample), me),
        (me, vt(ns, Vocab::Role), crate::model::lit(it.role@)),
    ];
    let datum = opt_observation_triples(ns, me, Vocab::ExpectedDatum, it.expected_datum, n + 1);
    let mid = seq![
        (me, vt(ns, Vocab::Identifier), crate::model::lit(it.sample_id@)),
        (me, vt(ns, Vocab::PhysicalState), crate::model::lit(it.physical_state@)),
        (me, vt(ns, Vocab::InternalBarCode), crate::model::lit(it.internal_bar_code@)),
    ];
    let chem = chemical_triples(ns, me, it.has_chemical, n + 1 + ob);
    assert(vt(ns, Vocab::Type) != vt(ns, f));
    assert(vt(ns, Vocab::HasSample) != vt(ns, f));
    assert(vt(ns, Vocab::Role) != vt(ns, f));
    assert(vt(ns, Vocab::Identifier) != vt(ns, f));
    assert(vt(ns, Vocab::PhysicalState) != vt(ns, f));
    assert(vt(ns, Vocab::InternalBarCode) != vt(ns, f));
    assert(pred_free(head, vt(ns, f)));
    assert(pred_free(mid, vt(ns, f)));
    lemma_free_opt_observation(ns, me, Vocab::ExpectedDatum, it.expected_datum, n + 1, f);
    lemma_free_chemical(ns, me, it.has_chemical, n + 1 + ob, f);
    lemma_free_concat(head, datum, vt(ns, f));
    lemma_free_concat(head + datum, mid, vt(ns, f));
    lemma_free_concat(head + datum + mid, chem, vt(ns, f));
    assert(item_triples(ns, subj, it, n) == head + datum + mid + chem);
}

proof fn lemma_free_items(
    ns: Entries,
    subj: TermModel,
    s: Seq<crate::record::SampleItem>,
    n: int,
    f: Vocab,
)
    requires
        own_iri(ns, f),
        action_field_pred(f),
    ensures
        pred_free(items_triples(ns, subj, s, n), vt(ns, f)),
    decreases s.len(),
{
    if s.len() > 0 {
        let m = n + items_blanks(s.drop_last());
        lemma_free_items(ns, subj, s.drop_last(), n, f);
        lemma_free_item(ns, subj, s.last(), m, f);
        lemma_free_concat(
            items_triples(ns, subj, s.drop_last(), n),
            item_triples(ns, subj, s.last(), m),
            vt(ns, f),
        );
    }
}

proof fn lemma_free_sample(ns: Entries, subj: TermModel, sm: crate::record::Sample, n: int, f: Vocab)
    requires
        own_iri(ns, f),
        action_field_pred(f),
    ensures
        pred_free(sample_triples(ns, subj, sm, n), vt(ns, f)),
{
    let me = bn(n);
    let head = seq![
        (subj, vt(ns, Vocab::HasSample), me),
        (me, vt(ns, Vocab::Type), vt(ns, Vocab::Sample)),
    ];
    let cont = container_triples(ns, me, sm.container);
    let datum = observation_triples(ns, me, Vocab::ExpectedDatum, sm.expected_datum, n + 1);
    let mid = seq![
        (me, vt(ns, Vocab::VialShape), crate::model::lit(sm.vial_type@)),
        (me, vt(ns, Vocab::VialId), crate::model::lit(sm.vial_id@)),
        (me, vt(ns, Vocab::Role), crate::model::lit(sm.role@)),
    ];
    let items = items_triples(ns, me, sm.has_sample@, n + 2);
    assert(vt(ns, Vocab::HasSample) != vt(ns, f));
    assert(vt(ns, Vocab::Type) != vt(ns, f));
    assert(vt(ns, Vocab::VialShape) != vt(ns, f));
    assert(vt(ns, Vocab::VialId) != vt(ns, f));
    assert(vt(ns, Vocab::Role) != vt(ns, f));
    assert(pred_free(head, vt(ns, f)));
    assert(pred_free(mid, vt(ns, f)));
    lemma_free_opt_container(ns, me, Some(sm.container), f);
    lemma_free_observation(ns, me, Vocab::ExpectedDatum, sm.expected_datum, n + 1, f);
    lemma_free_items(ns, me, sm.has_sample@, n + 2, f);
    lemma_free_concat(head, cont, vt(ns, f));
    lemma_free_concat(head + cont, datum, vt(ns, f));
    lemma_free_concat(head + cont + datum, mid, vt(ns, f));
    lemma_free_concat(head + cont + datum + mid, items, vt(ns, f));
    assert(sample_triples(ns, subj, sm, n) == head + cont + datum + mid + items);
}

proof fn lemma_free_action(ns: Entries, batch: TermModel, a: Action, n: int, f: Vocab)
    requires
        own_iri(ns, f),
        action_field_pred(f),
        field_absent(a, f),
    ensures
        pred_free(action_triples(ns, batch, a, n), vt(ns, f)),
{
    let act = bn(n);
    let m = n + 1 + action_observation_blanks(a);
    let k = m + opt_positions_blanks(a.has_container_position_and_quantity);
    let b1 = opt_blanks(a.temperature_shaker);
    let b2 = opt_blanks(a.temperature_tumble_stirrer);
    let link = seq![(act, vt(ns, Vocab::HasBatch), batch)];
    let start = seq![
        (act, vt(ns, Vocab::StartTime), crate::model::typed(ns, a.start_time@, Vocab::DateTime)),
    ];
    let end = match a.ending_time {
        Some(e) => seq![(act, vt(ns, Vocab::EndTime), crate::model::typed(ns, e@, Vocab::DateTime))],
        None => Seq::empty(),
    };
    let me = opt_literal_triples(ns, act, Vocab::MethodName, a.method_name);
    let eq = opt_literal_triples(ns, act, Vocab::EquipmentName, a.equipment_name);
    let le = opt_literal_triples(ns, act, Vocab::LocalEquipmentName, a.sub_equipment_name);
    let cont = opt_container_triples(ns, act, a.container_info);
    let o1 = opt_observation_triples(ns, act, Vocab::TemperatureShakerShape, a.temperature_shaker, n + 1);
    let o2 = opt_observation_triples(
        ns,
        act,
        Vocab::TemperatureTumbleStirrerShape,
        a.temperature_tumble_stirrer,
        n + 1 + b1,
    );
    let o3 = opt_observation_triples(ns, act, Vocab::SpeedInRpm, a.speed_shaker, n + 1 + b1 + b2);
    let dtype = opt_literal_triples(ns, act, Vocab::DispenseType, a.dispense_type);
    let dstate = opt_literal_triples(ns, act, Vocab::PhysicalState, a.dispense_state);
    let places = opt_positions_triples(ns, act, a.has_container_position_and_quantity, m);
    let samples = opt_sample_triples(ns, act, a.has_sample, k);
    let class_t = seq![(act, vt(ns, Vocab::Type), vt(ns, action_class(a.action_name)))];
    let pf = vt(ns, f);
    assert(vt(ns, Vocab::HasBatch) != pf);
    assert(vt(ns, Vocab::StartTime) != pf);
    assert(vt(ns, Vocab::Type) != pf);
    assert(pred_free(link, pf));
    assert(pred_free(start, pf));
    assert(pred_free(end, pf)) by {
        if a.ending_time is Some {
            assert(vt(ns, Vocab::EndTime) != pf);
        }
    }
    assert(pred_free(class_t, pf));
    lemma_free_opt_literal(ns, act, Vocab::MethodName, a.method_name, f);
    lemma_free_opt_literal(ns, act, Vocab::EquipmentName, a.equipment_name, f);
    lemma_free_opt_literal(ns, act, Vocab::LocalEquipmentName, a.sub_equipment_name, f);
    lemma_free_opt_container(ns, act, a.container_info, f);
    lemma_free_opt_observation(ns, act, Vocab::TemperatureShakerShape, a.temperature_shaker, n + 1, f);
    lemma_free_opt_observation(
        ns,
        act,
        Vocab::TemperatureTumbleStirrerShape,
        a.temperature_tumble_stirrer,
        n + 1 + b1,
        f,
    );
    lemma_free_opt_observation(ns, act, Vocab::SpeedInRpm, a.speed_shaker, n + 1 + b1 + b2, f);
    lemma_free_opt_literal(ns, act, Vocab::DispenseType, a.dispense_type, f);
    lemma_free_opt_literal(ns, act, Vocab::PhysicalState, a.dispense_state, f);
    if let Some(v) = a.has_container_position_and_quantity {
        lemma_free_positions(ns, act, v@, m, f);
    }
    if let Some(sm) = a.has_sample {
        lemma_free_sample(ns, act, sm, k, f);
    }
    let fields = start + end + me + eq + le;
    lemma_free_concat(start, end, pf);
    lemma_free_concat(start + end, me, pf);
    lemma_free_concat(start + end + me, eq, pf);
    lemma_free_concat(start + end + me + eq, le, pf);
    assert(fields == action_field_triples(ns, act, a));
    let obs = o1 + o2 + o3;
    lemma_free_concat(o1, o2, pf);
    lemma_free_concat(o1 + o2, o3, pf);
    assert(obs == action_observation_triples(ns, act, a, n + 1));
    lemma_free_concat(link, fields, pf);
    lemma_free_concat(link + fields, cont, pf);
    lemma_free_concat(link + fields + cont, obs, pf);
    lemma_free_concat(link + fields + cont + obs, dtype, pf);
    lemma_free_concat(link + fields + cont + obs + dtype, dstate, pf);
    lemma_free_concat(link + fields + cont + obs + dtype + dstate, places, pf);
    lemma_free_concat(link + fields + cont + obs + dtype + dstate + places, samples, pf);
    lemma_free_concat(link + fields + cont + obs + dtype + dstate + places + samples, class_t, pf);
    assert(action_triples(ns, batch, a, n) == link + fields + cont + obs + dtype + dstate + places + samples + class_t);
}

proof fn lemma_free_actions(ns: Entries, batch: TermModel, s: Seq<Action>, n: int, f: Vocab)
    requires
        own_iri(ns, f),
        action_field_pred(f),
        forall|i: int| 0 <= i < s.len() ==> field_absent(#[trigger] s[i], f),
    ensures
        pred_free(actions_triples(ns, batch, s, n), vt(ns, f)),
    decreases s.len(),
{
    if s.len() > 0 {
        let m = n + actions_blanks(s.drop_last());
        assert forall|i: int| 0 <= i < s.drop_last().len() implies field_absent(
            #[trigger] s.drop_last()[i],
            f,
        ) by {
            assert(s.drop_last()[i] == s[i]);
        }
        lemma_free_actions(ns, batch, s.drop_last(), n, f);
        lemma_free_action(ns, batch, s.last(), m, f);
        lemma_free_concat(
            actions_triples(ns, batch, s.drop_last(), n),
            action_triples(ns, batch, s.last(), m),
            vt(ns, f),
        );
    }
}

/// An optional field absent from every action gives no edge, under any
/// registry where that field's predicate has an IRI of its own.
proof fn lemma_absent_field_free(ns: Entries, b: Batch, n: int, f: Vocab)
    requires
        own_iri(ns, f),
        action_field_pred(f),
        forall|i: int| 0 <= i < b.actions@.len() ==> field_absent(#[trigger] b.actions@[i], f),
    ensures
        pred_free(batch_triples(ns, b, n), vt(ns, f)),
{
    let head = seq![
        (bn(n), vt(ns, Vocab::Type), vt(ns, Vocab::Batch)),
        (bn(n), vt(ns, Vocab::Name), crate::model::lit(b.batch_id@)),
    ];
    assert(vt(ns, Vocab::Type) != vt(ns, f));
    assert(vt(ns, Vocab::Name) != vt(ns, f));
    assert(pred_free(head, vt(ns, f)));
    lemma_free_actions(ns, bn(n), b.actions@, n + 1, f);
    lemma_free_concat(head, actions_triples(ns, bn(n), b.actions@, n + 1), vt(ns, f));
}

/// Writing the same completed graph twice gives byte-identical Turtle: the
/// text is fixed by the triples and the prefix map alone.
pub proof fn lemma_turtle_is_stable(
    g: Seq<TripleModel>,
    ns: Entries,
    first: Seq<char>,
    second: Seq<char>,
)
    requires
        turtle_text(g, ns) == Some(first),
        turtle_text(g, ns) == Some(second),
    ensures
        first == second,
{
}

proof fn lemma_base_of_index(e: Entries, p: Seq<char>, i: int)
    requires
        0 <= i < e.len(),
        e[i].0 == p,
        forall|j: int| 0 <= j < i ==> (#[trigger] e[j]).0 != p,
    ensures
        base_of(e, p) == Some(e[i].1),
    decreases i,
{
    if i > 0 {
        assert forall|j: int| 0 <= j < i - 1 implies (#[trigger] e.drop_first()[j]).0 != p by {
            assert(e.drop_first()[j] == e[j + 1]);
        }
        lemma_base_of_index(e.drop_first(), p, i - 1);
    }
}

/// Where each prefix of the ontology's registry points.
proof fn lemma_ontology_bases()
    ensures
        base_of(ontology_entries(), "cat"@) == Some("http://example.org/cat#"@),
        base_of(ontology_entries(), "allores"@) == Some("http://purl.allotrope.org/ontologies/result#"@),
        base_of(ontology_entries(), "alloqual"@) == Some("http://purl.allotrope.org/ontologies/quality#"@),
        base_of(ontology_entries(), "qudt"@) == Some("http://qudt.org/schema/qudt/"@),
        base_of(ontology_entries(), "purl"@) == Some("http://purl.org/dc/terms/"@),
        base_of(ontology_entries(), "obo"@) == Some("http://purl.obolibrary.org/obo/"@),
        base_of(ontology_entries(), "schema"@) == Some("https://schema.org/"@),
        base_of(ontology_entries(), "rdf"@) == Some("http://www.w3.org/1999/02/22-rdf-syntax-ns#"@),
        base_of(ontology_entries(), "xsd"@) == Some("http://www.w3.org/2001/XMLSchema#"@),
{
    reveal_strlit("cat");
    reveal_strlit("allores");
    reveal_strlit("alloqual");
    reveal_strlit("qudt");
    reveal_strlit("purl");
    reveal_strlit("obo");
    reveal_strlit("schema");
    reveal_strlit("rdf");
    reveal_strlit("xsd");
    let e = ontology_entries();
    assert(e[0].0.len() != "allores"@.len());
    assert(e[0].0.len() != "alloqual"@.len());
    assert(e[1].0.len() != "alloqual"@.len());
    assert(e[0].0.len() != "qudt"@.len());
    assert(e[1].0.len() != "qudt"@.len());
    assert(e[2].0.len() != "qudt"@.len());
    assert(e[0].0.len() != "purl"@.len());
    assert(e[1].0.len() != "purl"@.len());
    assert(e[2].0.len() != "purl"@.len());
    assert(e[3].0[0] != "purl"@[0]);
    assert(e[0].0[0] != "obo"@[0]);
    assert(e[1].0.len() != "obo"@.len());
    assert(e[2].0.len() != "obo"@.len());
    assert(e[3].0.len() != "obo"@.len());
    assert(e[4].0.len() != "obo"@.len());
    assert(e[0].0.len() != "schema"@.len());
    assert(e[1].0.len() != "schema"@.len());
    assert(e[2].0.len() != "schema"@.len());
    assert(e[3].0.len() != "schema"@.len());
    assert(e[4].0.len() != "schema"@.len());
    assert(e[5].0.len() != "schema"@.len());
    assert(e[0].0[0] != "rdf"@[0]);
    assert(e[1].0.len() != "rdf"@.len());
    assert(e[2].0.len() != "rdf"@.len());
    assert(e[3].0.len() != "rdf"@.len());
    assert(e[4].0.len() != "rdf"@.len());
    assert(e[5].0[0] != "rdf"@[0]);
    assert(e[6].0.len() != "rdf"@.len());
    assert(e[0].0[0] != "xsd"@[0]);
    assert(e[1].0.len() != "xsd"@.len());
    assert(e[2].0.len() != "xsd"@.len());
    assert(e[3].0.len() != "xsd"@.len());
    assert(e[4].0.len() != "xsd"@.len());
    assert(e[5].0[0] != "xsd"@[0]);
    assert(e[6].0.len() != "xsd"@.len());
    assert(e[7].0[0] != "xsd"@[0]);
    lemma_base_of_index(e, "cat"@, 0);
    lemma_base_of_index(e, "allores"@, 1);
    lemma_base_of_index(e, "alloqual"@, 2);
    lemma_base_of_index(e, "qudt"@, 3);
    lemma_base_of_index(e, "purl"@, 4);
    lemma_base_of_index(e, "obo"@, 5);
    lemma_base_of_index(e, "schema"@, 6);
    lemma_base_of_index(e, "rdf"@, 7);
    lemma_base_of_index(e, "xsd"@, 8);
}

/// Under the ontology's registry, the predicate of each optional action
/// field, and the type-assertion predicate, has an IRI that no other term
/// of the vocabulary shares.
pub proof fn lemma_ontology_field_iri_is_own(f: Vocab)
    requires
        action_field_pred(f) || f == Vocab::Type,
    ensures
        own_iri(ontology_entries(), f),
{
    let ont = ontology_entries();
    lemma_ontology_bases();
    reveal_strlit("AFQ_0000111");
    reveal_strlit("AFRE_0000001");
    reveal_strlit("AFR_0001606");
    reveal_strlit("AFR_0001723");
    reveal_strlit("AFR_0002240");
    reveal_strlit("AFR_0002294");
    reveal_strlit("AFR_0002295");
    reveal_strlit("AFR_0002423");
    reveal_strlit("AFR_0002464");
    reveal_strlit("AFX_0000622");
    reveal_strlit("AddAction");
    reveal_strlit("Batch");
    reveal_strlit("CHEBI_25367");
    reveal_strlit("ContainerPositionAndQuantity");
    reveal_strlit("Sample");
    reveal_strlit("alloqual");
    reveal_strlit("allores");
    reveal_strlit("casNumber");
    reveal_strlit("cat");
    reveal_strlit("chemicalName");
    reveal_strlit("containerBarcode");
    reveal_strlit("containerID");
    reveal_strlit("dateTime");
    reveal_strlit("dispenseType");
    reveal_strlit("double");
    reveal_strlit("expectedDatum");
    reveal_strlit("hasBatch");
    reveal_strlit("hasContainerPositionAndQuantity");
    reveal_strlit("hasSample");
    reveal_strlit("has_chemical");
    reveal_strlit("http://example.org/cat#");
    reveal_strlit("http://purl.allotrope.org/ontologies/quality#");
    reveal_strlit("http://purl.allotrope.org/ontologies/result#");
    reveal_strlit("http://purl.obolibrary.org/obo/");
    reveal_strlit("http://purl.org/dc/terms/");
    reveal_strlit("http://qudt.org/schema/qudt/");
    reveal_strlit("http://www.w3.org/1999/02/22-rdf-syntax-ns#");
    reveal_strlit("http://www.w3.org/2001/XMLSchema#");
    reveal_strlit("https://schema.org/");
    reveal_strlit("identifier");
    reveal_strlit("internalBarCode");
    reveal_strlit("localEquipmentName");
    reveal_strlit("name");
    reveal_strlit("obo");
    reveal_strlit("purl");
    reveal_strlit("quantity");
    reveal_strlit("qudt");
    reveal_strlit("rdf");
    reveal_strlit("role");
    reveal_strlit("schema");
    reveal_strlit("setTemperatureAction");
    reveal_strlit("speedInRPM");
    reveal_strlit("temperatureShakerShape");
    reveal_strlit("temperatureTumbleStirrerShape");
    reveal_strlit("type");
    reveal_strlit("unit");
    reveal_strlit("value");
    reveal_strlit("vialShape");
    reveal_strlit("xsd");
    assert(iri_of(ont, Vocab::Position)[52] != iri_of(ont, Vocab::EndTime)[52]);
    assert(iri_of(ont, Vocab::Smiles)[52] != iri_of(ont, Vocab::EndTime)[52]);
    assert(iri_of(ont, Vocab::MolecularMass)[52] != iri_of(ont, Vocab::EndTime)[52]);
    assert(iri_of(ont, Vocab::VialId)[53] != iri_of(ont, Vocab::EndTime)[53]);
    assert(iri_of(ont, Vocab::StartTime)[46] != iri_of(ont, Vocab::EndTime)[46]);
    assert(iri_of(ont, Vocab::MethodName)[51] != iri_of(ont, Vocab::EndTime)[51]);
    assert(iri_of(ont, Vocab::EquipmentName)[51] != iri_of(ont, Vocab::EndTime)[51]);
    assert(iri_of(ont, Vocab::Position)[51] != iri_of(ont, Vocab::MethodName)[51]);
    assert(iri_of(ont, Vocab::Smiles)[51] != iri_of(ont, Vocab::MethodName)[51]);
    assert(iri_of(ont, Vocab::MolecularMass)[51] != iri_of(ont, Vocab::MethodName)[51]);
    assert(iri_of(ont, Vocab::VialId)[51] != iri_of(ont, Vocab::MethodName)[51]);
    assert(iri_of(ont, Vocab::StartTime)[46] != iri_of(ont, Vocab::MethodName)[46]);
    assert(iri_of(ont, Vocab::EndTime)[51] != iri_of(ont, Vocab::MethodName)[51]);
    assert(iri_of(ont, Vocab::EquipmentName)[52] != iri_of(ont, Vocab::MethodName)[52]);
    assert(iri_of(ont, Vocab::Position)[51] != iri_of(ont, Vocab::EquipmentName)[51]);
    assert(iri_of(ont, Vocab::Smiles)[51] != iri_of(ont, Vocab::EquipmentName)[51]);
    assert(iri_of(ont, Vocab::MolecularMass)[51] != iri_of(ont, Vocab::EquipmentName)[51]);
    assert(iri_of(ont, Vocab::VialId)[51] != iri_of(ont, Vocab::EquipmentName)[51]);
    assert(iri_of(ont, Vocab::StartTime)[46] != iri_of(ont, Vocab::EquipmentName)[46]);
    assert(iri_of(ont, Vocab::EndTime)[51] != iri_of(ont, Vocab::EquipmentName)[51]);
    assert(iri_of(ont, Vocab::MethodName)[52] != iri_of(ont, Vocab::EquipmentName)[52]);
    assert(iri_of(ont, Vocab::DateTime)[7] != iri_of(ont, Vocab::LocalEquipmentName)[7]);
    assert(iri_of(ont, Vocab::Value)[7] != iri_of(ont, Vocab::SpeedInRpm)[7]);
    assert(iri_of(ont, Vocab::ChemicalName)[23] != iri_of(ont, Vocab::DispenseType)[23]);
    assert(iri_of(ont, Vocab::HasChemical)[23] != iri_of(ont, Vocab::DispenseType)[23]);
    assert(iri_of(ont, Vocab::Identifier)[7] != iri_of(ont, Vocab::DispenseType)[7]);
    assert forall|v: Vocab| v != f implies #[trigger] vt(ont, v) != vt(ont, f) by {
        if vt(ont, v) == vt(ont, f) {
            assert(iri_of(ont, v) == iri_of(ont, f));
            assert(iri_of(ont, v).len() == iri_of(ont, f).len());
        }
    }
}

/// An optional field of an action that is absent from every action of a
/// batch gives no edge: under the ontology's prefixes, no triple of the
/// batch has that field's predicate.
pub proof fn lemma_absent_field_gives_no_edge(b: Batch, n: int, f: Vocab)
    requires
        action_field_pred(f),
        forall|i: int| 0 <= i < b.actions@.len() ==> field_absent(#[trigger] b.actions@[i], f),
    ensures
        pred_free(batch_triples(ontology_entries(), b, n), vt(ontology_entries(), f)),
{
    lemma_ontology_field_iri_is_own(f);
    lemma_absent_field_free(ontology_entries(), b, n, f);
}

/// The triple starts at `subj` without predicate `p`, or at a blank node
/// numbered `start` or more.
pub open spec fn rooted_triple(t: TripleModel, subj: TermModel, start: int, p: TermModel) -> bool {
    ||| (t.0 == subj && t.1 != p)
    ||| (t.0 matches TermModel::Blank(j) && j as int >= start)
}

pub open spec fn rooted(s: Seq<TripleModel>, subj: TermModel, start: int, p: TermModel) -> bool {
    forall|i: int| 0 <= i < s.len() ==> #[trigger] rooted_triple(s[i], subj, start, p)
}

proof fn lemma_rooted_concat(a: Seq<TripleModel>, b: Seq<TripleModel>, subj: TermModel, start: int, p: TermModel)
    requires
        rooted(a, subj, start, p),
        rooted(b, subj, start, p),
    ensures
        rooted(a + b, subj, start, p),
{
    assert forall|i: int| 0 <= i < (a + b).len() implies #[trigger] rooted_triple((a + b)[i], subj, start, p) by {
        if i < a.len() {
            assert((a + b)[i] == a[i]);
        } else {
            assert((a + b)[i] == b[i - a.len()]);
        }
    }
}

/// A piece rooted at a blank node numbered `k` from `start` on, is rooted
/// anywhere from `lo` on, for `lo` up to `k`.
proof fn lemma_rooted_lift(s: Seq<TripleModel>, k: int, start: int, subj: TermModel, lo: int, p: TermModel)
    requires
        0 <= k <= u64::MAX,
        rooted(s, bn(k), start, p),
        lo <= k,
        lo <= start,
    ensures
        rooted(s, subj, lo, p),
{
    assert forall|i: int| 0 <= i < s.len() implies #[trigger] rooted_triple(s[i], subj, lo, p) by {
        assert(rooted_triple(s[i], bn(k), start, p));
    }
}

proof fn lemma_rooted_lower(s: Seq<TripleModel>, subj: TermModel, start: int, lo: int, p: TermModel)
    requires
        rooted(s, subj, start, p),
        lo <= start,
    ensures
        rooted(s, subj, lo, p),
{
    assert forall|i: int| 0 <= i < s.len() implies #[trigger] rooted_triple(s[i], subj, lo, p) by {
        assert(rooted_triple(s[i], subj, start, p));
    }
}

proof fn lemma_rooted_observation(ns: Entries, subj: TermModel, prop: Vocab, o: crate::record::Observation, n: int)
    requires
        own_iri(ns, Vocab::Type),
        prop != Vocab::Type,
        0 <= n <= u64::MAX,
    ensures
        rooted(observation_triples(ns, subj, prop, o, n), subj, n, vt(ns, Vocab::Type)),
{
    assert(vt(ns, prop) != vt(ns, Vocab::Type));
}

proof fn lemma_rooted_opt_observation(
    ns: Entries,
    subj: TermModel,
    prop: Vocab,
    o: Option<crate::record::Observation>,
    n: int,
)
    requires
        own_iri(ns, Vocab::Type),
        prop != Vocab::Type,
        0 <= n <= u64::MAX,
    ensures
        rooted(opt_observation_triples(ns, subj, prop, o, n), subj, n, vt(ns, Vocab::Type)),
{
    if let Some(x) = o {
        lemma_rooted_observation(ns, subj, prop, x, n);
    }
}

proof fn lemma_rooted_opt_literal(ns: Entries, subj: TermModel, prop: Vocab, o: Option<String>, start: int)
    requires
        own_iri(ns, Vocab::Type),
        prop != Vocab::Type,
    ensures
        rooted(opt_literal_triples(ns, subj, prop, o), subj, start, vt(ns, Vocab::Type)),
{
    assert(vt(ns, prop) != vt(ns, Vocab::Type));
}

proof fn lemma_rooted_opt_container(
    ns: Entries,
    subj: TermModel,
    c: Option<crate::record::ContainerInfo>,
    start: int,
)
    requires
        own_iri(ns, Vocab::Type),
    ensures
        rooted(opt_container_triples(ns, subj, c), subj, start, vt(ns, Vocab::Type)),
{
    assert(vt(ns, Vocab::ContainerId) != vt(ns, Vocab::Type));
    assert(vt(ns, Vocab::ContainerBarcode) != vt(ns, Vocab::Type));
}

proof fn lemma_rooted_position(ns: Entries, subj: TermModel, cp: crate::record::ContainerPosition, n: int)
    requires
        own_iri(ns, Vocab::Type),
        0 <= n,
        n + 2 <= u64::MAX,
    ensures
        rooted(position_triples(ns, subj, cp, n), subj, n, vt(ns, Vocab::Type)),
{
    let ty = vt(ns, Vocab::Type);
    let head = seq![
        (subj, vt(ns, Vocab::HasContainerPositionAndQuantity), bn(n)),
        (bn(n), vt(ns, Vocab::Type), vt(ns, Vocab::ContainerPositionAndQuantity)),
        (bn(n), vt(ns, Vocab::Position), crate::model::lit(cp.position@)),
    ];
    assert(vt(ns, Vocab::HasContainerPositionAndQuantity) != ty);
    assert(rooted(head, subj, n, ty));
    let q = observation_triples(ns, bn(n), Vocab::Quantity, cp.quantity, n + 1);
    lemma_rooted_observation(ns, bn(n), Vocab::Quantity, cp.quantity, n + 1);
    lemma_rooted_lift(q, n, n + 1, subj, n, ty);
    lemma_rooted_concat(head, q, subj, n, ty);
}

proof fn lemma_rooted_positions(
    ns: Entries,
    subj: TermModel,
    s: Seq<crate::record::ContainerPosition>,
    n: int,
)
    requires
        own_iri(ns, Vocab::Type),
        0 <= n,
        n + 2 * s.len() <= u64::MAX,
    ensures
        rooted(positions_triples(ns, subj, s, n), subj, n, vt(ns, Vocab::Type)),
    decreases s.len(),
{
    if s.len() > 0 {
        let m = n + 2 * (s.len() - 1);
        lemma_rooted_positions(ns, subj, s.drop_last(), n);
        lemma_rooted_position(ns, subj, s.last(), m);
        lemma_rooted_lower(position_triples(ns, subj, s.last(), m), subj, m, n, vt(ns, Vocab::Type));
        lemma_rooted_concat(
            positions_triples(ns, subj, s.drop_last(), n),
            position_triples(ns, subj, s.last(), m),
            subj,
            n,
            vt(ns, Vocab::Type),
        );
    }
}

proof fn lemma_rooted_chemical(ns: Entries, subj: TermModel, c: crate::record::Chemical, n: int)
    requires
        own_iri(ns, Vocab::Type),
        0 <= n <= u64::MAX,
    ensures
        rooted(chemical_triples(ns, subj, c, n), subj, n, vt(ns, Vocab::Type)),
{
    assert(vt(ns, Vocab::HasChemical) != vt(ns, Vocab::Type));
}

proof fn lemma_rooted_item(ns: Entries, subj: TermModel, it: crate::record::SampleItem, n: int)
    requires
        own_iri(ns, Vocab::Type),
        0 <= n,
        n + item_blanks(it) <= u64::MAX,
    ensures
        rooted(item_triples(ns, subj, it, n), subj, n, vt(ns, Vocab::Type)),
{
    let ty = vt(ns, Vocab::Type);
    let me = bn(n);
    let ob = opt_blanks(it.expected_datum);
    let head = seq![
        (me, vt(ns, Vocab::Type), vt(ns, Vocab::Sample)),
        (subj, vt(ns, Vocab::HasSample), me),
        (me, vt(ns, Vocab::Role), crate::model::lit(it.role@)),
    ];
    let datum = opt_observation_triples(ns, me, Vocab::ExpectedDatum, it.expected_datum, n + 1);
    let mid = seq![
        (me, vt(ns, Vocab::Identifier), crate::model::lit(it.sample_id@)),
        (me, vt(ns, Vocab::PhysicalState), crate::model::lit(it.physical_state@)),
        (me, vt(ns, Vocab::InternalBarCode), crate::model::lit(it.internal_bar_code@)),
    ];
    let chem = chemical_triples(ns, me, it.has_chemical, n + 1 + ob);
    assert(vt(ns, Vocab::HasSample) != ty);
    assert(rooted(head, subj, n, ty));
    assert(rooted(mid, subj, n, ty));
    lemma_rooted_opt_observation(ns, me, Vocab::ExpectedDatum, it.expected_datum, n + 1);
    lemma_rooted_lift(datum, n, n + 1, subj, n, ty);
    lemma_rooted_chemical(ns, me, it.has_chemical, n + 1 + ob);
    lemma_rooted_lift(chem, n, n + 1 + ob, subj, n, ty);
    lemma_rooted_concat(head, datum, subj, n, ty);
    lemma_rooted_concat(head + datum, mid, subj, n, ty);
    lemma_rooted_concat(head + datum + mid, chem, subj, n, ty);
    assert(item_triples(ns, subj, it, n) == head + datum + mid + chem);
}

proof fn lemma_rooted_items(ns: Entries, subj: TermModel, s: Seq<crate::record::SampleItem>, n: int)
    requires
        own_iri(ns, Vocab::Type),
        0 <= n,
        n + items_blanks(s) <= u64::MAX,
    ensures
        rooted(items_triples(ns, subj, s, n), subj, n, vt(ns, Vocab::Type)),
    decreases s.len(),
{
    if s.len() > 0 {
        let m = n + items_blanks(s.drop_last());
        assert(items_blanks(s) == items_blanks(s.drop_last()) + item_blanks(s.last()));
        lemma_rooted_items(ns, subj, s.drop_last(), n);
        lemma_rooted_item(ns, subj, s.last(), m);
        lemma_rooted_lower(item_triples(ns, subj, s.last(), m), subj, m, n, vt(ns, Vocab::Type));
        lemma_rooted_concat(
            items_triples(ns, subj, s.drop_last(), n),
            item_triples(ns, subj, s.last(), m),
            subj,
            n,
            vt(ns, Vocab::Type),
        );
    }
}

proof fn lemma_rooted_sample(ns: Entries, subj: TermModel, sm: crate::record::Sample, n: int)
    requires
        own_iri(ns, Vocab::Type),
        0 <= n,
        n + sample_blanks(sm) <= u64::MAX,
    ensures
        rooted(sample_triples(ns, subj, sm, n), subj, n, vt(ns, Vocab::Type)),
{
    let ty = vt(ns, Vocab::Type);
    let me = bn(n);
    let head = seq![
        (subj, vt(ns, Vocab::HasSample), me),
        (me, vt(ns, Vocab::Type), vt(ns, Vocab::Sample)),
    ];
    let cont = container_triples(ns, me, sm.container);
    let datum = observation_triples(ns, me, Vocab::ExpectedDatum, sm.expected_datum, n + 1);
    let mid = seq![
        (me, vt(ns, Vocab::VialShape), crate::model::lit(sm.vial_type@)),
        (me, vt(ns, Vocab::VialId), crate::model::lit(sm.vial_id@)),
        (me, vt(ns, Vocab::Role), crate::model::lit(sm.role@)),
    ];
    let items = items_triples(ns, me, sm.has_sample@, n + 2);
    assert(vt(ns, Vocab::HasSample) != ty);
    assert(rooted(head, subj, n, ty));
    assert(rooted(mid, subj, n, ty));
    assert(rooted(cont, subj, n, ty));
    lemma_rooted_observation(ns, me, Vocab::ExpectedDatum, sm.expected_datum, n + 1);
    lemma_rooted_lift(datum, n, n + 1, subj, n, ty);
    lemma_rooted_items(ns, me, sm.has_sample@, n + 2);
    lemma_rooted_lift(items, n, n + 2, subj, n, ty);
    lemma_rooted_concat(head, cont, subj, n, ty);
    lemma_rooted_concat(head + cont, datum, subj, n, ty);
    lemma_rooted_concat(head + cont + datum, mid, subj, n, ty);
    lemma_rooted_concat(head + cont + datum + mid, items, subj, n, ty);
    assert(sample_triples(ns, subj, sm, n) == head + cont + datum + mid + items);
}

/// An action whose tag the ontology does not model still gets exactly one
/// type assertion on its own node: its last triple, which asserts the
/// generic registered-action class. No other triple of the action types
/// that node.
pub proof fn lemma_unrecognized_action_falls_back(batch: TermModel, a: Action, n: int)
    requires
        a.action_name is Unrecognized,
        0 <= n,
        n + action_blanks(a) <= u64::MAX,
    ensures
        action_triples(ontology_entries(), batch, a, n).last() == (
            bn(n),
            vt(ontology_entries(), Vocab::Type),
            vt(ontology_entries(), Vocab::RegisteredAction),
        ),
        forall|i: int|
            0 <= i < action_triples(ontology_entries(), batch, a, n).len() - 1 ==> !((
            #[trigger] action_triples(ontology_entries(), batch, a, n)[i]).0 == bn(n)
                && action_triples(ontology_entries(), batch, a, n)[i].1 == vt(
                ontology_entries(),
                Vocab::Type,
            )),
{
    let ns = ontology_entries();
    lemma_ontology_field_iri_is_own(Vocab::Type);
    let ty = vt(ns, Vocab::Type);
    let act = bn(n);
    let start = n + 1;
    let m = n + 1 + action_observation_blanks(a);
    let k = m + opt_positions_blanks(a.has_container_position_and_quantity);
    let b1 = opt_blanks(a.temperature_shaker);
    let b2 = opt_blanks(a.temperature_tumble_stirrer);
    let link = seq![(act, vt(ns, Vocab::HasBatch), batch)];
    let st = seq![
        (act, vt(ns, Vocab::StartTime), crate::model::typed(ns, a.start_time@, Vocab::DateTime)),
    ];
    let end = match a.ending_time {
        Some(e) => seq![(act, vt(ns, Vocab::EndTime), crate::model::typed(ns, e@, Vocab::DateTime))],
        None => Seq::empty(),
    };
    let me = opt_literal_triples(ns, act, Vocab::MethodName, a.method_name);
    let eq = opt_literal_triples(ns, act, Vocab::EquipmentName, a.equipment_name);
    let le = opt_literal_triples(ns, act, Vocab::LocalEquipmentName, a.sub_equipment_name);
    let cont = opt_container_triples(ns, act, a.container_info);
    let o1 = opt_observation_triples(ns, act, Vocab::TemperatureShakerShape, a.temperature_shaker, n + 1);
    let o2 = opt_observation_triples(
        ns,
        act,
        Vocab::TemperatureTumbleStirrerShape,
        a.temperature_tumble_stirrer,
        n + 1 + b1,
    );
    let o3 = opt_observation_triples(ns, act, Vocab::SpeedInRpm, a.speed_shaker, n + 1 + b1 + b2);
    let dtype = opt_literal_triples(ns, act, Vocab::DispenseType, a.dispense_type);
    let dstate = opt_literal_triples(ns, act, Vocab::PhysicalState, a.dispense_state);
    let places = opt_positions_triples(ns, act, a.has_container_position_and_quantity, m);
    let samples = opt_sample_triples(ns, act, a.has_sample, k);
    let class_t = seq![(act, ty, vt(ns, action_class(a.action_name)))];
    assert(vt(ns, Vocab::HasBatch) != ty);
    assert(vt(ns, Vocab::StartTime) != ty);
    assert(vt(ns, Vocab::EndTime) != ty);
    assert(rooted(link, act, start, ty));
    assert(rooted(st, act, start, ty));
    assert(rooted(end, act, start, ty));
    lemma_rooted_opt_literal(ns, act, Vocab::MethodName, a.method_name, start);
    lemma_rooted_opt_literal(ns, act, Vocab::EquipmentName, a.equipment_name, start);
    lemma_rooted_opt_literal(ns, act, Vocab::LocalEquipmentName, a.sub_equipment_name, start);
    lemma_rooted_opt_container(ns, act, a.container_info, start);
    lemma_rooted_opt_observation(ns, act, Vocab::TemperatureShakerShape, a.temperature_shaker, n + 1);
    lemma_rooted_opt_observation(
        ns,
        act,
        Vocab::TemperatureTumbleStirrerShape,
        a.temperature_tumble_stirrer,
        n + 1 + b1,
    );
    lemma_rooted_opt_observation(ns, act, Vocab::SpeedInRpm, a.speed_shaker, n + 1 + b1 + b2);
    lemma_rooted_lower(o2, act, n + 1 + b1, start, ty);
    lemma_rooted_lower(o3, act, n + 1 + b1 + b2, start, ty);
    lemma_rooted_opt_literal(ns, act, Vocab::DispenseType, a.dispense_type, start);
    lemma_rooted_opt_literal(ns, act, Vocab::PhysicalState, a.dispense_state, start);
    if let Some(v) = a.has_container_position_and_quantity {
        lemma_rooted_positions(ns, act, v@, m);
    }
    lemma_rooted_lower(places, act, m, start, ty);
    if let Some(sm) = a.has_sample {
        lemma_rooted_sample(ns, act, sm, k);
    }
    lemma_rooted_lower(samples, act, k, start, ty);
    let fields = st + end + me + eq + le;
    lemma_rooted_concat(st, end, act, start, ty);
    lemma_rooted_concat(st + end, me, act, start, ty);
    lemma_rooted_concat(st + end + me, eq, act, start, ty);
    lemma_rooted_concat(st + end + me + eq, le, act, start, ty);
    assert(fields == action_field_triples(ns, act, a));
    let obs = o1 + o2 + o3;
    lemma_rooted_concat(o1, o2, act, start, ty);
    lemma_rooted_concat(o1 + o2, o3, act, start, ty);
    assert(obs == action_observation_triples(ns, act, a, n + 1));
    lemma_rooted_concat(link, fields, act, start, ty);
    lemma_rooted_concat(link + fields, cont, act, start, ty);
    lemma_rooted_concat(link + fields + cont, obs, act, start, ty);
    lemma_rooted_concat(link + fields + cont + obs, dtype, act, start, ty);
    lemma_rooted_concat(link + fields + cont + obs + dtype, dstate, act, start, ty);
    lemma_rooted_concat(link + fields + cont + obs + dtype + dstate, places, act, start, ty);
    lemma_rooted_concat(link + fields + cont + obs + dtype + dstate + places, samples, act, start, ty);
    let prefix = link + fields + cont + obs + dtype + dstate + places + samples;
    let s = action_triples(ns, batch, a, n);
    assert(s == prefix + class_t);
    assert forall|i: int| 0 <= i < s.len() - 1 implies !((#[trigger] s[i]).0 == bn(n) && s[i].1 == ty) by {
        assert(s[i] == prefix[i]);
        assert(rooted_triple(prefix[i], act, start, ty));
    }
}

} // verus!
