use vstd::prelude::*;
use crate::namespace::{base_of, resolve_spec, Entries, Namespaces};
use crate::term::{absolute_iri, MapError, Term, TermModel, TermParts};

verus! {

/// How many terms the vocabulary holds.
pub const VOCAB_SIZE: usize = 41;

/// The ontology terms that the mapping writes.
#[derive(Debug, Clone, Copy, PartialEq, Eq, Structural)]
pub enum Vocab {
    Batch,
    AddAction,
    SetTemperatureAction,
    Sample,
    HasSample,
    ContainerId,
    ContainerBarcode,
    ChemicalName,
    CasNumber,
    VialShape,
    DispenseType,
    LocalEquipmentName,
    HasBatch,
    HasContainerPositionAndQuantity,
    ContainerPositionAndQuantity,
    HasChemical,
    Role,
    InternalBarCode,
    TemperatureShakerShape,
    TemperatureTumbleStirrerShape,
    SpeedInRpm,
    ExpectedDatum,
    Position,
    Smiles,
    MolecularMass,
    VialId,
    RegisteredAction,
    StartTime,
    EndTime,
    MethodName,
    EquipmentName,
    PhysicalState,
    Unit,
    Value,
    Quantity,
    Identifier,
    ChemicalEntity,
    Name,
    Type,
    DateTime,
    Double,
}

/// The prefix and local name of each term.
pub open spec fn vocab_parts(v: Vocab) -> (Seq<char>, Seq<char>) {
    match v {
        Vocab::Batch => ("cat"@, "Batch"@),
        Vocab::AddAction => ("cat"@, "AddAction"@),
        Vocab::SetTemperatureAction => ("cat"@, "setTemperatureAction"@),
        Vocab::Sample => ("cat"@, "Sample"@),
        Vocab::HasSample => ("cat"@, "hasSample"@),
        Vocab::ContainerId => ("cat"@, "containerID"@),
        Vocab::ContainerBarcode => ("cat"@, "containerBarcode"@),
        Vocab::ChemicalName => ("cat"@, "chemicalName"@),
        Vocab::CasNumber => ("cat"@, "casNumber"@),
        Vocab::VialShape => ("cat"@, "vialShape"@),
        Vocab::DispenseType => ("cat"@, "dispenseType"@),
        Vocab::LocalEquipmentName => ("cat"@, "localEquipmentName"@),
        Vocab::HasBatch => ("cat"@, "hasBatch"@),
        Vocab::HasContainerPositionAndQuantity => ("cat"@, "hasContainerPositionAndQuantity"@),
        Vocab::ContainerPositionAndQuantity => ("cat"@, "ContainerPositionAndQuantity"@),
        Vocab::HasChemical => ("cat"@, "has_chemical"@),
        Vocab::Role => ("cat"@, "role"@),
        Vocab::InternalBarCode => ("cat"@, "internalBarCode"@),
        Vocab::TemperatureShakerShape => ("cat"@, "temperatureShakerShape"@),
        Vocab::TemperatureTumbleStirrerShape => ("cat"@, "temperatureTumbleStirrerShape"@),
        Vocab::SpeedInRpm => ("cat"@, "speedInRPM"@),
        Vocab::ExpectedDatum => ("cat"@, "expectedDatum"@),
        Vocab::Position => ("allores"@, "AFR_0002240"@),
        Vocab::Smiles => ("allores"@, "AFR_0002295"@),
        Vocab::MolecularMass => ("allores"@, "AFR_0002294"@),
        Vocab::VialId => ("allores"@, "AFR_0002464"@),
        Vocab::RegisteredAction => ("allores"@, "AFRE_0000001"@),
        Vocab::StartTime => ("allores"@, "AFX_0000622"@),
        Vocab::EndTime => ("allores"@, "AFR_0002423"@),
        Vocab::MethodName => ("allores"@, "AFR_0001606"@),
        Vocab::EquipmentName => ("allores"@, "AFR_0001723"@),
        Vocab::PhysicalState => ("alloqual"@, "AFQ_0000111"@),
        Vocab::Unit => ("qudt"@, "unit"@),
        Vocab::Value => ("qudt"@, "value"@),
        Vocab::Quantity => ("qudt"@, "quantity"@),
        Vocab::Identifier => ("purl"@, "identifier"@),
        Vocab::ChemicalEntity => ("obo"@, "CHEBI_25367"@),
        Vocab::Name => ("schema"@, "name"@),
        Vocab::Type => ("rdf"@, "type"@),
        Vocab::DateTime => ("xsd"@, "dateTime"@),
        Vocab::Double => ("xsd"@, "double"@),
    }
}

/// The position of each term in the vocabulary's table.
pub open spec fn vocab_index(v: Vocab) -> int {
    match v {
        Vocab::Batch => 0,
        Vocab::AddAction => 1,
        Vocab::SetTemperatureAction => 2,
        Vocab::Sample => 3,
        Vocab::HasSample => 4,
        Vocab::ContainerId => 5,
        Vocab::ContainerBarcode => 6,
        Vocab::ChemicalName => 7,
        Vocab::CasNumber => 8,
        Vocab::VialShape => 9,
        Vocab::DispenseType => 10,
        Vocab::LocalEquipmentName => 11,
        Vocab::HasBatch => 12,
        Vocab::HasContainerPositionAndQuantity => 13,
        Vocab::ContainerPositionAndQuantity => 14,
        Vocab::HasChemical => 15,
        Vocab::Role => 16,
        Vocab::InternalBarCode => 17,
        Vocab::TemperatureShakerShape => 18,
        Vocab::TemperatureTumbleStirrerShape => 19,
        Vocab::SpeedInRpm => 20,
        Vocab::ExpectedDatum => 21,
        Vocab::Position => 22,
        Vocab::Smiles => 23,
        Vocab::MolecularMass => 24,
        Vocab::VialId => 25,
        Vocab::RegisteredAction => 26,
        Vocab::StartTime => 27,
        Vocab::EndTime => 28,
        Vocab::MethodName => 29,
        Vocab::EquipmentName => 30,
        Vocab::PhysicalState => 31,
        Vocab::Unit => 32,
        Vocab::Value => 33,
        Vocab::Quantity => 34,
        Vocab::Identifier => 35,
        Vocab::ChemicalEntity => 36,
        Vocab::Name => 37,
        Vocab::Type => 38,
        Vocab::DateTime => 39,
        Vocab::Double => 40,
    }
}

/// The term at position `i` of the table.
pub open spec fn vocab_at(i: int) -> Vocab {
    if i == 0 {
        Vocab::Batch
    } else if i == 1 {
        Vocab::AddAction
    } else if i == 2 {
        Vocab::SetTemperatureAction
    } else if i == 3 {
        Vocab::Sample
    } else if i == 4 {
        Vocab::HasSample
    } else if i == 5 {
        Vocab::ContainerId
    } else if i == 6 {
        Vocab::ContainerBarcode
    } else if i == 7 {
        Vocab::ChemicalName
    } else if i == 8 {
        Vocab::CasNumber
    } else if i == 9 {
        Vocab::VialShape
    } else if i == 10 {
        Vocab::DispenseType
    } else if i == 11 {
        Vocab::LocalEquipmentName
    } else if i == 12 {
        Vocab::HasBatch
    } else if i == 13 {
        Vocab::HasContainerPositionAndQuantity
    } else if i == 14 {
        Vocab::ContainerPositionAndQuantity
    } else if i == 15 {
        Vocab::HasChemical
    } else if i == 16 {
        Vocab::Role
    } else if i == 17 {
        Vocab::InternalBarCode
    } else if i == 18 {
        Vocab::TemperatureShakerShape
    } else if i == 19 {
        Vocab::TemperatureTumbleStirrerShape
    } else if i == 20 {
        Vocab::SpeedInRpm
    } else if i == 21 {
        Vocab::ExpectedDatum
    } else if i == 22 {
        Vocab::Position
    } else if i == 23 {
        Vocab::Smiles
    } else if i == 24 {
        Vocab::MolecularMass
    } else if i == 25 {
        Vocab::VialId
    } else if i == 26 {
        Vocab::RegisteredAction
    } else if i == 27 {
        Vocab::StartTime
    } else if i == 28 {
        Vocab::EndTime
    } else if i == 29 {
        Vocab::MethodName
    } else if i == 30 {
        Vocab::EquipmentName
    } else if i == 31 {
        Vocab::PhysicalState
    } else if i == 32 {
        Vocab::Unit
    } else if i == 33 {
        Vocab::Value
    } else if i == 34 {
        Vocab::Quantity
    } else if i == 35 {
        Vocab::Identifier
    } else if i == 36 {
        Vocab::ChemicalEntity
    } else if i == 37 {
        Vocab::Name
    } else if i == 38 {
        Vocab::Type
    } else if i == 39 {
        Vocab::DateTime
    } else {
        Vocab::Double
    }
}

pub proof fn lemma_vocab_table(v: Vocab)
    ensures
        0 <= vocab_index(v) < VOCAB_SIZE,
        vocab_at(vocab_index(v)) == v,
{
}

impl Vocab {
    pub fn parts(self) -> (r: (&'static str, &'static str))
        ensures
            r.0@ == vocab_parts(self).0,
            r.1@ == vocab_parts(self).1,
    {
        match self {
            Vocab::Batch => ("cat", "Batch"),
            Vocab::AddAction => ("cat", "AddAction"),
            Vocab::SetTemperatureAction => ("cat", "setTemperatureAction"),
            Vocab::Sample => ("cat", "Sample"),
            Vocab::HasSample => ("cat", "hasSample"),
            Vocab::ContainerId => ("cat", "containerID"),
            Vocab::ContainerBarcode => ("cat", "containerBarcode"),
            Vocab::ChemicalName => ("cat", "chemicalName"),
            Vocab::CasNumber => ("cat", "casNumber"),
            Vocab::VialShape => ("cat", "vialShape"),
            Vocab::DispenseType => ("cat", "dispenseType"),
            Vocab::LocalEquipmentName => ("cat", "localEquipmentName"),
            Vocab::HasBatch => ("cat", "hasBatch"),
            Vocab::HasContainerPositionAndQuantity => ("cat", "hasContainerPositionAndQuantity"),
            Vocab::ContainerPositionAndQuantity => ("cat", "ContainerPositionAndQuantity"),
            Vocab::HasChemical => ("cat", "has_chemical"),
            Vocab::Role => ("cat", "role"),
            Vocab::InternalBarCode => ("cat", "internalBarCode"),
            Vocab::TemperatureShakerShape => ("cat", "temperatureShakerShape"),
            Vocab::TemperatureTumbleStirrerShape => ("cat", "temperatureTumbleStirrerShape"),
            Vocab::SpeedInRpm => ("cat", "speedInRPM"),
            Vocab::ExpectedDatum => ("cat", "expectedDatum"),
            Vocab::Position => ("allores", "AFR_0002240"),
            Vocab::Smiles => ("allores", "AFR_0002295"),
            Vocab::MolecularMass => ("allores", "AFR_0002294"),
            Vocab::VialId => ("allores", "AFR_0002464"),
            Vocab::RegisteredAction => ("allores", "AFRE_0000001"),
            Vocab::StartTime => ("allores", "AFX_0000622"),
            Vocab::EndTime => ("allores", "AFR_0002423"),
            Vocab::MethodName => ("allores", "AFR_0001606"),
            Vocab::EquipmentName => ("allores", "AFR_0001723"),
            Vocab::PhysicalState => ("alloqual", "AFQ_0000111"),
            Vocab::Unit => ("qudt", "unit"),
            Vocab::Value => ("qudt", "value"),
            Vocab::Quantity => ("qudt", "quantity"),
            Vocab::Identifier => ("purl", "identifier"),
            Vocab::ChemicalEntity => ("obo", "CHEBI_25367"),
            Vocab::Name => ("schema", "name"),
            Vocab::Type => ("rdf", "type"),
            Vocab::DateTime => ("xsd", "dateTime"),
            Vocab::Double => ("xsd", "double"),
        }
    }

    pub fn index(self) -> (r: usize)
        ensures
            r == vocab_index(self),
    {
        match self {
            Vocab::Batch => 0,
            Vocab::AddAction => 1,
            Vocab::SetTemperatureAction => 2,
            Vocab::Sample => 3,
            Vocab::HasSample => 4,
            Vocab::ContainerId => 5,
            Vocab::ContainerBarcode => 6,
            Vocab::ChemicalName => 7,
            Vocab::CasNumber => 8,
            Vocab::VialShape => 9,
            Vocab::DispenseType => 10,
            Vocab::LocalEquipmentName => 11,
            Vocab::HasBatch => 12,
            Vocab::HasContainerPositionAndQuantity => 13,
            Vocab::ContainerPositionAndQuantity => 14,
            Vocab::HasChemical => 15,
            Vocab::Role => 16,
            Vocab::InternalBarCode => 17,
            Vocab::TemperatureShakerShape => 18,
            Vocab::TemperatureTumbleStirrerShape => 19,
            Vocab::SpeedInRpm => 20,
            Vocab::ExpectedDatum => 21,
            Vocab::Position => 22,
            Vocab::Smiles => 23,
            Vocab::MolecularMass => 24,
            Vocab::VialId => 25,
            Vocab::RegisteredAction => 26,
            Vocab::StartTime => 27,
            Vocab::EndTime => 28,
            Vocab::MethodName => 29,
            Vocab::EquipmentName => 30,
            Vocab::PhysicalState => 31,
            Vocab::Unit => 32,
            Vocab::Value => 33,
            Vocab::Quantity => 34,
            Vocab::Identifier => 35,
            Vocab::ChemicalEntity => 36,
            Vocab::Name => 37,
            Vocab::Type => 38,
            Vocab::DateTime => 39,
            Vocab::Double => 40,
        }
    }

    pub fn at(i: usize) -> (r: Vocab)
        requires
            i < VOCAB_SIZE,
        ensures
            r == vocab_at(i as int),
    {
        match i {
            0 => Vocab::Batch,
            1 => Vocab::AddAction,
            2 => Vocab::SetTemperatureAction,
            3 => Vocab::Sample,
            4 => Vocab::HasSample,
            5 => Vocab::ContainerId,
            6 => Vocab::ContainerBarcode,
            7 => Vocab::ChemicalName,
            8 => Vocab::CasNumber,
            9 => Vocab::VialShape,
            10 => Vocab::DispenseType,
            11 => Vocab::LocalEquipmentName,
            12 => Vocab::HasBatch,
            13 => Vocab::HasContainerPositionAndQuantity,
            14 => Vocab::ContainerPositionAndQuantity,
            15 => Vocab::HasChemical,
            16 => Vocab::Role,
            17 => Vocab::InternalBarCode,
            18 => Vocab::TemperatureShakerShape,
            19 => Vocab::TemperatureTumbleStirrerShape,
            20 => Vocab::SpeedInRpm,
            21 => Vocab::ExpectedDatum,
            22 => Vocab::Position,
            23 => Vocab::Smiles,
            24 => Vocab::MolecularMass,
            25 => Vocab::VialId,
            26 => Vocab::RegisteredAction,
            27 => Vocab::StartTime,
            28 => Vocab::EndTime,
            29 => Vocab::MethodName,
            30 => Vocab::EquipmentName,
            31 => Vocab::PhysicalState,
            32 => Vocab::Unit,
            33 => Vocab::Value,
            34 => Vocab::Quantity,
            35 => Vocab::Identifier,
            36 => Vocab::ChemicalEntity,
            37 => Vocab::Name,
            38 => Vocab::Type,
            39 => Vocab::DateTime,
            _ => Vocab::Double,
        }
    }
}

/// The full IRI of `v` under the prefixes `ns` (meaningful when its prefix
/// is bound there).
pub open spec fn iri_of(ns: Entries, v: Vocab) -> Seq<char> {
    match base_of(ns, vocab_parts(v).0) {
        Some(b) => b + vocab_parts(v).1,
        None => Seq::empty(),
    }
}

/// The named node of `v` under `ns`.
pub open spec fn vt(ns: Entries, v: Vocab) -> TermModel {
    TermModel::Named(iri_of(ns, v))
}

/// Whether `v` resolves under `ns` to an absolute IRI.
pub open spec fn resolves(ns: Entries, v: Vocab) -> bool {
    resolve_spec(ns, vocab_parts(v).0, vocab_parts(v).1) is Ok
}

/// Every term of the vocabulary, resolved once against a registry.
pub struct Vocabulary {
    iris: Vec<String>,
}

impl Vocabulary {
    /// Every term resolves under `ns`, and each entry of the table is the
    /// IRI of its term there.
    pub closed spec fn wf(&self, ns: Entries) -> bool {
        &&& self.iris@.len() == VOCAB_SIZE
        &&& forall|i: int|
            0 <= i < VOCAB_SIZE ==> #[trigger] self.iris@[i]@ == iri_of(ns, vocab_at(i))
        &&& forall|v: Vocab| #[trigger] resolves(ns, v)
    }

    /// Resolves every term; fails with the first error met.
    pub fn new(ns: &Namespaces) -> (r: Result<Vocabulary, MapError>)
        ensures
            r is Ok <==> forall|v: Vocab| resolves(ns@, v),
            r matches Ok(voc) ==> voc.wf(ns@),
            r matches Err(e) ==> exists|v: Vocab|
                resolve_spec(ns@, vocab_parts(v).0, vocab_parts(v).1) == Err::<TermModel, MapError>(
                    e,
                ),
    {
        let mut iris: Vec<String> = Vec::new();
        let mut i: usize = 0;
        while i < VOCAB_SIZE
            invariant
                i <= VOCAB_SIZE,
                iris@.len() == i,
                forall|j: int| 0 <= j < i ==> #[trigger] iris@[j]@ == iri_of(ns@, vocab_at(j)),
                forall|j: int| 0 <= j < i ==> resolves(ns@, #[trigger] vocab_at(j)),
            decreases VOCAB_SIZE - i,
        {
            let v = Vocab::at(i);
            let (p, l) = v.parts();
            match ns.resolve(p, l) {
                Err(e) => {
                    assert(!resolves(ns@, v));
                    return Err(e);
                },
                Ok(t) => {
                    match t.parts() {
                        TermParts::Named(s) => {
                            iris.push(s.clone());
                        },
                        _ => {
                            return Err(MapError::InvalidIri);
                        },
                    }
                },
            }
            i = i + 1;
        }
        proof {
            assert forall|v: Vocab| resolves(ns@, v) by {
                lemma_vocab_table(v);
            }
        }
        Ok(Vocabulary { iris })
    }

    pub(crate) fn iri(&self, Ghost(ns): Ghost<Entries>, v: Vocab) -> (r: &String)
        requires
            self.wf(ns),
        ensures
            r@ == iri_of(ns, v),
            absolute_iri(r@),
    {
        proof {
            lemma_vocab_table(v);
            assert(resolves(ns, v));
        }
        &self.iris[v.index()]
    }

    pub(crate) fn named(&self, Ghost(ns): Ghost<Entries>, v: Vocab) -> (r: Term)
        requires
            self.wf(ns),
        ensures
            r@ == vt(ns, v),
    {
        Term::from_absolute(self.iri(Ghost(ns), v).clone())
    }
}

/// `t` is the named node of some term of the vocabulary under `ns`.
pub open spec fn is_vocab_term(ns: Entries, t: TermModel) -> bool {
    exists|v: Vocab| t == #[trigger] vt(ns, v)
}

/// Whatever the registry, no term of the vocabulary is `rdf:rest`: no
/// local name ends the way that IRI does.
pub proof fn lemma_vocab_is_not_rdf_rest(ns: Entries, v: Vocab)
    ensures
        iri_of(ns, v) != "http://www.w3.org/1999/02/22-rdf-syntax-ns#rest"@,
{
    let rest = "http://www.w3.org/1999/02/22-rdf-syntax-ns#rest"@;
    reveal_strlit("http://www.w3.org/1999/02/22-rdf-syntax-ns#rest");
    reveal_strlit("AFQ_0000111");
    reveal_strlit("AFRE_0000001");
    reveal_strlit("AFR_0001606");
    reveal_strlit("AFR_0001723");
    reveal_strlit("AFR_0002240");
    reveal_strlit("AFR_0002294");
    reveal_strlit("AFR_0002295");
    reveal_strlit("AFR_0002423");
    reveal_strlit("AFR_0002464");
    reveal_strlit("AFX_0000622");
    reveal_strlit("AddAction");
    reveal_strlit("Batch");
    reveal_strlit("CHEBI_25367");
    reveal_strlit("ContainerPositionAndQuantity");
    reveal_strlit("Sample");
    reveal_strlit("casNumber");
    reveal_strlit("chemicalName");
    reveal_strlit("containerBarcode");
    reveal_strlit("containerID");
    reveal_strlit("dateTime");
    reveal_strlit("dispenseType");
    reveal_strlit("double");
    reveal_strlit("expectedDatum");
    reveal_strlit("hasBatch");
    reveal_strlit("hasContainerPositionAndQuantity");
    reveal_strlit("hasSample");
    reveal_strlit("has_chemical");
    reveal_strlit("identifier");
    reveal_strlit("internalBarCode");
    reveal_strlit("localEquipmentName");
    reveal_strlit("name");
    reveal_strlit("quantity");
    reveal_strlit("role");
    reveal_strlit("setTemperatureAction");
    reveal_strlit("speedInRPM");
    reveal_strlit("temperatureShakerShape");
    reveal_strlit("temperatureTumbleStirrerShape");
    reveal_strlit("type");
    reveal_strlit("unit");
    reveal_strlit("value");
    reveal_strlit("vialShape");
    let l = vocab_parts(v).1;
    assert(l.len() >= 2);
    assert(l[l.len() - 1] != rest[rest.len() - 1] || l[l.len() - 2] != rest[rest.len() - 2]);
    if let Some(b) = base_of(ns, vocab_parts(v).0) {
        let s = b + l;
        if s == rest {
            assert(s[s.len() - 1] == l[l.len() - 1]);
            assert(s[s.len() - 2] == l[l.len() - 2]);
        }
    }
}

} // verus!
