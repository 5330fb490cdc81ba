use vstd::prelude::*;

verus! {

/// A measured quantity: a unit and the decimal text of its value.
#[derive(Debug)]
pub struct Observation {
    pub unit: String,
    pub value: String,
}

/// Where a sample sits.
#[derive(Debug)]
pub struct ContainerInfo {
    pub container_id: String,
    pub container_barcode: String,
}

/// A labelled position in a container, with the quantity held there.
#[derive(Debug)]
pub struct ContainerPosition {
    pub position: String,
    pub quantity: Observation,
}

#[derive(Debug)]
pub struct Chemical {
    pub chemical_id: String,
    pub chemical_name: String,
    pub cas_number: String,
    pub smiles: String,
    pub molecular_mass: Observation,
}

/// One item of a sample, holding one chemical.
#[derive(Debug)]
pub struct SampleItem {
    pub sample_id: String,
    pub role: String,
    pub internal_bar_code: String,
    pub physical_state: String,
    pub expected_datum: Option<Observation>,
    pub has_chemical: Chemical,
}

/// A sample in a vial, made of sample items.
#[derive(Debug)]
pub struct Sample {
    pub container: ContainerInfo,
    pub vial_id: String,
    pub vial_type: String,
    pub role: String,
    pub expected_datum: Observation,
    pub has_sample: Vec<SampleItem>,
}

/// The kind of an action; a tag that the ontology does not model is kept
/// as it was written.
#[derive(Debug)]
pub enum ActionName {
    AddAction,
    SetTemperatureAction,
    Unrecognized(String),
}

/// One step of a batch. Every field held in an `Option` may be absent.
#[derive(Debug)]
pub struct Action {
    pub action_name: ActionName,
    pub start_time: String,
    pub ending_time: Option<String>,
    pub method_name: Option<String>,
    pub equipment_name: Option<String>,
    pub sub_equipment_name: Option<String>,
    pub container_info: Option<ContainerInfo>,
    pub temperature_shaker: Option<Observation>,
    pub temperature_tumble_stirrer: Option<Observation>,
    pub speed_shaker: Option<Observation>,
    pub dispense_type: Option<String>,
    pub dispense_state: Option<String>,
    pub has_container_position_and_quantity: Option<Vec<ContainerPosition>>,
    pub has_sample: Option<Sample>,
}

/// A synthesis batch: an identifier and its actions, in order.
#[derive(Debug)]
pub struct Batch {
    pub batch_id: String,
    pub actions: Vec<Action>,
}

} // verus!
