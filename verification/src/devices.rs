//! Port enumeration results and snapshots.
//!
//! The platform subsystem reports, per direction, an ordered list of ports;
//! for each port it may or may not be able to supply a readable name. This
//! module turns such a report into an ordered list of device descriptors
//! (assigning ordinal indices and substituting a placeholder name where none
//! was available) and composes the two directions into a snapshot.

use vstd::prelude::*;

verus! {

use crate::errors::MidiError;
use vstd::string::StringExecFns;

/// Whether a port carries messages into the application or out of it.
#[derive(Clone, Copy, Debug, PartialEq, Eq, Structural)]
pub enum Direction {
    Input,
    Output,
}

/// One enumerated port: its ordinal position in the enumeration that
/// produced it, a human-readable name, and its direction.
///
/// The index identifies the port only relative to that one enumeration
/// call; a later enumeration may reorder or invalidate it.
#[derive(Debug, PartialEq, Eq)]
pub struct DeviceDescriptor {
    pub index: usize,
    pub name: String,
    pub direction: Direction,
}

/// A point-in-time view of all enumerated ports, both directions.
#[derive(Debug)]
pub struct Snapshot {
    pub inputs: Vec<DeviceDescriptor>,
    pub outputs: Vec<DeviceDescriptor>,
}

/// The name given to a port whose own name could not be resolved.
pub open spec fn placeholder_name() -> Seq<char> {
    "Unknown"@
}

/// What the descriptor at position `i` of an enumeration must look like,
/// given the name the platform reported there (`None` where it had none).
pub open spec fn descriptor_for(
    name: Option<String>,
    i: int,
    direction: Direction,
    d: DeviceDescriptor,
) -> bool {
    &&& d.index == i
    &&& d.direction == direction
    &&& d.name@ == match name {
        Some(n) => n@,
        None => placeholder_name(),
    }
}

/// Every position of `names` is reflected at the same position of `ds`.
pub open spec fn descriptors_match(
    names: Seq<Option<String>>,
    direction: Direction,
    ds: Seq<DeviceDescriptor>,
) -> bool {
    &&& ds.len() == names.len()
    &&& forall|i: int| 0 <= i < ds.len() ==> descriptor_for(names[i], i, direction, #[trigger] ds[i])
}

/// Builds the descriptor list for one enumeration: indices run 0..N-1 in
/// platform-reported order, and a port whose name was unavailable gets the
/// placeholder instead of failing the whole call.
pub fn build_descriptors(names: &Vec<Option<String>>, direction: Direction) -> (ds: Vec<
    DeviceDescriptor,
>)
    ensures
        descriptors_match(names@, direction, ds@),
{
    let mut ds: Vec<DeviceDescriptor> = Vec::new();
    let mut i: usize = 0;
    while i < names.len()
        invariant
            i <= names@.len(),
            ds@.len() == i,
            forall|k: int|
                0 <= k < i ==> descriptor_for(names@[k], k, direction, #[trigger] ds@[k]),
        decreases names@.len() - i,
    {
        let name: String = match &names[i] {
            Some(n) => n.clone(),
            None => String::from_str("Unknown"),
        };
        ds.push(DeviceDescriptor { index: i, name, direction });
        i = i + 1;
    }
    ds
}

/// The outcome of one enumeration command, given the platform's report.
///
/// The platform either failed to open a subsystem handle (its message is
/// carried through as an enumeration error) or reported the port names; in
/// the latter case the command always succeeds, with one descriptor per
/// port.
pub fn list_ports(enumeration: Result<Vec<Option<String>>, String>, direction: Direction) -> (r:
    Result<Vec<DeviceDescriptor>, MidiError>)
    ensures
        enumeration matches Err(m) ==> r == Err::<Vec<DeviceDescriptor>, MidiError>(
            MidiError::Enumeration(m),
        ),
        enumeration matches Ok(names) ==> r matches Ok(ds) && descriptors_match(
            names@,
            direction,
            ds@,
        ),
{
    match enumeration {
        Ok(names) => Ok(build_descriptors(&names, direction)),
        Err(m) => Err(MidiError::Enumeration(m)),
    }
}

/// The outcome of a refresh, given the platform's report for each
/// direction.
///
/// A refresh is all-or-nothing: it succeeds only if both enumerations did,
/// and then the snapshot holds exactly one input descriptor per reported
/// input port and one output descriptor per reported output port. If either
/// enumeration failed, its message is carried through as an enumeration
/// error and no partial snapshot is returned; the input failure wins when
/// both failed.
pub fn refresh(
    inputs: Result<Vec<Option<String>>, String>,
    outputs: Result<Vec<Option<String>>, String>,
) -> (r: Result<Snapshot, MidiError>)
    ensures
        inputs matches Err(m) ==> r == Err::<Snapshot, MidiError>(MidiError::Enumeration(m)),
        inputs is Ok ==> (outputs matches Err(m) ==> r == Err::<Snapshot, MidiError>(
            MidiError::Enumeration(m),
        )),
        inputs matches Ok(ins) ==> (outputs matches Ok(outs) ==> (r matches Ok(s)
            && descriptors_match(ins@, Direction::Input, s.inputs@) && descriptors_match(
            outs@,
            Direction::Output,
            s.outputs@,
        ))),
{
    match (inputs, outputs) {
        (Ok(ins), Ok(outs)) => Ok(
            Snapshot {
                inputs: build_descriptors(&ins, Direction::Input),
                outputs: build_descriptors(&outs, Direction::Output),
            },
        ),
        (Err(m), _) => Err(MidiError::Enumeration(m)),
        (_, Err(m)) => Err(MidiError::Enumeration(m)),
    }
}

} // verus!
