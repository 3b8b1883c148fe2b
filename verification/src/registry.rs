use vstd::prelude::*;

use crate::error::DeskError;
use crate::protocol::{UUID_COMMAND, UUID_HEIGHT, UUID_REFERENCE_INPUT, WriteEndpoint};

verus! {

/// Where, in the peripheral's discovered characteristic catalog, each of
/// the three logical operations lives. The caller keeps the catalog (a list
/// of opaque handles) and passes its characteristic identifiers here, in
/// the same order; the registry then addresses handles by index.
#[derive(Debug, Clone, Copy, PartialEq, Eq, Structural)]
pub struct CharacteristicRegistry {
    /// Index of the height characteristic (read / subscribe).
    pub height_index: usize,
    /// Index of the movement-command characteristic (write).
    pub command_index: usize,
    /// Index of the reference-input characteristic (write).
    pub reference_input_index: usize,
}

/// The registry's indices all lie in the catalog and name the right
/// characteristics.
pub open spec fn registry_resolved(uuids: Seq<u128>, registry: CharacteristicRegistry) -> bool {
    &&& registry.height_index < uuids.len()
    &&& uuids[registry.height_index as int] == UUID_HEIGHT
    &&& registry.command_index < uuids.len()
    &&& uuids[registry.command_index as int] == UUID_COMMAND
    &&& registry.reference_input_index < uuids.len()
    &&& uuids[registry.reference_input_index as int] == UUID_REFERENCE_INPUT
}

/// Index of the first characteristic with the given identifier.
fn find_uuid(uuids: &Vec<u128>, target: u128) -> (r: Option<usize>)
    ensures
        match r {
            Some(i) => i < uuids@.len() && uuids@[i as int] == target,
            None => !uuids@.contains(target),
        },
{
    let mut i: usize = 0;
    while i < uuids.len()
        invariant
            i <= uuids@.len(),
            forall|j: int| 0 <= j < i ==> uuids@[j] != target,
        decreases uuids@.len() - i,
    {
        if uuids[i] == target {
            return Some(i);
        }
        i = i + 1;
    }
    proof {
        assert(forall|j: int| 0 <= j < uuids@.len() ==> uuids@[j] != target);
    }
    None
}

impl CharacteristicRegistry {
    /// Resolve the three required operations against a peripheral's
    /// characteristic catalog. A device lacking any of the three
    /// identifiers is not a supported desk, and resolution fails rather
    /// than synthesize a default handle.
    pub fn resolve(uuids: &Vec<u128>) -> (r: Result<CharacteristicRegistry, DeskError>)
        ensures
            match r {
                Ok(registry) => registry_resolved(uuids@, registry),
                Err(e) => {
                    &&& e == DeskError::MissingCharacteristic
                    &&& (!uuids@.contains(UUID_HEIGHT) || !uuids@.contains(UUID_COMMAND)
                        || !uuids@.contains(UUID_REFERENCE_INPUT))
                },
            },
            (uuids@.contains(UUID_HEIGHT) && uuids@.contains(UUID_COMMAND) && uuids@.contains(
                UUID_REFERENCE_INPUT,
            )) ==> r is Ok,
    {
        let height_index = match find_uuid(uuids, UUID_HEIGHT) {
            Some(i) => i,
            None => {
                return Err(DeskError::MissingCharacteristic);
            },
        };
        let command_index = match find_uuid(uuids, UUID_COMMAND) {
            Some(i) => i,
            None => {
                return Err(DeskError::MissingCharacteristic);
            },
        };
        let reference_input_index = match find_uuid(uuids, UUID_REFERENCE_INPUT) {
            Some(i) => i,
            None => {
                return Err(DeskError::MissingCharacteristic);
            },
        };
        proof {
            assert(uuids@.contains(uuids@[height_index as int]));
            assert(uuids@.contains(uuids@[command_index as int]));
            assert(uuids@.contains(uuids@[reference_input_index as int]));
        }
        Ok(CharacteristicRegistry { height_index, command_index, reference_input_index })
    }

    /// The catalog index a write endpoint is served by.
    pub fn write_index(&self, endpoint: WriteEndpoint) -> (i: usize)
        ensures
            endpoint == WriteEndpoint::Command ==> i == self.command_index,
            endpoint == WriteEndpoint::ReferenceInput ==> i == self.reference_input_index,
    {
        match endpoint {
            WriteEndpoint::Command => self.command_index,
            WriteEndpoint::ReferenceInput => self.reference_input_index,
        }
    }
}

} // verus!
