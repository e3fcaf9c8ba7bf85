//! Data locations: the one Solidity's binder reports and the one the dialect uses.

use vstd::prelude::*;

verus! {

/// The data location a Solidity type carries, as the binder reports it.
///
/// `Inherited` marks a struct member or array element whose location is the one of
/// the aggregate that holds it.
#[derive(Debug, Clone, Copy, PartialEq, Eq, Structural)]
pub enum SlangDataLocation {
    Memory,
    Storage,
    CallData,
    Transient,
    Inherited,
}

/// The data location of a Sol dialect type.
#[derive(Debug, Clone, Copy, PartialEq, Eq, Structural)]
pub enum DataLocation {
    Memory,
    Storage,
    CallData,
    Transient,
}

/// The dialect location of a binder location: `Inherited` takes the location of the
/// enclosing aggregate, and has none when there is no enclosing aggregate.
pub open spec fn spec_location_from_slang(
    location: SlangDataLocation,
    inherited: Option<DataLocation>,
) -> Option<DataLocation> {
    match location {
        SlangDataLocation::Memory => Some(DataLocation::Memory),
        SlangDataLocation::Storage => Some(DataLocation::Storage),
        SlangDataLocation::CallData => Some(DataLocation::CallData),
        SlangDataLocation::Transient => Some(DataLocation::Transient),
        SlangDataLocation::Inherited => inherited,
    }
}

impl DataLocation {
    /// Maps a binder location to the dialect location, substituting `inherited` for an
    /// `Inherited` location. Returns `None` for an `Inherited` location outside any
    /// aggregate.
    pub fn from_slang(location: SlangDataLocation, inherited: Option<DataLocation>) -> (result:
        Option<DataLocation>)
        ensures
            result == spec_location_from_slang(location, inherited),
    {
        match location {
            SlangDataLocation::Memory => Some(DataLocation::Memory),
            SlangDataLocation::Storage => Some(DataLocation::Storage),
            SlangDataLocation::CallData => Some(DataLocation::CallData),
            SlangDataLocation::Transient => Some(DataLocation::Transient),
            SlangDataLocation::Inherited => inherited,
        }
    }
}

/// Each declared location maps to the dialect location of the same name; only an
/// inherited location takes the enclosing one, and there is none outside an aggregate.
pub proof fn lemma_locations_keep_names(inherited: Option<DataLocation>)
    ensures
        spec_location_from_slang(SlangDataLocation::Memory, inherited) == Some(DataLocation::Memory),
        spec_location_from_slang(SlangDataLocation::Storage, inherited) == Some(DataLocation::Storage),
        spec_location_from_slang(SlangDataLocation::CallData, inherited) == Some(DataLocation::CallData),
        spec_location_from_slang(SlangDataLocation::Transient, inherited) == Some(DataLocation::Transient),
        spec_location_from_slang(SlangDataLocation::Inherited, inherited) == inherited,
{
}

} // verus!
