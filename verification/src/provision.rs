use vstd::prelude::*;
use crate::error::MapError;
use crate::generator::generation_of;
use crate::generator::Generation;
use crate::map_data::default_params;
use crate::map_data::MapData;
use crate::params::MapParams;

verus! {

/// What the creation of a map entity starts from: the map and the first
/// generation made from it, ready to be stored.
#[derive(Debug, PartialEq, Eq)]
pub struct Provisioned {
    /// The map, at version zero.
    pub data: MapData,
    /// The content to store for it.
    pub generation: Generation,
}

/// The default parameters are valid, so a default map can always be made.
pub proof fn lemma_default_params_valid()
    ensures
        default_params().is_valid(),
{
}

/// Makes a map from `params` and generates its first content, or names the
/// first parameter that is out of range.
pub fn provision(params: MapParams) -> (r: Result<Provisioned, MapError>)
    ensures
        r.is_ok() <==> params.is_valid(),
        match r {
            Ok(made) => {
                &&& made.data.params() == params
                &&& made.data.version() == 0
                &&& made.generation@ == generation_of(params)
                &&& made.generation@.is_consistent()
            },
            Err(e) => params.first_issue() is Some && e == MapError::InvalidParameters(
                params.first_issue()->0,
            ),
        },
{
    match MapData::new(params) {
        Ok(data) => {
            let generation: Generation = data.generate();
            Ok(Provisioned { data, generation })
        },
        Err(e) => Err(e),
    }
}

/// Makes a map with the default parameters and generates its first content.
pub fn provision_default() -> (made: Provisioned)
    ensures
        made.data.params() == default_params(),
        made.data.version() == 0,
        made.generation@ == generation_of(default_params()),
        made.generation@.is_consistent(),
{
    let data: MapData = MapData::default();
    let generation: Generation = data.generate();
    Provisioned { data, generation }
}

} // verus!
