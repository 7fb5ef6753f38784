use vstd::prelude::*;
use crate::error::MapError;
use crate::error::Parameter;
use crate::generator::generate;
use crate::generator::generation_of;
use crate::generator::Generation;
use crate::params::amplitude_in_range;
use crate::params::check_amplitude;
use crate::params::check_dim;
use crate::params::check_scale;
use crate::params::dim_in_range;
use crate::params::scale_in_range;
use crate::params::MapParams;

verus! {

/// The parameters of a map that nobody has edited yet.
pub open spec fn default_params() -> MapParams {
    MapParams { seed: 0, width: 64, height: 64, scale: 1000, amplitude: 4000 }
}

/// The version that follows `version`. Versions wrap at the end of `u64`, so
/// a single step always gives a different version.
pub open spec fn next_version(version: u64) -> u64 {
    if version == u64::MAX {
        0
    } else {
        (version + 1) as u64
    }
}

/// The version reached from `version` by `edits` accepted edits.
pub open spec fn version_after(version: u64, edits: nat) -> u64 {
    ((version + edits) % 0x1_0000_0000_0000_0000) as u64
}

/// The parameters of one map together with the marker that tells observers
/// when they were last written.
///
/// The parameters are always valid: an edit that would make them invalid is
/// refused and leaves the map as it was.
#[derive(Clone, Copy, Debug, PartialEq, Eq)]
pub struct MapData {
    params: MapParams,
    version: u64,
}

impl MapData {
    #[verifier::type_invariant]
    closed spec fn inv(&self) -> bool {
        self.params.is_valid()
    }

    /// The current parameters.
    pub closed spec fn spec_params(&self) -> MapParams {
        self.params
    }

    /// The current version: it changes with every accepted edit and with
    /// nothing else.
    pub closed spec fn spec_version(&self) -> u64 {
        self.version
    }

    /// Makes a map from `params`, at version zero, or names the first
    /// parameter that is out of range.
    pub fn new(params: MapParams) -> (r: Result<MapData, MapError>)
        ensures
            r.is_ok() <==> params.is_valid(),
            match r {
                Ok(data) => data.params() == params && data.version() == 0,
                Err(e) => params.first_issue() is Some && e == MapError::InvalidParameters(
                    params.first_issue()->0,
                ),
            },
    {
        match params.validate() {
            Ok(()) => Ok(MapData { params, version: 0 }),
            Err(e) => Err(e),
        }
    }

    /// Reads the current parameters.
    #[verifier::when_used_as_spec(spec_params)]
    pub fn params(&self) -> (p: MapParams)
        ensures
            p == self.params(),
            p.is_valid(),
    {
        proof {
            use_type_invariant(self);
        }
        self.params
    }

    /// Reads the current version.
    #[verifier::when_used_as_spec(spec_version)]
    pub fn version(&self) -> (v: u64)
        ensures
            v == self.version(),
    {
        self.version
    }

    /// Reads the seed.
    pub fn seed(&self) -> (seed: u64)
        ensures
            seed == self.params().seed,
    {
        self.params.seed
    }

    /// Reads the number of grid points along the x axis.
    pub fn width(&self) -> (width: i32)
        ensures
            width == self.params().width,
            dim_in_range(width),
    {
        proof {
            use_type_invariant(self);
        }
        self.params.width
    }

    /// Reads the number of grid points along the z axis.
    pub fn height(&self) -> (height: i32)
        ensures
            height == self.params().height,
            dim_in_range(height),
    {
        proof {
            use_type_invariant(self);
        }
        self.params.height
    }

    /// Reads the horizontal spacing, in thousandths.
    pub fn scale(&self) -> (scale: i32)
        ensures
            scale == self.params().scale,
            scale_in_range(scale),
    {
        proof {
            use_type_invariant(self);
        }
        self.params.scale
    }

    /// Reads the vertical amplitude, in thousandths.
    pub fn amplitude(&self) -> (amplitude: i32)
        ensures
            amplitude == self.params().amplitude,
            amplitude_in_range(amplitude),
    {
        proof {
            use_type_invariant(self);
        }
        self.params.amplitude
    }

    /// Replaces all parameters in one edit, or refuses them and leaves the map
    /// as it was.
    pub fn set_params(&mut self, params: MapParams) -> (r: Result<(), MapError>)
        ensures
            r.is_ok() <==> params.is_valid(),
            r.is_ok() ==> final(self).params() == params && final(self).version() == next_version(
                old(self).version(),
            ),
            r.is_err() ==> *final(self) == *old(self) && params.first_issue() is Some && r
                == Err::<(), MapError>(MapError::InvalidParameters(params.first_issue()->0)),
    {
        match params.validate() {
            Ok(()) => {
                *self = MapData { params, version: self.version.wrapping_add(1) };
                Ok(())
            },
            Err(e) => Err(e),
        }
    }

    /// Brings the map to `params` if it holds others: for an editing surface
    /// that hands over the whole record whether or not anything was written.
    /// Equal parameters are no edit; others are one edit, or are refused and
    /// leave the map as it was. Returns whether the map was edited.
    pub fn revise(&mut self, params: MapParams) -> (r: Result<bool, MapError>)
        ensures
            r.is_ok() <==> params == old(self).params() || params.is_valid(),
            r == Ok::<bool, MapError>(false) <==> params == old(self).params(),
            r == Ok::<bool, MapError>(true) ==> final(self).params() == params
                && final(self).version() == next_version(old(self).version()),
            r != Ok::<bool, MapError>(true) ==> *final(self) == *old(self),
            r.is_err() ==> params.first_issue() is Some && r == Err::<bool, MapError>(
                MapError::InvalidParameters(params.first_issue()->0),
            ),
    {
        if params == self.params {
            return Ok(false);
        }
        match self.set_params(params) {
            Ok(()) => Ok(true),
            Err(e) => Err(e),
        }
    }

    /// Writes the seed. Every seed is accepted.
    pub fn set_seed(&mut self, seed: u64)
        ensures
            final(self).params() == (MapParams { seed, ..old(self).params() }),
            final(self).version() == next_version(old(self).version()),
    {
        proof {
            use_type_invariant(&*self);
        }
        *self = MapData {
            params: MapParams { seed, ..self.params },
            version: self.version.wrapping_add(1),
        };
    }

    /// Writes the number of grid points along the x axis, or refuses it and
    /// leaves the map as it was.
    pub fn set_width(&mut self, width: i32) -> (r: Result<(), MapError>)
        ensures
            r.is_ok() <==> dim_in_range(width),
            r.is_ok() ==> final(self).params() == (MapParams { width, ..old(self).params() })
                && final(self).version() == next_version(old(self).version()),
            r.is_err() ==> *final(self) == *old(self) && r == Err::<(), MapError>(
                MapError::InvalidParameters(Parameter::Width),
            ),
    {
        proof {
            use_type_invariant(&*self);
        }
        if check_dim(width) {
            *self = MapData {
                params: MapParams { width, ..self.params },
                version: self.version.wrapping_add(1),
            };
            Ok(())
        } else {
            Err(MapError::InvalidParameters(Parameter::Width))
        }
    }

    /// Writes the number of grid points along the z axis, or refuses it and
    /// leaves the map as it was.
    pub fn set_height(&mut self, height: i32) -> (r: Result<(), MapError>)
        ensures
            r.is_ok() <==> dim_in_range(height),
            r.is_ok() ==> final(self).params() == (MapParams { height, ..old(self).params() })
                && final(self).version() == next_version(old(self).version()),
            r.is_err() ==> *final(self) == *old(self) && r == Err::<(), MapError>(
                MapError::InvalidParameters(Parameter::Height),
            ),
    {
        proof {
            use_type_invariant(&*self);
        }
        if check_dim(height) {
            *self = MapData {
                params: MapParams { height, ..self.params },
                version: self.version.wrapping_add(1),
            };
            Ok(())
        } else {
            Err(MapError::InvalidParameters(Parameter::Height))
        }
    }

    /// Writes the horizontal spacing, in thousandths, or refuses it and leaves
    /// the map as it was.
    pub fn set_scale(&mut self, scale: i32) -> (r: Result<(), MapError>)
        ensures
            r.is_ok() <==> scale_in_range(scale),
            r.is_ok() ==> final(self).params() == (MapParams { scale, ..old(self).params() })
                && final(self).version() == next_version(old(self).version()),
            r.is_err() ==> *final(self) == *old(self) && r == Err::<(), MapError>(
                MapError::InvalidParameters(Parameter::Scale),
            ),
    {
        proof {
            use_type_invariant(&*self);
        }
        if check_scale(scale) {
            *self = MapData {
                params: MapParams { scale, ..self.params },
                version: self.version.wrapping_add(1),
            };
            Ok(())
        } else {
            Err(MapError::InvalidParameters(Parameter::Scale))
        }
    }

    /// Writes the vertical amplitude, in thousandths, or refuses it and leaves
    /// the map as it was.
    pub fn set_amplitude(&mut self, amplitude: i32) -> (r: Result<(), MapError>)
        ensures
            r.is_ok() <==> amplitude_in_range(amplitude),
            r.is_ok() ==> final(self).params() == (MapParams {
                amplitude,
                ..old(self).params()
            }) && final(self).version() == next_version(old(self).version()),
            r.is_err() ==> *final(self) == *old(self) && r == Err::<(), MapError>(
                MapError::InvalidParameters(Parameter::Amplitude),
            ),
    {
        proof {
            use_type_invariant(&*self);
        }
        if check_amplitude(amplitude) {
            *self = MapData {
                params: MapParams { amplitude, ..self.params },
                version: self.version.wrapping_add(1),
            };
            Ok(())
        } else {
            Err(MapError::InvalidParameters(Parameter::Amplitude))
        }
    }

    /// Generates the surface and its material from the current parameters.
    pub fn generate(&self) -> (g: Generation)
        ensures
            g@ == generation_of(self.params()),
            g@.is_consistent(),
    {
        proof {
            use_type_invariant(self);
        }
        generate(&self.params)
    }
}

impl Default for MapData {
    /// A map with the default parameters, at version zero.
    fn default() -> (data: MapData)
        ensures
            data.params() == default_params(),
            data.version() == 0,
    {
        MapData {
            params: MapParams { seed: 0, width: 64, height: 64, scale: 1000, amplitude: 4000 },
            version: 0,
        }
    }
}

/// Remembers the version of a map at the last check, to tell whether the map
/// was edited since.
#[derive(Clone, Copy, Debug, PartialEq, Eq)]
pub struct ChangeObserver {
    /// The version consumed by the last check; `None` before the first.
    pub seen: Option<u64>,
}

impl ChangeObserver {
    /// Whether a check against a map at `version` reports a change.
    pub open spec fn reports(self, version: u64) -> bool {
        self.seen != Some(version)
    }

    /// The observer after a check against a map at `version`.
    pub open spec fn after_check(self, version: u64) -> ChangeObserver {
        ChangeObserver { seen: Some(version) }
    }

    /// An observer that has not checked any map yet.
    pub fn new() -> (observer: ChangeObserver)
        ensures
            observer.seen is None,
    {
        ChangeObserver { seen: None }
    }

    /// Tells whether `data` was edited since the last check, without
    /// consuming the change.
    pub fn would_report(&self, data: &MapData) -> (changed: bool)
        ensures
            changed == self.reports(data.version()),
    {
        match self.seen {
            Some(v) => v != data.version(),
            None => true,
        }
    }

    /// Tells whether `data` was edited since the last check, and consumes the
    /// change: the next check reports none unless `data` is edited again.
    pub fn check(&mut self, data: &MapData) -> (changed: bool)
        ensures
            changed == old(self).reports(data.version()),
            *final(self) == old(self).after_check(data.version()),
    {
        let changed: bool = self.would_report(data);
        self.seen = Some(data.version());
        changed
    }
}

/// One edit always changes the version.
pub proof fn lemma_next_version_differs(version: u64)
    ensures
        next_version(version) != version,
        next_version(version) == version_after(version, 1),
{
}

/// Any number of edits between two checks, short of a whole turn of the
/// version counter, changes the version.
pub proof fn lemma_batched_edits_differ(version: u64, edits: nat)
    requires
        0 < edits < 0x1_0000_0000_0000_0000,
    ensures
        version_after(version, edits) != version,
{
}

/// Edits add up: one more edit after `edits` of them is `edits + 1` edits.
pub proof fn lemma_version_after_step(version: u64, edits: nat)
    ensures
        version_after(version, 0) == version,
        next_version(version_after(version, edits)) == version_after(version, edits + 1),
{
}

/// Change detection is exact.
///
/// An observer that has not checked yet reports a change for every map. After
/// a check, a second check of the unedited map reports none. After an
/// accepted edit, or a batch of them, the next check reports a change, and
/// the one after it reports none.
pub proof fn lemma_change_detection(observer: ChangeObserver, version: u64, edits: nat)
    requires
        0 < edits < 0x1_0000_0000_0000_0000,
    ensures
        (ChangeObserver { seen: None }).reports(version),
        !observer.after_check(version).reports(version),
        observer.after_check(version).reports(next_version(version)),
        observer.after_check(version).reports(version_after(version, edits)),
        !observer.after_check(version).after_check(version_after(version, edits)).reports(
            version_after(version, edits),
        ),
{
    lemma_batched_edits_differ(version, edits);
}

} // verus!
