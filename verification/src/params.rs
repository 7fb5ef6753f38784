use vstd::prelude::*;
use crate::error::MapError;
use crate::error::Parameter;

verus! {

/// One unit of length in fixed-point thousandths.
pub const UNIT: i32 = 1000;

/// Fewest grid points along an axis: fewer would leave no cell to triangulate.
pub const MIN_GRID_DIM: i32 = 2;

/// Most grid points along an axis.
pub const MAX_GRID_DIM: i32 = 1024;

/// Smallest horizontal spacing between neighbouring grid points, in thousandths.
pub const MIN_SCALE: i32 = 1;

/// Largest horizontal spacing between neighbouring grid points, in thousandths.
pub const MAX_SCALE: i32 = 1_000_000;

/// Largest vertical amplitude, in thousandths.
pub const MAX_AMPLITUDE: i32 = 1_000_000;

/// The inputs from which a map is generated.
///
/// Lengths are fixed-point numbers in thousandths of a unit, so `scale == 1000`
/// places neighbouring grid points one unit apart.
#[derive(Clone, Copy, Debug, PartialEq, Eq, Structural)]
pub struct MapParams {
    /// Selects the height field.
    pub seed: u64,
    /// Grid points along the x axis.
    pub width: i32,
    /// Grid points along the z axis.
    pub height: i32,
    /// Horizontal spacing between neighbouring grid points, in thousandths.
    pub scale: i32,
    /// Largest distance of a vertex from the zero plane, in thousandths.
    pub amplitude: i32,
}

/// Whether `dim` is an acceptable number of grid points along one axis.
pub open spec fn dim_in_range(dim: i32) -> bool {
    MIN_GRID_DIM <= dim <= MAX_GRID_DIM
}

/// Whether `scale` is an acceptable horizontal spacing.
pub open spec fn scale_in_range(scale: i32) -> bool {
    MIN_SCALE <= scale <= MAX_SCALE
}

/// Whether `amplitude` is an acceptable vertical amplitude.
pub open spec fn amplitude_in_range(amplitude: i32) -> bool {
    0 <= amplitude <= MAX_AMPLITUDE
}

impl MapParams {
    /// Whether a surface can be generated from these parameters.
    pub open spec fn is_valid(self) -> bool {
        &&& dim_in_range(self.width)
        &&& dim_in_range(self.height)
        &&& scale_in_range(self.scale)
        &&& amplitude_in_range(self.amplitude)
    }

    /// The first parameter, in declaration order, that is out of range.
    pub open spec fn first_issue(self) -> Option<Parameter> {
        if !dim_in_range(self.width) {
            Some(Parameter::Width)
        } else if !dim_in_range(self.height) {
            Some(Parameter::Height)
        } else if !scale_in_range(self.scale) {
            Some(Parameter::Scale)
        } else if !amplitude_in_range(self.amplitude) {
            Some(Parameter::Amplitude)
        } else {
            None
        }
    }

    /// Number of vertices of the generated grid.
    pub open spec fn vertex_count(self) -> int {
        self.width * self.height
    }

    /// Number of cells of the generated grid.
    pub open spec fn cell_count(self) -> int {
        (self.width - 1) * (self.height - 1)
    }

    /// Accepts the parameters, or names the first one that is out of range.
    pub fn validate(&self) -> (r: Result<(), MapError>)
        ensures
            r.is_ok() <==> self.is_valid(),
            match self.first_issue() {
                Some(p) => r == Err::<(), MapError>(MapError::InvalidParameters(p)),
                None => r.is_ok(),
            },
    {
        if !check_dim(self.width) {
            Err(MapError::InvalidParameters(Parameter::Width))
        } else if !check_dim(self.height) {
            Err(MapError::InvalidParameters(Parameter::Height))
        } else if !check_scale(self.scale) {
            Err(MapError::InvalidParameters(Parameter::Scale))
        } else if !check_amplitude(self.amplitude) {
            Err(MapError::InvalidParameters(Parameter::Amplitude))
        } else {
            Ok(())
        }
    }
}

/// Tests a number of grid points along one axis.
pub fn check_dim(dim: i32) -> (ok: bool)
    ensures
        ok == dim_in_range(dim),
{
    MIN_GRID_DIM <= dim && dim <= MAX_GRID_DIM
}

/// Tests a horizontal spacing.
pub fn check_scale(scale: i32) -> (ok: bool)
    ensures
        ok == scale_in_range(scale),
{
    MIN_SCALE <= scale && scale <= MAX_SCALE
}

/// Tests a vertical amplitude.
pub fn check_amplitude(amplitude: i32) -> (ok: bool)
    ensures
        ok == amplitude_in_range(amplitude),
{
    0 <= amplitude && amplitude <= MAX_AMPLITUDE
}

/// A parameter record is valid exactly when no parameter is out of range.
pub proof fn lemma_valid_iff_no_issue(p: MapParams)
    ensures
        p.is_valid() <==> p.first_issue() is None,
{
}

} // verus!
