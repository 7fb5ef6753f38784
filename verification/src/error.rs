use vstd::prelude::*;

verus! {

/// The generation inputs that are range-checked.
#[derive(Clone, Copy, Debug, PartialEq, Eq, Structural)]
pub enum Parameter {
    Width,
    Height,
    Scale,
    Amplitude,
}

/// What can go wrong around a map.
///
/// Generation itself never fails: it is total on every parameter record that
/// passes validation, so there is no variant for it.
#[derive(Clone, Copy, Debug, PartialEq, Eq, Structural)]
pub enum MapError {
    /// A parameter is outside the range from which a surface can be built.
    /// Carries the first offending parameter, in declaration order.
    InvalidParameters(Parameter),
    /// The asset store refused to replace the content behind a handle.
    PublishFailure,
}

} // verus!
