use map_plugin::error::MapError;
use map_plugin::error::Parameter;
use map_plugin::params::check_amplitude;
use map_plugin::params::check_dim;
use map_plugin::params::check_scale;
use map_plugin::params::MapParams;

fn sample() -> MapParams {
    MapParams { seed: 1, width: 4, height: 4, scale: 1000, amplitude: 0 }
}

#[test]
fn validate_accepts_sample() {
    assert_eq!(sample().validate(), Ok(()));
}

#[test]
fn validate_accepts_smallest_and_largest_values() {
    let smallest = MapParams { seed: 0, width: 2, height: 2, scale: 1, amplitude: 0 };
    let largest = MapParams {
        seed: u64::MAX,
        width: 1024,
        height: 1024,
        scale: 1_000_000,
        amplitude: 1_000_000,
    };
    assert_eq!(smallest.validate(), Ok(()));
    assert_eq!(largest.validate(), Ok(()));
}

#[test]
fn validate_rejects_zero_width() {
    let p = MapParams { width: 0, ..sample() };
    assert_eq!(p.validate(), Err(MapError::InvalidParameters(Parameter::Width)));
}

#[test]
fn validate_rejects_single_column() {
    let p = MapParams { width: 1, ..sample() };
    assert_eq!(p.validate(), Err(MapError::InvalidParameters(Parameter::Width)));
}

#[test]
fn validate_rejects_negative_height() {
    let p = MapParams { height: -3, ..sample() };
    assert_eq!(p.validate(), Err(MapError::InvalidParameters(Parameter::Height)));
}

#[test]
fn validate_rejects_oversized_grid() {
    let wide = MapParams { width: 1025, ..sample() };
    let deep = MapParams { height: 1025, ..sample() };
    assert_eq!(wide.validate(), Err(MapError::InvalidParameters(Parameter::Width)));
    assert_eq!(deep.validate(), Err(MapError::InvalidParameters(Parameter::Height)));
}

#[test]
fn validate_rejects_scale_out_of_range() {
    let zero = MapParams { scale: 0, ..sample() };
    let huge = MapParams { scale: 1_000_001, ..sample() };
    assert_eq!(zero.validate(), Err(MapError::InvalidParameters(Parameter::Scale)));
    assert_eq!(huge.validate(), Err(MapError::InvalidParameters(Parameter::Scale)));
}

#[test]
fn validate_rejects_amplitude_out_of_range() {
    let negative = MapParams { amplitude: -1, ..sample() };
    let huge = MapParams { amplitude: 1_000_001, ..sample() };
    assert_eq!(negative.validate(), Err(MapError::InvalidParameters(Parameter::Amplitude)));
    assert_eq!(huge.validate(), Err(MapError::InvalidParameters(Parameter::Amplitude)));
}

#[test]
fn validate_names_first_offender() {
    let all_bad = MapParams { seed: 9, width: 0, height: 0, scale: 0, amplitude: -1 };
    assert_eq!(all_bad.validate(), Err(MapError::InvalidParameters(Parameter::Width)));
    let height_on = MapParams { width: 8, ..all_bad };
    assert_eq!(height_on.validate(), Err(MapError::InvalidParameters(Parameter::Height)));
    let scale_on = MapParams { height: 8, ..height_on };
    assert_eq!(scale_on.validate(), Err(MapError::InvalidParameters(Parameter::Scale)));
    let amplitude_on = MapParams { scale: 8, ..scale_on };
    assert_eq!(amplitude_on.validate(), Err(MapError::InvalidParameters(Parameter::Amplitude)));
}

#[test]
fn range_checks_at_their_borders() {
    assert!(!check_dim(1));
    assert!(check_dim(2));
    assert!(check_dim(1024));
    assert!(!check_dim(1025));
    assert!(!check_dim(i32::MIN));
    assert!(!check_scale(0));
    assert!(check_scale(1));
    assert!(check_scale(1_000_000));
    assert!(!check_scale(1_000_001));
    assert!(!check_amplitude(-1));
    assert!(check_amplitude(0));
    assert!(check_amplitude(1_000_000));
    assert!(!check_amplitude(1_000_001));
}
