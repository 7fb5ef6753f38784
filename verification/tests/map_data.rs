use map_plugin::error::MapError;
use map_plugin::error::Parameter;
use map_plugin::map_data::ChangeObserver;
use map_plugin::map_data::MapData;
use map_plugin::params::MapParams;

fn sample() -> MapParams {
    MapParams { seed: 1, width: 4, height: 4, scale: 1000, amplitude: 0 }
}

#[test]
fn default_map_has_default_parameters() {
    let data = MapData::default();
    assert_eq!(
        data.params(),
        MapParams { seed: 0, width: 64, height: 64, scale: 1000, amplitude: 4000 }
    );
    assert_eq!(data.version(), 0);
    assert_eq!(data.params().validate(), Ok(()));
}

#[test]
fn new_keeps_valid_parameters() {
    let data = MapData::new(sample()).unwrap();
    assert_eq!(data.params(), sample());
    assert_eq!(data.version(), 0);
    assert_eq!(data.seed(), 1);
    assert_eq!(data.width(), 4);
    assert_eq!(data.height(), 4);
    assert_eq!(data.scale(), 1000);
    assert_eq!(data.amplitude(), 0);
}

#[test]
fn new_refuses_invalid_parameters() {
    let bad = MapParams { height: 0, ..sample() };
    assert_eq!(MapData::new(bad), Err(MapError::InvalidParameters(Parameter::Height)));
}

#[test]
fn equal_parameters_make_equal_maps() {
    let a = MapData::new(sample()).unwrap();
    let b = MapData::new(sample()).unwrap();
    assert_eq!(a, b);
    assert_eq!(a.version(), b.version());
}

#[test]
fn every_accepted_edit_steps_the_version() {
    let mut data = MapData::new(sample()).unwrap();
    data.set_seed(9);
    assert_eq!(data.version(), 1);
    assert_eq!(data.set_width(8), Ok(()));
    assert_eq!(data.version(), 2);
    assert_eq!(data.set_height(6), Ok(()));
    assert_eq!(data.version(), 3);
    assert_eq!(data.set_scale(500), Ok(()));
    assert_eq!(data.version(), 4);
    assert_eq!(data.set_amplitude(2000), Ok(()));
    assert_eq!(data.version(), 5);
    assert_eq!(
        data.params(),
        MapParams { seed: 9, width: 8, height: 6, scale: 500, amplitude: 2000 }
    );
}

#[test]
fn writing_the_same_value_is_an_edit() {
    let mut data = MapData::new(sample()).unwrap();
    assert_eq!(data.set_width(4), Ok(()));
    assert_eq!(data.params(), sample());
    assert_eq!(data.version(), 1);
}

#[test]
fn set_params_is_one_edit() {
    let mut data = MapData::new(sample()).unwrap();
    let next = MapParams { seed: 3, width: 10, height: 12, scale: 250, amplitude: 750 };
    assert_eq!(data.set_params(next), Ok(()));
    assert_eq!(data.params(), next);
    assert_eq!(data.version(), 1);
}

#[test]
fn set_params_refuses_invalid_parameters() {
    let mut data = MapData::new(sample()).unwrap();
    let before = data;
    let bad = MapParams { scale: 0, amplitude: -5, ..sample() };
    assert_eq!(data.set_params(bad), Err(MapError::InvalidParameters(Parameter::Scale)));
    assert_eq!(data, before);
}

#[test]
fn refused_edits_leave_the_map_untouched() {
    let mut data = MapData::new(sample()).unwrap();
    data.set_seed(2);
    let before = data;
    assert_eq!(data.set_width(0), Err(MapError::InvalidParameters(Parameter::Width)));
    assert_eq!(data.set_width(-4), Err(MapError::InvalidParameters(Parameter::Width)));
    assert_eq!(data.set_height(1), Err(MapError::InvalidParameters(Parameter::Height)));
    assert_eq!(data.set_height(1025), Err(MapError::InvalidParameters(Parameter::Height)));
    assert_eq!(data.set_scale(0), Err(MapError::InvalidParameters(Parameter::Scale)));
    assert_eq!(data.set_amplitude(-1), Err(MapError::InvalidParameters(Parameter::Amplitude)));
    assert_eq!(
        data.set_amplitude(1_000_001),
        Err(MapError::InvalidParameters(Parameter::Amplitude))
    );
    assert_eq!(data, before);
    assert_eq!(data.version(), 1);
    assert_eq!(data.width(), 4);
}

#[test]
fn fresh_observer_reports_a_change() {
    let data = MapData::new(sample()).unwrap();
    let mut observer = ChangeObserver::new();
    assert_eq!(observer.seen, None);
    assert!(observer.would_report(&data));
    assert!(observer.check(&data));
}

#[test]
fn check_consumes_the_change() {
    let data = MapData::new(sample()).unwrap();
    let mut observer = ChangeObserver::new();
    assert!(observer.check(&data));
    assert!(!observer.check(&data));
    assert!(!observer.check(&data));
    assert_eq!(observer.seen, Some(0));
}

#[test]
fn would_report_does_not_consume() {
    let data = MapData::new(sample()).unwrap();
    let observer = ChangeObserver::new();
    assert!(observer.would_report(&data));
    assert!(observer.would_report(&data));
    assert_eq!(observer.seen, None);
}

#[test]
fn edit_is_reported_exactly_once() {
    let mut data = MapData::new(sample()).unwrap();
    let mut observer = ChangeObserver::new();
    assert!(observer.check(&data));
    assert_eq!(data.set_amplitude(2000), Ok(()));
    assert!(observer.check(&data));
    assert!(!observer.check(&data));
}

#[test]
fn batched_edits_are_one_change() {
    let mut data = MapData::new(sample()).unwrap();
    let mut observer = ChangeObserver::new();
    assert!(observer.check(&data));
    data.set_seed(5);
    assert_eq!(data.set_width(9), Ok(()));
    assert_eq!(data.set_amplitude(10), Ok(()));
    assert!(observer.check(&data));
    assert!(!observer.check(&data));
}

#[test]
fn refused_edit_is_no_change() {
    let mut data = MapData::new(sample()).unwrap();
    let mut observer = ChangeObserver::new();
    assert!(observer.check(&data));
    assert!(data.set_width(0).is_err());
    assert!(!observer.check(&data));
}

#[test]
fn observers_are_independent() {
    let mut data = MapData::new(sample()).unwrap();
    let mut first = ChangeObserver::new();
    let mut second = ChangeObserver::new();
    assert!(first.check(&data));
    data.set_seed(8);
    assert!(second.check(&data));
    assert!(first.check(&data));
    assert!(!second.check(&data));
}

#[test]
fn revise_is_an_edit_only_when_something_differs() {
    let mut data = MapData::new(sample()).unwrap();
    assert_eq!(data.revise(sample()), Ok(false));
    assert_eq!(data.version(), 0);
    let next = MapParams { amplitude: 2000, ..sample() };
    assert_eq!(data.revise(next), Ok(true));
    assert_eq!(data.params(), next);
    assert_eq!(data.version(), 1);
    assert_eq!(data.revise(next), Ok(false));
    assert_eq!(data.version(), 1);
}

#[test]
fn revise_refuses_invalid_parameters() {
    let mut data = MapData::new(sample()).unwrap();
    let before = data;
    let bad = MapParams { width: 0, ..sample() };
    assert_eq!(data.revise(bad), Err(MapError::InvalidParameters(Parameter::Width)));
    assert_eq!(data, before);
}
