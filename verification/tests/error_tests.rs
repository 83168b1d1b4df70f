use backlight::custom_errors::NoValidBacklightRangeValuesError;
use backlight::custom_errors::NoValidCurrenBacklightValueError;
use backlight::custom_errors::NoValidScreenResourceError;
use backlight::custom_errors::StepParameterOutOfRangeError;
use backlight::custom_errors::ValueOutOfRangeError;

#[test]
fn screen_resource_message() {
    assert_eq!(NoValidScreenResourceError.message(), "could not find valid screen resouce");
}

#[test]
fn range_values_message() {
    assert_eq!(
        NoValidBacklightRangeValuesError.message(),
        "did not receive proper backlight value range values"
    );
}

#[test]
fn current_value_message() {
    assert_eq!(
        NoValidCurrenBacklightValueError.message(),
        "did not receive proper current backlight value"
    );
}

#[test]
fn value_out_of_range_message_carries_bounds() {
    let e = ValueOutOfRangeError { min: 0, max: 100, val: 150 };
    assert_eq!(e.message(), "backlight value is out of range - min: 0, max: 100, value: 150");
}

#[test]
fn step_parameter_message_carries_bounds() {
    let e = StepParameterOutOfRangeError { max: 255, step_val: 0 };
    assert_eq!(e.message(), "steps parameter is out of range - min: 0, max: 255, steps value: 0");
}
