use backlight::custom_errors::StepParameterOutOfRangeError;
use backlight::custom_errors::ValueOutOfRangeError;
use backlight::handler::handle_request;
use backlight::handler::icon_name;
use backlight::handler::intent_from_flags;
use backlight::handler::needs_current_value;
use backlight::handler::notification_content;
use backlight::handler::resolve_span;
use backlight::handler::Intent;
use backlight::handler::Mode;
use backlight::handler::Outcome;

#[test]
fn span_of_each_mode() {
    assert_eq!(resolve_span(Mode::Absolute, None, 255), Ok(255));
    assert_eq!(resolve_span(Mode::Relative, None, 255), Ok(100));
    assert_eq!(resolve_span(Mode::Step, Some(5), 255), Ok(5));
    assert_eq!(resolve_span(Mode::Step, Some(255), 255), Ok(255));
    assert_eq!(resolve_span(Mode::Step, Some(1), 255), Ok(1));
}

#[test]
fn zero_steps_is_rejected_before_any_hardware_call() {
    assert_eq!(
        resolve_span(Mode::Step, Some(0), 255),
        Err(StepParameterOutOfRangeError { max: 255, step_val: 0 })
    );
}

#[test]
fn oversized_steps_is_rejected() {
    assert_eq!(
        resolve_span(Mode::Step, Some(256), 255),
        Err(StepParameterOutOfRangeError { max: 255, step_val: 256 })
    );
}

#[test]
fn get_reports_percentage() {
    // hw_max = 255, relative mode, current = 128: round(128/255*100) = 50.
    assert_eq!(handle_request(255, 100, Intent::Get, 128), Ok(Outcome::Report(50)));
    assert_eq!(handle_request(255, 100, Intent::Idle, 128), Ok(Outcome::Report(50)));
}

#[test]
fn get_in_absolute_mode_reports_raw_value() {
    assert_eq!(handle_request(255, 255, Intent::Get, 200), Ok(Outcome::Report(200)));
}

#[test]
fn min_and_max_reports() {
    assert_eq!(handle_request(255, 100, Intent::ReportMin, 0), Ok(Outcome::Report(0)));
    assert_eq!(handle_request(255, 100, Intent::ReportMax, 0), Ok(Outcome::Report(100)));
    assert_eq!(handle_request(255, 5, Intent::ReportMax, 0), Ok(Outcome::Report(5)));
}

#[test]
fn set_converts_to_hardware_value() {
    // step mode, span 5, set 3: round(255/5*3) = 153.
    assert_eq!(handle_request(255, 5, Intent::SetTo(3), 0), Ok(Outcome::Write(153)));
}

#[test]
fn set_out_of_range_carries_bounds() {
    assert_eq!(
        handle_request(255, 100, Intent::SetTo(150), 0),
        Err(ValueOutOfRangeError { min: 0, max: 100, val: 150 })
    );
}

#[test]
fn increment_clamps_at_maximum() {
    // absolute mode, hw_max = 100, current = 90, inc 20: clamps to 100.
    assert_eq!(handle_request(100, 100, Intent::Increment(20), 90), Ok(Outcome::Write(100)));
}

#[test]
fn increment_saturates_on_huge_amounts() {
    // At the top of the scale a four-billion increment must neither wrap
    // nor overflow: it saturates at the span.
    assert_eq!(
        handle_request(100, 100, Intent::Increment(4_000_000_000), 100),
        Ok(Outcome::Write(100))
    );
    assert_eq!(
        handle_request(255, 100, Intent::Increment(u32::MAX), 0),
        Ok(Outcome::Write(255))
    );
}

#[test]
fn decrement_saturates_at_zero() {
    assert_eq!(
        handle_request(255, 100, Intent::Decrement(4_000_000_000), 128),
        Ok(Outcome::Write(0))
    );
    assert_eq!(handle_request(100, 100, Intent::Decrement(30), 20), Ok(Outcome::Write(0)));
}

#[test]
fn decrement_converts_back_to_hardware() {
    // current 128 is 50 %; 50 - 10 = 40 %; round(255/100*40) = 102.
    assert_eq!(handle_request(255, 100, Intent::Decrement(10), 128), Ok(Outcome::Write(102)));
}

#[test]
fn notification_is_percentage_normalized() {
    assert_eq!(notification_content(100, 100), (100, true));
    assert_eq!(notification_content(255, 128), (50, false));
    assert_eq!(notification_content(255, 0), (0, false));
    assert_eq!(notification_content(255, 255), (100, true));
}

#[test]
fn icon_class_threshold() {
    assert_eq!(icon_name(true), "brightness-high");
    assert_eq!(icon_name(false), "brightness-low");
}

#[test]
fn only_reads_and_relative_changes_need_the_current_value() {
    assert!(needs_current_value(Intent::Get));
    assert!(needs_current_value(Intent::Idle));
    assert!(needs_current_value(Intent::Increment(1)));
    assert!(needs_current_value(Intent::Decrement(1)));
    assert!(!needs_current_value(Intent::ReportMin));
    assert!(!needs_current_value(Intent::ReportMax));
    assert!(!needs_current_value(Intent::SetTo(1)));
}

#[test]
fn flag_priority_order() {
    assert_eq!(intent_from_flags(true, true, true, Some(1), Some(2), Some(3)), Intent::Get);
    assert_eq!(intent_from_flags(false, true, true, Some(1), Some(2), Some(3)), Intent::ReportMin);
    assert_eq!(intent_from_flags(false, false, true, Some(1), Some(2), Some(3)), Intent::ReportMax);
    assert_eq!(
        intent_from_flags(false, false, false, Some(1), Some(2), Some(3)),
        Intent::Increment(2)
    );
    assert_eq!(
        intent_from_flags(false, false, false, Some(1), None, Some(3)),
        Intent::Decrement(3)
    );
    assert_eq!(intent_from_flags(false, false, false, Some(1), None, None), Intent::SetTo(1));
    assert_eq!(intent_from_flags(false, false, false, None, None, None), Intent::Idle);
}
