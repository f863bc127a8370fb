use leptos::{create_runtime, create_scope};
use pipeweld::audio::{Invocation, ProcessOutcome, VolumeError};
use pipeweld::diff::DiffValue;
use pipeweld::ui::{app_id, build_ui, diff_volume_button, volume_button_box, BUTTON_MARGIN, VOLUME_STEP};
use pipeweld::widgets::{Application, ApplicationWindow, Button, ButtonBox, Orientation};
use std::cell::RefCell;
use std::rc::Rc;

fn click_recording(button: &Button, outcome: ProcessOutcome) -> (Vec<String>, Option<Result<(), VolumeError>>) {
    let calls: Rc<RefCell<Vec<String>>> = Rc::new(RefCell::new(Vec::new()));
    let log = Rc::clone(&calls);
    let result = button.click(move |invocation: Invocation| {
        let mut line = vec![invocation.program];
        line.extend(invocation.arguments);
        log.borrow_mut().push(line.join(" "));
        outcome
    });
    let calls = calls.borrow().clone();
    (calls, result)
}

fn find_button<'a>(container: &'a ButtonBox, label: &str) -> &'a Button {
    let mut found = None;
    for button in container.children() {
        if button.label().map(String::as_str) == Some(label) {
            assert!(found.is_none());
            found = Some(button);
        }
    }
    match found {
        Some(button) => button,
        None => panic!("no button labelled {}", label),
    }
}

#[test]
fn app_id_joins_domain_and_crate_name() {
    assert_eq!(app_id("pipeweld"), "it.niedzwiedz.pipeweld");
    assert_eq!(app_id(""), "it.niedzwiedz.");
    assert_eq!(app_id("other-name"), "it.niedzwiedz.other-name");
}

#[test]
fn constants_hold_the_layout_values() {
    assert_eq!(BUTTON_MARGIN, 12);
    assert_eq!(VOLUME_STEP, 5);
}

#[test]
fn volume_button_is_labelled_and_padded() {
    let runtime = create_runtime();
    create_scope(runtime, |cx| {
        let button = diff_volume_button(cx, DiffValue::new(-5));
        let button: &Button = button.as_ref();
        assert_eq!(button.label().map(String::as_str), Some("-5%"));
        assert_eq!(button.margin_top(), 12);
        assert_eq!(button.margin_bottom(), 12);
        assert_eq!(button.margin_start(), 12);
        assert_eq!(button.margin_end(), 12);
        assert_eq!(button.clicked().map(|diff| diff.percent()), Some(-5));
    })
    .dispose();
    runtime.dispose();
}

#[test]
fn volume_box_is_vertical_with_both_buttons_in_order() {
    let runtime = create_runtime();
    create_scope(runtime, |cx| {
        let container = volume_button_box(cx);
        let container: &ButtonBox = container.as_ref();
        assert_eq!(container.orientation(), Orientation::Vertical);
        let labels: Vec<Option<&str>> =
            container.children().iter().map(|button| button.label().map(String::as_str)).collect();
        assert_eq!(labels, vec![Some("-5%"), Some("+5%")]);
    })
    .dispose();
    runtime.dispose();
}

#[test]
fn window_is_assembled_and_presented() {
    let runtime = create_runtime();
    create_scope(runtime, |cx| {
        let application = Application::new(app_id("pipeweld"));
        let window = build_ui(cx, &application);
        let window: &ApplicationWindow = window.as_ref();
        assert!(window.is_presented());
        assert_eq!(window.application_id(), "it.niedzwiedz.pipeweld");
        let container = match window.child() {
            Some(container) => container,
            None => panic!("the window is empty"),
        };
        assert_eq!(container.orientation(), Orientation::Vertical);
        assert_eq!(container.children().len(), 2);
        for button in container.children() {
            assert_eq!(button.margin_top(), 12);
            assert_eq!(button.margin_bottom(), 12);
            assert_eq!(button.margin_start(), 12);
            assert_eq!(button.margin_end(), 12);
        }
        assert_eq!(container.children()[0].clicked().map(|diff| diff.percent()), Some(-5));
        assert_eq!(container.children()[1].clicked().map(|diff| diff.percent()), Some(5));
    })
    .dispose();
    runtime.dispose();
}

#[test]
fn clicking_minus_five_lowers_the_volume() {
    let runtime = create_runtime();
    create_scope(runtime, |cx| {
        let application = Application::new(app_id("pipeweld"));
        let window = build_ui(cx, &application);
        let window: &ApplicationWindow = window.as_ref();
        let container = window.child().unwrap();
        let button = find_button(container, "-5%");
        let (calls, result) = click_recording(button, ProcessOutcome::Exited(Some(0)));
        assert_eq!(calls, vec!["pactl set-sink-volume @DEFAULT_SINK@ -5%"]);
        assert_eq!(result, Some(Ok(())));
    })
    .dispose();
    runtime.dispose();
}

#[test]
fn clicking_plus_five_raises_the_volume() {
    let runtime = create_runtime();
    create_scope(runtime, |cx| {
        let application = Application::new(app_id("pipeweld"));
        let window = build_ui(cx, &application);
        let window: &ApplicationWindow = window.as_ref();
        let container = window.child().unwrap();
        let button = find_button(container, "+5%");
        let (calls, result) = click_recording(button, ProcessOutcome::Exited(Some(0)));
        assert_eq!(calls, vec!["pactl set-sink-volume @DEFAULT_SINK@ +5%"]);
        assert_eq!(result, Some(Ok(())));
    })
    .dispose();
    runtime.dispose();
}

#[test]
fn failed_click_reports_the_error() {
    let runtime = create_runtime();
    create_scope(runtime, |cx| {
        let button = diff_volume_button(cx, DiffValue::new(5));
        let (calls, result) = click_recording(button.as_ref(), ProcessOutcome::Exited(Some(1)));
        assert_eq!(calls.len(), 1);
        assert_eq!(result, Some(Err(VolumeError::Status)));
        let (calls, result) =
            click_recording(button.as_ref(), ProcessOutcome::NotStarted("not found".to_string()));
        assert_eq!(calls.len(), 1);
        assert_eq!(result, Some(Err(VolumeError::Command("not found".to_string()))));
    })
    .dispose();
    runtime.dispose();
}

#[test]
fn click_without_action_does_nothing() {
    let button = Button::new();
    let (calls, result) = click_recording(&button, ProcessOutcome::Exited(Some(0)));
    assert!(calls.is_empty());
    assert_eq!(result, None);
}
