//! Assembly of the volume window: one window, one vertical container, and
//! one button for each volume step.

use crate::audio::mixer_invocation;
use crate::diff::{percent_text, DiffValue};
use crate::extensions::{InScope, Reactive};
use crate::widgets::{
    Application, ApplicationWindow, Button, ButtonBox, ButtonBoxView, ButtonView, Orientation,
    WindowView,
};
use leptos::Scope;
use vstd::prelude::*;
use vstd::string::*;

verus! {

/// The space, in pixels, left free on each side of a volume button.
pub const BUTTON_MARGIN: i32 = 12;

/// The volume step, in percent, of the two buttons.
pub const VOLUME_STEP: i32 = 5;

/// The button that changes the volume by `diff` percent: labelled with the
/// delta's text, with the same margin on all sides.
pub open spec fn volume_button(diff: int) -> ButtonView {
    ButtonView {
        label: Some(percent_text(diff)),
        margin_top: BUTTON_MARGIN as int,
        margin_bottom: BUTTON_MARGIN as int,
        margin_start: BUTTON_MARGIN as int,
        margin_end: BUTTON_MARGIN as int,
        clicked: Some(diff),
    }
}

/// The container of the volume window: the button that lowers the volume
/// above the one that raises it.
pub open spec fn volume_box() -> ButtonBoxView {
    ButtonBoxView {
        orientation: Orientation::Vertical,
        children: seq![volume_button(-VOLUME_STEP), volume_button(VOLUME_STEP as int)],
    }
}

/// The volume window of the application `application_id`, assembled and
/// shown.
pub open spec fn volume_window(application_id: Seq<char>) -> WindowView {
    WindowView { application_id, child: Some(volume_box()), presented: true }
}

/// A volume button shows what its click sends: the label is the last
/// argument of the mixer call for the button's delta, and a click asks for
/// that delta.
pub proof fn lemma_button_label_is_mixer_argument(diff: int)
    ensures
        volume_button(diff).clicked == Some(diff),
        volume_button(diff).label == Some(mixer_invocation(diff).arguments.last()),
{
}

/// The application identifier: the crate's name in the author's reverse
/// domain.
pub fn app_id(crate_name: &str) -> (id: String)
    ensures
        id@ == "it.niedzwiedz."@ + crate_name@,
{
    "it.niedzwiedz.".to_owned().concat(crate_name)
}

/// Creates the button that changes the volume by `diff` percent.
pub fn diff_volume_button(cx: Scope, diff: DiffValue) -> (button: Reactive<Button>)
    ensures
        button.scope() == cx,
        button.widget()@ == volume_button(diff@),
{
    Button::in_scope(cx).constant(move |btn: &mut Button|
        requires
            old(btn)@ == ButtonView::initial(),
        ensures
            final(btn)@ == volume_button(diff@),
    {
        btn.set_margin_top(BUTTON_MARGIN);
        btn.set_margin_bottom(BUTTON_MARGIN);
        btn.set_margin_start(BUTTON_MARGIN);
        btn.set_margin_end(BUTTON_MARGIN);
        btn.connect_clicked(diff);
        btn.set_label(diff.to_string().as_str());
    })
}

/// Creates the container of the volume window, with its two buttons.
pub fn volume_button_box(cx: Scope) -> (container: Reactive<ButtonBox>)
    ensures
        container.scope() == cx,
        container.widget()@ == volume_box(),
{
    ButtonBox::in_scope(cx).constant(move |container: &mut ButtonBox|
        requires
            old(container)@ == ButtonBoxView::initial(),
        ensures
            final(container)@ == volume_box(),
    {
        container.set_orientation(Orientation::Vertical);
        container.append(diff_volume_button(cx, DiffValue::new(-VOLUME_STEP)).as_ref());
        container.append(diff_volume_button(cx, DiffValue::new(VOLUME_STEP)).as_ref());
        assert(container@.children =~= volume_box().children);
    })
}

/// Builds the volume window of `app` in the scope `cx` and presents it:
/// a vertical container with the `-5%` button above the `+5%` button.
pub fn build_ui(cx: Scope, app: &Application) -> (window: Reactive<ApplicationWindow>)
    ensures
        window.scope() == cx,
        window.widget()@ == volume_window(app@),
{
    let window = Reactive::<ApplicationWindow>::in_scope(cx, app).constant(
        move |window: &mut ApplicationWindow|
        ensures
            final(window)@ == (WindowView { child: Some(volume_box()), ..old(window)@ }),
    {
        window.set_child(Some(volume_button_box(cx).as_ref()));
    });
    window.constant(|window: &mut ApplicationWindow|
        ensures
            final(window)@ == (WindowView { presented: true, ..old(window)@ }),
    {
        window.present();
    })
}

} // verus!
