//! Widgets tied to a reactive scope.
//!
//! [`Reactive`] keeps a widget together with the scope it was created in.
//! A widget is changed through modifiers: [`Reactive::constant`] applies one
//! on the spot, [`Reactive::reactive`] hands one to the scope, which runs it
//! again whenever a signal that the modifier reads changes.

use crate::widgets::{Application, ApplicationWindow, Button, ButtonBox, ButtonBoxView, ButtonView, WindowView};
use leptos::Scope;
use vstd::prelude::*;

verus! {

/// `leptos::Scope`, the handle of a reactive scope. Nothing is known of a
/// scope but its identity.
#[verifier::external_type_specification]
#[verifier::external_body]
pub struct ExScope(leptos::Scope);

/// A widget and the reactive scope that it belongs to.
pub struct Reactive<T> {
    inner: T,
    cx: Scope,
}

/// Widgets that can be created, in their initial state, inside a scope.
pub trait InScope: Sized {
    /// Creates the widget in its initial state and ties it to `cx`.
    fn in_scope(cx: Scope) -> (reactive: Reactive<Self>)
        ensures
            reactive.scope() == cx,
    ;
}

impl<T> Reactive<T> {
    /// The wrapped widget.
    pub closed spec fn widget(&self) -> T {
        self.inner
    }

    /// The scope that the widget belongs to.
    pub closed spec fn scope(&self) -> Scope {
        self.cx
    }
}

impl<T: Clone + 'static> Reactive<T> {
    /// Registers `modifier` with the widget's scope, which runs it on a copy
    /// of the widget: once at registration, and again after each change of
    /// a signal that the modifier read when it last ran. Each run gets a
    /// fresh copy of the widget as it was at registration. The wrapper
    /// itself comes back as it went in.
    ///
    /// Where the scope has outlived its runtime, nothing is registered and
    /// the modifier never runs.
    pub fn reactive<F: Fn(&mut T) + 'static>(self, modifier: F) -> (reactive: Self)
        requires
            forall|widget: &mut T| call_requires(modifier, (widget,)),
        ensures
            reactive == self,
    {
        let inner = self.inner.clone();
        let _registered = register_effect(self.cx, inner, modifier);
        self
    }

    /// Applies `modifier` to the widget, once and at once, and returns the
    /// wrapper with the modified widget.
    pub fn constant<F: Fn(&mut T) + 'static>(self, modifier: F) -> (reactive: Self)
        requires
            forall|widget: &mut T| *widget == self.widget() ==> call_requires(modifier, (widget,)),
        ensures
            reactive.scope() == self.scope(),
            exists|widget: &mut T|
                *widget == self.widget() && *final(widget) == reactive.widget() && call_ensures(
                    modifier,
                    (widget,),
                    (),
                ),
    {
        let mut reactive = self;
        modifier(&mut reactive.inner);
        reactive
    }
}

impl<I> AsRef<I> for Reactive<I> {
    /// The wrapped widget.
    fn as_ref(&self) -> (widget: &I)
        ensures
            *widget == self.widget(),
    {
        &self.inner
    }
}

impl Reactive<ApplicationWindow> {
    /// Creates an empty window of `application` and ties it to `cx`.
    pub fn in_scope(cx: Scope, application: &Application) -> (reactive: Self)
        ensures
            reactive.scope() == cx,
            reactive.widget()@ == WindowView::initial(application@),
    {
        Reactive { inner: ApplicationWindow::new(application), cx }
    }
}

impl InScope for Button {
    fn in_scope(cx: Scope) -> (reactive: Reactive<Self>)
        ensures
            reactive.widget()@ == ButtonView::initial(),
    {
        Reactive { inner: Button::new(), cx }
    }
}

impl InScope for ButtonBox {
    fn in_scope(cx: Scope) -> (reactive: Reactive<Self>)
        ensures
            reactive.widget()@ == ButtonBoxView::initial(),
    {
        Reactive { inner: ButtonBox::new(), cx }
    }
}

/// Runs `modifier` on a fresh copy of `widget`.
fn modify_copy<T: Clone, F: Fn(&mut T)>(widget: &T, modifier: &F)
    requires
        forall|copy: &mut T| call_requires(*modifier, (copy,)),
    ensures
        exists|copy: &mut T| cloned(*widget, *copy) && call_ensures(*modifier, (copy,), ()),
{
    let mut copy = widget.clone();
    assert(cloned(*widget, copy));
    modifier(&mut copy);
}

/// Calls `leptos::create_effect` with an effect that runs `modifier` on a
/// copy of `widget`, and tells whether it did. `create_effect` panics on a
/// scope whose runtime has been disposed of, so the scope is tried first:
/// `leptos::store_value` stores nothing without a runtime, and
/// `StoredValue::try_get_value` then gives `None`, in which case no effect
/// is created. With a runtime, the stored unit value stays with the scope
/// until the scope is disposed of. Nothing is claimed of the result.
#[verifier::external_body]
fn register_effect<T: Clone + 'static, F: Fn(&mut T) + 'static>(
    cx: Scope,
    widget: T,
    modifier: F,
) -> (registered: bool)
    requires
        forall|copy: &mut T| call_requires(modifier, (copy,)),
{
    match leptos::store_value(cx, ()).try_get_value() {
        Some(()) => {
            leptos::create_effect(cx, move |_| modify_copy(&widget, &modifier));
            true
        },
        None => false,
    }
}

} // verus!
