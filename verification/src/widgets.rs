//! The widgets of the volume window, as plain values.
//!
//! Each widget records what was set on it and nothing else; a toolkit draws
//! the window from these values.

use crate::audio::{mixer_invocation, outcome_result, AudioControls, Invocation, ProcessOutcome, VolumeError};
use crate::diff::DiffValue;
use vstd::prelude::*;

verus! {

/// The direction in which a [`ButtonBox`] lines up its children.
#[derive(Debug, Clone, Copy, PartialEq, Eq, Structural)]
pub enum Orientation {
    Horizontal,
    Vertical,
}

/// A push button that may change the volume when clicked.
#[derive(Debug)]
pub struct Button {
    label: Option<String>,
    margin_top: i32,
    margin_bottom: i32,
    margin_start: i32,
    margin_end: i32,
    clicked: Option<DiffValue>,
}

/// What a [`Button`] holds.
pub struct ButtonView {
    pub label: Option<Seq<char>>,
    pub margin_top: int,
    pub margin_bottom: int,
    pub margin_start: int,
    pub margin_end: int,
    /// The volume change, in percent, that a click asks for.
    pub clicked: Option<int>,
}

impl ButtonView {
    /// A button as it is created: no label, no margins, nothing to do on a
    /// click.
    pub open spec fn initial() -> ButtonView {
        ButtonView {
            label: None,
            margin_top: 0,
            margin_bottom: 0,
            margin_start: 0,
            margin_end: 0,
            clicked: None,
        }
    }
}

impl View for Button {
    type V = ButtonView;

    closed spec fn view(&self) -> ButtonView {
        ButtonView {
            label: match self.label {
                Some(text) => Some(text@),
                None => None,
            },
            margin_top: self.margin_top as int,
            margin_bottom: self.margin_bottom as int,
            margin_start: self.margin_start as int,
            margin_end: self.margin_end as int,
            clicked: match self.clicked {
                Some(diff) => Some(diff@),
                None => None,
            },
        }
    }
}

impl Clone for Button {
    fn clone(&self) -> (copy: Self)
        ensures
            copy@ == self@,
    {
        Button {
            label: match &self.label {
                Some(text) => Some(text.clone()),
                None => None,
            },
            margin_top: self.margin_top,
            margin_bottom: self.margin_bottom,
            margin_start: self.margin_start,
            margin_end: self.margin_end,
            clicked: self.clicked,
        }
    }
}

impl Button {
    /// A button without label, margins or click action.
    pub fn new() -> (button: Self)
        ensures
            button@ == ButtonView::initial(),
    {
        Button {
            label: None,
            margin_top: 0,
            margin_bottom: 0,
            margin_start: 0,
            margin_end: 0,
            clicked: None,
        }
    }

    /// Sets the text shown on the button.
    pub fn set_label(&mut self, label: &str)
        ensures
            final(self)@ == (ButtonView { label: Some(label@), ..old(self)@ }),
    {
        self.label = Some(label.to_owned());
    }

    /// Sets the space above the button.
    pub fn set_margin_top(&mut self, margin: i32)
        ensures
            final(self)@ == (ButtonView { margin_top: margin as int, ..old(self)@ }),
    {
        self.margin_top = margin;
    }

    /// Sets the space below the button.
    pub fn set_margin_bottom(&mut self, margin: i32)
        ensures
            final(self)@ == (ButtonView { margin_bottom: margin as int, ..old(self)@ }),
    {
        self.margin_bottom = margin;
    }

    /// Sets the space before the button.
    pub fn set_margin_start(&mut self, margin: i32)
        ensures
            final(self)@ == (ButtonView { margin_start: margin as int, ..old(self)@ }),
    {
        self.margin_start = margin;
    }

    /// Sets the space after the button.
    pub fn set_margin_end(&mut self, margin: i32)
        ensures
            final(self)@ == (ButtonView { margin_end: margin as int, ..old(self)@ }),
    {
        self.margin_end = margin;
    }

    /// Makes a click change the volume by `diff` percent, in place of
    /// whatever a click did before.
    pub fn connect_clicked(&mut self, diff: DiffValue)
        ensures
            final(self)@ == (ButtonView { clicked: Some(diff@), ..old(self)@ }),
    {
        self.clicked = Some(diff);
    }

    /// The text shown on the button, if one was set.
    pub fn label(&self) -> (label: Option<&String>)
        ensures
            match label {
                Some(text) => self@.label == Some(text@),
                None => self@.label is None,
            },
    {
        self.label.as_ref()
    }

    /// The space above the button.
    pub fn margin_top(&self) -> (margin: i32)
        ensures
            margin == self@.margin_top,
    {
        self.margin_top
    }

    /// The space below the button.
    pub fn margin_bottom(&self) -> (margin: i32)
        ensures
            margin == self@.margin_bottom,
    {
        self.margin_bottom
    }

    /// The space before the button.
    pub fn margin_start(&self) -> (margin: i32)
        ensures
            margin == self@.margin_start,
    {
        self.margin_start
    }

    /// The space after the button.
    pub fn margin_end(&self) -> (margin: i32)
        ensures
            margin == self@.margin_end,
    {
        self.margin_end
    }

    /// The volume change that a click asks for, if any.
    pub fn clicked(&self) -> (diff: Option<DiffValue>)
        ensures
            match diff {
                Some(diff) => self@.clicked == Some(diff@),
                None => self@.clicked is None,
            },
    {
        self.clicked
    }

    /// Acts on a click. A button without click action does nothing and
    /// returns `None`; otherwise the volume change is carried out through
    /// `run`, as [`AudioControls::change_volume_percent`] does it.
    pub fn click<R>(&self, run: R) -> (result: Option<Result<(), VolumeError>>)
        where R: FnOnce(Invocation) -> ProcessOutcome
        requires
            forall|diff: int, invocation: Invocation|
                self@.clicked == Some(diff) && invocation@ == mixer_invocation(diff)
                    ==> call_requires(run, (invocation,)),
        ensures
            match self@.clicked {
                None => result is None,
                Some(diff) => exists|invocation: Invocation, outcome: ProcessOutcome|
                    invocation@ == mixer_invocation(diff)
                    && call_ensures(run, (invocation,), outcome)
                    && result == Some(outcome_result(outcome)),
            },
    {
        match self.clicked {
            None => None,
            Some(diff) => Some(AudioControls::change_volume_percent(diff, run)),
        }
    }
}

/// A container that lines up buttons in one direction.
#[derive(Debug)]
pub struct ButtonBox {
    orientation: Orientation,
    children: Vec<Button>,
}

/// What a [`ButtonBox`] holds.
pub struct ButtonBoxView {
    pub orientation: Orientation,
    /// The buttons, in the order in which they were appended.
    pub children: Seq<ButtonView>,
}

impl ButtonBoxView {
    /// A container as it is created: horizontal and empty.
    pub open spec fn initial() -> ButtonBoxView {
        ButtonBoxView { orientation: Orientation::Horizontal, children: Seq::empty() }
    }
}

impl View for ButtonBox {
    type V = ButtonBoxView;

    closed spec fn view(&self) -> ButtonBoxView {
        ButtonBoxView {
            orientation: self.orientation,
            children: Seq::new(self.children@.len(), |i: int| self.children@[i]@),
        }
    }
}

impl Clone for ButtonBox {
    fn clone(&self) -> (copy: Self)
        ensures
            copy@ == self@,
    {
        let mut children: Vec<Button> = Vec::new();
        let mut i: usize = 0;
        while i < self.children.len()
            invariant
                i <= self.children@.len(),
                children@.len() == i,
                forall|k: int| 0 <= k < i ==> children@[k]@ == self.children@[k]@,
            decreases self.children@.len() - i,
        {
            children.push(self.children[i].clone());
            i += 1;
        }
        let copy = ButtonBox { orientation: self.orientation, children };
        assert(copy@.children =~= self@.children);
        copy
    }
}

impl ButtonBox {
    /// An empty, horizontal container.
    pub fn new() -> (container: Self)
        ensures
            container@ == ButtonBoxView::initial(),
    {
        let container = ButtonBox { orientation: Orientation::Horizontal, children: Vec::new() };
        assert(container@.children =~= Seq::<ButtonView>::empty());
        container
    }

    /// Sets the direction in which the children are lined up.
    pub fn set_orientation(&mut self, orientation: Orientation)
        ensures
            final(self)@ == (ButtonBoxView { orientation, ..old(self)@ }),
    {
        self.orientation = orientation;
        assert(self@.children =~= old(self)@.children);
    }

    /// Adds a copy of `child` behind the children that are there.
    pub fn append(&mut self, child: &Button)
        ensures
            final(self)@ == (ButtonBoxView {
                children: old(self)@.children.push(child@),
                ..old(self)@
            }),
    {
        self.children.push(child.clone());
        assert(self@.children =~= old(self)@.children.push(child@));
    }

    /// The direction in which the children are lined up.
    pub fn orientation(&self) -> (orientation: Orientation)
        ensures
            orientation == self@.orientation,
    {
        self.orientation
    }

    /// The buttons, in the order in which they were appended.
    pub fn children(&self) -> (children: &Vec<Button>)
        ensures
            children@.len() == self@.children.len(),
            forall|i: int| 0 <= i < children@.len() ==> children@[i]@ == self@.children[i],
    {
        &self.children
    }
}

/// The application that windows belong to, known by its identifier.
#[derive(Debug)]
pub struct Application {
    application_id: String,
}

impl View for Application {
    type V = Seq<char>;

    /// The application identifier.
    closed spec fn view(&self) -> Seq<char> {
        self.application_id@
    }
}

impl Application {
    /// An application with the given identifier.
    pub fn new(application_id: String) -> (application: Self)
        ensures
            application@ == application_id@,
    {
        Application { application_id }
    }

    /// The application identifier.
    pub fn application_id(&self) -> (id: &String)
        ensures
            id@ == self@,
    {
        &self.application_id
    }
}

/// A top-level window of an application.
#[derive(Debug)]
pub struct ApplicationWindow {
    application_id: String,
    child: Option<ButtonBox>,
    presented: bool,
}

/// What an [`ApplicationWindow`] holds.
pub struct WindowView {
    /// The identifier of the application that the window belongs to.
    pub application_id: Seq<char>,
    pub child: Option<ButtonBoxView>,
    /// Whether the window has been shown to the user.
    pub presented: bool,
}

impl WindowView {
    /// A window as it is created for an application: empty and not shown.
    pub open spec fn initial(application_id: Seq<char>) -> WindowView {
        WindowView { application_id, child: None, presented: false }
    }
}

impl View for ApplicationWindow {
    type V = WindowView;

    closed spec fn view(&self) -> WindowView {
        WindowView {
            application_id: self.application_id@,
            child: match self.child {
                Some(child) => Some(child@),
                None => None,
            },
            presented: self.presented,
        }
    }
}

impl Clone for ApplicationWindow {
    fn clone(&self) -> (copy: Self)
        ensures
            copy@ == self@,
    {
        ApplicationWindow {
            application_id: self.application_id.clone(),
            child: match &self.child {
                Some(child) => Some(child.clone()),
                None => None,
            },
            presented: self.presented,
        }
    }
}

impl ApplicationWindow {
    /// An empty window of `application` that has not been shown.
    pub fn new(application: &Application) -> (window: Self)
        ensures
            window@ == WindowView::initial(application@),
    {
        ApplicationWindow {
            application_id: application.application_id().clone(),
            child: None,
            presented: false,
        }
    }

    /// Puts a copy of `child` into the window, in place of what was there,
    /// or empties the window.
    pub fn set_child(&mut self, child: Option<&ButtonBox>)
        ensures
            final(self)@ == (WindowView {
                child: match child {
                    Some(child) => Some(child@),
                    None => None,
                },
                ..old(self)@
            }),
    {
        self.child = match child {
            Some(child) => Some(child.clone()),
            None => None,
        };
    }

    /// Shows the window to the user.
    pub fn present(&mut self)
        ensures
            final(self)@ == (WindowView { presented: true, ..old(self)@ }),
    {
        self.presented = true;
    }

    /// The identifier of the application that the window belongs to.
    pub fn application_id(&self) -> (id: &String)
        ensures
            id@ == self@.application_id,
    {
        &self.application_id
    }

    /// What the window contains, if anything.
    pub fn child(&self) -> (child: Option<&ButtonBox>)
        ensures
            match child {
                Some(child) => self@.child == Some(child@),
                None => self@.child is None,
            },
    {
        self.child.as_ref()
    }

    /// Whether the window has been shown to the user.
    pub fn is_presented(&self) -> (presented: bool)
        ensures
            presented == self@.presented,
    {
        self.presented
    }
}

} // verus!
