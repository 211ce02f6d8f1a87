//! The result of event handling, and its conversions from widget outcomes.

use vstd::prelude::*;

verus! {

/// What the event loop should do after an event has been handled.
#[derive(Debug, Clone, Copy, PartialEq, Eq, PartialOrd, Ord)]
#[must_use]
pub enum Control<Action> {
    /// Continue operations.
    Continue,
    /// Break handling the current event.
    Break,
    /// Trigger a repaint.
    Repaint,
    /// Trigger an action.
    Action(Action),
    /// Quit the application.
    Quit,
}

impl<Action> Control<Action> {
    /// Whether the event was consumed: every result except `Continue`.
    pub fn is_consumed(&self) -> (r: bool)
        ensures
            r <==> !(*self is Continue),
    {
        match self {
            Control::Continue => false,
            _ => true,
        }
    }
}

} // verus!

verus! {

/// The outcome a plain widget reports for an event.
#[derive(Debug, Clone, Copy, PartialEq, Eq, PartialOrd, Ord)]
pub enum Outcome {
    /// The event has not been used at all.
    Continue,
    /// The event has been recognized, but nothing noticeable changed.
    Unchanged,
    /// The event has been recognized and something changed.
    Changed,
}

/// The outcome a menu reports for an event.
#[derive(Debug, Clone, Copy, PartialEq, Eq, PartialOrd, Ord)]
pub enum MenuOutcome {
    /// The event was not handled at all.
    Continue,
    /// The event was handled, no repaint necessary.
    Unchanged,
    /// The event was handled, repaint necessary.
    Changed,
    /// A popup should be hidden.
    Hide,
    /// A menu item was selected.
    Selected(usize),
    /// A menu item was activated.
    Activated(usize),
    /// A popup menu item was selected: (main index, popup index).
    MenuSelected(usize, usize),
    /// A popup menu item was activated: (main index, popup index).
    MenuActivated(usize, usize),
}

/// The outcome a button reports for an event.
#[derive(Debug, Clone, Copy, PartialEq, Eq, PartialOrd, Ord)]
pub enum ButtonOutcome {
    /// The event was not handled at all.
    Continue,
    /// The event was handled, no repaint necessary.
    Unchanged,
    /// The event was handled, repaint necessary.
    Changed,
    /// The button has been pressed.
    Pressed,
}

/// The outcome a text widget reports for an event.
#[derive(Debug, Clone, Copy, PartialEq, Eq, PartialOrd, Ord)]
pub enum TextOutcome {
    /// The event has not been used at all.
    Continue,
    /// The event has been recognized, but the result was nil.
    Unchanged,
    /// The event has been recognized and something changed.
    Changed,
    /// The text content has changed.
    TextChanged,
}

/// The outcome a scrolled widget reports for an event.
#[derive(Debug, Clone, Copy, PartialEq, Eq, PartialOrd, Ord)]
pub enum ScrollOutcome {
    /// The event has not been used at all.
    Continue,
    /// The event has been recognized, but the result was nil.
    Unchanged,
    /// The event has been recognized and something changed.
    Changed,
    /// Scroll up by this delta.
    Up(usize),
    /// Scroll down by this delta.
    Down(usize),
    /// Scroll left by this delta.
    Left(usize),
    /// Scroll right by this delta.
    Right(usize),
    /// Scroll to this vertical position.
    VPos(usize),
    /// Scroll to this horizontal position.
    HPos(usize),
}

/// The outcome a table reports for a double click.
#[derive(Debug, Clone, Copy, PartialEq, Eq, PartialOrd, Ord)]
pub enum DoubleClickOutcome {
    /// The event has not been used at all.
    Continue,
    /// The event has been recognized, but the result was nil.
    Unchanged,
    /// The event has been recognized and something changed.
    Changed,
    /// A double click occurred at (column, row).
    ClickClick(usize, usize),
}

/// An outcome maps to a control by how far it got: unused events continue,
/// handled events without a change break, and every change repaints.
pub open spec fn control_of_outcome<A>(value: Outcome) -> Control<A> {
    match value {
        Outcome::Continue => Control::Continue,
        Outcome::Unchanged => Control::Break,
        Outcome::Changed => Control::Repaint,
    }
}

pub open spec fn control_of_menu_outcome<A>(value: MenuOutcome) -> Control<A> {
    match value {
        MenuOutcome::Continue => Control::Continue,
        MenuOutcome::Unchanged => Control::Break,
        _ => Control::Repaint,
    }
}

pub open spec fn control_of_button_outcome<A>(value: ButtonOutcome) -> Control<A> {
    match value {
        ButtonOutcome::Continue => Control::Continue,
        ButtonOutcome::Unchanged => Control::Break,
        _ => Control::Repaint,
    }
}

pub open spec fn control_of_text_outcome<A>(value: TextOutcome) -> Control<A> {
    match value {
        TextOutcome::Continue => Control::Continue,
        TextOutcome::Unchanged => Control::Break,
        _ => Control::Repaint,
    }
}

pub open spec fn control_of_scroll_outcome<A>(value: ScrollOutcome) -> Control<A> {
    match value {
        ScrollOutcome::Continue => Control::Continue,
        ScrollOutcome::Unchanged => Control::Break,
        _ => Control::Repaint,
    }
}

pub open spec fn control_of_double_click_outcome<A>(value: DoubleClickOutcome) -> Control<A> {
    match value {
        DoubleClickOutcome::Continue => Control::Continue,
        DoubleClickOutcome::Unchanged => Control::Break,
        _ => Control::Repaint,
    }
}

impl<A> From<ScrollOutcome> for Control<A> {
    fn from(value: ScrollOutcome) -> (r: Self) {
        match value {
            ScrollOutcome::Continue => Control::Continue,
            ScrollOutcome::Unchanged => Control::Break,
            ScrollOutcome::Changed => Control::Repaint,
            ScrollOutcome::Up(_) => Control::Repaint,
            ScrollOutcome::Down(_) => Control::Repaint,
            ScrollOutcome::Left(_) => Control::Repaint,
            ScrollOutcome::Right(_) => Control::Repaint,
            ScrollOutcome::VPos(_) => Control::Repaint,
            ScrollOutcome::HPos(_) => Control::Repaint,
        }
    }
}

impl<A> vstd::std_specs::convert::FromSpecImpl<ScrollOutcome> for Control<A> {
    open spec fn obeys_from_spec() -> bool {
        true
    }

    open spec fn from_spec(v: ScrollOutcome) -> Self {
        control_of_scroll_outcome(v)
    }
}

impl<A> From<DoubleClickOutcome> for Control<A> {
    fn from(value: DoubleClickOutcome) -> (r: Self) {
        match value {
            DoubleClickOutcome::Continue => Control::Continue,
            DoubleClickOutcome::Unchanged => Control::Break,
            DoubleClickOutcome::Changed => Control::Repaint,
            DoubleClickOutcome::ClickClick(_, _) => Control::Repaint,
        }
    }
}

impl<A> vstd::std_specs::convert::FromSpecImpl<DoubleClickOutcome> for Control<A> {
    open spec fn obeys_from_spec() -> bool {
        true
    }

    open spec fn from_spec(v: DoubleClickOutcome) -> Self {
        control_of_double_click_outcome(v)
    }
}

impl<A> From<Outcome> for Control<A> {
    fn from(value: Outcome) -> (r: Self) {
        match value {
            Outcome::Continue => Control::Continue,
            Outcome::Unchanged => Control::Break,
            Outcome::Changed => Control::Repaint,
        }
    }
}

impl<A> vstd::std_specs::convert::FromSpecImpl<Outcome> for Control<A> {
    open spec fn obeys_from_spec() -> bool {
        true
    }

    open spec fn from_spec(v: Outcome) -> Self {
        control_of_outcome(v)
    }
}

impl<A> From<MenuOutcome> for Control<A> {
    fn from(value: MenuOutcome) -> (r: Self) {
        match value {
            MenuOutcome::Continue => Control::Continue,
            MenuOutcome::Unchanged => Control::Break,
            MenuOutcome::Changed => Control::Repaint,
            MenuOutcome::Hide => Control::Repaint,
            MenuOutcome::Selected(_) => Control::Repaint,
            MenuOutcome::Activated(_) => Control::Repaint,
            MenuOutcome::MenuSelected(_, _) => Control::Repaint,
            MenuOutcome::MenuActivated(_, _) => Control::Repaint,
        }
    }
}

impl<A> vstd::std_specs::convert::FromSpecImpl<MenuOutcome> for Control<A> {
    open spec fn obeys_from_spec() -> bool {
        true
    }

    open spec fn from_spec(v: MenuOutcome) -> Self {
        control_of_menu_outcome(v)
    }
}

impl<A> From<ButtonOutcome> for Control<A> {
    fn from(value: ButtonOutcome) -> (r: Self) {
        match value {
            ButtonOutcome::Continue => Control::Continue,
            ButtonOutcome::Unchanged => Control::Break,
            ButtonOutcome::Changed => Control::Repaint,
            ButtonOutcome::Pressed => Control::Repaint,
        }
    }
}

impl<A> vstd::std_specs::convert::FromSpecImpl<ButtonOutcome> for Control<A> {
    open spec fn obeys_from_spec() -> bool {
        true
    }

    open spec fn from_spec(v: ButtonOutcome) -> Self {
        control_of_button_outcome(v)
    }
}

impl<A> From<TextOutcome> for Control<A> {
    fn from(value: TextOutcome) -> (r: Self) {
        match value {
            TextOutcome::Continue => Control::Continue,
            TextOutcome::Unchanged => Control::Break,
            TextOutcome::Changed => Control::Repaint,
            TextOutcome::TextChanged => Control::Repaint,
        }
    }
}

impl<A> vstd::std_specs::convert::FromSpecImpl<TextOutcome> for Control<A> {
    open spec fn obeys_from_spec() -> bool {
        true
    }

    open spec fn from_spec(v: TextOutcome) -> Self {
        control_of_text_outcome(v)
    }
}

/// Converting a widget's outcome keeps whether the event was consumed: only
/// an unused event continues, and a handled event without a change breaks.
pub proof fn lemma_conversion_keeps_consumption<A>(
    o: Outcome,
    m: MenuOutcome,
    b: ButtonOutcome,
    t: TextOutcome,
    sc: ScrollOutcome,
    dc: DoubleClickOutcome,
)
    ensures
        control_of_outcome::<A>(o) is Continue <==> o is Continue,
        control_of_menu_outcome::<A>(m) is Continue <==> m is Continue,
        control_of_button_outcome::<A>(b) is Continue <==> b is Continue,
        control_of_text_outcome::<A>(t) is Continue <==> t is Continue,
        control_of_outcome::<A>(o) is Break <==> o is Unchanged,
        control_of_menu_outcome::<A>(m) is Break <==> m is Unchanged,
        control_of_button_outcome::<A>(b) is Break <==> b is Unchanged,
        control_of_text_outcome::<A>(t) is Break <==> t is Unchanged,
        !(control_of_outcome::<A>(o) is Action || control_of_outcome::<A>(o) is Quit),
        !(control_of_menu_outcome::<A>(m) is Action || control_of_menu_outcome::<A>(m) is Quit),
        !(control_of_button_outcome::<A>(b) is Action || control_of_button_outcome::<A>(b) is Quit),
        !(control_of_text_outcome::<A>(t) is Action || control_of_text_outcome::<A>(t) is Quit),
        control_of_scroll_outcome::<A>(sc) is Continue <==> sc is Continue,
        control_of_double_click_outcome::<A>(dc) is Continue <==> dc is Continue,
        control_of_scroll_outcome::<A>(sc) is Break <==> sc is Unchanged,
        control_of_double_click_outcome::<A>(dc) is Break <==> dc is Unchanged,
        !(control_of_scroll_outcome::<A>(sc) is Action || control_of_scroll_outcome::<A>(sc) is Quit),
        !(control_of_double_click_outcome::<A>(dc) is Action
            || control_of_double_click_outcome::<A>(dc) is Quit),
{
}

} // verus!
