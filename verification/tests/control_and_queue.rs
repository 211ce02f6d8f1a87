use rat_salsa2::queue::{poll_queued, read_queued, QueueEmpty};
use rat_salsa2::{
    ButtonOutcome, Control, DoubleClickOutcome, MenuOutcome, NonExhaustive, Outcome, Queue,
    RunConfig, ScrollOutcome, TextOutcome,
};

#[test]
fn only_continue_is_not_consumed() {
    assert!(!Control::<u8>::Continue.is_consumed());
    assert!(Control::<u8>::Break.is_consumed());
    assert!(Control::<u8>::Repaint.is_consumed());
    assert!(Control::<u8>::Action(0).is_consumed());
    assert!(Control::<u8>::Quit.is_consumed());
}

#[test]
fn outcome_conversions() {
    assert_eq!(Control::<u8>::from(Outcome::Continue), Control::Continue);
    assert_eq!(Control::<u8>::from(Outcome::Unchanged), Control::Break);
    assert_eq!(Control::<u8>::from(Outcome::Changed), Control::Repaint);
}

#[test]
fn menu_outcome_conversions() {
    assert_eq!(Control::<u8>::from(MenuOutcome::Continue), Control::Continue);
    assert_eq!(Control::<u8>::from(MenuOutcome::Unchanged), Control::Break);
    assert_eq!(Control::<u8>::from(MenuOutcome::Changed), Control::Repaint);
    assert_eq!(Control::<u8>::from(MenuOutcome::Hide), Control::Repaint);
    assert_eq!(Control::<u8>::from(MenuOutcome::Selected(3)), Control::Repaint);
    assert_eq!(Control::<u8>::from(MenuOutcome::Activated(0)), Control::Repaint);
    assert_eq!(Control::<u8>::from(MenuOutcome::MenuSelected(1, 2)), Control::Repaint);
    assert_eq!(Control::<u8>::from(MenuOutcome::MenuActivated(1, 2)), Control::Repaint);
}

#[test]
fn button_and_text_outcome_conversions() {
    assert_eq!(Control::<u8>::from(ButtonOutcome::Continue), Control::Continue);
    assert_eq!(Control::<u8>::from(ButtonOutcome::Unchanged), Control::Break);
    assert_eq!(Control::<u8>::from(ButtonOutcome::Changed), Control::Repaint);
    assert_eq!(Control::<u8>::from(ButtonOutcome::Pressed), Control::Repaint);
    assert_eq!(Control::<u8>::from(TextOutcome::Continue), Control::Continue);
    assert_eq!(Control::<u8>::from(TextOutcome::Unchanged), Control::Break);
    assert_eq!(Control::<u8>::from(TextOutcome::Changed), Control::Repaint);
    assert_eq!(Control::<u8>::from(TextOutcome::TextChanged), Control::Repaint);
}

#[test]
fn scroll_outcome_conversions() {
    assert_eq!(Control::<u8>::from(ScrollOutcome::Continue), Control::Continue);
    assert_eq!(Control::<u8>::from(ScrollOutcome::Unchanged), Control::Break);
    assert_eq!(Control::<u8>::from(ScrollOutcome::Changed), Control::Repaint);
    assert_eq!(Control::<u8>::from(ScrollOutcome::Up(1)), Control::Repaint);
    assert_eq!(Control::<u8>::from(ScrollOutcome::Down(2)), Control::Repaint);
    assert_eq!(Control::<u8>::from(ScrollOutcome::Left(3)), Control::Repaint);
    assert_eq!(Control::<u8>::from(ScrollOutcome::Right(4)), Control::Repaint);
    assert_eq!(Control::<u8>::from(ScrollOutcome::VPos(5)), Control::Repaint);
    assert_eq!(Control::<u8>::from(ScrollOutcome::HPos(6)), Control::Repaint);
}

#[test]
fn double_click_outcome_conversions() {
    assert_eq!(Control::<u8>::from(DoubleClickOutcome::Continue), Control::Continue);
    assert_eq!(Control::<u8>::from(DoubleClickOutcome::Unchanged), Control::Break);
    assert_eq!(Control::<u8>::from(DoubleClickOutcome::Changed), Control::Repaint);
    assert_eq!(Control::<u8>::from(DoubleClickOutcome::ClickClick(2, 7)), Control::Repaint);
}

#[test]
fn conversion_keeps_consumption() {
    for o in [Outcome::Continue, Outcome::Unchanged, Outcome::Changed] {
        let c: Control<u8> = o.into();
        assert_eq!(c.is_consumed(), o != Outcome::Continue);
    }
}

#[test]
fn controls_are_ordered_by_variant() {
    assert!(Control::<u8>::Continue < Control::Break);
    assert!(Control::<u8>::Repaint < Control::Action(0));
    assert!(Control::<u8>::Action(9) < Control::Quit);
}

#[test]
fn queue_is_first_in_first_out() {
    let mut q: Queue<u32> = Queue::default();
    assert!(!poll_queued(&q));
    assert_eq!(read_queued(&mut q), Err(QueueEmpty));
    q.queue(1);
    q.queue(2);
    assert!(poll_queued(&q));
    assert_eq!(read_queued(&mut q), Ok(1));
    q.queue(3);
    assert_eq!(read_queued(&mut q), Ok(2));
    assert_eq!(read_queued(&mut q), Ok(3));
    assert!(!poll_queued(&q));
    assert_eq!(read_queued(&mut q), Err(QueueEmpty));
}

#[test]
fn default_run_config_has_one_worker() {
    assert_eq!(RunConfig::default().n_threats, 1);
}

#[test]
fn non_exhaustive_marker_is_plain() {
    assert_eq!(NonExhaustive, NonExhaustive);
}
