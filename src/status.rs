use vstd::prelude::*;

verus! {

/// Outcome class of the most recent run, shown on every pane at once.
#[derive(Debug, Clone, Copy, PartialEq, Eq, Structural)]
pub enum Status {
    Pass,
    Fail,
    Error,
    Idle,
}

/// Border colour of a pane.
#[derive(Debug, Clone, Copy, PartialEq, Eq, Structural)]
pub enum Tint {
    Green,
    Red,
    Yellow,
    DarkGray,
    Plain,
}

/// Visual treatment of one pane.
#[derive(Debug, Clone, Copy, PartialEq, Eq, Structural)]
pub struct PaneStyle {
    pub border: Tint,
    /// Whether the cursor and the cursor line are emphasised.
    pub emphasis: bool,
}

pub open spec fn status_tint_spec(status: Status) -> Tint {
    match status {
        Status::Pass => Tint::Green,
        Status::Fail => Tint::Red,
        Status::Error => Tint::Yellow,
        Status::Idle => Tint::DarkGray,
    }
}

/// Colour that stands for a verdict class.
pub fn status_tint(status: Status) -> (r: Tint)
    ensures
        r == status_tint_spec(status),
{
    match status {
        Status::Pass => Tint::Green,
        Status::Fail => Tint::Red,
        Status::Error => Tint::Yellow,
        Status::Idle => Tint::DarkGray,
    }
}

/// Style after a run: every pane shows the verdict colour, no emphasis.
pub fn update(status: Status) -> (r: PaneStyle)
    ensures
        r == (PaneStyle { border: status_tint_spec(status), emphasis: false }),
{
    PaneStyle { border: status_tint(status), emphasis: false }
}

/// Style of a pane that does not hold the focus.
pub fn inactivate() -> (r: PaneStyle)
    ensures
        r == (PaneStyle { border: Tint::DarkGray, emphasis: false }),
{
    PaneStyle { border: Tint::DarkGray, emphasis: false }
}

/// Style of the pane that holds the focus.
pub fn activate() -> (r: PaneStyle)
    ensures
        r == (PaneStyle { border: Tint::Plain, emphasis: true }),
{
    PaneStyle { border: Tint::Plain, emphasis: true }
}

} // verus!
