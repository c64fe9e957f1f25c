use vstd::prelude::*;
use crate::keys::{is_movement, movement_key, KeyInput};
use crate::panes::{
    buffer_lines, buffer_text, edited, empty_buffer, forward, insert_lines, replaced, Buffer,
};
use crate::status::{activate, inactivate, status_tint_spec, update, PaneStyle, Status, Tint};
use crate::text::line_views;
use crate::verdict::{finish_run, prepare_run, RunOutcome, Verdict};

verus! {

/// Index of the Input pane.
pub const INPUT: usize = 0;

/// Index of the Expected Output pane.
pub const EXPECTED: usize = 1;

/// Index of the Output pane, which only takes movement keys.
pub const OUTPUT: usize = 2;

/// The three panes, the focused one, and the status shown on all of them.
pub struct Session<'a> {
    pub input: Buffer<'a>,
    pub expected: Buffer<'a>,
    pub output: Buffer<'a>,
    pub focus: usize,
    pub status: Status,
}

/// The persisted part of a session: Input and Expected lines.
pub struct CachedInputs {
    pub input: Vec<String>,
    pub expected: Vec<String>,
}

impl<'a> Session<'a> {
    pub open spec fn wf(&self) -> bool {
        self.focus < 3
    }

    /// The session after the focus moves on to the next pane: the panes
    /// drop the verdict colours and show which one is focused.
    pub open spec fn switched(self) -> Session<'a> {
        Session { focus: ((self.focus + 1) % 3) as usize, status: Status::Idle, ..self }
    }

    /// Three empty panes, Input focused, nothing run yet.
    pub fn new() -> (r: Session<'a>)
        ensures
            r.wf(),
            r.focus == INPUT,
            r.status == Status::Idle,
            buffer_lines(r.input) == seq![Seq::<char>::empty()],
            buffer_lines(r.expected) == seq![Seq::<char>::empty()],
            buffer_lines(r.output) == seq![Seq::<char>::empty()],
    {
        Session {
            input: empty_buffer(),
            expected: empty_buffer(),
            output: empty_buffer(),
            focus: INPUT,
            status: Status::Idle,
        }
    }

    /// Moves the focus to the next pane; contents stay, the status returns
    /// to Idle.
    pub fn switch_focus(&mut self)
        requires
            old(self).wf(),
        ensures
            final(self).wf(),
            *final(self) == old(self).switched(),
    {
        self.focus = if self.focus == 2 {
            0
        } else {
            self.focus + 1
        };
        self.status = Status::Idle;
    }

    pub open spec fn accepts_spec(&self, input: KeyInput) -> bool {
        self.focus != OUTPUT || movement_key(input.key)
    }

    /// Whether an edit event reaches the focused buffer: the Output pane
    /// takes movement keys only.
    pub fn accepts(&self, input: &KeyInput) -> (r: bool)
        ensures
            r == self.accepts_spec(*input),
    {
        self.focus != OUTPUT || is_movement(input)
    }

    /// Handles an edit event: the focused buffer takes `input` where its
    /// pane accepts it; then the panes drop the verdict colours.
    pub fn edit(&mut self, input: &KeyInput)
        requires
            old(self).wf(),
        ensures
            final(self).wf(),
            final(self).focus == old(self).focus,
            final(self).status == Status::Idle,
            old(self).accepts_spec(*input) && old(self).focus == INPUT ==> final(self).input
                == edited(old(self).input, *input),
            old(self).accepts_spec(*input) && old(self).focus == EXPECTED
                ==> final(self).expected == edited(old(self).expected, *input),
            old(self).accepts_spec(*input) && old(self).focus == OUTPUT ==> final(self).output
                == edited(old(self).output, *input),
            !old(self).accepts_spec(*input) ==> final(self).input == old(self).input
                && final(self).expected == old(self).expected && final(self).output == old(
                self,
            ).output,
            old(self).focus != INPUT ==> final(self).input == old(self).input,
            old(self).focus != EXPECTED ==> final(self).expected == old(self).expected,
            old(self).focus != OUTPUT ==> final(self).output == old(self).output,
    {
        if self.accepts(input) {
            if self.focus == INPUT {
                forward(&mut self.input, input);
            } else if self.focus == EXPECTED {
                forward(&mut self.expected, input);
            } else {
                forward(&mut self.output, input);
            }
        }
        self.status = Status::Idle;
    }

    /// Style of pane `pane`: the verdict colour on every pane after a run,
    /// else emphasis on the focused pane and dim borders elsewhere.
    pub fn pane_style(&self, pane: usize) -> (r: PaneStyle)
        requires
            pane < 3,
        ensures
            r == pane_style_spec(*self, pane as int),
    {
        if self.status != Status::Idle {
            update(self.status)
        } else if pane == self.focus {
            activate()
        } else {
            inactivate()
        }
    }

    /// Text to feed to the program, or the verdict that ends the run at
    /// once when the Input pane is empty.
    pub fn prepare(&self) -> (r: Result<String, Verdict>)
        ensures
            crate::text::joined(buffer_lines(self.input)).len() == 0 <==> r is Err,
            r matches Ok(text) ==> text@ == crate::text::joined(buffer_lines(self.input)),
            r matches Err(v) ==> v.status == Status::Error && v.message@
                == crate::verdict::empty_input_message() && v.output is None,
    {
        let lines = buffer_text(&self.input);
        prepare_run(&lines)
    }

    /// Verdict on one launch of the program at `path`, against the Expected pane.
    pub fn judge(&self, outcome: &RunOutcome, path: &str) -> (r: Verdict)
        ensures
            crate::verdict::run_verdict(*outcome, buffer_lines(self.expected), path@, r),
    {
        let expected = buffer_text(&self.expected);
        finish_run(outcome, &expected, path)
    }

    /// Puts the status of a finished run on every pane and its lines, if
    /// any, into the Output pane; hands back the status and the message.
    pub fn conclude(&mut self, verdict: Verdict) -> (r: (Status, String))
        ensures
            r.0 == verdict.status,
            r.1 == verdict.message,
            final(self).status == verdict.status,
            final(self).focus == old(self).focus,
            final(self).input == old(self).input,
            final(self).expected == old(self).expected,
            verdict.output is None ==> final(self).output == old(self).output,
            verdict.output matches Some(lines) ==> buffer_lines(final(self).output) == replaced(
                line_views(lines@),
            ),
    {
        let Verdict { status, message, output } = verdict;
        match output {
            Some(lines) => insert_lines(&mut self.output, &lines),
            None => {},
        }
        self.status = status;
        (status, message)
    }

    /// The Input and Expected lines, as persisted.
    pub fn snapshot(&self) -> (r: CachedInputs)
        ensures
            line_views(r.input@) == buffer_lines(self.input),
            line_views(r.expected@) == buffer_lines(self.expected),
    {
        CachedInputs { input: buffer_text(&self.input), expected: buffer_text(&self.expected) }
    }

    /// Fills the Input and Expected panes from a persisted snapshot.
    pub fn restore(&mut self, cache: &CachedInputs)
        ensures
            buffer_lines(final(self).input) == replaced(line_views(cache.input@)),
            buffer_lines(final(self).expected) == replaced(line_views(cache.expected@)),
            final(self).output == old(self).output,
            final(self).focus == old(self).focus,
            final(self).status == old(self).status,
    {
        insert_lines(&mut self.input, &cache.input);
        insert_lines(&mut self.expected, &cache.expected);
    }
}

/// Style of pane `pane` in session `s`.
pub open spec fn pane_style_spec(s: Session, pane: int) -> PaneStyle {
    if s.status != Status::Idle {
        PaneStyle { border: status_tint_spec(s.status), emphasis: false }
    } else if pane == s.focus {
        PaneStyle { border: Tint::Plain, emphasis: true }
    } else {
        PaneStyle { border: Tint::DarkGray, emphasis: false }
    }
}

/// After a focus switch or an edit exactly the focused pane is emphasised.
pub proof fn lemma_one_pane_emphasised(s: Session, p: int)
    requires
        s.wf(),
        s.status == Status::Idle,
        0 <= p < 3,
    ensures
        pane_style_spec(s, p).emphasis <==> p == s.focus,
{
}

/// Switching the focus three times brings it back to the pane it started on,
/// with the active styling there and the inactive styling on the other two;
/// no switch changes a buffer.
pub proof fn lemma_switch_cycle(s: Session)
    requires
        s.wf(),
    ensures
        s.switched().switched().switched() == (Session { status: Status::Idle, ..s }),
        s.switched().input == s.input && s.switched().expected == s.expected
            && s.switched().output == s.output,
        forall|p: int|
            0 <= p < 3 ==> #[trigger] pane_style_spec(s.switched().switched().switched(), p)
                == (if p == s.focus {
                PaneStyle { border: Tint::Plain, emphasis: true }
            } else {
                PaneStyle { border: Tint::DarkGray, emphasis: false }
            }),
{
}

/// Restoring a snapshot into fresh panes gives back the lines of the panes
/// it was taken from (a buffer always holds at least one line).
pub proof fn lemma_cache_round_trip(s: Session, cache: CachedInputs, fresh: Session)
    requires
        buffer_lines(s.input).len() > 0,
        buffer_lines(s.expected).len() > 0,
        line_views(cache.input@) == buffer_lines(s.input),
        line_views(cache.expected@) == buffer_lines(s.expected),
        buffer_lines(fresh.input) == replaced(line_views(cache.input@)),
        buffer_lines(fresh.expected) == replaced(line_views(cache.expected@)),
    ensures
        buffer_lines(fresh.input) == buffer_lines(s.input),
        buffer_lines(fresh.expected) == buffer_lines(s.expected),
{
}

} // verus!
