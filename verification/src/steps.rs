//! The work that the engine does for a render, step by step.
//!
//! The engine is not called from here. The caller performs each step,
//! wherever a step that gives up can be contained, and reports how it ended;
//! what follows is decided here.

use crate::error::{parse_failure_message, RenderError};
use vstd::prelude::*;

verus! {

/// One piece of work for the engine. The steps of a render come in the
/// order in which they are written here.
#[derive(Clone, Copy, Debug, PartialEq, Eq, Structural)]
pub enum Step {
    /// Parse the markup into a document, with the engine's form of the
    /// options that the renderer works with.
    Parse,
    /// Make a font database and load the fonts of the machine into it.
    LoadFonts,
    /// Convert the text of the document into paths, with those fonts.
    ConvertText,
    /// Build the render tree from the document.
    BuildTree,
    /// Draw the render tree on the transparent raster, with the identity
    /// transform.
    Draw,
}

/// How a step ended.
pub enum StepOutcome {
    /// The step did its work.
    Done,
    /// The parser refused the markup.
    Refused(resvg::usvg::Error),
    /// The engine gave up in the middle of the step.
    GaveUp,
}

/// What follows a step.
#[derive(Debug, PartialEq, Eq)]
pub enum Next {
    /// Perform this step.
    Step(Step),
    /// Every step is done: the raster is ready to be handed in.
    Finish,
    /// The render has failed.
    Fail(RenderError),
}

impl Step {
    /// The step that comes after this one, if any.
    pub open spec fn successor(self) -> Option<Step> {
        match self {
            Step::Parse => Some(Step::LoadFonts),
            Step::LoadFonts => Some(Step::ConvertText),
            Step::ConvertText => Some(Step::BuildTree),
            Step::BuildTree => Some(Step::Draw),
            Step::Draw => None,
        }
    }

    /// The place of the step in the order, from 0.
    pub open spec fn position(self) -> nat {
        match self {
            Step::Parse => 0,
            Step::LoadFonts => 1,
            Step::ConvertText => 2,
            Step::BuildTree => 3,
            Step::Draw => 4,
        }
    }

    /// The step with which every render begins.
    pub fn first() -> (step: Step)
        ensures
            step == Step::Parse,
    {
        Step::Parse
    }
}

/// Decides what follows a step. A step that did its work is followed by its
/// successor, the last one by the end of the render; a refusal of the parser
/// is a parse error that carries the parser's text; a step on which the
/// engine gave up is an engine error.
pub fn next_step(step: Step, outcome: StepOutcome) -> (next: Next)
    ensures
        outcome is Done ==> next == (match step.successor() {
            Some(following) => Next::Step(following),
            None => Next::Finish,
        }),
        outcome matches StepOutcome::Refused(failure) ==> (next matches Next::Fail(error)
            && error is Parse && error.detail() == parse_failure_message(failure)),
        outcome is GaveUp ==> next == Next::Fail(RenderError::Engine),
{
    match outcome {
        StepOutcome::Done => match step {
            Step::Parse => Next::Step(Step::LoadFonts),
            Step::LoadFonts => Next::Step(Step::ConvertText),
            Step::ConvertText => Next::Step(Step::BuildTree),
            Step::BuildTree => Next::Step(Step::Draw),
            Step::Draw => Next::Finish,
        },
        StepOutcome::Refused(failure) => Next::Fail(RenderError::from_parse_failure(&failure)),
        StepOutcome::GaveUp => Next::Fail(RenderError::Engine),
    }
}

/// The steps are in one line: each successor comes one place later, only
/// drawing has none, and parsing is no step's successor. So a render whose
/// steps all do their work performs each step once, from parsing to
/// drawing.
pub proof fn lemma_steps_are_in_order(step: Step)
    ensures
        step.successor() matches Some(following) ==> following.position() == step.position() + 1,
        step.successor() is None <==> step == Step::Draw,
        step.position() == 0 <==> step == Step::Parse,
        step.position() <= 4,
{
}

} // verus!
