//! What one run of the helper does, step by step.

use vstd::prelude::*;
use vstd::string::*;
use crate::capture::{
    clipboard_mime_type, kill_argument_texts, kill_arguments, kill_program,
    recorder_program, recording_argument_texts, recording_arguments, recording_delay_seconds,
    recording_notice, recording_notice_text, screenshot_argument_texts, screenshot_arguments,
    screenshot_notice, screenshot_notice_text, screenshot_program, CaptureTarget,
};
use crate::selector::texts;

verus! {

/// What the user asked for.
#[derive(Clone, Copy, Debug, PartialEq, Eq, Structural)]
pub enum Subcommand {
    /// Take a screenshot, to the clipboard where `copy` is set, else to a file.
    Screenshot { copy: bool },
    /// Start a video recording, with sound where `audio` is set.
    Record { audio: bool },
    /// Stop every recording.
    Kill,
}

/// The part of the screen that a capture takes in.
#[derive(Clone, Debug, PartialEq, Eq)]
pub enum Region {
    /// No selection was asked for: the whole screen.
    Whole,
    /// A selection was asked for and the user gave none.
    Cancelled,
    /// The geometry that the user selected.
    Chosen(String),
}

/// One step of a run. A step that fails ends the run.
#[derive(Clone, Debug, PartialEq, Eq)]
pub enum Step {
    /// Start a program, wait for it to end and keep what it printed.
    Run { program: String, arguments: Vec<String> },
    /// Start a program and leave it running.
    Spawn { program: String, arguments: Vec<String> },
    /// Put what the last program printed on the clipboard, byte for byte,
    /// under this type.
    CopyOutput { mime_type: String },
    /// Show a notice on the desktop.
    Notify { message: String },
    /// Wait.
    Pause { seconds: u64 },
}

/// A step as plain text.
pub enum StepText {
    Run { program: Seq<char>, arguments: Seq<Seq<char>> },
    Spawn { program: Seq<char>, arguments: Seq<Seq<char>> },
    CopyOutput { mime_type: Seq<char> },
    Notify { message: Seq<char> },
    Pause { seconds: u64 },
}

impl View for Step {
    type V = StepText;

    open spec fn view(&self) -> StepText {
        match *self {
            Step::Run { program, arguments } => StepText::Run {
                program: program@,
                arguments: texts(arguments@),
            },
            Step::Spawn { program, arguments } => StepText::Spawn {
                program: program@,
                arguments: texts(arguments@),
            },
            Step::CopyOutput { mime_type } => StepText::CopyOutput { mime_type: mime_type@ },
            Step::Notify { message } => StepText::Notify { message: message@ },
            Step::Pause { seconds } => StepText::Pause { seconds },
        }
    }
}

/// The steps of a run as plain text.
pub open spec fn step_texts(steps: Seq<Step>) -> Seq<StepText> {
    steps.map_values(|s: Step| s@)
}

/// Whether the user is asked to select a region: where the selection flag is
/// set, unless recordings are to be stopped.
pub open spec fn asks_for_region(selection: bool, subcommand: Subcommand) -> bool {
    selection && subcommand != Subcommand::Kill
}

/// The extension of the file that a capture is stored in, where it is stored
/// in one.
pub open spec fn extension_text(subcommand: Subcommand) -> Option<Seq<char>> {
    match subcommand {
        Subcommand::Screenshot { copy } => if copy {
            None
        } else {
            Some("png"@)
        },
        Subcommand::Record { audio } => Some("mp4"@),
        Subcommand::Kill => None,
    }
}

/// The region as the capture tools are told it.
pub open spec fn region_argument(region: Region) -> Option<String> {
    match region {
        Region::Chosen(geometry) => Some(geometry),
        _ => None,
    }
}

/// Stopping every recording: the interrupt signal to all recorders, then a
/// notice.
pub open spec fn kill_plan_texts() -> Seq<StepText> {
    seq![
        StepText::Run { program: "killall"@, arguments: kill_argument_texts() },
        StepText::Notify { message: "stopped recording"@ },
    ]
}

/// A selection that the user cancelled: a notice and nothing else.
pub open spec fn cancelled_plan_texts() -> Seq<StepText> {
    seq![StepText::Notify { message: "cancelled selection"@ }]
}

/// A screenshot: the capture, for the clipboard the copy of what it printed,
/// then a notice.
pub open spec fn screenshot_plan_texts(region: Option<String>, target: CaptureTarget) -> Seq<
    StepText,
> {
    let capture = StepText::Run {
        program: "grim"@,
        arguments: screenshot_argument_texts(region, target),
    };
    let notice = StepText::Notify { message: screenshot_notice_text(target) };
    match target {
        CaptureTarget::File(_) => seq![capture, notice],
        CaptureTarget::Clipboard => seq![
            capture,
            StepText::CopyOutput { mime_type: "image/png"@ },
            notice,
        ],
    }
}

/// A recording: a notice, two seconds for the user to read it, then the
/// recorder, which is left running.
pub open spec fn recording_plan_texts(region: Option<String>, path: Seq<char>, audio: bool) -> Seq<
    StepText,
> {
    seq![
        StepText::Notify { message: recording_notice_text(path) },
        StepText::Pause { seconds: 2 },
        StepText::Spawn {
            program: "wf-recorder"@,
            arguments: recording_argument_texts(region, path, audio),
        },
    ]
}

/// Where a screenshot goes.
pub open spec fn screenshot_target(copy: bool, path: String) -> CaptureTarget {
    if copy {
        CaptureTarget::Clipboard
    } else {
        CaptureTarget::File(path)
    }
}

/// The steps of a run. Stopping the recordings comes before everything
/// else; then a cancelled selection ends the run with a notice; after that
/// the capture that was asked for is made.
pub open spec fn plan_texts(subcommand: Subcommand, region: Region, path: String) -> Seq<
    StepText,
> {
    match subcommand {
        Subcommand::Kill => kill_plan_texts(),
        Subcommand::Screenshot { copy } => match region {
            Region::Cancelled => cancelled_plan_texts(),
            _ => screenshot_plan_texts(region_argument(region), screenshot_target(copy, path)),
        },
        Subcommand::Record { audio } => match region {
            Region::Cancelled => cancelled_plan_texts(),
            _ => recording_plan_texts(region_argument(region), path@, audio),
        },
    }
}

/// Whether the user is to select a region before anything else is done.
pub fn needs_region(selection: bool, subcommand: &Subcommand) -> (asks: bool)
    ensures
        asks == asks_for_region(selection, *subcommand),
{
    match subcommand {
        Subcommand::Kill => false,
        _ => selection,
    }
}

/// The extension of the file that the capture is stored in, or `None` where
/// it is stored in none.
pub fn output_extension(subcommand: &Subcommand) -> (extension: Option<&'static str>)
    ensures
        extension is Some <==> extension_text(*subcommand) is Some,
        extension is Some ==> extension->0@ == extension_text(*subcommand)->0,
{
    match subcommand {
        Subcommand::Screenshot { copy } => if *copy {
            None
        } else {
            Some("png")
        },
        Subcommand::Record { audio: _ } => Some("mp4"),
        Subcommand::Kill => None,
    }
}

/// What the selector's answer makes of the region.
pub fn region_of(selection: Option<String>) -> (region: Region)
    ensures
        match selection {
            Some(geometry) => region == Region::Chosen(geometry),
            None => region == Region::Cancelled,
        },
{
    match selection {
        Some(geometry) => Region::Chosen(geometry),
        None => Region::Cancelled,
    }
}

/// The steps that stop every recording.
pub fn kill_plan() -> (steps: Vec<Step>)
    ensures
        step_texts(steps@) == kill_plan_texts(),
{
    let mut steps: Vec<Step> = Vec::new();
    steps.push(Step::Run { program: String::from_str(kill_program()), arguments: kill_arguments() });
    steps.push(Step::Notify { message: String::from_str("stopped recording") });
    assert(step_texts(steps@) =~= kill_plan_texts());
    steps
}

/// The steps after a selection that the user cancelled.
pub fn cancelled_plan() -> (steps: Vec<Step>)
    ensures
        step_texts(steps@) == cancelled_plan_texts(),
{
    let mut steps: Vec<Step> = Vec::new();
    steps.push(Step::Notify { message: String::from_str("cancelled selection") });
    assert(step_texts(steps@) =~= cancelled_plan_texts());
    steps
}

/// The steps that take a screenshot of `region`, or of the whole screen, and
/// send it to `target`.
pub fn take_screenshot(region: &Option<String>, target: &CaptureTarget) -> (steps: Vec<Step>)
    ensures
        step_texts(steps@) == screenshot_plan_texts(*region, *target),
{
    let mut steps: Vec<Step> = Vec::new();
    steps.push(
        Step::Run {
            program: String::from_str(screenshot_program()),
            arguments: screenshot_arguments(region, target),
        },
    );
    match target {
        CaptureTarget::File(_) => {},
        CaptureTarget::Clipboard => {
            steps.push(Step::CopyOutput { mime_type: String::from_str(clipboard_mime_type()) });
        },
    }
    steps.push(Step::Notify { message: screenshot_notice(target) });
    assert(step_texts(steps@) =~= screenshot_plan_texts(*region, *target));
    steps
}

/// The steps that start a recording of `region`, or of the whole screen, to
/// the file at `path`.
pub fn start_recording(region: &Option<String>, path: &str, audio: bool) -> (steps: Vec<Step>)
    ensures
        step_texts(steps@) == recording_plan_texts(*region, path@, audio),
{
    let mut steps: Vec<Step> = Vec::new();
    steps.push(Step::Notify { message: recording_notice(path) });
    steps.push(Step::Pause { seconds: recording_delay_seconds() });
    steps.push(
        Step::Spawn {
            program: String::from_str(recorder_program()),
            arguments: recording_arguments(region, path, audio),
        },
    );
    assert(step_texts(steps@) =~= recording_plan_texts(*region, path@, audio));
    steps
}

/// The steps of a run, given what was asked for, what became of the
/// selection, and the path of the file for a capture that is stored in one.
pub fn plan(subcommand: &Subcommand, region: Region, path: String) -> (steps: Vec<Step>)
    ensures
        step_texts(steps@) == plan_texts(*subcommand, region, path),
{
    match subcommand {
        Subcommand::Kill => kill_plan(),
        Subcommand::Screenshot { copy } => {
            let target = if *copy {
                CaptureTarget::Clipboard
            } else {
                CaptureTarget::File(path)
            };
            match region {
                Region::Cancelled => cancelled_plan(),
                Region::Whole => take_screenshot(&None, &target),
                Region::Chosen(geometry) => take_screenshot(&Some(geometry), &target),
            }
        },
        Subcommand::Record { audio } => match region {
            Region::Cancelled => cancelled_plan(),
            Region::Whole => start_recording(&None, path.as_str(), *audio),
            Region::Chosen(geometry) => start_recording(&Some(geometry), path.as_str(), *audio),
        },
    }
}

} // verus!
