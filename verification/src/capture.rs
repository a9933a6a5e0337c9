//! The command lines of the capture tools and the notices that go with them.

use vstd::prelude::*;
use vstd::string::*;
use crate::selector::texts;

verus! {

/// Where a screenshot goes.
#[derive(Clone, Debug, PartialEq, Eq)]
pub enum CaptureTarget {
    /// A file at this path.
    File(String),
    /// The clipboard.
    Clipboard,
}

/// The program that takes a screenshot.
pub fn screenshot_program() -> (name: &'static str)
    ensures
        name@ == "grim"@,
{
    "grim"
}

/// The program that records video.
pub fn recorder_program() -> (name: &'static str)
    ensures
        name@ == "wf-recorder"@,
{
    "wf-recorder"
}

/// The program that signals processes by name.
pub fn kill_program() -> (name: &'static str)
    ensures
        name@ == "killall"@,
{
    "killall"
}

/// The type under which a screenshot is put on the clipboard.
pub fn clipboard_mime_type() -> (name: &'static str)
    ensures
        name@ == "image/png"@,
{
    "image/png"
}

/// The heading of every notice.
pub fn notice_summary() -> (summary: &'static str)
    ensures
        summary@ == "screenshot"@,
{
    "screenshot"
}

/// The milliseconds after which a notice goes away by itself.
pub fn notice_timeout_milliseconds() -> (timeout: i32)
    ensures
        timeout == 2000,
{
    2000
}

/// The seconds for which a notice of a recording is left on screen before
/// the recording starts.
pub fn recording_delay_seconds() -> (seconds: u64)
    ensures
        seconds == 2,
{
    2
}

/// The arguments that confine a capture to a region: `-g` and the geometry,
/// or nothing where the whole screen is meant.
pub open spec fn region_flag(region: Option<String>) -> Seq<Seq<char>> {
    match region {
        Some(geometry) => seq!["-g"@, geometry@],
        None => Seq::empty(),
    }
}

/// What the screenshot program is told to write to: the file's path, or `-`
/// for its standard output.
pub open spec fn destination(target: CaptureTarget) -> Seq<char> {
    match target {
        CaptureTarget::File(path) => path@,
        CaptureTarget::Clipboard => "-"@,
    }
}

/// The arguments of a screenshot: the region, if any, then the destination.
pub open spec fn screenshot_argument_texts(
    region: Option<String>,
    target: CaptureTarget,
) -> Seq<Seq<char>> {
    region_flag(region).push(destination(target))
}

/// The arguments of a recording: the region, if any, then `-f` and the file's
/// path, then `-a0` where sound is recorded too.
pub open spec fn recording_argument_texts(
    region: Option<String>,
    path: Seq<char>,
    audio: bool,
) -> Seq<Seq<char>> {
    region_flag(region) + seq!["-f"@, path] + (if audio {
        seq!["-a0"@]
    } else {
        Seq::empty()
    })
}

/// The arguments that send the interrupt signal to every recorder.
pub open spec fn kill_argument_texts() -> Seq<Seq<char>> {
    seq!["-s2"@, "wf-recorder"@]
}

/// The notice that a screenshot was taken.
pub open spec fn screenshot_notice_text(target: CaptureTarget) -> Seq<char> {
    match target {
        CaptureTarget::File(path) => "saved to "@ + path@,
        CaptureTarget::Clipboard => "copied to clipboard"@,
    }
}

/// The notice that a recording is about to start.
pub open spec fn recording_notice_text(path: Seq<char>) -> Seq<char> {
    "starting recording to be saved at "@ + path
}

fn region_arguments(region: &Option<String>) -> (arguments: Vec<String>)
    ensures
        texts(arguments@) == region_flag(*region),
{
    let mut arguments: Vec<String> = Vec::new();
    match region {
        Some(geometry) => {
            arguments.push(String::from_str("-g"));
            arguments.push(geometry.clone());
        },
        None => {},
    }
    assert(texts(arguments@) =~= region_flag(*region));
    arguments
}

/// The arguments with which the screenshot program is started.
pub fn screenshot_arguments(region: &Option<String>, target: &CaptureTarget) -> (arguments: Vec<
    String,
>)
    ensures
        texts(arguments@) == screenshot_argument_texts(*region, *target),
{
    let mut arguments = region_arguments(region);
    let ghost flag = arguments@;
    match target {
        CaptureTarget::File(path) => {
            arguments.push(path.clone());
        },
        CaptureTarget::Clipboard => {
            arguments.push(String::from_str("-"));
        },
    }
    assert(texts(arguments@) =~= texts(flag).push(destination(*target)));
    arguments
}

/// The arguments with which the recorder is started.
pub fn recording_arguments(region: &Option<String>, path: &str, audio: bool) -> (arguments: Vec<
    String,
>)
    ensures
        texts(arguments@) == recording_argument_texts(*region, path@, audio),
{
    let mut arguments = region_arguments(region);
    let ghost flag = arguments@;
    arguments.push(String::from_str("-f"));
    arguments.push(String::from_str(path));
    if audio {
        arguments.push(String::from_str("-a0"));
    }
    assert(texts(arguments@) =~= recording_argument_texts(*region, path@, audio));
    arguments
}

/// The arguments with which the recorders are stopped.
pub fn kill_arguments() -> (arguments: Vec<String>)
    ensures
        texts(arguments@) == kill_argument_texts(),
{
    let mut arguments: Vec<String> = Vec::new();
    arguments.push(String::from_str("-s2"));
    arguments.push(String::from_str("wf-recorder"));
    assert(texts(arguments@) =~= kill_argument_texts());
    arguments
}

/// The notice shown once a screenshot was taken.
pub fn screenshot_notice(target: &CaptureTarget) -> (notice: String)
    ensures
        notice@ == screenshot_notice_text(*target),
{
    match target {
        CaptureTarget::File(path) => String::from_str("saved to ").concat(path.as_str()),
        CaptureTarget::Clipboard => String::from_str("copied to clipboard"),
    }
}

/// The notice shown before a recording starts.
pub fn recording_notice(path: &str) -> (notice: String)
    ensures
        notice@ == recording_notice_text(path@),
{
    String::from_str("starting recording to be saved at ").concat(path)
}

} // verus!
