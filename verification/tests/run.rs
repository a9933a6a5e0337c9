use wayshot_helper::capture::{
    clipboard_mime_type, kill_arguments, kill_program, notice_summary,
    notice_timeout_milliseconds, recorder_program, recording_arguments,
    recording_delay_seconds, recording_notice, screenshot_arguments, screenshot_notice,
    screenshot_program, CaptureTarget,
};
use wayshot_helper::naming::{compose_output_path, output_path, output_path_in};
use wayshot_helper::plan::{
    cancelled_plan, kill_plan, needs_region, output_extension, plan, region_of, start_recording,
    take_screenshot, Region, Step, Subcommand,
};
use wayshot_helper::selector::{
    parse_selection, selector_arguments, selector_input, selector_program,
};

fn strings(items: &[&str]) -> Vec<String> {
    items.iter().map(|s| s.to_string()).collect()
}

#[test]
fn selector_is_started_with_its_colours() {
    assert_eq!(selector_program(), "slurp");
    assert_eq!(selector_arguments(), strings(&["-b", "282a3666", "-c", "ff79c6"]));
}

#[test]
fn selector_input_is_one_geometry_per_line() {
    assert_eq!(selector_input(&strings(&[])), "");
    assert_eq!(selector_input(&strings(&["0,0 1x1"])), "0,0 1x1");
    assert_eq!(
        selector_input(&strings(&["0,0 100x100", "100,0 50x50", "1,2 3x4"])),
        "0,0 100x100\n100,0 50x50\n1,2 3x4"
    );
}

#[test]
fn empty_selector_output_is_a_cancelled_selection() {
    assert_eq!(parse_selection(""), None);
}

#[test]
fn selector_output_is_trimmed_and_kept_as_it_is() {
    assert_eq!(parse_selection("10,20 30x40\n"), Some("10,20 30x40".to_string()));
    assert_eq!(parse_selection("  \t10,20 30x40 \r\n"), Some("10,20 30x40".to_string()));
    assert_eq!(parse_selection("not a geometry"), Some("not a geometry".to_string()));
    assert_eq!(parse_selection("a  b"), Some("a  b".to_string()));
}

#[test]
fn output_of_white_space_alone_is_an_empty_selection() {
    assert_eq!(parse_selection("\n"), Some(String::new()));
    assert_eq!(parse_selection(" \t\r\n"), Some(String::new()));
}

#[test]
fn trimming_follows_the_unicode_property() {
    assert_eq!(parse_selection("\u{a0}\u{3000}1,2 3x4\u{85}\u{2028}"), Some("1,2 3x4".to_string()));
    assert_eq!(parse_selection("\u{1680}\u{2000}\u{200a}x\u{2029}\u{202f}\u{205f}"), Some("x".to_string()));
    assert_eq!(parse_selection("\u{200b}x\u{180e}"), Some("\u{200b}x\u{180e}".to_string()));
    assert_eq!(parse_selection("\u{1c}x\u{8}"), Some("\u{1c}x\u{8}".to_string()));
}

#[test]
fn screenshot_arguments_name_region_and_destination() {
    let file = CaptureTarget::File("/home/u/shot.png".to_string());
    assert_eq!(screenshot_program(), "grim");
    assert_eq!(screenshot_arguments(&None, &file), strings(&["/home/u/shot.png"]));
    assert_eq!(
        screenshot_arguments(&Some("1,2 3x4".to_string()), &file),
        strings(&["-g", "1,2 3x4", "/home/u/shot.png"])
    );
    assert_eq!(screenshot_arguments(&None, &CaptureTarget::Clipboard), strings(&["-"]));
    assert_eq!(
        screenshot_arguments(&Some("1,2 3x4".to_string()), &CaptureTarget::Clipboard),
        strings(&["-g", "1,2 3x4", "-"])
    );
}

#[test]
fn recording_arguments_name_region_file_and_sound() {
    assert_eq!(recorder_program(), "wf-recorder");
    assert_eq!(recording_arguments(&None, "/tmp/a.mp4", false), strings(&["-f", "/tmp/a.mp4"]));
    assert_eq!(
        recording_arguments(&None, "/tmp/a.mp4", true),
        strings(&["-f", "/tmp/a.mp4", "-a0"])
    );
    assert_eq!(
        recording_arguments(&Some("0,0 5x5".to_string()), "/tmp/a.mp4", true),
        strings(&["-g", "0,0 5x5", "-f", "/tmp/a.mp4", "-a0"])
    );
}

#[test]
fn recorders_are_stopped_with_the_interrupt_signal() {
    assert_eq!(kill_program(), "killall");
    assert_eq!(kill_arguments(), strings(&["-s2", "wf-recorder"]));
}

#[test]
fn notices_name_the_file() {
    assert_eq!(screenshot_notice(&CaptureTarget::File("/a/b.png".to_string())), "saved to /a/b.png");
    assert_eq!(screenshot_notice(&CaptureTarget::Clipboard), "copied to clipboard");
    assert_eq!(recording_notice("/a/b.mp4"), "starting recording to be saved at /a/b.mp4");
    assert_eq!(clipboard_mime_type(), "image/png");
    assert_eq!(recording_delay_seconds(), 2);
}

#[test]
fn cancelled_selection_notifies_and_captures_nothing() {
    let region = region_of(parse_selection(""));
    assert_eq!(region, Region::Cancelled);
    let expected = vec![Step::Notify { message: "cancelled selection".to_string() }];
    assert_eq!(cancelled_plan(), expected);
    for subcommand in [
        Subcommand::Screenshot { copy: false },
        Subcommand::Screenshot { copy: true },
        Subcommand::Record { audio: false },
        Subcommand::Record { audio: true },
    ] {
        assert_eq!(plan(&subcommand, Region::Cancelled, "/h/t.png".to_string()), expected);
    }
}

#[test]
fn kill_stops_recorders_and_does_nothing_else() {
    let expected = vec![
        Step::Run { program: "killall".to_string(), arguments: strings(&["-s2", "wf-recorder"]) },
        Step::Notify { message: "stopped recording".to_string() },
    ];
    assert_eq!(kill_plan(), expected);
    assert_eq!(plan(&Subcommand::Kill, Region::Whole, String::new()), expected);
    assert_eq!(plan(&Subcommand::Kill, Region::Cancelled, String::new()), expected);
    assert_eq!(plan(&Subcommand::Kill, Region::Chosen("1,1 1x1".to_string()), String::new()), expected);
    assert!(!needs_region(true, &Subcommand::Kill));
    assert!(!needs_region(false, &Subcommand::Kill));
}

#[test]
fn screenshot_to_clipboard_copies_what_the_capture_printed() {
    let expected = vec![
        Step::Run { program: "grim".to_string(), arguments: strings(&["-"]) },
        Step::CopyOutput { mime_type: "image/png".to_string() },
        Step::Notify { message: "copied to clipboard".to_string() },
    ];
    assert_eq!(take_screenshot(&None, &CaptureTarget::Clipboard), expected);
    assert_eq!(
        plan(&Subcommand::Screenshot { copy: true }, Region::Whole, "/h/t.png".to_string()),
        expected
    );
    let chosen = plan(
        &Subcommand::Screenshot { copy: true },
        Region::Chosen("1,2 3x4".to_string()),
        "/h/t.png".to_string(),
    );
    assert_eq!(
        chosen[0],
        Step::Run { program: "grim".to_string(), arguments: strings(&["-g", "1,2 3x4", "-"]) }
    );
    assert_eq!(chosen.len(), 3);
}

#[test]
fn screenshot_to_a_file_names_the_file() {
    let steps = plan(
        &Subcommand::Screenshot { copy: false },
        Region::Chosen("1,2 3x4".to_string()),
        "/h/t.png".to_string(),
    );
    assert_eq!(
        steps,
        vec![
            Step::Run {
                program: "grim".to_string(),
                arguments: strings(&["-g", "1,2 3x4", "/h/t.png"]),
            },
            Step::Notify { message: "saved to /h/t.png".to_string() },
        ]
    );
}

#[test]
fn recording_notifies_waits_and_leaves_the_recorder_running() {
    let expected = vec![
        Step::Notify { message: "starting recording to be saved at /h/t.mp4".to_string() },
        Step::Pause { seconds: 2 },
        Step::Spawn {
            program: "wf-recorder".to_string(),
            arguments: strings(&["-f", "/h/t.mp4", "-a0"]),
        },
    ];
    assert_eq!(start_recording(&None, "/h/t.mp4", true), expected);
    assert_eq!(plan(&Subcommand::Record { audio: true }, Region::Whole, "/h/t.mp4".to_string()), expected);
    let quiet = start_recording(&Some("0,0 9x9".to_string()), "/h/t.mp4", false);
    assert_eq!(
        quiet[2],
        Step::Spawn {
            program: "wf-recorder".to_string(),
            arguments: strings(&["-g", "0,0 9x9", "-f", "/h/t.mp4"]),
        }
    );
}

#[test]
fn a_region_is_asked_for_only_with_the_flag() {
    assert!(needs_region(true, &Subcommand::Screenshot { copy: false }));
    assert!(needs_region(true, &Subcommand::Record { audio: true }));
    assert!(!needs_region(false, &Subcommand::Screenshot { copy: true }));
    assert!(!needs_region(false, &Subcommand::Record { audio: false }));
    assert_eq!(region_of(Some("1,2 3x4".to_string())), Region::Chosen("1,2 3x4".to_string()));
    assert_eq!(region_of(None), Region::Cancelled);
}

#[test]
fn captures_to_a_file_have_an_extension() {
    assert_eq!(output_extension(&Subcommand::Screenshot { copy: false }), Some("png"));
    assert_eq!(output_extension(&Subcommand::Screenshot { copy: true }), None);
    assert_eq!(output_extension(&Subcommand::Record { audio: false }), Some("mp4"));
    assert_eq!(output_extension(&Subcommand::Record { audio: true }), Some("mp4"));
    assert_eq!(output_extension(&Subcommand::Kill), None);
}

#[test]
fn output_path_is_home_stamp_and_extension() {
    assert_eq!(
        compose_output_path("/home/alice", "2024-05-06T07:08:09+02:00", "png"),
        "/home/alice/2024-05-06T07:08:09+02:00.png"
    );
    assert_eq!(
        compose_output_path("/home/alice", "2024-05-06T07:08:09.123456789+02:00", "mp4"),
        "/home/alice/2024-05-06T07:08:09.123456789+02:00.mp4"
    );
    assert_eq!(compose_output_path("", "", ""), "/.");
}

#[test]
fn without_a_home_directory_there_is_no_output_path() {
    assert_eq!(output_path_in(&None, "2024-05-06T07:08:09+02:00", "png"), None);
    assert_eq!(
        output_path_in(&Some("/root".to_string()), "2024-05-06T07:08:09+02:00", "png"),
        Some("/root/2024-05-06T07:08:09+02:00.png".to_string())
    );
}

#[test]
fn notices_have_a_heading_and_go_away() {
    assert_eq!(notice_summary(), "screenshot");
    assert_eq!(notice_timeout_milliseconds(), 2000);
}

#[test]
fn output_path_made_now_ends_in_the_extension() {
    if let Some(path) = output_path("png") {
        assert!(path.ends_with(".png"));
        assert!(path.contains('/'));
        assert!(path.contains('T'));
    }
}
