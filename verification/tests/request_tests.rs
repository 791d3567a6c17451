use clauveo::bridge::{
    build_chat_invocation, build_probe_invocation, check_claude_cli_installed, interpret_outcome,
    BridgeConfig, BridgeProfile, ProcessOutcome, RequestError,
};
use clauveo::request::{
    compose_message, send_to_claude_cli, AssistantRequest, RequestAction, RequestEvent, RequestPhase,
};
use clauveo::stager::{decode_frame, decode_frames, payload, stage_frames};
use clauveo::text::{clone_texts, decimal_string};

fn native() -> BridgeConfig {
    BridgeConfig {
        profile: BridgeProfile::Native,
        tool: "assistant".to_string(),
        tool_title: "Assistant CLI".to_string(),
        additional_search_paths: vec!["/opt/tools/bin".to_string()],
    }
}

fn wrapped() -> BridgeConfig {
    BridgeConfig {
        profile: BridgeProfile::CompatibilityShell,
        tool: "assistant".to_string(),
        tool_title: "Assistant CLI".to_string(),
        additional_search_paths: vec!["/opt/tools/bin".to_string()],
    }
}

fn strings(items: &[&str]) -> Vec<String> {
    items.iter().map(|s| s.to_string()).collect()
}

fn joined(base: &str, part: &str) -> String {
    std::path::Path::new(base).join(part).to_str().expect("text").to_string()
}

fn exited(success: bool, stdout: &[u8], stderr: &[u8]) -> RequestEvent {
    RequestEvent::ProcessFinished {
        outcome: ProcessOutcome::Exited { success, stdout: stdout.to_vec(), stderr: stderr.to_vec() },
    }
}

fn open(frames: &[&str], transcript: &str, project: Option<&str>) -> (AssistantRequest, RequestAction) {
    AssistantRequest::open_in(
        native(),
        "/usr/bin".to_string(),
        "scratch".to_string(),
        "Please help".to_string(),
        &strings(frames),
        transcript.to_string(),
        project.map(|p| p.to_string()),
    )
}

#[test]
fn decimal_strings() {
    assert_eq!(decimal_string(0), "0");
    assert_eq!(decimal_string(7), "7");
    assert_eq!(decimal_string(10), "10");
    assert_eq!(decimal_string(12345), "12345");
    assert_eq!(decimal_string(9_000_000_009), "9000000009");
    assert_eq!(decimal_string(usize::MAX), usize::MAX.to_string());
}

#[test]
fn clone_texts_copies_in_order() {
    let v = strings(&["a", "", "c"]);
    assert_eq!(clone_texts(&v), v);
    assert!(clone_texts(&Vec::new()).is_empty());
}

#[test]
fn payload_strips_a_data_url_prefix() {
    assert_eq!(payload(b"data:image/png;base64,aGVsbG8="), b"aGVsbG8=");
    assert_eq!(payload(b"data:image/jpeg;base64,"), b"");
}

#[test]
fn payload_without_prefix_or_comma_is_the_whole_blob() {
    assert_eq!(payload(b"aGVsbG8="), b"aGVsbG8=");
    assert_eq!(payload(b"data:image/png;base64"), b"data:image/png;base64");
    assert_eq!(payload(b"data:text/plain,aGVsbG8="), b"data:text/plain,aGVsbG8=");
    assert_eq!(payload(b"x,aGVsbG8="), b"x,aGVsbG8=");
    assert_eq!(payload(b""), b"");
    assert_eq!(payload(b"data:imag"), b"data:imag");
}

#[test]
fn payload_is_cut_after_the_first_comma_only() {
    assert_eq!(payload(b"data:image/png;base64,AAAA,BBBB"), b"AAAA,BBBB");
    assert_eq!(payload(b"data:image,"), b"");
}

#[test]
fn decode_frame_names_the_file_after_the_position() {
    let frame = decode_frame(0, "aGVsbG8=", "scratch").expect("decodes");
    assert_eq!(frame.index, 0);
    assert_eq!(frame.bytes, b"hello".to_vec());
    assert_eq!(frame.path, joined("scratch", "frame_1.jpg"));
    let frame = decode_frame(11, "data:image/jpeg;base64,/9j/", "scratch").expect("decodes");
    assert_eq!(frame.index, 11);
    assert_eq!(frame.bytes, vec![0xff, 0xd8, 0xff]);
    assert_eq!(frame.path, joined("scratch", "frame_12.jpg"));
}

#[test]
fn decode_frame_reports_the_frame_number() {
    let e = decode_frame(4, "not base64!", "scratch").expect_err("does not decode");
    assert_eq!(e.frame_number, 5);
    let e = decode_frame(0, "aGVsbG8", "scratch").expect_err("padding is required");
    assert_eq!(e.frame_number, 1);
    let e = decode_frame(0, "data:image/png;base64,AAAA,BBBB", "scratch").expect_err("comma");
    assert_eq!(e.frame_number, 1);
}

#[test]
fn second_of_three_blobs_invalid_stages_first_and_third() {
    let frames = strings(&["aGVsbG8=", "***", "data:image/jpeg;base64,d29ybGQ="]);
    let staged = decode_frames(&frames, "scratch");
    assert_eq!(staged.len(), 2);
    assert_eq!(staged[0].index, 0);
    assert_eq!(staged[0].path, joined("scratch", "frame_1.jpg"));
    assert_eq!(staged[0].bytes, b"hello".to_vec());
    assert_eq!(staged[1].index, 2);
    assert_eq!(staged[1].path, joined("scratch", "frame_3.jpg"));
    assert_eq!(staged[1].bytes, b"world".to_vec());
}

#[test]
fn staging_nothing_or_only_bad_blobs_gives_an_empty_plan() {
    assert!(decode_frames(&Vec::new(), "scratch").is_empty());
    assert!(decode_frames(&strings(&["%%%", "a"]), "scratch").is_empty());
}

#[test]
fn an_empty_blob_decodes_to_an_empty_image() {
    let staged = decode_frames(&strings(&[""]), "scratch");
    assert_eq!(staged.len(), 1);
    assert!(staged[0].bytes.is_empty());
}

#[test]
fn message_with_transcript_and_no_screenshots() {
    let m = compose_message("Look at this", "the button is broken", 0);
    assert_eq!(
        m,
        "Look at this\n\nAudio transcript: \"the button is broken\"\n\nI'm attaching 0 screenshots that show what I was working on."
    );
    assert!(m.contains("the button is broken"));
    assert!(m.contains("0 screenshots"));
}

#[test]
fn message_without_transcript_still_states_the_count() {
    let m = compose_message("Look at this", "", 12);
    assert_eq!(m, "Look at this\n\nI'm attaching 12 screenshots that show what I was working on.");
    assert!(!m.contains("Audio transcript"));
}

#[test]
fn native_chat_invocation() {
    let inv = build_chat_invocation(
        &native(),
        "/usr/bin:/bin",
        "hello",
        &strings(&["a.jpg", "b.jpg"]),
        Some("/work/project".to_string()),
    );
    assert_eq!(inv.program, "assistant");
    assert_eq!(inv.args, strings(&["chat", "hello", "--attach", "a.jpg", "--attach", "b.jpg"]));
    assert_eq!(inv.search_path.as_deref(), Some("/usr/bin:/bin:/opt/tools/bin"));
    assert_eq!(inv.working_dir.as_deref(), Some("/work/project"));
}

#[test]
fn wrapped_chat_invocation() {
    let inv = build_chat_invocation(&wrapped(), "/usr/bin", "hello", &Vec::new(), None);
    assert_eq!(inv.program, "wsl");
    assert_eq!(inv.args, strings(&["assistant", "chat", "hello"]));
    assert!(inv.search_path.is_none());
    assert!(inv.working_dir.is_none());
}

#[test]
fn search_path_takes_every_additional_directory_in_order() {
    let mut config = native();
    config.additional_search_paths = strings(&["/a", "/b", "/c"]);
    let inv = build_probe_invocation(&config, "/usr/bin");
    assert_eq!(inv.search_path.as_deref(), Some("/usr/bin:/a:/b:/c"));
    config.additional_search_paths.clear();
    let inv = build_probe_invocation(&config, "/usr/bin");
    assert_eq!(inv.search_path.as_deref(), Some("/usr/bin"));
    let inv = build_probe_invocation(&native(), "");
    assert_eq!(inv.search_path.as_deref(), Some(":/opt/tools/bin"));
}

#[test]
fn probe_invocations_follow_the_profile() {
    let inv = build_probe_invocation(&native(), "/usr/bin");
    assert_eq!(inv.program, "assistant");
    assert_eq!(inv.args, strings(&["--version"]));
    assert_eq!(inv.search_path.as_deref(), Some("/usr/bin:/opt/tools/bin"));
    assert!(inv.working_dir.is_none());
    let inv = build_probe_invocation(&wrapped(), "/usr/bin");
    assert_eq!(inv.program, "wsl");
    assert_eq!(inv.args, strings(&["assistant", "--version"]));
    assert!(inv.search_path.is_none());
}

#[test]
fn probe_and_chat_agree_on_program_and_search_path() {
    for config in [native(), wrapped()] {
        let probe = build_probe_invocation(&config, "/usr/bin");
        let chat = build_chat_invocation(&config, "/usr/bin", "m", &Vec::new(), None);
        assert_eq!(probe.program, chat.program);
        assert_eq!(probe.search_path, chat.search_path);
    }
}

#[test]
fn tool_is_found_only_when_the_probe_succeeds() {
    let absent = ProcessOutcome::NotSpawned { detail: "No such file or directory".to_string() };
    assert!(!check_claude_cli_installed(&absent));
    let failed = ProcessOutcome::Exited { success: false, stdout: vec![], stderr: b"boom".to_vec() };
    assert!(!check_claude_cli_installed(&failed));
    let found = ProcessOutcome::Exited { success: true, stdout: b"1.0".to_vec(), stderr: vec![] };
    assert!(check_claude_cli_installed(&found));
}

#[test]
fn successful_exit_returns_standard_output() {
    let outcome =
        ProcessOutcome::Exited { success: true, stdout: b"the reply\n".to_vec(), stderr: b"noise".to_vec() };
    match interpret_outcome(&outcome) {
        Ok(text) => assert_eq!(text, "the reply\n"),
        other => panic!("unexpected result: {:?}", other),
    }
}

#[test]
fn invalid_utf8_in_output_is_replaced() {
    let outcome = ProcessOutcome::Exited { success: true, stdout: vec![b'a', 0xff, b'b'], stderr: vec![] };
    match interpret_outcome(&outcome) {
        Ok(text) => assert_eq!(text, "a\u{fffd}b"),
        other => panic!("unexpected result: {:?}", other),
    }
    let outcome = ProcessOutcome::Exited { success: true, stdout: "h\u{e9}llo".as_bytes().to_vec(), stderr: vec![] };
    match interpret_outcome(&outcome) {
        Ok(text) => assert_eq!(text, "h\u{e9}llo"),
        other => panic!("unexpected result: {:?}", other),
    }
}

#[test]
fn failed_exit_carries_standard_error() {
    let outcome =
        ProcessOutcome::Exited { success: false, stdout: b"ignored".to_vec(), stderr: b"bad flag".to_vec() };
    match interpret_outcome(&outcome) {
        Err(RequestError::ProcessExit(text)) => assert_eq!(text, "bad flag"),
        other => panic!("unexpected result: {:?}", other),
    }
}

#[test]
fn spawn_failure_is_reported() {
    let outcome = ProcessOutcome::NotSpawned { detail: "No such file or directory".to_string() };
    match interpret_outcome(&outcome) {
        Err(RequestError::ProcessSpawn(text)) => assert_eq!(text, "No such file or directory"),
        other => panic!("unexpected result: {:?}", other),
    }
}

#[test]
fn request_error_messages() {
    let title = native().tool_title;
    assert_eq!(
        RequestError::ScratchDir("denied".to_string()).message(&title),
        "Failed to create temp directory: denied"
    );
    assert_eq!(
        RequestError::ProcessSpawn("not found".to_string()).message(&title),
        "Failed to execute Assistant CLI: not found. Make sure Assistant CLI is installed and in PATH."
    );
    assert_eq!(
        RequestError::ProcessExit("bad flag".to_string()).message(&title),
        "Assistant CLI error: bad flag"
    );
    assert_eq!(
        RequestError::ProcessExit("bad flag\n".to_string()).message("Helper"),
        "Helper error: bad flag\n"
    );
    assert_eq!(
        RequestError::Interrupted.message(&title),
        "The request was interrupted before it completed."
    );
    assert!(matches!(RequestError::Interrupted.duplicate(), RequestError::Interrupted));
}

#[test]
fn a_request_runs_from_staging_to_cleanup() {
    let (mut req, first) = open(&["aGVsbG8=", "***", "d29ybGQ="], "it crashes", Some("/work"));
    match first {
        RequestAction::CreateDir { path } => assert_eq!(path, "scratch"),
        other => panic!("unexpected action: {:?}", other),
    }
    assert_eq!(req.phase, RequestPhase::CreatingDir);
    assert_eq!(req.pending.len(), 2);

    match req.advance(RequestEvent::DirCreated) {
        RequestAction::WriteFrame { path, bytes } => {
            assert_eq!(path, joined("scratch", "frame_1.jpg"));
            assert_eq!(bytes, b"hello".to_vec());
        }
        other => panic!("unexpected action: {:?}", other),
    }
    assert_eq!(req.phase, RequestPhase::Writing);
    match req.advance(RequestEvent::FrameWritten) {
        RequestAction::WriteFrame { path, bytes } => {
            assert_eq!(path, joined("scratch", "frame_3.jpg"));
            assert_eq!(bytes, b"world".to_vec());
        }
        other => panic!("unexpected action: {:?}", other),
    }
    match req.advance(RequestEvent::FrameWritten) {
        RequestAction::Run { invocation } => {
            assert_eq!(invocation.program, "assistant");
            assert_eq!(
                invocation.args,
                vec![
                    "chat".to_string(),
                    "Please help\n\nAudio transcript: \"it crashes\"\n\nI'm attaching 2 screenshots that show what I was working on.".to_string(),
                    "--attach".to_string(),
                    joined("scratch", "frame_1.jpg"),
                    "--attach".to_string(),
                    joined("scratch", "frame_3.jpg"),
                ]
            );
            assert_eq!(invocation.search_path.as_deref(), Some("/usr/bin:/opt/tools/bin"));
            assert_eq!(invocation.working_dir.as_deref(), Some("/work"));
        }
        other => panic!("unexpected action: {:?}", other),
    }
    assert_eq!(req.phase, RequestPhase::Running);
    match req.advance(exited(true, b"All good.", b"")) {
        RequestAction::RemoveDir { path } => assert_eq!(path, "scratch"),
        other => panic!("unexpected action: {:?}", other),
    }
    assert_eq!(req.phase, RequestPhase::Removing);
    match req.advance(RequestEvent::DirRemoved) {
        RequestAction::Finish { result: Ok(text) } => assert_eq!(text, "All good."),
        other => panic!("unexpected action: {:?}", other),
    }
    assert_eq!(req.phase, RequestPhase::Done);
}

#[test]
fn a_frame_that_cannot_be_written_is_left_out() {
    let (mut req, _) = open(&["aGVsbG8=", "d29ybGQ="], "", None);
    assert!(matches!(req.advance(RequestEvent::DirCreated), RequestAction::WriteFrame { .. }));
    assert!(matches!(req.advance(RequestEvent::FrameNotWritten), RequestAction::WriteFrame { .. }));
    match req.advance(RequestEvent::FrameWritten) {
        RequestAction::Run { invocation } => {
            assert_eq!(
                invocation.args,
                vec![
                    "chat".to_string(),
                    "Please help\n\nI'm attaching 1 screenshots that show what I was working on.".to_string(),
                    "--attach".to_string(),
                    joined("scratch", "frame_2.jpg"),
                ]
            );
            assert!(invocation.working_dir.is_none());
        }
        other => panic!("unexpected action: {:?}", other),
    }
    assert_eq!(req.staged, vec![joined("scratch", "frame_2.jpg")]);
}

#[test]
fn a_request_without_frames_runs_at_once() {
    let (mut req, _) = open(&[], "spoken words", None);
    match req.advance(RequestEvent::DirCreated) {
        RequestAction::Run { invocation } => {
            assert_eq!(invocation.args.len(), 2);
            assert!(invocation.args[1].contains("spoken words"));
            assert!(invocation.args[1].contains("0 screenshots"));
        }
        other => panic!("unexpected action: {:?}", other),
    }
}

#[test]
fn failure_to_create_the_directory_ends_the_request() {
    let (mut req, _) = open(&["aGVsbG8="], "", None);
    match req.advance(RequestEvent::DirNotCreated { detail: "permission denied".to_string() }) {
        RequestAction::Finish { result: Err(e) } => {
            assert!(matches!(e, RequestError::ScratchDir(_)));
            assert_eq!(e.message("Assistant CLI"), "Failed to create temp directory: permission denied");
        }
        other => panic!("unexpected action: {:?}", other),
    }
    assert_eq!(req.phase, RequestPhase::Done);
}

#[test]
fn the_directory_is_removed_before_a_failure_is_returned() {
    let (mut req, _) = open(&[], "", None);
    assert!(matches!(req.advance(RequestEvent::DirCreated), RequestAction::Run { .. }));
    assert!(matches!(req.advance(exited(false, b"", b"quota exceeded")), RequestAction::RemoveDir { .. }));
    match req.advance(RequestEvent::DirRemoved) {
        RequestAction::Finish { result: Err(RequestError::ProcessExit(text)) } => {
            assert_eq!(text, "quota exceeded")
        }
        other => panic!("unexpected action: {:?}", other),
    }

    let (mut req, _) = open(&[], "", None);
    req.advance(RequestEvent::DirCreated);
    let spawn = RequestEvent::ProcessFinished {
        outcome: ProcessOutcome::NotSpawned { detail: "not found".to_string() },
    };
    assert!(matches!(req.advance(spawn), RequestAction::RemoveDir { .. }));
    match req.advance(RequestEvent::DirNotRemoved) {
        RequestAction::Finish { result: Err(RequestError::ProcessSpawn(text)) } => assert_eq!(text, "not found"),
        other => panic!("unexpected action: {:?}", other),
    }
}

#[test]
fn an_event_out_of_step_still_removes_the_directory() {
    let (mut req, _) = open(&["aGVsbG8="], "", None);
    req.advance(RequestEvent::DirCreated);
    match req.advance(RequestEvent::DirCreated) {
        RequestAction::RemoveDir { path } => assert_eq!(path, "scratch"),
        other => panic!("unexpected action: {:?}", other),
    }
    assert!(matches!(req.advance(RequestEvent::FrameWritten), RequestAction::RemoveDir { .. }));
    assert_eq!(req.phase, RequestPhase::Removing);
    match req.advance(RequestEvent::DirRemoved) {
        RequestAction::Finish { result: Err(RequestError::Interrupted) } => {}
        other => panic!("unexpected action: {:?}", other),
    }

    let (mut req, _) = open(&[], "", None);
    req.advance(RequestEvent::DirCreated);
    assert!(matches!(req.advance(RequestEvent::FrameWritten), RequestAction::RemoveDir { .. }));
    assert!(matches!(
        req.advance(RequestEvent::DirRemoved),
        RequestAction::Finish { result: Err(RequestError::Interrupted) }
    ));

    let (mut req, _) = open(&[], "", None);
    assert!(matches!(
        req.advance(RequestEvent::FrameWritten),
        RequestAction::Finish { result: Err(RequestError::Interrupted) }
    ));
}

#[test]
fn a_late_stray_event_does_not_lose_the_reply() {
    let (mut req, _) = open(&[], "", None);
    req.advance(RequestEvent::DirCreated);
    req.advance(exited(true, b"reply", b""));
    assert!(matches!(req.advance(RequestEvent::DirCreated), RequestAction::RemoveDir { .. }));
    match req.advance(RequestEvent::DirRemoved) {
        RequestAction::Finish { result: Ok(text) } => assert_eq!(text, "reply"),
        other => panic!("unexpected action: {:?}", other),
    }
}

#[test]
fn a_finished_request_repeats_its_result() {
    let (mut req, _) = open(&[], "", None);
    req.advance(RequestEvent::DirCreated);
    req.advance(exited(true, b"reply", b""));
    req.advance(RequestEvent::DirRemoved);
    for event in [RequestEvent::DirCreated, RequestEvent::DirRemoved, RequestEvent::FrameWritten] {
        match req.advance(event) {
            RequestAction::Finish { result: Ok(text) } => assert_eq!(text, "reply"),
            other => panic!("unexpected action: {:?}", other),
        }
        assert_eq!(req.phase, RequestPhase::Done);
    }
}

#[test]
fn every_request_gets_a_scratch_directory_of_its_own() {
    let frames = strings(&["aGVsbG8="]);
    let (a, first_a) = send_to_claude_cli(
        native(),
        "/usr/bin".to_string(),
        "tmp",
        "m".to_string(),
        &frames,
        "t".to_string(),
        None,
    );
    let (b, _) = send_to_claude_cli(
        native(),
        "/usr/bin".to_string(),
        "tmp",
        "m".to_string(),
        &frames,
        "t".to_string(),
        None,
    );
    assert_ne!(a.scratch_dir, b.scratch_dir);
    let prefix = joined("tmp", "clauveo_");
    assert!(a.scratch_dir.starts_with(&prefix));
    assert_eq!(a.scratch_dir.chars().count(), prefix.chars().count() + 36);
    match first_a {
        RequestAction::CreateDir { path } => assert_eq!(path, a.scratch_dir),
        other => panic!("unexpected action: {:?}", other),
    }
    assert_eq!(a.phase, RequestPhase::CreatingDir);
    assert_eq!(a.pending.len(), 1);
    assert_eq!(a.pending[0].path, joined(&a.scratch_dir, "frame_1.jpg"));
    assert_eq!(a.next, 0);
    assert!(a.staged.is_empty());
    assert!(matches!(a.result, Err(RequestError::Interrupted)));
    assert_eq!(a.message, "m");
    assert_eq!(a.transcript, "t");
}

#[test]
fn blobs_that_do_not_decode_are_reported_by_number() {
    let frames = strings(&["aGVsbG8=", "***", "data:image/jpeg;base64,d29ybGQ=", "", "a"]);
    let (staged, rejected) = stage_frames(&frames, "scratch");
    assert_eq!(staged.iter().map(|f| f.index).collect::<Vec<usize>>(), vec![0, 2, 3]);
    assert_eq!(rejected.iter().map(|e| e.frame_number).collect::<Vec<usize>>(), vec![2, 5]);
    assert_eq!(staged.len() + rejected.len(), frames.len());
    let (staged, rejected) = stage_frames(&Vec::new(), "scratch");
    assert!(staged.is_empty() && rejected.is_empty());
}

#[test]
fn a_request_remembers_the_frames_it_left_out() {
    let (req, _) = open(&["***", "aGVsbG8=", "%%"], "", None);
    assert_eq!(req.rejected.iter().map(|e| e.frame_number).collect::<Vec<usize>>(), vec![1, 3]);
    assert_eq!(req.pending.len(), 1);
    assert_eq!(req.pending[0].index, 1);
}

#[test]
fn consistency_of_the_bookkeeping() {
    let (mut req, _) = open(&["aGVsbG8=", "d29ybGQ="], "", None);
    assert!(req.is_consistent());
    req.advance(RequestEvent::DirCreated);
    assert!(req.is_consistent());
    req.advance(RequestEvent::FrameWritten);
    assert!(req.is_consistent());
    req.next = 2;
    assert!(!req.is_consistent());
    req.phase = RequestPhase::Running;
    assert!(req.is_consistent());
    req.next = 3;
    assert!(!req.is_consistent());
    req.next = 0;
    assert!(!req.is_consistent());
    req.staged.clear();
    assert!(req.is_consistent());
}

#[test]
fn a_configuration_copy_keeps_every_field() {
    let copy = wrapped().duplicate();
    assert_eq!(copy.profile, BridgeProfile::CompatibilityShell);
    assert_eq!(copy.tool, "assistant");
    assert_eq!(copy.tool_title, "Assistant CLI");
    assert_eq!(copy.additional_search_paths, strings(&["/opt/tools/bin"]));
}
