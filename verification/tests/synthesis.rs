use notifyd::artifact::{artifact_file_name, digest_of, join_scratch, TtsSentence};
use notifyd::command::{args3, check_run, with_arg, RunResult};
use notifyd::engine::TTSEngine;
use notifyd::error::ErrorKind;
use notifyd::tts::TTS;

fn tts() -> TTS {
    TTS::new(
        TTSEngine::AUTO,
        &vec![None, Some("/usr/bin/espeak".to_string()), None],
        Some("fr_FR.UTF-8"),
        "/tmp/notifydtts.abc",
    )
    .unwrap()
}

#[test]
fn digest_is_the_md5_of_text_and_time() {
    let d = digest_of("hello", 1_700_000_000_000_000);
    assert_eq!(artifact_file_name(&d), "e6b0980d989e0f6101ec56b399113d23.wav");
    let d = digest_of("", 0);
    assert_eq!(artifact_file_name(&d), "cfcd208495d565ef66e7dff9f98764da.wav");
    let d = digest_of("héllo 🎵", 42);
    assert_eq!(artifact_file_name(&d), "6fa6e3151e5583a2d0e519dc29440a94.wav");
}

#[test]
fn digest_is_not_the_input() {
    let d = digest_of("abcdefghijklmnop", 0);
    assert_ne!(&d[..], "abcdefghijklmnop".as_bytes());
    assert_eq!(digest_of("abcdefghijklmnopqrstuvwxy", 0).len(), 16);
}

#[test]
fn same_text_at_another_time_gets_another_name() {
    let a = artifact_file_name(&digest_of("hello", 1_700_000_000_000_000));
    let b = artifact_file_name(&digest_of("hello", 1_700_000_000_000_001));
    assert_eq!(b, "5b26188262960298587b83fa1df457b4.wav");
    assert_ne!(a, b);
}

#[test]
fn file_name_of_a_digest() {
    let name = artifact_file_name(&[0u8; 16]);
    assert_eq!(name, "00000000000000000000000000000000.wav");
    let name = artifact_file_name(&[
        0x00, 0x11, 0x22, 0x33, 0x44, 0x55, 0x66, 0x77, 0x88, 0x99, 0xaa, 0xbb, 0xcc, 0xdd, 0xee,
        0xff,
    ]);
    assert_eq!(name, "00112233445566778899aabbccddeeff.wav");
    assert_eq!(name.len(), 36);
    assert!(!name.contains('/'));
}

#[test]
fn path_in_the_scratch_directory() {
    assert_eq!(join_scratch("/tmp/x", "a.wav"), "/tmp/x/a.wav");
    assert_eq!(join_scratch("/tmp/x/", "a.wav"), "/tmp/x/a.wav");
    assert_eq!(join_scratch("", "a.wav"), "a.wav");
    assert_eq!(join_scratch("/", "a.wav"), "/a.wav");
}

#[test]
fn sentence_and_its_file_name() {
    let s = TtsSentence::new("/tmp/x/abc.wav", "hello");
    assert_eq!(s.text, "hello");
    assert_eq!(s.path, "/tmp/x/abc.wav");
    assert_eq!(s.file_name(), "abc.wav");
    assert_eq!(TtsSentence::new("abc.wav", "").file_name(), "abc.wav");
    assert_eq!(TtsSentence::new("/tmp/x/", "").file_name(), "");
    assert_eq!(TtsSentence::new("", "").file_name(), "");
}

#[test]
fn argument_lists() {
    assert_eq!(args3("a", "b", "c"), vec!["a", "b", "c"]);
    assert_eq!(with_arg(args3("a", "b", "c"), "d"), vec!["a", "b", "c", "d"]);
    assert_eq!(with_arg(Vec::new(), "x"), vec!["x"]);
}

#[test]
fn a_run_is_judged_by_its_exit() {
    let ok = RunResult::Exited { success: true, stderr: "warning".to_string() };
    assert!(check_run(ok, ErrorKind::CastFailure).is_ok());
    let failed = RunResult::Exited { success: false, stderr: "no such device".to_string() };
    let err = check_run(failed, ErrorKind::CastFailure).unwrap_err();
    assert_eq!(err.kind, ErrorKind::CastFailure);
    assert_eq!(err.message, "no such device");
    let never = RunResult::NotStarted { reason: "No such file or directory".to_string() };
    let err = check_run(never, ErrorKind::SynthesisFailure).unwrap_err();
    assert_eq!(err.kind, ErrorKind::SynthesisFailure);
    assert_eq!(err.message, "No such file or directory");
}

#[test]
fn synthesizer_is_bound_to_engine_locale_and_directory() {
    let t = tts();
    assert_eq!(t.enginepath, "/usr/bin/espeak");
    assert_eq!(t.lang, "fr-FR");
    assert_eq!(t.tmpdir, "/tmp/notifydtts.abc");
    let t = TTS::new(TTSEngine::ESPEAKNG, &vec![Some("/e".to_string())], None, "/s").unwrap();
    assert_eq!(t.enginepath, "/e");
    assert_eq!(t.lang, "en-US");
}

#[test]
fn synthesizer_needs_an_engine() {
    let err = TTS::new(TTSEngine::AUTO, &vec![None, None, None], None, "/s").unwrap_err();
    assert_eq!(err.kind, ErrorKind::StartupFatal);
    assert!(err.message.contains("pico2wave"));
    let err = TTS::new(TTSEngine::PICO2WAV, &vec![None], None, "/s").unwrap_err();
    assert_eq!(err.message, "Cannot find TTS engine pico2wave in PATH");
}

#[test]
fn synthesis_command_has_the_fixed_shape() {
    let job = tts().speak_to_file("hello", 1_700_000_000_000_000);
    let out = "/tmp/notifydtts.abc/e6b0980d989e0f6101ec56b399113d23.wav";
    assert_eq!(job.outpath, out);
    assert_eq!(job.text, "hello");
    assert_eq!(job.command.program, "/usr/bin/espeak");
    assert_eq!(job.command.args, vec!["-w", out, "-l", "fr-FR", "hello"]);
}

#[test]
fn synthesis_command_keeps_the_text_as_one_argument() {
    let job = tts().plan("two words -w x", &[0xab; 16]);
    assert_eq!(job.outpath, "/tmp/notifydtts.abc/abababababababababababababababab.wav");
    assert_eq!(job.command.args.len(), 5);
    assert_eq!(job.command.args[4], "two words -w x");
}

#[test]
fn successful_synthesis_gives_the_handle() {
    let job = tts().speak_to_file("hello", 1);
    let out = job.outpath.clone();
    let s = job
        .finish(RunResult::Exited { success: true, stderr: String::new() })
        .unwrap();
    assert_eq!(s.path, out);
    assert_eq!(s.text, "hello");
}

#[test]
fn failed_synthesis_gives_the_engine_diagnostic() {
    let job = tts().speak_to_file("hello", 1);
    let err = job
        .finish(RunResult::Exited { success: false, stderr: "bad locale\n".to_string() })
        .unwrap_err();
    assert_eq!(err.kind, ErrorKind::SynthesisFailure);
    assert_eq!(err.message, "bad locale\n");
    let job = tts().speak_to_file("hello", 1);
    let err = job.finish(RunResult::NotStarted { reason: "gone".to_string() }).unwrap_err();
    assert_eq!(err.kind, ErrorKind::SynthesisFailure);
    assert_eq!(err.message, "gone");
}
