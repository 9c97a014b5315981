use notifyd::artifact::TtsSentence;
use notifyd::command::RunResult;
use notifyd::engine::TTSEngine;
use notifyd::notifyd::{plain_name, Notifyd, PlaybackStrategy};
use notifyd::protocol::{Action, Endpoint, Event, NotifyRequest, Phase};
use notifyd::tts::TTS;
use notifyd::web::{FileStatus, Reply};

const NOW: u128 = 1_700_000_000_000_000;
const WAV: &str = "/scratch/e6b0980d989e0f6101ec56b399113d23.wav";

fn daemon(target: &str, player: PlaybackStrategy) -> Notifyd {
    let tts = TTS::new(
        TTSEngine::AUTO,
        &vec![Some("/usr/bin/pico2wave".to_string())],
        Some("en_US.UTF-8"),
        "/scratch",
    )
    .unwrap();
    Notifyd::new(8090, target.to_string(), tts, player)
}

fn local() -> Notifyd {
    daemon("Use Local Speaker", PlaybackStrategy::Native)
}

fn text(t: &str) -> Event {
    Event::Body(Ok(NotifyRequest { text: Some(t.to_string()), uid: None }))
}

fn text_for(t: &str, uid: &str) -> Event {
    Event::Body(Ok(NotifyRequest { text: Some(t.to_string()), uid: Some(uid.to_string()) }))
}

fn exited(success: bool, stderr: &str) -> Event {
    Event::Ran(RunResult::Exited { success, stderr: stderr.to_string() })
}

/// A stand-in for the caller: it keeps the set of files that exist, answers
/// every action from `script`, and returns the reply with all actions seen.
fn drive(d: &Notifyd, url: &str, script: Vec<Event>) -> (Reply, Vec<String>, Vec<String>) {
    let mut files: Vec<String> = Vec::new();
    let mut log: Vec<String> = Vec::new();
    let mut script = script.into_iter();
    let (mut phase, mut action) = d.route_request(url);
    for _ in 0..20 {
        match action {
            Action::Reply(reply) => {
                assert!(matches!(phase, Phase::Responded));
                return (reply, log, files);
            }
            Action::Run(ref cmd) => {
                log.push(format!("run {} {}", cmd.program, cmd.args.join(" ")));
                if cmd.args.first().map(|a| a == "-w").unwrap_or(false) {
                    files.push(cmd.args[1].clone());
                }
            }
            Action::Remove { ref path } => {
                log.push(format!("remove {}", path));
                files.retain(|f| f != path);
            }
            Action::Play { ref path } => {
                assert!(files.contains(path));
                log.push(format!("play {}", path));
            }
            Action::Locate(ref names) => log.push(format!("locate {}", names.join(","))),
            Action::ReadBody => log.push("body".to_string()),
            Action::ReadClock => log.push("clock".to_string()),
            Action::QueryAddress => log.push("address".to_string()),
            Action::Probe { ref path } => log.push(format!("probe {}", path)),
            Action::Idle => panic!("idle before a reply"),
        }
        let event = script.next().expect("the script is too short");
        let (p, a) = d.step(phase, event);
        phase = p;
        action = a;
    }
    panic!("no reply after twenty steps");
}

fn json(reply: &Reply) -> (u16, bool, String, String) {
    match reply {
        Reply::Json { status, body } => {
            (*status, body.success, body.reason.clone(), body.err.clone())
        }
        other => panic!("not a JSON reply: {:?}", other),
    }
}

#[test]
fn routes() {
    let d = local();
    assert!(matches!(
        d.route_request("/action/speak"),
        (Phase::Received { endpoint: Endpoint::Speak }, Action::ReadBody)
    ));
    assert!(matches!(
        d.route_request("/action/cast"),
        (Phase::Received { endpoint: Endpoint::Cast }, Action::ReadBody)
    ));
    assert!(matches!(
        d.route_request("/notify"),
        (Phase::Received { endpoint: Endpoint::Notify }, Action::ReadBody)
    ));
    match d.route_request("/static/abc.wav") {
        (Phase::Probing { path }, Action::Probe { path: probed }) => {
            assert_eq!(path, "/scratch/abc.wav");
            assert_eq!(probed, "/scratch/abc.wav");
        }
        other => panic!("{:?}", other),
    }
}

#[test]
fn unknown_route_is_not_found_and_names_the_path() {
    let d = local();
    for url in ["/", "", "/action/speak/", "/Notify", "/static", "/action"] {
        let (reply, _, _) = drive(&d, url, vec![]);
        let (status, success, reason, err) = json(&reply);
        assert_eq!(status, 404);
        assert!(!success);
        assert_eq!(reason, "No such endpoint");
        assert_eq!(err, format!("No endpoint {}", url));
    }
}

#[test]
fn speak_end_to_end() {
    let d = local();
    let (reply, log, files) = drive(
        &d,
        "/action/speak",
        vec![text("hello"), Event::Clock(NOW), exited(true, ""), Event::Played(Ok(())), Event::Removed],
    );
    assert_eq!(json(&reply), (200, true, "Done emitting requested text".to_string(), String::new()));
    assert_eq!(
        log,
        vec![
            "body".to_string(),
            "clock".to_string(),
            format!("run /usr/bin/pico2wave -w {} -l en-US hello", WAV),
            format!("play {}", WAV),
            format!("remove {}", WAV),
        ]
    );
    assert!(files.is_empty());
}

#[test]
fn empty_body_is_a_bad_argument() {
    let d = local();
    for url in ["/action/speak", "/action/cast", "/notify"] {
        let (reply, log, _) =
            drive(&d, url, vec![Event::Body(Err("EOF while parsing a value".to_string()))]);
        let (status, success, reason, err) = json(&reply);
        assert_eq!(status, 400);
        assert!(!success);
        assert_eq!(reason, "Bad arguments");
        assert_eq!(err, "EOF while parsing a value");
        assert_eq!(log, vec!["body"]);
    }
}

#[test]
fn missing_fields_are_bad_arguments() {
    let d = local();
    let none = || Event::Body(Ok(NotifyRequest { text: None, uid: Some("u".to_string()) }));
    for url in ["/action/speak", "/action/cast", "/notify"] {
        let (reply, _, _) = drive(&d, url, vec![none()]);
        assert_eq!(
            json(&reply),
            (400, false, "Bad arguments".to_string(), "missing field `text`".to_string())
        );
    }
    let (reply, _, _) = drive(&d, "/action/cast", vec![text("hello")]);
    assert_eq!(
        json(&reply),
        (400, false, "Bad arguments".to_string(), "missing field `uid`".to_string())
    );
}

#[test]
fn failed_synthesis_leaves_nothing_to_remove() {
    let d = local();
    let (reply, log, _) = drive(
        &d,
        "/action/speak",
        vec![text("hello"), Event::Clock(NOW), exited(false, "cannot open output")],
    );
    assert_eq!(
        json(&reply),
        (
            400,
            false,
            "Failed to generate TTS from text".to_string(),
            "cannot open output".to_string()
        )
    );
    assert!(log.iter().all(|l| !l.starts_with("remove") && !l.starts_with("play")));
    let (reply, _, _) = drive(
        &d,
        "/action/cast",
        vec![text_for("hello", "kitchen"), Event::Clock(NOW), exited(false, "x")],
    );
    assert_eq!(json(&reply), (400, false, "Failed to generate TTS".to_string(), "x".to_string()));
}

#[test]
fn failed_playback_still_removes_the_file() {
    let d = local();
    let (reply, log, files) = drive(
        &d,
        "/action/speak",
        vec![
            text("hello"),
            Event::Clock(NOW),
            exited(true, ""),
            Event::Played(Err("decode error".to_string())),
            Event::Removed,
        ],
    );
    assert_eq!(
        json(&reply),
        (400, false, "Failed playing text".to_string(), "decode error".to_string())
    );
    assert_eq!(log.last().unwrap(), &format!("remove {}", WAV));
    assert!(files.is_empty());
}

#[test]
fn external_player_is_looked_for_and_run() {
    let d = daemon("Use Local Speaker", PlaybackStrategy::External);
    let (reply, log, files) = drive(
        &d,
        "/action/speak",
        vec![
            text("hello"),
            Event::Clock(NOW),
            exited(true, ""),
            Event::Located(vec![None, None, Some("/usr/bin/play".to_string())]),
            exited(true, ""),
            Event::Removed,
        ],
    );
    assert_eq!(json(&reply).1, true);
    assert_eq!(log[3], "locate paplay,mplayer,play");
    assert_eq!(log[4], format!("run /usr/bin/play {}", WAV));
    assert_eq!(log[5], format!("remove {}", WAV));
    assert!(files.is_empty());
}

#[test]
fn external_player_failures() {
    let d = daemon("Use Local Speaker", PlaybackStrategy::External);
    let (reply, log, files) = drive(
        &d,
        "/action/speak",
        vec![
            text("hello"),
            Event::Clock(NOW),
            exited(true, ""),
            Event::Located(vec![None, None, None]),
            Event::Removed,
        ],
    );
    let (status, success, reason, err) = json(&reply);
    assert_eq!((status, success, reason.as_str()), (400, false, "Failed playing text"));
    assert!(err.starts_with("Could not find any player in"));
    assert!(err.ends_with(WAV));
    assert_eq!(log.last().unwrap(), &format!("remove {}", WAV));
    assert!(files.is_empty());
    let (reply, _, files) = drive(
        &d,
        "/action/speak",
        vec![
            text("hello"),
            Event::Clock(NOW),
            exited(true, ""),
            Event::Located(vec![Some("/usr/bin/paplay".to_string())]),
            exited(false, "connection refused"),
            Event::Removed,
        ],
    );
    assert_eq!(
        json(&reply),
        (400, false, "Failed playing text".to_string(), "connection refused".to_string())
    );
    assert!(files.is_empty());
}

fn cast_script(load: Event) -> Vec<Event> {
    vec![
        text_for("hello", "kitchen"),
        Event::Clock(NOW),
        exited(true, ""),
        Event::Address(Ok("192.168.1.7".to_string())),
        Event::Located(vec![Some("/usr/bin/go-chromecast".to_string())]),
        load,
        exited(true, ""),
        Event::Removed,
    ]
}

#[test]
fn cast_end_to_end() {
    let d = local();
    let (reply, log, files) = drive(&d, "/action/cast", cast_script(exited(true, "")));
    assert_eq!(json(&reply), (200, true, "Content casted".to_string(), String::new()));
    let url = "http://192.168.1.7:8090/static/e6b0980d989e0f6101ec56b399113d23.wav";
    assert_eq!(
        log,
        vec![
            "body".to_string(),
            "clock".to_string(),
            format!("run /usr/bin/pico2wave -w {} -l en-US hello", WAV),
            "address".to_string(),
            "locate go-chromecast".to_string(),
            format!("run go-chromecast load -u kitchen {}", url),
            "run go-chromecast stop -u kitchen".to_string(),
            format!("remove {}", WAV),
        ]
    );
    assert!(files.is_empty());
}

#[test]
fn cast_to_an_unknown_device_reports_the_tool_verbatim() {
    let d = local();
    let stderr = "Error: unable to find cast device with uuid 'kitchen'\nexit status 1\n";
    let (reply, log, files) = drive(&d, "/action/cast", cast_script(exited(false, stderr)));
    assert_eq!(json(&reply), (400, false, "Failed to cast content".to_string(), stderr.to_string()));
    assert_eq!(log[6], "run go-chromecast stop -u kitchen");
    assert_eq!(log[7], format!("remove {}", WAV));
    assert!(files.is_empty());
}

#[test]
fn stop_and_removal_failures_do_not_change_the_answer() {
    let d = local();
    let mut script = cast_script(exited(true, ""));
    script[6] = exited(false, "nothing is playing");
    let (reply, _, _) = drive(&d, "/action/cast", script);
    assert_eq!(json(&reply), (200, true, "Content casted".to_string(), String::new()));
    let mut script = cast_script(exited(true, ""));
    script[6] = Event::Ran(RunResult::NotStarted { reason: "gone".to_string() });
    let (reply, _, _) = drive(&d, "/action/cast", script);
    assert_eq!(json(&reply).1, true);
}

#[test]
fn cast_without_the_tool_or_an_address() {
    let d = local();
    let (reply, log, files) = drive(
        &d,
        "/action/cast",
        vec![
            text_for("hello", "kitchen"),
            Event::Clock(NOW),
            exited(true, ""),
            Event::Address(Ok("192.168.1.7".to_string())),
            Event::Located(vec![None]),
            Event::Removed,
        ],
    );
    assert_eq!(
        json(&reply),
        (
            400,
            false,
            "Failed start cast".to_string(),
            "Cannot locate go-chromecast in path".to_string()
        )
    );
    assert!(log.iter().all(|l| !l.contains("stop") && !l.contains("load")));
    assert!(files.is_empty());
    let (reply, _, files) = drive(
        &d,
        "/action/cast",
        vec![
            text_for("hello", "kitchen"),
            Event::Clock(NOW),
            exited(true, ""),
            Event::Address(Err("no interface".to_string())),
            Event::Removed,
        ],
    );
    assert_eq!(
        json(&reply),
        (400, false, "Failed start cast".to_string(), "no interface".to_string())
    );
    assert!(files.is_empty());
}

#[test]
fn notify_with_the_local_speaker_is_speak() {
    let d = local();
    let script = || {
        vec![text("hello"), Event::Clock(NOW), exited(true, ""), Event::Played(Ok(())), Event::Removed]
    };
    let (a, log_a, _) = drive(&d, "/notify", script());
    let (b, log_b, _) = drive(&d, "/action/speak", script());
    assert_eq!(json(&a), json(&b));
    assert_eq!(log_a, log_b);
}

#[test]
fn notify_with_a_device_is_cast_to_that_device() {
    let d = daemon("kitchen", PlaybackStrategy::Native);
    let mut script = cast_script(exited(true, ""));
    script[0] = text("hello");
    let (a, log_a, _) = drive(&d, "/notify", script);
    let (b, log_b, _) = drive(&d, "/action/cast", cast_script(exited(true, "")));
    assert_eq!(json(&a), json(&b));
    assert_eq!(log_a, log_b);
    assert!(log_a.contains(&"run go-chromecast stop -u kitchen".to_string()));
    assert!(!d.notifies_locally());
    assert!(local().notifies_locally());
}

#[test]
fn static_requests() {
    let d = local();
    let (reply, log, _) = drive(&d, "/static/abc.wav", vec![Event::Probed(FileStatus::Regular)]);
    assert_eq!(log, vec!["probe /scratch/abc.wav"]);
    match reply {
        Reply::File { content_type, path } => {
            assert_eq!(content_type, "audio/wav");
            assert_eq!(path, "/scratch/abc.wav");
        }
        other => panic!("{:?}", other),
    }
    let (reply, _, _) = drive(&d, "/static/never-made.wav", vec![Event::Probed(FileStatus::Missing)]);
    assert!(matches!(reply, Reply::NotFound));
    let (reply, _, _) = drive(
        &d,
        "/static/abc.wav",
        vec![Event::Probed(FileStatus::Unreadable("permission denied".to_string()))],
    );
    assert_eq!(
        json(&reply),
        (
            404,
            false,
            "Sending static file /scratch/abc.wav".to_string(),
            "permission denied".to_string()
        )
    );
}

#[test]
fn static_requests_do_not_leave_the_scratch_directory() {
    let d = local();
    for url in [
        "/static/../secret",
        "/static/..",
        "/static/.",
        "/static/",
        "/static//etc/passwd",
        "/static/a/b.wav",
        "/static/a/../../etc/passwd",
        "/static/x/",
    ] {
        assert_eq!(d.handle_static_req(url), None);
        let (reply, log, _) = drive(&d, url, vec![]);
        assert!(matches!(reply, Reply::NotFound));
        assert!(log.is_empty());
    }
    assert_eq!(d.handle_static_req("/static/..a"), Some("/scratch/..a".to_string()));
    assert_eq!(d.handle_static_req("/static/a.wav"), Some("/scratch/a.wav".to_string()));
    assert_eq!(d.handle_static_req("/other/a.wav"), None);
    assert_eq!(d.handle_static_req("static/a.wav"), None);
}

#[test]
fn plain_names() {
    let chars = |s: &str| s.chars().collect::<Vec<char>>();
    assert!(plain_name(&chars("a.wav")));
    assert!(plain_name(&chars("...")));
    assert!(plain_name(&chars(".a")));
    assert!(!plain_name(&chars("")));
    assert!(!plain_name(&chars(".")));
    assert!(!plain_name(&chars("..")));
    assert!(!plain_name(&chars("a/b")));
    assert!(!plain_name(&chars("/")));
}

#[test]
fn every_generated_file_can_be_fetched() {
    let d = local();
    let job = d.tts.speak_to_file("hello", NOW);
    let sentence = TtsSentence::new(&job.outpath, "hello");
    let url = d.sentence_static_url(&sentence, "10.1.2.3");
    assert_eq!(url, "http://10.1.2.3:8090/static/e6b0980d989e0f6101ec56b399113d23.wav");
    let path = url.strip_prefix("http://10.1.2.3:8090").unwrap();
    assert_eq!(d.handle_static_req(path), Some(job.outpath));
}

#[test]
fn static_response_for_each_status() {
    assert!(matches!(
        Notifyd::static_response("/s/a".to_string(), FileStatus::Missing),
        Reply::NotFound
    ));
    assert!(matches!(
        Notifyd::static_response("/s/a".to_string(), FileStatus::Regular),
        Reply::File { .. }
    ));
}

#[test]
fn a_report_out_of_turn_ends_the_request_cleanly() {
    let d = local();
    // Nothing is held yet: the request is answered at once.
    let (reply, _, _) = drive(&d, "/action/speak", vec![Event::Removed]);
    assert_eq!(
        json(&reply),
        (400, false, "Internal error".to_string(), "unexpected event".to_string())
    );
    // A file is held: it is removed first.
    let (reply, log, files) = drive(
        &d,
        "/action/speak",
        vec![text("hello"), Event::Clock(NOW), exited(true, ""), Event::Clock(1), Event::Removed],
    );
    assert_eq!(json(&reply).2, "Internal error");
    assert_eq!(log.last().unwrap(), &format!("remove {}", WAV));
    assert!(files.is_empty());
    // A cast is under way: the device is stopped, then the file is removed.
    let mut script = cast_script(Event::Removed);
    script.truncate(6);
    script.push(Event::Removed);
    script.push(Event::Removed);
    let (reply, log, files) = drive(&d, "/action/cast", script);
    assert_eq!(json(&reply).2, "Internal error");
    assert_eq!(log[6], "run go-chromecast stop -u kitchen");
    assert_eq!(log[7], format!("remove {}", WAV));
    assert!(files.is_empty());
}

#[test]
fn nothing_happens_after_the_answer() {
    let d = local();
    let (phase, action) = d.step(Phase::Responded, Event::Removed);
    assert!(matches!(phase, Phase::Responded));
    assert!(matches!(action, Action::Idle));
    let (phase, action) = d.step(Phase::Responded, text("again"));
    assert!(matches!(phase, Phase::Responded));
    assert!(matches!(action, Action::Idle));
}

#[test]
fn handlers_by_name() {
    let d = daemon("kitchen", PlaybackStrategy::Native);
    let body = || Ok(NotifyRequest { text: Some("t".to_string()), uid: Some("u".to_string()) });
    assert!(matches!(
        Notifyd::handle_tts_request(body()),
        (Phase::Validated { .. }, Action::ReadClock)
    ));
    match Notifyd::handle_bcast_req(body()) {
        (Phase::Validated { text, target }, Action::ReadClock) => {
            assert_eq!(text, "t");
            assert!(matches!(target, notifyd::protocol::Delivery::Device(ref u) if u == "u"));
        }
        other => panic!("{:?}", other),
    }
    match d.handle_notify_req(body()) {
        (Phase::Validated { target, .. }, Action::ReadClock) => {
            assert!(matches!(target, notifyd::protocol::Delivery::Device(ref u) if u == "kitchen"));
        }
        other => panic!("{:?}", other),
    }
    assert!(matches!(
        Notifyd::do_tts("x".to_string()),
        (Phase::Validated { target: notifyd::protocol::Delivery::Local, .. }, Action::ReadClock)
    ));
    assert!(matches!(
        Notifyd::do_bcast("x".to_string(), "u".to_string()),
        (Phase::Validated { .. }, Action::ReadClock)
    ));
}

#[test]
fn giving_up_a_handle_removes_its_file() {
    match TtsSentence::new("/scratch/a.wav", "hi").delete() {
        Action::Remove { path } => assert_eq!(path, "/scratch/a.wav"),
        other => panic!("{:?}", other),
    }
}
