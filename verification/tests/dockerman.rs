use bytes::Bytes;
use golem_unlimited::dockerman::{
    call_failure, run_command, run_commands, CommandRun, CreateReply, Dispatch, DockerMan,
    Startup, Step,
};
use golem_unlimited::engine::{EngineReply, EngineRequest, HttpStatus};
use golem_unlimited::envman::{
    Command, CreateSession, DestroySession, Error, Image, ResourceFormat, SessionUpdate,
};
use golem_unlimited::model::{CreateOptions, VolumeDef};
use golem_unlimited::session::SessionStatus;

fn strings(items: &[&str]) -> Vec<String> {
    items.iter().map(|s| s.to_string()).collect()
}

fn ready_backend() -> DockerMan {
    let mut man = DockerMan::new("/var/lib/provider");
    match man.started(Ok(())) {
        Startup::Register(name) => assert_eq!(name, "docker"),
        Startup::Stop => panic!("the backend must register itself"),
    }
    man
}

fn create(man: &mut DockerMan, volumes: Vec<VolumeDef>, container: &str) -> Result<String, Error> {
    let msg = CreateSession {
        env_type: "docker".to_string(),
        image: Image::new("alpine:3".to_string(), "sha256:0".to_string()),
        options: CreateOptions { volumes, cmd: None },
    };
    let plan = man.handle_create_session(&msg, "w1")?;
    man.finish_create_session(plan, CreateReply::Created(container.to_string()))
}

/// An engine in which every call succeeds; a process prints its arguments.
fn echo_engine(request: &EngineRequest) -> EngineReply {
    match request {
        EngineRequest::Exec { config, .. } => {
            if config.cmd[0] == "false" {
                EngineReply::Failed("exit status 1".to_string())
            } else {
                EngineReply::Output(vec![Bytes::from(config.cmd[1..].join(" "))])
            }
        }
        EngineRequest::ArchiveGet { .. } => EngineReply::Response(HttpStatus::new(200).unwrap()),
        _ => EngineReply::Done,
    }
}

fn drive(
    man: &mut DockerMan,
    mut run: CommandRun,
    engine: fn(&EngineRequest) -> EngineReply,
) -> (Result<Vec<String>, Vec<String>>, usize) {
    loop {
        match run.advance(man) {
            Step::Call(request) => {
                let reply = engine(&request);
                assert!(run.resume(man, reply));
            }
            Step::Done(verdict) => return (verdict, run.executed()),
        }
    }
}

fn update(
    man: &mut DockerMan,
    id: &str,
    commands: Vec<Command>,
) -> Result<Vec<String>, Vec<String>> {
    let run = man.handle_session_update(SessionUpdate { session_id: id.to_string(), commands })?;
    drive(man, run, echo_engine).0
}

#[test]
fn create_session_with_one_bind_volume() {
    let mut man = ready_backend();
    let volume = VolumeDef::BindRw {
        src: "/host/data".to_string(),
        target: "/workspace/data".to_string(),
    };
    let msg = CreateSession {
        env_type: "docker".to_string(),
        image: Image::new("alpine:3".to_string(), "sha256:0".to_string()),
        options: CreateOptions { volumes: vec![volume.duplicate()], cmd: None },
    };
    let plan = man.handle_create_session(&msg, "w1").unwrap();
    assert_eq!(plan.container().host_config.binds, strings(&["/host/data:/workspace/data"]));
    assert_eq!(plan.container().image, "alpine:3");
    assert_eq!(plan.container().volumes, strings(&["/workspace"]));
    assert!(plan.container().tty && plan.container().open_stdin);
    assert!(plan.container().attach_stdin && plan.container().attach_stdout);
    assert!(plan.container().attach_stderr);
    assert_eq!(plan.pull().image, "alpine:3");
    assert_eq!(plan.workspace().path(), "/var/lib/provider/docker/w1");
    let id = man.finish_create_session(plan, CreateReply::Created("c0ffee".to_string())).unwrap();
    assert_eq!(id, "c0ffee");
    let session = man.session(&id).unwrap();
    assert_eq!(session.status(), SessionStatus::Created);
    assert_eq!(session.container(), "c0ffee");
    assert_eq!(session.workspace().volumes().len(), 1);
    assert!(session.workspace().volumes()[0] == volume);
    assert_eq!(session.workspace().name(), "docker");
}

#[test]
fn open_exec_close() {
    let mut man = ready_backend();
    let id = create(&mut man, vec![], "c1").unwrap();
    let commands = vec![
        Command::Open,
        Command::Exec { executable: "echo".to_string(), args: strings(&["hi"]) },
        Command::Close,
    ];
    assert_eq!(update(&mut man, &id, commands), Ok(strings(&["OK", "hi", "OK"])));
    assert_eq!(man.session(&id).unwrap().status(), SessionStatus::Stopped);
}

#[test]
fn update_of_unknown_session() {
    let mut man = ready_backend();
    let result = update(&mut man, "ghost", vec![Command::Open]);
    assert_eq!(result, Err(strings(&["Error: no such session ghost"])));
}

#[test]
fn failure_stops_the_batch() {
    let mut man = ready_backend();
    let id = create(&mut man, vec![], "c1").unwrap();
    let commands = vec![
        Command::AddTags(strings(&["gpu"])),
        Command::Exec { executable: "false".to_string(), args: vec![] },
        Command::AddTags(strings(&["extra"])),
    ];
    let run = man
        .handle_session_update(SessionUpdate { session_id: id.clone(), commands })
        .ok()
        .unwrap();
    let (verdict, executed) = drive(&mut man, run, echo_engine);
    assert_eq!(
        verdict,
        Err(strings(&["tags inserted. Current tags are: [\"gpu\"]", "exit status 1"]))
    );
    assert_eq!(executed, 2);
    assert_eq!(man.session(&id).unwrap().workspace().tags(), strings(&["gpu"]));
}

#[test]
fn destroy_of_unknown_session() {
    let mut man = ready_backend();
    create(&mut man, vec![], "c1").unwrap();
    let msg = DestroySession { session_id: "ghost".to_string() };
    match man.handle_destroy_session(&msg) {
        Err(Error::NoSuchSession(id)) => assert_eq!(id, "ghost"),
        other => panic!("unexpected answer: {:?}", other),
    }
    match man.finish_destroy_session(&"ghost".to_string(), Ok(())) {
        Err(Error::NoSuchSession(id)) => assert_eq!(id, "ghost"),
        _ => panic!("a session that is not registered cannot be torn down"),
    }
    let sessions = man.handle_get_sessions();
    assert_eq!(sessions.len(), 1);
    assert_eq!(sessions[0].id, "c1");
}

#[test]
fn destroy_removes_the_session() {
    let mut man = ready_backend();
    let id = create(&mut man, vec![], "c1").unwrap();
    let msg = DestroySession { session_id: id.clone() };
    assert_eq!(man.handle_destroy_session(&msg).unwrap(), "c1");
    let (answer, workspace) = man.finish_destroy_session(&id, Ok(())).ok().unwrap();
    assert_eq!(answer, "done");
    assert_eq!(workspace.path(), "/var/lib/provider/docker/w1");
    assert!(!man.contains_session(&id));
    assert!(man.handle_get_sessions().is_empty());
    assert_eq!(
        update(&mut man, &id, vec![Command::Close]),
        Err(strings(&["Error: no such session c1"]))
    );
    match man.handle_destroy_session(&msg) {
        Err(Error::NoSuchSession(gone)) => assert_eq!(gone, "c1"),
        other => panic!("unexpected answer: {:?}", other),
    }
}

#[test]
fn failed_deletion_keeps_the_session() {
    let mut man = ready_backend();
    let id = create(&mut man, vec![], "c1").unwrap();
    match man.finish_destroy_session(&id, Err("busy".to_string())) {
        Err(Error::EngineError(message)) => assert_eq!(message, "docker error"),
        _ => panic!("the deletion failed"),
    }
    assert!(man.contains_session(&id));
}

#[test]
fn backend_without_engine_refuses_sessions() {
    let mut man = DockerMan::new("/tmp/gu");
    assert!(matches!(man.started(Err("no socket".to_string())), Startup::Stop));
    assert!(!man.engine_ready());
    match create(&mut man, vec![], "c1") {
        Err(Error::UnknownEnv(name)) => assert_eq!(name, "docker"),
        _ => panic!("no session can be created without the engine"),
    }
    let msg = DestroySession { session_id: "c1".to_string() };
    match man.handle_destroy_session(&msg) {
        Err(Error::UnknownEnv(name)) => assert_eq!(name, "docker"),
        other => panic!("unexpected answer: {:?}", other),
    }
    assert!(man.handle_get_sessions().is_empty());
}

#[test]
fn failed_creation_registers_nothing() {
    let mut man = ready_backend();
    let msg = CreateSession {
        env_type: "docker".to_string(),
        image: Image::new("alpine:3".to_string(), String::new()),
        options: CreateOptions::default(),
    };
    let plan = man.handle_create_session(&msg, "w1").unwrap();
    match man.finish_create_session(plan, CreateReply::DirsFailed("read-only".to_string())) {
        Err(Error::IoError(message)) => assert_eq!(message, "read-only"),
        _ => panic!("the directories were not created"),
    }
    let plan = man.handle_create_session(&msg, "w2").unwrap();
    match man.finish_create_session(plan, CreateReply::EngineFailed("no such image".to_string())) {
        Err(Error::EngineError(message)) => assert_eq!(message, "no such image"),
        _ => panic!("the engine failed"),
    }
    assert!(man.handle_get_sessions().is_empty());
}

#[test]
fn duplicate_container_id_is_refused() {
    let mut man = ready_backend();
    create(&mut man, vec![], "c1").unwrap();
    match create(&mut man, vec![], "c1") {
        Err(Error::DuplicateSession(id)) => assert_eq!(id, "c1"),
        _ => panic!("an id in use must be refused"),
    }
    assert_eq!(man.handle_get_sessions().len(), 1);
}

#[test]
fn tags_are_a_set() {
    let mut man = ready_backend();
    let id = create(&mut man, vec![], "c1").unwrap();
    let result = update(
        &mut man,
        &id,
        vec![
            Command::AddTags(strings(&["gpu", "fast"])),
            Command::AddTags(strings(&["gpu", "fast"])),
            Command::DelTags(strings(&["gpu"])),
            Command::DelTags(strings(&["gpu"])),
        ],
    );
    assert_eq!(
        result,
        Ok(strings(&[
            "tags inserted. Current tags are: [\"gpu\", \"fast\"]",
            "tags inserted. Current tags are: [\"gpu\", \"fast\"]",
            "tags removed. Current tags are: [\"fast\"]",
            "tags removed. Current tags are: [\"fast\"]",
        ]))
    );
    let infos = man.handle_get_sessions();
    assert_eq!(infos[0].tags, strings(&["fast"]));
    assert_eq!(infos[0].name, "docker");
    assert_eq!(infos[0].status, SessionStatus::Created);
    assert_eq!(infos[0].note, None);
    assert!(infos[0].processes.is_empty());
}

#[test]
fn start_and_stop_are_acknowledged() {
    let mut man = ready_backend();
    let id = create(&mut man, vec![], "c1").unwrap();
    let result = update(
        &mut man,
        &id,
        vec![
            Command::Start { executable: "sleep".to_string(), args: strings(&["9"]) },
            Command::Stop { child_id: "1".to_string() },
        ],
    );
    assert_eq!(result, Ok(strings(&["Start mock", "Stop mock"])));
}

#[test]
fn exec_output_skips_chunks_that_are_not_utf8() {
    let mut man = ready_backend();
    let id = create(&mut man, vec![], "c1").unwrap();
    let commands = vec![Command::Exec { executable: "cat".to_string(), args: strings(&["f"]) }];
    let mut run = man
        .handle_session_update(SessionUpdate { session_id: id, commands })
        .ok()
        .unwrap();
    match run.advance(&mut man) {
        Step::Call(EngineRequest::Exec { container, config }) => {
            assert_eq!(container, "c1");
            assert_eq!(config.cmd, strings(&["cat", "f"]));
            assert!(config.attach_stdout && config.attach_stderr);
        }
        other => panic!("unexpected step: {:?}", other),
    }
    assert!(run.is_waiting());
    assert!(!run.resume(&mut man, EngineReply::Done));
    let chunks = vec![
        Bytes::from_static(b"gr\xc3\xbc"),
        Bytes::from_static(b"\xff\xfe"),
        Bytes::from_static(b"n\n"),
    ];
    assert!(run.resume(&mut man, EngineReply::Output(chunks)));
    assert!(!run.resume(&mut man, EngineReply::Done));
    match run.advance(&mut man) {
        Step::Done(verdict) => assert_eq!(verdict, Ok(strings(&["gr\u{fc}n\n"]))),
        other => panic!("unexpected step: {:?}", other),
    }
}

#[test]
fn upload_reports_the_status_of_the_destination() {
    let mut man = ready_backend();
    let id = create(&mut man, vec![], "c1").unwrap();
    let upload = |format| Command::UploadFile {
        uri: "http://store/out \"1\"".to_string(),
        file_path: "/out".to_string(),
        format,
    };
    let commands = vec![upload(ResourceFormat::Raw), upload(ResourceFormat::Tar)];
    let mut run = man
        .handle_session_update(SessionUpdate { session_id: id, commands })
        .ok()
        .unwrap();
    match run.advance(&mut man) {
        Step::Call(EngineRequest::ArchiveGet { container, file_path, uri, untar_single_file }) => {
            assert_eq!(container, "c1");
            assert_eq!(file_path, "/out");
            assert_eq!(uri, "http://store/out \"1\"");
            assert!(untar_single_file);
        }
        other => panic!("unexpected step: {:?}", other),
    }
    assert!(run.resume(&mut man, EngineReply::Response(HttpStatus::new(204).unwrap())));
    match run.advance(&mut man) {
        Step::Call(EngineRequest::ArchiveGet { untar_single_file, .. }) => {
            assert!(!untar_single_file)
        }
        other => panic!("unexpected step: {:?}", other),
    }
    assert!(run.resume(&mut man, EngineReply::Response(HttpStatus::new(404).unwrap())));
    match run.advance(&mut man) {
        Step::Done(verdict) => assert_eq!(
            verdict,
            Err(strings(&[
                "\"http://store/out \\\"1\\\"\" file uploaded",
                "Unsuccessful file upload: 404 Not Found",
            ]))
        ),
        other => panic!("unexpected step: {:?}", other),
    }
}

#[test]
fn download_is_streamed_into_the_container() {
    let mut man = ready_backend();
    let id = create(&mut man, vec![], "c1").unwrap();
    let commands = vec![Command::DownloadFile {
        uri: "http://store/in.tar".to_string(),
        file_path: "/in".to_string(),
        format: ResourceFormat::Tar,
    }];
    let mut run = man
        .handle_session_update(SessionUpdate { session_id: id, commands })
        .ok()
        .unwrap();
    match run.advance(&mut man) {
        Step::Call(EngineRequest::ArchivePut { container, uri, remote_path, format }) => {
            assert_eq!(container, "c1");
            assert_eq!(uri, "http://store/in.tar");
            assert_eq!(remote_path, "/in");
            assert_eq!(format, ResourceFormat::Tar);
        }
        other => panic!("unexpected step: {:?}", other),
    }
    assert!(run.resume(&mut man, EngineReply::Done));
    match run.advance(&mut man) {
        Step::Done(verdict) => assert_eq!(verdict, Ok(strings(&["OK"]))),
        other => panic!("unexpected step: {:?}", other),
    }
}

#[test]
fn commands_fail_without_the_engine() {
    let mut man = ready_backend();
    let id = create(&mut man, vec![], "c1").unwrap();
    man.started(Err("engine went away".to_string()));
    let result = update(&mut man, &id, vec![Command::AddTags(strings(&["gpu"])), Command::Open]);
    assert_eq!(result, Err(strings(&["Error: unknown environment docker"])));
    assert_eq!(
        result.unwrap_err()[0],
        Error::UnknownEnv("docker".to_string()).to_string()
    );
    assert!(man.session(&id).unwrap().workspace().tags().is_empty());
    let mocks = vec![
        Command::Start { executable: "sleep".to_string(), args: vec![] },
        Command::Stop { child_id: "1".to_string() },
    ];
    assert_eq!(
        update(&mut man, &id, mocks),
        Err(strings(&["Error: unknown environment docker"]))
    );
    match run_command(&mut man, &id, &Command::DelTags(strings(&["gpu"]))) {
        Dispatch::Finished(Err(message)) => {
            assert_eq!(message, "Error: unknown environment docker")
        }
        other => panic!("unexpected answer: {:?}", other),
    }
}

#[test]
fn http_status_is_a_three_digit_code() {
    assert!(HttpStatus::new(99).is_none());
    assert!(HttpStatus::new(1000).is_none());
    let ok = HttpStatus::new(200).unwrap();
    assert!(ok.is_success());
    assert_eq!(ok.as_u16(), 200);
    assert_eq!(ok.to_string(), "200 OK");
    assert!(HttpStatus::new(299).unwrap().is_success());
    assert!(!HttpStatus::new(199).unwrap().is_success());
    assert!(!HttpStatus::new(300).unwrap().is_success());
    assert_eq!(HttpStatus::new(999).unwrap().to_string(), "999 <unknown status code>");
}

#[test]
fn failed_calls_are_sorted_by_their_kind() {
    let start = EngineRequest::Start { container: "c1".to_string() };
    let get = EngineRequest::ArchiveGet {
        container: "c1".to_string(),
        file_path: "/out".to_string(),
        uri: "http://store/out".to_string(),
        untar_single_file: true,
    };
    let put = EngineRequest::ArchivePut {
        container: "c1".to_string(),
        uri: "http://store/in".to_string(),
        remote_path: "/in".to_string(),
        format: ResourceFormat::Raw,
    };
    let failed = || EngineReply::Failed("broken pipe".to_string());
    match call_failure(&start, &failed()) {
        Some(Error::EngineError(message)) => assert_eq!(message, "broken pipe"),
        other => panic!("unexpected failure: {:?}", other),
    }
    match call_failure(&put, &failed()) {
        Some(Error::TransferError(message)) => assert_eq!(message, "broken pipe"),
        other => panic!("unexpected failure: {:?}", other),
    }
    match call_failure(&get, &EngineReply::Response(HttpStatus::new(500).unwrap())) {
        Some(Error::TransferError(message)) => {
            assert_eq!(message, "Unsuccessful file upload: 500 Internal Server Error")
        }
        other => panic!("unexpected failure: {:?}", other),
    }
    assert!(call_failure(&get, &EngineReply::Response(HttpStatus::new(201).unwrap())).is_none());
    assert!(call_failure(&start, &EngineReply::Done).is_none());
    assert!(call_failure(&start, &EngineReply::Output(vec![])).is_none());
    assert!(start.accepts(&EngineReply::Done) && !start.accepts(&EngineReply::Output(vec![])));
    assert!(get.accepts(&failed()) && !get.accepts(&EngineReply::Done));
}

#[test]
fn commands_leave_other_sessions_alone() {
    let mut man = ready_backend();
    let first = create(&mut man, vec![], "c1").unwrap();
    let second = create(&mut man, vec![], "c2").unwrap();
    let result = update(&mut man, &first, vec![Command::AddTags(strings(&["gpu"])), Command::Open]);
    assert!(result.is_ok());
    let other = man.session(&second).unwrap();
    assert!(other.workspace().tags().is_empty());
    assert_eq!(other.status(), SessionStatus::Created);
    assert_eq!(other.container(), "c2");
    let ids: Vec<String> = man.handle_get_sessions().into_iter().map(|i| i.id).collect();
    assert_eq!(ids, strings(&["c1", "c2"]));
}

#[test]
fn batch_for_an_unknown_session_runs_nothing() {
    let mut man = ready_backend();
    create(&mut man, vec![], "c1").unwrap();
    let mocks = || {
        vec![
            Command::Start { executable: "sleep".to_string(), args: vec![] },
            Command::Stop { child_id: "1".to_string() },
        ]
    };
    let refusal = strings(&["Error: no such session ghost"]);
    assert_eq!(run_commands(&man, "ghost".to_string(), mocks()).err(), Some(refusal.clone()));
    assert_eq!(run_commands(&man, "ghost".to_string(), vec![]).err(), Some(refusal.clone()));
    assert_eq!(update(&mut man, "ghost", mocks()), Err(refusal));
    match run_command(&mut man, &"ghost".to_string(), &mocks()[0]) {
        Dispatch::Finished(Err(message)) => assert_eq!(message, "Error: no such session ghost"),
        other => panic!("unexpected answer: {:?}", other),
    }
    assert!(run_commands(&man, "c1".to_string(), mocks()).is_ok());
}

#[test]
fn batch_is_refused_when_its_session_is_gone_before_the_first_command() {
    let mut man = ready_backend();
    let id = create(&mut man, vec![], "c1").unwrap();
    let commands = vec![Command::Start { executable: "sleep".to_string(), args: vec![] }];
    let mut run = run_commands(&man, id.clone(), commands).ok().unwrap();
    assert!(man.finish_destroy_session(&id, Ok(())).is_ok());
    match run.advance(&mut man) {
        Step::Done(verdict) => assert_eq!(verdict, Err(strings(&["Error: no such session c1"]))),
        other => panic!("unexpected step: {:?}", other),
    }
    assert_eq!(run.executed(), 0);
    let mut empty = run_commands(&ready_backend_with("c2"), "c2".to_string(), vec![]).ok().unwrap();
    match empty.advance(&mut man) {
        Step::Done(verdict) => assert_eq!(verdict, Err(strings(&["Error: no such session c2"]))),
        other => panic!("unexpected step: {:?}", other),
    }
}

fn ready_backend_with(container: &str) -> DockerMan {
    let mut man = ready_backend();
    create(&mut man, vec![], container).unwrap();
    man
}

#[test]
fn command_fails_when_its_session_is_gone_in_the_middle_of_a_batch() {
    let mut man = ready_backend();
    let id = create(&mut man, vec![], "c1").unwrap();
    let commands = vec![
        Command::Open,
        Command::Start { executable: "sleep".to_string(), args: vec![] },
        Command::AddTags(strings(&["late"])),
    ];
    let mut run = run_commands(&man, id.clone(), commands).ok().unwrap();
    assert!(matches!(run.advance(&mut man), Step::Call(EngineRequest::Start { .. })));
    assert!(run.resume(&mut man, EngineReply::Done));
    assert!(man.finish_destroy_session(&id, Ok(())).is_ok());
    match run.advance(&mut man) {
        Step::Done(verdict) => {
            assert_eq!(verdict, Err(strings(&["OK", "Error: no such session c1"])))
        }
        other => panic!("unexpected step: {:?}", other),
    }
    assert_eq!(run.executed(), 2);
}

#[test]
fn answer_that_does_not_fit_fails_the_command() {
    let mut man = ready_backend();
    let id = create(&mut man, vec![], "c1").unwrap();
    let commands = vec![
        Command::AddTags(strings(&["gpu"])),
        Command::Open,
        Command::AddTags(strings(&["late"])),
    ];
    let mut run = run_commands(&man, id.clone(), commands).ok().unwrap();
    assert!(!run.reject_reply());
    assert!(matches!(run.advance(&mut man), Step::Call(EngineRequest::Start { .. })));
    assert!(!run.resume(&mut man, EngineReply::Output(vec![])));
    assert!(run.is_waiting());
    assert!(run.reject_reply());
    assert!(!run.is_waiting());
    match run.advance(&mut man) {
        Step::Done(verdict) => assert_eq!(
            verdict,
            Err(strings(&[
                "tags inserted. Current tags are: [\"gpu\"]",
                "Error: engine failure: unexpected answer",
            ]))
        ),
        other => panic!("unexpected step: {:?}", other),
    }
    assert_eq!(man.session(&id).unwrap().status(), SessionStatus::Created);
    assert_eq!(man.session(&id).unwrap().workspace().tags(), strings(&["gpu"]));
}
