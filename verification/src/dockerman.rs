//! Docker mode implementation.
//!
//! The backend keeps its sessions in a registry and decides what each
//! request means for them. The calls against the container engine are made
//! by whoever drives the backend: a request is answered either at once or
//! with the call to make, and the call's outcome is handed back in.

use crate::deployment::{DeployManager, IntoDeployInfo};
use crate::engine::{
    answers, decode_output, decoded_output, status_text, EngineReply, EngineReplyView, EngineRequest,
    EngineRequestView, ExecConfig, HttpStatus,
};
use crate::envman::{
    error_text, Command, CommandView, CreateSession, DestroySession, Error, ErrorView, ResourceFormat,
    SessionUpdate,
};
use crate::model::{volume_views, CreateOptions, VolumeDefView};
use crate::pipeline::{outcome_view, verdict_view, Batch, BatchView};
use crate::session::{info_views, SessionInfo, SessionInfoView, SessionStatus};
use crate::table::TableModel;
use crate::text::{copy_strings, debug_list, debug_list_text, debug_quoted, debug_text, join2, join3};
use crate::workspace::{merge_tags, strip_tags, Workspace, WorkspaceView, WorkspacesManager};
use vstd::prelude::*;

verus! {

/// One container session: its workspace, its container and its state.
pub struct DockerSession {
    workspace: Workspace,
    container: String,
    status: SessionStatus,
}

/// The mathematical content of a [`DockerSession`].
pub struct DockerSessionView {
    pub workspace: WorkspaceView,
    /// The id that the engine gave to the container.
    pub container: Seq<char>,
    pub status: SessionStatus,
}

impl View for DockerSession {
    type V = DockerSessionView;

    closed spec fn view(&self) -> DockerSessionView {
        DockerSessionView { workspace: self.workspace@, container: self.container@, status: self.status }
    }
}

/// What a container session reports of itself.
pub open spec fn session_info(session: DockerSessionView, id: Seq<char>) -> SessionInfoView {
    SessionInfoView {
        id,
        name: session.workspace.name,
        status: session.status,
        tags: session.workspace.tags,
        note: None,
        processes: Seq::empty(),
    }
}

impl IntoDeployInfo for DockerSession {
    open spec fn info(&self, id: Seq<char>) -> SessionInfoView {
        session_info(self@, id)
    }

    fn convert(&self, id: &String) -> (r: SessionInfo) {
        let r = SessionInfo {
            id: id.clone(),
            name: self.workspace.name().clone(),
            status: self.status,
            tags: self.workspace.tags(),
            note: None,
            processes: Vec::new(),
        };
        assert(r.processes.deep_view() =~= Seq::<Seq<char>>::empty());
        r
    }
}

/// The message with which a command acknowledges the engine's work.
pub open spec fn ack_text() -> Seq<char> {
    "OK"@
}

/// The message of an upload that the destination accepted.
pub open spec fn uploaded_text(uri: Seq<char>) -> Seq<char> {
    debug_text(uri) + " file uploaded"@
}

/// The message of an upload that the destination refused with the status `code`.
pub open spec fn refused_text(code: u16) -> Seq<char> {
    "Unsuccessful file upload: "@ + status_text(code)
}

/// What an upload yields once the destination has answered with `code`.
pub open spec fn upload_outcome(uri: Seq<char>, code: u16) -> Result<Seq<char>, Seq<char>> {
    if 200 <= code < 300 {
        Ok(uploaded_text(uri))
    } else {
        Err(refused_text(code))
    }
}

/// The success message of an upload to `uri`, given `quoted`, the `Debug`
/// form of the address.
pub fn uploaded_message(quoted: &str) -> (r: String)
    ensures
        r@ == quoted@ + " file uploaded"@,
{
    join2(quoted, " file uploaded")
}

/// The failure message of an upload, given the status line of the answer.
pub fn refused_message(status_line: &str) -> (r: String)
    ensures
        r@ == "Unsuccessful file upload: "@ + status_line@,
{
    join2("Unsuccessful file upload: ", status_line)
}

impl DockerSession {
    pub open spec fn wf(&self) -> bool {
        self@.workspace.wf()
    }

    /// The session of a container that was just created.
    pub fn new(workspace: Workspace, container: String) -> (r: Self)
        requires
            workspace.wf(),
        ensures
            r.wf(),
            r@ == (DockerSessionView {
                workspace: workspace@,
                container: container@,
                status: SessionStatus::Created,
            }),
    {
        DockerSession { workspace, container, status: SessionStatus::Created }
    }

    pub fn workspace(&self) -> (r: &Workspace)
        ensures
            r@ == self@.workspace,
    {
        &self.workspace
    }

    pub fn container(&self) -> (r: &String)
        ensures
            r@ == self@.container,
    {
        &self.container
    }

    pub fn status(&self) -> (r: SessionStatus)
        ensures
            r == self@.status,
    {
        self.status
    }

    /// Takes the session apart, for its resources to be released.
    pub fn into_workspace(self) -> (r: Workspace)
        ensures
            r@ == self@.workspace,
    {
        self.workspace
    }

    /// How a command line is run in a container: the executable goes in
    /// front of its arguments, and both output streams are attached.
    pub fn exec_config(executable: &String, args: &Vec<String>) -> (r: ExecConfig)
        ensures
            r.attach_stdout,
            r.attach_stderr,
            r.cmd.deep_view() == seq![executable@] + args.deep_view(),
    {
        let mut cmd = copy_strings(args);
        cmd.insert(0, executable.clone());
        assert(cmd.deep_view() =~= seq![executable@] + args.deep_view());
        ExecConfig { attach_stdout: true, attach_stderr: true, cmd }
    }

    /// What `Open` yields once the engine has tried to start the container:
    /// a started container is acknowledged and the session is running.
    pub fn do_open(&mut self, started: Result<(), String>) -> (r: Result<String, String>)
        ensures
            match started {
                Ok(_) => outcome_view(r) == Ok::<Seq<char>, Seq<char>>(ack_text()) && final(self)@ == (
                DockerSessionView { status: SessionStatus::Running, ..old(self)@ }),
                Err(e) => outcome_view(r) == Err::<Seq<char>, Seq<char>>(e@) && final(self)@ == old(self)@,
            },
    {
        match started {
            Ok(_) => {
                self.status = SessionStatus::Running;
                Ok(String::from_str("OK"))
            },
            Err(e) => Err(e),
        }
    }

    /// What `Close` yields once the engine has tried to stop the container:
    /// a stopped container is acknowledged and the session is stopped.
    pub fn do_close(&mut self, stopped: Result<(), String>) -> (r: Result<String, String>)
        ensures
            match stopped {
                Ok(_) => outcome_view(r) == Ok::<Seq<char>, Seq<char>>(ack_text()) && final(self)@ == (
                DockerSessionView { status: SessionStatus::Stopped, ..old(self)@ }),
                Err(e) => outcome_view(r) == Err::<Seq<char>, Seq<char>>(e@) && final(self)@ == old(self)@,
            },
    {
        match stopped {
            Ok(_) => {
                self.status = SessionStatus::Stopped;
                Ok(String::from_str("OK"))
            },
            Err(e) => Err(e),
        }
    }

    /// What `Exec` yields once the process has run: the text of its output.
    pub fn do_exec(&mut self, output: Result<Vec<bytes::Bytes>, String>) -> (r: Result<String, String>)
        ensures
            final(self)@ == old(self)@,
            match output {
                Ok(chunks) => outcome_view(r) == Ok::<Seq<char>, Seq<char>>(
                    decoded_output(crate::engine::chunk_contents(chunks@)),
                ),
                Err(e) => outcome_view(r) == Err::<Seq<char>, Seq<char>>(e@),
            },
    {
        match output {
            Ok(chunks) => Ok(decode_output(&chunks)),
            Err(e) => Err(e),
        }
    }

    /// What `DownloadFile` yields once the payload has been streamed into
    /// the container.
    pub fn do_download(&mut self, streamed: Result<(), String>) -> (r: Result<String, String>)
        ensures
            final(self)@ == old(self)@,
            match streamed {
                Ok(_) => outcome_view(r) == Ok::<Seq<char>, Seq<char>>(ack_text()),
                Err(e) => outcome_view(r) == Err::<Seq<char>, Seq<char>>(e@),
            },
    {
        match streamed {
            Ok(_) => Ok(String::from_str("OK")),
            Err(e) => Err(e),
        }
    }

    /// What `UploadFile` yields once the file has been sent to `uri`: the
    /// upload has succeeded where the destination answered with a status
    /// from 200 to 299, and has failed with any other.
    pub fn do_upload(&mut self, uri: &String, answered: Result<HttpStatus, String>) -> (r: Result<
        String,
        String,
    >)
        ensures
            final(self)@ == old(self)@,
            match answered {
                Ok(status) => outcome_view(r) == upload_outcome(uri@, status.code()),
                Err(e) => outcome_view(r) == Err::<Seq<char>, Seq<char>>(e@),
            },
    {
        match answered {
            Ok(status) => {
                if status.is_success() {
                    Ok(uploaded_message(debug_quoted(uri.as_str()).as_str()))
                } else {
                    Err(refused_message(status.to_string().as_str()))
                }
            },
            Err(e) => Err(e),
        }
    }
}

/// How a container is attached to the host.
#[derive(Debug)]
pub struct HostConfig {
    /// The bound volumes, each as `source:target`.
    pub binds: Vec<String>,
}

/// How a container is to be created.
#[derive(Debug)]
pub struct ContainerConfig {
    pub image: String,
    pub tty: bool,
    pub open_stdin: bool,
    pub attach_stdin: bool,
    pub attach_stderr: bool,
    pub attach_stdout: bool,
    /// The mount points inside the container.
    pub volumes: Vec<String>,
    pub host_config: HostConfig,
}

/// Which image is to be pulled.
#[derive(Debug)]
pub struct PullOptions {
    pub image: String,
}

/// The bind argument of a volume: the directory on the host, a colon, and
/// the directory in the container.
pub open spec fn bind_text(volume: VolumeDefView) -> Seq<char> {
    match volume {
        VolumeDefView::BindRw { src, target } => src + ":"@ + target,
    }
}

/// The bind arguments of a list of volumes, in order.
pub open spec fn bind_texts(volumes: Seq<VolumeDefView>) -> Seq<Seq<char>> {
    Seq::new(volumes.len(), |i: int| bind_text(volumes[i]))
}

/// The workspace with every volume of the list recorded, in order.
pub open spec fn record_volumes(workspace: WorkspaceView, volumes: Seq<VolumeDefView>) -> WorkspaceView
    decreases volumes.len(),
{
    if volumes.len() == 0 {
        workspace
    } else {
        record_volumes(workspace, volumes.drop_last()).add_volume(volumes.last())
    }
}

/// The views of the sessions of a registry, under the same ids.
pub open spec fn session_views(deploys: TableModel<DockerSession>) -> TableModel<DockerSessionView> {
    TableModel { keys: deploys.keys, items: Seq::new(deploys.items.len(), |i: int| deploys.items[i]@) }
}

/// The name under which the container backend is registered.
pub open spec fn env_name() -> Seq<char> {
    "docker"@
}

/// The mathematical content of a [`DockerMan`].
pub struct DockerManView {
    /// Whether the engine's client was initialised.
    pub engine_ready: bool,
    pub sessions: TableModel<DockerSessionView>,
}

impl DockerManView {
    /// The registry is well-formed, and so is the workspace of every session.
    pub open spec fn wf(self) -> bool {
        &&& self.sessions.wf()
        &&& forall|i: int| 0 <= i < self.sessions.items.len() ==> (#[trigger] self.sessions.items[i]).workspace.wf()
    }
}

/// The container backend.
pub struct DockerMan {
    engine_ready: bool,
    deploys: DeployManager<DockerSession>,
    workspaces_man: WorkspacesManager,
}

impl View for DockerMan {
    type V = DockerManView;

    closed spec fn view(&self) -> DockerManView {
        DockerManView { engine_ready: self.engine_ready, sessions: session_views(self.deploys@) }
    }
}

/// What the backend does once it knows whether the engine can be reached.
#[derive(Debug)]
pub enum Startup {
    /// Register the backend under this name.
    Register(String),
    /// Stop the backend: it cannot work.
    Stop,
}

/// What the backend wants done for a new session, in this order: the
/// directories of the workspace created, the image pulled, and then the
/// container created.
pub struct CreatePlan {
    env_type: String,
    workspace: Workspace,
    pull: PullOptions,
    container: ContainerConfig,
}

/// The mathematical content of a [`CreatePlan`].
pub struct CreatePlanView {
    pub env_type: Seq<char>,
    pub workspace: WorkspaceView,
    pub pull_image: Seq<char>,
    pub container: ContainerConfigView,
}

/// The mathematical content of a [`ContainerConfig`].
pub struct ContainerConfigView {
    pub image: Seq<char>,
    pub tty: bool,
    pub open_stdin: bool,
    pub attach_stdin: bool,
    pub attach_stderr: bool,
    pub attach_stdout: bool,
    pub volumes: Seq<Seq<char>>,
    pub binds: Seq<Seq<char>>,
}

impl View for ContainerConfig {
    type V = ContainerConfigView;

    open spec fn view(&self) -> ContainerConfigView {
        ContainerConfigView {
            image: self.image@,
            tty: self.tty,
            open_stdin: self.open_stdin,
            attach_stdin: self.attach_stdin,
            attach_stderr: self.attach_stderr,
            attach_stdout: self.attach_stdout,
            volumes: self.volumes.deep_view(),
            binds: self.host_config.binds.deep_view(),
        }
    }
}

/// The configuration of the container of a session: a terminal with
/// standard input open and all three streams attached, the mount point
/// `/workspace`, and the given image and binds.
pub open spec fn container_config_of(image: Seq<char>, binds: Seq<Seq<char>>) -> ContainerConfigView {
    ContainerConfigView {
        image,
        tty: true,
        open_stdin: true,
        attach_stdin: true,
        attach_stderr: true,
        attach_stdout: true,
        volumes: seq!["/workspace"@],
        binds,
    }
}

impl View for CreatePlan {
    type V = CreatePlanView;

    closed spec fn view(&self) -> CreatePlanView {
        CreatePlanView {
            env_type: self.env_type@,
            workspace: self.workspace@,
            pull_image: self.pull.image@,
            container: self.container@,
        }
    }
}

impl CreatePlan {
    /// The workspace whose directories are to be created first.
    pub fn workspace(&self) -> (r: &Workspace)
        ensures
            r@ == self@.workspace,
    {
        &self.workspace
    }

    /// The image to pull before the container is created.
    pub fn pull(&self) -> (r: &PullOptions)
        ensures
            r.image@ == self@.pull_image,
    {
        &self.pull
    }

    /// The container to create once the image is there.
    pub fn container(&self) -> (r: &ContainerConfig)
        ensures
            r@ == self@.container,
    {
        &self.container
    }
}

/// What came of carrying out a [`CreatePlan`].
#[derive(Debug)]
pub enum CreateReply {
    /// The directories of the workspace could not be created.
    DirsFailed(String),
    /// The engine failed to pull the image or to create the container.
    EngineFailed(String),
    /// The engine created the container and gave it this id.
    Created(String),
}

/// The plan for a new session asked for with image `image` and volumes
/// `volumes`, with its workspace kept at `path` and named `name`.
pub open spec fn create_plan_of(
    env_type: Seq<char>,
    image: Seq<char>,
    volumes: Seq<VolumeDefView>,
    name: Seq<char>,
    path: Seq<char>,
) -> CreatePlanView {
    CreatePlanView {
        env_type,
        workspace: record_volumes(
            WorkspaceView { name, path, volumes: Seq::empty(), tags: Seq::empty() },
            volumes,
        ),
        pull_image: image,
        container: container_config_of(image, bind_texts(volumes)),
    }
}

/// What a finished creation yields, and the registry after it.
pub open spec fn create_outcome(man: DockerManView, plan: CreatePlanView, reply: CreateReply) -> (
    Result<Seq<char>, ErrorView>,
    DockerManView,
) {
    match reply {
        CreateReply::DirsFailed(reason) => (Err(ErrorView::IoError(reason@)), man),
        CreateReply::EngineFailed(reason) => (Err(ErrorView::EngineError(reason@)), man),
        CreateReply::Created(id) => if !man.engine_ready {
            (Err(ErrorView::UnknownEnv(plan.env_type)), man)
        } else if man.sessions.contains(id@) {
            (Err(ErrorView::DuplicateSession(id@)), man)
        } else {
            (
                Ok(id@),
                DockerManView {
                    sessions: man.sessions.insert(
                        id@,
                        DockerSessionView {
                            workspace: plan.workspace,
                            container: id@,
                            status: SessionStatus::Created,
                        },
                    ),
                    ..man
                },
            )
        },
    }
}

/// The view of a result that carries a string or an error.
pub open spec fn reply_view(reply: Result<String, Error>) -> Result<Seq<char>, ErrorView> {
    match reply {
        Ok(text) => Ok(text@),
        Err(e) => Err(e@),
    }
}

/// Recording volumes keeps a workspace well-formed and touches only its volumes.
pub proof fn lemma_record_volumes(workspace: WorkspaceView, volumes: Seq<VolumeDefView>)
    requires
        workspace.wf(),
    ensures
        record_volumes(workspace, volumes).wf(),
        record_volumes(workspace, volumes).name == workspace.name,
        record_volumes(workspace, volumes).path == workspace.path,
        record_volumes(workspace, volumes).tags == workspace.tags,
    decreases volumes.len(),
{
    if volumes.len() > 0 {
        lemma_record_volumes(workspace, volumes.drop_last());
        let before = record_volumes(workspace, volumes.drop_last());
        let after = before.add_volume(volumes.last());
        if !before.volumes.contains(volumes.last()) {
            assert forall|i: int, j: int| 0 <= i < after.volumes.len() && 0 <= j < after.volumes.len() && i != j implies after.volumes[i] != after.volumes[j] by {
                if i < before.volumes.len() {
                    assert(before.volumes.contains(after.volumes[i]));
                }
                if j < before.volumes.len() {
                    assert(before.volumes.contains(after.volumes[j]));
                }
            }
        }
    }
}

/// Changing one session of a registry changes its view at that session.
pub proof fn lemma_session_views_put(deploys: TableModel<DockerSession>, id: Seq<char>, session: DockerSession)
    requires
        deploys.wf(),
    ensures
        session_views(deploys.put(id, session)) == session_views(deploys).put(id, session@),
        session_views(deploys.insert(id, session)) == session_views(deploys).insert(id, session@),
        session_views(deploys.remove(id)) == session_views(deploys).remove(id),
        session_views(deploys).wf(),
        session_views(deploys).contains(id) == deploys.contains(id),
        deploys.contains(id) ==> session_views(deploys).get(id) == deploys.get(id)@,
{
    let views = session_views(deploys);
    assert(session_views(deploys.put(id, session)).items =~= views.put(id, session@).items);
    assert(session_views(deploys.insert(id, session)).items =~= views.insert(id, session@).items);
    assert(session_views(deploys.remove(id)).items =~= views.remove(id).items);
}

impl DockerMan {
    pub open spec fn wf(&self) -> bool {
        self@.wf()
    }

    /// The namespace of the backend in the provider's working area.
    pub closed spec fn workspaces(&self) -> WorkspacesManager {
        self.workspaces_man
    }

    /// A backend with no session, which has not reached its engine yet. Its
    /// workspaces live below `work_dir`.
    pub fn new(work_dir: &str) -> (r: Self)
        ensures
            r.wf(),
            !r@.engine_ready,
            r@.sessions == TableModel::<DockerSessionView>::empty(),
            r.workspaces().work_dir() == work_dir@,
            r.workspaces().namespace() == env_name(),
    {
        let r = DockerMan {
            engine_ready: false,
            deploys: DeployManager::default(),
            workspaces_man: WorkspacesManager::new(work_dir, "docker"),
        };
        assert(r@.sessions.items =~= Seq::<DockerSessionView>::empty());
        r
    }

    /// Whether the engine's client was initialised.
    pub fn engine_ready(&self) -> (r: bool)
        ensures
            r == self@.engine_ready,
    {
        self.engine_ready
    }

    /// Whether `id` names a session of this backend.
    pub fn contains_session(&self, id: &String) -> (r: bool)
        requires
            self.wf(),
        ensures
            r == self@.sessions.contains(id@),
    {
        proof {
            lemma_wf_deploys(self.deploys@);
        }
        self.deploys.contains_deploy(id)
    }

    /// The session that `id` names.
    pub fn session(&self, id: &String) -> (r: Option<&DockerSession>)
        requires
            self.wf(),
        ensures
            r is Some <==> self@.sessions.contains(id@),
            r is Some ==> r->0@ == self@.sessions.get(id@) && r->0.wf(),
    {
        proof {
            lemma_wf_deploys(self.deploys@);
            lemma_session_views_put(self.deploys@, id@, arbitrary());
        }
        match self.deploys.deploy(id) {
            Ok(session) => {
                proof {
                    self.deploys@.lemma_position_in_range(id@);
                    let p = self.deploys@.position(id@);
                    assert(self@.sessions.items[p] == session@);
                }
                Some(session)
            },
            Err(_) => None,
        }
    }

    /// Takes in whether the engine's client could be initialised when the
    /// backend started. With a client the backend registers itself as
    /// `docker`; without one it stops, and every later request for a
    /// session fails.
    pub fn started(&mut self, engine: Result<(), String>) -> (r: Startup)
        ensures
            final(self)@ == (DockerManView { engine_ready: engine is Ok, ..old(self)@ }),
            final(self).workspaces() == old(self).workspaces(),
            engine is Ok ==> (r matches Startup::Register(name) && name@ == env_name()),
            engine is Err ==> r is Stop,
    {
        match engine {
            Ok(_) => {
                self.engine_ready = true;
                Startup::Register(String::from_str("docker"))
            },
            Err(_) => {
                self.engine_ready = false;
                Startup::Stop
            },
        }
    }

    /// The configuration of the container of a session.
    pub fn container_config(image: String, host_config: HostConfig) -> (r: ContainerConfig)
        ensures
            r@ == container_config_of(image@, host_config.binds.deep_view()),
    {
        let mut volumes: Vec<String> = Vec::new();
        volumes.push(String::from_str("/workspace"));
        assert(volumes.deep_view() =~= seq!["/workspace"@]);
        ContainerConfig {
            image,
            tty: true,
            open_stdin: true,
            attach_stdin: true,
            attach_stderr: true,
            attach_stdout: true,
            volumes,
            host_config,
        }
    }

    /// The options with which the image `uri` is pulled.
    pub fn pull_config(uri: String) -> (r: PullOptions)
        ensures
            r.image@ == uri@,
    {
        PullOptions { image: uri }
    }

    /// The bind arguments of the volumes that a new session asks for, and
    /// the session's workspace, kept in `dir_name`, with those volumes recorded.
    pub fn binds_and_workspace(&self, msg: &CreateSession<CreateOptions>, dir_name: &str) -> (r: (
        Vec<String>,
        Workspace,
    ))
        ensures
            r.0.deep_view() == bind_texts(volume_views(msg.options.volumes@)),
            r.1.wf(),
            r.1@ == record_volumes(
                WorkspaceView {
                    name: self.workspaces().namespace(),
                    path: self.workspaces().path_of(dir_name@),
                    volumes: Seq::empty(),
                    tags: Seq::empty(),
                },
                volume_views(msg.options.volumes@),
            ),
    {
        let mut workspace = self.workspaces_man.workspace(dir_name);
        let ghost fresh = workspace@;
        let ghost wanted = volume_views(msg.options.volumes@);
        let mut binds: Vec<String> = Vec::new();
        let mut i: usize = 0;
        assert(wanted.take(0) =~= Seq::<VolumeDefView>::empty());
        assert(binds.deep_view() =~= bind_texts(wanted.take(0)));
        while i < msg.options.volumes.len()
            invariant
                i <= msg.options.volumes@.len(),
                wanted == volume_views(msg.options.volumes@),
                fresh.wf(),
                workspace.wf(),
                workspace@ == record_volumes(fresh, wanted.take(i as int)),
                binds.deep_view() == bind_texts(wanted.take(i as int)),
            decreases msg.options.volumes@.len() - i,
        {
            let vol = &msg.options.volumes[i];
            let ghost binds_before = binds.deep_view();
            proof {
                assert(wanted.take(i + 1).drop_last() =~= wanted.take(i as int));
                assert(wanted.take(i + 1).last() == vol@);
            }
            match vol.source_dir() {
                Some(s) => match vol.target_dir() {
                    Some(t) => {
                        workspace.add_volume(vol.duplicate());
                        binds.push(join3(s.as_str(), ":", t.as_str()));
                        assert(binds.deep_view() =~= binds_before.push(bind_text(vol@)));
                    },
                    None => {},
                },
                None => {},
            }
            assert(binds.deep_view() =~= bind_texts(wanted.take(i + 1)));
            i += 1;
        }
        assert(wanted.take(i as int) =~= wanted);
        (binds, workspace)
    }

    /// Begins the creation of a session: without the engine the request
    /// fails; with it, this is the plan of what is to be done outside. The
    /// workspace of the session will be kept in `dir_name`.
    pub fn handle_create_session(&self, msg: &CreateSession<CreateOptions>, dir_name: &str) -> (r: Result<
        CreatePlan,
        Error,
    >)
        ensures
            r is Ok <==> self@.engine_ready,
            r is Err ==> r->Err_0@ == ErrorView::UnknownEnv(msg.env_type@),
            r is Ok ==> r->Ok_0@.workspace.wf() && r->Ok_0@ == create_plan_of(
                msg.env_type@,
                msg.image.uri@,
                volume_views(msg.options.volumes@),
                self.workspaces().namespace(),
                self.workspaces().path_of(dir_name@),
            ),
    {
        if !self.engine_ready {
            return Err(Error::UnknownEnv(msg.env_type.clone()));
        }
        let (binds, workspace) = self.binds_and_workspace(msg, dir_name);
        let host_config = HostConfig { binds };
        let container = Self::container_config(msg.image.uri.clone(), host_config);
        let pull = Self::pull_config(msg.image.uri.clone());
        Ok(CreatePlan { env_type: msg.env_type.clone(), workspace, pull, container })
    }

    /// Ends the creation of a session. Only a container that the engine
    /// created is registered, under the id that the engine gave it, and
    /// that id is the answer. Every failure leaves the registry as it was.
    pub fn finish_create_session(&mut self, plan: CreatePlan, reply: CreateReply) -> (r: Result<String, Error>)
        requires
            old(self).wf(),
            plan@.workspace.wf(),
        ensures
            final(self).wf(),
            final(self).workspaces() == old(self).workspaces(),
            reply_view(r) == create_outcome(old(self)@, plan@, reply).0,
            final(self)@ == create_outcome(old(self)@, plan@, reply).1,
    {
        proof {
            lemma_wf_deploys(self.deploys@);
        }
        match reply {
            CreateReply::DirsFailed(reason) => Err(Error::IoError(reason)),
            CreateReply::EngineFailed(reason) => Err(Error::EngineError(reason)),
            CreateReply::Created(id) => {
                if !self.engine_ready {
                    return Err(Error::UnknownEnv(plan.env_type));
                }
                let deploy = DockerSession::new(plan.workspace, id.clone());
                proof {
                    lemma_session_views_put(self.deploys@, id@, deploy);
                    self@.sessions.lemma_ops_keep_wf(id@, deploy@);
                }
                match self.deploys.insert_deploy(id.clone(), deploy) {
                    Ok(_) => {
                        proof {
                            lemma_items_wf_after_insert(old(self)@, id@, deploy@);
                        }
                        Ok(id)
                    },
                    Err(e) => Err(e),
                }
            },
        }
    }

    /// A snapshot of every session. This never fails.
    pub fn handle_get_sessions(&self) -> (r: Vec<SessionInfo>)
        requires
            self.wf(),
        ensures
            info_views(r@) == sessions_info(self@.sessions),
    {
        proof {
            lemma_wf_deploys(self.deploys@);
        }
        let infos = self.deploys.deploys_info();
        assert(info_views(infos@) =~= sessions_info(self@.sessions));
        infos
    }

    /// Begins the teardown of a session: without the engine the request
    /// fails with `UnknownEnv`, for an id that is not registered with
    /// `NoSuchSession`; otherwise the answer is the id of the container
    /// that the engine is to delete. The registry is not touched.
    pub fn handle_destroy_session(&self, msg: &DestroySession) -> (r: Result<String, Error>)
        requires
            self.wf(),
        ensures
            reply_view(r) == destroy_request(self@, msg.session_id@),
    {
        if !self.engine_ready {
            return Err(Error::UnknownEnv(String::from_str("docker")));
        }
        match self.session(&msg.session_id) {
            Some(session) => Ok(session.container().clone()),
            None => Err(Error::NoSuchSession(msg.session_id.clone())),
        }
    }

    /// Ends the teardown of a session once the engine has tried to delete
    /// the container. After a deletion the session leaves the registry, the
    /// answer is `done`, and the session's workspace is handed out for its
    /// directory to be removed. A failed deletion leaves the registry as it was.
    pub fn finish_destroy_session(&mut self, session_id: &String, deleted: Result<(), String>) -> (r: Result<
        (String, Workspace),
        Error,
    >)
        requires
            old(self).wf(),
        ensures
            final(self).wf(),
            final(self).workspaces() == old(self).workspaces(),
            final(self)@ == destroy_outcome(old(self)@, session_id@, deleted is Ok).1,
            match r {
                Ok((text, workspace)) => {
                    &&& destroy_outcome(old(self)@, session_id@, deleted is Ok).0 == Ok::<Seq<char>, ErrorView>(text@)
                    &&& workspace@ == old(self)@.sessions.get(session_id@).workspace
                    &&& workspace.wf()
                },
                Err(e) => destroy_outcome(old(self)@, session_id@, deleted is Ok).0 == Err::<Seq<char>, ErrorView>(e@),
            },
    {
        proof {
            lemma_wf_deploys(self.deploys@);
            lemma_session_views_put(self.deploys@, session_id@, arbitrary());
        }
        match deleted {
            Err(_) => Err(Error::EngineError(String::from_str("docker error"))),
            Ok(_) => {
                proof {
                    lemma_items_wf_after_remove(self@, session_id@);
                    if self.deploys@.contains(session_id@) {
                        self.deploys@.lemma_position_in_range(session_id@);
                        let p = self.deploys@.position(session_id@);
                        assert(self@.sessions.items[p] == self.deploys@.items[p]@);
                    }
                }
                match self.deploys.remove_deploy(session_id) {
                    Ok(session) => Ok((String::from_str("done"), session.into_workspace())),
                    Err(e) => Err(e),
                }
            },
        }
    }
}

/// The snapshots of the sessions of a registry, in the registry's order.
pub open spec fn sessions_info(sessions: TableModel<DockerSessionView>) -> Seq<SessionInfoView> {
    Seq::new(sessions.items.len(), |i: int| session_info(sessions.items[i], sessions.keys[i]))
}

/// What the begin of a teardown answers: the id of the container to delete, or the refusal.
pub open spec fn destroy_request(man: DockerManView, id: Seq<char>) -> Result<Seq<char>, ErrorView> {
    if !man.engine_ready {
        Err(ErrorView::UnknownEnv(env_name()))
    } else if !man.sessions.contains(id) {
        Err(ErrorView::NoSuchSession(id))
    } else {
        Ok(man.sessions.get(id).container)
    }
}

/// What the end of a teardown answers, and the backend after it.
pub open spec fn destroy_outcome(man: DockerManView, id: Seq<char>, deleted: bool) -> (
    Result<Seq<char>, ErrorView>,
    DockerManView,
) {
    if !deleted {
        (Err(ErrorView::EngineError("docker error"@)), man)
    } else if !man.sessions.contains(id) {
        (Err(ErrorView::NoSuchSession(id)), man)
    } else {
        (Ok("done"@), DockerManView { sessions: man.sessions.remove(id), ..man })
    }
}

/// The view of a well-formed registry is well-formed.
pub proof fn lemma_wf_deploys(deploys: TableModel<DockerSession>)
    requires
        session_views(deploys).wf(),
    ensures
        deploys.wf(),
{
}

/// Inserting a session with a well-formed workspace keeps every workspace well-formed.
pub proof fn lemma_items_wf_after_insert(man: DockerManView, id: Seq<char>, session: DockerSessionView)
    requires
        man.wf(),
        session.workspace.wf(),
    ensures
        (DockerManView { sessions: man.sessions.insert(id, session), ..man }).wf(),
        (DockerManView { sessions: man.sessions.put(id, session), ..man }).wf(),
{
    man.sessions.lemma_ops_keep_wf(id, session);
    if man.sessions.contains(id) {
        man.sessions.lemma_position_in_range(id);
    }
}

/// Removing a session keeps every workspace well-formed.
pub proof fn lemma_items_wf_after_remove(man: DockerManView, id: Seq<char>)
    requires
        man.wf(),
    ensures
        (DockerManView { sessions: man.sessions.remove(id), ..man }).wf(),
{
    man.sessions.lemma_ops_keep_wf(id, arbitrary());
    if man.sessions.contains(id) {
        man.sessions.lemma_position_in_range(id);
        let p = man.sessions.position(id);
        let after = man.sessions.remove(id);
        assert forall|i: int| 0 <= i < after.items.len() implies (#[trigger] after.items[i]).workspace.wf() by {
            let ii = if i < p { i } else { i + 1 };
            assert(after.items[i] == man.sessions.items[ii]);
        }
    }
}

/// The answer to every command while the engine cannot be reached: the
/// message of the error that says that this environment is not there.
pub open spec fn engine_absent_text() -> Seq<char> {
    error_text(ErrorView::UnknownEnv(env_name()))
}

/// The acknowledgement of `Start`: no process is spawned.
pub open spec fn start_mock_text() -> Seq<char> {
    "Start mock"@
}

/// The acknowledgement of `Stop`: no process is ended.
pub open spec fn stop_mock_text() -> Seq<char> {
    "Stop mock"@
}

/// The success message of `AddTags`: it lists the tags that the session has now.
pub open spec fn tags_inserted_text(tags: Seq<Seq<char>>) -> Seq<char> {
    "tags inserted. Current tags are: "@ + debug_list_text(tags)
}

/// The success message of `DelTags`: it lists the tags that the session has now.
pub open spec fn tags_removed_text(tags: Seq<Seq<char>>) -> Seq<char> {
    "tags removed. Current tags are: "@ + debug_list_text(tags)
}

/// The success message of `AddTags`, given `listing`, the `Debug` form of
/// the tags that the session has now.
pub fn tags_inserted_message(listing: &str) -> (r: String)
    ensures
        r@ == "tags inserted. Current tags are: "@ + listing@,
{
    join2("tags inserted. Current tags are: ", listing)
}

/// The success message of `DelTags`, given `listing`, the `Debug` form of
/// the tags that the session has now.
pub fn tags_removed_message(listing: &str) -> (r: String)
    ensures
        r@ == "tags removed. Current tags are: "@ + listing@,
{
    join2("tags removed. Current tags are: ", listing)
}

/// What the backend makes of one command before any call against the engine.
#[derive(Debug)]
pub enum Dispatch {
    /// The command is done: this is what it yields.
    Finished(Result<String, String>),
    /// The command needs this call against the engine.
    Engine(EngineRequest),
}

/// The mathematical content of a [`Dispatch`].
pub enum DispatchView {
    Finished(Result<Seq<char>, Seq<char>>),
    Engine(EngineRequestView),
}

impl View for Dispatch {
    type V = DispatchView;

    open spec fn view(&self) -> DispatchView {
        match self {
            Dispatch::Finished(outcome) => DispatchView::Finished(outcome_view(*outcome)),
            Dispatch::Engine(request) => DispatchView::Engine(request@),
        }
    }
}

/// What a command means for a session that is registered, while the engine
/// can be reached: `Start` and `Stop` are acknowledged without any work, the tag
/// commands are carried out at once, and every other command is a call
/// against the engine for the session's container.
pub open spec fn session_dispatch(session: DockerSessionView, command: CommandView) -> DispatchView {
    match command {
        CommandView::Open => DispatchView::Engine(EngineRequestView::Start { container: session.container }),
        CommandView::Close => DispatchView::Engine(EngineRequestView::Stop { container: session.container }),
        CommandView::Exec { executable, args } => DispatchView::Engine(
            EngineRequestView::Exec {
                container: session.container,
                attach_stdout: true,
                attach_stderr: true,
                cmd: seq![executable] + args,
            },
        ),
        CommandView::Start { .. } => DispatchView::Finished(Ok(start_mock_text())),
        CommandView::Stop { .. } => DispatchView::Finished(Ok(stop_mock_text())),
        CommandView::DownloadFile { uri, file_path, format } => DispatchView::Engine(
            EngineRequestView::ArchivePut { container: session.container, uri, remote_path: file_path, format },
        ),
        CommandView::UploadFile { uri, file_path, format } => DispatchView::Engine(
            EngineRequestView::ArchiveGet {
                container: session.container,
                file_path,
                uri,
                untar_single_file: format == ResourceFormat::Raw,
            },
        ),
        CommandView::AddTags(tags) => DispatchView::Finished(
            Ok(tags_inserted_text(merge_tags(session.workspace.tags, tags))),
        ),
        CommandView::DelTags(tags) => DispatchView::Finished(
            Ok(tags_removed_text(strip_tags(session.workspace.tags, tags))),
        ),
    }
}

/// The session after the part of a command that needs no engine: the tag
/// commands change the tags, and no other command changes anything.
pub open spec fn session_after_dispatch(session: DockerSessionView, command: CommandView) -> DockerSessionView {
    match command {
        CommandView::AddTags(tags) => DockerSessionView { workspace: session.workspace.add_tags(tags), ..session },
        CommandView::DelTags(tags) => DockerSessionView {
            workspace: session.workspace.remove_tags(tags),
            ..session
        },
        _ => session,
    }
}

/// What the backend makes of the command `command` for the session `id`.
/// Without the engine every command fails with the message of
/// `UnknownEnv`, and with the engine every command fails with the message
/// of `NoSuchSession` for a session that is not registered. In both cases
/// nothing is changed and nothing is asked of the engine.
pub open spec fn dispatch_of(man: DockerManView, id: Seq<char>, command: CommandView) -> DispatchView {
    if !man.engine_ready {
        DispatchView::Finished(Err(engine_absent_text()))
    } else if !man.sessions.contains(id) {
        DispatchView::Finished(Err(error_text(ErrorView::NoSuchSession(id))))
    } else {
        session_dispatch(man.sessions.get(id), command)
    }
}

/// The backend after the part of a command that needs no engine.
pub open spec fn after_dispatch(man: DockerManView, id: Seq<char>, command: CommandView) -> DockerManView {
    if man.engine_ready && man.sessions.contains(id) {
        DockerManView {
            sessions: man.sessions.put(id, session_after_dispatch(man.sessions.get(id), command)),
            ..man
        }
    } else {
        man
    }
}

/// What a command yields once the engine has answered its call with `reply`.
pub open spec fn reply_outcome(request: EngineRequestView, reply: EngineReplyView) -> Result<
    Seq<char>,
    Seq<char>,
>
    recommends
        answers(request, reply),
{
    match reply {
        EngineReplyView::Failed(message) => Err(message),
        EngineReplyView::Done => Ok(ack_text()),
        EngineReplyView::Output(chunks) => Ok(decoded_output(chunks)),
        EngineReplyView::Response(code) => upload_outcome(request->ArchiveGet_uri, code),
    }
}

/// The error that a call against the engine ended in, if it failed. A
/// failed start, stop or run is a failure of the engine; a failed transfer,
/// and an upload that the destination answered with a status outside 200
/// to 299, is a failure of the transfer. The error carries the message
/// that the command fails with. An answer that the call cannot have is no
/// failure of the call.
pub open spec fn failure_of(request: EngineRequestView, reply: EngineReplyView) -> Option<ErrorView> {
    if !answers(request, reply) {
        None
    } else {
        match reply_outcome(request, reply) {
            Ok(_) => None,
            Err(message) => if request is ArchivePut || request is ArchiveGet {
                Some(ErrorView::TransferError(message))
            } else {
                Some(ErrorView::EngineError(message))
            },
        }
    }
}

/// The view of an error that may be absent.
pub open spec fn failure_view(failure: Option<Error>) -> Option<ErrorView> {
    match failure {
        Some(e) => Some(e@),
        None => None,
    }
}

/// The error that the call `request` ended in, if `reply` is a failure of it.
pub fn call_failure(request: &EngineRequest, reply: &EngineReply) -> (r: Option<Error>)
    ensures
        failure_view(r) == failure_of(request@, reply@),
{
    if !request.accepts(reply) {
        return None;
    }
    let message = match reply {
        EngineReply::Failed(message) => message.clone(),
        EngineReply::Response(status) => {
            if status.is_success() {
                return None;
            }
            refused_message(status.to_string().as_str())
        },
        _ => {
            return None;
        },
    };
    match request {
        EngineRequest::ArchivePut { .. } => Some(Error::TransferError(message)),
        EngineRequest::ArchiveGet { .. } => Some(Error::TransferError(message)),
        _ => Some(Error::EngineError(message)),
    }
}

/// The state of a session once the engine has answered: a container that
/// was started is running, one that was stopped is stopped, and nothing
/// else changes the state.
pub open spec fn status_after(status: SessionStatus, request: EngineRequestView, reply: EngineReplyView) -> SessionStatus {
    if request is Start && reply is Done {
        SessionStatus::Running
    } else if request is Stop && reply is Done {
        SessionStatus::Stopped
    } else {
        status
    }
}

/// What the backend makes of the engine's answer to the call of a command
/// for the session `id`. An answer of the wrong kind is not taken (`None`).
/// For a session that is no longer registered the command fails.
pub open spec fn finish_of(man: DockerManView, id: Seq<char>, request: EngineRequestView, reply: EngineReplyView) -> (
    Option<Result<Seq<char>, Seq<char>>>,
    DockerManView,
) {
    if !answers(request, reply) {
        (None, man)
    } else if !man.sessions.contains(id) {
        (Some(Err(error_text(ErrorView::NoSuchSession(id)))), man)
    } else {
        let session = man.sessions.get(id);
        (
            Some(reply_outcome(request, reply)),
            DockerManView {
                sessions: man.sessions.put(
                    id,
                    DockerSessionView { status: status_after(session.status, request, reply), ..session },
                ),
                ..man
            },
        )
    }
}

impl DockerSession {
    /// Carries out for this session the part of a command that needs no engine.
    fn dispatch(&mut self, command: &Command) -> (r: Dispatch)
        requires
            old(self).wf(),
        ensures
            final(self).wf(),
            r@ == session_dispatch(old(self)@, command@),
            final(self)@ == session_after_dispatch(old(self)@, command@),
    {
        match command {
            Command::Open => Dispatch::Engine(EngineRequest::Start { container: self.container.clone() }),
            Command::Close => Dispatch::Engine(EngineRequest::Stop { container: self.container.clone() }),
            Command::Exec { executable, args } => Dispatch::Engine(
                EngineRequest::Exec {
                    container: self.container.clone(),
                    config: Self::exec_config(executable, args),
                },
            ),
            Command::Start { executable: _, args: _ } => Dispatch::Finished(Ok(String::from_str("Start mock"))),
            Command::Stop { child_id: _ } => Dispatch::Finished(Ok(String::from_str("Stop mock"))),
            Command::DownloadFile { uri, file_path, format } => Dispatch::Engine(
                EngineRequest::ArchivePut {
                    container: self.container.clone(),
                    uri: uri.clone(),
                    remote_path: file_path.clone(),
                    format: *format,
                },
            ),
            Command::UploadFile { uri, file_path, format } => Dispatch::Engine(
                EngineRequest::ArchiveGet {
                    container: self.container.clone(),
                    file_path: file_path.clone(),
                    uri: uri.clone(),
                    untar_single_file: match format {
                        ResourceFormat::Raw => true,
                        ResourceFormat::Tar => false,
                    },
                },
            ),
            Command::AddTags(tags) => {
                self.workspace.add_tags(copy_strings(tags));
                let listing = debug_list(&self.workspace.tags());
                Dispatch::Finished(Ok(tags_inserted_message(listing.as_str())))
            },
            Command::DelTags(tags) => {
                self.workspace.remove_tags(copy_strings(tags));
                let listing = debug_list(&self.workspace.tags());
                Dispatch::Finished(Ok(tags_removed_message(listing.as_str())))
            },
        }
    }

    /// Takes in for this session the engine's answer to the call of a command.
    fn finish(&mut self, request: &EngineRequest, reply: EngineReply) -> (r: Result<String, String>)
        requires
            answers(request@, reply@),
        ensures
            outcome_view(r) == reply_outcome(request@, reply@),
            final(self)@ == (DockerSessionView {
                status: status_after(old(self)@.status, request@, reply@),
                ..old(self)@
            }),
    {
        match request {
            EngineRequest::Start { .. } => match reply {
                EngineReply::Failed(message) => self.do_open(Err(message)),
                _ => self.do_open(Ok(())),
            },
            EngineRequest::Stop { .. } => match reply {
                EngineReply::Failed(message) => self.do_close(Err(message)),
                _ => self.do_close(Ok(())),
            },
            EngineRequest::Exec { .. } => match reply {
                EngineReply::Output(chunks) => self.do_exec(Ok(chunks)),
                EngineReply::Failed(message) => self.do_exec(Err(message)),
                _ => self.do_exec(Ok(Vec::new())),
            },
            EngineRequest::ArchivePut { .. } => match reply {
                EngineReply::Failed(message) => self.do_download(Err(message)),
                _ => self.do_download(Ok(())),
            },
            EngineRequest::ArchiveGet { uri, .. } => match reply {
                EngineReply::Response(status) => self.do_upload(uri, Ok(status)),
                EngineReply::Failed(message) => self.do_upload(uri, Err(message)),
                _ => self.do_upload(uri, Err(String::new())),
            },
        }
    }
}

/// Carries out the part of a command that needs no engine: the command is
/// answered at once, or the call that it needs is handed out.
pub fn run_command(docker_man: &mut DockerMan, session_id: &String, command: &Command) -> (r: Dispatch)
    requires
        old(docker_man).wf(),
    ensures
        final(docker_man).wf(),
        final(docker_man).workspaces() == old(docker_man).workspaces(),
        r@ == dispatch_of(old(docker_man)@, session_id@, command@),
        final(docker_man)@ == after_dispatch(old(docker_man)@, session_id@, command@),
{
    if !docker_man.engine_ready {
        return Dispatch::Finished(Err(Error::UnknownEnv(String::from_str("docker")).to_string()));
    }
    docker_man.run_for_deployment(session_id, command)
}

/// Takes in the engine's answer to the call that a command needed, and
/// yields what the command comes to. An answer that the call cannot have is
/// not taken: the result is `None` and nothing changes.
pub fn finish_command(
    docker_man: &mut DockerMan,
    session_id: &String,
    request: &EngineRequest,
    reply: EngineReply,
) -> (r: Option<Result<String, String>>)
    requires
        old(docker_man).wf(),
    ensures
        final(docker_man).wf(),
        final(docker_man).workspaces() == old(docker_man).workspaces(),
        match r {
            Some(outcome) => finish_of(old(docker_man)@, session_id@, request@, reply@).0 == Some(
                outcome_view(outcome),
            ),
            None => finish_of(old(docker_man)@, session_id@, request@, reply@).0 is None,
        },
        final(docker_man)@ == finish_of(old(docker_man)@, session_id@, request@, reply@).1,
{
    if !request.accepts(&reply) {
        return None;
    }
    proof {
        lemma_wf_deploys(docker_man.deploys@);
        lemma_session_views_put(docker_man.deploys@, session_id@, arbitrary());
    }
    let ghost before = docker_man.deploys@;
    match docker_man.deploys.deploy_mut(session_id) {
        Ok(deployment) => {
            proof {
                before.lemma_position_in_range(session_id@);
                assert(session_views(before).items[before.position(session_id@)] == deployment@);
            }
            let outcome = deployment.finish(request, reply);
            proof {
                lemma_session_views_put(before, session_id@, *deployment);
                lemma_items_wf_after_insert(old(docker_man)@, session_id@, deployment@);
            }
            Some(outcome)
        },
        Err(e) => Some(Err(e.to_string())),
    }
}

impl DockerMan {
    /// Finds the session `deployment_id` and carries out for it the part of
    /// a command that needs no engine; for a session that is not registered
    /// the command fails.
    fn run_for_deployment(&mut self, deployment_id: &String, command: &Command) -> (r: Dispatch)
        requires
            old(self).wf(),
            old(self)@.engine_ready,
        ensures
            final(self).wf(),
            final(self).workspaces() == old(self).workspaces(),
            r@ == dispatch_of(old(self)@, deployment_id@, command@),
            final(self)@ == after_dispatch(old(self)@, deployment_id@, command@),
    {
        proof {
            lemma_wf_deploys(self.deploys@);
            lemma_session_views_put(self.deploys@, deployment_id@, arbitrary());
        }
        let ghost before = self.deploys@;
        match self.deploys.deploy_mut(deployment_id) {
            Ok(deployment) => {
                proof {
                    before.lemma_position_in_range(deployment_id@);
                    assert(session_views(before).items[before.position(deployment_id@)] == deployment@);
                }
                let dispatch = deployment.dispatch(command);
                proof {
                    lemma_session_views_put(before, deployment_id@, *deployment);
                    lemma_items_wf_after_insert(old(self)@, deployment_id@, deployment@);
                }
                dispatch
            },
            Err(e) => Dispatch::Finished(Err(e.to_string())),
        }
    }
}

/// A command that needs the engine changes nothing before the engine has answered.
pub proof fn lemma_engine_dispatch_keeps(man: DockerManView, id: Seq<char>, command: CommandView)
    requires
        man.wf(),
        dispatch_of(man, id, command) is Engine,
    ensures
        after_dispatch(man, id, command) == man,
{
    if man.engine_ready && man.sessions.contains(id) {
        man.sessions.lemma_position_in_range(id);
        let session = man.sessions.get(id);
        assert(session_after_dispatch(session, command) == session);
        assert(man.sessions.put(id, session).items =~= man.sessions.items);
    }
}

/// A batch of commands for one session, while it runs.
///
/// The batch is driven from outside: [`CommandRun::advance`] runs commands
/// until one needs the engine or the batch has ended, and
/// [`CommandRun::resume`] takes the engine's answer in.
pub struct CommandRun {
    session_id: String,
    commands: Vec<Command>,
    batch: Batch,
    awaiting: Option<EngineRequest>,
}

/// The mathematical content of a [`CommandRun`].
pub struct CommandRunView {
    pub session_id: Seq<char>,
    pub commands: Seq<CommandView>,
    /// The messages of the commands that have run, and whether the last failed.
    pub batch: BatchView,
    /// The call for which the engine's answer is awaited, if any.
    pub awaiting: Option<EngineRequestView>,
}

impl CommandRunView {
    /// No more commands have run than the batch has, a batch that has
    /// failed holds the message of the failure, and the engine is awaited
    /// only for a command of a batch that has not failed.
    pub open spec fn wf(self) -> bool {
        &&& self.batch.results.len() <= self.commands.len()
        &&& self.batch.failed ==> self.batch.results.len() > 0
        &&& self.awaiting is Some ==> !self.batch.failed && self.batch.results.len() < self.commands.len()
    }

    /// The number of commands that have run to their end.
    pub open spec fn cursor(self) -> int {
        self.batch.results.len() as int
    }

    /// Whether the batch has ended: a command has failed, or all have run.
    pub open spec fn ended(self) -> bool {
        self.batch.failed || self.batch.results.len() >= self.commands.len()
    }

    /// Whether the backend `man` refuses the batch: no command has run yet,
    /// and the session that the batch is for is not registered.
    pub open spec fn refused(self, man: DockerManView) -> bool {
        self.batch.results.len() == 0 && !man.sessions.contains(self.session_id)
    }
}

impl View for CommandRun {
    type V = CommandRunView;

    closed spec fn view(&self) -> CommandRunView {
        CommandRunView {
            session_id: self.session_id@,
            commands: crate::envman::command_views(self.commands@),
            batch: self.batch@,
            awaiting: match self.awaiting {
                Some(request) => Some(request@),
                None => None,
            },
        }
    }
}

/// What a batch asks of whoever drives it.
#[derive(Debug)]
pub enum Step {
    /// Make this call against the engine and hand its outcome to `resume`.
    Call(EngineRequest),
    /// The batch has ended. These are the messages of the commands that
    /// ran, in their order: a success where all succeeded, a failure where
    /// the last of them failed.
    Done(Result<Vec<String>, Vec<String>>),
}

/// The mathematical content of a [`Step`].
pub enum StepView {
    Call(EngineRequestView),
    Done(Result<Seq<Seq<char>>, Seq<Seq<char>>>),
}

impl View for Step {
    type V = StepView;

    open spec fn view(&self) -> StepView {
        match self {
            Step::Call(request) => StepView::Call(request@),
            Step::Done(verdict) => StepView::Done(verdict_view(*verdict)),
        }
    }
}

/// Runs the batch as far as it goes without the engine. A batch for a
/// session that is not registered is refused before its first command:
/// it fails with the one message of `NoSuchSession`, no command is tried
/// and nothing is changed. Otherwise commands are taken in their order,
/// each is dispatched and, where that finishes it, its outcome is
/// recorded. The run stops at the first command that needs the engine,
/// with that call, and at the end of the batch, with its verdict. A batch
/// that awaits the engine asks for the same call again.
pub open spec fn advance_of(man: DockerManView, run: CommandRunView) -> (DockerManView, CommandRunView, StepView)
    decreases run.commands.len() - run.batch.results.len(),
{
    if run.awaiting is Some {
        (man, run, StepView::Call(run.awaiting->0))
    } else if run.refused(man) {
        (man, run, StepView::Done(Err(update_refusal(run.session_id))))
    } else if run.ended() {
        (man, run, StepView::Done(run.batch.verdict()))
    } else {
        let command = run.commands[run.cursor()];
        match dispatch_of(man, run.session_id, command) {
            DispatchView::Finished(outcome) => advance_of(
                after_dispatch(man, run.session_id, command),
                CommandRunView { batch: run.batch.record(outcome), ..run },
            ),
            DispatchView::Engine(request) => (
                man,
                CommandRunView { awaiting: Some(request), ..run },
                StepView::Call(request),
            ),
        }
    }
}

/// Takes the engine's answer in: what the awaited command comes to is
/// recorded, and the engine is awaited no longer. An answer that nothing
/// awaits, or that the awaited call cannot have, changes nothing (`false`).
pub open spec fn resume_of(man: DockerManView, run: CommandRunView, reply: EngineReplyView) -> (
    bool,
    DockerManView,
    CommandRunView,
) {
    match run.awaiting {
        None => (false, man, run),
        Some(request) => match finish_of(man, run.session_id, request, reply).0 {
            None => (false, man, run),
            Some(outcome) => (
                true,
                finish_of(man, run.session_id, request, reply).1,
                CommandRunView { batch: run.batch.record(outcome), awaiting: None, ..run },
            ),
        },
    }
}

/// The message with which a command fails whose call the engine answered
/// with an answer that the call cannot have.
pub open spec fn misfit_text() -> Seq<char> {
    error_text(ErrorView::EngineError("unexpected answer"@))
}

/// Gives the awaited call up: the awaited command fails with the message
/// of [`misfit_text`], so that the batch ends with the messages recorded so
/// far and this one. Where nothing is awaited, nothing changes (`false`).
pub open spec fn reject_of(run: CommandRunView) -> (bool, CommandRunView) {
    match run.awaiting {
        None => (false, run),
        Some(_) => (
            true,
            CommandRunView { batch: run.batch.record(Err(misfit_text())), awaiting: None, ..run },
        ),
    }
}

/// Begins the batch of `commands` for the session `session_id`. For a
/// session that is not registered the batch fails at once, with the one
/// message of `NoSuchSession`; otherwise the batch is ready to run, and no
/// command has run yet.
pub fn run_commands(hd_man: &DockerMan, session_id: String, commands: Vec<Command>) -> (r: Result<
    CommandRun,
    Vec<String>,
>)
    requires
        hd_man.wf(),
    ensures
        r is Ok <==> update_request(hd_man@, session_id@) is Ok,
        r is Err ==> update_request(hd_man@, session_id@) == Err::<(), Seq<Seq<char>>>(r->Err_0.deep_view()),
        r is Ok ==> r->Ok_0.wf() && r->Ok_0@ == (CommandRunView {
            session_id: session_id@,
            commands: crate::envman::command_views(commands@),
            batch: BatchView::start(),
            awaiting: None,
        }),
{
    if !hd_man.contains_session(&session_id) {
        return Err(refusal_of(&session_id));
    }
    Ok(CommandRun { session_id, commands, batch: Batch::new(), awaiting: None })
}

/// The answer to a batch for the session `session_id`, which is not registered.
fn refusal_of(session_id: &String) -> (r: Vec<String>)
    ensures
        r.deep_view() == update_refusal(session_id@),
{
    let mut refusal: Vec<String> = Vec::new();
    refusal.push(Error::NoSuchSession(session_id.clone()).to_string());
    assert(refusal.deep_view() =~= update_refusal(session_id@));
    refusal
}

impl CommandRun {
    pub open spec fn wf(&self) -> bool {
        self@.wf()
    }

    /// The session that the batch is for.
    pub fn session_id(&self) -> (r: &String)
        ensures
            r@ == self@.session_id,
    {
        &self.session_id
    }

    /// Whether the batch waits for an answer of the engine.
    pub fn is_waiting(&self) -> (r: bool)
        ensures
            r == self@.awaiting is Some,
    {
        self.awaiting.is_some()
    }

    /// The number of commands that have run to their end.
    pub fn executed(&self) -> (r: usize)
        ensures
            r == self@.cursor(),
    {
        self.batch.len()
    }

    /// Runs the batch as far as it goes without the engine.
    pub fn advance(&mut self, docker_man: &mut DockerMan) -> (r: Step)
        requires
            old(self).wf(),
            old(docker_man).wf(),
        ensures
            final(self).wf(),
            final(docker_man).wf(),
            final(docker_man).workspaces() == old(docker_man).workspaces(),
            final(docker_man)@ == advance_of(old(docker_man)@, old(self)@).0,
            final(self)@ == advance_of(old(docker_man)@, old(self)@).1,
            r@ == advance_of(old(docker_man)@, old(self)@).2,
            r is Done <==> final(self)@.awaiting is None,
            r is Done ==> final(self)@.ended() || final(self)@.refused(final(docker_man)@),
    {
        match &self.awaiting {
            Some(request) => {
                return Step::Call(request.duplicate());
            },
            None => {},
        }
        if self.batch.len() == 0 && !docker_man.contains_session(&self.session_id) {
            return Step::Done(Err(refusal_of(&self.session_id)));
        }
        while !self.batch.failed() && self.batch.len() < self.commands.len()
            invariant
                self.wf(),
                docker_man.wf(),
                docker_man.workspaces() == old(docker_man).workspaces(),
                self@.awaiting is None,
                !self@.refused(docker_man@),
                advance_of(docker_man@, self@) == advance_of(old(docker_man)@, old(self)@),
            decreases self.commands@.len() - self@.batch.results.len(),
        {
            let cursor = self.batch.len();
            let ghost man_before = docker_man@;
            let ghost run_before = self@;
            assert(run_before.commands[cursor as int] == self.commands@[cursor as int]@);
            match run_command(docker_man, &self.session_id, &self.commands[cursor]) {
                Dispatch::Finished(outcome) => {
                    self.batch.record(outcome);
                    assert(self@ == (CommandRunView {
                        batch: run_before.batch.record(outcome_view(outcome)),
                        ..run_before
                    }));
                },
                Dispatch::Engine(request) => {
                    proof {
                        lemma_engine_dispatch_keeps(man_before, self@.session_id, run_before.commands[cursor as int]);
                    }
                    self.awaiting = Some(request.duplicate());
                    assert(self@ == (CommandRunView { awaiting: Some(request@), ..run_before }));
                    return Step::Call(request);
                },
            }
        }
        Step::Done(self.batch.verdict())
    }

    /// Takes the engine's answer to the awaited call in.
    pub fn resume(&mut self, docker_man: &mut DockerMan, reply: EngineReply) -> (r: bool)
        requires
            old(self).wf(),
            old(docker_man).wf(),
        ensures
            final(self).wf(),
            final(docker_man).wf(),
            final(docker_man).workspaces() == old(docker_man).workspaces(),
            r == resume_of(old(docker_man)@, old(self)@, reply@).0,
            final(docker_man)@ == resume_of(old(docker_man)@, old(self)@, reply@).1,
            final(self)@ == resume_of(old(docker_man)@, old(self)@, reply@).2,
    {
        let outcome = match &self.awaiting {
            None => {
                return false;
            },
            Some(request) => finish_command(docker_man, &self.session_id, request, reply),
        };
        match outcome {
            None => false,
            Some(outcome) => {
                self.batch.record(outcome);
                self.awaiting = None;
                true
            },
        }
    }

    /// Gives the awaited call up, after the engine has answered it with
    /// an answer that the call cannot have.
    pub fn reject_reply(&mut self) -> (r: bool)
        requires
            old(self).wf(),
        ensures
            final(self).wf(),
            r == reject_of(old(self)@).0,
            final(self)@ == reject_of(old(self)@).1,
    {
        if self.awaiting.is_none() {
            return false;
        }
        self.batch.record(Err(Error::EngineError(String::from_str("unexpected answer")).to_string()));
        self.awaiting = None;
        true
    }
}

/// The answer to a batch for a session that is not registered: the one
/// message that says so. No command of the batch is tried.
pub open spec fn update_refusal(id: Seq<char>) -> Seq<Seq<char>> {
    seq![error_text(ErrorView::NoSuchSession(id))]
}

/// What the begin of a batch for the session `id` answers: nothing where
/// the session is registered, and the refusal where it is not.
pub open spec fn update_request(man: DockerManView, id: Seq<char>) -> Result<(), Seq<Seq<char>>> {
    if man.sessions.contains(id) {
        Ok(())
    } else {
        Err(update_refusal(id))
    }
}

impl DockerMan {
    /// Begins a batch of commands. For a session that is not registered
    /// the batch fails at once; otherwise the batch is ready to run.
    pub fn handle_session_update(&self, msg: SessionUpdate) -> (r: Result<CommandRun, Vec<String>>)
        requires
            self.wf(),
        ensures
            r is Ok <==> update_request(self@, msg.session_id@) is Ok,
            r is Err ==> update_request(self@, msg.session_id@) == Err::<(), Seq<Seq<char>>>(
                r->Err_0.deep_view(),
            ),
            r is Ok ==> r->Ok_0.wf() && r->Ok_0@ == (CommandRunView {
                session_id: msg.session_id@,
                commands: crate::envman::command_views(msg.commands@),
                batch: BatchView::start(),
                awaiting: None,
            }),
    {
        run_commands(self, msg.session_id, msg.commands)
    }
}

/// A command touches only the session that it is for: whatever the
/// command and whatever the engine answers, every other session is
/// registered afterwards exactly where it was before, and is as it was.
pub proof fn law_commands_touch_one_session(
    man: DockerManView,
    id: Seq<char>,
    command: CommandView,
    request: EngineRequestView,
    reply: EngineReplyView,
    other: Seq<char>,
)
    requires
        man.wf(),
        other != id,
    ensures
        crate::deployment::lookup(after_dispatch(man, id, command).sessions, other) == crate::deployment::lookup(
            man.sessions,
            other,
        ),
        crate::deployment::lookup(finish_of(man, id, request, reply).1.sessions, other)
            == crate::deployment::lookup(man.sessions, other),
        after_dispatch(man, id, command).sessions.keys == man.sessions.keys,
        finish_of(man, id, request, reply).1.sessions.keys == man.sessions.keys,
{
    if man.sessions.contains(id) {
        let session = man.sessions.get(id);
        man.sessions.lemma_put(id, session_after_dispatch(session, command));
        man.sessions.lemma_put(
            id,
            DockerSessionView { status: status_after(session.status, request, reply), ..session },
        );
    }
}

/// A batch for a session that is not registered runs nothing, whatever
/// its commands are: before its first command it ends with the one message
/// of `NoSuchSession` as a failure, and the backend stays as it is.
pub proof fn law_unknown_session_is_refused(man: DockerManView, run: CommandRunView)
    requires
        run.awaiting is None,
        run.batch.results.len() == 0,
        !man.sessions.contains(run.session_id),
    ensures
        advance_of(man, run) == (
            man,
            run,
            StepView::Done(
                Err::<Seq<Seq<char>>, Seq<Seq<char>>>(seq![error_text(ErrorView::NoSuchSession(run.session_id))]),
            ),
        ),
{
}

/// A batch that has failed runs nothing more: it ends where it is, with
/// its messages as a failure, and the backend stays as it is.
pub proof fn law_failed_batch_runs_nothing(man: DockerManView, run: CommandRunView)
    requires
        run.wf(),
        run.batch.failed,
        run.awaiting is None,
    ensures
        advance_of(man, run) == (
            man,
            run,
            StepView::Done(Err::<Seq<Seq<char>>, Seq<Seq<char>>>(run.batch.results)),
        ),
{
}

/// A session that was registered and then torn down is gone: its id is not
/// in the registry, a lookup of it fails with `NoSuchSession`, a teardown
/// of it is refused with `NoSuchSession`, a batch for it is refused with
/// the message of that error, and every command for it fails with that
/// message and changes nothing.
pub proof fn law_session_gone_after_teardown(
    man: DockerManView,
    id: Seq<char>,
    session: DockerSessionView,
    command: CommandView,
)
    requires
        man.wf(),
        man.engine_ready,
        session.workspace.wf(),
    ensures
        ({
            let registered = DockerManView { sessions: man.sessions.insert(id, session), ..man };
            let gone = destroy_outcome(registered, id, true).1;
            &&& gone.wf()
            &&& gone.sessions == man.sessions.insert(id, session).remove(id)
            &&& !gone.sessions.contains(id)
            &&& crate::deployment::lookup(gone.sessions, id) == Err::<DockerSessionView, ErrorView>(
                ErrorView::NoSuchSession(id),
            )
            &&& destroy_request(gone, id) == Err::<Seq<char>, ErrorView>(ErrorView::NoSuchSession(id))
            &&& update_request(gone, id) == Err::<(), Seq<Seq<char>>>(
                seq![error_text(ErrorView::NoSuchSession(id))],
            )
            &&& dispatch_of(gone, id, command) == DispatchView::Finished(
                Err(error_text(ErrorView::NoSuchSession(id))),
            )
            &&& after_dispatch(gone, id, command) == gone
        }),
{
    let registered = DockerManView { sessions: man.sessions.insert(id, session), ..man };
    lemma_items_wf_after_insert(man, id, session);
    man.sessions.lemma_insert(id, session);
    lemma_items_wf_after_remove(registered, id);
    registered.sessions.lemma_remove(id);
}

} // verus!
