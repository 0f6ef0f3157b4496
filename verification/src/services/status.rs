//! Whether the engine is there, and what it says of itself.

use vstd::prelude::*;

use crate::services::docker::DockerService;
use crate::services::engine::{Execution, ExecutionView};
use crate::text::{push_text, trim, trimmed};

verus! {

/// A JSON document, opaque to the library: it is read only through the
/// wrappers below.
#[verifier::external_type_specification]
#[verifier::external_body]
pub struct ExJsonValue(serde_json::Value);

/// The text of a document: the name for what `Display` of
/// `serde_json::Value` writes, which is the document in compact JSON. Two
/// documents with one text are one document.
pub uninterp spec fn json_text(document: serde_json::Value) -> Seq<char>;

/// The document that a text holds, as its own text, or `None` where the
/// text is no JSON document: the name for what `serde_json::from_str` returns.
pub uninterp spec fn json_parsed(text: Seq<char>) -> Option<Seq<char>>;

/// The member `key` of the object that the document with the text
/// `document` is, as its own text, or `None` where the document is no object
/// or has no such member: the name for what `serde_json::Value::get` returns
/// for a key.
pub uninterp spec fn json_member(document: Seq<char>, key: Seq<char>) -> Option<Seq<char>>;

/// The text of a document, with `to_string` of `serde_json::Value`, that is
/// with its `Display`. Trusted: the result is the document's text.
#[verifier::external_body]
fn document_text(document: &serde_json::Value) -> (r: String)
    ensures
        r@ == json_text(*document),
{
    document.to_string()
}

/// Reads a JSON document with `serde_json::from_str`. Trusted: the result
/// is the document that the text holds, and there is none exactly where the
/// text is no JSON document.
#[verifier::external_body]
fn parse_document(text: &str) -> (r: Option<serde_json::Value>)
    ensures
        match r {
            Some(document) => json_parsed(text@) == Some(json_text(document)),
            None => json_parsed(text@) is None,
        },
{
    serde_json::from_str::<serde_json::Value>(text).ok()
}

/// A copy of the member `key` of a JSON object, with
/// `serde_json::Value::get`. Trusted: the result is that member, and there
/// is none exactly where the document is no object or has no such member.
#[verifier::external_body]
fn member_of(document: &serde_json::Value, key: &str) -> (r: Option<serde_json::Value>)
    ensures
        match r {
            Some(member) => json_member(json_text(*document), key@) == Some(json_text(member)),
            None => json_member(json_text(*document), key@) is None,
        },
{
    document.get(key).cloned()
}

/// What the engine says of itself.
#[derive(Debug)]
pub enum DockerStatus {
    /// The engine does not run or is not installed.
    Stopped,
    /// The engine runs, and says no more than the version of its client.
    Limited { version: Option<serde_json::Value> },
    /// The engine runs: the version of its client, how many containers
    /// there are, run and are stopped, how many images, and the version
    /// of the server.
    Running {
        version: Option<serde_json::Value>,
        total: Option<serde_json::Value>,
        running: Option<serde_json::Value>,
        stopped: Option<serde_json::Value>,
        images: Option<serde_json::Value>,
        host: Option<serde_json::Value>,
    },
}

/// What the engine says of itself, each document by its text.
pub enum DockerStatusView {
    Stopped,
    Limited { version: Option<Seq<char>> },
    Running {
        version: Option<Seq<char>>,
        total: Option<Seq<char>>,
        running: Option<Seq<char>>,
        stopped: Option<Seq<char>>,
        images: Option<Seq<char>>,
        host: Option<Seq<char>>,
    },
}

/// The text of a document that may be missing.
pub open spec fn text_of(document: Option<serde_json::Value>) -> Option<Seq<char>> {
    match document {
        Some(d) => Some(json_text(d)),
        None => None,
    }
}

impl View for DockerStatus {
    type V = DockerStatusView;

    open spec fn view(&self) -> DockerStatusView {
        match self {
            DockerStatus::Stopped => DockerStatusView::Stopped,
            DockerStatus::Limited { version } => DockerStatusView::Limited {
                version: text_of(*version),
            },
            DockerStatus::Running {
                version,
                total,
                running,
                stopped,
                images,
                host,
            } => DockerStatusView::Running {
                version: text_of(*version),
                total: text_of(*total),
                running: text_of(*running),
                stopped: text_of(*stopped),
                images: text_of(*images),
                host: text_of(*host),
            },
        }
    }
}

/// The figures of a status that says the engine runs, each as JSON text.
#[derive(Debug)]
pub struct StatusFigures {
    pub version: String,
    pub total: String,
    pub running: String,
    pub stopped: String,
    pub images: String,
    pub host: String,
}

pub struct StatusFiguresView {
    pub version: Seq<char>,
    pub total: Seq<char>,
    pub running: Seq<char>,
    pub stopped: Seq<char>,
    pub images: Seq<char>,
    pub host: Seq<char>,
}

impl View for StatusFigures {
    type V = StatusFiguresView;

    open spec fn view(&self) -> StatusFiguresView {
        StatusFiguresView {
            version: self.version@,
            total: self.total@,
            running: self.running@,
            stopped: self.stopped@,
            images: self.images@,
            host: self.host@,
        }
    }
}

impl DeepView for StatusFigures {
    type V = StatusFiguresView;

    open spec fn deep_view(&self) -> StatusFiguresView {
        self@
    }
}

/// The status as the presentation layer reads it: `running` with figures,
/// or `stopped` with the reason.
#[derive(Debug)]
pub struct StatusReport {
    pub status: String,
    pub error: Option<String>,
    pub figures: Option<StatusFigures>,
}

pub struct StatusReportView {
    pub status: Seq<char>,
    pub error: Option<Seq<char>>,
    pub figures: Option<StatusFiguresView>,
}

impl View for StatusReport {
    type V = StatusReportView;

    open spec fn view(&self) -> StatusReportView {
        StatusReportView {
            status: self.status@,
            error: self.error.deep_view(),
            figures: self.figures.deep_view(),
        }
    }
}

/// Where the check stands: which command is running.
#[derive(Debug, Clone, Copy, PartialEq, Eq, Structural)]
pub enum StatusStage {
    /// `version`.
    Version,
    /// `info`.
    Info,
    /// None: the check has ended.
    Closed,
}

/// A check of the engine that is under way.
#[derive(Debug)]
pub struct StatusCheck {
    pub stage: StatusStage,
    /// What `version` printed, once it has.
    pub version: Option<serde_json::Value>,
}

pub struct StatusCheckView {
    pub stage: StatusStage,
    pub version: Option<Seq<char>>,
}

impl View for StatusCheck {
    type V = StatusCheckView;

    open spec fn view(&self) -> StatusCheckView {
        StatusCheckView { stage: self.stage, version: text_of(self.version) }
    }
}

/// What the caller does next.
#[derive(Debug)]
pub enum StatusProgress {
    /// Run the engine with these arguments and hand back what came of it.
    Execute(Vec<String>),
    /// The check has ended.
    Done(DockerStatus),
}

pub enum StatusProgressView {
    Execute(Seq<Seq<char>>),
    Done(DockerStatusView),
}

impl View for StatusProgress {
    type V = StatusProgressView;

    open spec fn view(&self) -> StatusProgressView {
        match self {
            StatusProgress::Execute(command) => StatusProgressView::Execute(command.deep_view()),
            StatusProgress::Done(status) => StatusProgressView::Done(status@),
        }
    }
}

pub open spec fn version_command() -> Seq<Seq<char>> {
    seq!["version"@, "--format"@, "json"@]
}

pub open spec fn info_command() -> Seq<Seq<char>> {
    seq!["info"@, "--format"@, "json"@]
}

/// The message that goes with an engine that does not run.
pub open spec fn stopped_message() -> Seq<char> {
    "Docker daemon is not running or Docker is not installed"@
}

/// Whether a text is a JSON document.
pub open spec fn json_document(text: Seq<char>) -> bool {
    json_parsed(text) is Some
}

/// The document that a command printed, by its text: there is one where
/// the command ran, succeeded and printed a JSON document.
pub open spec fn printed(execution: ExecutionView) -> Option<Seq<char>> {
    match execution {
        ExecutionView::Completed(output) => if output.success {
            json_parsed(output.stdout)
        } else {
            None
        },
        ExecutionView::NotStarted(_) => None,
    }
}

/// The command ran, succeeded and printed a JSON document.
pub open spec fn printed_document(execution: ExecutionView) -> bool {
    printed(execution) is Some
}

/// The version of the client in what `version` printed: the member
/// `Version` of the member `Client`.
pub open spec fn client_version(version: Seq<char>) -> Option<Seq<char>> {
    match json_member(version, "Client"@) {
        Some(client) => json_member(client, "Version"@),
        None => None,
    }
}

/// What the engine says of itself, from what `version` and `info` printed.
/// Without the first the engine counts as stopped. Without the second it
/// runs and says no more than the version of its client. With both, the
/// counts of containers, the count of images and the version of the server
/// are the members `Containers`, `ContainersRunning`, `ContainersStopped`,
/// `Images` and `ServerVersion` of what `info` printed.
pub open spec fn status_of(version: Option<Seq<char>>, info: Option<Seq<char>>) -> DockerStatusView {
    match version {
        None => DockerStatusView::Stopped,
        Some(v) => match info {
            None => DockerStatusView::Limited { version: client_version(v) },
            Some(i) => DockerStatusView::Running {
                version: client_version(v),
                total: json_member(i, "Containers"@),
                running: json_member(i, "ContainersRunning"@),
                stopped: json_member(i, "ContainersStopped"@),
                images: json_member(i, "Images"@),
                host: json_member(i, "ServerVersion"@),
            },
        },
    }
}

/// The JSON text of a figure: the member's own text, `null` where the
/// engine did not give it.
pub open spec fn figure(member: Option<Seq<char>>) -> Seq<char> {
    match member {
        Some(text) => text,
        None => "null"@,
    }
}

/// The status as the presentation layer reads it. A stopped engine has the
/// status `stopped` and the reason. An engine that says no more than its
/// version has the status `running`, no containers, no images and the host
/// `docker`. An engine that says all has the status `running` and its own
/// figures.
pub open spec fn report_of(status: DockerStatusView) -> StatusReportView {
    match status {
        DockerStatusView::Stopped => StatusReportView {
            status: "stopped"@,
            error: Some(stopped_message()),
            figures: None,
        },
        DockerStatusView::Limited { version } => StatusReportView {
            status: "running"@,
            error: None,
            figures: Some(
                StatusFiguresView {
                    version: figure(version),
                    total: "0"@,
                    running: "0"@,
                    stopped: "0"@,
                    images: "0"@,
                    host: "\"docker\""@,
                },
            ),
        },
        DockerStatusView::Running {
            version,
            total,
            running,
            stopped,
            images,
            host,
        } => StatusReportView {
            status: "running"@,
            error: None,
            figures: Some(
                StatusFiguresView {
                    version: figure(version),
                    total: figure(total),
                    running: figure(running),
                    stopped: figure(stopped),
                    images: figure(images),
                    host: figure(host),
                },
            ),
        },
    }
}

/// A check that has ended.
pub open spec fn closed_check() -> StatusCheckView {
    StatusCheckView { stage: StatusStage::Closed, version: None }
}

/// What follows when the command that the check waits for has ended as
/// `execution` says. After `version`, `info` follows where `version` printed
/// a document, which the check keeps; else the engine counts as stopped.
/// After `info` the status is made of the document kept and of what `info`
/// printed. A check that has ended answers that the engine is stopped.
pub open spec fn status_step(check: StatusCheckView, execution: ExecutionView) -> (
    StatusCheckView,
    StatusProgressView,
) {
    match check.stage {
        StatusStage::Version => match printed(execution) {
            Some(document) => (
                StatusCheckView { stage: StatusStage::Info, version: Some(document) },
                StatusProgressView::Execute(info_command()),
            ),
            None => (closed_check(), StatusProgressView::Done(DockerStatusView::Stopped)),
        },
        StatusStage::Info => (
            closed_check(),
            StatusProgressView::Done(status_of(check.version, printed(execution))),
        ),
        StatusStage::Closed => (
            closed_check(),
            StatusProgressView::Done(DockerStatusView::Stopped),
        ),
    }
}

/// The login shell ran, succeeded and printed more than whitespace.
pub open spec fn answered(probe: ExecutionView) -> bool {
    probe matches ExecutionView::Completed(output) && output.success && trimmed(
        output.stdout,
    ).len() > 0
}

/// The search path that a login shell printed, or `fallback` where the
/// shell could not be asked or printed nothing.
pub open spec fn enriched_path(probe: ExecutionView, fallback: Seq<char>) -> Seq<char> {
    match probe {
        ExecutionView::Completed(output) => if output.success && trimmed(output.stdout).len() > 0 {
            trimmed(output.stdout)
        } else {
            fallback
        },
        ExecutionView::NotStarted(_) => fallback,
    }
}

/// The document that a command printed, if it ran, succeeded and printed
/// one.
pub fn read_document(execution: &Execution) -> (r: Option<serde_json::Value>)
    ensures
        text_of(r) == printed(execution@),
{
    match execution {
        Execution::Completed(output) => {
            if output.success {
                parse_document(output.stdout.as_str())
            } else {
                None
            }
        },
        Execution::NotStarted(_) => None,
    }
}

/// What the engine says of itself, from what `version` and `info` printed.
/// Without the first the engine counts as stopped; without the second it
/// runs and says no more than its version.
pub fn status_from_documents(
    version: Option<serde_json::Value>,
    info: Option<serde_json::Value>,
) -> (r: DockerStatus)
    ensures
        r@ == status_of(text_of(version), text_of(info)),
{
    let version = match version {
        Some(document) => document,
        None => {
            return DockerStatus::Stopped;
        },
    };
    let client = match member_of(&version, "Client") {
        Some(client) => member_of(&client, "Version"),
        None => None,
    };
    match info {
        Some(info) => DockerStatus::Running {
            version: client,
            total: member_of(&info, "Containers"),
            running: member_of(&info, "ContainersRunning"),
            stopped: member_of(&info, "ContainersStopped"),
            images: member_of(&info, "Images"),
            host: member_of(&info, "ServerVersion"),
        },
        None => DockerStatus::Limited { version: client },
    }
}

/// The JSON text of a figure: the member's own text, `null` where the
/// engine did not give it.
fn figure_text(member: &Option<serde_json::Value>) -> (r: String)
    ensures
        r@ == figure(text_of(*member)),
{
    match member {
        Some(document) => document_text(document),
        None => String::from_str("null"),
    }
}

impl DockerStatus {
    /// The message that goes with an engine that does not run.
    pub fn stopped_message() -> (r: &'static str)
        ensures
            r@ == stopped_message(),
    {
        "Docker daemon is not running or Docker is not installed"
    }

    /// The status as the presentation layer reads it.
    pub fn report(&self) -> (r: StatusReport)
        ensures
            r@ == report_of(self@),
    {
        match self {
            DockerStatus::Stopped => StatusReport {
                status: String::from_str("stopped"),
                error: Some(String::from_str(DockerStatus::stopped_message())),
                figures: None,
            },
            DockerStatus::Limited { version } => StatusReport {
                status: String::from_str("running"),
                error: None,
                figures: Some(
                    StatusFigures {
                        version: figure_text(version),
                        total: String::from_str("0"),
                        running: String::from_str("0"),
                        stopped: String::from_str("0"),
                        images: String::from_str("0"),
                        host: String::from_str("\"docker\""),
                    },
                ),
            },
            DockerStatus::Running { version, total, running, stopped, images, host } => StatusReport {
                status: String::from_str("running"),
                error: None,
                figures: Some(
                    StatusFigures {
                        version: figure_text(version),
                        total: figure_text(total),
                        running: figure_text(running),
                        stopped: figure_text(stopped),
                        images: figure_text(images),
                        host: figure_text(host),
                    },
                ),
            },
        }
    }
}

impl StatusCheck {
    /// Takes what came of the command that the check waits for, and says
    /// what the caller does next.
    pub fn advance(self, execution: &Execution) -> (r: (StatusCheck, StatusProgress))
        ensures
            (r.0@, r.1@) == status_step(self@, execution@),
    {
        match self.stage {
            StatusStage::Version => {
                match read_document(execution) {
                    Some(document) => {
                        let mut command: Vec<String> = Vec::new();
                        push_text(&mut command, String::from_str("info"));
                        push_text(&mut command, String::from_str("--format"));
                        push_text(&mut command, String::from_str("json"));
                        assert(command.deep_view() =~= info_command());
                        (
                            StatusCheck { stage: StatusStage::Info, version: Some(document) },
                            StatusProgress::Execute(command),
                        )
                    },
                    None => (
                        StatusCheck { stage: StatusStage::Closed, version: None },
                        StatusProgress::Done(DockerStatus::Stopped),
                    ),
                }
            },
            StatusStage::Info => {
                let info = read_document(execution);
                let status = status_from_documents(self.version, info);
                (
                    StatusCheck { stage: StatusStage::Closed, version: None },
                    StatusProgress::Done(status),
                )
            },
            StatusStage::Closed => (
                StatusCheck { stage: StatusStage::Closed, version: None },
                StatusProgress::Done(DockerStatus::Stopped),
            ),
        }
    }
}

impl DockerService {
    /// Begins to check the engine: the check, and the first command, which
    /// asks for the version.
    pub fn check_docker_status(&self) -> (r: (StatusCheck, Vec<String>))
        ensures
            r.0@ == (StatusCheckView { stage: StatusStage::Version, version: None }),
            r.1.deep_view() == version_command(),
    {
        let mut command: Vec<String> = Vec::new();
        push_text(&mut command, String::from_str("version"));
        push_text(&mut command, String::from_str("--format"));
        push_text(&mut command, String::from_str("json"));
        assert(command.deep_view() =~= version_command());
        (StatusCheck { stage: StatusStage::Version, version: None }, command)
    }

    /// Whether the login shell answered with a search path: it ran,
    /// succeeded and printed more than whitespace.
    pub fn shell_answered(&self, probe: &Execution) -> (r: bool)
        ensures
            r == answered(probe@),
            r ==> forall|fallback: Seq<char>| enriched_path(probe@, fallback) == trimmed(
                probe@->Completed_0.stdout,
            ),
            !r ==> forall|fallback: Seq<char>| enriched_path(probe@, fallback) == fallback,
    {
        match probe {
            Execution::Completed(output) => {
                output.success && trim(output.stdout.as_str()).as_str().unicode_len() > 0
            },
            Execution::NotStarted(_) => false,
        }
    }

    /// The search path for the engine's program: what the user's login
    /// shell printed as its path, trimmed, or `fallback` where the shell could
    /// not be asked, failed or printed nothing.
    pub fn get_enriched_path(&self, probe: &Execution, fallback: &str) -> (r: String)
        ensures
            r@ == enriched_path(probe@, fallback@),
    {
        match probe {
            Execution::Completed(output) => {
                if output.success {
                    let path = trim(output.stdout.as_str());
                    if path.as_str().unicode_len() > 0 {
                        return path;
                    }
                }
                String::from_str(fallback)
            },
            Execution::NotStarted(_) => String::from_str(fallback),
        }
    }
}

} // verus!
