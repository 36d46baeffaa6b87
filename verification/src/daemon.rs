//! The daemon's request logic between the protocol and the coordinator:
//! error codes, the greeting, plans, the preparation of a session, and the
//! paths of its finalisation. Files, processes and the socket are the
//! caller's part.

use vstd::prelude::*;
use crate::capabilities::{Capabilities, HostFacts};
use crate::config::{BackendConfig, Config, ConfigError};
use crate::coordinator::{Admission, CoordinatorError, coordinator_code};
use crate::domain::{RecordingRequest, EvaluatedSpec, EvaluatedSpecView, LaunchPlan, PlannedCommand, PostprocessMode, RecordingSpec, RecordingSpecView};
use crate::gsr_command::{plan_describes, GsrCommandBuilder, GsrPlan, PlanError};
use crate::ids::{PreviewId, SessionId};
use crate::naming::{explicit_candidate, NamingError, OccupiedNames, OutputPlan};
use crate::output::OutputError;
use crate::policy::{error_code, evaluation, PolicyError};
use crate::probe::ProbeError;
use crate::protocol::{Request, Response, PROTOCOL_VERSION};
use crate::state::SessionRecord;
use crate::supervisor::{allowed_entries, env_view, run_arguments, unit_text, SystemdSupervisor};
use crate::text::{owned, push_str, texts};

verus! {

#[derive(Clone, Debug)]
pub enum AppError {
    Plan(PlanError),
    Probe(ProbeError),
    Config(ConfigError),
    Policy(PolicyError),
    Naming(NamingError),
    Coordinator(CoordinatorError),
    /// Preparing the session's runtime failed; the system's message.
    Io(String),
    Output(OutputError),
    Postprocess(crate::postprocess::PostprocessError),
    WatchHandledByTransport,
}

pub open spec fn app_error_code(e: AppError) -> Seq<char> {
    match e {
        AppError::Plan(_) => "plan_failed"@,
        AppError::Probe(_) => "probe_failed"@,
        AppError::Config(_) => "invalid_request"@,
        AppError::Policy(p) => error_code(p@),
        AppError::Naming(_) => "naming_failed"@,
        AppError::Coordinator(c) => coordinator_code(c),
        AppError::Io(_) => "io_error"@,
        AppError::Output(_) => "finalization_failed"@,
        AppError::Postprocess(_) => "postprocess_failed"@,
        AppError::WatchHandledByTransport => "transport_error"@,
    }
}

impl AppError {
    /// The code a client receives.
    pub fn code(&self) -> (s: &'static str)
        ensures
            s@ == app_error_code(*self),
    {
        match self {
            AppError::Plan(_) => "plan_failed",
            AppError::Probe(_) => "probe_failed",
            AppError::Config(_) => "invalid_request",
            AppError::Policy(e) => e.code(),
            AppError::Naming(_) => "naming_failed",
            AppError::Coordinator(e) => e.code(),
            AppError::Io(_) => "io_error",
            AppError::Output(_) => "finalization_failed",
            AppError::Postprocess(_) => "postprocess_failed",
            AppError::WatchHandledByTransport => "transport_error",
        }
    }

    /// Only a failed probe is worth retrying.
    pub fn retryable(&self) -> (b: bool)
        ensures
            b == (*self is Probe),
    {
        match self {
            AppError::Probe(_) => true,
            _ => false,
        }
    }

    /// The answer a failed request gets; `message` is the error's text.
    pub fn response(&self, message: String) -> (r: Response)
        ensures
            r matches Response::Error { code, message: m, retryable, details } && code@ == app_error_code(*self)
                && m == message && retryable == (*self is Probe) && details is None,
    {
        Response::Error {
            code: owned(self.code()),
            message,
            retryable: self.retryable(),
            details: None,
        }
    }
}

pub open spec fn features_list() -> Seq<Seq<char>> {
    seq![
        "plan"@,
        "capability_probe"@,
        "watch"@,
        "doctor"@,
        "reload"@,
        "start"@,
        "pause"@,
        "resume"@,
        "stop"@,
        "gsr_ipc_design"@,
    ]
}

/// The features the greeting announces.
pub fn hello_features() -> (r: Vec<String>)
    ensures
        texts(r@) == features_list(),
{
    let r = vec![
        owned("plan"),
        owned("capability_probe"),
        owned("watch"),
        owned("doctor"),
        owned("reload"),
        owned("start"),
        owned("pause"),
        owned("resume"),
        owned("stop"),
        owned("gsr_ipc_design"),
    ];
    assert(texts(r@) =~= features_list());
    r
}

pub fn hello_response(daemon_version: String) -> (r: Response)
    ensures
        r matches Response::Hello { daemon_version: v, protocol, features } && v == daemon_version
            && protocol == PROTOCOL_VERSION && texts(features@) == features_list(),
{
    Response::Hello { daemon_version, protocol: PROTOCOL_VERSION, features: hello_features() }
}

/// What the daemon does with a request: answer at once, carry out one
/// operation whose outcome becomes the answer, or refuse.
#[derive(Clone, Debug)]
pub enum RequestAction {
    Answer(Response),
    Status,
    Capabilities { refresh: bool },
    Plan { request: RecordingRequest },
    Start { request: RecordingRequest },
    /// A control of the named session; the snapshot is published after it.
    Stop { expected_session_id: SessionId, force: bool },
    Pause { expected_session_id: SessionId },
    Resume { expected_session_id: SessionId },
    Reload,
    Doctor,
    Refuse(AppError),
}

/// The greeting is answered at once, each other request maps to its own
/// operation with its arguments, and a watch, which the transport serves,
/// is refused here.
pub fn route_request(request: Request, daemon_version: String) -> (a: RequestAction)
    ensures
        match request {
            Request::Hello => a matches RequestAction::Answer(Response::Hello {
                daemon_version: v,
                protocol,
                features,
            }) && v == daemon_version && protocol == PROTOCOL_VERSION && texts(features@)
                == features_list(),
            Request::Status => a is Status,
            Request::Capabilities { refresh } => a == RequestAction::Capabilities { refresh },
            Request::Plan { request: q } => a == RequestAction::Plan { request: q },
            Request::Start { request: q } => a == RequestAction::Start { request: q },
            Request::Stop { expected_session_id, force } => a == RequestAction::Stop {
                expected_session_id,
                force,
            },
            Request::Pause { expected_session_id } => a == RequestAction::Pause { expected_session_id },
            Request::Resume { expected_session_id } => a == RequestAction::Resume {
                expected_session_id,
            },
            Request::Reload => a is Reload,
            Request::Doctor => a is Doctor,
            Request::Watch => a matches RequestAction::Refuse(AppError::WatchHandledByTransport),
        },
{
    match request {
        Request::Hello => RequestAction::Answer(hello_response(daemon_version)),
        Request::Status => RequestAction::Status,
        Request::Capabilities { refresh } => RequestAction::Capabilities { refresh },
        Request::Plan { request } => RequestAction::Plan { request },
        Request::Start { request } => RequestAction::Start { request },
        Request::Stop { expected_session_id, force } => RequestAction::Stop { expected_session_id, force },
        Request::Pause { expected_session_id } => RequestAction::Pause { expected_session_id },
        Request::Resume { expected_session_id } => RequestAction::Resume { expected_session_id },
        Request::Reload => RequestAction::Reload,
        Request::Doctor => RequestAction::Doctor,
        Request::Watch => RequestAction::Refuse(AppError::WatchHandledByTransport),
    }
}

/// What the daemon knows of the host from a probe: the probed device as
/// the GPU vendor, the probe's generation as the topology's.
pub fn host_facts(capabilities: &Capabilities) -> (h: HostFacts)
    ensures
        h.display_server is None,
        h.gpu_vendor == capabilities.capture_device,
        h.card_path is None,
        h.topology_generation == capabilities.generation,
{
    HostFacts {
        display_server: None,
        gpu_vendor: crate::text::copy_opt_string(&capabilities.capture_device),
        card_path: None,
        topology_generation: capabilities.generation,
    }
}

pub open spec fn webcam_plan_warning() -> Seq<char> {
    "the plan uses GSR native multi-source V4L2 composition; keep the current mpv overlay as a migration fallback until hardware coverage is complete"@
}

/// A plan's warnings: the evaluation's, and a note when a webcam is composed in.
pub fn plan_warnings(evaluated: &EvaluatedSpec) -> (r: Vec<String>)
    ensures
        texts(r@) == texts(evaluated.warnings@) + (if evaluated.spec.webcam is Some {
            seq![webcam_plan_warning()]
        } else {
            Seq::empty()
        }),
{
    let mut warnings = crate::text::copy_strings(&evaluated.warnings);
    if evaluated.spec.webcam.is_some() {
        let ghost before = texts(warnings@);
        warnings.push(owned("the plan uses GSR native multi-source V4L2 composition; keep the current mpv overlay as a migration fallback until hardware coverage is complete"));
        assert(texts(warnings@) =~= before.push(webcam_plan_warning()));
    }
    assert(texts(warnings@) =~= texts(evaluated.warnings@) + (if evaluated.spec.webcam is Some {
        seq![webcam_plan_warning()]
    } else {
        Seq::empty()
    }));
    warnings
}

/// The recorder's plan wrapped in its systemd unit.
pub open spec fn supervised(s: PlannedCommand, run_program: Seq<char>, id: SessionId, child: PlannedCommand) -> bool {
    &&& s.program@ == run_program
    &&& texts(s.arguments@) == run_arguments(unit_text(id), child.program@, texts(child.arguments@))
    &&& env_view(s.environment@) == allowed_entries(env_view(child.environment@))
}

/// The advisory plan of an evaluated specification: the exact recorder and
/// systemd commands for an unreserved session, without running anything.
pub fn launch_plan(
    evaluated: &EvaluatedSpec,
    config: &Config,
    runtime_directory: String,
    session_id: SessionId,
    preview_id: PreviewId,
) -> (r: Result<LaunchPlan, PlanError>)
    ensures
        crate::domain::validation_error(evaluated.spec@) is Some ==> r is Err,
        crate::domain::validation_error(evaluated.spec@) is None ==> (r matches Ok(p) && {
            &&& p.preview_id == preview_id
            &&& p.advisory
            &&& p.session_id is None
            &&& p.runtime_directory == runtime_directory
            &&& plan_describes(
                GsrPlan {
                    session_id,
                    command: p.recorder,
                    gsr_ipc_socket: p.gsr_ipc_socket,
                    staging_output: p.staging_output,
                    final_output: p.final_output,
                    first_frame_timestamp: p.first_frame_timestamp,
                },
                config.binaries.recorder_binary@,
                Seq::empty(),
                session_id,
                runtime_directory@,
                evaluated@,
            )
            &&& supervised(p.supervisor, config.binaries.systemd_run_binary@, session_id, p.recorder)
            &&& texts(p.warnings@) == texts(evaluated.warnings@) + (if evaluated.spec.webcam is Some {
                seq![webcam_plan_warning()]
            } else {
                Seq::empty()
            })
            &&& p.rationale@ == evaluated.rationale@
        }),
{
    let builder = GsrCommandBuilder::new(config.binaries.recorder_binary.as_str());
    let gsr = match builder.plan(session_id, runtime_directory.as_str(), evaluated) {
        Ok(g) => g,
        Err(e) => {
            return Err(e);
        },
    };
    let supervisor = SystemdSupervisor::new(
        config.binaries.systemd_run_binary.as_str(),
        config.binaries.systemctl_binary.as_str(),
    ).plan(session_id, &gsr.command);
    let warnings = plan_warnings(evaluated);
    Ok(
        LaunchPlan {
            preview_id,
            advisory: true,
            session_id: None,
            runtime_directory,
            gsr_ipc_socket: gsr.gsr_ipc_socket,
            first_frame_timestamp: gsr.first_frame_timestamp,
            staging_output: gsr.staging_output,
            final_output: gsr.final_output,
            recorder: gsr.command,
            supervisor,
            warnings,
            rationale: crate::text::copy_strings(&evaluated.rationale),
        },
    )
}

/// Everything a start needs once the specification is evaluated and its
/// destination reserved.
#[derive(Clone, Debug)]
pub struct SessionPreparation {
    pub admission: Admission,
    pub recorder: PlannedCommand,
    pub supervisor: PlannedCommand,
}

/// The evaluated specification with its destination replaced.
pub open spec fn with_output(e: EvaluatedSpecView, output: Seq<char>) -> EvaluatedSpecView {
    EvaluatedSpecView { spec: RecordingSpecView { output, ..e.spec }, ..e }
}

/// What preparing a start gives for an evaluation whose destination is
/// `output`: the plan error when the specification with that destination
/// fails validation, else the admission, the recorder and its unit.
pub open spec fn prepared_for(
    config: Config,
    ev: EvaluatedSpecView,
    output: Seq<char>,
    session_id: SessionId,
    runtime_directory: String,
    r: Result<SessionPreparation, AppError>,
) -> bool {
    let placed = with_output(ev, output);
    match crate::domain::validation_error(placed.spec) {
        Some(_) => r matches Err(AppError::Plan(PlanError::InvalidSpec(e)))
            && crate::domain::validation_matches(placed.spec, Err(e)),
        None => match r {
            Ok(p) => {
                &&& p.admission.evaluated@ == placed
                &&& p.admission.session_id == session_id
                &&& p.admission.runtime_directory == runtime_directory
                &&& p.admission.unit_name@ == unit_text(session_id)
                &&& plan_describes(
                    GsrPlan {
                        session_id,
                        command: p.recorder,
                        gsr_ipc_socket: p.admission.gsr_ipc_socket,
                        staging_output: p.admission.staging_output,
                        final_output: p.admission.evaluated.spec.output,
                        first_frame_timestamp: p.admission.first_frame_timestamp,
                    },
                    config.binaries.recorder_binary@,
                    Seq::empty(),
                    session_id,
                    runtime_directory@,
                    placed,
                )
                &&& supervised(p.supervisor, config.binaries.systemd_run_binary@, session_id, p.recorder)
            },
            Err(_) => false,
        },
    }
}

/// Plans a start once its destination is reserved: the evaluation takes the
/// reserved path, the recorder is planned for the session's runtime
/// directory, and its unit around it.
pub fn prepare_reserved(
    config: &Config,
    evaluated: EvaluatedSpec,
    reserved: OutputPlan,
    session_id: SessionId,
    runtime_directory: String,
) -> (r: Result<SessionPreparation, AppError>)
    ensures
        prepared_for(*config, evaluated@, reserved.final_output@, session_id, runtime_directory, r),
{
    let mut evaluated = evaluated;
    let ghost ev = evaluated@;
    evaluated.spec.output = reserved.final_output;
    assert(evaluated@ =~= with_output(ev, evaluated.spec.output@));
    let gsr = match GsrCommandBuilder::new(config.binaries.recorder_binary.as_str()).plan(
        session_id,
        runtime_directory.as_str(),
        &evaluated,
    ) {
        Ok(g) => g,
        Err(e) => {
            return Err(AppError::Plan(e));
        },
    };
    let supervisor = SystemdSupervisor::new(
        config.binaries.systemd_run_binary.as_str(),
        config.binaries.systemctl_binary.as_str(),
    ).plan(session_id, &gsr.command);
    let GsrPlan { command, gsr_ipc_socket, staging_output, final_output, first_frame_timestamp, .. } = gsr;
    Ok(
        SessionPreparation {
            admission: Admission {
                session_id,
                evaluated,
                runtime_directory,
                gsr_ipc_socket,
                first_frame_timestamp,
                staging_output,
                unit_name: SystemdSupervisor::unit_name(session_id),
            },
            recorder: command,
            supervisor,
        },
    )
}

/// Prepares a start: evaluates the resolved specification against the
/// probe, reserves a free destination beside the requested one, and plans
/// the recorder and its unit for the session's runtime directory
/// (`prepare_reserved`). Which candidate is free is the caller's answer, so
/// the result is that of some candidate below 1000, or no name is left.
pub fn prepare_session<O: OccupiedNames>(
    config: &Config,
    spec: &RecordingSpec,
    capabilities: &Capabilities,
    session_id: SessionId,
    occupied: &O,
    runtime_directory: String,
) -> (r: Result<SessionPreparation, AppError>)
    ensures
        match evaluation(spec@, *capabilities, host_facts_of(*capabilities), config.backend) {
            Err(e) => r matches Err(AppError::Policy(p)) && crate::policy::evaluation_matches(
                spec@,
                *capabilities,
                host_facts_of(*capabilities),
                config.backend,
                Err(p),
            ),
            Ok(ev) => {
                ||| r matches Err(AppError::Naming(NamingError::Exhausted))
                ||| exists|k: nat| k < 1000 && prepared_for(
                    *config,
                    ev,
                    #[trigger] explicit_candidate(spec.output@, k),
                    session_id,
                    runtime_directory,
                    r,
                )
            },
        },
{
    let host = host_facts(capabilities);
    let evaluated = match crate::policy::evaluate(spec, capabilities, &host, &config.backend) {
        Ok(e) => e,
        Err(e) => {
            return Err(AppError::Policy(e));
        },
    };
    let reserved = match crate::naming::reserve_explicit(evaluated.spec.output.as_str(), session_id, occupied) {
        Ok(p) => p,
        Err(e) => {
            return Err(AppError::Naming(e));
        },
    };
    prepare_reserved(config, evaluated, reserved, session_id, runtime_directory)
}

/// `host_facts` as a value.
pub open spec fn host_facts_of(c: Capabilities) -> HostFacts {
    HostFacts {
        display_server: None,
        gpu_vendor: c.capture_device,
        card_path: None,
        topology_generation: c.generation,
    }
}

/// Where finalisation reads and writes: the destination's directory, the
/// file to promote and the file the recorder reported, and the
/// compatibility copy when post-processing makes one.
#[derive(Clone, Debug)]
pub struct FinalizationPaths {
    pub destination_dir: String,
    pub source: String,
    pub saved: String,
    pub compat: Option<String>,
}

/// The compatibility copy sits beside the staging file as `NAME.compat.mp4`.
pub open spec fn compat_path(staging: Seq<char>) -> Seq<char> {
    crate::pathname::path_with_file_name(
        staging,
        (match crate::pathname::path_file_name(staging) {
            Some(n) => n,
            None => Seq::empty(),
        }) + ".compat.mp4"@,
    )
}

/// The paths of a stop's finalisation. The stored session must be the one
/// that was stopped.
pub fn finalization_paths(record: Option<&SessionRecord>, expected: SessionId, saved: String) -> (r: Result<
    FinalizationPaths,
    CoordinatorError,
>)
    ensures
        match record {
            None => r == Err::<FinalizationPaths, CoordinatorError>(CoordinatorError::NoActiveSession),
            Some(rec) => if rec.session_id != expected {
                r == Err::<FinalizationPaths, CoordinatorError>(
                    CoordinatorError::SessionMismatch { expected, actual: rec.session_id },
                )
            } else {
                r matches Ok(f) && f.destination_dir@ == (match crate::pathname::path_parent(rec.final_output@) {
                    Some(d) => d,
                    None => "."@,
                }) && if (rec.evaluated matches Some(e) && e.spec.postprocess == PostprocessMode::OmarchyCompat) {
                    f.compat matches Some(c) && c@ == compat_path(rec.staging_output@) && f.source@ == c@ && f.saved@ == c@
                } else {
                    f.compat is None && f.source@ == rec.staging_output@ && f.saved == saved
                }
            },
        },
{
    let rec = match record {
        Some(r) => r,
        None => {
            return Err(CoordinatorError::NoActiveSession);
        },
    };
    if rec.session_id != expected {
        return Err(CoordinatorError::SessionMismatch { expected, actual: rec.session_id });
    }
    let destination_dir = match crate::pathname::parent(rec.final_output.as_str()) {
        Some(d) => d,
        None => owned("."),
    };
    let compat_wanted = match &rec.evaluated {
        Some(e) => e.spec.postprocess == PostprocessMode::OmarchyCompat,
        None => false,
    };
    if compat_wanted {
        let name = match crate::pathname::file_name(rec.staging_output.as_str()) {
            Some(n) => n,
            None => String::new(),
        };
        let mut v: Vec<char> = Vec::new();
        push_str(&mut v, name.as_str());
        push_str(&mut v, ".compat.mp4");
        let compat = crate::pathname::with_file_name(
            rec.staging_output.as_str(),
            crate::text::string_from(v.as_slice()).as_str(),
        );
        Ok(
            FinalizationPaths {
                destination_dir,
                source: compat.clone(),
                saved: compat.clone(),
                compat: Some(compat),
            },
        )
    } else {
        Ok(
            FinalizationPaths {
                destination_dir,
                source: rec.staging_output.clone(),
                saved,
                compat: None,
            },
        )
    }
}

} // verus!
