//! The recorder probe: which commands run in which order, what each
//! process outcome means, and the snapshot assembled from the documents.
//! Running the processes is the caller's part.

use vstd::prelude::*;
use crate::capabilities::Capabilities;
use crate::gsr_parse::{
    assemble_capabilities, assembled, probes_present, DocumentsModel, ParseError, ProbeContext,
    ProbeDocuments, MAX_PROBE_BYTES,
};
use crate::pathname::opt_text;
use crate::text::{owned, texts, trim};

verus! {

/// What decoding `bytes` gives when it fits in `limit` and is not blank.
pub open spec fn usable_output(bytes: Seq<u8>, limit: nat) -> Option<Seq<char>> {
    if bytes.len() <= limit && vstd::utf8::valid_utf8(bytes) && trim(
        vstd::utf8::decode_utf8(bytes),
    ).len() > 0 {
        Some(vstd::utf8::decode_utf8(bytes))
    } else {
        None
    }
}

/// Standard output if it is usable, else standard error: help texts go to
/// either, and a usage text may come with a failing exit status.
pub open spec fn coalesced(stdout: Seq<u8>, stderr: Seq<u8>, limit: nat) -> Option<Seq<char>> {
    match usable_output(stdout, limit) {
        Some(d) => Some(d),
        None => usable_output(stderr, limit),
    }
}

fn usable(bytes: &[u8], limit: usize) -> (r: Option<String>)
    ensures
        opt_text(r) == usable_output(bytes@, limit as nat),
{
    match crate::gsr_parse::decode_bounded(bytes, limit) {
        Ok(document) => {
            if crate::text::trim_str(document.as_str()).as_str().is_empty() {
                None
            } else {
                Some(document)
            }
        },
        Err(_) => None,
    }
}

pub fn coalesce_output(stdout: &[u8], stderr: &[u8], limit: usize) -> (r: Option<String>)
    ensures
        opt_text(r) == coalesced(stdout@, stderr@, limit as nat),
{
    match usable(stdout, limit) {
        Some(document) => Some(document),
        None => usable(stderr, limit),
    }
}

#[derive(Clone, Debug, PartialEq, Eq)]
pub enum ProbeError {
    /// The process could not be started; the system's message.
    Spawn(String),
    /// A required probe did not finish within this many seconds.
    Timeout(u64),
    Rejected { arguments: Vec<String>, code: Option<i32>, stderr: String },
    /// A required probe gave no document.
    RequiredMissing(String),
    Parse(ParseError),
}

/// How one probe process ended.
#[derive(Clone, Debug)]
pub enum ProbeOutcome {
    SpawnFailed { message: String },
    TimedOut,
    Finished { success: bool, code: Option<i32>, stdout: Vec<u8>, stderr: Vec<u8> },
}

/// Runs the recorder's probe commands. Its settings are read through accessors.
#[derive(Clone, Debug)]
pub struct ProbeRunner {
    recorder_binary: String,
    cli_binary: String,
    timeout_secs: u64,
    max_bytes: usize,
}

/// The probes, in the order they run. A missing `--help` document is asked
/// again of `-h`.
#[derive(Clone, Copy, Debug, PartialEq, Eq, Structural)]
pub enum ProbeStage {
    Info,
    CaptureOptions,
    Version,
    Help,
    ShortHelp,
    Cameras,
    Audio,
    Applications,
    Monitors,
    Done,
}

pub open spec fn stage_argument(s: ProbeStage) -> Seq<char> {
    match s {
        ProbeStage::Info => "--info"@,
        ProbeStage::CaptureOptions => "--list-capture-options"@,
        ProbeStage::Version => "--version"@,
        ProbeStage::Help => "--help"@,
        ProbeStage::ShortHelp => "-h"@,
        ProbeStage::Cameras => "--list-v4l2-devices"@,
        ProbeStage::Audio => "--list-audio-devices"@,
        ProbeStage::Applications => "--list-application-audio"@,
        ProbeStage::Monitors => "--list-monitors"@,
        ProbeStage::Done => ""@,
    }
}

/// Only `--info` and `--list-capture-options` are required.
pub open spec fn stage_required(s: ProbeStage) -> bool {
    s == ProbeStage::Info || s == ProbeStage::CaptureOptions
}

impl ProbeStage {
    pub fn argument(self) -> (s: &'static str)
        ensures
            s@ == stage_argument(self),
    {
        match self {
            ProbeStage::Info => "--info",
            ProbeStage::CaptureOptions => "--list-capture-options",
            ProbeStage::Version => "--version",
            ProbeStage::Help => "--help",
            ProbeStage::ShortHelp => "-h",
            ProbeStage::Cameras => "--list-v4l2-devices",
            ProbeStage::Audio => "--list-audio-devices",
            ProbeStage::Applications => "--list-application-audio",
            ProbeStage::Monitors => "--list-monitors",
            ProbeStage::Done => "",
        }
    }

    pub fn required(self) -> (b: bool)
        ensures
            b == stage_required(self),
    {
        self == ProbeStage::Info || self == ProbeStage::CaptureOptions
    }
}

/// The documents gathered so far and the probe that runs next.
#[derive(Clone, Debug)]
pub struct ProbeSession {
    pub stage: ProbeStage,
    pub info: Option<String>,
    pub capture_options: Option<String>,
    pub version: Option<String>,
    pub help: Option<String>,
    pub cameras: Option<String>,
    pub audio: Option<String>,
    pub applications: Option<String>,
    pub monitors: Option<String>,
}

/// The stage after `s` once it gave a document or none.
pub open spec fn next_stage(s: ProbeStage, got: bool) -> ProbeStage {
    match s {
        ProbeStage::Info => ProbeStage::CaptureOptions,
        ProbeStage::CaptureOptions => ProbeStage::Version,
        ProbeStage::Version => ProbeStage::Help,
        ProbeStage::Help => if got {
            ProbeStage::Cameras
        } else {
            ProbeStage::ShortHelp
        },
        ProbeStage::ShortHelp => ProbeStage::Cameras,
        ProbeStage::Cameras => ProbeStage::Audio,
        ProbeStage::Audio => ProbeStage::Applications,
        ProbeStage::Applications => ProbeStage::Monitors,
        ProbeStage::Monitors => ProbeStage::Done,
        ProbeStage::Done => ProbeStage::Done,
    }
}

/// The documents of a finished session, as the parsers read them.
pub open spec fn session_documents(s: ProbeSession) -> DocumentsModel {
    DocumentsModel {
        version: opt_text(s.version),
        info: match s.info {
            Some(d) => d@,
            None => ""@,
        },
        capture_options: match s.capture_options {
            Some(d) => d@,
            None => ""@,
        },
        monitors: opt_text(s.monitors),
        cameras: opt_text(s.cameras),
        audio: opt_text(s.audio),
        applications: opt_text(s.applications),
        help: opt_text(s.help),
    }
}

impl ProbeSession {
    pub fn new() -> (s: Self)
        ensures
            s.stage == ProbeStage::Info,
            s.info is None && s.capture_options is None && s.version is None && s.help is None,
            s.cameras is None && s.audio is None && s.applications is None && s.monitors is None,
    {
        ProbeSession {
            stage: ProbeStage::Info,
            info: None,
            capture_options: None,
            version: None,
            help: None,
            cameras: None,
            audio: None,
            applications: None,
            monitors: None,
        }
    }

    /// Takes what the current probe gave. A required probe without a
    /// document ends the session with an error naming it.
    pub fn record(&mut self, document: Option<String>) -> (r: Result<(), ProbeError>)
        requires
            old(self).stage != ProbeStage::Done,
        ensures
            stage_required(old(self).stage) && document is None ==> (r matches Err(
                ProbeError::RequiredMissing(name),
            ) && name@ == stage_argument(old(self).stage)),
            !(stage_required(old(self).stage) && document is None) ==> {
                &&& r is Ok
                &&& final(self).stage == next_stage(old(self).stage, document is Some)
                &&& final(self).info == (if old(self).stage == ProbeStage::Info {
                    document
                } else {
                    old(self).info
                })
                &&& final(self).capture_options == (if old(self).stage
                    == ProbeStage::CaptureOptions {
                    document
                } else {
                    old(self).capture_options
                })
                &&& final(self).version == (if old(self).stage == ProbeStage::Version {
                    document
                } else {
                    old(self).version
                })
                &&& final(self).help == (if old(self).stage == ProbeStage::Help || old(self).stage
                    == ProbeStage::ShortHelp {
                    document
                } else {
                    old(self).help
                })
                &&& final(self).cameras == (if old(self).stage == ProbeStage::Cameras {
                    document
                } else {
                    old(self).cameras
                })
                &&& final(self).audio == (if old(self).stage == ProbeStage::Audio {
                    document
                } else {
                    old(self).audio
                })
                &&& final(self).applications == (if old(self).stage == ProbeStage::Applications {
                    document
                } else {
                    old(self).applications
                })
                &&& final(self).monitors == (if old(self).stage == ProbeStage::Monitors {
                    document
                } else {
                    old(self).monitors
                })
            },
    {
        let stage = self.stage;
        if stage.required() && document.is_none() {
            return Err(ProbeError::RequiredMissing(owned(stage.argument())));
        }
        let got = document.is_some();
        match stage {
            ProbeStage::Info => {
                self.info = document;
                self.stage = ProbeStage::CaptureOptions;
            },
            ProbeStage::CaptureOptions => {
                self.capture_options = document;
                self.stage = ProbeStage::Version;
            },
            ProbeStage::Version => {
                self.version = document;
                self.stage = ProbeStage::Help;
            },
            ProbeStage::Help => {
                self.help = document;
                self.stage = if got {
                    ProbeStage::Cameras
                } else {
                    ProbeStage::ShortHelp
                };
            },
            ProbeStage::ShortHelp => {
                self.help = document;
                self.stage = ProbeStage::Cameras;
            },
            ProbeStage::Cameras => {
                self.cameras = document;
                self.stage = ProbeStage::Audio;
            },
            ProbeStage::Audio => {
                self.audio = document;
                self.stage = ProbeStage::Applications;
            },
            ProbeStage::Applications => {
                self.applications = document;
                self.stage = ProbeStage::Monitors;
            },
            ProbeStage::Monitors => {
                self.monitors = document;
                self.stage = ProbeStage::Done;
            },
            ProbeStage::Done => {},
        }
        Ok(())
    }
}

impl ProbeRunner {
    pub closed spec fn recorder(self) -> Seq<char> {
        self.recorder_binary@
    }

    pub closed spec fn cli(self) -> Seq<char> {
        self.cli_binary@
    }

    pub closed spec fn timeout(self) -> u64 {
        self.timeout_secs
    }

    pub closed spec fn limit(self) -> usize {
        self.max_bytes
    }

    /// Five seconds per probe, documents up to the probe limit, `gsr-cli` for control.
    pub fn new(recorder_binary: &str) -> (r: Self)
        ensures
            r.recorder() == recorder_binary@,
            r.cli() == "gsr-cli"@,
            r.timeout() == 5,
            r.limit() == MAX_PROBE_BYTES,
    {
        ProbeRunner {
            recorder_binary: owned(recorder_binary),
            cli_binary: owned("gsr-cli"),
            timeout_secs: 5,
            max_bytes: MAX_PROBE_BYTES,
        }
    }

    pub fn with_cli_binary(self, cli_binary: &str) -> (r: Self)
        ensures
            r.recorder() == self.recorder(),
            r.cli() == cli_binary@,
            r.timeout() == self.timeout(),
            r.limit() == self.limit(),
    {
        ProbeRunner { cli_binary: owned(cli_binary), ..self }
    }

    pub fn recorder_binary(&self) -> (s: &str)
        ensures
            s@ == self.recorder(),
    {
        self.recorder_binary.as_str()
    }

    pub fn cli_binary(&self) -> (s: &str)
        ensures
            s@ == self.cli(),
    {
        self.cli_binary.as_str()
    }

    pub fn timeout_secs(&self) -> (t: u64)
        ensures
            t == self.timeout(),
    {
        self.timeout_secs
    }

    pub fn max_bytes(&self) -> (n: usize)
        ensures
            n == self.limit(),
    {
        self.max_bytes
    }

    /// What one probe process gave. A probe that is not required and could
    /// not run gives no document; a required one is an error. Output over the
    /// limit is an error either way; a required probe must also exit successfully.
    pub fn run_result(&self, arguments: &Vec<String>, required: bool, outcome: ProbeOutcome) -> (r:
        Result<Option<String>, ProbeError>)
        ensures
            match outcome {
                ProbeOutcome::SpawnFailed { message } => if required {
                    r == Err::<Option<String>, ProbeError>(ProbeError::Spawn(message))
                } else {
                    r == Ok::<Option<String>, ProbeError>(None)
                },
                ProbeOutcome::TimedOut => if required {
                    r == Err::<Option<String>, ProbeError>(ProbeError::Timeout(self.timeout()))
                } else {
                    r == Ok::<Option<String>, ProbeError>(None)
                },
                ProbeOutcome::Finished { success, code, stdout, stderr } => if stdout@.len()
                    > self.limit() || stderr@.len() > self.limit() {
                    r == Err::<Option<String>, ProbeError>(
                        ProbeError::Parse(ParseError::Oversized { limit: self.limit() }),
                    )
                } else if required && !success {
                    r matches Err(ProbeError::Rejected { arguments: a, code: c, stderr: e })
                        && texts(a@) == texts(arguments@) && c == code && e@ == (if vstd::utf8::valid_utf8(
                        stderr@,
                    ) {
                        trim(vstd::utf8::decode_utf8(stderr@))
                    } else {
                        Seq::empty()
                    })
                } else {
                    r matches Ok(d) && opt_text(d) == coalesced(stdout@, stderr@, self.limit() as nat)
                },
            },
    {
        match outcome {
            ProbeOutcome::SpawnFailed { message } => {
                if required {
                    Err(ProbeError::Spawn(message))
                } else {
                    Ok(None)
                }
            },
            ProbeOutcome::TimedOut => {
                if required {
                    Err(ProbeError::Timeout(self.timeout_secs))
                } else {
                    Ok(None)
                }
            },
            ProbeOutcome::Finished { success, code, stdout, stderr } => {
                if stdout.len() > self.max_bytes || stderr.len() > self.max_bytes {
                    return Err(ProbeError::Parse(ParseError::Oversized { limit: self.max_bytes }));
                }
                let document = coalesce_output(stdout.as_slice(), stderr.as_slice(), self.max_bytes);
                if required && !success {
                    let message = match crate::gsr_parse::decode_bounded(
                        stderr.as_slice(),
                        self.max_bytes,
                    ) {
                        Ok(text) => crate::text::trim_str(text.as_str()),
                        Err(_) => String::new(),
                    };
                    return Err(
                        ProbeError::Rejected {
                            arguments: crate::text::copy_strings(arguments),
                            code,
                            stderr: message,
                        },
                    );
                }
                Ok(document)
            },
        }
    }

    /// The snapshot of a finished session: generation 1, its documents
    /// assembled as `assemble_capabilities` does.
    pub fn finish(session: &ProbeSession, gsr_cli_available: bool, probed_unix_ms: Option<u64>) -> (r:
        Result<Capabilities, ProbeError>)
        requires
            session.stage == ProbeStage::Done,
        ensures
            !probes_present(session_documents(*session)) ==> r == Err::<Capabilities, ProbeError>(
                ProbeError::Parse(ParseError::Empty),
            ),
            probes_present(session_documents(*session)) ==> (r matches Ok(c) && assembled(
                c,
                session_documents(*session),
                ProbeContext { gsr_cli_available, generation: 1, probed_unix_ms },
            )),
    {
        let info = match &session.info {
            Some(d) => d.as_str(),
            None => "",
        };
        let capture = match &session.capture_options {
            Some(d) => d.as_str(),
            None => "",
        };
        let documents = ProbeDocuments {
            version: opt_str_of(&session.version),
            info,
            capture_options: capture,
            monitors: opt_str_of(&session.monitors),
            cameras: opt_str_of(&session.cameras),
            audio: opt_str_of(&session.audio),
            applications: opt_str_of(&session.applications),
            help: opt_str_of(&session.help),
        };
        assert(documents@ == session_documents(*session));
        let context = ProbeContext { gsr_cli_available, generation: 1, probed_unix_ms };
        match assemble_capabilities(&documents, &context) {
            Ok(c) => Ok(c),
            Err(e) => Err(ProbeError::Parse(e)),
        }
    }
}

fn opt_str_of(s: &Option<String>) -> (r: Option<&str>)
    ensures
        crate::gsr_parse::opt_str(r) == opt_text(*s),
{
    match s {
        Some(d) => Some(d.as_str()),
        None => None,
    }
}

} // verus!
