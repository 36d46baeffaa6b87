//! Control of one recorder instance through `gsr-cli` and its IPC socket:
//! the arguments sent and what the replies mean. Running `gsr-cli` is the
//! caller's part.

use vstd::prelude::*;
use crate::text::{owned, push_str, texts, trim};

verus! {

/// The control client of one recorder instance.
#[derive(Clone, Debug)]
pub struct GsrCli {
    binary: String,
    timeout_secs: u64,
}

#[derive(Clone, Copy, Debug, PartialEq, Eq, Structural)]
pub enum GsrStatus {
    Running,
    NotRunning,
}

#[derive(Clone, Debug, PartialEq, Eq)]
pub enum ControlError {
    /// `gsr-cli` could not be started; the system's message.
    Spawn(String),
    /// No reply within this many seconds.
    Timeout(u64),
    Rejected { code: Option<i32>, stderr: String },
    UnexpectedOutput(String),
}

/// `-ipc SOCKET` followed by the command's own arguments.
pub open spec fn control_arguments(socket: Seq<char>, command: Seq<Seq<char>>) -> Seq<Seq<char>> {
    seq!["-ipc"@, socket] + command
}

pub open spec fn paused_command(paused: bool) -> Seq<Seq<char>> {
    seq!["set-paused"@, if paused {
        "true"@
    } else {
        "false"@
    }]
}

/// What a reply to `status` means.
pub open spec fn status_of(stdout: Seq<char>) -> Result<GsrStatus, Seq<char>> {
    let t = trim(stdout);
    if t == "running"@ {
        Ok(GsrStatus::Running)
    } else if t == "not running"@ {
        Ok(GsrStatus::NotRunning)
    } else {
        Err(t)
    }
}

impl GsrCli {
    pub closed spec fn program(self) -> Seq<char> {
        self.binary@
    }

    pub closed spec fn timeout(self) -> u64 {
        self.timeout_secs
    }

    /// Twenty seconds per command.
    pub fn new(binary: &str) -> (c: Self)
        ensures
            c.program() == binary@,
            c.timeout() == 20,
    {
        GsrCli { binary: owned(binary), timeout_secs: 20 }
    }

    pub fn with_timeout_secs(self, seconds: u64) -> (c: Self)
        ensures
            c.program() == self.program(),
            c.timeout() == seconds,
    {
        GsrCli { timeout_secs: seconds, ..self }
    }

    pub fn binary(&self) -> (s: &str)
        ensures
            s@ == self.program(),
    {
        self.binary.as_str()
    }

    pub fn timeout_secs(&self) -> (t: u64)
        ensures
            t == self.timeout(),
    {
        self.timeout_secs
    }

    /// The arguments of one command to the instance behind `socket`.
    pub fn arguments(socket: &str, command: &Vec<String>) -> (r: Vec<String>)
        ensures
            texts(r@) == control_arguments(socket@, texts(command@)),
    {
        let mut r: Vec<String> = Vec::new();
        r.push(owned("-ipc"));
        r.push(owned(socket));
        let mut i: usize = 0;
        while i < command.len()
            invariant
                i <= command@.len(),
                texts(r@) == control_arguments(socket@, texts(command@).take(i as int)),
            decreases command@.len() - i,
        {
            let ghost before = texts(r@);
            let a = command[i].clone();
            let ghost av = a@;
            r.push(a);
            assert(texts(r@) =~= before.push(av));
            assert(av == texts(command@)[i as int]);
            i = i + 1;
            assert(texts(command@).take(i as int) =~= texts(command@).take(i - 1).push(
                texts(command@)[i - 1],
            ));
            assert(texts(r@) =~= control_arguments(socket@, texts(command@).take(i as int)));
        }
        assert(texts(command@).take(command@.len() as int) =~= texts(command@));
        r
    }

    pub fn status_command() -> (r: Vec<String>)
        ensures
            texts(r@) == seq!["status"@],
    {
        let mut r: Vec<String> = Vec::new();
        r.push(owned("status"));
        assert(texts(r@) =~= seq!["status"@]);
        r
    }

    pub fn stop_command() -> (r: Vec<String>)
        ensures
            texts(r@) == seq!["stop"@],
    {
        let mut r: Vec<String> = Vec::new();
        r.push(owned("stop"));
        assert(texts(r@) =~= seq!["stop"@]);
        r
    }

    pub fn set_paused_command(paused: bool) -> (r: Vec<String>)
        ensures
            texts(r@) == paused_command(paused),
    {
        let mut r: Vec<String> = Vec::new();
        r.push(owned("set-paused"));
        r.push(
            owned(
                if paused {
                    "true"
                } else {
                    "false"
                },
            ),
        );
        assert(texts(r@) =~= paused_command(paused));
        r
    }

    /// A finished command: its standard output when it exited successfully,
    /// else a rejection carrying the exit code and trimmed standard error.
    pub fn command_result(success: bool, code: Option<i32>, stdout: String, stderr: &str) -> (r:
        Result<String, ControlError>)
        ensures
            success ==> r == Ok::<String, ControlError>(stdout),
            !success ==> (r matches Err(ControlError::Rejected { code: c, stderr: e }) && c == code
                && e@ == trim(stderr@)),
    {
        if !success {
            return Err(ControlError::Rejected { code, stderr: crate::text::trim_str(stderr) });
        }
        Ok(stdout)
    }

    /// The reply to `status`: `running` or `not running`, trimmed.
    pub fn status_reply(stdout: &str) -> (r: Result<GsrStatus, ControlError>)
        ensures
            match status_of(stdout@) {
                Ok(s) => r == Ok::<GsrStatus, ControlError>(s),
                Err(t) => r matches Err(ControlError::UnexpectedOutput(u)) && u@ == t,
            },
    {
        let t = crate::text::trim_str(stdout);
        if crate::text::str_eq(t.as_str(), "running") {
            Ok(GsrStatus::Running)
        } else if crate::text::str_eq(t.as_str(), "not running") {
            Ok(GsrStatus::NotRunning)
        } else {
            Err(ControlError::UnexpectedOutput(t))
        }
    }

    /// The reply to `stop`: the path of the saved file, which must not be blank.
    pub fn stop_reply(stdout: &str) -> (r: Result<String, ControlError>)
        ensures
            trim(stdout@).len() > 0 ==> (r matches Ok(p) && p@ == trim(stdout@)),
            trim(stdout@).len() == 0 ==> (r matches Err(ControlError::UnexpectedOutput(u)) && u@
                == "stop succeeded without a saved path"@),
    {
        let path = crate::text::trim_str(stdout);
        if path.as_str().is_empty() {
            return Err(ControlError::UnexpectedOutput(owned("stop succeeded without a saved path")));
        }
        Ok(path)
    }
}

} // verus!
