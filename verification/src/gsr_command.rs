//! The recorder's argument vector, planned from an evaluated specification.

use vstd::prelude::*;
use crate::decimal::dec;
use crate::domain::{
    codec_name, frame_mode_name, halign_name, region_text, track_text, valign_name, CaptureTarget,
    EvaluatedSpec, EvaluatedSpecView, PlannedCommand, RecordingSpec, RecordingSpecView,
    SpecValidationError, WebcamConfig, validation_error, validation_matches,
};
use crate::ids::SessionId;
use crate::naming::staging_text;
use crate::pathname::{path_extension, path_join};
use crate::text::{owned, push_str, texts};

verus! {

pub open spec fn yes_no_text(b: bool) -> Seq<char> {
    if b {
        "yes"@
    } else {
        "no"@
    }
}

/// How `bool` displays.
pub open spec fn bool_text(b: bool) -> Seq<char> {
    if b {
        "true"@
    } else {
        "false"@
    }
}

/// `;KEY=VALUE` for a present optional camera setting.
pub open spec fn camera_option(key: Seq<char>, v: Option<u32>) -> Seq<char> {
    match v {
        Some(x) => ";"@ + key + "="@ + dec(x as nat),
        None => Seq::empty(),
    }
}

/// `DEVICE;halign=..;valign=..;hflip=..;vflip=..;width=W%;height=H%`, then the
/// camera settings that are present.
pub open spec fn webcam_source_text(w: WebcamConfig) -> Seq<char> {
    w.device@ + ";halign="@ + halign_name(w.horizontal_align) + ";valign="@ + valign_name(
        w.vertical_align,
    ) + ";hflip="@ + bool_text(w.horizontal_flip) + ";vflip="@ + bool_text(w.vertical_flip)
        + ";width="@ + dec(w.width_percent as nat) + "%;height="@ + dec(w.height_percent as nat)
        + "%"@ + camera_option("camera_width"@, w.camera_width) + camera_option(
        "camera_height"@,
        w.camera_height,
    ) + camera_option("camera_fps"@, w.camera_fps)
}

/// The `-w` value: the monitor name, `region` or `portal`, then `|` and the
/// webcam source when a webcam is composed in.
pub open spec fn capture_source_text(s: RecordingSpecView) -> Seq<char> {
    let base = match s.target {
        CaptureTarget::Monitor { name } => name@,
        CaptureTarget::Region { .. } => "region"@,
        CaptureTarget::Portal { .. } => "portal"@,
    };
    match s.webcam {
        Some(w) => base + "|"@ + webcam_source_text(w),
        None => base,
    }
}

/// Each value preceded by `flag`.
pub open spec fn flagged(flag: Seq<char>, values: Seq<Seq<char>>) -> Seq<Seq<char>>
    decreases values.len(),
{
    if values.len() == 0 {
        Seq::empty()
    } else {
        flagged(flag, values.drop_last()) + seq![flag, values.last()]
    }
}

/// Arguments that only some targets take.
pub open spec fn target_arguments(t: CaptureTarget) -> Seq<Seq<char>> {
    match t {
        CaptureTarget::Region { geometry, .. } => seq!["-region"@, region_text(geometry)],
        CaptureTarget::Portal { restore_token_file: Some(p) } => seq![
            "-portal-session-token-filepath"@,
            p@,
            "-restore-portal-session"@,
            "yes"@,
        ],
        _ => Seq::empty(),
    }
}

pub open spec fn track_texts(tracks: Seq<Seq<crate::domain::AudioSource>>) -> Seq<Seq<char>> {
    tracks.map_values(|t: Seq<crate::domain::AudioSource>| track_text(t))
}

/// The encoder settings, the first-frame stamp and the control socket.
pub open spec fn encoder_arguments(e: EvaluatedSpecView, runtime_directory: Seq<char>) -> Seq<
    Seq<char>,
> {
    seq![
        "-f"@,
        dec(e.spec.fps as nat),
        "-fm"@,
        frame_mode_name(e.spec.frame_mode),
        "-k"@,
        codec_name(e.codec),
        "-fallback-cpu-encoding"@,
        yes_no_text(e.spec.fallback_cpu_encoding),
        "-exclude-metadata"@,
        yes_no_text(e.spec.exclude_metadata),
        "-write-first-frame-ts"@,
        "yes"@,
        "-ipc"@,
        path_join(runtime_directory, "gsr.sock"@),
    ]
}

/// The whole argument vector of the recorder for a valid specification.
pub open spec fn plan_arguments(
    plugins: Seq<Seq<char>>,
    id: u128,
    runtime_directory: Seq<char>,
    e: EvaluatedSpecView,
) -> Seq<Seq<char>> {
    seq!["-w"@, capture_source_text(e.spec)] + target_arguments(e.spec.target) + encoder_arguments(
        e,
        runtime_directory,
    ) + flagged("-a"@, track_texts(e.spec.audio_tracks)) + flagged("-p"@, plugins) + seq![
        "-o"@,
        staging_text(e.spec.output, id),
    ]
}

pub fn yes_no(value: bool) -> (s: &'static str)
    ensures
        s@ == yes_no_text(value),
{
    if value {
        "yes"
    } else {
        "no"
    }
}

pub fn bool_str(value: bool) -> (s: &'static str)
    ensures
        s@ == bool_text(value),
{
    if value {
        "true"
    } else {
        "false"
    }
}

fn push_camera_option(out: &mut Vec<char>, key: &str, v: Option<u32>)
    ensures
        final(out)@ == old(out)@ + camera_option(key@, v),
{
    if let Some(x) = v {
        push_str(out, ";");
        push_str(out, key);
        push_str(out, "=");
        crate::decimal::push_dec(out, x as u64);
    }
    assert(final(out)@ =~= old(out)@ + camera_option(key@, v));
}

/// The webcam part of the `-w` value.
pub fn webcam_source(webcam: &WebcamConfig) -> (s: String)
    ensures
        s@ == webcam_source_text(*webcam),
{
    let mut v: Vec<char> = Vec::new();
    push_str(&mut v, webcam.device.as_str());
    push_str(&mut v, ";halign=");
    push_str(&mut v, webcam.horizontal_align.as_gsr_value());
    push_str(&mut v, ";valign=");
    push_str(&mut v, webcam.vertical_align.as_gsr_value());
    push_str(&mut v, ";hflip=");
    push_str(&mut v, bool_str(webcam.horizontal_flip));
    push_str(&mut v, ";vflip=");
    push_str(&mut v, bool_str(webcam.vertical_flip));
    push_str(&mut v, ";width=");
    crate::decimal::push_dec(&mut v, webcam.width_percent as u64);
    push_str(&mut v, "%;height=");
    crate::decimal::push_dec(&mut v, webcam.height_percent as u64);
    push_str(&mut v, "%");
    push_camera_option(&mut v, "camera_width", webcam.camera_width);
    push_camera_option(&mut v, "camera_height", webcam.camera_height);
    push_camera_option(&mut v, "camera_fps", webcam.camera_fps);
    assert(v@ =~= webcam_source_text(*webcam));
    crate::text::string_from(v.as_slice())
}

/// The `-w` value of a specification.
pub fn capture_source(spec: &RecordingSpec) -> (s: String)
    ensures
        s@ == capture_source_text(spec@),
{
    let mut v: Vec<char> = Vec::new();
    match &spec.target {
        CaptureTarget::Monitor { name } => push_str(&mut v, name.as_str()),
        CaptureTarget::Region { .. } => push_str(&mut v, "region"),
        CaptureTarget::Portal { .. } => push_str(&mut v, "portal"),
    }
    if let Some(webcam) = &spec.webcam {
        push_str(&mut v, "|");
        let w = webcam_source(webcam);
        push_str(&mut v, w.as_str());
    }
    assert(v@ =~= capture_source_text(spec@));
    crate::text::string_from(v.as_slice())
}

#[derive(Clone, Debug, PartialEq, Eq)]
pub enum PlanError {
    InvalidSpec(SpecValidationError),
    /// The output path has no extension to name the container by.
    MissingOutputExtension(String),
}

/// The hidden staging file beside the destination; a destination without an
/// extension is refused.
pub fn staging_path(final_output: &str, session_id: SessionId) -> (r: Result<String, PlanError>)
    ensures
        path_extension(final_output@) is None ==> (r matches Err(PlanError::MissingOutputExtension(p))
            && p@ == final_output@),
        path_extension(final_output@) is Some ==> (r matches Ok(p) && p@ == staging_text(
            final_output@,
            session_id.value(),
        )),
{
    match crate::pathname::extension(final_output) {
        Some(_) => Ok(crate::naming::staging_path(final_output, session_id)),
        None => Err(PlanError::MissingOutputExtension(owned(final_output))),
    }
}

/// Builds recorder invocations. Extra arguments are refused unless allowed.
#[derive(Clone, Debug)]
pub struct GsrCommandBuilder {
    recorder_binary: String,
    allow_extra_arguments: bool,
    trusted_plugins: Vec<String>,
}

#[derive(Clone, Debug)]
pub struct GsrPlan {
    pub session_id: SessionId,
    pub command: PlannedCommand,
    pub gsr_ipc_socket: String,
    pub staging_output: String,
    pub final_output: String,
    pub first_frame_timestamp: String,
}

/// A plan for session `id` of a valid evaluated specification.
pub open spec fn plan_describes(
    p: GsrPlan,
    binary: Seq<char>,
    plugins: Seq<Seq<char>>,
    id: SessionId,
    runtime_directory: Seq<char>,
    e: EvaluatedSpecView,
) -> bool {
    &&& p.session_id == id
    &&& p.command.program@ == binary
    &&& texts(p.command.arguments@) == plan_arguments(plugins, id.value(), runtime_directory, e)
    &&& p.command.environment@.len() == 0
    &&& p.gsr_ipc_socket@ == path_join(runtime_directory, "gsr.sock"@)
    &&& p.staging_output@ == staging_text(e.spec.output, id.value())
    &&& p.final_output@ == e.spec.output
    &&& p.first_frame_timestamp@ == staging_text(e.spec.output, id.value()) + ".ts"@
}

/// `flag` is directly followed by `value` somewhere in the arguments.
pub open spec fn has_pair(args: Seq<Seq<char>>, flag: Seq<char>, value: Seq<char>) -> bool {
    exists|i: int| 0 <= i && i + 1 < args.len() && #[trigger] args[i] == flag && args[i + 1] == value
}

/// A plan's recorder arguments carry the specification's switches: metadata
/// is excluded (`-exclude-metadata yes`) exactly when the specification asks
/// for it, CPU fallback likewise, the frame rate in decimal after `-f`, the
/// first-frame stamp is always asked for, and the recorder writes to the
/// staging file after `-o`; the frame mode, codec and control socket follow
/// `-fm`, `-k` and `-ipc`.
pub proof fn lemma_plan_switches(
    p: GsrPlan,
    binary: Seq<char>,
    plugins: Seq<Seq<char>>,
    id: SessionId,
    runtime_directory: Seq<char>,
    e: EvaluatedSpecView,
)
    requires
        plan_describes(p, binary, plugins, id, runtime_directory, e),
    ensures
        e.spec.exclude_metadata ==> has_pair(texts(p.command.arguments@), "-exclude-metadata"@, "yes"@),
        !e.spec.exclude_metadata ==> has_pair(texts(p.command.arguments@), "-exclude-metadata"@, "no"@),
        e.spec.fallback_cpu_encoding ==> has_pair(texts(p.command.arguments@), "-fallback-cpu-encoding"@, "yes"@),
        !e.spec.fallback_cpu_encoding ==> has_pair(texts(p.command.arguments@), "-fallback-cpu-encoding"@, "no"@),
        has_pair(texts(p.command.arguments@), "-f"@, dec(e.spec.fps as nat)),
        has_pair(texts(p.command.arguments@), "-fm"@, frame_mode_name(e.spec.frame_mode)),
        has_pair(texts(p.command.arguments@), "-k"@, codec_name(e.codec)),
        has_pair(texts(p.command.arguments@), "-ipc"@, p.gsr_ipc_socket@),
        has_pair(texts(p.command.arguments@), "-write-first-frame-ts"@, "yes"@),
        has_pair(texts(p.command.arguments@), "-o"@, p.staging_output@),
{
    let args = texts(p.command.arguments@);
    let a = seq!["-w"@, capture_source_text(e.spec)];
    let t = target_arguments(e.spec.target);
    let en = encoder_arguments(e, runtime_directory);
    let f1 = flagged("-a"@, track_texts(e.spec.audio_tracks));
    let f2 = flagged("-p"@, plugins);
    let o = seq!["-o"@, staging_text(e.spec.output, id.value())];
    assert(args == a + t + en + f1 + f2 + o);
    let base: int = 2 + t.len() as int;
    assert(en.len() == 14);
    assert forall|k: int| 0 <= k < 14 implies args[base + k] == #[trigger] en[k] by {
        assert((a + t + en)[base + k] == en[k]);
        assert((a + t + en + f1)[base + k] == en[k]);
        assert((a + t + en + f1 + f2)[base + k] == en[k]);
    }
    let n = args.len() as int;
    assert(args[n - 2] == o[0]);
    assert(args[n - 1] == o[1]);
    if e.spec.exclude_metadata {
        assert(args[base + 8] == "-exclude-metadata"@ && args[base + 9] == "yes"@);
    } else {
        assert(args[base + 8] == "-exclude-metadata"@ && args[base + 9] == "no"@);
    }
    if e.spec.fallback_cpu_encoding {
        assert(args[base + 6] == "-fallback-cpu-encoding"@ && args[base + 7] == "yes"@);
    } else {
        assert(args[base + 6] == "-fallback-cpu-encoding"@ && args[base + 7] == "no"@);
    }
    assert(args[base] == "-f"@ && args[base + 1] == dec(e.spec.fps as nat));
    assert(args[base + 2] == "-fm"@ && args[base + 3] == frame_mode_name(e.spec.frame_mode));
    assert(args[base + 4] == "-k"@ && args[base + 5] == codec_name(e.codec));
    assert(args[base + 12] == "-ipc"@ && args[base + 13] == p.gsr_ipc_socket@);
    assert(args[base + 10] == "-write-first-frame-ts"@ && args[base + 11] == "yes"@);
    assert(args[n - 2] == "-o"@ && args[n - 1] == p.staging_output@);
}

/// Appends one argument.
fn push_arg(args: &mut Vec<String>, a: String)
    ensures
        texts(final(args)@) == texts(old(args)@).push(a@),
{
    let ghost a_view = a@;
    args.push(a);
    assert(texts(args@) =~= texts(old(args)@).push(a_view));
}

/// Appends a flag and its value.
fn push_pair(args: &mut Vec<String>, flag: &str, value: String)
    ensures
        texts(final(args)@) == texts(old(args)@) + seq![flag@, value@],
{
    push_arg(args, owned(flag));
    push_arg(args, value);
    assert(texts(args@) =~= texts(old(args)@) + seq![flag@, value@]);
}

proof fn lemma_flagged_step(flag: Seq<char>, values: Seq<Seq<char>>, i: int)
    requires
        0 <= i < values.len(),
    ensures
        flagged(flag, values.take(i + 1)) == flagged(flag, values.take(i)) + seq![flag, values[i]],
{
    assert(values.take(i + 1).drop_last() =~= values.take(i));
}

impl GsrCommandBuilder {
    pub closed spec fn binary(self) -> Seq<char> {
        self.recorder_binary@
    }

    pub closed spec fn extra_arguments_allowed(self) -> bool {
        self.allow_extra_arguments
    }

    pub closed spec fn plugins(self) -> Seq<Seq<char>> {
        texts(self.trusted_plugins@)
    }

    pub fn new(recorder_binary: &str) -> (b: Self)
        ensures
            b.binary() == recorder_binary@,
            !b.extra_arguments_allowed(),
            b.plugins().len() == 0,
    {
        GsrCommandBuilder {
            recorder_binary: owned(recorder_binary),
            allow_extra_arguments: false,
            trusted_plugins: Vec::new(),
        }
    }

    pub fn allow_extra_arguments(self, value: bool) -> (b: Self)
        ensures
            b.binary() == self.binary(),
            b.extra_arguments_allowed() == value,
            b.plugins() == self.plugins(),
    {
        GsrCommandBuilder { allow_extra_arguments: value, ..self }
    }

    pub fn trusted_plugins(self, plugins: Vec<String>) -> (b: Self)
        ensures
            b.binary() == self.binary(),
            b.extra_arguments_allowed() == self.extra_arguments_allowed(),
            b.plugins() == texts(plugins@),
    {
        GsrCommandBuilder { trusted_plugins: plugins, ..self }
    }

    /// Plans the recorder invocation of a session: validation first, then one
    /// argument vector with a per-session control socket and staging file.
    pub fn plan(&self, session_id: SessionId, runtime_directory: &str, evaluated: &EvaluatedSpec) -> (r:
        Result<GsrPlan, PlanError>)
        ensures
            validation_error(evaluated.spec@) is Some ==> (r matches Err(PlanError::InvalidSpec(e))
                && validation_matches(evaluated.spec@, Err(e))),
            validation_error(evaluated.spec@) is None ==> (r matches Ok(p) && plan_describes(
                p,
                self.binary(),
                self.plugins(),
                session_id,
                runtime_directory@,
                evaluated@,
            )),
            r matches Ok(p) ==> (evaluated.spec.exclude_metadata ==> has_pair(
                texts(p.command.arguments@),
                "-exclude-metadata"@,
                "yes"@,
            )) && (!evaluated.spec.exclude_metadata ==> has_pair(
                texts(p.command.arguments@),
                "-exclude-metadata"@,
                "no"@,
            )),
    {
        let spec = &evaluated.spec;
        match spec.validate() {
            Err(e) => {
                return Err(PlanError::InvalidSpec(e));
            },
            Ok(()) => {},
        }
        let gsr_ipc_socket = crate::pathname::join(runtime_directory, "gsr.sock");
        let final_output = spec.output.clone();
        let staging_output = match staging_path(final_output.as_str(), session_id) {
            Ok(p) => p,
            Err(e) => {
                return Err(e);
            },
        };
        let mut ts: Vec<char> = Vec::new();
        push_str(&mut ts, staging_output.as_str());
        push_str(&mut ts, ".ts");
        let first_frame_timestamp = crate::text::string_from(ts.as_slice());

        let mut arguments: Vec<String> = Vec::new();
        push_pair(&mut arguments, "-w", capture_source(spec));
        if let CaptureTarget::Region { geometry, .. } = &spec.target {
            push_pair(&mut arguments, "-region", geometry.to_gsr_region());
        }
        if let CaptureTarget::Portal { restore_token_file: Some(path) } = &spec.target {
            push_pair(&mut arguments, "-portal-session-token-filepath", path.clone());
            push_pair(&mut arguments, "-restore-portal-session", owned("yes"));
        }
        let ghost head = texts(arguments@);
        assert(head =~= seq!["-w"@, capture_source_text(spec@)] + target_arguments(spec@.target));
        push_pair(&mut arguments, "-f", crate::decimal::dec_string(spec.fps as u64));
        push_pair(&mut arguments, "-fm", owned(spec.frame_mode.as_gsr_value()));
        push_pair(&mut arguments, "-k", owned(evaluated.codec.as_gsr_value()));
        push_pair(&mut arguments, "-fallback-cpu-encoding", owned(yes_no(spec.fallback_cpu_encoding)));
        push_pair(&mut arguments, "-exclude-metadata", owned(yes_no(spec.exclude_metadata)));
        push_pair(&mut arguments, "-write-first-frame-ts", owned("yes"));
        push_pair(&mut arguments, "-ipc", gsr_ipc_socket.clone());
        let ghost before_tracks = texts(arguments@);
        assert(before_tracks =~= head + encoder_arguments(evaluated@, runtime_directory@));

        let ghost tracks = track_texts(spec@.audio_tracks);
        let mut i: usize = 0;
        assert(tracks.take(0) =~= Seq::<Seq<char>>::empty());
        assert(texts(arguments@) =~= before_tracks + flagged("-a"@, tracks.take(0)));
        while i < spec.audio_tracks.len()
            invariant
                i <= spec.audio_tracks@.len(),
                tracks == track_texts(spec@.audio_tracks),
                spec@.audio_tracks == spec.audio_tracks.deep_view(),
                !crate::domain::has_empty_track(spec@.audio_tracks),
                texts(arguments@) == before_tracks + flagged("-a"@, tracks.take(i as int)),
            decreases spec.audio_tracks@.len() - i,
        {
            assert(spec.audio_tracks.deep_view()[i as int] == spec.audio_tracks@[i as int]@);
            assert(spec@.audio_tracks[i as int].len() != 0);
            match spec.audio_tracks[i].to_gsr_value() {
                Ok(value) => {
                    proof {
                        lemma_flagged_step("-a"@, tracks, i as int);
                    }
                    push_pair(&mut arguments, "-a", value);
                },
                Err(e) => {
                    return Err(PlanError::InvalidSpec(e));
                },
            }
            i = i + 1;
        }
        assert(tracks.take(tracks.len() as int) =~= tracks);
        let ghost before_plugins = texts(arguments@);

        let ghost plugins = self.plugins();
        let mut j: usize = 0;
        assert(plugins.take(0) =~= Seq::<Seq<char>>::empty());
        assert(texts(arguments@) =~= before_plugins + flagged("-p"@, plugins.take(0)));
        while j < self.trusted_plugins.len()
            invariant
                j <= self.trusted_plugins@.len(),
                plugins == texts(self.trusted_plugins@),
                texts(arguments@) == before_plugins + flagged("-p"@, plugins.take(j as int)),
            decreases self.trusted_plugins@.len() - j,
        {
            proof {
                lemma_flagged_step("-p"@, plugins, j as int);
            }
            push_pair(&mut arguments, "-p", self.trusted_plugins[j].clone());
            j = j + 1;
        }
        assert(plugins.take(plugins.len() as int) =~= plugins);
        push_pair(&mut arguments, "-o", staging_output.clone());
        assert(texts(arguments@) =~= plan_arguments(
            self.plugins(),
            session_id.value(),
            runtime_directory@,
            evaluated@,
        ));
        let plan = GsrPlan {
            session_id,
            command: PlannedCommand {
                program: self.recorder_binary.clone(),
                arguments,
                environment: Vec::new(),
            },
            gsr_ipc_socket,
            staging_output,
            final_output,
            first_frame_timestamp,
        };
        proof {
            lemma_plan_switches(plan, self.binary(), self.plugins(), session_id, runtime_directory@, evaluated@);
        }
        Ok(plan)
    }
}

/// Characters a shell reads literally. Every other character, non-ASCII ones
/// included, makes the word quoted.
pub open spec fn shell_safe(c: char) -> bool {
    ('a' <= c && c <= 'z') || ('A' <= c && c <= 'Z') || ('0' <= c && c <= '9') || c == '_' || c
        == '.' || c == '/' || c == ':' || c == '@' || c == '%' || c == '+' || c == '=' || c == ','
        || c == '-'
}

/// A word as the shell would read it back: itself when non-empty and plain,
/// otherwise single-quoted with each `'` written `'\''`.
pub open spec fn shell_word(s: Seq<char>) -> Seq<char> {
    if s.len() > 0 && forall|i: int| 0 <= i < s.len() ==> shell_safe(#[trigger] s[i]) {
        s
    } else {
        "'"@ + crate::text::replace_all(s, "'"@, "'\\''"@) + "'"@
    }
}

/// The program and its arguments, each quoted, separated by spaces.
pub open spec fn shell_line(program: Seq<char>, arguments: Seq<Seq<char>>) -> Seq<char> {
    crate::text::join(
        seq![program].add(arguments).map_values(|a: Seq<char>| shell_word(a)),
        " "@,
    )
}

fn is_shell_safe(c: char) -> (b: bool)
    ensures
        b == shell_safe(c),
{
    ('a' <= c && c <= 'z') || ('A' <= c && c <= 'Z') || ('0' <= c && c <= '9') || c == '_' || c
        == '.' || c == '/' || c == ':' || c == '@' || c == '%' || c == '+' || c == '=' || c == ','
        || c == '-'
}

pub fn shell_escape(value: &str) -> (s: String)
    ensures
        s@ == shell_word(value@),
{
    let v = crate::text::chars_of(value);
    let mut plain = v.len() > 0;
    let mut i: usize = 0;
    while i < v.len()
        invariant
            i <= v@.len(),
            v@ == value@,
            plain == (v@.len() > 0 && forall|k: int| 0 <= k < i ==> shell_safe(#[trigger] v@[k])),
        decreases v@.len() - i,
    {
        if !is_shell_safe(v[i]) {
            plain = false;
        }
        i = i + 1;
    }
    if plain {
        owned(value)
    } else {
        proof {
            reveal_strlit("'");
        }
        let inner = crate::text::replace_str(value, "'", "'\\''");
        let mut out: Vec<char> = Vec::new();
        push_str(&mut out, "'");
        push_str(&mut out, inner.as_str());
        push_str(&mut out, "'");
        crate::text::string_from(out.as_slice())
    }
}

/// Human-readable only: never feed this string back to a shell.
pub fn shell_join(command: &PlannedCommand) -> (s: String)
    ensures
        s@ == shell_line(command.program@, texts(command.arguments@)),
{
    let ghost words = seq![command.program@].add(texts(command.arguments@)).map_values(
        |a: Seq<char>| shell_word(a),
    );
    let mut parts: Vec<String> = Vec::new();
    parts.push(shell_escape(command.program.as_str()));
    let mut i: usize = 0;
    while i < command.arguments.len()
        invariant
            i <= command.arguments@.len(),
            words == seq![command.program@].add(texts(command.arguments@)).map_values(
                |a: Seq<char>| shell_word(a),
            ),
            texts(parts@) =~= words.take(i as int + 1),
        decreases command.arguments@.len() - i,
    {
        let w = shell_escape(command.arguments[i].as_str());
        let ghost before = texts(parts@);
        parts.push(w);
        assert(texts(parts@) =~= before.push(words[i as int + 1]));
        i = i + 1;
    }
    assert(words.take(command.arguments@.len() as int + 1) =~= words);
    let mut out: Vec<char> = Vec::new();
    crate::text::push_joined(&mut out, &parts, " ");
    crate::text::string_from(out.as_slice())
}

} // verus!
