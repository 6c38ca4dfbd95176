use vstd::prelude::*;

use crate::table::ParsedTable;
use crate::text::{decimal, joined, trim_text, trimmed, unsigned_text};

verus! {

/// The analyses that the statistics engine offers.
#[derive(Clone, Copy, Debug, PartialEq, Eq, Structural)]
pub enum AnalysisKind {
    Descriptive,
    Correlation,
    Reliability,
}

/// The word by which the engine knows an analysis.
pub open spec fn kind_name(k: AnalysisKind) -> Seq<char> {
    match k {
        AnalysisKind::Descriptive => "descriptive"@,
        AnalysisKind::Correlation => "correlation"@,
        AnalysisKind::Reliability => "reliability"@,
    }
}

impl AnalysisKind {
    /// The word by which the engine knows this analysis.
    pub fn name(&self) -> (r: String)
        ensures
            r@ == kind_name(*self),
    {
        match self {
            AnalysisKind::Descriptive => String::from_str("descriptive"),
            AnalysisKind::Correlation => String::from_str("correlation"),
            AnalysisKind::Reliability => String::from_str("reliability"),
        }
    }
}

/// Why a run of the engine gave no table.
#[derive(Clone, Debug)]
pub enum EngineError {
    /// The dataset could not be written as a transport document.
    EncodeFailed(String),
    /// The temporary artifact could not be created or written.
    ArtifactFailed(String),
    /// No entry script was found.
    ScriptNotFound,
    /// The engine process could not be started.
    LaunchFailed(String),
    /// The engine exited with a failure; its trimmed diagnostic output.
    ExecutionFailed(String),
    /// The engine's output is not valid UTF-8.
    OutputDecodeFailed(String),
    /// The engine's output is not a table document; the parser's complaint
    /// and the output as it came.
    OutputParseFailed { error: String, output: String },
}

/// Whether a text holds nothing but white space.
pub open spec fn blank(s: Seq<char>) -> bool {
    trimmed(s).len() == 0
}

/// The arguments with which the engine's entry script is run: the script,
/// the analysis, the artifact, then the parameter unless it is blank.
pub open spec fn argument_list(
    script: Seq<char>,
    kind: AnalysisKind,
    artifact: Seq<char>,
    parameter: Option<Seq<char>>,
) -> Seq<Seq<char>> {
    let fixed = seq![script, kind_name(kind), artifact];
    match parameter {
        Some(p) => if blank(p) {
            fixed
        } else {
            fixed.push(p)
        },
        None => fixed,
    }
}

/// The arguments with which the engine's entry script is run.
pub fn engine_arguments(script: &String, kind: AnalysisKind, artifact: &String, parameter: &Option<String>) -> (r:
    Vec<String>)
    ensures
        r.deep_view() == argument_list(
            script@,
            kind,
            artifact@,
            match parameter {
                Some(p) => Some(p@),
                None => None,
            },
        ),
{
    let mut args: Vec<String> = Vec::new();
    args.push(script.clone());
    args.push(kind.name());
    args.push(artifact.clone());
    match parameter {
        Some(p) => {
            let t = trim_text(p.as_str());
            if !t.as_str().is_empty() {
                args.push(p.clone());
            }
        },
        None => {},
    }
    proof {
        assert forall|k: int| 0 <= k < args@.len() implies args.deep_view()[k] == args@[k]@ by {}
    }
    assert(args.deep_view() =~= argument_list(
        script@,
        kind,
        artifact@,
        match parameter {
            Some(p) => Some(p@),
            None => None,
        },
    ));
    args
}

/// The places, relative to the working directory, where the engine's entry
/// script is looked for, nearest first.
pub open spec fn script_candidates() -> Seq<Seq<char>> {
    seq!["src-r/cli.R"@, "../src-r/cli.R"@, "../../src-r/cli.R"@, "../../../src-r/cli.R"@]
}

/// The places where the engine's entry script is looked for, nearest first.
pub fn cli_script_candidates() -> (r: Vec<String>)
    ensures
        r.deep_view() == script_candidates(),
{
    let mut v: Vec<String> = Vec::new();
    v.push(String::from_str("src-r/cli.R"));
    v.push(String::from_str("../src-r/cli.R"));
    v.push(String::from_str("../../src-r/cli.R"));
    v.push(String::from_str("../../../src-r/cli.R"));
    proof {
        assert forall|k: int| 0 <= k < v@.len() implies v.deep_view()[k] == v@[k]@ by {}
    }
    assert(v.deep_view() =~= script_candidates());
    v
}

/// Which candidate to take, given which of them exist: the first that does.
pub fn first_present(present: &Vec<bool>) -> (r: Option<usize>)
    ensures
        match r {
            Some(i) => i < present@.len() && present@[i as int] && forall|j: int| 0 <= j < i ==> !present@[j],
            None => forall|j: int| 0 <= j < present@.len() ==> !present@[j],
        },
{
    let mut i: usize = 0;
    while i < present.len()
        invariant
            i <= present@.len(),
            forall|j: int| 0 <= j < i ==> !present@[j],
        decreases present@.len() - i,
    {
        if present[i] {
            return Some(i);
        }
        i = i + 1;
    }
    None
}

/// The name of the temporary artifact for one run, from the process id, the
/// time in nanoseconds and a per-process counter.
pub open spec fn artifact_file_name(pid: nat, nanos: nat, seq: nat) -> Seq<char> {
    "psycdata_describe_"@ + decimal(pid as int) + "_"@ + decimal(nanos as int) + "_"@ + decimal(seq as int)
        + ".json"@
}

/// The name of the temporary artifact for one run.
pub fn artifact_name(pid: u32, nanos: u128, seq: u64) -> (r: String)
    ensures
        r@ == artifact_file_name(pid as nat, nanos as nat, seq as nat),
{
    let a = joined("psycdata_describe_", unsigned_text(pid as u128).as_str());
    let b = joined(a.as_str(), "_");
    let c = joined(b.as_str(), unsigned_text(nanos).as_str());
    let d = joined(c.as_str(), "_");
    let e = joined(d.as_str(), unsigned_text(seq as u128).as_str());
    let r = joined(e.as_str(), ".json");
    r
}

/// What `String::from_utf8_lossy` makes of bytes.
pub uninterp spec fn lossy_text(b: Seq<u8>) -> Seq<char>;

/// What `String::from_utf8` makes of bytes: their text when they are valid
/// UTF-8.
pub uninterp spec fn utf8_text(b: Seq<u8>) -> Option<Seq<char>>;

/// Relies on `String::from_utf8_lossy`: the text of the bytes, invalid
/// sequences replaced; it depends on the bytes alone.
#[verifier::external_body]
fn decode_lossy(b: &Vec<u8>) -> (r: String)
    ensures
        r@ == lossy_text(b@),
{
    String::from_utf8_lossy(b.as_slice()).into_owned()
}

/// Relies on `String::from_utf8`: the text of valid UTF-8 bytes, else the
/// text of the error.
#[verifier::external_body]
fn decode_utf8(b: Vec<u8>) -> (r: Result<String, String>)
    ensures
        match r {
            Ok(s) => utf8_text(b@) == Some(s@),
            Err(_) => utf8_text(b@) is None,
        },
{
    String::from_utf8(b).map_err(|e| e.to_string())
}

/// The text that a finished run of the engine printed, or why there is
/// none: a failed run gives its trimmed diagnostic text, and output that is
/// not UTF-8 a decode error.
pub open spec fn output_text(success: bool, stderr: Seq<u8>, stdout: Seq<u8>, r: Result<String, EngineError>) -> bool {
    if !success {
        r matches Err(EngineError::ExecutionFailed(m)) && m@ == trimmed(lossy_text(stderr))
    } else {
        match utf8_text(stdout) {
            Some(t) => r matches Ok(s) && s@ == t,
            None => r matches Err(EngineError::OutputDecodeFailed(_)),
        }
    }
}

/// The text that a finished run of the engine printed, or why there is none.
pub fn decode_engine_output(success: bool, stderr: &Vec<u8>, stdout: Vec<u8>) -> (r: Result<String, EngineError>)
    ensures
        output_text(success, stderr@, stdout@, r),
{
    if !success {
        let diagnostic = decode_lossy(stderr);
        return Err(EngineError::ExecutionFailed(trim_text(diagnostic.as_str())));
    }
    match decode_utf8(stdout) {
        Ok(t) => Ok(t),
        Err(e) => Err(EngineError::OutputDecodeFailed(e)),
    }
}

/// What the engine's printed text, read as a table document, comes to: the
/// table unchanged, or a parse error carrying the parser's complaint and the
/// text as it came.
pub open spec fn parsed_result(
    text: Seq<char>,
    parsed: Result<ParsedTable, String>,
    r: Result<ParsedTable, EngineError>,
) -> bool {
    match parsed {
        Ok(t) => r == Ok::<ParsedTable, EngineError>(t),
        Err(e) => r matches Err(EngineError::OutputParseFailed { error, output }) && error@ == e@ && output@ == text,
    }
}

/// The result of a run whose printed `text` was read as a table document.
pub fn parse_outcome(text: String, parsed: Result<ParsedTable, String>) -> (r: Result<ParsedTable, EngineError>)
    ensures
        parsed_result(text@, parsed, r),
{
    match parsed {
        Ok(t) => Ok(t),
        Err(e) => Err(EngineError::OutputParseFailed { error: e, output: text }),
    }
}

} // verus!

verus! {

impl EngineError {
    /// A message for the user; a parse failure quotes the output in full.
    pub fn message(&self) -> (r: String)
        ensures
            match self {
                EngineError::EncodeFailed(e) => r@ == "the dataset could not be encoded: "@ + e@,
                EngineError::ArtifactFailed(e) => r@ == "the temporary file could not be written: "@ + e@,
                EngineError::ScriptNotFound => r@ == "the engine's entry script was not found"@,
                EngineError::LaunchFailed(e) => r@ == "the engine could not be started: "@ + e@,
                EngineError::ExecutionFailed(e) => r@ == "the engine failed: "@ + e@,
                EngineError::OutputDecodeFailed(e) => r@ == "the engine's output could not be decoded: "@ + e@,
                EngineError::OutputParseFailed { error, output } => r@ == "the engine's output is not a table: "@
                    + error@ + "\noutput: "@ + output@,
            },
    {
        match self {
            EngineError::EncodeFailed(e) => joined("the dataset could not be encoded: ", e.as_str()),
            EngineError::ArtifactFailed(e) => joined("the temporary file could not be written: ", e.as_str()),
            EngineError::ScriptNotFound => String::from_str("the engine's entry script was not found"),
            EngineError::LaunchFailed(e) => joined("the engine could not be started: ", e.as_str()),
            EngineError::ExecutionFailed(e) => joined("the engine failed: ", e.as_str()),
            EngineError::OutputDecodeFailed(e) => joined("the engine's output could not be decoded: ", e.as_str()),
            EngineError::OutputParseFailed { error, output } => {
                let a = joined("the engine's output is not a table: ", error.as_str());
                let b = joined(a.as_str(), "\noutput: ");
                joined(b.as_str(), output.as_str())
            },
        }
    }
}

} // verus!

verus! {

/// Where one run of the engine stands. The run begins in `Start` with the
/// action [`RunAction::WriteArtifact`].
#[derive(Debug)]
pub enum RunState {
    /// The artifact is being written.
    Start,
    /// The artifact is written; the engine is being run on it.
    ArtifactWritten,
    /// The engine printed this text; it is being read as a table document.
    Parsing(String),
    /// The artifact is being removed; then the run ends with this result.
    CleaningUp(Result<ParsedTable, EngineError>),
}

/// What the caller reports after carrying out an action.
#[derive(Debug)]
pub enum RunEvent {
    ArtifactWritten,
    ArtifactWriteFailed(String),
    ScriptNotFound,
    LaunchFailed(String),
    EngineExited { success: bool, stderr: Vec<u8>, stdout: Vec<u8> },
    /// The printed text read as a table document, or the parser's complaint.
    OutputParsed(Result<ParsedTable, String>),
    /// The removal was attempted; whether it succeeded does not matter.
    ArtifactRemoved,
}

/// What the caller is to do next.
#[derive(Debug)]
pub enum RunAction {
    WriteArtifact,
    RunEngine,
    /// Read this text as a table document.
    ParseOutput(String),
    RemoveArtifact,
    /// The run is over, with this result.
    Finish(Result<ParsedTable, EngineError>),
}

/// Whether `event` can follow the action that led to `state`.
pub open spec fn expects(state: RunState, event: RunEvent) -> bool {
    match state {
        RunState::Start => event is ArtifactWritten || event is ArtifactWriteFailed,
        RunState::ArtifactWritten => event is ScriptNotFound || event is LaunchFailed || event is EngineExited,
        RunState::Parsing(_) => event is OutputParsed,
        RunState::CleaningUp(_) => event is ArtifactRemoved,
    }
}

/// The next state and action of a run, given what the last action came to.
/// Once the artifact may exist, every path to the end goes through its
/// removal: a run finishes only right after `ArtifactRemoved`.
pub fn next_step(state: RunState, event: RunEvent) -> (r: (Option<RunState>, RunAction))
    requires
        expects(state, event),
    ensures
        r.1 is Finish <==> r.0 is None,
        r.1 is Finish ==> state is CleaningUp,
        r.1 is RemoveArtifact <==> (r.0 matches Some(RunState::CleaningUp(_))),
        match (state, event) {
            (RunState::Start, RunEvent::ArtifactWritten) => r.0 == Some(RunState::ArtifactWritten) && r.1
                is RunEngine,
            (RunState::Start, RunEvent::ArtifactWriteFailed(e)) => r.0 matches Some(
                RunState::CleaningUp(Err(EngineError::ArtifactFailed(m))),
            ) && m@ == e@,
            (RunState::ArtifactWritten, RunEvent::ScriptNotFound) => r.0 matches Some(
                RunState::CleaningUp(Err(EngineError::ScriptNotFound)),
            ),
            (RunState::ArtifactWritten, RunEvent::LaunchFailed(e)) => r.0 matches Some(
                RunState::CleaningUp(Err(EngineError::LaunchFailed(m))),
            ) && m@ == e@,
            (RunState::ArtifactWritten, RunEvent::EngineExited { success, stderr, stdout }) => match r.0 {
                Some(RunState::Parsing(t)) => r.1 == RunAction::ParseOutput(t) && output_text(
                    success,
                    stderr@,
                    stdout@,
                    Ok::<String, EngineError>(t),
                ),
                Some(RunState::CleaningUp(Err(e))) => output_text(success, stderr@, stdout@, Err::<String, EngineError>(e)),
                _ => false,
            },
            (RunState::Parsing(t), RunEvent::OutputParsed(parsed)) => r.0 matches Some(RunState::CleaningUp(res))
                && parsed_result(t@, parsed, res),
            (RunState::CleaningUp(res), _) => r.1 == RunAction::Finish(res),
            _ => false,
        },
{
    match state {
        RunState::Start => match event {
            RunEvent::ArtifactWritten => (Some(RunState::ArtifactWritten), RunAction::RunEngine),
            RunEvent::ArtifactWriteFailed(e) => (
                Some(RunState::CleaningUp(Err(EngineError::ArtifactFailed(e)))),
                RunAction::RemoveArtifact,
            ),
            _ => (Some(RunState::Start), RunAction::WriteArtifact),
        },
        RunState::ArtifactWritten => match event {
            RunEvent::ScriptNotFound => (
                Some(RunState::CleaningUp(Err(EngineError::ScriptNotFound))),
                RunAction::RemoveArtifact,
            ),
            RunEvent::LaunchFailed(e) => (
                Some(RunState::CleaningUp(Err(EngineError::LaunchFailed(e)))),
                RunAction::RemoveArtifact,
            ),
            RunEvent::EngineExited { success, stderr, stdout } => match decode_engine_output(success, &stderr, stdout) {
                Ok(t) => {
                    let shown = t.clone();
                    (Some(RunState::Parsing(t)), RunAction::ParseOutput(shown))
                },
                Err(e) => (Some(RunState::CleaningUp(Err(e))), RunAction::RemoveArtifact),
            },
            _ => (Some(RunState::ArtifactWritten), RunAction::RunEngine),
        },
        RunState::Parsing(t) => match event {
            RunEvent::OutputParsed(parsed) => (
                Some(RunState::CleaningUp(parse_outcome(t, parsed))),
                RunAction::RemoveArtifact,
            ),
            _ => {
                let shown = t.clone();
                (Some(RunState::Parsing(t)), RunAction::ParseOutput(shown))
            },
        },
        RunState::CleaningUp(res) => (None, RunAction::Finish(res)),
    }
}

} // verus!
