//! What is asked of the `podman` command, and what its answers mean.

use crate::text::{
    is_blank, is_white_space, joined, lossy_text, same_text, trimmed, utf8_lossy,
};
use vstd::prelude::*;
use vstd::utf8::{decode_utf8, valid_utf8};

verus! {

/// A container as `podman ps` lists it.
#[derive(Debug)]
pub struct PsEntry {
    pub id: String,
    pub names: Vec<String>,
    pub state: String,
}

/// A container as `podman inspect` describes it.
#[derive(Debug)]
pub struct InspectResult {
    pub config: InspectConfig,
}

/// The settings of an inspected container.
#[derive(Debug)]
pub struct InspectConfig {
    pub healthcheck: Option<HealthcheckConfig>,
}

/// The healthcheck of a container. Times are in nanoseconds, zero where none is set.
#[derive(Clone, Debug)]
pub struct HealthcheckConfig {
    pub test: Vec<String>,
    pub interval: u64,
    pub timeout: u64,
    pub start_period: u64,
    pub retries: u32,
}

/// How a command ended, and what it wrote.
#[derive(Debug)]
pub struct CommandOutput {
    pub success: bool,
    pub stdout: Vec<u8>,
    pub stderr: Vec<u8>,
}

/// The texts of the strings.
pub open spec fn texts(words: Seq<String>) -> Seq<Seq<char>> {
    Seq::new(words.len(), |i: int| words[i]@)
}

/// Arguments that list the containers.
pub fn ps_args() -> (res: Vec<String>)
    ensures
        texts(res@) == seq!["ps"@, "--format"@, "json"@],
        res@.len() == 3,
        res@[0]@ == "ps"@,
        res@[1]@ == "--format"@,
        res@[2]@ == "json"@,
{
    let args: Vec<String> = vec!["ps".to_owned(), "--format".to_owned(), "json".to_owned()];
    assert(texts(args@) =~= seq!["ps"@, "--format"@, "json"@]);
    args
}

/// Arguments that describe a container.
pub fn inspect_args(id: &str) -> (res: Vec<String>)
    ensures
        texts(res@) == seq!["inspect"@, id@],
        res@.len() == 2,
        res@[0]@ == "inspect"@,
        res@[1]@ == id@,
{
    let args: Vec<String> = vec!["inspect".to_owned(), id.to_owned()];
    assert(texts(args@) =~= seq!["inspect"@, id@]);
    args
}

/// Arguments that run the healthcheck of a container once.
pub fn healthcheck_args(id: &str) -> (res: Vec<String>)
    ensures
        texts(res@) == seq!["healthcheck"@, "run"@, id@],
        res@.len() == 3,
        res@[0]@ == "healthcheck"@,
        res@[1]@ == "run"@,
        res@[2]@ == id@,
{
    let args: Vec<String> = vec!["healthcheck".to_owned(), "run".to_owned(), id.to_owned()];
    assert(texts(args@) =~= seq!["healthcheck"@, "run"@, id@]);
    args
}

/// Arguments that stream container events, one JSON object a line.
pub fn events_args() -> (res: Vec<String>)
    ensures
        texts(res@) == seq!["events"@, "--format"@, "json"@, "--filter"@, "type=container"@],
        res@.len() == 5,
        res@[0]@ == "events"@,
        res@[1]@ == "--format"@,
        res@[2]@ == "json"@,
        res@[3]@ == "--filter"@,
        res@[4]@ == "type=container"@,
{
    let args: Vec<String> = vec![
        "events".to_owned(),
        "--format".to_owned(),
        "json".to_owned(),
        "--filter".to_owned(),
        "type=container".to_owned(),
    ];
    assert(texts(args@) =~= seq![
        "events"@,
        "--format"@,
        "json"@,
        "--filter"@,
        "type=container"@,
    ]);
    args
}

/// What the command complained of, where it failed.
pub fn command_failure(output: &CommandOutput) -> (res: Option<String>)
    ensures
        res is Some <==> !output.success,
        res matches Some(text) ==> text@ == trimmed(utf8_lossy(output.stderr@)),
        res matches Some(text) ==> (valid_utf8(output.stderr@) ==> text@ == trimmed(
            decode_utf8(output.stderr@),
        )),
{
    if output.success {
        None
    } else {
        let stderr: String = lossy_text(output.stderr.as_slice());
        Some(stderr.as_str().trim().to_owned())
    }
}

/// What the answer to `podman ps` comes to before its JSON is read.
#[derive(Debug)]
pub enum PsReply {
    /// The listing is known without reading any JSON, or failed with this message.
    Known(Result<Vec<PsEntry>, String>),
    /// This text is to be read as JSON.
    Parse(String),
}

/// A `PsReply` by what it holds.
pub enum PsReplyView {
    Failed(Seq<char>),
    Listed(Seq<PsEntry>),
    Parse(Seq<char>),
}

impl View for PsReply {
    type V = PsReplyView;

    open spec fn view(&self) -> PsReplyView {
        match self {
            PsReply::Known(Ok(entries)) => PsReplyView::Listed(entries@),
            PsReply::Known(Err(message)) => PsReplyView::Failed(message@),
            PsReply::Parse(text) => PsReplyView::Parse(text@),
        }
    }
}

/// The reply to a listing that ran and printed these texts. One that printed nothing
/// but white space lists no containers.
pub open spec fn ps_reply_of(success: bool, stdout: Seq<char>, stderr: Seq<char>) -> PsReplyView {
    if !success {
        PsReplyView::Failed("podman ps failed: "@ + trimmed(stderr))
    } else if is_blank(stdout) {
        PsReplyView::Listed(Seq::empty())
    } else {
        PsReplyView::Parse(stdout)
    }
}

/// Reads the outcome of a listing from the texts that it printed.
pub fn ps_reply(success: bool, stdout: &str, stderr: &str) -> (res: PsReply)
    ensures
        res@ == ps_reply_of(success, stdout@, stderr@),
        !success ==> (res matches PsReply::Known(Err(message)) && message@ == "podman ps failed: "@
            + trimmed(stderr@)),
        success && (forall|i: int| 0 <= i < stdout@.len() ==> is_white_space(#[trigger] stdout@[i]))
            ==> (res matches PsReply::Known(Ok(entries)) && entries@.len() == 0),
        success && (exists|i: int|
            0 <= i < stdout@.len() && !is_white_space(#[trigger] stdout@[i])) ==> (
        res matches PsReply::Parse(text) && text@ == stdout@),
{
    proof {
        crate::text::lemma_trimmed_empty_iff_blank(stdout@);
    }
    if !success {
        PsReply::Known(Err(joined("podman ps failed: ", stderr.trim())))
    } else if stdout.trim().is_empty() {
        PsReply::Known(Ok(Vec::new()))
    } else {
        PsReply::Parse(stdout.to_owned())
    }
}

/// Reads the outcome of `podman ps`: how it ended and what it wrote, or why it could
/// not be run.
pub fn podman_ps(run: &Result<CommandOutput, String>) -> (res: PsReply)
    ensures
        match run {
            Ok(output) => res@ == ps_reply_of(
                output.success,
                utf8_lossy(output.stdout@),
                utf8_lossy(output.stderr@),
            ),
            Err(reason) => res@ == PsReplyView::Failed("failed to run podman ps: "@ + reason@),
        },
        run matches Err(reason) ==> (res matches PsReply::Known(Err(message)) && message@
            == "failed to run podman ps: "@ + reason@),
        run matches Ok(output) ==> (!output.success ==> (res matches PsReply::Known(Err(message))
            && message@ == "podman ps failed: "@ + trimmed(utf8_lossy(output.stderr@)))),
        run matches Ok(output) ==> (output.success ==> match res {
            PsReply::Known(Ok(entries)) => entries@.len() == 0 && forall|i: int|
                0 <= i < utf8_lossy(output.stdout@).len() ==> is_white_space(
                    #[trigger] utf8_lossy(output.stdout@)[i],
                ),
            PsReply::Parse(text) => text@ == utf8_lossy(output.stdout@) && exists|i: int|
                0 <= i < text@.len() && !is_white_space(#[trigger] text@[i]),
            PsReply::Known(Err(_)) => false,
        }),
        run matches Ok(output) ==> (valid_utf8(output.stdout@) ==> utf8_lossy(output.stdout@)
            == decode_utf8(output.stdout@)),
        run matches Ok(output) ==> (valid_utf8(output.stderr@) ==> utf8_lossy(output.stderr@)
            == decode_utf8(output.stderr@)),
{
    match run {
        Ok(output) => {
            let stdout: String = lossy_text(output.stdout.as_slice());
            let stderr: String = lossy_text(output.stderr.as_slice());
            ps_reply(output.success, stdout.as_str(), stderr.as_str())
        },
        Err(reason) => PsReply::Known(Err(joined("failed to run podman ps: ", reason.as_str()))),
    }
}

/// The listing, once its JSON was read or found unreadable for the given reason.
pub fn ps_listing(parsed: Result<Vec<PsEntry>, String>) -> (res: Result<Vec<PsEntry>, String>)
    ensures
        match parsed {
            Ok(entries) => res == Ok::<Vec<PsEntry>, String>(entries),
            Err(reason) => res is Err && res->Err_0@ == "failed to parse podman ps output: "@
                + reason@,
        },
{
    match parsed {
        Ok(entries) => Ok(entries),
        Err(reason) => Err(joined("failed to parse podman ps output: ", reason.as_str())),
    }
}

/// What came of `podman inspect`.
#[derive(Debug)]
pub enum InspectReply {
    /// The command could not be run.
    NotRun,
    /// The command ended in failure.
    Refused,
    /// What it printed does not read as JSON of the expected shape.
    Unreadable,
    /// The containers that it described.
    Inspected(Vec<InspectResult>),
}

/// The bytes to be read as JSON, or the reply where there is nothing to read.
pub fn inspect_output(run: Option<CommandOutput>) -> (res: Result<Vec<u8>, InspectReply>)
    ensures
        res == match run {
            None => Err::<Vec<u8>, InspectReply>(InspectReply::NotRun),
            Some(output) => if output.success {
                Ok::<Vec<u8>, InspectReply>(output.stdout)
            } else {
                Err::<Vec<u8>, InspectReply>(InspectReply::Refused)
            },
        },
{
    match run {
        None => Err(InspectReply::NotRun),
        Some(output) => if output.success {
            Ok(output.stdout)
        } else {
            Err(InspectReply::Refused)
        },
    }
}

/// The container switched its healthcheck off: its test is `NONE`.
pub open spec fn is_disabled(config: HealthcheckConfig) -> bool {
    config.test@.len() > 0 && config.test@[0]@ == "NONE"@
}

/// The healthcheck that a reply calls for: that of the first container described, if
/// it has one that is not switched off.
pub open spec fn healthcheck_of(reply: InspectReply) -> Option<HealthcheckConfig> {
    match reply {
        InspectReply::Inspected(results) => if results@.len() == 0 {
            None
        } else {
            match results@[0].config.healthcheck {
                Some(config) => if is_disabled(config) {
                    None
                } else {
                    Some(config)
                },
                None => None,
            }
        },
        _ => None,
    }
}

/// The healthcheck to be scheduled for an inspected container, if any.
pub fn get_healthcheck(reply: InspectReply) -> (res: Option<HealthcheckConfig>)
    ensures
        res == healthcheck_of(reply),
        reply matches InspectReply::Inspected(results) ==> (results@.len() > 0
            ==> match results@[0].config.healthcheck {
            Some(config) => {
                &&& config.test@.len() == 0 ==> res == Some(config)
                &&& config.test@.len() > 0 && config.test@[0]@ != "NONE"@ ==> res == Some(config)
                &&& config.test@.len() > 0 && config.test@[0]@ == "NONE"@ ==> res is None
            },
            None => res is None,
        }),
        !(reply is Inspected) ==> res is None,
        reply matches InspectReply::Inspected(results) ==> (results@.len() == 0 ==> res is None),
{
    match reply {
        InspectReply::Inspected(results) => {
            let mut results: Vec<InspectResult> = results;
            if results.len() == 0 {
                return None;
            }
            let first: InspectResult = results.swap_remove(0);
            match first.config.healthcheck {
                Some(config) => {
                    if config.test.len() > 0 && same_text(config.test[0].as_str(), "NONE") {
                        None
                    } else {
                        Some(config)
                    }
                },
                None => None,
            }
        },
        _ => None,
    }
}

/// What came of running a healthcheck once.
#[derive(Debug)]
pub enum CheckOutcome {
    /// It ended in time, in success or not.
    Exited { success: bool },
    /// It could not be run.
    ExecFailed,
    /// It did not end in the time it was given.
    TimedOut,
}

/// Whether the check counts as passed: only where it ended in time, in success.
pub fn run_healthcheck(outcome: &CheckOutcome) -> (res: bool)
    ensures
        res == (*outcome == (CheckOutcome::Exited { success: true })),
{
    match outcome {
        CheckOutcome::Exited { success } => *success,
        CheckOutcome::ExecFailed => false,
        CheckOutcome::TimedOut => false,
    }
}

/// The healthcheck of an inspected container is taken as it stands, whatever its test
/// and its other settings, unless the first word of the test is `NONE`.
pub proof fn law_healthchecks_are_taken_as_they_stand(
    results: Vec<InspectResult>,
    config: HealthcheckConfig,
)
    requires
        results@.len() > 0,
        results@[0].config.healthcheck == Some(config),
    ensures
        config.test@.len() == 0 ==> healthcheck_of(InspectReply::Inspected(results)) == Some(
            config,
        ),
        config.test@.len() > 0 && config.test@[0]@ != "NONE"@ ==> healthcheck_of(
            InspectReply::Inspected(results),
        ) == Some(config),
        config.test@.len() > 0 && config.test@[0]@ == "NONE"@ ==> healthcheck_of(
            InspectReply::Inspected(results),
        ) is None,
{
}

/// A healthcheck is only ever that of the first container described: there is none
/// where nothing was described or the first has none, whatever the others have.
pub proof fn law_only_the_first_container_counts(
    first: Vec<InspectResult>,
    second: Vec<InspectResult>,
)
    ensures
        first@.len() == 0 ==> healthcheck_of(InspectReply::Inspected(first)) is None,
        first@.len() > 0 && first@[0].config.healthcheck is None ==> healthcheck_of(
            InspectReply::Inspected(first),
        ) is None,
        first@.len() > 0 && second@.len() > 0 && first@[0] == second@[0] ==> healthcheck_of(
            InspectReply::Inspected(first),
        ) == healthcheck_of(InspectReply::Inspected(second)),
        healthcheck_of(InspectReply::NotRun) is None,
        healthcheck_of(InspectReply::Refused) is None,
        healthcheck_of(InspectReply::Unreadable) is None,
{
}

/// A listing that failed says so with what it complained of, one that printed nothing
/// but white space lists nothing, and any other is read as it was printed. What a failed
/// listing printed otherwise, and what a good one complained of, is no matter.
pub proof fn law_reply_to_a_listing(success: bool, stdout: Seq<char>, stderr: Seq<char>)
    ensures
        !success ==> ps_reply_of(success, stdout, stderr) == PsReplyView::Failed(
            "podman ps failed: "@ + trimmed(stderr),
        ),
        success && (forall|i: int| 0 <= i < stdout.len() ==> is_white_space(#[trigger] stdout[i]))
            ==> ps_reply_of(success, stdout, stderr) == PsReplyView::Listed(Seq::empty()),
        forall|i: int|
            success && 0 <= i < stdout.len() && !is_white_space(#[trigger] stdout[i])
                ==> ps_reply_of(success, stdout, stderr) == PsReplyView::Parse(stdout),
{
}

} // verus!
