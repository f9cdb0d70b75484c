//! Command execution as the daemon's root identity, and commands that are forwarded to the
//! application that owns another identity.

use crate::bytes::same_bytes;
use crate::contract::common::ErrorCode;
use crate::contract::tools::RunAs;
use crate::error::{pre_start, DomainError, ExecutionFailure};
use crate::json::{
    entry, lemma_member_at, member, member_models, object, text_array, text_array_model, text_value,
    Json, JsonModel, Member,
};
use crate::text::{
    copied_texts, decimal, decimal_text, decimal_text_reads_back, optional_text, owned_texts, same,
    signed_decimal, signed_text, slices, texts, unsigned_number, utf8_text,
};
use vstd::prelude::*;

verus! {

/// How long a guard may take to settle once it was signalled; after that it is no longer trusted
/// to report a verified cleanup.
pub const GUARD_SETTLE_MS: u64 = 6_000;

/// How long a proof is read again before its verdict is final.
pub const PROOF_SETTLE_MS: u64 = 5_000;

pub const MAINTENANCE_INSTALL_TIMEOUT_MS: u64 = 300_000;

pub const CANCEL_SIGNAL: i32 = 15;

pub const TIMEOUT_SIGNAL: i32 = 14;

pub const KILL_SIGNAL: i32 = 9;

/// How long the streams of a settled command may take to reach their end.
pub const STREAM_EOF_WAIT_MS: u64 = 2_000;

/// How long a reader that was told to stop may take.
pub const STREAM_STOP_WAIT_MS: u64 = 500;

pub const DRAIN_POLL_MS: i32 = 25;

pub const REAP_POLL_MS: u64 = 20;

pub const READ_CHUNK_BYTES: usize = 16_384;

/// How much longer than its own timeout a forwarded command may take to settle.
pub const FORWARD_SETTLE_MARGIN_MS: u64 = 10_000;

pub const FORWARD_POLL_MS: u64 = 25;

pub const APP_PROCESS_START: &'static str = "AppProcessStart";

pub const APP_PROCESS_CANCEL: &'static str = "AppProcessCancel";

pub const SHIZUKU_PROCESS_START: &'static str = "ShizukuProcessStart";

pub const SHIZUKU_PROCESS_CANCEL: &'static str = "ShizukuProcessCancel";

/// The record that some execution could not prove that its descendants are gone. Once it is
/// flagged nothing clears it.
#[derive(Debug)]
pub struct CommandQuarantine {
    pub flagged: bool,
}

impl Default for CommandQuarantine {
    fn default() -> (quarantine: Self)
        ensures
            !quarantine.flagged,
    {
        CommandQuarantine { flagged: false }
    }
}

impl CommandQuarantine {
    pub fn observe(&mut self)
        ensures
            final(self).flagged,
    {
        self.flagged = true;
    }

    pub fn is_flagged(&self) -> (flagged: bool)
        ensures
            flagged == self.flagged,
    {
        self.flagged
    }
}

// ---------------------------------------------------------------------------------------
// Requests.
// ---------------------------------------------------------------------------------------

/// One bounded command.
#[derive(Debug)]
pub struct CommandProcessRequest {
    pub run_as: RunAs,
    pub program: String,
    pub arguments: Vec<String>,
    pub cwd: Option<String>,
    pub stdin: Option<Vec<u8>>,
    pub timeout_ms: u64,
    pub max_output_bytes: u64,
}

/// What a command is.
pub struct RequestModel {
    pub run_as: RunAs,
    pub program: Seq<char>,
    pub arguments: Seq<Seq<char>>,
    pub cwd: Option<Seq<char>>,
    pub stdin: Option<Seq<u8>>,
    pub timeout_ms: u64,
    pub max_output_bytes: u64,
}

impl View for CommandProcessRequest {
    type V = RequestModel;

    open spec fn view(&self) -> RequestModel {
        RequestModel {
            run_as: self.run_as,
            program: self.program@,
            arguments: texts(self.arguments@),
            cwd: optional_text(self.cwd),
            stdin: match self.stdin {
                Some(bytes) => Some(bytes@),
                None => None,
            },
            timeout_ms: self.timeout_ms,
            max_output_bytes: self.max_output_bytes,
        }
    }
}

/// A command of the daemon's own: root, at the root directory, without input.
pub open spec fn root_request_model(
    program: Seq<char>,
    arguments: Seq<Seq<char>>,
    timeout_ms: u64,
    max_output_bytes: u64,
) -> RequestModel {
    RequestModel {
        run_as: RunAs::Root,
        program,
        arguments,
        cwd: Some("/"@),
        stdin: None,
        timeout_ms,
        max_output_bytes,
    }
}

fn root_request(
    program: &str,
    arguments: Vec<String>,
    timeout_ms: u64,
    max_output_bytes: u64,
) -> (request: CommandProcessRequest)
    ensures
        request@ == root_request_model(program@, texts(arguments@), timeout_ms, max_output_bytes),
{
    CommandProcessRequest {
        run_as: RunAs::Root,
        program: program.to_owned(),
        arguments,
        cwd: Some("/".to_owned()),
        stdin: None,
        timeout_ms,
        max_output_bytes,
    }
}

/// The command that runs one installer of the daemon's own maintenance.
pub fn maintenance_request(program: &str, arguments: Vec<String>) -> (request:
    CommandProcessRequest)
    ensures
        request@ == root_request_model(
            program@,
            texts(arguments@),
            MAINTENANCE_INSTALL_TIMEOUT_MS,
            65_536,
        ),
{
    root_request(program, arguments, MAINTENANCE_INSTALL_TIMEOUT_MS, 65_536)
}

/// The fixed package-shell commands.
#[derive(Debug)]
pub enum PackageRootPrimitive {
    ListThirdParty,
    ListSystem,
    ForceStop(String),
}

/// The bounds of the package-shell commands, which the runtime sets.
#[derive(Clone, Copy, Debug)]
pub struct PackageBounds {
    pub list_timeout_ms: u64,
    pub list_max_stdout_bytes: u64,
    pub force_stop_timeout_ms: u64,
}

/// The arguments that list packages by `selector`.
pub open spec fn package_list_arguments(selector: Seq<char>) -> Seq<Seq<char>> {
    seq![
        "package"@,
        "list"@,
        "packages"@,
        selector,
        "--show-versioncode"@,
        "--user"@,
        "0"@,
    ]
}

/// The command that a package primitive stands for. A package name is an argument of its own.
pub open spec fn package_request_model(
    primitive: PackageRootPrimitive,
    bounds: PackageBounds,
) -> RequestModel {
    match primitive {
        PackageRootPrimitive::ListThirdParty => root_request_model(
            "/system/bin/cmd"@,
            package_list_arguments("-3"@),
            bounds.list_timeout_ms,
            bounds.list_max_stdout_bytes,
        ),
        PackageRootPrimitive::ListSystem => root_request_model(
            "/system/bin/cmd"@,
            package_list_arguments("-s"@),
            bounds.list_timeout_ms,
            bounds.list_max_stdout_bytes,
        ),
        PackageRootPrimitive::ForceStop(package_name) => root_request_model(
            "/system/bin/am"@,
            seq!["force-stop"@, "--user"@, "0"@, package_name@],
            bounds.force_stop_timeout_ms,
            1_048_576,
        ),
    }
}

pub(crate) fn package_list(selector: &str) -> (arguments: Vec<String>)
    ensures
        texts(arguments@) == package_list_arguments(selector@),
{
    let parts = ["package", "list", "packages", selector, "--show-versioncode", "--user", "0"];
    assert(slices(parts@) =~= package_list_arguments(selector@));
    owned_texts(&parts)
}

/// The command of a package primitive.
pub fn package_request(primitive: PackageRootPrimitive, bounds: PackageBounds) -> (request:
    CommandProcessRequest)
    ensures
        request@ == package_request_model(primitive, bounds),
{
    match primitive {
        PackageRootPrimitive::ListThirdParty => root_request(
            "/system/bin/cmd",
            package_list("-3"),
            bounds.list_timeout_ms,
            bounds.list_max_stdout_bytes,
        ),
        PackageRootPrimitive::ListSystem => root_request(
            "/system/bin/cmd",
            package_list("-s"),
            bounds.list_timeout_ms,
            bounds.list_max_stdout_bytes,
        ),
        PackageRootPrimitive::ForceStop(package_name) => {
            let parts = ["force-stop", "--user", "0", package_name.as_str()];
            assert(slices(parts@) =~= seq!["force-stop"@, "--user"@, "0"@, package_name@]);
            root_request(
                "/system/bin/am",
                owned_texts(&parts),
                bounds.force_stop_timeout_ms,
                1_048_576,
            )
        },
    }
}

/// The closed vocabulary of visual commands. No text of a caller is ever a program or a shell
/// command: it only takes fixed argument positions.
#[derive(Debug)]
pub enum VisualRootPrimitive {
    ScreenshotPng,
    HierarchyDump(String),
    Tap { x: u32, y: u32 },
    LongPress { x: u32, y: u32 },
    Swipe { from_x: u32, from_y: u32, to_x: u32, to_y: u32, duration_ms: u64 },
    Text(String),
    /// The keys that are held while the last one is pressed.
    KeyCombination(Vec<i32>),
    Key(i32),
}

/// A visual command, and whether it streams its output into a file.
#[derive(Debug)]
pub struct VisualCommand {
    pub request: CommandProcessRequest,
    pub requires_output: bool,
}

/// The digits of a coordinate.
pub open spec fn digits(value: u32) -> Seq<char> {
    decimal(value as nat)
}

/// The signed digits of each of several keys.
pub open spec fn key_texts(keys: Seq<i32>) -> Seq<Seq<char>> {
    Seq::new(keys.len(), |i: int| signed_decimal(keys[i] as int))
}

/// How long a swipe may take: its own duration and five seconds, but no more than fifteen.
pub open spec fn swipe_timeout(duration_ms: u64) -> u64 {
    if duration_ms + 5_000 <= 15_000 {
        (duration_ms + 5_000) as u64
    } else {
        15_000
    }
}

/// The program of a visual primitive.
pub open spec fn visual_program(primitive: VisualRootPrimitive) -> Seq<char> {
    match primitive {
        VisualRootPrimitive::ScreenshotPng => "/system/bin/screencap"@,
        VisualRootPrimitive::HierarchyDump(_) => "/system/bin/uiautomator"@,
        _ => "/system/bin/input"@,
    }
}

/// The arguments of a visual primitive.
pub open spec fn visual_arguments(primitive: VisualRootPrimitive) -> Seq<Seq<char>> {
    match primitive {
        VisualRootPrimitive::ScreenshotPng => seq!["-p"@],
        VisualRootPrimitive::HierarchyDump(path) => seq!["dump"@, path@],
        VisualRootPrimitive::Tap { x, y } => seq!["tap"@, digits(x), digits(y)],
        VisualRootPrimitive::LongPress { x, y } => seq![
            "swipe"@,
            digits(x),
            digits(y),
            digits(x),
            digits(y),
            "500"@,
        ],
        VisualRootPrimitive::Swipe { from_x, from_y, to_x, to_y, duration_ms } => seq![
            "swipe"@,
            digits(from_x),
            digits(from_y),
            digits(to_x),
            digits(to_y),
            decimal(duration_ms as nat),
        ],
        VisualRootPrimitive::Text(text) => seq!["text"@, text@],
        VisualRootPrimitive::KeyCombination(keys) => seq!["keycombination"@] + key_texts(keys@),
        VisualRootPrimitive::Key(key) => seq!["keyevent"@, signed_decimal(key as int)],
    }
}

/// The command that a visual primitive stands for.
pub open spec fn visual_request_model(primitive: VisualRootPrimitive) -> RequestModel {
    root_request_model(
        visual_program(primitive),
        visual_arguments(primitive),
        match primitive {
            VisualRootPrimitive::HierarchyDump(_) => 15_000,
            VisualRootPrimitive::Swipe { duration_ms, .. } => swipe_timeout(duration_ms),
            _ => 5_000,
        },
        if primitive is ScreenshotPng {
            8_388_608
        } else {
            1_048_576
        },
    )
}

fn input_request(arguments: Vec<String>, timeout_ms: u64) -> (command: VisualCommand)
    ensures
        command.request@ == root_request_model(
            "/system/bin/input"@,
            texts(arguments@),
            timeout_ms,
            1_048_576,
        ),
        !command.requires_output,
{
    VisualCommand {
        request: root_request("/system/bin/input", arguments, timeout_ms, 1_048_576),
        requires_output: false,
    }
}

/// The command of a visual primitive; only a screenshot streams its output into a file.
pub fn visual_command(primitive: VisualRootPrimitive) -> (command: VisualCommand)
    ensures
        command.request@ == visual_request_model(primitive),
        command.requires_output == (primitive is ScreenshotPng),
{
    let ghost expected = visual_arguments(primitive);
    match primitive {
        VisualRootPrimitive::ScreenshotPng => {
            let parts = ["-p"];
            assert(slices(parts@) =~= expected);
            VisualCommand {
                request: root_request(
                    "/system/bin/screencap",
                    owned_texts(&parts),
                    5_000,
                    8_388_608,
                ),
                requires_output: true,
            }
        },
        VisualRootPrimitive::HierarchyDump(path) => {
            let parts = ["dump", path.as_str()];
            assert(slices(parts@) =~= expected);
            VisualCommand {
                request: root_request(
                    "/system/bin/uiautomator",
                    owned_texts(&parts),
                    15_000,
                    1_048_576,
                ),
                requires_output: false,
            }
        },
        VisualRootPrimitive::Tap { x, y } => {
            let x_text = decimal_text(x as u64);
            let y_text = decimal_text(y as u64);
            let parts = ["tap", x_text.as_str(), y_text.as_str()];
            assert(slices(parts@) =~= expected);
            input_request(owned_texts(&parts), 5_000)
        },
        VisualRootPrimitive::LongPress { x, y } => {
            let x_text = decimal_text(x as u64);
            let y_text = decimal_text(y as u64);
            let parts = [
                "swipe",
                x_text.as_str(),
                y_text.as_str(),
                x_text.as_str(),
                y_text.as_str(),
                "500",
            ];
            assert(slices(parts@) =~= expected);
            input_request(owned_texts(&parts), 5_000)
        },
        VisualRootPrimitive::Swipe { from_x, from_y, to_x, to_y, duration_ms } => {
            let from_x_text = decimal_text(from_x as u64);
            let from_y_text = decimal_text(from_y as u64);
            let to_x_text = decimal_text(to_x as u64);
            let to_y_text = decimal_text(to_y as u64);
            let duration_text = decimal_text(duration_ms);
            let parts = [
                "swipe",
                from_x_text.as_str(),
                from_y_text.as_str(),
                to_x_text.as_str(),
                to_y_text.as_str(),
                duration_text.as_str(),
            ];
            assert(slices(parts@) =~= expected);
            let bound: u64 = duration_ms.saturating_add(5_000);
            let timeout_ms: u64 = if bound < 15_000 {
                bound
            } else {
                15_000
            };
            input_request(owned_texts(&parts), timeout_ms)
        },
        VisualRootPrimitive::Text(text) => {
            let parts = ["text", text.as_str()];
            assert(slices(parts@) =~= expected);
            input_request(owned_texts(&parts), 5_000)
        },
        VisualRootPrimitive::Key(key) => {
            let key_text = signed_text(key);
            let parts = ["keyevent", key_text.as_str()];
            assert(slices(parts@) =~= expected);
            input_request(owned_texts(&parts), 5_000)
        },
        VisualRootPrimitive::KeyCombination(keys) => {
            let mut arguments: Vec<String> = Vec::new();
            arguments.push("keycombination".to_owned());
            for i in 0..keys.len()
                invariant
                    arguments@.len() == i + 1,
                    arguments@[0]@ == "keycombination"@,
                    forall|k: int|
                        0 <= k < i ==> (#[trigger] arguments@[k + 1])@ == signed_decimal(
                            keys@[k] as int,
                        ),
            {
                arguments.push(signed_text(keys[i]));
            }
            assert forall|k: int| 0 <= k < expected.len() implies (#[trigger] texts(arguments@)[k])
                == expected[k] by {
                if k > 0 {
                    assert(arguments@[(k - 1) + 1]@ == signed_decimal(keys@[k - 1] as int));
                }
            }
            assert(texts(arguments@) =~= expected);
            input_request(arguments, 5_000)
        },
    }
}

/// Refuses a visual command whose output has no file, or that has a file and no output.
pub fn check_visual_output(requires_output: bool, has_output: bool) -> (checked: Result<
    (),
    ExecutionFailure,
>)
    ensures
        checked == (if requires_output == has_output {
            Ok(())
        } else {
            Err(
                ExecutionFailure {
                    error: DomainError {
                        code: ErrorCode::InternalError,
                        reason: "visual root output ownership is invalid",
                    },
                    cleanup_verified: true,
                },
            )
        }),
{
    if requires_output != has_output {
        return Err(
            pre_start(
                DomainError::new(
                    ErrorCode::InternalError,
                    "visual root output ownership is invalid",
                ),
            ),
        );
    }
    Ok(())
}

// ---------------------------------------------------------------------------------------
// Outcomes.
// ---------------------------------------------------------------------------------------

/// Why a command ended.
#[derive(Clone, Copy, Debug, PartialEq, Eq, Structural)]
pub enum CommandProcessCause {
    Exited,
    Timeout,
    Cancelled,
    OwnerLost,
}

/// What a command left behind.
#[derive(Debug, PartialEq)]
pub struct CommandProcessOutcome {
    pub cause: CommandProcessCause,
    pub exit_code: Option<i32>,
    pub stdout: Vec<u8>,
    pub stdout_truncated: bool,
    pub stderr: Vec<u8>,
    pub stderr_truncated: bool,
}

/// A command's outcome and whether its cleanup is verified.
#[derive(Debug, PartialEq)]
pub struct CommandProcessSettlement {
    pub outcome: CommandProcessOutcome,
    pub cleanup_verified: bool,
}

/// Whether a command ended by itself, with exit code zero.
pub open spec fn succeeded(outcome: CommandProcessOutcome) -> bool {
    outcome.cause is Exited && outcome.exit_code == Some(0i32)
}

fn exited_with_zero(outcome: &CommandProcessOutcome) -> (yes: bool)
    ensures
        yes == succeeded(*outcome),
{
    match outcome.exit_code {
        Some(code) => outcome.cause == CommandProcessCause::Exited && code == 0,
        None => false,
    }
}

/// The error of a package command that did not succeed.
pub open spec fn package_error(cause: CommandProcessCause) -> DomainError {
    match cause {
        CommandProcessCause::Timeout => DomainError {
            code: ErrorCode::Timeout,
            reason: "package root primitive timed out",
        },
        CommandProcessCause::Cancelled | CommandProcessCause::OwnerLost => DomainError {
            code: ErrorCode::Cancelled,
            reason: "package root primitive stopped",
        },
        CommandProcessCause::Exited => DomainError {
            code: ErrorCode::IoError,
            reason: "package root primitive failed",
        },
    }
}

/// The output of a package command: only a command that exited with zero and whose output was
/// kept whole has one.
pub fn package_result(settlement: CommandProcessSettlement) -> (result: Result<
    Vec<u8>,
    ExecutionFailure,
>)
    ensures
        result == (if succeeded(settlement.outcome) && !settlement.outcome.stdout_truncated {
            Ok(settlement.outcome.stdout)
        } else {
            Err(
                ExecutionFailure {
                    error: package_error(settlement.outcome.cause),
                    cleanup_verified: settlement.cleanup_verified,
                },
            )
        }),
{
    let cleanup_verified = settlement.cleanup_verified;
    let error = match settlement.outcome.cause {
        CommandProcessCause::Timeout => DomainError::new(
            ErrorCode::Timeout,
            "package root primitive timed out",
        ),
        CommandProcessCause::Cancelled | CommandProcessCause::OwnerLost => DomainError::new(
            ErrorCode::Cancelled,
            "package root primitive stopped",
        ),
        CommandProcessCause::Exited => {
            if exited_with_zero(&settlement.outcome) && !settlement.outcome.stdout_truncated {
                return Ok(settlement.outcome.stdout);
            }
            DomainError::new(ErrorCode::IoError, "package root primitive failed")
        },
    };
    Err(ExecutionFailure { error, cleanup_verified })
}

/// The error of a visual command that did not succeed. The input program that exits with another
/// code refused the event, which is no transport failure.
pub open spec fn visual_error(program: Seq<char>, cause: CommandProcessCause) -> DomainError {
    match cause {
        CommandProcessCause::Timeout => DomainError {
            code: ErrorCode::Timeout,
            reason: "visual root primitive timed out",
        },
        CommandProcessCause::Cancelled | CommandProcessCause::OwnerLost => DomainError {
            code: ErrorCode::Cancelled,
            reason: "visual root primitive stopped",
        },
        CommandProcessCause::Exited => DomainError {
            code: if program == "/system/bin/input"@ {
                ErrorCode::ExecutionFailed
            } else {
                ErrorCode::IoError
            },
            reason: "visual root primitive failed",
        },
    }
}

/// What became of a visual command.
pub fn visual_result(program: &str, settlement: &CommandProcessSettlement) -> (result: Result<
    (),
    ExecutionFailure,
>)
    ensures
        result == (if succeeded(settlement.outcome) && !settlement.outcome.stdout_truncated
            && !settlement.outcome.stderr_truncated {
            Ok(())
        } else {
            Err(
                ExecutionFailure {
                    error: visual_error(program@, settlement.outcome.cause),
                    cleanup_verified: settlement.cleanup_verified,
                },
            )
        }),
{
    let error = match settlement.outcome.cause {
        CommandProcessCause::Timeout => DomainError::new(
            ErrorCode::Timeout,
            "visual root primitive timed out",
        ),
        CommandProcessCause::Cancelled | CommandProcessCause::OwnerLost => DomainError::new(
            ErrorCode::Cancelled,
            "visual root primitive stopped",
        ),
        CommandProcessCause::Exited => {
            if exited_with_zero(&settlement.outcome) && !settlement.outcome.stdout_truncated
                && !settlement.outcome.stderr_truncated {
                return Ok(());
            }
            DomainError::new(
                if same(program, "/system/bin/input") {
                    ErrorCode::ExecutionFailed
                } else {
                    ErrorCode::IoError
                },
                "visual root primitive failed",
            )
        },
    };
    Err(ExecutionFailure { error, cleanup_verified: settlement.cleanup_verified })
}

// ---------------------------------------------------------------------------------------
// The guard.
// ---------------------------------------------------------------------------------------

/// Refuses a root command when no guard can run it.
pub fn check_guard(is_absolute: bool, is_file: bool) -> (checked: Result<(), ExecutionFailure>)
    ensures
        checked == (if is_absolute && is_file {
            Ok(())
        } else {
            Err(
                ExecutionFailure {
                    error: DomainError {
                        code: ErrorCode::CapabilityUnavailable,
                        reason: "root execution guard is unavailable",
                    },
                    cleanup_verified: true,
                },
            )
        }),
{
    if !is_absolute || !is_file {
        return Err(
            pre_start(
                DomainError::new(
                    ErrorCode::CapabilityUnavailable,
                    "root execution guard is unavailable",
                ),
            ),
        );
    }
    Ok(())
}

/// Refuses a proof while cleanup is in doubt or no proof can be kept.
pub fn check_proof_admission(quarantined: bool, capacity: bool) -> (checked: Result<
    (),
    ExecutionFailure,
>)
    ensures
        checked == (if !quarantined && capacity {
            Ok(())
        } else {
            Err(
                ExecutionFailure {
                    error: DomainError {
                        code: ErrorCode::ResourceLimit,
                        reason: "root guard proof admission rejected",
                    },
                    cleanup_verified: true,
                },
            )
        }),
{
    if quarantined || !capacity {
        return Err(
            pre_start(
                DomainError::new(ErrorCode::ResourceLimit, "root guard proof admission rejected"),
            ),
        );
    }
    Ok(())
}

/// The arguments a guard is started with: the two descriptors that it inherits, then the command.
pub open spec fn guard_argument_models(
    proof_fd: i32,
    lifetime_fd: i32,
    program: Seq<char>,
    arguments: Seq<Seq<char>>,
) -> Seq<Seq<char>> {
    seq![
        "--proof-fd"@,
        signed_decimal(proof_fd as int),
        "--lifetime-fd"@,
        signed_decimal(lifetime_fd as int),
        "--"@,
        program,
    ] + arguments
}

pub fn guard_arguments(proof_fd: i32, lifetime_fd: i32, request: &CommandProcessRequest) -> (made:
    Vec<String>)
    ensures
        texts(made@) == guard_argument_models(
            proof_fd,
            lifetime_fd,
            request@.program,
            request@.arguments,
        ),
{
    let proof_text = signed_text(proof_fd);
    let lifetime_text = signed_text(lifetime_fd);
    let parts = [
        "--proof-fd",
        proof_text.as_str(),
        "--lifetime-fd",
        lifetime_text.as_str(),
        "--",
        request.program.as_str(),
    ];
    let mut made = owned_texts(&parts);
    let ghost head = made@;
    let mut rest = copied_texts(request.arguments.as_slice());
    let ghost tail = rest@;
    made.append(&mut rest);
    proof {
        let expected = guard_argument_models(
            proof_fd,
            lifetime_fd,
            request@.program,
            request@.arguments,
        );
        assert(texts(head).len() == slices(parts@).len() && texts(tail).len() == request@.arguments.len());
        assert forall|k: int| 0 <= k < expected.len() implies (#[trigger] texts(made@)[k])
            == expected[k] by {
            if k < 6 {
                assert(made@[k] == head[k]);
                assert(texts(head)[k] == slices(parts@)[k]);
            } else {
                assert(made@[k] == tail[k - 6]);
                assert(texts(tail)[k - 6] == request@.arguments[k - 6]);
            }
        }
        assert(texts(made@) =~= expected);
    }
    made
}

/// The directory a command runs in.
pub fn working_directory(request: &CommandProcessRequest) -> (directory: String)
    ensures
        directory@ == (match request@.cwd {
            Some(cwd) => cwd,
            None => "/"@,
        }),
{
    match &request.cwd {
        Some(cwd) => cwd.as_str().to_owned(),
        None => "/".to_owned(),
    }
}

/// The number of bytes of a stream that are kept.
pub fn stream_limit(max_output_bytes: u64) -> (limit: usize)
    ensures
        limit == (if max_output_bytes <= usize::MAX {
            max_output_bytes as int
        } else {
            usize::MAX as int
        }),
{
    if max_output_bytes <= usize::MAX as u64 {
        max_output_bytes as usize
    } else {
        usize::MAX
    }
}

/// Why a guard recorded the end of its command.
#[derive(Clone, Copy, Debug, PartialEq, Eq, Structural)]
pub enum GuardCleanCause {
    Exited,
    Cancelled,
    Timeout,
    OwnerLost,
}

/// A guard's record of a verified cleanup.
#[derive(Clone, Copy, Debug, PartialEq, Eq, Structural)]
pub struct GuardClean {
    pub cause: GuardCleanCause,
    pub shell_exit_code: Option<i32>,
}

/// What a guard's proof shows.
#[derive(Clone, Copy, Debug, PartialEq, Eq, Structural)]
pub enum GuardRecovery {
    Clean { clean: Option<GuardClean> },
    Live,
    Unverified,
}

/// The daemon's reading of one guard proof.
#[derive(Clone, Copy, Debug, PartialEq, Eq, Structural)]
pub struct GuardSettlement {
    pub cleanup_verified: bool,
    pub shell_exit_code: Option<i32>,
    pub cause: Option<GuardCleanCause>,
}

/// Whether the reading of a proof is final: it is clean, or the time to read it again is over.
pub fn proof_is_final(recovery: &GuardRecovery, now_ms: u64, deadline_ms: u64) -> (is_final: bool)
    ensures
        is_final == (*recovery is Clean || now_ms >= deadline_ms),
{
    match recovery {
        GuardRecovery::Clean { .. } => true,
        _ => now_ms >= deadline_ms,
    }
}

/// The settlement a proof stands for. A missing or partial record is unverified, never a clean
/// run.
pub open spec fn settlement_of(recovery: GuardRecovery) -> GuardSettlement {
    match recovery {
        GuardRecovery::Clean { clean: Some(clean) } => GuardSettlement {
            cleanup_verified: true,
            shell_exit_code: clean.shell_exit_code,
            cause: Some(clean.cause),
        },
        _ => GuardSettlement { cleanup_verified: false, shell_exit_code: None, cause: None },
    }
}

/// Reads the settlement off a proof. An unverified cleanup is recorded in the quarantine; the
/// proof of a verified one may be removed.
pub fn settle(recovery: GuardRecovery, quarantine: &mut CommandQuarantine) -> (settlement:
    GuardSettlement)
    ensures
        settlement == settlement_of(recovery),
        final(quarantine).flagged == (old(quarantine).flagged || !settlement.cleanup_verified),
{
    let settlement = match recovery {
        GuardRecovery::Clean { clean: Some(clean) } => GuardSettlement {
            cleanup_verified: true,
            shell_exit_code: clean.shell_exit_code,
            cause: Some(clean.cause),
        },
        _ => GuardSettlement { cleanup_verified: false, shell_exit_code: None, cause: None },
    };
    if !settlement.cleanup_verified {
        quarantine.observe();
    }
    settlement
}

/// Whether a proof may be retired: only exactly its header shows that no process was started.
pub fn proof_is_unstarted(record: &Option<Vec<u8>>, header: &[u8]) -> (unstarted: bool)
    ensures
        unstarted == (match *record {
            Some(bytes) => bytes@ == header@,
            None => false,
        }),
{
    match record {
        Some(bytes) => same_bytes(bytes.as_slice(), header),
        None => false,
    }
}

/// The failure of a command whose guard could not be started: it is verified when the proof was
/// retired, or else when the proof settled as verified.
pub fn unstarted(reason: DomainError, aborted: bool, settled: Option<GuardSettlement>) -> (failure:
    ExecutionFailure)
    ensures
        failure == (ExecutionFailure {
            error: reason,
            cleanup_verified: aborted || (settled is Some && settled->0.cleanup_verified),
        }),
{
    let cleanup_verified = aborted || match settled {
        Some(settlement) => settlement.cleanup_verified,
        None => false,
    };
    ExecutionFailure { error: reason, cleanup_verified }
}

// ---------------------------------------------------------------------------------------
// Waiting for the guard.
// ---------------------------------------------------------------------------------------

/// How the guard itself ended.
#[derive(Clone, Copy, Debug, PartialEq, Eq, Structural)]
pub struct Reaped {
    pub exit_code: Option<i32>,
    pub timed_out: bool,
}

/// What was seen of the guard.
#[derive(Clone, Copy, Debug, PartialEq, Eq, Structural)]
pub enum ChildState {
    Running,
    /// It ended, by itself or by a signal.
    Ended { code: Option<i32>, signal: Option<i32> },
    Unobservable,
}

/// The wait for one guard.
#[derive(Clone, Copy, Debug, PartialEq, Eq, Structural)]
pub struct Reap {
    pub deadline_ms: u64,
    pub signalled_ms: Option<u64>,
    pub timed_out: bool,
}

/// What the wait asks for next.
#[derive(Clone, Copy, Debug, PartialEq, Eq)]
pub enum ReapAction {
    /// Look again after a while.
    Wait,
    /// Send this signal, then look again after a while.
    Signal(i32),
    /// Kill the guard; it can no longer report a verified cleanup.
    Kill(Reaped),
    Finished(Reaped),
    Failed(ExecutionFailure),
}

/// The exit code of a process that ended: its own, or 128 and the signal.
pub open spec fn exit_code_of(code: Option<i32>, signal: Option<i32>) -> Option<i32> {
    match (code, signal) {
        (Some(code), _) => Some(code),
        (None, Some(signal)) => Some((128 + signal) as i32),
        (None, None) => None,
    }
}

impl Reap {
    /// Whether the guard is signalled now: it was not yet, and the command is cancelled or late.
    pub open spec fn signals(self, now_ms: u64, cancelled: bool) -> bool {
        self.signalled_ms is None && (cancelled || now_ms >= self.deadline_ms)
    }

    /// Whether the guard has used up its time to settle.
    pub open spec fn expired(self, now_ms: u64) -> bool {
        self.signalled_ms is Some && now_ms - self.signalled_ms->0 >= GUARD_SETTLE_MS
    }

    pub fn new(now_ms: u64, timeout_ms: u64) -> (reap: Self)
        requires
            now_ms + timeout_ms <= u64::MAX,
        ensures
            reap == (Reap {
                deadline_ms: (now_ms + timeout_ms) as u64,
                signalled_ms: None,
                timed_out: false,
            }),
    {
        Reap { deadline_ms: now_ms + timeout_ms, signalled_ms: None, timed_out: false }
    }

    /// One step of the wait. A cancellation or the deadline signals the guard once; a guard that
    /// does not settle in time is killed.
    pub fn step(&mut self, now_ms: u64, child: ChildState, cancelled: bool) -> (action: ReapAction)
        requires
            child matches ChildState::Ended { signal: Some(signal), .. } ==> 0 <= signal
                <= i32::MAX - 128,
        ensures
            *final(self) == (if child is Running && old(self).signals(now_ms, cancelled) {
                Reap { timed_out: !cancelled, signalled_ms: Some(now_ms), ..*old(self) }
            } else {
                *old(self)
            }),
            action == (match child {
                ChildState::Ended { code, signal } => ReapAction::Finished(
                    Reaped {
                        exit_code: exit_code_of(code, signal),
                        timed_out: old(self).timed_out,
                    },
                ),
                ChildState::Unobservable => ReapAction::Failed(
                    ExecutionFailure {
                        error: DomainError {
                            code: ErrorCode::IoError,
                            reason: "cannot observe the root execution guard",
                        },
                        cleanup_verified: true,
                    },
                ),
                ChildState::Running => if old(self).signals(now_ms, cancelled) {
                    ReapAction::Signal(
                        if cancelled {
                            CANCEL_SIGNAL
                        } else {
                            TIMEOUT_SIGNAL
                        },
                    )
                } else if old(self).expired(now_ms) {
                    ReapAction::Kill(Reaped { exit_code: None, timed_out: old(self).timed_out })
                } else {
                    ReapAction::Wait
                },
            }),
    {
        match child {
            ChildState::Ended { code, signal } => {
                let exit_code = match code {
                    Some(code) => Some(code),
                    None => match signal {
                        Some(signal) => Some(128 + signal),
                        None => None,
                    },
                };
                return ReapAction::Finished(Reaped { exit_code, timed_out: self.timed_out });
            },
            ChildState::Unobservable => {
                return ReapAction::Failed(
                    pre_start(
                        DomainError::new(
                            ErrorCode::IoError,
                            "cannot observe the root execution guard",
                        ),
                    ),
                );
            },
            ChildState::Running => {},
        }
        match self.signalled_ms {
            None => {
                if cancelled || now_ms >= self.deadline_ms {
                    self.timed_out = !cancelled;
                    self.signalled_ms = Some(now_ms);
                    return ReapAction::Signal(
                        if cancelled {
                            CANCEL_SIGNAL
                        } else {
                            TIMEOUT_SIGNAL
                        },
                    );
                }
                ReapAction::Wait
            },
            Some(at) => {
                if now_ms >= at && now_ms - at >= GUARD_SETTLE_MS {
                    return ReapAction::Kill(Reaped { exit_code: None, timed_out: self.timed_out });
                }
                ReapAction::Wait
            },
        }
    }
}

/// The cause of a command's end: what the guard recorded, or else the deadline that passed.
pub open spec fn cause_of(recorded: Option<GuardCleanCause>, timed_out: bool) ->
    CommandProcessCause {
    match recorded {
        Some(GuardCleanCause::Cancelled) => CommandProcessCause::Cancelled,
        Some(GuardCleanCause::Timeout) => CommandProcessCause::Timeout,
        Some(GuardCleanCause::OwnerLost) => CommandProcessCause::OwnerLost,
        _ => if timed_out {
            CommandProcessCause::Timeout
        } else {
            CommandProcessCause::Exited
        },
    }
}

/// The exit code of a command: only one that ended by itself has one, and the guard's record
/// comes before the guard's own code.
pub open spec fn command_exit_code(
    cause: CommandProcessCause,
    recorded: Option<i32>,
    reaped: Option<i32>,
) -> Option<i32> {
    if cause is Exited {
        if recorded is Some {
            recorded
        } else {
            reaped
        }
    } else {
        None
    }
}

/// Puts the settlement of a command together. A proof that could not be read comes first, then
/// the wait for the guard, then the streams; every later failure carries the proof's verdict.
pub fn command_settlement(
    settled: Result<GuardSettlement, DomainError>,
    reaped: Result<Reaped, ExecutionFailure>,
    streams: Result<(BoundedStream, BoundedStream), DomainError>,
) -> (settlement: Result<CommandProcessSettlement, ExecutionFailure>)
    ensures
        match (settled, reaped, streams) {
            (Err(error), _, _) => settlement == Err::<CommandProcessSettlement, _>(
                ExecutionFailure { error, cleanup_verified: false },
            ),
            (Ok(guard), Err(failure), _) => settlement == Err::<CommandProcessSettlement, _>(
                ExecutionFailure {
                    error: failure.error,
                    cleanup_verified: guard.cleanup_verified,
                },
            ),
            (Ok(guard), Ok(_), Err(error)) => settlement == Err::<CommandProcessSettlement, _>(
                ExecutionFailure { error, cleanup_verified: guard.cleanup_verified },
            ),
            (Ok(guard), Ok(reaped), Ok(streams)) => settlement == Ok::<_, ExecutionFailure>(
                CommandProcessSettlement {
                    outcome: CommandProcessOutcome {
                        cause: cause_of(guard.cause, reaped.timed_out),
                        exit_code: command_exit_code(
                            cause_of(guard.cause, reaped.timed_out),
                            guard.shell_exit_code,
                            reaped.exit_code,
                        ),
                        stdout: streams.0.bytes,
                        stdout_truncated: streams.0.truncated,
                        stderr: streams.1.bytes,
                        stderr_truncated: streams.1.truncated,
                    },
                    cleanup_verified: guard.cleanup_verified,
                },
            ),
        },
{
    let guard = match settled {
        Ok(guard) => guard,
        Err(error) => {
            return Err(ExecutionFailure { error, cleanup_verified: false });
        },
    };
    let reaped = match reaped {
        Ok(reaped) => reaped,
        Err(failure) => {
            return Err(
                ExecutionFailure {
                    error: failure.error,
                    cleanup_verified: guard.cleanup_verified,
                },
            );
        },
    };
    let (stdout, stderr) = match streams {
        Ok(streams) => streams,
        Err(error) => {
            return Err(ExecutionFailure { error, cleanup_verified: guard.cleanup_verified });
        },
    };
    let cause = match guard.cause {
        Some(GuardCleanCause::Cancelled) => CommandProcessCause::Cancelled,
        Some(GuardCleanCause::Timeout) => CommandProcessCause::Timeout,
        Some(GuardCleanCause::OwnerLost) => CommandProcessCause::OwnerLost,
        _ => if reaped.timed_out {
            CommandProcessCause::Timeout
        } else {
            CommandProcessCause::Exited
        },
    };
    let exit_code = if cause == CommandProcessCause::Exited {
        match guard.shell_exit_code {
            Some(code) => Some(code),
            None => reaped.exit_code,
        }
    } else {
        None
    };
    Ok(
        CommandProcessSettlement {
            outcome: CommandProcessOutcome {
                cause,
                exit_code,
                stdout: stdout.bytes,
                stdout_truncated: stdout.truncated,
                stderr: stderr.bytes,
                stderr_truncated: stderr.truncated,
            },
            cleanup_verified: guard.cleanup_verified,
        },
    )
}

/// How a command ended is told by what its guard recorded, and by the deadline only where the guard
/// recorded nothing that came from outside. A command that ran past its deadline is never told as
/// one that ended by itself, and only one that did has an exit code: the one that the guard
/// recorded, or else the guard's own.
pub proof fn a_command_ends_as_its_guard_recorded(
    guard: GuardSettlement,
    reaped: Reaped,
    streams: (BoundedStream, BoundedStream),
    settlement: Result<CommandProcessSettlement, ExecutionFailure>,
)
    requires
        call_ensures(command_settlement, (Ok(guard), Ok(reaped), Ok(streams)), settlement),
    ensures
        settlement is Ok,
        ({
            let outcome = settlement->Ok_0.outcome;
            let alone = guard.cause is None || guard.cause == Some(GuardCleanCause::Exited);
            &&& guard.cause == Some(GuardCleanCause::Timeout) ==> outcome.cause is Timeout
            &&& guard.cause == Some(GuardCleanCause::Cancelled) ==> outcome.cause is Cancelled
            &&& guard.cause == Some(GuardCleanCause::OwnerLost) ==> outcome.cause is OwnerLost
            &&& alone && reaped.timed_out ==> outcome.cause is Timeout
            &&& outcome.cause is Exited <==> alone && !reaped.timed_out
            &&& !(outcome.cause is Exited) ==> outcome.exit_code is None
            &&& outcome.cause is Exited && guard.shell_exit_code is Some ==> outcome.exit_code
                == guard.shell_exit_code
            &&& outcome.cause is Exited && guard.shell_exit_code is None ==> outcome.exit_code
                == reaped.exit_code
        }),
        settlement->Ok_0.cleanup_verified == guard.cleanup_verified,
        settlement->Ok_0.outcome.stdout@ == streams.0.bytes@,
        settlement->Ok_0.outcome.stdout_truncated == streams.0.truncated,
        settlement->Ok_0.outcome.stderr@ == streams.1.bytes@,
        settlement->Ok_0.outcome.stderr_truncated == streams.1.truncated,
{
}

// ---------------------------------------------------------------------------------------
// Streams.
// ---------------------------------------------------------------------------------------

/// The part of a stream that was kept, and whether there was more.
#[derive(Debug, PartialEq)]
pub struct BoundedStream {
    pub bytes: Vec<u8>,
    pub truncated: bool,
}

/// The first `limit` bytes of a sequence, or all of it.
pub open spec fn bounded(bytes: Seq<u8>, limit: int) -> Seq<u8> {
    if bytes.len() <= limit {
        bytes
    } else {
        bytes.take(limit)
    }
}

impl BoundedStream {
    /// Whether this is what is kept of the stream `all`.
    pub open spec fn keeps(self, all: Seq<u8>, limit: int) -> bool {
        self.bytes@ == bounded(all, limit) && self.truncated == (all.len() > limit)
    }

    pub fn new() -> (stream: Self)
        ensures
            forall|limit: int| 0 <= limit ==> #[trigger] stream.keeps(Seq::empty(), limit),
            stream.bytes@.len() == 0,
            !stream.truncated,
    {
        let stream = BoundedStream { bytes: Vec::new(), truncated: false };
        assert(forall|limit: int|
            0 <= limit ==> #[trigger] bounded(Seq::<u8>::empty(), limit) =~= Seq::<u8>::empty());
        stream
    }

    /// Takes in one more piece of the stream; what does not fit is dropped.
    pub fn retain(&mut self, chunk: &[u8], limit: usize)
        requires
            old(self).bytes@.len() <= limit,
        ensures
            final(self).bytes@ == bounded(old(self).bytes@ + chunk@, limit as int),
            final(self).truncated == (old(self).truncated || old(self).bytes@.len() + chunk@.len()
                > limit),
            final(self).bytes@.len() <= limit,
    {
        let ghost before = self.bytes@;
        let remaining: usize = limit - self.bytes.len();
        let take: usize = if remaining < chunk.len() {
            remaining
        } else {
            chunk.len()
        };
        for i in 0..take
            invariant
                take <= chunk@.len(),
                self.bytes@ == before + chunk@.take(i as int),
                self.truncated == old(self).truncated,
        {
            self.bytes.push(chunk[i]);
            assert(self.bytes@ =~= before + chunk@.take(i + 1));
        }
        assert(self.bytes@ =~= bounded(before + chunk@, limit as int));
        if chunk.len() > remaining {
            self.truncated = true;
        }
    }
}

/// Whatever a stream was cut into, exactly its first bytes are kept, and it is truncated exactly
/// when there was more.
pub proof fn retained_prefix_is_exact(
    before: BoundedStream,
    after: BoundedStream,
    all: Seq<u8>,
    chunk: Seq<u8>,
    limit: int,
)
    requires
        0 <= limit,
        before.keeps(all, limit),
        after.bytes@ == bounded(before.bytes@ + chunk, limit),
        after.truncated == (before.truncated || before.bytes@.len() + chunk.len() > limit),
    ensures
        after.keeps(all + chunk, limit),
{
    assert(bounded(before.bytes@ + chunk, limit) =~= bounded(all + chunk, limit));
}

/// What is streamed into a file: how much was written and whether there was more.
#[derive(Clone, Copy, Debug, PartialEq, Eq, Structural)]
pub struct FileDrain {
    pub written: usize,
    pub truncated: bool,
}

impl FileDrain {
    pub fn new() -> (drain: Self)
        ensures
            drain == (FileDrain { written: 0, truncated: false }),
    {
        FileDrain { written: 0, truncated: false }
    }

    /// Takes in a piece of `count` bytes and says how many of them are to be written.
    pub fn accept(&mut self, count: usize, limit: usize) -> (take: usize)
        requires
            old(self).written <= limit,
        ensures
            take == (if old(self).written + count <= limit {
                count as int
            } else {
                limit - old(self).written
            }),
            final(self).written == old(self).written + take,
            final(self).written <= limit,
            final(self).truncated == (old(self).truncated || old(self).written + count > limit),
    {
        let remaining: usize = limit - self.written;
        let take: usize = if remaining < count {
            remaining
        } else {
            count
        };
        self.written = self.written + take;
        if count > remaining {
            self.truncated = true;
        }
        take
    }
}

/// What came of one look at a stream.
#[derive(Clone, Copy, Debug, PartialEq, Eq, Structural)]
pub enum StreamEvent {
    Interrupted,
    PollFailed,
    /// Nothing to read, and the reader was or was not told to stop.
    Quiet { stopped: bool },
    ReadFailed,
    EndOfFile,
    /// Bytes were read.
    Data,
}

/// What a reader does next.
#[derive(Clone, Copy, Debug, PartialEq, Eq)]
pub enum StreamStep {
    Again,
    Retain,
    Done,
    Failed(DomainError),
}

/// The step that an event on a stream leads to.
pub open spec fn stream_step_of(
    event: StreamEvent,
    poll_reason: &'static str,
    read_reason: &'static str,
) -> StreamStep {
    match event {
        StreamEvent::Interrupted => StreamStep::Again,
        StreamEvent::PollFailed => StreamStep::Failed(
            DomainError { code: ErrorCode::IoError, reason: poll_reason },
        ),
        StreamEvent::Quiet { stopped } => if stopped {
            StreamStep::Done
        } else {
            StreamStep::Again
        },
        StreamEvent::ReadFailed => StreamStep::Failed(
            DomainError { code: ErrorCode::IoError, reason: read_reason },
        ),
        StreamEvent::EndOfFile => StreamStep::Done,
        StreamEvent::Data => StreamStep::Retain,
    }
}

fn stream_step(event: StreamEvent, poll_reason: &'static str, read_reason: &'static str) -> (step:
    StreamStep)
    ensures
        step == stream_step_of(event, poll_reason, read_reason),
{
    match event {
        StreamEvent::Interrupted => StreamStep::Again,
        StreamEvent::PollFailed => StreamStep::Failed(
            DomainError::new(ErrorCode::IoError, poll_reason),
        ),
        StreamEvent::Quiet { stopped } => if stopped {
            StreamStep::Done
        } else {
            StreamStep::Again
        },
        StreamEvent::ReadFailed => StreamStep::Failed(
            DomainError::new(ErrorCode::IoError, read_reason),
        ),
        StreamEvent::EndOfFile => StreamStep::Done,
        StreamEvent::Data => StreamStep::Retain,
    }
}

/// The step of the reader of a command's stream.
pub fn drain_step(event: StreamEvent) -> (step: StreamStep)
    ensures
        step == stream_step_of(
            event,
            "cannot poll a root command stream",
            "cannot read a root command stream",
        ),
{
    stream_step(event, "cannot poll a root command stream", "cannot read a root command stream")
}

/// The step of the reader that streams into a file.
pub fn file_drain_step(event: StreamEvent) -> (step: StreamStep)
    ensures
        step == stream_step_of(
            event,
            "cannot poll a visual root stream",
            "cannot read a visual root stream",
        ),
{
    stream_step(event, "cannot poll a visual root stream", "cannot read a visual root stream")
}

/// How long a reader polls: not at all once it was told to stop.
pub fn drain_poll_ms(stopped: bool) -> (wait: i32)
    ensures
        wait == (if stopped {
            0
        } else {
            DRAIN_POLL_MS as int
        }),
{
    if stopped {
        0
    } else {
        DRAIN_POLL_MS
    }
}

/// The collection of both streams of a command.
#[derive(Debug)]
pub struct StreamCollection {
    pub stdout: Option<BoundedStream>,
    pub stderr: Option<BoundedStream>,
    pub deadline_ms: u64,
    pub forced: bool,
}

/// What arrived from a reader.
#[derive(Debug)]
pub enum StreamArrival {
    Stdout(BoundedStream),
    Stderr(BoundedStream),
    Failed(DomainError),
    Disconnected,
    Nothing,
}

/// What the collection asks for next.
#[derive(Clone, Copy, Debug, PartialEq, Eq)]
pub enum CollectAction {
    /// Both streams are there.
    Complete,
    /// Wait this long for a reader.
    Wait(u64),
    /// Tell the readers to stop, then wait this long.
    Stop(u64),
    Failed(DomainError),
}

/// The time until `deadline_ms`, at least a millisecond.
pub open spec fn wait_until(now_ms: u64, deadline_ms: u64) -> u64 {
    if deadline_ms > now_ms + 1 {
        (deadline_ms - now_ms) as u64
    } else {
        1
    }
}

impl StreamCollection {
    /// Whether both streams are there.
    pub open spec fn complete(self) -> bool {
        self.stdout is Some && self.stderr is Some
    }

    pub fn new(now_ms: u64) -> (collection: Self)
        requires
            now_ms + STREAM_EOF_WAIT_MS <= u64::MAX,
        ensures
            collection == (StreamCollection {
                stdout: None,
                stderr: None,
                deadline_ms: (now_ms + STREAM_EOF_WAIT_MS) as u64,
                forced: false,
            }),
    {
        StreamCollection {
            stdout: None,
            stderr: None,
            deadline_ms: now_ms + STREAM_EOF_WAIT_MS,
            forced: false,
        }
    }

    /// Decides what to do before waiting. The readers are told to stop once, at the deadline; if
    /// they do not deliver in the time they then get, the collection fails.
    pub fn proceed(&mut self, now_ms: u64) -> (action: CollectAction)
        requires
            now_ms + STREAM_STOP_WAIT_MS <= u64::MAX,
        ensures
            final(self).stdout == old(self).stdout,
            final(self).stderr == old(self).stderr,
            if old(self).complete() {
                action is Complete && *final(self) == *old(self)
            } else if now_ms < old(self).deadline_ms {
                action == CollectAction::Wait(wait_until(now_ms, old(self).deadline_ms))
                    && *final(self) == *old(self)
            } else if old(self).forced {
                action == CollectAction::Failed(
                    DomainError {
                        code: ErrorCode::IoError,
                        reason: "root command output did not reach end-of-file",
                    },
                ) && *final(self) == *old(self)
            } else {
                &&& action == CollectAction::Stop(STREAM_STOP_WAIT_MS)
                &&& final(self).forced
                &&& final(self).deadline_ms == now_ms + STREAM_STOP_WAIT_MS
            },
    {
        if self.stdout.is_some() && self.stderr.is_some() {
            return CollectAction::Complete;
        }
        if now_ms >= self.deadline_ms {
            if self.forced {
                return CollectAction::Failed(
                    DomainError::new(
                        ErrorCode::IoError,
                        "root command output did not reach end-of-file",
                    ),
                );
            }
            self.forced = true;
            self.deadline_ms = now_ms + STREAM_STOP_WAIT_MS;
            return CollectAction::Stop(STREAM_STOP_WAIT_MS);
        }
        CollectAction::Wait(self.deadline_ms - now_ms)
    }

    /// Takes in what arrived. A failed or vanished reader ends the collection, and the other one
    /// is told to stop.
    pub fn accept(&mut self, arrival: StreamArrival) -> (accepted: Result<(), DomainError>)
        ensures
            final(self).deadline_ms == old(self).deadline_ms,
            final(self).forced == old(self).forced,
            final(self).stdout == (match arrival {
                StreamArrival::Stdout(stream) => Some(stream),
                _ => old(self).stdout,
            }),
            final(self).stderr == (match arrival {
                StreamArrival::Stderr(stream) => Some(stream),
                _ => old(self).stderr,
            }),
            accepted == (match arrival {
                StreamArrival::Failed(error) => Err(error),
                StreamArrival::Disconnected => Err(
                    DomainError {
                        code: ErrorCode::IoError,
                        reason: "root command output reader stopped without a result",
                    },
                ),
                _ => Ok(()),
            }),
    {
        match arrival {
            StreamArrival::Stdout(stream) => {
                self.stdout = Some(stream);
            },
            StreamArrival::Stderr(stream) => {
                self.stderr = Some(stream);
            },
            StreamArrival::Failed(error) => {
                return Err(error);
            },
            StreamArrival::Disconnected => {
                return Err(
                    DomainError::new(
                        ErrorCode::IoError,
                        "root command output reader stopped without a result",
                    ),
                );
            },
            StreamArrival::Nothing => {},
        }
        Ok(())
    }

    /// Hands both streams out.
    pub fn finish(self) -> (streams: Result<(BoundedStream, BoundedStream), DomainError>)
        ensures
            streams == (match (self.stdout, self.stderr) {
                (Some(stdout), Some(stderr)) => Ok((stdout, stderr)),
                _ => Err(
                    DomainError {
                        code: ErrorCode::InternalError,
                        reason: "root command output collection ended without both streams",
                    },
                ),
            }),
    {
        match (self.stdout, self.stderr) {
            (Some(stdout), Some(stderr)) => Ok((stdout, stderr)),
            _ => Err(
                DomainError::new(
                    ErrorCode::InternalError,
                    "root command output collection ended without both streams",
                ),
            ),
        }
    }
}

// ---------------------------------------------------------------------------------------
// Forwarding.
// ---------------------------------------------------------------------------------------

/// Who runs a command: the daemon itself, or the application surface by these primitives.
#[derive(Clone, Copy, Debug, PartialEq, Eq)]
pub enum CommandRoute {
    Root,
    Forward { start: &'static str, cancel: &'static str },
}

/// The owner of an identity.
pub fn command_route(run_as: RunAs) -> (route: CommandRoute)
    ensures
        route == (match run_as {
            RunAs::Root => CommandRoute::Root,
            RunAs::App => CommandRoute::Forward {
                start: APP_PROCESS_START,
                cancel: APP_PROCESS_CANCEL,
            },
            RunAs::Shell => CommandRoute::Forward {
                start: SHIZUKU_PROCESS_START,
                cancel: SHIZUKU_PROCESS_CANCEL,
            },
        }),
{
    match run_as {
        RunAs::Root => CommandRoute::Root,
        RunAs::App => CommandRoute::Forward {
            start: APP_PROCESS_START,
            cancel: APP_PROCESS_CANCEL,
        },
        RunAs::Shell => CommandRoute::Forward {
            start: SHIZUKU_PROCESS_START,
            cancel: SHIZUKU_PROCESS_CANCEL,
        },
    }
}

/// Whether the application runner feeds the input itself, so that it travels inside the payload.
pub open spec fn carries_stdin(primitive: Seq<char>) -> bool {
    primitive == APP_PROCESS_START@
}

/// The payload of a forwarded command. Its input is a member of its own, if it travels there.
pub open spec fn forward_model(request: RequestModel, stdin: Option<Seq<char>>) -> JsonModel {
    let head = seq![
        ("arguments"@, text_array_model(request.arguments)),
        (
            "cwd"@,
            JsonModel::Text(
                match request.cwd {
                    Some(cwd) => cwd,
                    None => "/"@,
                },
            ),
        ),
        ("max_output_bytes"@, JsonModel::Unsigned(request.max_output_bytes)),
        ("operation"@, JsonModel::Text("process_start"@)),
        ("program"@, JsonModel::Text(request.program)),
    ];
    let timeout = ("timeout_ms"@, JsonModel::Unsigned(request.timeout_ms));
    JsonModel::Object(
        match stdin {
            Some(text) => head.push(("stdin"@, JsonModel::Text(text))).push(timeout),
            None => head.push(timeout),
        },
    )
}

/// The payload of a forwarded command. The input of an application command has to be text.
pub fn forward_payload(request: &CommandProcessRequest, primitive: &str) -> (payload: Result<
    Json,
    ExecutionFailure,
>)
    ensures
        match (request@.stdin, payload) {
            (Some(bytes), Ok(payload)) => if carries_stdin(primitive@) {
                vstd::utf8::valid_utf8(bytes) && payload@ == forward_model(
                    request@,
                    Some(vstd::utf8::decode_utf8(bytes)),
                )
            } else {
                payload@ == forward_model(request@, None)
            },
            (None, Ok(payload)) => payload@ == forward_model(request@, None),
            (stdin, Err(failure)) => {
                &&& carries_stdin(primitive@)
                &&& stdin is Some
                &&& !vstd::utf8::valid_utf8(stdin->0)
                &&& failure == ExecutionFailure {
                    error: DomainError {
                        code: ErrorCode::InvalidArgument,
                        reason: "command stdin is not UTF-8",
                    },
                    cleanup_verified: true,
                }
            },
        },
{
    let directory = working_directory(request);
    let mut members: Vec<Member> = Vec::new();
    members.push(entry("arguments", text_array(request.arguments.as_slice())));
    members.push(entry("cwd", text_value(directory.as_str())));
    members.push(entry("max_output_bytes", Json::Unsigned(request.max_output_bytes)));
    members.push(entry("operation", text_value("process_start")));
    members.push(entry("program", text_value(request.program.as_str())));
    let ghost mut stdin: Option<Seq<char>> = None;
    if same(primitive, APP_PROCESS_START) {
        if let Some(bytes) = &request.stdin {
            match utf8_text(bytes.as_slice()) {
                Some(text) => {
                    members.push(entry("stdin", text_value(text.as_str())));
                    proof {
                        stdin = Some(text@);
                    }
                },
                None => {
                    return Err(pre_start(DomainError::invalid("command stdin is not UTF-8")));
                },
            }
        }
    }
    members.push(entry("timeout_ms", Json::Unsigned(request.timeout_ms)));
    assert(member_models(members@) =~= forward_model(request@, stdin)->Object_0);
    Ok(object(members))
}

/// The wait for a forwarded command.
#[derive(Clone, Copy, Debug, PartialEq, Eq, Structural)]
pub struct Forward {
    pub deadline_ms: u64,
    pub cancelled: bool,
}

impl Forward {
    pub fn new(now_ms: u64, timeout_ms: u64) -> (forward: Self)
        requires
            now_ms + timeout_ms + FORWARD_SETTLE_MARGIN_MS <= u64::MAX,
        ensures
            forward == (Forward {
                deadline_ms: (now_ms + timeout_ms + FORWARD_SETTLE_MARGIN_MS) as u64,
                cancelled: false,
            }),
    {
        Forward {
            deadline_ms: now_ms + timeout_ms + FORWARD_SETTLE_MARGIN_MS,
            cancelled: false,
        }
    }

    /// Notes that the claim is gone and says whether the owner is to be told now: it is told once.
    pub fn cancels(&mut self, claim_lost: bool) -> (tell: bool)
        ensures
            tell == (!old(self).cancelled && claim_lost),
            *final(self) == (Forward {
                cancelled: old(self).cancelled || claim_lost,
                ..*old(self)
            }),
    {
        if !self.cancelled && claim_lost {
            self.cancelled = true;
            return true;
        }
        false
    }

    /// Whether the wait goes on without a result.
    pub fn goes_on(&self, now_ms: u64) -> (again: bool)
        ensures
            again == (now_ms < self.deadline_ms),
    {
        now_ms < self.deadline_ms
    }
}

/// Reads the reply to a forwarded command: the payload that carries its settlement. No reply at
/// all leaves the cleanup unknown; a reply never brings descriptors.
pub fn forward_reply(reply: Option<Json>, descriptors: usize) -> (payload: Result<
    Json,
    ExecutionFailure,
>)
    ensures
        payload == (match reply {
            None => Err(
                ExecutionFailure {
                    error: DomainError {
                        code: ErrorCode::Timeout,
                        reason: "forwarded command did not settle within its bound",
                    },
                    cleanup_verified: false,
                },
            ),
            Some(value) => if descriptors == 0 {
                Ok(value)
            } else {
                Err(
                    ExecutionFailure {
                        error: DomainError {
                            code: ErrorCode::InternalError,
                            reason: "forwarded command returned unexpected descriptors",
                        },
                        cleanup_verified: true,
                    },
                )
            },
        }),
{
    match reply {
        None => Err(
            ExecutionFailure {
                error: DomainError::new(
                    ErrorCode::Timeout,
                    "forwarded command did not settle within its bound",
                ),
                cleanup_verified: false,
            },
        ),
        Some(value) => {
            if descriptors != 0 {
                return Err(
                    pre_start(
                        DomainError::new(
                            ErrorCode::InternalError,
                            "forwarded command returned unexpected descriptors",
                        ),
                    ),
                );
            }
            Ok(value)
        },
    }
}

/// The path of the guard below the root of the module.
pub fn guard_path(module_root: &str) -> (path: String)
    ensures
        path@ == module_root@ + "/bin/droidbridge-exec-guard"@,
{
    crate::text::joined(module_root, "/bin/droidbridge-exec-guard")
}

/// The directory that holds the proofs of one boot.
pub fn proof_directory(base: &str, boot_id: &str) -> (path: String)
    ensures
        path@ == base@ + "/execution-guards/"@ + boot_id@,
{
    let mut path = base.to_owned();
    path.append("/execution-guards/");
    path.append(boot_id);
    path
}

/// The name of the proof of one execution.
pub fn proof_name(execution_id: &str) -> (name: String)
    ensures
        name@ == execution_id@ + ".proof"@,
{
    crate::text::joined(execution_id, ".proof")
}

// ---------------------------------------------------------------------------------------
// What a command is for.
// ---------------------------------------------------------------------------------------

/// Whether a text is the decimal number `n`.
pub open spec fn spells(text: Seq<char>, n: int) -> bool {
    if n >= 0 {
        unsigned_number(text, 10, n as nat) == Some(n as nat)
    } else {
        text.len() > 0 && text[0] == '-' && unsigned_number(text.skip(1), 10, (-n) as nat) == Some(
            (-n) as nat,
        )
    }
}

proof fn lemma_spelled(n: int)
    ensures
        n >= 0 ==> spells(decimal(n as nat), n),
        spells(signed_decimal(n), n),
{
    if n >= 0 {
        decimal_text_reads_back(n as nat, n as nat);
    } else {
        decimal_text_reads_back((-n) as nat, (-n) as nat);
        assert(signed_decimal(n).skip(1) =~= decimal((-n) as nat));
    }
}

/// A visual command presses where it is told to: the arguments are the operation and the numbers of
/// the primitive, in the order of the input program. A long press stays where it is; a swipe goes
/// from its start to its end; a text and a path are arguments of their own; the keys come in their
/// order.
pub proof fn a_visual_command_says_what_its_primitive_is(
    primitive: VisualRootPrimitive,
    command: VisualCommand,
)
    requires
        call_ensures(visual_command, (primitive,), command),
    ensures
        command.request.run_as is Root,
        command.request.stdin is None,
        command.request.cwd is Some && command.request.cwd->0@ == "/"@,
        command.requires_output <==> primitive is ScreenshotPng,
        primitive is ScreenshotPng ==> command.request.program@ == "/system/bin/screencap"@
            && command.request.arguments@.len() == 1 && command.request.arguments@[0]@ == "-p"@
            && command.request.max_output_bytes == 8_388_608,
        primitive matches VisualRootPrimitive::HierarchyDump(path) ==> command.request.program@
            == "/system/bin/uiautomator"@ && command.request.arguments@.len() == 2
            && command.request.arguments@[0]@ == "dump"@ && command.request.arguments@[1]@ == path@,
        !(primitive is ScreenshotPng) && !(primitive is HierarchyDump) ==> command.request.program@
            == "/system/bin/input"@,
        primitive matches VisualRootPrimitive::Tap { x, y } ==> {
            let given = command.request.arguments@;
            &&& given.len() == 3
            &&& given[0]@ == "tap"@
            &&& spells(given[1]@, x as int)
            &&& spells(given[2]@, y as int)
        },
        primitive matches VisualRootPrimitive::LongPress { x, y } ==> {
            let given = command.request.arguments@;
            &&& given.len() == 6
            &&& given[0]@ == "swipe"@
            &&& spells(given[1]@, x as int)
            &&& spells(given[2]@, y as int)
            &&& spells(given[3]@, x as int)
            &&& spells(given[4]@, y as int)
            &&& given[5]@ == "500"@
        },
        primitive matches VisualRootPrimitive::Swipe { from_x, from_y, to_x, to_y, duration_ms }
            ==> {
            let given = command.request.arguments@;
            &&& given.len() == 6
            &&& given[0]@ == "swipe"@
            &&& spells(given[1]@, from_x as int)
            &&& spells(given[2]@, from_y as int)
            &&& spells(given[3]@, to_x as int)
            &&& spells(given[4]@, to_y as int)
            &&& spells(given[5]@, duration_ms as int)
            &&& duration_ms <= 10_000 ==> command.request.timeout_ms == duration_ms + 5_000
            &&& duration_ms > 10_000 ==> command.request.timeout_ms == 15_000
        },
        primitive matches VisualRootPrimitive::Text(text) ==> command.request.arguments@.len() == 2
            && command.request.arguments@[0]@ == "text"@ && command.request.arguments@[1]@ == text@,
        primitive matches VisualRootPrimitive::Key(key) ==> command.request.arguments@.len() == 2
            && command.request.arguments@[0]@ == "keyevent"@ && spells(
            command.request.arguments@[1]@,
            key as int,
        ),
        primitive matches VisualRootPrimitive::KeyCombination(keys) ==> {
            let given = command.request.arguments@;
            &&& given.len() == keys@.len() + 1
            &&& given[0]@ == "keycombination"@
            &&& forall|i: int|
                0 <= i < keys@.len() ==> spells((#[trigger] given[i + 1])@, keys@[i] as int)
        },
        primitive is HierarchyDump ==> command.request.timeout_ms == 15_000,
        !(primitive is HierarchyDump) && !(primitive is Swipe) ==> command.request.timeout_ms
            == 5_000,
        !(primitive is ScreenshotPng) ==> command.request.max_output_bytes == 1_048_576,
{
    let given = command.request.arguments@;
    let models = texts(given);
    assert(models == visual_arguments(primitive));
    assert(models.len() == given.len());
    assert forall|i: int| 0 <= i < given.len() implies #[trigger] models[i] == given[i]@ by {}
    match primitive {
        VisualRootPrimitive::ScreenshotPng => {
            assert(models[0] == "-p"@);
        },
        VisualRootPrimitive::HierarchyDump(path) => {
            assert(models[0] == "dump"@ && models[1] == path@);
        },
        VisualRootPrimitive::Tap { x, y } => {
            lemma_spelled(x as int);
            lemma_spelled(y as int);
            assert(models[0] == "tap"@ && models[1] == decimal(x as nat) && models[2] == decimal(
                y as nat,
            ));
        },
        VisualRootPrimitive::LongPress { x, y } => {
            lemma_spelled(x as int);
            lemma_spelled(y as int);
            assert(models[0] == "swipe"@ && models[5] == "500"@);
            assert(models[1] == decimal(x as nat) && models[2] == decimal(y as nat));
            assert(models[3] == decimal(x as nat) && models[4] == decimal(y as nat));
        },
        VisualRootPrimitive::Swipe { from_x, from_y, to_x, to_y, duration_ms } => {
            lemma_spelled(from_x as int);
            lemma_spelled(from_y as int);
            lemma_spelled(to_x as int);
            lemma_spelled(to_y as int);
            lemma_spelled(duration_ms as int);
            assert(models[0] == "swipe"@ && models[5] == decimal(duration_ms as nat));
            assert(models[1] == decimal(from_x as nat) && models[2] == decimal(from_y as nat));
            assert(models[3] == decimal(to_x as nat) && models[4] == decimal(to_y as nat));
        },
        VisualRootPrimitive::Text(text) => {
            assert(models[0] == "text"@ && models[1] == text@);
        },
        VisualRootPrimitive::KeyCombination(keys) => {
            assert(models[0] == "keycombination"@);
            assert forall|i: int| 0 <= i < keys@.len() implies spells(
                (#[trigger] given[i + 1])@,
                keys@[i] as int,
            ) by {
                lemma_spelled(keys@[i] as int);
                assert(models[i + 1] == signed_decimal(keys@[i] as int));
            }
        },
        VisualRootPrimitive::Key(key) => {
            lemma_spelled(key as int);
            assert(models[0] == "keyevent"@ && models[1] == signed_decimal(key as int));
        },
    }
}

/// A package command lists what it is to list and stops exactly the package that it names, within
/// the bounds that it is given.
pub proof fn a_package_command_names_its_package(
    primitive: PackageRootPrimitive,
    bounds: PackageBounds,
    request: CommandProcessRequest,
)
    requires
        call_ensures(package_request, (primitive, bounds), request),
    ensures
        request.run_as is Root,
        request.stdin is None,
        request.cwd is Some && request.cwd->0@ == "/"@,
        !(primitive is ForceStop) ==> {
            &&& request.program@ == "/system/bin/cmd"@
            &&& request.arguments@.len() == 7
            &&& request.arguments@[0]@ == "package"@
            &&& request.arguments@[1]@ == "list"@
            &&& request.arguments@[2]@ == "packages"@
            &&& request.arguments@[3]@ == if primitive is ListSystem {
                "-s"@
            } else {
                "-3"@
            }
            &&& request.arguments@[4]@ == "--show-versioncode"@
            &&& request.arguments@[5]@ == "--user"@
            &&& request.arguments@[6]@ == "0"@
            &&& request.timeout_ms == bounds.list_timeout_ms
            &&& request.max_output_bytes == bounds.list_max_stdout_bytes
        },
        primitive matches PackageRootPrimitive::ForceStop(package_name) ==> {
            &&& request.program@ == "/system/bin/am"@
            &&& request.arguments@.len() == 4
            &&& request.arguments@[0]@ == "force-stop"@
            &&& request.arguments@[1]@ == "--user"@
            &&& request.arguments@[2]@ == "0"@
            &&& request.arguments@[3]@ == package_name@
            &&& request.timeout_ms == bounds.force_stop_timeout_ms
        },
{
    let given = request.arguments@;
    let models = texts(given);
    assert(models.len() == given.len());
    assert forall|i: int| 0 <= i < given.len() implies #[trigger] models[i] == given[i]@ by {}
    assert(models == package_request_model(primitive, bounds).arguments);
    match primitive {
        PackageRootPrimitive::ForceStop(package_name) => {
            assert(models[0] == "force-stop"@ && models[1] == "--user"@ && models[2] == "0"@
                && models[3] == package_name@);
        },
        _ => {
            assert(models[0] == "package"@ && models[1] == "list"@ && models[2] == "packages"@);
            assert(models[4] == "--show-versioncode"@ && models[5] == "--user"@ && models[6]
                == "0"@);
            assert(models[3] == if primitive is ListSystem {
                "-s"@
            } else {
                "-3"@
            });
        },
    }
}

/// A package command has a result exactly if it ended by itself with exit code zero and its output
/// was kept whole, and the result is that output. What failed is told by how the command ended.
pub proof fn only_a_whole_listing_is_a_result(
    settlement: CommandProcessSettlement,
    result: Result<Vec<u8>, ExecutionFailure>,
)
    requires
        call_ensures(package_result, (settlement,), result),
    ensures
        result is Ok <==> settlement.outcome.cause is Exited && settlement.outcome.exit_code
            is Some && settlement.outcome.exit_code->0 == 0 && !settlement.outcome.stdout_truncated,
        result matches Ok(listing) ==> listing@ == settlement.outcome.stdout@,
        result matches Err(failure) ==> {
            &&& failure.cleanup_verified == settlement.cleanup_verified
            &&& settlement.outcome.cause is Timeout <==> failure.error.code is Timeout
            &&& (settlement.outcome.cause is Cancelled || settlement.outcome.cause is OwnerLost)
                <==> failure.error.code is Cancelled
            &&& settlement.outcome.cause is Exited <==> failure.error.code is IoError
        },
{
}

/// A visual command succeeded exactly if it ended by itself with exit code zero and nothing of its
/// output was dropped. The input program that ends with another code refused the event.
pub proof fn a_visual_command_succeeds_by_itself(
    program: &str,
    settlement: CommandProcessSettlement,
    result: Result<(), ExecutionFailure>,
)
    requires
        call_ensures(visual_result, (program, &settlement), result),
    ensures
        result is Ok <==> settlement.outcome.cause is Exited && settlement.outcome.exit_code
            is Some && settlement.outcome.exit_code->0 == 0 && !settlement.outcome.stdout_truncated
            && !settlement.outcome.stderr_truncated,
        result matches Err(failure) ==> {
            &&& failure.cleanup_verified == settlement.cleanup_verified
            &&& settlement.outcome.cause is Timeout <==> failure.error.code is Timeout
            &&& (settlement.outcome.cause is Cancelled || settlement.outcome.cause is OwnerLost)
                <==> failure.error.code is Cancelled
            &&& failure.error.code is ExecutionFailed <==> settlement.outcome.cause is Exited
                && program@ == "/system/bin/input"@
            &&& failure.error.code is IoError <==> settlement.outcome.cause is Exited && program@
                != "/system/bin/input"@
        },
{
}

/// A guard gets the numbers of its two descriptors by name, and after two dashes the command as it
/// is: its program first, then each of its arguments in order.
pub proof fn a_guard_runs_the_command_that_it_is_given(
    proof_fd: i32,
    lifetime_fd: i32,
    request: CommandProcessRequest,
    made: Vec<String>,
)
    requires
        call_ensures(guard_arguments, (proof_fd, lifetime_fd, &request), made),
    ensures
        made@.len() == 6 + request.arguments@.len(),
        made@[0]@ == "--proof-fd"@,
        spells(made@[1]@, proof_fd as int),
        made@[2]@ == "--lifetime-fd"@,
        spells(made@[3]@, lifetime_fd as int),
        made@[4]@ == "--"@,
        made@[5]@ == request.program@,
        forall|i: int|
            0 <= i < request.arguments@.len() ==> (#[trigger] made@[6 + i])@
                == request.arguments@[i]@,
{
    let models = texts(made@);
    lemma_spelled(proof_fd as int);
    lemma_spelled(lifetime_fd as int);
    assert(models.len() == made@.len());
    assert(models[0] == made@[0]@ && models[1] == made@[1]@ && models[2] == made@[2]@ && models[3]
        == made@[3]@ && models[4] == made@[4]@ && models[5] == made@[5]@);
    assert forall|i: int| 0 <= i < request.arguments@.len() implies (#[trigger] made@[6 + i])@
        == request.arguments@[i]@ by {
        assert(models[6 + i] == texts(request.arguments@)[i]);
    }
}

/// A proof stands for a verified cleanup exactly if it carries a record, and the record is what is
/// told of the command. Whatever else a proof shows is in doubt, and the doubt is noted for good.
pub proof fn only_a_record_verifies_a_cleanup(recovery: GuardRecovery)
    ensures
        settlement_of(recovery).cleanup_verified <==> recovery is Clean && recovery->clean is Some,
        settlement_of(recovery).cleanup_verified ==> {
            &&& settlement_of(recovery).cause == Some(recovery->clean->0.cause)
            &&& settlement_of(recovery).shell_exit_code == recovery->clean->0.shell_exit_code
        },
        !settlement_of(recovery).cleanup_verified ==> settlement_of(recovery).cause is None
            && settlement_of(recovery).shell_exit_code is None,
        forall|quarantine: &mut CommandQuarantine, settlement: GuardSettlement| #[trigger]
            call_ensures(settle, (recovery, quarantine), settlement) ==> settlement
                == settlement_of(recovery) && final(quarantine).flagged == (
            quarantine.flagged || !settlement.cleanup_verified),
{
}

/// The wait for a guard. A guard that ended is told by its own code, or by the signal that ended it.
/// One that runs is signalled once: with the signal of a cancellation, or of a timeout if the
/// deadline passed first, and only the latter makes it late. Six seconds after that it is killed.
pub proof fn a_guard_is_signalled_once_and_then_killed(
    now_ms: u64,
    child: ChildState,
    cancelled: bool,
)
    ensures
        forall|reap: &mut Reap, action: ReapAction| #[trigger]
            call_ensures(Reap::step, (reap, now_ms, child, cancelled), action) ==> {
                &&& final(reap).deadline_ms == reap.deadline_ms
                &&& child matches ChildState::Ended { code, signal } ==> {
                    &&& *final(reap) == *reap
                    &&& action is Finished
                    &&& action->Finished_0.timed_out == reap.timed_out
                    &&& code is Some ==> action->Finished_0.exit_code == code
                    &&& code is None && signal is None ==> action->Finished_0.exit_code is None
                    &&& code is None && signal is Some && 0 <= signal->0 <= i32::MAX - 128 ==> {
                        &&& action->Finished_0.exit_code is Some
                        &&& action->Finished_0.exit_code->0 == 128 + signal->0
                    }
                }
                &&& child is Unobservable ==> *final(reap) == *reap && action is Failed
                &&& child is Running && reap.signalled_ms is None && cancelled ==> action
                    == ReapAction::Signal(15) && final(reap).signalled_ms == Some(now_ms)
                    && !final(reap).timed_out
                &&& child is Running && reap.signalled_ms is None && !cancelled && now_ms
                    >= reap.deadline_ms ==> action == ReapAction::Signal(14) && final(reap).signalled_ms == Some(now_ms) && final(reap).timed_out
                &&& child is Running && reap.signalled_ms is None && !cancelled && now_ms
                    < reap.deadline_ms ==> action is Wait && *final(reap) == *reap
                &&& child is Running && reap.signalled_ms is Some ==> *final(reap) == *reap && if now_ms
                    - reap.signalled_ms->0 >= 6_000 {
                    action is Kill && action->Kill_0.exit_code is None && action->Kill_0.timed_out
                        == reap.timed_out
                } else {
                    action is Wait
                }
            },
{
}

/// What is kept of a stream is its beginning: as much of it as there is, up to the limit, and it is
/// marked as truncated from the first byte that was dropped.
pub proof fn a_stream_keeps_its_beginning(chunk: &[u8], limit: usize)
    ensures
        forall|stream: &mut BoundedStream, done: ()| #[trigger]
            call_ensures(BoundedStream::retain, (stream, chunk, limit), done)
                && stream.bytes@.len() <= limit ==> {
                let all = stream.bytes@ + chunk@;
                &&& final(stream).bytes@.len() <= limit
                &&& final(stream).bytes@.len() == all.len() || final(stream).bytes@.len() == limit
                &&& final(stream).bytes@.len() <= all.len()
                &&& forall|i: int|
                    0 <= i < final(stream).bytes@.len() ==> #[trigger] final(stream).bytes@[i]
                        == all[i]
                &&& final(stream).truncated <==> stream.truncated || all.len() > limit
            },
        forall|bytes: Seq<u8>| 0 <= limit ==> #[trigger] bounded(bytes, limit as int).len() <= limit,
{
}

/// A reader keeps what it reads, goes on when nothing came, and ends at the end of its stream, or
/// where it was told to stop and nothing is left.
pub proof fn a_reader_goes_on_to_the_end(event: StreamEvent, step: StreamStep, other: StreamStep)
    requires
        call_ensures(drain_step, (event,), step),
        call_ensures(file_drain_step, (event,), other),
    ensures
        step is Retain <==> event is Data,
        step is Done <==> event is EndOfFile || (event matches StreamEvent::Quiet { stopped }
            && stopped),
        step is Again <==> event is Interrupted || (event matches StreamEvent::Quiet { stopped }
            && !stopped),
        step is Failed <==> event is PollFailed || event is ReadFailed,
        step is Failed ==> step->Failed_0.code is IoError,
        other is Retain <==> step is Retain,
        other is Done <==> step is Done,
        other is Again <==> step is Again,
{
}

/// Each of the two collected streams is the one that arrived as such.
pub proof fn streams_are_not_exchanged(
    stdout: BoundedStream,
    stderr: BoundedStream,
    deadline_ms: u64,
    forced: bool,
    streams: Result<(BoundedStream, BoundedStream), DomainError>,
)
    requires
        call_ensures(
            StreamCollection::finish,
            (
                StreamCollection {
                    stdout: Some(stdout),
                    stderr: Some(stderr),
                    deadline_ms,
                    forced,
                },
            ),
            streams,
        ),
    ensures
        streams is Ok,
        streams->Ok_0.0 == stdout,
        streams->Ok_0.1 == stderr,
        forall|collection: &mut StreamCollection, stream: BoundedStream, taken: Result<(), DomainError>|
            #[trigger] call_ensures(
                StreamCollection::accept,
                (collection, StreamArrival::Stdout(stream)),
                taken,
            ) ==> final(collection).stdout == Some(stream) && final(collection).stderr
                == collection.stderr && taken is Ok,
        forall|collection: &mut StreamCollection, stream: BoundedStream, taken: Result<(), DomainError>|
            #[trigger] call_ensures(
                StreamCollection::accept,
                (collection, StreamArrival::Stderr(stream)),
                taken,
            ) ==> final(collection).stderr == Some(stream) && final(collection).stdout
                == collection.stdout && taken is Ok,
{
}

/// A wait for a reader ends with the deadline, and lasts at least a millisecond. The readers are told
/// to stop once, and get half a second for it.
pub proof fn a_collection_waits_until_its_deadline(now_ms: u64)
    requires
        now_ms + 500 <= u64::MAX,
    ensures
        forall|collection: &mut StreamCollection, action: CollectAction| #[trigger]
            call_ensures(StreamCollection::proceed, (collection, now_ms), action) ==> {
                &&& action is Complete <==> collection.stdout is Some && collection.stderr is Some
                &&& action matches CollectAction::Wait(wait) ==> now_ms < collection.deadline_ms
                    && now_ms + wait == collection.deadline_ms
                &&& action matches CollectAction::Stop(wait) ==> wait == 500 && !collection.forced
                    && now_ms >= collection.deadline_ms && final(collection).forced && final(collection).deadline_ms == now_ms + wait
                &&& action is Failed ==> collection.forced && now_ms >= collection.deadline_ms
                &&& action is Complete || action is Wait || action is Failed ==> *final(collection)
                    == *collection
            },
{
}

/// Root commands stay with the daemon; any other command goes to the surface of its own identity,
/// by the primitives that start and cancel there.
pub proof fn a_command_goes_to_its_own_surface(run_as: RunAs, route: CommandRoute)
    requires
        call_ensures(command_route, (run_as,), route),
    ensures
        run_as is Root <==> route is Root,
        run_as is App ==> route->start@ == "AppProcessStart"@ && route->cancel@
            == "AppProcessCancel"@,
        run_as is Shell ==> route->start@ == "ShizukuProcessStart"@ && route->cancel@
            == "ShizukuProcessCancel"@,
{
}

/// A forwarded command is the requested one: its program, its arguments in order, its directory, its
/// bounds, and its input exactly if the application feeds it, which needs it to be text.
pub proof fn a_forwarded_command_is_the_requested_one(
    request: CommandProcessRequest,
    primitive: &str,
    payload: Result<Json, ExecutionFailure>,
)
    requires
        call_ensures(forward_payload, (&request, primitive), payload),
    ensures
        payload is Err <==> primitive@ == "AppProcessStart"@ && request.stdin is Some
            && !vstd::utf8::valid_utf8(request.stdin->0@),
        payload matches Ok(payload) ==> {
            &&& payload@.get("operation"@) == Some(JsonModel::Text("process_start"@))
            &&& payload@.get("program"@) == Some(JsonModel::Text(request.program@))
            &&& payload@.get("timeout_ms"@) == Some(JsonModel::Unsigned(request.timeout_ms))
            &&& payload@.get("max_output_bytes"@) == Some(
                JsonModel::Unsigned(request.max_output_bytes),
            )
            &&& payload@.get("cwd"@) == Some(
                JsonModel::Text(
                    match request.cwd {
                        Some(cwd) => cwd@,
                        None => "/"@,
                    },
                ),
            )
            &&& payload@.get("arguments"@) is Some
            &&& payload@.get("arguments"@)->0 is Array
            &&& payload@.get("arguments"@)->0->Array_0.len() == request.arguments@.len()
            &&& forall|i: int|
                0 <= i < request.arguments@.len() ==> payload@.get(
                    "arguments"@,
                )->0->Array_0[i] == JsonModel::Text((#[trigger] request.arguments@[i])@)
            &&& payload@.get("stdin"@) == (if primitive@ == "AppProcessStart"@ && request.stdin
                is Some {
                Some(JsonModel::Text(vstd::utf8::decode_utf8(request.stdin->0@)))
            } else {
                None
            })
        },
{
    if payload is Ok {
        let carried = primitive@ == "AppProcessStart"@ && request.stdin is Some;
        let stdin = if carried {
            Some(vstd::utf8::decode_utf8(request.stdin->0@))
        } else {
            None
        };
        let members = forward_model(request@, stdin)->Object_0;
        assert(payload->Ok_0@ == JsonModel::Object(members));
        assert("arguments"@ != "cwd"@) by {
            reveal_strlit("arguments");
            reveal_strlit("cwd");
            assert("arguments"@.len() != "cwd"@.len());
        }
        assert("arguments"@ != "max_output_bytes"@) by {
            reveal_strlit("arguments");
            reveal_strlit("max_output_bytes");
            assert("arguments"@.len() != "max_output_bytes"@.len());
        }
        assert("arguments"@ != "operation"@) by {
            reveal_strlit("arguments");
            reveal_strlit("operation");
            assert("arguments"@[0] != "operation"@[0]);
        }
        assert("arguments"@ != "program"@) by {
            reveal_strlit("arguments");
            reveal_strlit("program");
            assert("arguments"@.len() != "program"@.len());
        }
        assert("arguments"@ != "stdin"@) by {
            reveal_strlit("arguments");
            reveal_strlit("stdin");
            assert("arguments"@.len() != "stdin"@.len());
        }
        assert("arguments"@ != "timeout_ms"@) by {
            reveal_strlit("arguments");
            reveal_strlit("timeout_ms");
            assert("arguments"@.len() != "timeout_ms"@.len());
        }
        assert("cwd"@ != "max_output_bytes"@) by {
            reveal_strlit("cwd");
            reveal_strlit("max_output_bytes");
            assert("cwd"@.len() != "max_output_bytes"@.len());
        }
        assert("cwd"@ != "operation"@) by {
            reveal_strlit("cwd");
            reveal_strlit("operation");
            assert("cwd"@.len() != "operation"@.len());
        }
        assert("cwd"@ != "program"@) by {
            reveal_strlit("cwd");
            reveal_strlit("program");
            assert("cwd"@.len() != "program"@.len());
        }
        assert("cwd"@ != "stdin"@) by {
            reveal_strlit("cwd");
            reveal_strlit("stdin");
            assert("cwd"@.len() != "stdin"@.len());
        }
        assert("cwd"@ != "timeout_ms"@) by {
            reveal_strlit("cwd");
            reveal_strlit("timeout_ms");
            assert("cwd"@.len() != "timeout_ms"@.len());
        }
        assert("max_output_bytes"@ != "operation"@) by {
            reveal_strlit("max_output_bytes");
            reveal_strlit("operation");
            assert("max_output_bytes"@.len() != "operation"@.len());
        }
        assert("max_output_bytes"@ != "program"@) by {
            reveal_strlit("max_output_bytes");
            reveal_strlit("program");
            assert("max_output_bytes"@.len() != "program"@.len());
        }
        assert("max_output_bytes"@ != "stdin"@) by {
            reveal_strlit("max_output_bytes");
            reveal_strlit("stdin");
            assert("max_output_bytes"@.len() != "stdin"@.len());
        }
        assert("max_output_bytes"@ != "timeout_ms"@) by {
            reveal_strlit("max_output_bytes");
            reveal_strlit("timeout_ms");
            assert("max_output_bytes"@.len() != "timeout_ms"@.len());
        }
        assert("operation"@ != "program"@) by {
            reveal_strlit("operation");
            reveal_strlit("program");
            assert("operation"@.len() != "program"@.len());
        }
        assert("operation"@ != "stdin"@) by {
            reveal_strlit("operation");
            reveal_strlit("stdin");
            assert("operation"@.len() != "stdin"@.len());
        }
        assert("operation"@ != "timeout_ms"@) by {
            reveal_strlit("operation");
            reveal_strlit("timeout_ms");
            assert("operation"@.len() != "timeout_ms"@.len());
        }
        assert("program"@ != "stdin"@) by {
            reveal_strlit("program");
            reveal_strlit("stdin");
            assert("program"@.len() != "stdin"@.len());
        }
        assert("program"@ != "timeout_ms"@) by {
            reveal_strlit("program");
            reveal_strlit("timeout_ms");
            assert("program"@.len() != "timeout_ms"@.len());
        }
        assert("stdin"@ != "timeout_ms"@) by {
            reveal_strlit("stdin");
            reveal_strlit("timeout_ms");
            assert("stdin"@.len() != "timeout_ms"@.len());
        }
        lemma_member_at(members, 0);
        lemma_member_at(members, 1);
        lemma_member_at(members, 2);
        lemma_member_at(members, 3);
        lemma_member_at(members, 4);
        lemma_member_at(members, 5);
        if carried {
            lemma_member_at(members, 6);
        } else {
            reveal_with_fuel(member, 8);
        }
        assert forall|i: int| 0 <= i < request.arguments@.len() implies members[0].1->Array_0[i]
            == JsonModel::Text((#[trigger] request.arguments@[i])@) by {
            assert(texts(request.arguments@)[i] == request.arguments@[i]@);
        }
    }
}

/// An installer of the daemon's own maintenance runs as root, in the root directory, without input,
/// for at most five minutes and with at most 65536 bytes of output, with its own arguments.
pub proof fn an_installer_runs_as_it_is_given(
    program: &str,
    arguments: Vec<String>,
    request: CommandProcessRequest,
)
    requires
        call_ensures(maintenance_request, (program, arguments), request),
    ensures
        request.run_as is Root,
        request.program@ == program@,
        request.arguments@.len() == arguments@.len(),
        forall|i: int|
            0 <= i < arguments@.len() ==> (#[trigger] request.arguments@[i])@ == arguments@[i]@,
        request.cwd is Some && request.cwd->0@ == "/"@,
        request.stdin is None,
        request.timeout_ms == 300_000,
        request.max_output_bytes == 65_536,
{
    let made = texts(request.arguments@);
    let given = texts(arguments@);
    assert(request@.arguments == given);
    assert(made.len() == request.arguments@.len() && given.len() == arguments@.len());
    assert forall|i: int| 0 <= i < arguments@.len() implies (#[trigger] request.arguments@[i])@
        == arguments@[i]@ by {
        assert(made[i] == request.arguments@[i]@ && given[i] == arguments@[i]@);
    }
}

} // verus!
