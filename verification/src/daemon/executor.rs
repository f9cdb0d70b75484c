//! Who may run a root primitive, and the processes that the primitives stand for.

use crate::contract::common::{ErrorCode, UuidV4};
use crate::error::DomainError;
use crate::text::{chars_of, contains_char, owned_texts, slices, texts};
use vstd::prelude::*;

verus! {

pub const PACKAGE_PRIMITIVE_TIMEOUT_MS: u64 = 15_000;

pub const PACKAGE_PRIMITIVE_OUTPUT_BYTES: usize = 8_388_608;

#[derive(Clone, Copy, Debug, PartialEq, Eq, Hash, Structural)]
pub enum MagiskPrimitiveFamily {
    Process,
    Filesystem,
    NetworkCapture,
    NetworkInjection,
    VisualCapture,
    Input,
    Package,
    PrivilegedAndroid,
}

/// The owner that a primitive is run for: one runtime of one host, at one generation of its
/// source.
#[derive(Debug, PartialEq, Eq)]
pub struct MagiskExecutorFence {
    pub runtime_epoch: UuidV4,
    pub host_generation: u64,
    pub runtime_instance_id: UuidV4,
    pub source_generation: u64,
}

/// What a fence is.
pub struct FenceModel {
    pub runtime_epoch: Seq<char>,
    pub host_generation: u64,
    pub runtime_instance_id: Seq<char>,
    pub source_generation: u64,
}

impl View for MagiskExecutorFence {
    type V = FenceModel;

    open spec fn view(&self) -> FenceModel {
        FenceModel {
            runtime_epoch: self.runtime_epoch@,
            host_generation: self.host_generation,
            runtime_instance_id: self.runtime_instance_id@,
            source_generation: self.source_generation,
        }
    }
}

impl Clone for MagiskExecutorFence {
    fn clone(&self) -> (copy: Self)
        ensures
            copy == *self,
    {
        MagiskExecutorFence {
            runtime_epoch: self.runtime_epoch.clone(),
            host_generation: self.host_generation,
            runtime_instance_id: self.runtime_instance_id.clone(),
            source_generation: self.source_generation,
        }
    }
}

impl MagiskExecutorFence {
    /// Whether two fences are the same.
    pub fn same_as(&self, other: &MagiskExecutorFence) -> (equal: bool)
        ensures
            equal == (self@ == other@),
    {
        self.runtime_epoch.same_as(&other.runtime_epoch) && self.host_generation
            == other.host_generation && self.runtime_instance_id.same_as(
            &other.runtime_instance_id,
        ) && self.source_generation == other.source_generation
    }
}

/// The right to run primitives for one owner.
#[derive(Debug, PartialEq, Eq)]
pub struct MagiskExecutorHandle {
    fence: MagiskExecutorFence,
    helper_generation: Option<u64>,
}

impl MagiskExecutorHandle {
    pub closed spec fn spec_fence(self) -> MagiskExecutorFence {
        self.fence
    }

    pub closed spec fn spec_helper_generation(self) -> Option<u64> {
        self.helper_generation
    }

    /// Whether a handle can be made of these generations: none of them is zero.
    pub open spec fn generations_fit(
        fence: MagiskExecutorFence,
        helper_generation: Option<u64>,
    ) -> bool {
        fence.host_generation != 0 && fence.source_generation != 0 && helper_generation != Some(
            0u64,
        )
    }

    pub fn new(fence: MagiskExecutorFence, helper_generation: Option<u64>) -> (handle: Result<
        Self,
        DomainError,
    >)
        ensures
            handle is Ok <==> Self::generations_fit(fence, helper_generation),
            match handle {
                Ok(handle) => handle.spec_fence() == fence && handle.spec_helper_generation()
                    == helper_generation,
                Err(error) => error == (DomainError {
                    code: ErrorCode::InvalidArgument,
                    reason: "invalid Magisk executor generation fence",
                }),
            },
    {
        let helper_is_zero = match helper_generation {
            Some(generation) => generation == 0,
            None => false,
        };
        if fence.host_generation == 0 || fence.source_generation == 0 || helper_is_zero {
            return Err(DomainError::invalid("invalid Magisk executor generation fence"));
        }
        Ok(MagiskExecutorHandle { fence, helper_generation })
    }

    /// Whether a primitive of `family` may be run for the owner `expected`.
    pub fn authorize(&self, expected: &MagiskExecutorFence, family: MagiskPrimitiveFamily) -> (
        authorized: Result<(), DomainError>)
        ensures
            authorized == (if self.spec_fence()@ != expected@ {
                Err(
                    DomainError {
                        code: ErrorCode::StaleAuthority,
                        reason: "Magisk primitive fence is stale",
                    },
                )
            } else if family is PrivilegedAndroid && self.spec_helper_generation() is None {
                Err(
                    DomainError {
                        code: ErrorCode::CapabilityUnavailable,
                        reason: "Magisk framework helper is unavailable",
                    },
                )
            } else {
                Ok(())
            }),
    {
        if !self.fence.same_as(expected) {
            return Err(
                DomainError::new(ErrorCode::StaleAuthority, "Magisk primitive fence is stale"),
            );
        }
        if family == MagiskPrimitiveFamily::PrivilegedAndroid && self.helper_generation.is_none() {
            return Err(
                DomainError::new(
                    ErrorCode::CapabilityUnavailable,
                    "Magisk framework helper is unavailable",
                ),
            );
        }
        Ok(())
    }

    /// The same right without the helper.
    pub fn without_helper(&self) -> (handle: Self)
        ensures
            handle.spec_fence() == self.spec_fence(),
            handle.spec_helper_generation() is None,
    {
        MagiskExecutorHandle { fence: self.fence.clone(), helper_generation: None }
    }

    pub fn fence(&self) -> (fence: &MagiskExecutorFence)
        ensures
            *fence == self.spec_fence(),
    {
        &self.fence
    }
}

#[derive(Clone, Copy, Debug, PartialEq, Eq, Structural)]
pub enum PackageListKind {
    ThirdParty,
    System,
}

/// A fixed program with the arguments that a primitive may give it.
#[derive(Debug, PartialEq, Eq)]
pub struct PrimitiveProcessPlan {
    program: &'static str,
    arguments: Vec<String>,
    family: MagiskPrimitiveFamily,
    fixed_timeout_ms: Option<u64>,
    fixed_output_bytes: Option<usize>,
}

/// What a plan is.
pub struct PlanModel {
    pub program: Seq<char>,
    pub arguments: Seq<Seq<char>>,
    pub family: MagiskPrimitiveFamily,
    pub fixed_timeout_ms: Option<u64>,
    pub fixed_output_bytes: Option<usize>,
}

impl View for PrimitiveProcessPlan {
    type V = PlanModel;

    closed spec fn view(&self) -> PlanModel {
        PlanModel {
            program: self.program@,
            arguments: texts(self.arguments@),
            family: self.family,
            fixed_timeout_ms: self.fixed_timeout_ms,
            fixed_output_bytes: self.fixed_output_bytes,
        }
    }
}

/// A plan whose bounds the caller sets.
pub open spec fn open_plan(
    program: Seq<char>,
    arguments: Seq<Seq<char>>,
    family: MagiskPrimitiveFamily,
) -> PlanModel {
    PlanModel { program, arguments, family, fixed_timeout_ms: None, fixed_output_bytes: None }
}

/// A package plan, whose bounds are fixed.
pub open spec fn package_plan(program: Seq<char>, arguments: Seq<Seq<char>>) -> PlanModel {
    PlanModel {
        program,
        arguments,
        family: MagiskPrimitiveFamily::Package,
        fixed_timeout_ms: Some(PACKAGE_PRIMITIVE_TIMEOUT_MS),
        fixed_output_bytes: Some(PACKAGE_PRIMITIVE_OUTPUT_BYTES),
    }
}

/// Whether a text can be handed to a shell at all: it is not empty and has no NUL.
pub open spec fn runnable(command: Seq<char>) -> bool {
    command.len() > 0 && !command.contains('\0')
}

/// Whether an argument of the input program is acceptable.
pub open spec fn input_argument(argument: Seq<char>) -> bool {
    runnable(argument) && vstd::utf8::encode_utf8(argument).len() <= 4_096
}

impl PrimitiveProcessPlan {
    pub fn root_shell(command: String) -> (plan: Result<Self, DomainError>)
        ensures
            plan is Ok <==> runnable(command@),
            match plan {
                Ok(plan) => plan@ == open_plan(
                    "/system/bin/sh"@,
                    seq!["-c"@, command@],
                    MagiskPrimitiveFamily::Process,
                ),
                Err(error) => error == (DomainError {
                    code: ErrorCode::InvalidArgument,
                    reason: "invalid root command",
                }),
            },
    {
        if command.as_str().is_empty() || contains_char(command.as_str(), '\0') {
            return Err(DomainError::invalid("invalid root command"));
        }
        let parts = ["-c", command.as_str()];
        assert(slices(parts@) =~= seq!["-c"@, command@]);
        Ok(
            PrimitiveProcessPlan {
                program: "/system/bin/sh",
                arguments: owned_texts(&parts),
                family: MagiskPrimitiveFamily::Process,
                fixed_timeout_ms: None,
                fixed_output_bytes: None,
            },
        )
    }

    pub fn screen_capture() -> (plan: Self)
        ensures
            plan@ == open_plan(
                "/system/bin/screencap"@,
                Seq::empty(),
                MagiskPrimitiveFamily::VisualCapture,
            ),
    {
        let arguments: Vec<String> = Vec::new();
        assert(texts(arguments@) =~= Seq::empty());
        PrimitiveProcessPlan {
            program: "/system/bin/screencap",
            arguments,
            family: MagiskPrimitiveFamily::VisualCapture,
            fixed_timeout_ms: None,
            fixed_output_bytes: None,
        }
    }

    /// Whether the input program may be run with these arguments.
    pub open spec fn inputs(arguments: Seq<Seq<char>>) -> bool {
        &&& 1 <= arguments.len() <= 16
        &&& forall|i: int| 0 <= i < arguments.len() ==> input_argument(#[trigger] arguments[i])
    }

    pub fn input(arguments: Vec<String>) -> (plan: Result<Self, DomainError>)
        ensures
            plan is Ok <==> Self::inputs(texts(arguments@)),
            match plan {
                Ok(plan) => plan@ == open_plan(
                    "/system/bin/input"@,
                    texts(arguments@),
                    MagiskPrimitiveFamily::Input,
                ),
                Err(error) => error == (DomainError {
                    code: ErrorCode::InvalidArgument,
                    reason: "invalid input primitive arguments",
                }),
            },
    {
        let ghost models = texts(arguments@);
        if arguments.len() == 0 || arguments.len() > 16 {
            return Err(DomainError::invalid("invalid input primitive arguments"));
        }
        for i in 0..arguments.len()
            invariant
                models == texts(arguments@),
                forall|k: int| 0 <= k < i ==> input_argument(#[trigger] models[k]),
        {
            assert(models[i as int] == arguments@[i as int]@);
            let argument = arguments[i].as_str();
            if argument.is_empty() || argument.as_bytes().len() > 4_096 || contains_char(
                argument,
                '\0',
            ) {
                assert(!input_argument(models[i as int]));
                return Err(DomainError::invalid("invalid input primitive arguments"));
            }
        }
        Ok(
            PrimitiveProcessPlan {
                program: "/system/bin/input",
                arguments,
                family: MagiskPrimitiveFamily::Input,
                fixed_timeout_ms: None,
                fixed_output_bytes: None,
            },
        )
    }

    pub fn package_list(kind: PackageListKind) -> (plan: Self)
        ensures
            plan@ == package_plan(
                "/system/bin/cmd"@,
                crate::daemon::command::package_list_arguments(
                    match kind {
                        PackageListKind::ThirdParty => "-3"@,
                        PackageListKind::System => "-s"@,
                    },
                ),
            ),
    {
        let selector = match kind {
            PackageListKind::ThirdParty => "-3",
            PackageListKind::System => "-s",
        };
        PrimitiveProcessPlan {
            program: "/system/bin/cmd",
            arguments: crate::daemon::command::package_list(selector),
            family: MagiskPrimitiveFamily::Package,
            fixed_timeout_ms: Some(PACKAGE_PRIMITIVE_TIMEOUT_MS),
            fixed_output_bytes: Some(PACKAGE_PRIMITIVE_OUTPUT_BYTES),
        }
    }

    pub fn package_force_stop(package_name: String) -> (plan: Result<Self, DomainError>)
        ensures
            plan is Ok <==> is_package_name(package_name@),
            match plan {
                Ok(plan) => plan@ == package_plan(
                    "/system/bin/am"@,
                    seq!["force-stop"@, "--user"@, "0"@, package_name@],
                ),
                Err(error) => error == (DomainError {
                    code: ErrorCode::InvalidArgument,
                    reason: "invalid package name",
                }),
            },
    {
        if !valid_package_name(package_name.as_str()) {
            return Err(DomainError::invalid("invalid package name"));
        }
        let parts = ["force-stop", "--user", "0", package_name.as_str()];
        assert(slices(parts@) =~= seq!["force-stop"@, "--user"@, "0"@, package_name@]);
        Ok(
            PrimitiveProcessPlan {
                program: "/system/bin/am",
                arguments: owned_texts(&parts),
                family: MagiskPrimitiveFamily::Package,
                fixed_timeout_ms: Some(PACKAGE_PRIMITIVE_TIMEOUT_MS),
                fixed_output_bytes: Some(PACKAGE_PRIMITIVE_OUTPUT_BYTES),
            },
        )
    }

    pub fn program(&self) -> (program: &'static str)
        ensures
            program@ == self@.program,
    {
        self.program
    }

    pub fn arguments(&self) -> (arguments: &[String])
        ensures
            texts(arguments@) == self@.arguments,
    {
        self.arguments.as_slice()
    }

    pub fn family(&self) -> (family: MagiskPrimitiveFamily)
        ensures
            family == self@.family,
    {
        self.family
    }

    pub fn fixed_timeout_ms(&self) -> (timeout: Option<u64>)
        ensures
            timeout == self@.fixed_timeout_ms,
    {
        self.fixed_timeout_ms
    }

    pub fn fixed_output_bytes(&self) -> (bytes: Option<usize>)
        ensures
            bytes == self@.fixed_output_bytes,
    {
        self.fixed_output_bytes
    }
}

pub open spec fn is_ascii_letter(c: char) -> bool {
    ('a' <= c && c <= 'z') || ('A' <= c && c <= 'Z')
}

/// Whether a character may begin a segment of a package name.
pub open spec fn begins_segment(c: char) -> bool {
    is_ascii_letter(c) || c == '_'
}

/// Whether a character may stand inside a segment of a package name.
pub open spec fn within_segment(c: char) -> bool {
    begins_segment(c) || ('0' <= c && c <= '9')
}

/// Whether the character at `i` may stand where it does: a dot ends a segment, and a segment has
/// at least one character.
pub open spec fn fits_name(name: Seq<char>, i: int) -> bool {
    if name[i] == '.' {
        i > 0 && name[i - 1] != '.'
    } else if i == 0 || name[i - 1] == '.' {
        begins_segment(name[i])
    } else {
        within_segment(name[i])
    }
}

/// Whether `name` is a package name: at least two segments with dots between them, each of them
/// beginning with a letter or an underscore and going on with letters, digits and underscores, and
/// at most 255 bytes in all.
pub open spec fn is_package_name(name: Seq<char>) -> bool {
    &&& vstd::utf8::encode_utf8(name).len() <= 255
    &&& name.contains('.')
    &&& name.len() > 0 && name.last() != '.'
    &&& forall|i: int| 0 <= i < name.len() ==> #[trigger] fits_name(name, i)
}

fn letter(c: char) -> (yes: bool)
    ensures
        yes == is_ascii_letter(c),
{
    ('a' <= c && c <= 'z') || ('A' <= c && c <= 'Z')
}

/// Whether a text is a package name.
pub fn valid_package_name(value: &str) -> (valid: bool)
    ensures
        valid == is_package_name(value@),
{
    if value.as_bytes().len() > 255 || !contains_char(value, '.') {
        return false;
    }
    let name = chars_of(value);
    if name.len() == 0 || name[name.len() - 1] == '.' {
        return false;
    }
    for i in 0..name.len()
        invariant
            name@ == value@,
            forall|k: int| 0 <= k < i ==> #[trigger] fits_name(value@, k),
    {
        let c = name[i];
        let begins = i == 0 || name[i - 1] == '.';
        let fits = if c == '.' {
            !begins
        } else if begins {
            letter(c) || c == '_'
        } else {
            letter(c) || c == '_' || ('0' <= c && c <= '9')
        };
        assert(fits == fits_name(value@, i as int));
        if !fits {
            return false;
        }
    }
    true
}

// ---------------------------------------------------------------------------------------
// Laws.
// ---------------------------------------------------------------------------------------

/// A primitive runs only for the very owner that the right was given for: another epoch, host
/// generation, instance or source generation is refused, and so is a privileged one without the
/// helper. No generation of a right is zero.
pub proof fn a_right_is_for_one_owner(
    handle: MagiskExecutorHandle,
    expected: MagiskExecutorFence,
    family: MagiskPrimitiveFamily,
    authorized: Result<(), DomainError>,
)
    requires
        call_ensures(MagiskExecutorHandle::authorize, (&handle, &expected, family), authorized),
    ensures
        ({
            let fence = handle.spec_fence();
            let same = fence.runtime_epoch@ == expected.runtime_epoch@ && fence.host_generation
                == expected.host_generation && fence.runtime_instance_id@
                == expected.runtime_instance_id@ && fence.source_generation
                == expected.source_generation;
            &&& !same ==> authorized is Err && authorized->Err_0.code is StaleAuthority
            &&& same && family is PrivilegedAndroid && handle.spec_helper_generation() is None
                ==> authorized is Err && authorized->Err_0.code is CapabilityUnavailable
            &&& same && (family !is PrivilegedAndroid || handle.spec_helper_generation() is Some)
                ==> authorized is Ok
        }),
{
}

/// A right is given only for generations that are not zero.
pub proof fn a_right_has_generations(
    fence: MagiskExecutorFence,
    helper_generation: Option<u64>,
    handle: Result<MagiskExecutorHandle, DomainError>,
)
    requires
        call_ensures(MagiskExecutorHandle::new, (fence, helper_generation), handle),
    ensures
        fence.host_generation == 0 || fence.source_generation == 0 || helper_generation == Some(
            0u64,
        ) ==> handle is Err,
        handle is Err ==> fence.host_generation == 0 || fence.source_generation == 0
            || helper_generation == Some(0u64),
{
}

/// A root command is one argument of the shell, whatever is in it; only an empty one or one with a
/// zero character is refused. The caller sets its bounds.
pub proof fn a_root_command_is_one_argument(
    command: String,
    plan: Result<PrimitiveProcessPlan, DomainError>,
)
    requires
        call_ensures(PrimitiveProcessPlan::root_shell, (command,), plan),
    ensures
        plan is Err <==> command@.len() == 0 || command@.contains('\0'),
        plan matches Ok(plan) ==> {
            &&& plan@.program == "/system/bin/sh"@
            &&& plan@.arguments.len() == 2
            &&& plan@.arguments[0] == "-c"@
            &&& plan@.arguments[1] == command@
            &&& plan@.family is Process
            &&& plan@.fixed_timeout_ms is None && plan@.fixed_output_bytes is None
        },
{
}

/// An input goes to the input program as it is: between one and sixteen arguments, none of them
/// empty, with a zero character or longer than 4096 bytes. A screen is captured without any.
pub proof fn an_input_is_bounded(
    arguments: Vec<String>,
    plan: Result<PrimitiveProcessPlan, DomainError>,
    screen: PrimitiveProcessPlan,
)
    requires
        call_ensures(PrimitiveProcessPlan::input, (arguments,), plan),
        call_ensures(PrimitiveProcessPlan::screen_capture, (), screen),
    ensures
        arguments@.len() == 0 || arguments@.len() > 16 ==> plan is Err,
        forall|i: int|
            0 <= i < arguments@.len() && ((#[trigger] arguments@[i])@.len() == 0
                || arguments@[i]@.contains('\0') || vstd::utf8::encode_utf8(arguments@[i]@).len()
                > 4_096) ==> plan is Err,
        plan is Err && 1 <= arguments@.len() <= 16 ==> exists|i: int|
            0 <= i < arguments@.len() && ((#[trigger] arguments@[i])@.len() == 0
                || arguments@[i]@.contains('\0') || vstd::utf8::encode_utf8(arguments@[i]@).len()
                > 4_096),
        plan matches Ok(plan) ==> {
            &&& plan@.program == "/system/bin/input"@
            &&& plan@.arguments.len() == arguments@.len()
            &&& forall|i: int|
                0 <= i < arguments@.len() ==> #[trigger] plan@.arguments[i] == arguments@[i]@
            &&& plan@.family is Input
        },
        screen@.program == "/system/bin/screencap"@ && screen@.arguments.len() == 0
            && screen@.family is VisualCapture,
{
    let models = texts(arguments@);
    assert(models.len() == arguments@.len());
    assert forall|i: int|
        0 <= i < arguments@.len() && ((#[trigger] arguments@[i])@.len() == 0
            || arguments@[i]@.contains('\0') || vstd::utf8::encode_utf8(arguments@[i]@).len()
            > 4_096) implies plan is Err by {
        assert(!input_argument(models[i]));
    }
    if plan is Err && 1 <= arguments@.len() <= 16 {
        let i = choose|i: int| 0 <= i < models.len() && !input_argument(#[trigger] models[i]);
        assert(models[i] == arguments@[i]@);
    }
}

/// Packages are listed by their kind, with their versions and for the first user, and a package is
/// stopped by its name alone. Both take at most fifteen seconds and eight mebibytes.
pub proof fn a_package_primitive_is_fixed(
    kind: PackageListKind,
    list: PrimitiveProcessPlan,
    package_name: String,
    stop: Result<PrimitiveProcessPlan, DomainError>,
)
    requires
        call_ensures(PrimitiveProcessPlan::package_list, (kind,), list),
        call_ensures(PrimitiveProcessPlan::package_force_stop, (package_name,), stop),
    ensures
        list@.program == "/system/bin/cmd"@,
        list@.arguments.len() == 7,
        list@.arguments[0] == "package"@ && list@.arguments[1] == "list"@ && list@.arguments[2]
            == "packages"@,
        list@.arguments[3] == (if kind is ThirdParty {
            "-3"@
        } else {
            "-s"@
        }),
        list@.arguments[4] == "--show-versioncode"@ && list@.arguments[5] == "--user"@
            && list@.arguments[6] == "0"@,
        list@.family is Package,
        list@.fixed_timeout_ms == Some(15_000u64) && list@.fixed_output_bytes == Some(
            8_388_608usize,
        ),
        stop matches Ok(stop) ==> {
            &&& stop@.program == "/system/bin/am"@
            &&& stop@.arguments.len() == 4
            &&& stop@.arguments[0] == "force-stop"@ && stop@.arguments[1] == "--user"@
                && stop@.arguments[2] == "0"@
            &&& stop@.arguments[3] == package_name@
            &&& stop@.family is Package
            &&& stop@.fixed_timeout_ms == Some(15_000u64) && stop@.fixed_output_bytes == Some(
                8_388_608usize,
            )
        },
{
}

/// A package name is letters, digits, underscores and dots. A segment begins with a letter or an
/// underscore, there are at least two of them, and no dot stands at either end or beside another.
pub proof fn a_package_name_is_segments_with_dots(name: &str, valid: bool)
    requires
        call_ensures(valid_package_name, (name,), valid),
    ensures
        valid <==> {
            &&& vstd::utf8::encode_utf8(name@).len() <= 255
            &&& exists|i: int| 0 <= i < name@.len() && #[trigger] name@[i] == '.'
            &&& name@.len() > 0
            &&& name@[0] != '.' && name@.last() != '.'
            &&& forall|i: int|
                0 <= i < name@.len() ==> {
                    let c = #[trigger] name@[i];
                    let begins = i == 0 || name@[i - 1] == '.';
                    ||| 'a' <= c <= 'z'
                    ||| 'A' <= c <= 'Z'
                    ||| c == '_'
                    ||| ('0' <= c <= '9' && !begins)
                    ||| (c == '.' && !begins)
                }
        },
{
    let text = name@;
    if valid {
        let at = text.index_of('.');
        assert(text[at] == '.');
        assert(fits_name(text, 0));
        assert forall|i: int| 0 <= i < text.len() implies ({
            let c = #[trigger] text[i];
            let begins = i == 0 || text[i - 1] == '.';
            ||| 'a' <= c <= 'z'
            ||| 'A' <= c <= 'Z'
            ||| c == '_'
            ||| ('0' <= c <= '9' && !begins)
            ||| (c == '.' && !begins)
        }) by {
            assert(fits_name(text, i));
        }
    } else {
        if (exists|i: int| 0 <= i < text.len() && #[trigger] text[i] == '.') && (forall|i: int|
            0 <= i < text.len() ==> ({
                let c = #[trigger] text[i];
                let begins = i == 0 || text[i - 1] == '.';
                ||| 'a' <= c <= 'z'
                ||| 'A' <= c <= 'Z'
                ||| c == '_'
                ||| ('0' <= c <= '9' && !begins)
                ||| (c == '.' && !begins)
            })) && text.len() > 0 && text.last() != '.' && vstd::utf8::encode_utf8(text).len()
            <= 255 {
            let at = choose|i: int| 0 <= i < text.len() && #[trigger] text[i] == '.';
            assert(text.contains('.'));
            assert forall|i: int| 0 <= i < text.len() implies #[trigger] fits_name(text, i) by {
                let c = text[i];
                assert(c == text[i]);
            }
        }
    }
}

} // verus!
