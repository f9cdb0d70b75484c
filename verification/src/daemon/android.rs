//! Operations of the Android framework, by the helper or by the application.

use crate::contract::common::{code_of_token, error_code, ErrorCode};
use crate::contract::tools::{AndroidIntentInput, AndroidLaunchInput};
use crate::daemon::helper::{FamilyFlags, HelperFamily};
use crate::error::{pre_start, DomainError, ExecutionFailure};
use crate::json::{
    a_placed_member_is_found, entry, lemma_member_at, member, member_models, object, place, placed,
    text_value, value_of_bytes, Json, JsonModel, Member,
};
use crate::text::{joined, owned_texts, signed_decimal, signed_text, slices, texts};
use vstd::prelude::*;

verus! {

pub const HELPER_OPERATION_TIMEOUT_MS: u64 = 10_000;

pub const CLIPBOARD_CHILD_TIMEOUT_MS: u64 = 10_000;

pub const CLIPBOARD_CHILD_MAX_OUTPUT: u64 = 1_048_576;

pub const CLIPBOARD_CHILD_JAR_FD: i32 = 3;

pub const SHELL_UID: u32 = 2_000;

/// Who executes an operation.
#[derive(Clone, Copy, Debug, PartialEq, Eq, Structural)]
pub enum ProviderToken {
    MagiskNative,
    MagiskFramework,
    AppFramework,
    NotificationListener,
    Accessibility,
    /// Any provider that the daemon does not serve.
    Other,
}

pub open spec fn invalid_response_error() -> DomainError {
    DomainError { code: ErrorCode::IoError, reason: "framework helper response is invalid" }
}

fn invalid_response() -> (error: DomainError)
    ensures
        error == invalid_response_error(),
{
    DomainError::new(ErrorCode::IoError, "framework helper response is invalid")
}

pub open spec fn unavailable_error() -> DomainError {
    DomainError {
        code: ErrorCode::CapabilityUnavailable,
        reason: "framework helper is unavailable",
    }
}

/// The failure of an operation while no helper is there.
pub fn helper_unavailable() -> (error: DomainError)
    ensures
        error == unavailable_error(),
{
    DomainError::new(ErrorCode::CapabilityUnavailable, "framework helper is unavailable")
}

/// What a response of the helper stands for: `{"ok":true,"result":..}` is the result,
/// `{"ok":false,"code":..}` with the token of a code is that failure, and anything else is no
/// response.
pub open spec fn operation_result(response: JsonModel) -> Result<JsonModel, DomainError> {
    let two = response is Object && response->Object_0.len() == 2;
    match response.get("ok"@) {
        Some(JsonModel::Boolean(true)) if two => match response.get("result"@) {
            Some(value) => Ok(value),
            None => Err(invalid_response_error()),
        },
        Some(JsonModel::Boolean(false)) if two => match response.get("code"@) {
            Some(JsonModel::Text(token)) => match code_of_token(token) {
                Some(code) => Err(
                    DomainError { code, reason: "framework helper operation failed" },
                ),
                None => Err(invalid_response_error()),
            },
            _ => Err(invalid_response_error()),
        },
        _ => Err(invalid_response_error()),
    }
}

/// What a result is.
pub open spec fn result_model(result: Result<Json, DomainError>) -> Result<JsonModel, DomainError> {
    match result {
        Ok(value) => Ok(value@),
        Err(error) => Err(error),
    }
}

/// Reads the response of the helper.
pub fn decode_operation_response(response: &Json) -> (result: Result<Json, DomainError>)
    ensures
        result_model(result) == operation_result(response@),
{
    let two = match response.member_count() {
        Some(count) => count == 2,
        None => false,
    };
    if !two {
        return Err(invalid_response());
    }
    match response.get("ok") {
        Some(Json::Boolean(ok)) => {
            if *ok {
                match response.get("result") {
                    Some(value) => Ok(value.clone()),
                    None => Err(invalid_response()),
                }
            } else {
                match response.get("code") {
                    Some(Json::Text(token)) => match error_code(token.as_str()) {
                        Some(code) => Err(
                            DomainError::new(code, "framework helper operation failed"),
                        ),
                        None => Err(invalid_response()),
                    },
                    _ => Err(invalid_response()),
                }
            }
        },
        _ => Err(invalid_response()),
    }
}

/// Whether a failure is one of the connection, which is not used again after it.
pub open spec fn breaks_connection(error: DomainError) -> bool {
    error.code is IoError || error.code is ProtocolIncompatible
}

/// What a caller is told of an exchange.
pub open spec fn told(exchange: Result<JsonModel, DomainError>) -> Result<JsonModel, DomainError> {
    match exchange {
        Err(error) if breaks_connection(error) => Err(
            DomainError {
                code: ErrorCode::CapabilityUnavailable,
                reason: "framework helper transport failed",
            },
        ),
        other => other,
    }
}

/// What came of an exchange: its own failure, or what the response stands for.
pub open spec fn exchanged(exchange: Result<Json, DomainError>) -> Result<JsonModel, DomainError> {
    match exchange {
        Ok(response) => operation_result(response@),
        Err(error) => Err(error),
    }
}

/// The connection to the helper. A failure of the connection itself ends its use, so that a late
/// response is never read for a newer request.
#[derive(Clone, Copy, Debug, PartialEq, Eq, Structural)]
pub struct HelperConnection {
    pub broken: bool,
}

impl HelperConnection {
    pub fn new() -> (connection: Self)
        ensures
            !connection.broken,
    {
        HelperConnection { broken: false }
    }

    pub fn is_broken(&self) -> (broken: bool)
        ensures
            broken == self.broken,
    {
        self.broken
    }

    /// Refuses a request on a connection that is not used any more.
    pub fn check(&self) -> (checked: Result<(), DomainError>)
        ensures
            checked == (if self.broken {
                Err(unavailable_error())
            } else {
                Ok(())
            }),
    {
        if self.broken {
            return Err(helper_unavailable());
        }
        Ok(())
    }

    /// Takes in what came of an exchange.
    pub fn settle(&mut self, exchange: Result<Json, DomainError>) -> (result: Result<
        Json,
        DomainError,
    >)
        ensures
            result_model(result) == told(exchanged(exchange)),
            final(self).broken == (old(self).broken || {
                &&& exchanged(exchange) matches Err(error)
                &&& breaks_connection(error)
            }),
    {
        let decoded = match exchange {
            Ok(response) => decode_operation_response(&response),
            Err(error) => Err(error),
        };
        match decoded {
            Ok(value) => Ok(value),
            Err(error) => {
                if error.code == ErrorCode::IoError || error.code
                    == ErrorCode::ProtocolIncompatible {
                    self.broken = true;
                    return Err(
                        DomainError::new(
                            ErrorCode::CapabilityUnavailable,
                            "framework helper transport failed",
                        ),
                    );
                }
                Err(error)
            },
        }
    }
}

/// The helper that operations reach now, and the families whose operations it was denied.
pub struct HelperPort<H> {
    pub helper: Option<H>,
    pub denied: FamilyFlags,
}

impl<H> HelperPort<H> {
    pub fn new() -> (port: Self)
        ensures
            port.helper is None,
            port.denied == FamilyFlags::spec_none(),
    {
        HelperPort { helper: None, denied: FamilyFlags::none() }
    }

    /// A new helper starts with no family denied.
    pub fn publish(&mut self, helper: H)
        ensures
            final(self).helper == Some(helper),
            final(self).denied == FamilyFlags::spec_none(),
    {
        self.denied = FamilyFlags::none();
        self.helper = Some(helper);
    }

    pub fn withdraw(&mut self)
        ensures
            final(self).helper is None,
            final(self).denied == old(self).denied,
    {
        self.helper = None;
    }

    pub fn operation_denied(&self, family: HelperFamily) -> (denied: bool)
        ensures
            denied == self.denied.of(family),
    {
        self.denied.get(family)
    }

    /// The helper, if there is one.
    pub fn published(&self) -> (helper: Result<&H, DomainError>)
        ensures
            match (helper, self.helper) {
                (Ok(helper), Some(published)) => *helper == published,
                (Err(error), None) => error == unavailable_error(),
                _ => false,
            },
    {
        match &self.helper {
            Some(helper) => Ok(helper),
            None => Err(helper_unavailable()),
        }
    }

    /// Remembers of a family that an operation was denied, and of no other family.
    pub fn observe_denial(&mut self, family: HelperFamily, result: &Result<Json, DomainError>)
        ensures
            final(self).helper == old(self).helper,
            final(self).denied == (match *result {
                Err(error) if error.code is PermissionDenied => old(self).denied.with(family, true),
                _ => old(self).denied,
            }),
    {
        match result {
            Err(error) => {
                if error.code == ErrorCode::PermissionDenied {
                    self.denied.set(family);
                }
            },
            Ok(_) => {},
        }
    }
}

// ---------------------------------------------------------------------------------------
// The clipboard child.
// ---------------------------------------------------------------------------------------

pub open spec fn child_error() -> DomainError {
    DomainError { code: ErrorCode::IoError, reason: "clipboard child failed" }
}

pub fn child_failure() -> (error: DomainError)
    ensures
        error == child_error(),
{
    DomainError::new(ErrorCode::IoError, "clipboard child failed")
}

/// The program that runs the clipboard child.
pub fn clipboard_program() -> (program: &'static str)
    ensures
        program@ == "/system/bin/app_process"@,
{
    "/system/bin/app_process"
}

/// The class path of the clipboard child: the jar that it inherits as a descriptor.
pub fn clipboard_class_path() -> (path: String)
    ensures
        path@ == "/proc/self/fd/"@ + signed_decimal(CLIPBOARD_CHILD_JAR_FD as int),
{
    joined("/proc/self/fd/", signed_text(CLIPBOARD_CHILD_JAR_FD).as_str())
}

/// The arguments of the clipboard child.
pub fn clipboard_arguments(operation: &str) -> (arguments: Vec<String>)
    ensures
        texts(arguments@) == seq![
            "/system/bin"@,
            "com.droidbridge.helper.DroidBridgeClipboardChild"@,
            operation@,
        ],
{
    let parts = ["/system/bin", "com.droidbridge.helper.DroidBridgeClipboardChild", operation];
    assert(slices(parts@) =~= seq![
        "/system/bin"@,
        "com.droidbridge.helper.DroidBridgeClipboardChild"@,
        operation@,
    ]);
    owned_texts(&parts)
}

/// What is known of a child that is waited for.
#[derive(Clone, Copy, Debug, PartialEq, Eq, Structural)]
pub enum ChildPoll {
    Ended,
    Running,
    Unobservable,
}

/// What comes next for a child that is waited for.
#[derive(Clone, Copy, Debug, PartialEq, Eq)]
pub enum ChildStep {
    Ended,
    /// Its end cannot be observed.
    Failed(DomainError),
    /// It is killed and waited for, and has failed so.
    Kill(DomainError),
    Sleep,
}

/// What comes next for the clipboard child. A cancellation is told before a missed deadline.
pub fn child_step(poll: ChildPoll, cancelled: bool, elapsed_ms: u64) -> (step: ChildStep)
    ensures
        step == (match poll {
            ChildPoll::Ended => ChildStep::Ended,
            ChildPoll::Unobservable => ChildStep::Failed(child_error()),
            ChildPoll::Running => if cancelled {
                ChildStep::Kill(
                    DomainError {
                        code: ErrorCode::Cancelled,
                        reason: "clipboard child did not complete",
                    },
                )
            } else if elapsed_ms >= CLIPBOARD_CHILD_TIMEOUT_MS {
                ChildStep::Kill(
                    DomainError {
                        code: ErrorCode::Timeout,
                        reason: "clipboard child did not complete",
                    },
                )
            } else {
                ChildStep::Sleep
            },
        }),
{
    match poll {
        ChildPoll::Ended => ChildStep::Ended,
        ChildPoll::Unobservable => ChildStep::Failed(child_failure()),
        ChildPoll::Running => {
            if cancelled {
                ChildStep::Kill(
                    DomainError::new(ErrorCode::Cancelled, "clipboard child did not complete"),
                )
            } else if elapsed_ms >= CLIPBOARD_CHILD_TIMEOUT_MS {
                ChildStep::Kill(
                    DomainError::new(ErrorCode::Timeout, "clipboard child did not complete"),
                )
            } else {
                ChildStep::Sleep
            }
        },
    }
}

/// What the clipboard child gave: what its output stands for, if the output could be read, the
/// child ended well and the output is within its bound.
pub open spec fn clipboard_outcome(
    output: Option<Seq<u8>>,
    status: Result<bool, DomainError>,
) -> Result<JsonModel, DomainError> {
    match (output, status) {
        (None, _) => Err(child_error()),
        (Some(_), Err(error)) => Err(error),
        (Some(output), Ok(success)) => if !success || output.len() > CLIPBOARD_CHILD_MAX_OUTPUT {
            Err(child_error())
        } else {
            match value_of_bytes(output) {
                Some(response) => operation_result(response),
                None => Err(child_error()),
            }
        },
    }
}

/// What the clipboard child gave.
pub fn clipboard_result(output: Option<Vec<u8>>, status: Result<bool, DomainError>) -> (result:
    Result<Json, DomainError>)
    ensures
        result_model(result) == clipboard_outcome(
            match output {
                Some(output) => Some(output@),
                None => None,
            },
            status,
        ),
{
    let output = match output {
        Some(output) => output,
        None => {
            return Err(child_failure());
        },
    };
    let success = match status {
        Ok(success) => success,
        Err(error) => {
            return Err(error);
        },
    };
    if !success || output.len() as u64 > CLIPBOARD_CHILD_MAX_OUTPUT {
        return Err(child_failure());
    }
    match Json::parse(output.as_slice()) {
        Some(response) => decode_operation_response(&response),
        None => Err(child_failure()),
    }
}

/// What a helper answers when an operation gives nothing back.
pub open spec fn completed_model() -> JsonModel {
    JsonModel::Object(seq![("completed"@, JsonModel::Boolean(true))])
}

/// Checks that an operation that gives nothing back has completed.
pub fn require_completed(result: &Json) -> (checked: Result<(), DomainError>)
    ensures
        checked == (if result@ == completed_model() {
            Ok(())
        } else {
            Err(invalid_response_error())
        }),
{
    let members = vec![entry("completed", Json::Boolean(true))];
    assert(member_models(members@) =~= completed_model()->Object_0);
    if result.same_as(&object(members)) {
        Ok(())
    } else {
        Err(invalid_response())
    }
}

// ---------------------------------------------------------------------------------------
// Requests of the helper.
// ---------------------------------------------------------------------------------------

pub open spec fn operation_model(operation: Seq<char>) -> JsonModel {
    JsonModel::Object(seq![("operation"@, JsonModel::Text(operation))])
}

/// A request that has only an operation.
pub fn operation_request(operation: &str) -> (request: Json)
    ensures
        request@ == operation_model(operation@),
{
    let members = vec![entry("operation", text_value(operation))];
    assert(member_models(members@) =~= operation_model(operation@)->Object_0);
    object(members)
}

pub open spec fn launch_model(input: AndroidLaunchInput) -> JsonModel {
    match input {
        AndroidLaunchInput::Package { package_name } => JsonModel::Object(
            seq![
                ("operation"@, JsonModel::Text("launch_package"@)),
                ("package_name"@, JsonModel::Text(package_name@)),
            ],
        ),
        AndroidLaunchInput::Component { package_name, class_name } => JsonModel::Object(
            seq![
                ("class_name"@, JsonModel::Text(class_name@)),
                ("operation"@, JsonModel::Text("launch_component"@)),
                ("package_name"@, JsonModel::Text(package_name@)),
            ],
        ),
    }
}

/// The request to launch a package or one of its components.
pub fn launch_request(input: &AndroidLaunchInput) -> (request: Json)
    ensures
        request@ == launch_model(*input),
{
    match input {
        AndroidLaunchInput::Package { package_name } => {
            let members = vec![
                entry("operation", text_value("launch_package")),
                entry("package_name", text_value(package_name.as_str())),
            ];
            assert(member_models(members@) =~= launch_model(*input)->Object_0);
            object(members)
        },
        AndroidLaunchInput::Component { package_name, class_name } => {
            let members = vec![
                entry("class_name", text_value(class_name.as_str())),
                entry("operation", text_value("launch_component")),
                entry("package_name", text_value(package_name.as_str())),
            ];
            assert(member_models(members@) =~= launch_model(*input)->Object_0);
            object(members)
        },
    }
}

/// The helper's operation for an intent.
pub open spec fn intent_operation(input: AndroidIntentInput) -> &'static str {
    match input {
        AndroidIntentInput::View { .. } => "start_view_intent",
        AndroidIntentInput::ExplicitActivity { .. } => "start_explicit_activity",
    }
}

/// The request to start an intent: the encoded intent, with the helper's operation in place of its
/// own.
pub fn intent_request(input: &AndroidIntentInput, encoded: Vec<Member>) -> (request: Json)
    ensures
        request@ == JsonModel::Object(
            placed(
                member_models(encoded@),
                "operation"@,
                JsonModel::Text(intent_operation(*input)@),
            ),
        ),
{
    let operation = match input {
        AndroidIntentInput::View { .. } => "start_view_intent",
        AndroidIntentInput::ExplicitActivity { .. } => "start_explicit_activity",
    };
    let mut members = encoded;
    place(&mut members, entry("operation", text_value(operation)));
    object(members)
}

/// The identity of a posted notification.
#[derive(Clone, Debug, PartialEq, Eq)]
pub struct AndroidNotificationIdentity {
    pub key: String,
    pub generation: u64,
}

pub open spec fn dismiss_model(identity: AndroidNotificationIdentity) -> JsonModel {
    JsonModel::Object(
        seq![
            ("generation"@, JsonModel::Unsigned(identity.generation)),
            ("key"@, JsonModel::Text(identity.key@)),
            ("operation"@, JsonModel::Text("notification_dismiss"@)),
        ],
    )
}

/// The request to dismiss a notification.
pub fn dismiss_request(identity: &AndroidNotificationIdentity) -> (request: Json)
    ensures
        request@ == dismiss_model(*identity),
{
    let members = vec![
        entry("generation", Json::Unsigned(identity.generation)),
        entry("key", text_value(identity.key.as_str())),
        entry("operation", text_value("notification_dismiss")),
    ];
    assert(member_models(members@) =~= dismiss_model(*identity)->Object_0);
    object(members)
}

pub open spec fn invoke_model(identity: AndroidNotificationIdentity, action_index: u8) -> JsonModel {
    JsonModel::Object(
        seq![
            ("action_index"@, JsonModel::Unsigned(action_index as u64)),
            ("generation"@, JsonModel::Unsigned(identity.generation)),
            ("key"@, JsonModel::Text(identity.key@)),
            ("operation"@, JsonModel::Text("notification_invoke"@)),
        ],
    )
}

/// The request to invoke an action of a notification.
pub fn invoke_request(identity: &AndroidNotificationIdentity, action_index: u8) -> (request: Json)
    ensures
        request@ == invoke_model(*identity, action_index),
{
    let members = vec![
        entry("action_index", Json::Unsigned(action_index as u64)),
        entry("generation", Json::Unsigned(identity.generation)),
        entry("key", text_value(identity.key.as_str())),
        entry("operation", text_value("notification_invoke")),
    ];
    assert(member_models(members@) =~= invoke_model(*identity, action_index)->Object_0);
    object(members)
}

pub open spec fn clipboard_text_model(text: Seq<char>) -> JsonModel {
    JsonModel::Object(seq![("text"@, JsonModel::Text(text))])
}

/// What the clipboard child is given to write.
pub fn clipboard_text(text: &str) -> (input: Json)
    ensures
        input@ == clipboard_text_model(text@),
{
    let members = vec![entry("text", text_value(text))];
    assert(member_models(members@) =~= clipboard_text_model(text@)->Object_0);
    object(members)
}

// ---------------------------------------------------------------------------------------
// Who executes an operation.
// ---------------------------------------------------------------------------------------

pub open spec fn stale_failure() -> ExecutionFailure {
    ExecutionFailure {
        error: DomainError {
            code: ErrorCode::StaleAuthority,
            reason: "Android primitive provider is not bound to the Magisk surface",
        },
        cleanup_verified: true,
    }
}

/// The failure of an operation whose provider the daemon does not serve.
pub fn stale() -> (failure: ExecutionFailure)
    ensures
        failure == stale_failure(),
{
    pre_start(
        DomainError::new(
            ErrorCode::StaleAuthority,
            "Android primitive provider is not bound to the Magisk surface",
        ),
    )
}

/// Who executes an operation of the Android framework.
#[derive(Clone, Copy, Debug, PartialEq, Eq, Structural)]
pub enum AndroidRoute {
    Helper,
    Companion,
}

/// Who executes an operation that the application can execute as `delegate`.
pub open spec fn route_of(provider: ProviderToken, delegate: ProviderToken) -> Result<
    AndroidRoute,
    ExecutionFailure,
> {
    if provider is MagiskFramework {
        Ok(AndroidRoute::Helper)
    } else if provider == delegate {
        Ok(AndroidRoute::Companion)
    } else {
        Err(stale_failure())
    }
}

/// Who executes a launch, an intent or a clipboard operation. A cancellation comes first.
pub fn framework_route(checkpoint: Result<(), DomainError>, provider: ProviderToken) -> (route:
    Result<AndroidRoute, ExecutionFailure>)
    ensures
        route == (match checkpoint {
            Err(error) => Err(ExecutionFailure { error, cleanup_verified: true }),
            Ok(()) => route_of(provider, ProviderToken::AppFramework),
        }),
{
    match checkpoint {
        Err(error) => {
            return Err(pre_start(error));
        },
        Ok(()) => {},
    }
    match provider {
        ProviderToken::MagiskFramework => Ok(AndroidRoute::Helper),
        ProviderToken::AppFramework => Ok(AndroidRoute::Companion),
        _ => Err(stale()),
    }
}

/// Who executes an operation on notifications. A cancellation comes first.
pub fn notification_route(checkpoint: Result<(), DomainError>, provider: ProviderToken) -> (route:
    Result<AndroidRoute, ExecutionFailure>)
    ensures
        route == (match checkpoint {
            Err(error) => Err(ExecutionFailure { error, cleanup_verified: true }),
            Ok(()) => route_of(provider, ProviderToken::NotificationListener),
        }),
{
    match checkpoint {
        Err(error) => {
            return Err(pre_start(error));
        },
        Ok(()) => {},
    }
    match provider {
        ProviderToken::MagiskFramework => Ok(AndroidRoute::Helper),
        ProviderToken::NotificationListener => Ok(AndroidRoute::Companion),
        _ => Err(stale()),
    }
}

/// Checks that the daemon itself executes an operation on packages.
pub fn require_native(provider: ProviderToken) -> (checked: Result<(), ExecutionFailure>)
    ensures
        checked == (if provider is MagiskNative {
            Ok(())
        } else {
            Err(stale_failure())
        }),
{
    match provider {
        ProviderToken::MagiskNative => Ok(()),
        _ => Err(stale()),
    }
}

// ---------------------------------------------------------------------------------------
// Laws.
// ---------------------------------------------------------------------------------------

/// A response is a success exactly if it says so and carries a result, which is what comes back; a
/// failure that names a code is that failure, and whatever is neither is a fault of the helper.
pub proof fn a_response_is_what_it_says(response: Json, result: Result<Json, DomainError>)
    requires
        call_ensures(decode_operation_response, (&response,), result),
    ensures
        result is Ok <==> response@ is Object && response@->Object_0.len() == 2 && response@.get(
            "ok"@,
        ) == Some(JsonModel::Boolean(true)) && response@.get("result"@) is Some,
        result matches Ok(value) ==> response@.get("result"@) == Some(value@),
        response@ is Object && response@->Object_0.len() == 2 && response@.get("ok"@) == Some(
            JsonModel::Boolean(false),
        ) ==> {
            &&& result is Err
            &&& response@.get("code"@) matches Some(JsonModel::Text(token)) ==> code_of_token(
                token,
            ) is Some ==> result->Err_0.code == code_of_token(token)->0
        },
        response@ !is Object || response@->Object_0.len() != 2 ==> result is Err
            && result->Err_0.code is IoError,
{
}

/// A connection is broken by a failure of its own and by nothing else: a failure that the helper
/// reports leaves it as it is, unless it is one that puts the helper itself in doubt. What breaks
/// it is told as a missing capability, and once broken it stays so.
pub proof fn a_connection_breaks_once(exchange: Result<Json, DomainError>)
    ensures
        forall|connection: &mut HelperConnection, result: Result<Json, DomainError>| #[trigger]
            call_ensures(HelperConnection::settle, (connection, exchange), result) ==> {
                &&& connection.broken ==> final(connection).broken
                &&& exchange matches Err(error) ==> {
                    &&& error.code is IoError || error.code is ProtocolIncompatible
                        ==> final(connection).broken && result is Err
                        && result->Err_0.code is CapabilityUnavailable
                    &&& !(error.code is IoError || error.code is ProtocolIncompatible)
                        ==> final(connection).broken == connection.broken && result == Err::<
                        Json,
                        _,
                    >(error)
                }
                &&& result is Ok ==> final(connection).broken == connection.broken && exchange is Ok
                    && exchange->Ok_0@.get("result"@) == Some(result->Ok_0@)
                &&& result is Err ==> result->Err_0.code !is IoError && result->Err_0.code !is
                    ProtocolIncompatible
            },
{
}

/// The clipboard child is killed for a cancellation or after ten seconds, and only while it runs; a
/// cancellation is told before the time.
pub proof fn a_child_is_killed_for_a_reason(
    poll: ChildPoll,
    cancelled: bool,
    elapsed_ms: u64,
    step: ChildStep,
)
    requires
        call_ensures(child_step, (poll, cancelled, elapsed_ms), step),
    ensures
        step is Kill <==> poll is Running && (cancelled || elapsed_ms >= 10_000),
        step matches ChildStep::Kill(error) ==> error.code == (if cancelled {
            ErrorCode::Cancelled
        } else {
            ErrorCode::Timeout
        }),
        step is Ended <==> poll is Ended,
        step is Failed <==> poll is Unobservable,
{
}

/// What the clipboard child wrote counts only if the child ended well and wrote no more than a
/// mebibyte, which reads as a response.
pub proof fn only_a_child_that_ended_well_counts(
    output: Option<Vec<u8>>,
    status: Result<bool, DomainError>,
    result: Result<Json, DomainError>,
)
    requires
        call_ensures(clipboard_result, (output, status), result),
    ensures
        result is Ok ==> output is Some && status == Ok::<_, DomainError>(true)
            && output->0@.len() <= 1_048_576 && value_of_bytes(output->0@) is Some
            && value_of_bytes(output->0@)->0.get("result"@) == Some(result->Ok_0@)
            && value_of_bytes(output->0@)->0.get("ok"@) == Some(JsonModel::Boolean(true)),
        output is Some && status is Err ==> result == Err::<Json, DomainError>(status->Err_0),
        output is None || status == Ok::<_, DomainError>(false) || output->0@.len() > 1_048_576
            ==> result is Err,
{
}

/// A launch names what is launched: a package, or a class of a package.
pub proof fn a_launch_names_what_is_launched(input: AndroidLaunchInput, request: Json)
    requires
        call_ensures(launch_request, (&input,), request),
    ensures
        input is Package ==> request@.get("operation"@) == Some(
            JsonModel::Text("launch_package"@),
        ) && request@.get("package_name"@) == Some(JsonModel::Text(input->Package_package_name@)),
        input is Component ==> request@.get("operation"@) == Some(
            JsonModel::Text("launch_component"@),
        ) && request@.get("package_name"@) == Some(
            JsonModel::Text(input->Component_package_name@),
        ) && request@.get("class_name"@) == Some(JsonModel::Text(input->class_name@)),
{
    let members = launch_model(input)->Object_0;
    match input {
        AndroidLaunchInput::Package { .. } => {
            assert("operation"@ != "package_name"@) by {
                reveal_strlit("operation");
                reveal_strlit("package_name");
                assert("operation"@.len() != "package_name"@.len());
            }
            lemma_member_at(members, 0);
            lemma_member_at(members, 1);
        },
        AndroidLaunchInput::Component { .. } => {
            assert("class_name"@ != "operation"@) by {
                reveal_strlit("class_name");
                reveal_strlit("operation");
                assert("class_name"@.len() != "operation"@.len());
            }
            assert("class_name"@ != "package_name"@) by {
                reveal_strlit("class_name");
                reveal_strlit("package_name");
                assert("class_name"@.len() != "package_name"@.len());
            }
            assert("operation"@ != "package_name"@) by {
                reveal_strlit("operation");
                reveal_strlit("package_name");
                assert("operation"@.len() != "package_name"@.len());
            }
            lemma_member_at(members, 0);
            lemma_member_at(members, 1);
            lemma_member_at(members, 2);
        },
    }
}

/// An intent is sent as it was encoded but for its operation, which is the helper's own: one for a
/// view and another for an activity.
pub proof fn an_intent_keeps_all_but_its_operation(
    input: AndroidIntentInput,
    encoded: Vec<Member>,
    request: Json,
    key: Seq<char>,
)
    requires
        call_ensures(intent_request, (&input, encoded), request),
    ensures
        input is View ==> request@.get("operation"@) == Some(JsonModel::Text("start_view_intent"@)),
        input is ExplicitActivity ==> request@.get("operation"@) == Some(
            JsonModel::Text("start_explicit_activity"@),
        ),
        key != "operation"@ ==> request@.get(key) == member(member_models(encoded@), key),
{
    a_placed_member_is_found(
        member_models(encoded@),
        "operation"@,
        JsonModel::Text(intent_operation(input)@),
        key,
    );
}

/// A notification is dismissed, or one of its actions invoked, by its own key and generation.
pub proof fn a_notification_is_named_by_key_and_generation(
    identity: AndroidNotificationIdentity,
    action_index: u8,
    dismissal: Json,
    invocation: Json,
)
    requires
        call_ensures(dismiss_request, (&identity,), dismissal),
        call_ensures(invoke_request, (&identity, action_index), invocation),
    ensures
        dismissal@.get("operation"@) == Some(JsonModel::Text("notification_dismiss"@)),
        invocation@.get("operation"@) == Some(JsonModel::Text("notification_invoke"@)),
        dismissal@.get("key"@) == Some(JsonModel::Text(identity.key@)),
        invocation@.get("key"@) == Some(JsonModel::Text(identity.key@)),
        dismissal@.get("generation"@) == Some(JsonModel::Unsigned(identity.generation)),
        invocation@.get("generation"@) == Some(JsonModel::Unsigned(identity.generation)),
        invocation@.get("action_index"@) == Some(JsonModel::Unsigned(action_index as u64)),
{
    let dismissed = dismiss_model(identity)->Object_0;
    let invoked = invoke_model(identity, action_index)->Object_0;
    assert("generation"@ != "key"@) by {
        reveal_strlit("generation");
        reveal_strlit("key");
        assert("generation"@.len() != "key"@.len());
    }
    assert("generation"@ != "operation"@) by {
        reveal_strlit("generation");
        reveal_strlit("operation");
        assert("generation"@.len() != "operation"@.len());
    }
    assert("key"@ != "operation"@) by {
        reveal_strlit("key");
        reveal_strlit("operation");
        assert("key"@.len() != "operation"@.len());
    }
    lemma_member_at(dismissed, 0);
    lemma_member_at(dismissed, 1);
    lemma_member_at(dismissed, 2);
    assert("action_index"@ != "generation"@) by {
        reveal_strlit("action_index");
        reveal_strlit("generation");
        assert("action_index"@.len() != "generation"@.len());
    }
    assert("action_index"@ != "key"@) by {
        reveal_strlit("action_index");
        reveal_strlit("key");
        assert("action_index"@.len() != "key"@.len());
    }
    assert("action_index"@ != "operation"@) by {
        reveal_strlit("action_index");
        reveal_strlit("operation");
        assert("action_index"@.len() != "operation"@.len());
    }
    assert("generation"@ != "key"@) by {
        reveal_strlit("generation");
        reveal_strlit("key");
        assert("generation"@.len() != "key"@.len());
    }
    assert("generation"@ != "operation"@) by {
        reveal_strlit("generation");
        reveal_strlit("operation");
        assert("generation"@.len() != "operation"@.len());
    }
    assert("key"@ != "operation"@) by {
        reveal_strlit("key");
        reveal_strlit("operation");
        assert("key"@.len() != "operation"@.len());
    }
    lemma_member_at(invoked, 0);
    lemma_member_at(invoked, 1);
    lemma_member_at(invoked, 2);
    lemma_member_at(invoked, 3);
}

/// The helper executes what the framework of the module is bound to, the application what it is
/// bound to itself, and nobody anything else. A notification is the listener's, all else the
/// application's framework's. Nothing is executed once it was cancelled.
pub proof fn an_operation_goes_to_its_provider(
    checkpoint: Result<(), DomainError>,
    provider: ProviderToken,
    framework: Result<AndroidRoute, ExecutionFailure>,
    notification: Result<AndroidRoute, ExecutionFailure>,
)
    requires
        call_ensures(framework_route, (checkpoint, provider), framework),
        call_ensures(notification_route, (checkpoint, provider), notification),
    ensures
        checkpoint matches Err(error) ==> framework is Err && framework->Err_0.error == error
            && notification is Err && notification->Err_0.error == error,
        checkpoint is Ok ==> {
            &&& framework == Ok::<_, ExecutionFailure>(AndroidRoute::Helper) <==> provider is
                MagiskFramework
            &&& notification == Ok::<_, ExecutionFailure>(AndroidRoute::Helper) <==> provider is
                MagiskFramework
            &&& framework == Ok::<_, ExecutionFailure>(AndroidRoute::Companion) <==> provider is
                AppFramework
            &&& notification == Ok::<_, ExecutionFailure>(AndroidRoute::Companion) <==> provider is
                NotificationListener
        },
        framework is Err ==> framework->Err_0.cleanup_verified,
        checkpoint is Ok && framework is Err ==> framework->Err_0.error.code is StaleAuthority,
        checkpoint is Ok && notification is Err ==> notification->Err_0.error.code is
            StaleAuthority,
{
}

/// The clipboard child runs the class that plays its part, from the jar on descriptor 3, with the
/// operation as its last argument.
pub proof fn the_clipboard_child_is_run_so(
    operation: &str,
    arguments: Vec<String>,
    path: String,
    text: &str,
    input: Json,
)
    requires
        call_ensures(clipboard_arguments, (operation,), arguments),
        call_ensures(clipboard_class_path, (), path),
        call_ensures(clipboard_text, (text,), input),
    ensures
        arguments@.len() == 3,
        arguments@[2]@ == operation@,
        path@ == "/proc/self/fd/3"@,
        input@.get("text"@) == Some(JsonModel::Text(text@)),
{
    let models = texts(arguments@);
    assert(models.len() == arguments@.len());
    assert(models[2] == arguments@[2]@);
    reveal_strlit("/proc/self/fd/");
    reveal_strlit("/proc/self/fd/3");
    assert(signed_decimal(3) =~= seq!['3']);
    assert("/proc/self/fd/"@ + seq!['3'] =~= "/proc/self/fd/3"@);
}

/// An operation that gives nothing back has completed exactly if the helper says so and nothing
/// else, and a request of one member names its operation.
pub proof fn completion_is_said_alone(
    result: Json,
    checked: Result<(), DomainError>,
    operation: &str,
    request: Json,
)
    requires
        call_ensures(require_completed, (&result,), checked),
        call_ensures(operation_request, (operation,), request),
    ensures
        checked is Ok ==> result@ is Object && result@->Object_0.len() == 1 && result@.get(
            "completed"@,
        ) == Some(JsonModel::Boolean(true)),
        result@ is Object && result@->Object_0.len() == 1 && result@.get("completed"@) == Some(
            JsonModel::Boolean(true),
        ) ==> checked is Ok,
        request@ is Object && request@->Object_0.len() == 1,
        request@.get("operation"@) == Some(JsonModel::Text(operation@)),
{
    reveal_with_fuel(member, 2);
    if result@ is Object && result@->Object_0.len() == 1 && result@.get("completed"@) == Some(
        JsonModel::Boolean(true),
    ) {
        let members = result@->Object_0;
        assert(members.skip(1).len() == 0);
        assert(members =~= seq![("completed"@, JsonModel::Boolean(true))]);
    }
}

} // verus!
