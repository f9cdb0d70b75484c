//! What the daemon shows of the screen and how it acts on it.

use crate::contract::common::{ErrorCode, Region, UuidV4};
use crate::contract::results::DisplayGeometry;
use crate::contract::tools::ImageFormat;
use crate::daemon::android::ProviderToken;
use crate::daemon::command::VisualRootPrimitive;
use crate::error::{pre_start, DomainError, ExecutionFailure};
use crate::json::{
    entry, lemma_member_at, member, member_models, object, optional_text_model, text_value, Json,
    JsonModel, Member,
};
use crate::text::{contains_char, joined, owned_texts, same, slices, texts};
use vstd::prelude::*;
use vstd::utf8::encode_utf8;

verus! {

pub const COMPANION_POLL_MS: u64 = 25;

pub const COMPANION_DEADLINE_MS: u64 = 15_000;

pub const PNG_LIMIT: usize = 8_388_608;

/// The key by which the focused editor inserts the clipboard.
pub const KEYCODE_PASTE: i32 = 279;

pub const FOCUSED_TEXT_LIMIT: usize = 8_192;

/// The display at one moment.
#[derive(Debug, PartialEq)]
pub struct VisualDisplaySnapshot {
    pub display: DisplayGeometry,
    pub display_generation: u64,
}

/// A failure before anything was done.
pub open spec fn clean(code: ErrorCode, reason: &'static str) -> ExecutionFailure {
    ExecutionFailure { error: DomainError { code, reason }, cleanup_verified: true }
}

fn clean_failure(code: ErrorCode, reason: &'static str) -> (failure: ExecutionFailure)
    ensures
        failure == clean(code, reason),
{
    pre_start(DomainError::new(code, reason))
}

// ---------------------------------------------------------------------------------------
// Who executes.
// ---------------------------------------------------------------------------------------

/// Checks that the daemon itself reads the display.
pub fn require_display(provider: ProviderToken) -> (checked: Result<(), ExecutionFailure>)
    ensures
        checked == (if provider is MagiskNative {
            Ok(())
        } else {
            Err(
                clean(
                    ErrorCode::StaleAuthority,
                    "Magisk display admission has a different provider",
                ),
            )
        }),
{
    match provider {
        ProviderToken::MagiskNative => Ok(()),
        _ => Err(
            clean_failure(
                ErrorCode::StaleAuthority,
                "Magisk display admission has a different provider",
            ),
        ),
    }
}

/// Checks that the daemon itself captures the screen.
pub fn require_capture(provider: ProviderToken) -> (checked: Result<(), ExecutionFailure>)
    ensures
        checked == (if provider is MagiskNative {
            Ok(())
        } else {
            Err(
                clean(
                    ErrorCode::StaleAuthority,
                    "Magisk image admission has a different provider",
                ),
            )
        }),
{
    match provider {
        ProviderToken::MagiskNative => Ok(()),
        _ => Err(
            clean_failure(
                ErrorCode::StaleAuthority,
                "Magisk image admission has a different provider",
            ),
        ),
    }
}

/// Checks that the application transforms images.
pub fn require_transform(provider: ProviderToken) -> (checked: Result<(), ExecutionFailure>)
    ensures
        checked == (if provider is AppFramework {
            Ok(())
        } else {
            Err(
                clean(
                    ErrorCode::StaleAuthority,
                    "Magisk visual transform lost the App framework provider",
                ),
            )
        }),
{
    match provider {
        ProviderToken::AppFramework => Ok(()),
        _ => Err(
            clean_failure(
                ErrorCode::StaleAuthority,
                "Magisk visual transform lost the App framework provider",
            ),
        ),
    }
}

/// Who observes the hierarchy of the screen.
#[derive(Clone, Copy, Debug, PartialEq, Eq, Structural)]
pub enum HierarchyRoute {
    Accessibility,
    Root,
}

/// Who observes the hierarchy of the screen.
pub fn hierarchy_route(provider: ProviderToken) -> (route: Result<HierarchyRoute, ExecutionFailure>)
    ensures
        route == (match provider {
            ProviderToken::Accessibility => Ok(HierarchyRoute::Accessibility),
            ProviderToken::MagiskNative => Ok(HierarchyRoute::Root),
            _ => Err(
                clean(
                    ErrorCode::StaleAuthority,
                    "Magisk hierarchy admission has a different provider",
                ),
            ),
        }),
{
    match provider {
        ProviderToken::Accessibility => Ok(HierarchyRoute::Accessibility),
        ProviderToken::MagiskNative => Ok(HierarchyRoute::Root),
        _ => Err(
            clean_failure(
                ErrorCode::StaleAuthority,
                "Magisk hierarchy admission has a different provider",
            ),
        ),
    }
}

// ---------------------------------------------------------------------------------------
// What the application is asked.
// ---------------------------------------------------------------------------------------

pub open spec fn geometry_model(display: DisplayGeometry) -> JsonModel {
    let rest = seq![
        ("height"@, JsonModel::Unsigned(display.height as u64)),
        ("rotation"@, JsonModel::Unsigned(display.rotation as u64)),
        ("width"@, JsonModel::Unsigned(display.width as u64)),
    ];
    match display.density_dpi {
        Some(density) => JsonModel::Object(
            seq![("density_dpi"@, JsonModel::Unsigned(density as u64))] + rest,
        ),
        None => JsonModel::Object(rest),
    }
}

/// The geometry of a display as a value. A density that is not known is left out.
pub fn geometry_value(display: &DisplayGeometry) -> (value: Json)
    ensures
        value@ == geometry_model(*display),
{
    let mut members: Vec<Member> = Vec::new();
    match display.density_dpi {
        Some(density) => {
            members.push(entry("density_dpi", Json::Unsigned(density as u64)));
        },
        None => {},
    }
    members.push(entry("height", Json::Unsigned(display.height as u64)));
    members.push(entry("rotation", Json::Unsigned(display.rotation as u64)));
    members.push(entry("width", Json::Unsigned(display.width as u64)));
    assert(member_models(members@) =~= geometry_model(*display)->Object_0);
    object(members)
}

pub open spec fn display_request_model() -> JsonModel {
    JsonModel::Object(seq![("operation"@, JsonModel::Text("display"@))])
}

/// The request for the display.
pub fn display_request() -> (payload: Json)
    ensures
        payload@ == display_request_model(),
{
    let members = vec![entry("operation", text_value("display"))];
    assert(member_models(members@) =~= display_request_model()->Object_0);
    object(members)
}

pub open spec fn hierarchy_model(
    observation_id: Seq<char>,
    max_nodes: u32,
    display: VisualDisplaySnapshot,
) -> JsonModel {
    JsonModel::Object(
        seq![
            ("display"@, geometry_model(display.display)),
            ("display_generation"@, JsonModel::Unsigned(display.display_generation)),
            ("max_nodes"@, JsonModel::Unsigned(max_nodes as u64)),
            ("observation_id"@, JsonModel::Text(observation_id)),
            ("operation"@, JsonModel::Text("hierarchy"@)),
        ],
    )
}

/// The request for the hierarchy of the screen.
pub fn hierarchy_request(
    observation_id: &UuidV4,
    max_nodes: u32,
    display: &VisualDisplaySnapshot,
) -> (payload: Json)
    ensures
        payload@ == hierarchy_model(observation_id@, max_nodes, *display),
{
    let members = vec![
        entry("display", geometry_value(&display.display)),
        entry("display_generation", Json::Unsigned(display.display_generation)),
        entry("max_nodes", Json::Unsigned(max_nodes as u64)),
        entry("observation_id", text_value(observation_id.as_str())),
        entry("operation", text_value("hierarchy")),
    ];
    assert(member_models(members@) =~= hierarchy_model(
        observation_id@,
        max_nodes,
        *display,
    )->Object_0);
    object(members)
}

pub open spec fn region_model(region: Region) -> JsonModel {
    JsonModel::Object(
        seq![
            ("height"@, JsonModel::Unsigned(region.height as u64)),
            ("width"@, JsonModel::Unsigned(region.width as u64)),
            ("x"@, JsonModel::Unsigned(region.x as u64)),
            ("y"@, JsonModel::Unsigned(region.y as u64)),
        ],
    )
}

pub open spec fn transform_model(region: Option<Region>) -> JsonModel {
    JsonModel::Object(
        seq![
            (
                "region"@,
                match region {
                    Some(region) => region_model(region),
                    None => JsonModel::Null,
                },
            ),
        ],
    )
}

/// The request to transform an image.
pub fn transform_request(region: &Option<Region>) -> (payload: Json)
    ensures
        payload@ == transform_model(*region),
{
    let value = match region {
        Some(region) => {
            let members = vec![
                entry("height", Json::Unsigned(region.height as u64)),
                entry("width", Json::Unsigned(region.width as u64)),
                entry("x", Json::Unsigned(region.x as u64)),
                entry("y", Json::Unsigned(region.y as u64)),
            ];
            assert(member_models(members@) =~= region_model(*region)->Object_0);
            object(members)
        },
        None => Json::Null,
    };
    let members = vec![entry("region", value)];
    assert(member_models(members@) =~= transform_model(*region)->Object_0);
    object(members)
}

// ---------------------------------------------------------------------------------------
// Acting on the screen.
// ---------------------------------------------------------------------------------------

/// An action on the screen. `evidence` is what the accessibility service showed of the scene, where
/// it did.
#[derive(Debug)]
pub enum VisualInteractionRequest {
    Node {
        observation_id: UuidV4,
        node_ref: String,
        operation: String,
        text: Option<String>,
        display: VisualDisplaySnapshot,
        evidence: Option<Json>,
    },
    Coordinate {
        observation_id: UuidV4,
        operation: String,
        from_x: u32,
        from_y: u32,
        to_x: Option<u32>,
        to_y: Option<u32>,
        duration_ms: Option<u64>,
        display: VisualDisplaySnapshot,
        evidence: Option<Json>,
    },
    FocusedText { text: String },
    Key { key_code: i32, meta_state: i32 },
}

/// How an action is carried out.
#[derive(Debug)]
pub enum Interaction {
    /// The application executes a primitive.
    Companion { primitive: &'static str, payload: Json },
    /// The daemon acts itself.
    Root,
}

pub open spec fn optional_number(value: Option<u64>) -> JsonModel {
    match value {
        Some(value) => JsonModel::Unsigned(value),
        None => JsonModel::Null,
    }
}

fn number_or_null(value: Option<u64>) -> (json: Json)
    ensures
        json@ == optional_number(value),
{
    match value {
        Some(value) => Json::Unsigned(value),
        None => Json::Null,
    }
}

pub open spec fn widened(value: Option<u32>) -> Option<u64> {
    match value {
        Some(value) => Some(value as u64),
        None => None,
    }
}

fn wide(value: Option<u32>) -> (widened_value: Option<u64>)
    ensures
        widened_value == widened(value),
{
    match value {
        Some(value) => Some(value as u64),
        None => None,
    }
}

pub open spec fn optional_view(text: Option<String>) -> Option<Seq<char>> {
    match text {
        Some(text) => Some(text@),
        None => None,
    }
}

pub open spec fn node_model(
    observation_id: Seq<char>,
    node_ref: Seq<char>,
    operation: Seq<char>,
    text: Option<Seq<char>>,
    display: VisualDisplaySnapshot,
    evidence: JsonModel,
) -> JsonModel {
    JsonModel::Object(
        seq![
            ("display"@, geometry_model(display.display)),
            ("display_generation"@, JsonModel::Unsigned(display.display_generation)),
            ("node_ref"@, JsonModel::Text(node_ref)),
            ("observation_id"@, JsonModel::Text(observation_id)),
            ("operation"@, JsonModel::Text(operation)),
            ("proof"@, evidence),
            ("text"@, optional_text_model(text)),
        ],
    )
}

pub open spec fn gesture_model(
    observation_id: Seq<char>,
    operation: Seq<char>,
    from: (u32, u32),
    to: (Option<u32>, Option<u32>),
    duration_ms: Option<u64>,
    display: VisualDisplaySnapshot,
    evidence: JsonModel,
) -> JsonModel {
    JsonModel::Object(
        seq![
            ("display"@, geometry_model(display.display)),
            ("display_generation"@, JsonModel::Unsigned(display.display_generation)),
            ("duration_ms"@, optional_number(duration_ms)),
            ("from_x"@, JsonModel::Unsigned(from.0 as u64)),
            ("from_y"@, JsonModel::Unsigned(from.1 as u64)),
            ("observation_id"@, JsonModel::Text(observation_id)),
            ("operation"@, JsonModel::Text(operation)),
            ("proof"@, evidence),
            ("to_x"@, optional_number(widened(to.0))),
            ("to_y"@, optional_number(widened(to.1))),
        ],
    )
}

pub open spec fn focused_model(text: Seq<char>) -> JsonModel {
    JsonModel::Object(
        seq![("operation"@, JsonModel::Text("focused"@)), ("text"@, JsonModel::Text(text))],
    )
}

/// How an action is carried out: the accessibility service acts on nodes, coordinates and the
/// focused editor, each by its own primitive and, but for the editor, only with its own evidence of
/// the scene; the daemon acts on whatever is bound to it; nobody else acts.
pub open spec fn interaction_of(provider: ProviderToken, request: VisualInteractionRequest) -> Result<
    (Option<&'static str>, JsonModel),
    ExecutionFailure,
> {
    match provider {
        ProviderToken::Accessibility => match request {
            VisualInteractionRequest::Node {
                observation_id,
                node_ref,
                operation,
                text,
                display,
                evidence,
            } => match evidence {
                Some(evidence) => Ok(
                    (
                        Some(
                            if operation@ == "text"@ {
                                "AccessibilityText"
                            } else {
                                "AccessibilityNodeAction"
                            },
                        ),
                        node_model(
                            observation_id@,
                            node_ref@,
                            operation@,
                            optional_view(text),
                            display,
                            evidence@,
                        ),
                    ),
                ),
                None => Err(
                    clean(ErrorCode::StaleAuthority, "Accessibility interaction proof is invalid"),
                ),
            },
            VisualInteractionRequest::Coordinate {
                observation_id,
                operation,
                from_x,
                from_y,
                to_x,
                to_y,
                duration_ms,
                display,
                evidence,
            } => match evidence {
                Some(evidence) => Ok(
                    (
                        Some("AccessibilityGesture"),
                        gesture_model(
                            observation_id@,
                            operation@,
                            (from_x, from_y),
                            (to_x, to_y),
                            duration_ms,
                            display,
                            evidence@,
                        ),
                    ),
                ),
                None => Err(
                    clean(ErrorCode::StaleAuthority, "Accessibility interaction proof is invalid"),
                ),
            },
            VisualInteractionRequest::FocusedText { text } => Ok(
                (Some("AccessibilityText"), focused_model(text@)),
            ),
            VisualInteractionRequest::Key { .. } => Err(
                clean(ErrorCode::StaleAuthority, "Magisk visual interaction provider is invalid"),
            ),
        },
        ProviderToken::MagiskNative => Ok((None, JsonModel::Null)),
        _ => Err(clean(ErrorCode::StaleAuthority, "Magisk visual interaction provider is invalid")),
    }
}

/// What an interaction is: the primitive and its payload, if the application executes it.
pub open spec fn interaction_model(interaction: Result<Interaction, ExecutionFailure>) -> Result<
    (Option<&'static str>, JsonModel),
    ExecutionFailure,
> {
    match interaction {
        Ok(Interaction::Companion { primitive, payload }) => Ok((Some(primitive), payload@)),
        Ok(Interaction::Root) => Ok((None, JsonModel::Null)),
        Err(failure) => Err(failure),
    }
}

/// How an action is carried out.
pub fn interaction(provider: ProviderToken, request: &VisualInteractionRequest) -> (found: Result<
    Interaction,
    ExecutionFailure,
>)
    ensures
        interaction_model(found) == interaction_of(provider, *request),
{
    match provider {
        ProviderToken::Accessibility => match request {
            VisualInteractionRequest::Node {
                observation_id,
                node_ref,
                operation,
                text,
                display,
                evidence,
            } => {
                let primitive = if same(operation.as_str(), "text") {
                    "AccessibilityText"
                } else {
                    "AccessibilityNodeAction"
                };
                let evidence = match evidence {
                    Some(evidence) => evidence,
                    None => {
                        return Err(
                            clean_failure(
                                ErrorCode::StaleAuthority,
                                "Accessibility interaction proof is invalid",
                            ),
                        );
                    },
                };
                let shown = match text {
                    Some(text) => text_value(text.as_str()),
                    None => Json::Null,
                };
                let members = vec![
                    entry("display", geometry_value(&display.display)),
                    entry("display_generation", Json::Unsigned(display.display_generation)),
                    entry("node_ref", text_value(node_ref.as_str())),
                    entry("observation_id", text_value(observation_id.as_str())),
                    entry("operation", text_value(operation.as_str())),
                    entry("proof", evidence.clone()),
                    entry("text", shown),
                ];
                assert(member_models(members@) =~= node_model(
                    observation_id@,
                    node_ref@,
                    operation@,
                    optional_view(*text),
                    *display,
                    evidence@,
                )->Object_0);
                Ok(Interaction::Companion { primitive, payload: object(members) })
            },
            VisualInteractionRequest::Coordinate {
                observation_id,
                operation,
                from_x,
                from_y,
                to_x,
                to_y,
                duration_ms,
                display,
                evidence,
            } => {
                let evidence = match evidence {
                    Some(evidence) => evidence,
                    None => {
                        return Err(
                            clean_failure(
                                ErrorCode::StaleAuthority,
                                "Accessibility interaction proof is invalid",
                            ),
                        );
                    },
                };
                let members = vec![
                    entry("display", geometry_value(&display.display)),
                    entry("display_generation", Json::Unsigned(display.display_generation)),
                    entry("duration_ms", number_or_null(*duration_ms)),
                    entry("from_x", Json::Unsigned(*from_x as u64)),
                    entry("from_y", Json::Unsigned(*from_y as u64)),
                    entry("observation_id", text_value(observation_id.as_str())),
                    entry("operation", text_value(operation.as_str())),
                    entry("proof", evidence.clone()),
                    entry("to_x", number_or_null(wide(*to_x))),
                    entry("to_y", number_or_null(wide(*to_y))),
                ];
                assert(member_models(members@) =~= gesture_model(
                    observation_id@,
                    operation@,
                    (*from_x, *from_y),
                    (*to_x, *to_y),
                    *duration_ms,
                    *display,
                    evidence@,
                )->Object_0);
                Ok(
                    Interaction::Companion {
                        primitive: "AccessibilityGesture",
                        payload: object(members),
                    },
                )
            },
            VisualInteractionRequest::FocusedText { text } => {
                let members = vec![
                    entry("operation", text_value("focused")),
                    entry("text", text_value(text.as_str())),
                ];
                assert(member_models(members@) =~= focused_model(text@)->Object_0);
                Ok(
                    Interaction::Companion {
                        primitive: "AccessibilityText",
                        payload: object(members),
                    },
                )
            },
            VisualInteractionRequest::Key { .. } => Err(
                clean_failure(
                    ErrorCode::StaleAuthority,
                    "Magisk visual interaction provider is invalid",
                ),
            ),
        },
        ProviderToken::MagiskNative => Ok(Interaction::Root),
        _ => Err(
            clean_failure(
                ErrorCode::StaleAuthority,
                "Magisk visual interaction provider is invalid",
            ),
        ),
    }
}

fn same_optional(left: Option<u32>, right: Option<u32>) -> (equal: bool)
    ensures
        equal == (left == right),
{
    match (left, right) {
        (Some(left), Some(right)) => left == right,
        (None, None) => true,
        _ => false,
    }
}

/// Checks that the display is the one that was observed.
pub fn check_display(current: &VisualDisplaySnapshot, expected: &VisualDisplaySnapshot) -> (checked:
    Result<(), ExecutionFailure>)
    ensures
        checked == (if *current == *expected {
            Ok(())
        } else {
            Err(clean(ErrorCode::StaleReference, "privileged visual display changed"))
        }),
{
    if current.display.width == expected.display.width && current.display.height
        == expected.display.height && current.display.rotation == expected.display.rotation
        && same_optional(current.display.density_dpi, expected.display.density_dpi)
        && current.display_generation == expected.display_generation {
        return Ok(());
    }
    Err(clean_failure(ErrorCode::StaleReference, "privileged visual display changed"))
}

/// Checks that the scene is the one that was observed.
pub fn check_scene(unchanged: bool) -> (checked: Result<(), ExecutionFailure>)
    ensures
        checked == (if unchanged {
            Ok(())
        } else {
            Err(clean(ErrorCode::StaleReference, "privileged visual scene changed"))
        }),
{
    if unchanged {
        Ok(())
    } else {
        Err(clean_failure(ErrorCode::StaleReference, "privileged visual scene changed"))
    }
}

/// What the daemon does for an action.
#[derive(Debug)]
pub enum RootAction {
    Deliver(VisualRootPrimitive),
    /// The text is pasted, since it cannot be typed.
    Paste(String),
}

/// What a gesture at coordinates is, or why there is none.
pub open spec fn gesture_of(
    operation: Seq<char>,
    from: (u32, u32),
    to: (Option<u32>, Option<u32>),
    duration_ms: Option<u64>,
) -> Result<VisualRootPrimitive, ExecutionFailure> {
    if operation == "tap"@ {
        Ok(VisualRootPrimitive::Tap { x: from.0, y: from.1 })
    } else if operation == "long_press"@ {
        Ok(VisualRootPrimitive::LongPress { x: from.0, y: from.1 })
    } else if operation == "swipe"@ {
        match (to.0, to.1, duration_ms) {
            (None, _, _) => Err(clean(ErrorCode::InvalidArgument, "swipe x is missing")),
            (Some(_), None, _) => Err(clean(ErrorCode::InvalidArgument, "swipe y is missing")),
            (Some(_), Some(_), None) => Err(
                clean(ErrorCode::InvalidArgument, "swipe duration is missing"),
            ),
            (Some(to_x), Some(to_y), Some(duration_ms)) => Ok(
                VisualRootPrimitive::Swipe {
                    from_x: from.0,
                    from_y: from.1,
                    to_x,
                    to_y,
                    duration_ms,
                },
            ),
        }
    } else {
        Err(clean(ErrorCode::Unsupported, "visual coordinate operation is unsupported"))
    }
}

/// A gesture at coordinates.
pub fn root_gesture(
    operation: &str,
    from_x: u32,
    from_y: u32,
    to_x: Option<u32>,
    to_y: Option<u32>,
    duration_ms: Option<u64>,
) -> (primitive: Result<VisualRootPrimitive, ExecutionFailure>)
    ensures
        primitive == gesture_of(operation@, (from_x, from_y), (to_x, to_y), duration_ms),
{
    if same(operation, "tap") {
        return Ok(VisualRootPrimitive::Tap { x: from_x, y: from_y });
    }
    if same(operation, "long_press") {
        return Ok(VisualRootPrimitive::LongPress { x: from_x, y: from_y });
    }
    if !same(operation, "swipe") {
        return Err(
            clean_failure(
                ErrorCode::Unsupported,
                "visual coordinate operation is unsupported",
            ),
        );
    }
    let to_x = match to_x {
        Some(to_x) => to_x,
        None => {
            return Err(clean_failure(ErrorCode::InvalidArgument, "swipe x is missing"));
        },
    };
    let to_y = match to_y {
        Some(to_y) => to_y,
        None => {
            return Err(clean_failure(ErrorCode::InvalidArgument, "swipe y is missing"));
        },
    };
    match duration_ms {
        Some(duration_ms) => Ok(
            VisualRootPrimitive::Swipe { from_x, from_y, to_x, to_y, duration_ms },
        ),
        None => Err(clean_failure(ErrorCode::InvalidArgument, "swipe duration is missing")),
    }
}

/// Whether the input command can take `text` at all.
pub open spec fn is_focused_text(text: Seq<char>) -> bool {
    encode_utf8(text).len() <= FOCUSED_TEXT_LIMIT && !text.contains('\0')
}

/// Whether `action` is what the daemon does for an action, whose scene was found unchanged where it
/// has coordinates. `deliverable` tells whether the input command types the text of the action, and
/// `modifiers` are the keys to hold for its meta state, if there are such keys.
pub open spec fn is_root_action(
    action: Result<RootAction, ExecutionFailure>,
    request: VisualInteractionRequest,
    deliverable: bool,
    modifiers: Option<Seq<i32>>,
) -> bool {
    match request {
        VisualInteractionRequest::Coordinate {
            operation,
            from_x,
            from_y,
            to_x,
            to_y,
            duration_ms,
            ..
        } => action == (match gesture_of(
            operation@,
            (from_x, from_y),
            (to_x, to_y),
            duration_ms,
        ) {
            Ok(primitive) => Ok(RootAction::Deliver(primitive)),
            Err(failure) => Err(failure),
        }),
        VisualInteractionRequest::FocusedText { text } => if !is_focused_text(text@) {
            action == Err::<RootAction, _>(
                clean(
                    ErrorCode::Unsupported,
                    "root focused text exceeds the input command representation",
                ),
            )
        } else if deliverable {
            action matches Ok(RootAction::Deliver(VisualRootPrimitive::Text(typed))) && typed@
                == text@
        } else {
            action matches Ok(RootAction::Paste(pasted)) && pasted@ == text@
        },
        VisualInteractionRequest::Key { key_code, .. } => match modifiers {
            Some(keys) if key_code >= 0 => if keys.len() == 0 {
                action == Ok::<_, ExecutionFailure>(
                    RootAction::Deliver(VisualRootPrimitive::Key(key_code)),
                )
            } else {
                action matches Ok(RootAction::Deliver(VisualRootPrimitive::KeyCombination(held)))
                    && held@ == keys.push(key_code)
            },
            _ => action == Err::<RootAction, _>(
                clean(
                    ErrorCode::Unsupported,
                    "root key input cannot represent the requested meta state",
                ),
            ),
        },
        VisualInteractionRequest::Node { .. } => action == Err::<RootAction, _>(
            clean(ErrorCode::StaleAuthority, "privileged XML does not own actionable nodes"),
        ),
    }
}

/// What the daemon does for an action.
pub fn root_action(
    request: VisualInteractionRequest,
    deliverable: bool,
    modifiers: Option<Vec<i32>>,
) -> (action: Result<RootAction, ExecutionFailure>)
    ensures
        is_root_action(
            action,
            request,
            deliverable,
            match modifiers {
                Some(keys) => Some(keys@),
                None => None,
            },
        ),
{
    match request {
        VisualInteractionRequest::Coordinate {
            observation_id: _,
            operation,
            from_x,
            from_y,
            to_x,
            to_y,
            duration_ms,
            display: _,
            evidence: _,
        } => {
            match root_gesture(operation.as_str(), from_x, from_y, to_x, to_y, duration_ms) {
                Ok(primitive) => Ok(RootAction::Deliver(primitive)),
                Err(failure) => Err(failure),
            }
        },
        VisualInteractionRequest::FocusedText { text } => {
            if text.as_str().as_bytes().len() > FOCUSED_TEXT_LIMIT || contains_char(
                text.as_str(),
                '\0',
            ) {
                return Err(
                    clean_failure(
                        ErrorCode::Unsupported,
                        "root focused text exceeds the input command representation",
                    ),
                );
            }
            if !deliverable {
                return Ok(RootAction::Paste(text));
            }
            Ok(RootAction::Deliver(VisualRootPrimitive::Text(text)))
        },
        VisualInteractionRequest::Key { key_code, meta_state: _ } => {
            match modifiers {
                Some(keys) => {
                    if key_code >= 0 {
                        if keys.len() == 0 {
                            return Ok(RootAction::Deliver(VisualRootPrimitive::Key(key_code)));
                        }
                        let mut held = keys;
                        held.push(key_code);
                        return Ok(RootAction::Deliver(VisualRootPrimitive::KeyCombination(held)));
                    }
                },
                None => {},
            }
            Err(
                clean_failure(
                    ErrorCode::Unsupported,
                    "root key input cannot represent the requested meta state",
                ),
            )
        },
        VisualInteractionRequest::Node { .. } => Err(
            clean_failure(
                ErrorCode::StaleAuthority,
                "privileged XML does not own actionable nodes",
            ),
        ),
    }
}

pub open spec fn pasted_model(text: Seq<char>) -> JsonModel {
    JsonModel::Object(
        seq![("sensitive"@, JsonModel::Boolean(true)), ("text"@, JsonModel::Text(text))],
    )
}

/// What is written to the clipboard to be pasted. It is marked sensitive, so that keyboards keep it
/// out of their previews and histories.
pub fn pasted_clip(text: &str) -> (input: Json)
    ensures
        input@ == pasted_model(text@),
{
    let members = vec![
        entry("sensitive", Json::Boolean(true)),
        entry("text", text_value(text)),
    ];
    assert(member_models(members@) =~= pasted_model(text@)->Object_0);
    object(members)
}

pub open spec fn restore_of(previous: Option<Seq<char>>) -> (&'static str, JsonModel) {
    match previous {
        Some(text) => (
            "write",
            JsonModel::Object(seq![("text"@, JsonModel::Text(text))]),
        ),
        None => ("clear", JsonModel::Object(Seq::empty())),
    }
}

/// The clipboard operation that puts back what the clipboard held: its text, or nothing.
pub fn restore_clip(previous: &Option<String>) -> (operation: (&'static str, Json))
    ensures
        (operation.0, operation.1@) == restore_of(optional_view(*previous)),
{
    match previous {
        Some(text) => {
            let members = vec![entry("text", text_value(text.as_str()))];
            assert(member_models(members@) =~= seq![("text"@, JsonModel::Text(text@))]);
            ("write", object(members))
        },
        None => {
            let members: Vec<Member> = Vec::new();
            assert(member_models(members@) =~= Seq::empty());
            ("clear", object(members))
        },
    }
}

/// What came of a paste. A text that reached the editor must not be sent again, but the caller
/// learns that the clipboard still holds it.
pub fn paste_result(pasted: Result<(), ExecutionFailure>, restored: bool) -> (result: Result<
    (),
    ExecutionFailure,
>)
    ensures
        result == (match pasted {
            Err(failure) => Err(failure),
            Ok(()) => if restored {
                Ok(())
            } else {
                Err(
                    clean(
                        ErrorCode::ExecutionFailed,
                        "text was pasted but the previous clipboard could not be restored",
                    ),
                )
            },
        }),
{
    match pasted {
        Err(failure) => Err(failure),
        Ok(()) => {
            if restored {
                Ok(())
            } else {
                Err(
                    clean_failure(
                        ErrorCode::ExecutionFailed,
                        "text was pasted but the previous clipboard could not be restored",
                    ),
                )
            }
        },
    }
}

// ---------------------------------------------------------------------------------------
// Images and files.
// ---------------------------------------------------------------------------------------

/// Where the hierarchy of an execution is written.
pub fn hierarchy_path(execution_id: &UuidV4) -> (path: String)
    ensures
        path@ == "/data/local/tmp/droidbridge-ui-"@ + execution_id@ + ".xml"@,
{
    let front = joined("/data/local/tmp/droidbridge-ui-", execution_id.as_str());
    joined(front.as_str(), ".xml")
}

/// What came of reading the hierarchy: a file that stays behind is told before anything else.
pub fn hierarchy_result(read: Result<Vec<u8>, ExecutionFailure>, removed: bool) -> (result: Result<
    Vec<u8>,
    ExecutionFailure,
>)
    ensures
        result == (if removed {
            read
        } else {
            Err(
                ExecutionFailure {
                    error: DomainError {
                        code: ErrorCode::IoError,
                        reason: "privileged hierarchy cleanup failed",
                    },
                    cleanup_verified: false,
                },
            )
        }),
{
    if !removed {
        return Err(
            ExecutionFailure {
                error: DomainError::new(
                    ErrorCode::IoError,
                    "privileged hierarchy cleanup failed",
                ),
                cleanup_verified: false,
            },
        );
    }
    read
}

/// What came of an execution with a temporary file: a file that stays behind is told before
/// anything else.
pub fn finish_temp<T>(
    result: Result<T, ExecutionFailure>,
    cleanup: Result<(), DomainError>,
) -> (finished: Result<T, ExecutionFailure>)
    ensures
        finished == (match cleanup {
            Ok(()) => result,
            Err(error) => Err(ExecutionFailure { error, cleanup_verified: false }),
        }),
{
    match cleanup {
        Ok(()) => result,
        Err(error) => Err(ExecutionFailure { error, cleanup_verified: false }),
    }
}

/// The names of the temporary files of an execution.
pub fn temporary_names() -> (names: Vec<String>)
    ensures
        texts(names@) == seq!["visual-frame.raw"@, "visual-frame.png"@, "visual-source.image"@],
{
    let parts = ["visual-frame.raw", "visual-frame.png", "visual-source.image"];
    assert(slices(parts@) =~= seq![
        "visual-frame.raw"@,
        "visual-frame.png"@,
        "visual-source.image"@,
    ]);
    owned_texts(&parts)
}

/// Checks what was read of a stream, of which one byte more than `limit` is asked for.
pub fn check_stream(bytes: Vec<u8>, limit: usize) -> (checked: Result<Vec<u8>, DomainError>)
    ensures
        checked == (if bytes@.len() > limit {
            Err(
                DomainError {
                    code: ErrorCode::ResourceLimit,
                    reason: "visual stream exceeds its bound",
                },
            )
        } else {
            Ok(bytes)
        }),
{
    if bytes.len() > limit {
        return Err(
            DomainError::new(ErrorCode::ResourceLimit, "visual stream exceeds its bound"),
        );
    }
    Ok(bytes)
}

/// Checks that a source is a regular file.
pub fn check_source(regular: bool) -> (checked: Result<(), DomainError>)
    ensures
        checked == (if regular {
            Ok(())
        } else {
            Err(
                DomainError {
                    code: ErrorCode::IoError,
                    reason: "visual source is not a regular file",
                },
            )
        }),
{
    if regular {
        Ok(())
    } else {
        Err(DomainError::new(ErrorCode::IoError, "visual source is not a regular file"))
    }
}

/// Checks the executor of a path source: there is one, and it is the one that was admitted.
pub fn check_path_executor(found: bool, unchanged: bool) -> (checked: Result<(), ExecutionFailure>)
    ensures
        checked == (if !found {
            Err(
                clean(ErrorCode::Unsupported, "visual path source has no filesystem executor"),
            )
        } else if !unchanged {
            Err(
                clean(
                    ErrorCode::StaleAuthority,
                    "visual path source executor changed after admission",
                ),
            )
        } else {
            Ok(())
        }),
{
    if !found {
        return Err(
            clean_failure(
                ErrorCode::Unsupported,
                "visual path source has no filesystem executor",
            ),
        );
    }
    if !unchanged {
        return Err(
            clean_failure(
                ErrorCode::StaleAuthority,
                "visual path source executor changed after admission",
            ),
        );
    }
    Ok(())
}

/// Checks that a screen capture shows the display that was asked for.
pub fn check_capture(width: u32, height: u32, display: &VisualDisplaySnapshot) -> (checked: Result<
    (),
    ExecutionFailure,
>)
    ensures
        checked == (if width == display.display.width && height == display.display.height {
            Ok(())
        } else {
            Err(clean(ErrorCode::StaleAuthority, "PNG screen capture display changed"))
        }),
{
    if width != display.display.width || height != display.display.height {
        return Err(
            clean_failure(ErrorCode::StaleAuthority, "PNG screen capture display changed"),
        );
    }
    Ok(())
}

/// One encoded image.
#[derive(Debug)]
pub struct VisualEncodedImage {
    pub bytes: Vec<u8>,
    pub format: ImageFormat,
    pub width: u32,
    pub height: u32,
    pub captured_display: Option<VisualDisplaySnapshot>,
}

/// What a screen capture is: the compressed image, if its size is still that of the frame, with
/// the display that it shows.
pub open spec fn captured_image(
    encoded: VisualEncodedImage,
    width: u32,
    height: u32,
    display: VisualDisplaySnapshot,
) -> Result<VisualEncodedImage, ExecutionFailure> {
    if encoded.width == width && encoded.height == height {
        Ok(VisualEncodedImage { captured_display: Some(display), ..encoded })
    } else {
        Err(
            clean(
                ErrorCode::IoError,
                "compressed screen capture changed image dimensions",
            ),
        )
    }
}

/// Takes in the compressed image of a screen capture.
pub fn capture_result(
    encoded: VisualEncodedImage,
    width: u32,
    height: u32,
    display: VisualDisplaySnapshot,
) -> (image: Result<VisualEncodedImage, ExecutionFailure>)
    ensures
        image == captured_image(encoded, width, height, display),
{
    if encoded.width != width || encoded.height != height {
        return Err(
            clean_failure(
                ErrorCode::IoError,
                "compressed screen capture changed image dimensions",
            ),
        );
    }
    Ok(
        VisualEncodedImage {
            bytes: encoded.bytes,
            format: encoded.format,
            width: encoded.width,
            height: encoded.height,
            captured_display: Some(display),
        },
    )
}

/// What the application tells of an image that it encoded.
#[derive(Debug)]
pub struct EncodedImage {
    pub size: u64,
    pub format: ImageFormat,
    pub width: u32,
    pub height: u32,
    pub display: Option<DisplayGeometry>,
    pub display_generation: Option<u64>,
}

/// Checks the descriptors of an encoded image: there is exactly one, in its own role.
pub fn check_image_descriptors(roles: &[String]) -> (checked: Result<(), ExecutionFailure>)
    ensures
        checked == (if texts(roles@) == seq!["visual_encoded_image"@] {
            Ok(())
        } else {
            Err(
                clean(
                    ErrorCode::IoError,
                    "visual image result descriptor set is invalid",
                ),
            )
        }),
{
    proof {
        if texts(roles@) == seq!["visual_encoded_image"@] {
            assert(roles@.len() == 1);
            assert(texts(roles@)[0] == "visual_encoded_image"@);
        }
    }
    if roles.len() != 1 || !same(roles[0].as_str(), "visual_encoded_image") {
        return Err(
            clean_failure(
                ErrorCode::IoError,
                "visual image result descriptor set is invalid",
            ),
        );
    }
    assert(texts(roles@) =~= seq!["visual_encoded_image"@]);
    Ok(())
}

/// What is wrong with an encoded image, in the order in which it is looked for. `valid` is the
/// verdict on its bytes and `png_size` the size that they tell of a PNG image.
pub open spec fn image_fault(
    wire: EncodedImage,
    size: int,
    valid: Result<(), DomainError>,
    png_size: Result<(u32, u32), DomainError>,
    captured: bool,
) -> Option<ExecutionFailure> {
    if size != wire.size {
        Some(clean(ErrorCode::IoError, "visual image size is invalid"))
    } else if let Err(error) = valid {
        Some(ExecutionFailure { error, cleanup_verified: true })
    } else if wire.format is Png && png_size is Err {
        Some(ExecutionFailure { error: png_size->Err_0, cleanup_verified: true })
    } else if wire.format is Png && png_size->Ok_0 != (wire.width, wire.height) {
        Some(clean(ErrorCode::IoError, "visual PNG dimensions do not match metadata"))
    } else if captured && wire.display is None {
        Some(clean(ErrorCode::IoError, "captured display is missing"))
    } else if captured && wire.display_generation is None {
        Some(clean(ErrorCode::IoError, "captured display generation is missing"))
    } else if !captured && (wire.display is Some || wire.display_generation is Some) {
        Some(clean(ErrorCode::IoError, "transform returned a captured display"))
    } else {
        None
    }
}

/// Takes in an encoded image.
pub fn image_result(
    wire: EncodedImage,
    bytes: Vec<u8>,
    valid: Result<(), DomainError>,
    png_size: Result<(u32, u32), DomainError>,
    captured: bool,
) -> (image: Result<VisualEncodedImage, ExecutionFailure>)
    ensures
        match image_fault(wire, bytes@.len() as int, valid, png_size, captured) {
            Some(failure) => image == Err::<VisualEncodedImage, _>(failure),
            None => image == Ok::<_, ExecutionFailure>(
                VisualEncodedImage {
                    bytes,
                    format: wire.format,
                    width: wire.width,
                    height: wire.height,
                    captured_display: if captured {
                        Some(
                            VisualDisplaySnapshot {
                                display: wire.display->0,
                                display_generation: wire.display_generation->0,
                            },
                        )
                    } else {
                        None
                    },
                },
            ),
        },
{
    if bytes.len() as u64 != wire.size {
        return Err(clean_failure(ErrorCode::IoError, "visual image size is invalid"));
    }
    match valid {
        Err(error) => {
            return Err(pre_start(error));
        },
        Ok(()) => {},
    }
    match wire.format {
        ImageFormat::Png => match png_size {
            Err(error) => {
                return Err(pre_start(error));
            },
            Ok(size) => {
                if size.0 != wire.width || size.1 != wire.height {
                    return Err(
                        clean_failure(
                            ErrorCode::IoError,
                            "visual PNG dimensions do not match metadata",
                        ),
                    );
                }
            },
        },
        _ => {},
    }
    let captured_display = if captured {
        let display = match wire.display {
            Some(display) => display,
            None => {
                return Err(clean_failure(ErrorCode::IoError, "captured display is missing"));
            },
        };
        match wire.display_generation {
            Some(display_generation) => Some(
                VisualDisplaySnapshot { display, display_generation },
            ),
            None => {
                return Err(
                    clean_failure(ErrorCode::IoError, "captured display generation is missing"),
                );
            },
        }
    } else {
        if wire.display.is_some() || wire.display_generation.is_some() {
            return Err(
                clean_failure(ErrorCode::IoError, "transform returned a captured display"),
            );
        }
        None
    };
    Ok(
        VisualEncodedImage {
            bytes,
            format: wire.format,
            width: wire.width,
            height: wire.height,
            captured_display,
        },
    )
}

// ---------------------------------------------------------------------------------------
// Calls of the application.
// ---------------------------------------------------------------------------------------

/// Checks that a result came without descriptors.
pub fn require_no_descriptors(descriptors: usize) -> (checked: Result<(), ExecutionFailure>)
    ensures
        checked == (if descriptors == 0 {
            Ok(())
        } else {
            Err(
                clean(
                    ErrorCode::IoError,
                    "Android visual result returned unexpected descriptors",
                ),
            )
        }),
{
    if descriptors == 0 {
        Ok(())
    } else {
        Err(
            clean_failure(
                ErrorCode::IoError,
                "Android visual result returned unexpected descriptors",
            ),
        )
    }
}

pub open spec fn delivered_model() -> JsonModel {
    JsonModel::Object(seq![("delivered"@, JsonModel::Boolean(true))])
}

/// Checks that an action was delivered.
pub fn check_delivered(payload: &Json) -> (checked: Result<(), ExecutionFailure>)
    ensures
        checked == (if payload@ == delivered_model() {
            Ok(())
        } else {
            Err(clean(ErrorCode::IoError, "Android visual delivery result is invalid"))
        }),
{
    let members = vec![entry("delivered", Json::Boolean(true))];
    assert(member_models(members@) =~= delivered_model()->Object_0);
    if payload.same_as(&object(members)) {
        Ok(())
    } else {
        Err(clean_failure(ErrorCode::IoError, "Android visual delivery result is invalid"))
    }
}

/// A call that waits for the application, and whether its execution was cancelled meanwhile.
#[derive(Clone, Copy, Debug, PartialEq, Eq, Structural)]
pub struct CompanionCall {
    pub cancelled: bool,
}

impl CompanionCall {
    pub fn new() -> (call: Self)
        ensures
            !call.cancelled,
    {
        CompanionCall { cancelled: false }
    }

    /// One look at the execution: a cancellation is never forgotten.
    pub fn observe(&mut self, cancelled: bool)
        ensures
            final(self).cancelled == (old(self).cancelled || cancelled),
    {
        self.cancelled = self.cancelled || cancelled;
    }

    /// Whether to wait on while nothing has come.
    pub fn waits_on(&self, elapsed_ms: u64) -> (waits: bool)
        ensures
            waits == (elapsed_ms < COMPANION_DEADLINE_MS),
    {
        elapsed_ms < COMPANION_DEADLINE_MS
    }

    /// What a call gives, once something came or its deadline passed. Only a failure that the
    /// application reports as such leaves nothing behind; a result of a cancelled execution is
    /// not handed on.
    pub fn finish<T>(self, settled: Option<Result<T, DomainError>>) -> (result: Result<
        T,
        ExecutionFailure,
    >)
        ensures
            result == (match settled {
                None => Err(
                    ExecutionFailure {
                        error: DomainError {
                            code: ErrorCode::Timeout,
                            reason: "companion visual primitive did not settle within its deadline",
                        },
                        cleanup_verified: false,
                    },
                ),
                Some(Err(error)) => Err(
                    ExecutionFailure {
                        error,
                        cleanup_verified: error.reason@
                            == "companion execution reported a typed failure"@,
                    },
                ),
                Some(Ok(value)) => if self.cancelled {
                    Err(clean(ErrorCode::Cancelled, "visual execution was cancelled"))
                } else {
                    Ok(value)
                },
            }),
    {
        match settled {
            None => Err(
                ExecutionFailure {
                    error: DomainError::new(
                        ErrorCode::Timeout,
                        "companion visual primitive did not settle within its deadline",
                    ),
                    cleanup_verified: false,
                },
            ),
            Some(Err(error)) => {
                let typed = same(error.reason, "companion execution reported a typed failure");
                Err(ExecutionFailure { error, cleanup_verified: typed })
            },
            Some(Ok(value)) => {
                if self.cancelled {
                    return Err(
                        clean_failure(ErrorCode::Cancelled, "visual execution was cancelled"),
                    );
                }
                Ok(value)
            },
        }
    }
}

// ---------------------------------------------------------------------------------------
// What is asked for is what is sent.
// ---------------------------------------------------------------------------------------

/// The geometry that is sent is that of the display: each number by its own name, and a density
/// exactly if it is known.
pub proof fn a_display_is_sent_as_it_is(display: DisplayGeometry, value: Json)
    requires
        call_ensures(geometry_value, (&display,), value),
    ensures
        value@.get("width"@) == Some(JsonModel::Unsigned(display.width as u64)),
        value@.get("height"@) == Some(JsonModel::Unsigned(display.height as u64)),
        value@.get("rotation"@) == Some(JsonModel::Unsigned(display.rotation as u64)),
        value@.get("density_dpi"@) == (match display.density_dpi {
            Some(density) => Some(JsonModel::Unsigned(density as u64)),
            None => None,
        }),
{
    lemma_geometry(display);
}

proof fn lemma_geometry(display: DisplayGeometry)
    ensures
        geometry_model(display).get("width"@) == Some(JsonModel::Unsigned(display.width as u64)),
        geometry_model(display).get("height"@) == Some(JsonModel::Unsigned(display.height as u64)),
        geometry_model(display).get("rotation"@) == Some(
            JsonModel::Unsigned(display.rotation as u64),
        ),
        geometry_model(display).get("density_dpi"@) == (match display.density_dpi {
            Some(density) => Some(JsonModel::Unsigned(density as u64)),
            None => None,
        }),
{
    assert("density_dpi"@ != "height"@) by {
        reveal_strlit("density_dpi");
        reveal_strlit("height");
        assert("density_dpi"@.len() != "height"@.len());
    }
    assert("density_dpi"@ != "rotation"@) by {
        reveal_strlit("density_dpi");
        reveal_strlit("rotation");
        assert("density_dpi"@.len() != "rotation"@.len());
    }
    assert("density_dpi"@ != "width"@) by {
        reveal_strlit("density_dpi");
        reveal_strlit("width");
        assert("density_dpi"@.len() != "width"@.len());
    }
    assert("height"@ != "rotation"@) by {
        reveal_strlit("height");
        reveal_strlit("rotation");
        assert("height"@.len() != "rotation"@.len());
    }
    assert("height"@ != "width"@) by {
        reveal_strlit("height");
        reveal_strlit("width");
        assert("height"@.len() != "width"@.len());
    }
    assert("rotation"@ != "width"@) by {
        reveal_strlit("rotation");
        reveal_strlit("width");
        assert("rotation"@.len() != "width"@.len());
    }
    let members = geometry_model(display)->Object_0;
    let first: int = if display.density_dpi is Some {
        1
    } else {
        0
    };
    lemma_member_at(members, first);
    lemma_member_at(members, first + 1);
    lemma_member_at(members, first + 2);
    if display.density_dpi is Some {
        lemma_member_at(members, 0);
    } else {
        reveal_with_fuel(member, 5);
    }
}

/// The request for a hierarchy carries the observation, the bound and the display that it was made
/// with.
pub proof fn a_hierarchy_is_asked_for_as_it_was_admitted(
    observation_id: UuidV4,
    max_nodes: u32,
    display: VisualDisplaySnapshot,
    payload: Json,
)
    requires
        call_ensures(hierarchy_request, (&observation_id, max_nodes, &display), payload),
    ensures
        payload@.get("observation_id"@) == Some(JsonModel::Text(observation_id@)),
        payload@.get("max_nodes"@) == Some(JsonModel::Unsigned(max_nodes as u64)),
        payload@.get("display_generation"@) == Some(
            JsonModel::Unsigned(display.display_generation),
        ),
        payload@.get("operation"@) == Some(JsonModel::Text("hierarchy"@)),
        payload@.get("display"@) is Some,
        payload@.get("display"@)->0.get("width"@) == Some(
            JsonModel::Unsigned(display.display.width as u64),
        ),
        payload@.get("display"@)->0.get("height"@) == Some(
            JsonModel::Unsigned(display.display.height as u64),
        ),
        payload@.get("display"@)->0.get("rotation"@) == Some(
            JsonModel::Unsigned(display.display.rotation as u64),
        ),
{
    let members = payload@->Object_0;
    assert("display"@ != "display_generation"@) by {
        reveal_strlit("display");
        reveal_strlit("display_generation");
        assert("display"@.len() != "display_generation"@.len());
    }
    assert("display"@ != "max_nodes"@) by {
        reveal_strlit("display");
        reveal_strlit("max_nodes");
        assert("display"@.len() != "max_nodes"@.len());
    }
    assert("display"@ != "observation_id"@) by {
        reveal_strlit("display");
        reveal_strlit("observation_id");
        assert("display"@.len() != "observation_id"@.len());
    }
    assert("display"@ != "operation"@) by {
        reveal_strlit("display");
        reveal_strlit("operation");
        assert("display"@.len() != "operation"@.len());
    }
    assert("display_generation"@ != "max_nodes"@) by {
        reveal_strlit("display_generation");
        reveal_strlit("max_nodes");
        assert("display_generation"@.len() != "max_nodes"@.len());
    }
    assert("display_generation"@ != "observation_id"@) by {
        reveal_strlit("display_generation");
        reveal_strlit("observation_id");
        assert("display_generation"@.len() != "observation_id"@.len());
    }
    assert("display_generation"@ != "operation"@) by {
        reveal_strlit("display_generation");
        reveal_strlit("operation");
        assert("display_generation"@.len() != "operation"@.len());
    }
    assert("max_nodes"@ != "observation_id"@) by {
        reveal_strlit("max_nodes");
        reveal_strlit("observation_id");
        assert("max_nodes"@.len() != "observation_id"@.len());
    }
    assert("max_nodes"@ != "operation"@) by {
        reveal_strlit("max_nodes");
        reveal_strlit("operation");
        assert("max_nodes"@[0] != "operation"@[0]);
    }
    assert("observation_id"@ != "operation"@) by {
        reveal_strlit("observation_id");
        reveal_strlit("operation");
        assert("observation_id"@.len() != "operation"@.len());
    }
    lemma_member_at(members, 0);
    lemma_member_at(members, 1);
    lemma_member_at(members, 2);
    lemma_member_at(members, 3);
    lemma_member_at(members, 4);
    lemma_geometry(display.display);
}

/// The request to transform an image names the region by its corner and its size, or no region.
pub proof fn a_region_is_cut_where_it_was_asked(region: Option<Region>, payload: Json)
    requires
        call_ensures(transform_request, (&region,), payload),
    ensures
        region is None ==> payload@.get("region"@) == Some(JsonModel::Null),
        region matches Some(region) ==> {
            let cut = payload@.get("region"@)->0;
            &&& payload@.get("region"@) is Some
            &&& cut.get("x"@) == Some(JsonModel::Unsigned(region.x as u64))
            &&& cut.get("y"@) == Some(JsonModel::Unsigned(region.y as u64))
            &&& cut.get("width"@) == Some(JsonModel::Unsigned(region.width as u64))
            &&& cut.get("height"@) == Some(JsonModel::Unsigned(region.height as u64))
        },
{
    lemma_member_at(payload@->Object_0, 0);
    if region is Some {
        let members = region_model(region->0)->Object_0;
        assert("height"@ != "width"@) by {
            reveal_strlit("height");
            reveal_strlit("width");
            assert("height"@.len() != "width"@.len());
        }
        assert("height"@ != "x"@) by {
            reveal_strlit("height");
            reveal_strlit("x");
            assert("height"@.len() != "x"@.len());
        }
        assert("height"@ != "y"@) by {
            reveal_strlit("height");
            reveal_strlit("y");
            assert("height"@.len() != "y"@.len());
        }
        assert("width"@ != "x"@) by {
            reveal_strlit("width");
            reveal_strlit("x");
            assert("width"@.len() != "x"@.len());
        }
        assert("width"@ != "y"@) by {
            reveal_strlit("width");
            reveal_strlit("y");
            assert("width"@.len() != "y"@.len());
        }
        assert("x"@ != "y"@) by {
            reveal_strlit("x");
            reveal_strlit("y");
            assert("x"@[0] != "y"@[0]);
        }
        lemma_member_at(members, 0);
        lemma_member_at(members, 1);
        lemma_member_at(members, 2);
        lemma_member_at(members, 3);
    }
}

/// A gesture that the accessibility service is asked for is the one that was requested: it starts
/// and ends at the requested coordinates, takes the requested time, and carries the observation,
/// the display and the evidence that it was admitted by. Without evidence nothing is sent.
pub proof fn a_gesture_goes_where_it_was_asked(
    request: VisualInteractionRequest,
    found: Result<Interaction, ExecutionFailure>,
)
    requires
        call_ensures(interaction, (ProviderToken::Accessibility, &request), found),
        request is Coordinate,
    ensures
        request->Coordinate_evidence is None ==> found is Err,
        request->Coordinate_evidence is Some ==> {
            let payload = found->Ok_0->payload@;
            &&& found is Ok
            &&& found->Ok_0 is Companion
            &&& found->Ok_0->primitive@ == "AccessibilityGesture"@
            &&& payload.get("from_x"@) == Some(JsonModel::Unsigned(request->from_x as u64))
            &&& payload.get("from_y"@) == Some(JsonModel::Unsigned(request->from_y as u64))
            &&& payload.get("to_x"@) == Some(
                match request->to_x {
                    Some(x) => JsonModel::Unsigned(x as u64),
                    None => JsonModel::Null,
                },
            )
            &&& payload.get("to_y"@) == Some(
                match request->to_y {
                    Some(y) => JsonModel::Unsigned(y as u64),
                    None => JsonModel::Null,
                },
            )
            &&& payload.get("duration_ms"@) == Some(
                match request->duration_ms {
                    Some(duration_ms) => JsonModel::Unsigned(duration_ms),
                    None => JsonModel::Null,
                },
            )
            &&& payload.get("operation"@) == Some(JsonModel::Text(request->Coordinate_operation@))
            &&& payload.get("observation_id"@) == Some(
                JsonModel::Text(request->Coordinate_observation_id@),
            )
            &&& payload.get("display_generation"@) == Some(
                JsonModel::Unsigned(request->Coordinate_display.display_generation),
            )
            &&& payload.get("display"@) is Some
            &&& payload.get("display"@)->0.get("width"@) == Some(
                JsonModel::Unsigned(request->Coordinate_display.display.width as u64),
            )
            &&& payload.get("display"@)->0.get("height"@) == Some(
                JsonModel::Unsigned(request->Coordinate_display.display.height as u64),
            )
            &&& payload.get("display"@)->0.get("rotation"@) == Some(
                JsonModel::Unsigned(request->Coordinate_display.display.rotation as u64),
            )
            &&& payload.get("proof"@) == Some(request->Coordinate_evidence->0@)
        },
{
    if request->Coordinate_evidence is Some {
        let members = gesture_model(
            request->Coordinate_observation_id@,
            request->Coordinate_operation@,
            (request->from_x, request->from_y),
            (request->to_x, request->to_y),
            request->duration_ms,
            request->Coordinate_display,
            request->Coordinate_evidence->0@,
        )->Object_0;
        assert("display"@ != "display_generation"@) by {
            reveal_strlit("display");
            reveal_strlit("display_generation");
            assert("display"@.len() != "display_generation"@.len());
        }
        assert("display"@ != "duration_ms"@) by {
            reveal_strlit("display");
            reveal_strlit("duration_ms");
            assert("display"@.len() != "duration_ms"@.len());
        }
        assert("display"@ != "from_x"@) by {
            reveal_strlit("display");
            reveal_strlit("from_x");
            assert("display"@.len() != "from_x"@.len());
        }
        assert("display"@ != "from_y"@) by {
            reveal_strlit("display");
            reveal_strlit("from_y");
            assert("display"@.len() != "from_y"@.len());
        }
        assert("display"@ != "observation_id"@) by {
            reveal_strlit("display");
            reveal_strlit("observation_id");
            assert("display"@.len() != "observation_id"@.len());
        }
        assert("display"@ != "operation"@) by {
            reveal_strlit("display");
            reveal_strlit("operation");
            assert("display"@.len() != "operation"@.len());
        }
        assert("display"@ != "proof"@) by {
            reveal_strlit("display");
            reveal_strlit("proof");
            assert("display"@.len() != "proof"@.len());
        }
        assert("display"@ != "to_x"@) by {
            reveal_strlit("display");
            reveal_strlit("to_x");
            assert("display"@.len() != "to_x"@.len());
        }
        assert("display"@ != "to_y"@) by {
            reveal_strlit("display");
            reveal_strlit("to_y");
            assert("display"@.len() != "to_y"@.len());
        }
        assert("display_generation"@ != "duration_ms"@) by {
            reveal_strlit("display_generation");
            reveal_strlit("duration_ms");
            assert("display_generation"@.len() != "duration_ms"@.len());
        }
        assert("display_generation"@ != "from_x"@) by {
            reveal_strlit("display_generation");
            reveal_strlit("from_x");
            assert("display_generation"@.len() != "from_x"@.len());
        }
        assert("display_generation"@ != "from_y"@) by {
            reveal_strlit("display_generation");
            reveal_strlit("from_y");
            assert("display_generation"@.len() != "from_y"@.len());
        }
        assert("display_generation"@ != "observation_id"@) by {
            reveal_strlit("display_generation");
            reveal_strlit("observation_id");
            assert("display_generation"@.len() != "observation_id"@.len());
        }
        assert("display_generation"@ != "operation"@) by {
            reveal_strlit("display_generation");
            reveal_strlit("operation");
            assert("display_generation"@.len() != "operation"@.len());
        }
        assert("display_generation"@ != "proof"@) by {
            reveal_strlit("display_generation");
            reveal_strlit("proof");
            assert("display_generation"@.len() != "proof"@.len());
        }
        assert("display_generation"@ != "to_x"@) by {
            reveal_strlit("display_generation");
            reveal_strlit("to_x");
            assert("display_generation"@.len() != "to_x"@.len());
        }
        assert("display_generation"@ != "to_y"@) by {
            reveal_strlit("display_generation");
            reveal_strlit("to_y");
            assert("display_generation"@.len() != "to_y"@.len());
        }
        assert("duration_ms"@ != "from_x"@) by {
            reveal_strlit("duration_ms");
            reveal_strlit("from_x");
            assert("duration_ms"@.len() != "from_x"@.len());
        }
        assert("duration_ms"@ != "from_y"@) by {
            reveal_strlit("duration_ms");
            reveal_strlit("from_y");
            assert("duration_ms"@.len() != "from_y"@.len());
        }
        assert("duration_ms"@ != "observation_id"@) by {
            reveal_strlit("duration_ms");
            reveal_strlit("observation_id");
            assert("duration_ms"@.len() != "observation_id"@.len());
        }
        assert("duration_ms"@ != "operation"@) by {
            reveal_strlit("duration_ms");
            reveal_strlit("operation");
            assert("duration_ms"@.len() != "operation"@.len());
        }
        assert("duration_ms"@ != "proof"@) by {
            reveal_strlit("duration_ms");
            reveal_strlit("proof");
            assert("duration_ms"@.len() != "proof"@.len());
        }
        assert("duration_ms"@ != "to_x"@) by {
            reveal_strlit("duration_ms");
            reveal_strlit("to_x");
            assert("duration_ms"@.len() != "to_x"@.len());
        }
        assert("duration_ms"@ != "to_y"@) by {
            reveal_strlit("duration_ms");
            reveal_strlit("to_y");
            assert("duration_ms"@.len() != "to_y"@.len());
        }
        assert("from_x"@ != "from_y"@) by {
            reveal_strlit("from_x");
            reveal_strlit("from_y");
            assert("from_x"@[5] != "from_y"@[5]);
        }
        assert("from_x"@ != "observation_id"@) by {
            reveal_strlit("from_x");
            reveal_strlit("observation_id");
            assert("from_x"@.len() != "observation_id"@.len());
        }
        assert("from_x"@ != "operation"@) by {
            reveal_strlit("from_x");
            reveal_strlit("operation");
            assert("from_x"@.len() != "operation"@.len());
        }
        assert("from_x"@ != "proof"@) by {
            reveal_strlit("from_x");
            reveal_strlit("proof");
            assert("from_x"@.len() != "proof"@.len());
        }
        assert("from_x"@ != "to_x"@) by {
            reveal_strlit("from_x");
            reveal_strlit("to_x");
            assert("from_x"@.len() != "to_x"@.len());
        }
        assert("from_x"@ != "to_y"@) by {
            reveal_strlit("from_x");
            reveal_strlit("to_y");
            assert("from_x"@.len() != "to_y"@.len());
        }
        assert("from_y"@ != "observation_id"@) by {
            reveal_strlit("from_y");
            reveal_strlit("observation_id");
            assert("from_y"@.len() != "observation_id"@.len());
        }
        assert("from_y"@ != "operation"@) by {
            reveal_strlit("from_y");
            reveal_strlit("operation");
            assert("from_y"@.len() != "operation"@.len());
        }
        assert("from_y"@ != "proof"@) by {
            reveal_strlit("from_y");
            reveal_strlit("proof");
            assert("from_y"@.len() != "proof"@.len());
        }
        assert("from_y"@ != "to_x"@) by {
            reveal_strlit("from_y");
            reveal_strlit("to_x");
            assert("from_y"@.len() != "to_x"@.len());
        }
        assert("from_y"@ != "to_y"@) by {
            reveal_strlit("from_y");
            reveal_strlit("to_y");
            assert("from_y"@.len() != "to_y"@.len());
        }
        assert("observation_id"@ != "operation"@) by {
            reveal_strlit("observation_id");
            reveal_strlit("operation");
            assert("observation_id"@.len() != "operation"@.len());
        }
        assert("observation_id"@ != "proof"@) by {
            reveal_strlit("observation_id");
            reveal_strlit("proof");
            assert("observation_id"@.len() != "proof"@.len());
        }
        assert("observation_id"@ != "to_x"@) by {
            reveal_strlit("observation_id");
            reveal_strlit("to_x");
            assert("observation_id"@.len() != "to_x"@.len());
        }
        assert("observation_id"@ != "to_y"@) by {
            reveal_strlit("observation_id");
            reveal_strlit("to_y");
            assert("observation_id"@.len() != "to_y"@.len());
        }
        assert("operation"@ != "proof"@) by {
            reveal_strlit("operation");
            reveal_strlit("proof");
            assert("operation"@.len() != "proof"@.len());
        }
        assert("operation"@ != "to_x"@) by {
            reveal_strlit("operation");
            reveal_strlit("to_x");
            assert("operation"@.len() != "to_x"@.len());
        }
        assert("operation"@ != "to_y"@) by {
            reveal_strlit("operation");
            reveal_strlit("to_y");
            assert("operation"@.len() != "to_y"@.len());
        }
        assert("proof"@ != "to_x"@) by {
            reveal_strlit("proof");
            reveal_strlit("to_x");
            assert("proof"@.len() != "to_x"@.len());
        }
        assert("proof"@ != "to_y"@) by {
            reveal_strlit("proof");
            reveal_strlit("to_y");
            assert("proof"@.len() != "to_y"@.len());
        }
        assert("to_x"@ != "to_y"@) by {
            reveal_strlit("to_x");
            reveal_strlit("to_y");
            assert("to_x"@[3] != "to_y"@[3]);
        }
        lemma_member_at(members, 0);
        lemma_member_at(members, 1);
        lemma_member_at(members, 2);
        lemma_member_at(members, 3);
        lemma_member_at(members, 4);
        lemma_member_at(members, 5);
        lemma_member_at(members, 6);
        lemma_member_at(members, 7);
        lemma_member_at(members, 8);
        lemma_member_at(members, 9);
        lemma_geometry(request->Coordinate_display.display);
    }
}

/// An action on a node that the accessibility service is asked for names the requested node, the
/// operation and its text, and carries the observation, the display and the evidence that it was
/// admitted by. Only the operation that enters text goes to the primitive for texts.
pub proof fn a_node_is_acted_on_as_it_was_asked(
    request: VisualInteractionRequest,
    found: Result<Interaction, ExecutionFailure>,
)
    requires
        call_ensures(interaction, (ProviderToken::Accessibility, &request), found),
        request is Node,
    ensures
        request->Node_evidence is None ==> found is Err,
        request->Node_evidence is Some ==> {
            let payload = found->Ok_0->payload@;
            &&& found is Ok
            &&& found->Ok_0 is Companion
            &&& found->Ok_0->primitive@ == if request->Node_operation@ == "text"@ {
                "AccessibilityText"@
            } else {
                "AccessibilityNodeAction"@
            }
            &&& payload.get("node_ref"@) == Some(JsonModel::Text(request->node_ref@))
            &&& payload.get("text"@) == Some(
                match request->Node_text {
                    Some(text) => JsonModel::Text(text@),
                    None => JsonModel::Null,
                },
            )
            &&& payload.get("operation"@) == Some(JsonModel::Text(request->Node_operation@))
            &&& payload.get("observation_id"@) == Some(
                JsonModel::Text(request->Node_observation_id@),
            )
            &&& payload.get("display_generation"@) == Some(
                JsonModel::Unsigned(request->Node_display.display_generation),
            )
            &&& payload.get("display"@) is Some
            &&& payload.get("display"@)->0.get("width"@) == Some(
                JsonModel::Unsigned(request->Node_display.display.width as u64),
            )
            &&& payload.get("display"@)->0.get("height"@) == Some(
                JsonModel::Unsigned(request->Node_display.display.height as u64),
            )
            &&& payload.get("display"@)->0.get("rotation"@) == Some(
                JsonModel::Unsigned(request->Node_display.display.rotation as u64),
            )
            &&& payload.get("proof"@) == Some(request->Node_evidence->0@)
        },
{
    if request->Node_evidence is Some {
        let members = node_model(
            request->Node_observation_id@,
            request->node_ref@,
            request->Node_operation@,
            optional_view(request->Node_text),
            request->Node_display,
            request->Node_evidence->0@,
        )->Object_0;
        assert("display"@ != "display_generation"@) by {
            reveal_strlit("display");
            reveal_strlit("display_generation");
            assert("display"@.len() != "display_generation"@.len());
        }
        assert("display"@ != "node_ref"@) by {
            reveal_strlit("display");
            reveal_strlit("node_ref");
            assert("display"@.len() != "node_ref"@.len());
        }
        assert("display"@ != "observation_id"@) by {
            reveal_strlit("display");
            reveal_strlit("observation_id");
            assert("display"@.len() != "observation_id"@.len());
        }
        assert("display"@ != "operation"@) by {
            reveal_strlit("display");
            reveal_strlit("operation");
            assert("display"@.len() != "operation"@.len());
        }
        assert("display"@ != "proof"@) by {
            reveal_strlit("display");
            reveal_strlit("proof");
            assert("display"@.len() != "proof"@.len());
        }
        assert("display"@ != "text"@) by {
            reveal_strlit("display");
            reveal_strlit("text");
            assert("display"@.len() != "text"@.len());
        }
        assert("display_generation"@ != "node_ref"@) by {
            reveal_strlit("display_generation");
            reveal_strlit("node_ref");
            assert("display_generation"@.len() != "node_ref"@.len());
        }
        assert("display_generation"@ != "observation_id"@) by {
            reveal_strlit("display_generation");
            reveal_strlit("observation_id");
            assert("display_generation"@.len() != "observation_id"@.len());
        }
        assert("display_generation"@ != "operation"@) by {
            reveal_strlit("display_generation");
            reveal_strlit("operation");
            assert("display_generation"@.len() != "operation"@.len());
        }
        assert("display_generation"@ != "proof"@) by {
            reveal_strlit("display_generation");
            reveal_strlit("proof");
            assert("display_generation"@.len() != "proof"@.len());
        }
        assert("display_generation"@ != "text"@) by {
            reveal_strlit("display_generation");
            reveal_strlit("text");
            assert("display_generation"@.len() != "text"@.len());
        }
        assert("node_ref"@ != "observation_id"@) by {
            reveal_strlit("node_ref");
            reveal_strlit("observation_id");
            assert("node_ref"@.len() != "observation_id"@.len());
        }
        assert("node_ref"@ != "operation"@) by {
            reveal_strlit("node_ref");
            reveal_strlit("operation");
            assert("node_ref"@.len() != "operation"@.len());
        }
        assert("node_ref"@ != "proof"@) by {
            reveal_strlit("node_ref");
            reveal_strlit("proof");
            assert("node_ref"@.len() != "proof"@.len());
        }
        assert("node_ref"@ != "text"@) by {
            reveal_strlit("node_ref");
            reveal_strlit("text");
            assert("node_ref"@.len() != "text"@.len());
        }
        assert("observation_id"@ != "operation"@) by {
            reveal_strlit("observation_id");
            reveal_strlit("operation");
            assert("observation_id"@.len() != "operation"@.len());
        }
        assert("observation_id"@ != "proof"@) by {
            reveal_strlit("observation_id");
            reveal_strlit("proof");
            assert("observation_id"@.len() != "proof"@.len());
        }
        assert("observation_id"@ != "text"@) by {
            reveal_strlit("observation_id");
            reveal_strlit("text");
            assert("observation_id"@.len() != "text"@.len());
        }
        assert("operation"@ != "proof"@) by {
            reveal_strlit("operation");
            reveal_strlit("proof");
            assert("operation"@.len() != "proof"@.len());
        }
        assert("operation"@ != "text"@) by {
            reveal_strlit("operation");
            reveal_strlit("text");
            assert("operation"@.len() != "text"@.len());
        }
        assert("proof"@ != "text"@) by {
            reveal_strlit("proof");
            reveal_strlit("text");
            assert("proof"@.len() != "text"@.len());
        }
        lemma_member_at(members, 0);
        lemma_member_at(members, 1);
        lemma_member_at(members, 2);
        lemma_member_at(members, 3);
        lemma_member_at(members, 4);
        lemma_member_at(members, 5);
        lemma_member_at(members, 6);
        lemma_geometry(request->Node_display.display);
    }
}

/// Whoever the provider is: the service is sent the text for the focused editor as it is and never
/// a key, the daemon acts itself on whatever is bound to it, and nobody else acts.
pub proof fn only_a_bound_provider_acts(
    provider: ProviderToken,
    request: VisualInteractionRequest,
    found: Result<Interaction, ExecutionFailure>,
)
    requires
        call_ensures(interaction, (provider, &request), found),
    ensures
        provider is MagiskNative ==> found is Ok && found->Ok_0 is Root,
        provider is Accessibility && request is Key ==> found is Err,
        provider is Accessibility && request is FocusedText ==> {
            &&& found is Ok
            &&& found->Ok_0 is Companion
            &&& found->Ok_0->primitive@ == "AccessibilityText"@
            &&& found->Ok_0->payload@.get("text"@) == Some(
                JsonModel::Text(request->FocusedText_text@),
            )
            &&& found->Ok_0->payload@.get("operation"@) == Some(JsonModel::Text("focused"@))
        },
        !(provider is MagiskNative) && !(provider is Accessibility) ==> found is Err,
        found matches Ok(Interaction::Root) ==> provider is MagiskNative,
        found matches Err(failure) ==> failure.cleanup_verified && failure.error.code
            is StaleAuthority,
{
    if provider is Accessibility && request is FocusedText {
        let members = focused_model(request->FocusedText_text@)->Object_0;
        assert("operation"@ != "text"@) by {
            reveal_strlit("operation");
            reveal_strlit("text");
            assert("operation"@.len() != "text"@.len());
        }
        lemma_member_at(members, 0);
        lemma_member_at(members, 1);
    }
}

/// A gesture of the daemon itself is the requested one: every coordinate is the requested one, a
/// tap and a long press happen where they start, and a swipe needs its end and its time.
pub proof fn a_root_gesture_goes_where_it_was_asked(
    operation: &str,
    from_x: u32,
    from_y: u32,
    to_x: Option<u32>,
    to_y: Option<u32>,
    duration_ms: Option<u64>,
    primitive: Result<VisualRootPrimitive, ExecutionFailure>,
)
    requires
        call_ensures(root_gesture, (operation, from_x, from_y, to_x, to_y, duration_ms), primitive),
    ensures
        operation@ == "tap"@ ==> primitive is Ok && primitive->Ok_0 is Tap,
        operation@ == "long_press"@ ==> primitive is Ok && primitive->Ok_0 is LongPress,
        operation@ == "swipe"@ ==> (primitive is Ok <==> to_x is Some && to_y is Some && duration_ms
            is Some),
        primitive matches Ok(VisualRootPrimitive::Tap { x, y }) ==> operation@ == "tap"@ && x
            == from_x && y == from_y,
        primitive matches Ok(VisualRootPrimitive::LongPress { x, y }) ==> operation@
            == "long_press"@ && x == from_x && y == from_y,
        primitive matches Ok(
            VisualRootPrimitive::Swipe { from_x: fx, from_y: fy, to_x: tx, to_y: ty, duration_ms: d },
        ) ==> operation@ == "swipe"@ && fx == from_x && fy == from_y && Some(tx) == to_x && Some(ty)
            == to_y && Some(d) == duration_ms,
        primitive is Ok ==> operation@ == "tap"@ || operation@ == "long_press"@ || operation@
            == "swipe"@,
        primitive matches Err(failure) ==> failure.cleanup_verified,
{
    assert("tap"@ != "long_press"@) by {
        reveal_strlit("tap");
        reveal_strlit("long_press");
        assert("tap"@.len() != "long_press"@.len());
    }
    assert("tap"@ != "swipe"@) by {
        reveal_strlit("tap");
        reveal_strlit("swipe");
        assert("tap"@.len() != "swipe"@.len());
    }
    assert("long_press"@ != "swipe"@) by {
        reveal_strlit("long_press");
        reveal_strlit("swipe");
        assert("long_press"@.len() != "swipe"@.len());
    }
}

/// What the daemon does for an action is what was asked: the gesture at the coordinates, the text as
/// it is, typed or pasted, and the key last, after the keys that are held for it.
pub proof fn the_daemon_does_what_was_asked(
    request: VisualInteractionRequest,
    deliverable: bool,
    modifiers: Option<Vec<i32>>,
    action: Result<RootAction, ExecutionFailure>,
)
    requires
        call_ensures(root_action, (request, deliverable, modifiers), action),
    ensures
        request is Node ==> action is Err,
        action matches Ok(RootAction::Deliver(VisualRootPrimitive::Tap { x, y })) ==> request
            is Coordinate && request->Coordinate_operation@ == "tap"@ && x == request->from_x && y
            == request->from_y,
        action matches Ok(RootAction::Deliver(VisualRootPrimitive::LongPress { x, y })) ==> request
            is Coordinate && request->Coordinate_operation@ == "long_press"@ && x == request->from_x
            && y == request->from_y,
        action matches Ok(
            RootAction::Deliver(
                VisualRootPrimitive::Swipe { from_x, from_y, to_x, to_y, duration_ms },
            ),
        ) ==> request is Coordinate && request->Coordinate_operation@ == "swipe"@ && from_x
            == request->from_x && from_y == request->from_y && Some(to_x) == request->to_x && Some(
            to_y,
        ) == request->to_y && Some(duration_ms) == request->duration_ms,
        request is Coordinate && (request->Coordinate_operation@ == "tap"@
            || request->Coordinate_operation@ == "long_press"@) ==> action is Ok,
        request is Coordinate && request->Coordinate_operation@ == "swipe"@ && request->to_x is Some
            && request->to_y is Some && request->duration_ms is Some ==> action is Ok,
        request matches VisualInteractionRequest::FocusedText { text } ==> {
            let fits = encode_utf8(text@).len() <= 8_192 && forall|i: int|
                0 <= i < text@.len() ==> #[trigger] text@[i] != '\0';
            &&& action is Ok <==> fits
            &&& fits && deliverable ==> action->Ok_0 is Deliver && action->Ok_0->Deliver_0 is Text
                && action->Ok_0->Deliver_0->Text_0@ == text@
            &&& fits && !deliverable ==> action->Ok_0 is Paste && action->Ok_0->Paste_0@ == text@
        },
        request matches VisualInteractionRequest::Key { key_code, .. } ==> {
            &&& action is Ok <==> key_code >= 0 && modifiers is Some
            &&& action is Ok && modifiers->0@.len() == 0 ==> action->Ok_0
                == RootAction::Deliver(VisualRootPrimitive::Key(key_code))
            &&& action is Ok && modifiers->0@.len() > 0 ==> {
                let held = action->Ok_0->Deliver_0->KeyCombination_0@;
                &&& action->Ok_0 is Deliver
                &&& action->Ok_0->Deliver_0 is KeyCombination
                &&& held.len() == modifiers->0@.len() + 1
                &&& held.last() == key_code
                &&& forall|i: int|
                    0 <= i < modifiers->0@.len() ==> #[trigger] held[i] == modifiers->0@[i]
            }
        },
{
    assert("tap"@ != "long_press"@) by {
        reveal_strlit("tap");
        reveal_strlit("long_press");
        assert("tap"@.len() != "long_press"@.len());
    }
    assert("tap"@ != "swipe"@) by {
        reveal_strlit("tap");
        reveal_strlit("swipe");
        assert("tap"@.len() != "swipe"@.len());
    }
    assert("long_press"@ != "swipe"@) by {
        reveal_strlit("long_press");
        reveal_strlit("swipe");
        assert("long_press"@.len() != "swipe"@.len());
    }
    if request is FocusedText {
        let text = request->FocusedText_text@;
        if !text.contains('\0') {
            assert forall|i: int| 0 <= i < text.len() implies #[trigger] text[i] != '\0' by {
                assert(text.contains(text[i]));
            }
        }
    }
}

/// What is pasted is the text itself, marked so that keyboards keep it to themselves; what the
/// clipboard held before is put back as it was.
pub proof fn a_paste_leaves_the_clipboard_as_it_was(
    text: &str,
    input: Json,
    previous: Option<String>,
    operation: (&'static str, Json),
)
    requires
        call_ensures(pasted_clip, (text,), input),
        call_ensures(restore_clip, (&previous,), operation),
    ensures
        input@.get("text"@) == Some(JsonModel::Text(text@)),
        input@.get("sensitive"@) == Some(JsonModel::Boolean(true)),
        previous matches Some(text) ==> operation.0@ == "write"@ && operation.1@.get("text"@)
            == Some(JsonModel::Text(text@)),
        previous is None ==> operation.0@ == "clear"@ && operation.1@.get("text"@) is None,
{
    let members = pasted_model(text@)->Object_0;
    assert("sensitive"@ != "text"@) by {
        reveal_strlit("sensitive");
        reveal_strlit("text");
        assert("sensitive"@.len() != "text"@.len());
    }
    lemma_member_at(members, 0);
    lemma_member_at(members, 1);
    if previous is Some {
        lemma_member_at(operation.1@->Object_0, 0);
    }
}

/// An image is taken in exactly if its bytes are as many as was told and valid, a PNG image has the
/// size that was told, and a display comes with a capture and with nothing else.
pub proof fn an_image_is_what_was_told_of_it(
    wire: EncodedImage,
    bytes: Vec<u8>,
    valid: Result<(), DomainError>,
    png_size: Result<(u32, u32), DomainError>,
    captured: bool,
    image: Result<VisualEncodedImage, ExecutionFailure>,
)
    requires
        call_ensures(image_result, (wire, bytes, valid, png_size, captured), image),
    ensures
        image is Ok <==> {
            &&& bytes@.len() == wire.size
            &&& valid is Ok
            &&& wire.format is Png ==> png_size is Ok && png_size->Ok_0.0 == wire.width
                && png_size->Ok_0.1 == wire.height
            &&& captured ==> wire.display is Some && wire.display_generation is Some
            &&& !captured ==> wire.display is None && wire.display_generation is None
        },
        image matches Ok(image) ==> {
            &&& image.bytes@ == bytes@
            &&& image.format == wire.format
            &&& image.width == wire.width
            &&& image.height == wire.height
            &&& image.captured_display is Some <==> captured
            &&& captured ==> image.captured_display->0.display == wire.display->0
                && image.captured_display->0.display_generation == wire.display_generation->0
        },
        image matches Err(failure) ==> failure.cleanup_verified,
{
}

/// A screen capture keeps its size while it is compressed, and tells the display that it shows.
pub proof fn a_capture_keeps_its_size(
    encoded: VisualEncodedImage,
    width: u32,
    height: u32,
    display: VisualDisplaySnapshot,
    image: Result<VisualEncodedImage, ExecutionFailure>,
)
    requires
        call_ensures(capture_result, (encoded, width, height, display), image),
    ensures
        image is Ok <==> encoded.width == width && encoded.height == height,
        image matches Ok(image) ==> image.bytes@ == encoded.bytes@ && image.format == encoded.format
            && image.width == width && image.height == height && image.captured_display == Some(
            display,
        ),
{
}

/// The display is asked for by its name, an action counts as delivered exactly if the answer says so
/// and nothing else, and an answer is waited for up to fifteen seconds.
pub proof fn a_delivery_is_said_alone(
    request: Json,
    payload: Json,
    checked: Result<(), ExecutionFailure>,
)
    requires
        call_ensures(display_request, (), request),
        call_ensures(check_delivered, (&payload,), checked),
    ensures
        request@.get("operation"@) == Some(JsonModel::Text("display"@)),
        checked is Ok <==> payload@ is Object && payload@->Object_0.len() == 1 && payload@.get(
            "delivered"@,
        ) == Some(JsonModel::Boolean(true)),
{
    reveal_with_fuel(member, 2);
    if payload@ is Object && payload@->Object_0.len() == 1 && payload@.get("delivered"@) == Some(
        JsonModel::Boolean(true),
    ) {
        let members = payload@->Object_0;
        assert(members.skip(1).len() == 0);
        assert(members =~= seq![("delivered"@, JsonModel::Boolean(true))]);
    }
}

} // verus!
