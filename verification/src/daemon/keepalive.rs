//! Keeping the application alive while something needs it.

use crate::json::{value_of_bytes, Json, JsonModel};
use crate::text::{decimal, decimal_text, joined, owned_texts, same, slices, texts};
use vstd::prelude::*;

verus! {

/// The action that wakes the application.
pub const WAKE_ACTION: &'static str = "com.droidbridge.android.action.KEEPALIVE_WAKE";

/// The action that tells the application how many tasks it is held for.
pub const TASK_ACTIVITY_ACTION: &'static str = "com.droidbridge.android.action.TASK_ACTIVITY";

pub const SERVICE_CLASS: &'static str = "com.droidbridge.android.runtimehost.DroidBridgeService";

pub const TUNNEL_SETTINGS: &'static str = "tunnel.json";

pub const MCP_SETTINGS: &'static str = "mcp.json";

/// The shortest time between two task counts.
pub const PUBLISH_SPACING_MS: u64 = 1_000;

pub const COMMAND_TIMEOUT_MS: u64 = 10_000;

/// Whether a committed preference is enabled: it is of the known schema and says so. A file that
/// is missing or does not read as JSON is no preference.
pub open spec fn is_enabled(settings: Option<Seq<u8>>) -> bool {
    match settings {
        Some(bytes) => match value_of_bytes(bytes) {
            Some(value) => value.get("schema_version"@) == Some(JsonModel::Unsigned(1))
                && value.get("enabled"@) == Some(JsonModel::Boolean(true)),
            None => false,
        },
        None => false,
    }
}

/// Whether a settings value is enabled.
pub fn preference_enabled(value: &Json) -> (yes: bool)
    ensures
        yes == (value@.get("schema_version"@) == Some(JsonModel::Unsigned(1)) && value@.get(
            "enabled"@,
        ) == Some(JsonModel::Boolean(true))),
{
    let known = match value.get("schema_version") {
        Some(Json::Unsigned(version)) => *version == 1,
        _ => false,
    };
    let enabled = match value.get("enabled") {
        Some(Json::Boolean(enabled)) => *enabled,
        _ => false,
    };
    known && enabled
}

/// Whether a committed preference is enabled.
pub fn enabled(settings: Option<&[u8]>) -> (yes: bool)
    ensures
        yes == is_enabled(
            match settings {
                Some(bytes) => Some(bytes@),
                None => None,
            },
        ),
{
    match settings {
        Some(bytes) => match Json::parse(bytes) {
            Some(value) => preference_enabled(&value),
            None => false,
        },
        None => false,
    }
}

/// Whether the tunnel is wanted. It dials out by itself, so it wakes the application even if that
/// never ran.
pub fn connection_wanted(tunnel_settings: Option<&[u8]>) -> (wanted: bool)
    ensures
        wanted == is_enabled(
            match tunnel_settings {
                Some(bytes) => Some(bytes@),
                None => None,
            },
        ),
{
    enabled(tunnel_settings)
}

/// Whether the local listener is wanted.
pub fn mcp_wanted(mcp_settings: Option<&[u8]>) -> (wanted: bool)
    ensures
        wanted == is_enabled(
            match mcp_settings {
                Some(bytes) => Some(bytes@),
                None => None,
            },
        ),
{
    enabled(mcp_settings)
}

/// Whether an application that is gone is to be started. The listener alone is only restored to
/// one that ran before.
pub fn start_wanted(tasks_want_app: bool, tunnel: bool, mcp: bool, ran_this_boot: bool) -> (wanted:
    bool)
    ensures
        wanted == (tasks_want_app || tunnel || (mcp && ran_this_boot)),
{
    tasks_want_app || tunnel || (mcp && ran_this_boot)
}

/// The seconds between two wakes, after so many that were not answered.
pub open spec fn wake_spacing_seconds(unanswered: int) -> u64 {
    if unanswered <= 0 {
        0
    } else if unanswered == 1 {
        15
    } else if unanswered == 2 {
        60
    } else if unanswered == 3 {
        180
    } else {
        300
    }
}

fn spacing_seconds(unanswered: usize) -> (seconds: u64)
    ensures
        seconds == wake_spacing_seconds(unanswered as int),
{
    if unanswered == 0 {
        0
    } else if unanswered == 1 {
        15
    } else if unanswered == 2 {
        60
    } else if unanswered == 3 {
        180
    } else {
        300
    }
}

/// Whether a wake is due at a time: there was none yet, or the last one is long enough ago.
pub open spec fn is_wake_due(last_wake_ms: Option<u64>, unanswered: int, now_ms: u64) -> bool {
    match last_wake_ms {
        None => true,
        Some(last) => (if now_ms > last {
            now_ms - last
        } else {
            0
        }) >= wake_spacing_seconds(unanswered) * 1_000,
    }
}

/// Whether a wake is due. Times are milliseconds of one clock.
pub fn wake_due(last_wake_ms: Option<u64>, unanswered: usize, now_ms: u64) -> (due: bool)
    ensures
        due == is_wake_due(last_wake_ms, unanswered as int, now_ms),
{
    match last_wake_ms {
        None => true,
        Some(last) => now_ms.saturating_sub(last) >= spacing_seconds(unanswered) * 1_000,
    }
}

/// The more wakes went unanswered, the further apart the next ones are.
pub proof fn wakes_only_grow_apart(fewer: int, more: int)
    requires
        fewer <= more,
    ensures
        wake_spacing_seconds(fewer) <= wake_spacing_seconds(more) <= 300,
        forall|last: Option<u64>, now: u64|
            #[trigger] is_wake_due(last, more, now) ==> is_wake_due(last, fewer, now),
{
}

/// What is known of one application.
#[derive(Clone, Copy, Debug)]
pub struct AppKeepAlive {
    pub package: &'static str,
    pub exempted: bool,
    pub unanswered: usize,
    pub last_wake_ms: Option<u64>,
    pub ran_this_boot: bool,
}

impl AppKeepAlive {
    pub fn new(package: &'static str) -> (state: Self)
        ensures
            state == (AppKeepAlive {
                package,
                exempted: false,
                unanswered: 0,
                last_wake_ms: None,
                ran_this_boot: false,
            }),
    {
        AppKeepAlive {
            package,
            exempted: false,
            unanswered: 0,
            last_wake_ms: None,
            ran_this_boot: false,
        }
    }

    /// The application answered.
    pub fn observe_present(&mut self)
        ensures
            *final(self) == (AppKeepAlive {
                unanswered: 0,
                last_wake_ms: None,
                ran_this_boot: true,
                ..*old(self)
            }),
    {
        self.unanswered = 0;
        self.last_wake_ms = None;
        self.ran_this_boot = true;
    }

    /// Whether an application that is gone is woken now.
    pub open spec fn wakes(
        self,
        tasks_want_app: bool,
        tunnel: bool,
        mcp: bool,
        user_unlocked: bool,
        now_ms: u64,
    ) -> bool {
        &&& tasks_want_app || tunnel || (mcp && self.ran_this_boot)
        &&& user_unlocked
        &&& is_wake_due(self.last_wake_ms, self.unanswered as int, now_ms)
    }

    /// The application did not answer. Says whether it is woken now, which is then noted.
    pub fn observe_absent(
        &mut self,
        tasks_want_app: bool,
        tunnel: bool,
        mcp: bool,
        user_unlocked: bool,
        now_ms: u64,
    ) -> (wake: bool)
        ensures
            wake == old(self).wakes(tasks_want_app, tunnel, mcp, user_unlocked, now_ms),
            *final(self) == (if wake {
                AppKeepAlive {
                    last_wake_ms: Some(now_ms),
                    unanswered: if old(self).unanswered < usize::MAX {
                        (old(self).unanswered + 1) as usize
                    } else {
                        usize::MAX
                    },
                    ..*old(self)
                }
            } else {
                *old(self)
            }),
    {
        if !start_wanted(tasks_want_app, tunnel, mcp, self.ran_this_boot) || !user_unlocked {
            return false;
        }
        if !wake_due(self.last_wake_ms, self.unanswered, now_ms) {
            return false;
        }
        self.last_wake_ms = Some(now_ms);
        self.unanswered = self.unanswered.saturating_add(1);
        true
    }

    /// Notes whether the application could be exempted from the limits on the background; once it
    /// was, it stays so.
    pub fn observe_exemption(&mut self, allowlisted: bool, background_allowed: bool)
        ensures
            *final(self) == (AppKeepAlive {
                exempted: old(self).exempted || (allowlisted && background_allowed),
                ..*old(self)
            }),
    {
        if !self.exempted {
            self.exempted = allowlisted && background_allowed;
        }
    }

    /// The arguments that put the application on the list that device idle spares.
    pub fn allowlist_arguments(&self) -> (arguments: Vec<String>)
        ensures
            texts(arguments@) == seq!["deviceidle"@, "whitelist"@, "+"@ + self.package@],
    {
        let name = joined("+", self.package);
        let parts = ["deviceidle", "whitelist", name.as_str()];
        assert(slices(parts@) =~= seq!["deviceidle"@, "whitelist"@, "+"@ + self.package@]);
        owned_texts(&parts)
    }

    /// The arguments that let the application run in the background.
    pub fn background_arguments(&self) -> (arguments: Vec<String>)
        ensures
            texts(arguments@) == seq![
                "appops"@,
                "set"@,
                self.package@,
                "RUN_ANY_IN_BACKGROUND"@,
                "allow"@,
            ],
    {
        let parts = ["appops", "set", self.package, "RUN_ANY_IN_BACKGROUND", "allow"];
        assert(slices(parts@) =~= seq![
            "appops"@,
            "set"@,
            self.package@,
            "RUN_ANY_IN_BACKGROUND"@,
            "allow"@,
        ]);
        owned_texts(&parts)
    }

    /// The arguments that start the application's service.
    pub fn wake_arguments(&self) -> (arguments: Vec<String>)
        ensures
            texts(arguments@) == service_start(WAKE_ACTION@, self.package@),
    {
        start_arguments(WAKE_ACTION, self.package)
    }
}

/// The arguments that start the service of `package` with an action.
pub open spec fn service_start(action: Seq<char>, package: Seq<char>) -> Seq<Seq<char>> {
    seq![
        "start-foreground-service"@,
        "--user"@,
        "0"@,
        "-a"@,
        action,
        "-n"@,
        package + "/"@ + SERVICE_CLASS@,
    ]
}

fn start_arguments(action: &str, package: &str) -> (arguments: Vec<String>)
    ensures
        texts(arguments@) == service_start(action@, package@),
{
    let mut component = joined(package, "/");
    component.append(SERVICE_CLASS);
    let parts = [
        "start-foreground-service",
        "--user",
        "0",
        "-a",
        action,
        "-n",
        component.as_str(),
    ];
    assert(slices(parts@) =~= service_start(action@, package@));
    owned_texts(&parts)
}

/// Whether the first user has unlocked the device: it has booted, and the user's own storage is
/// there. A property that cannot be read is as good as unset.
pub fn user_unlocked(boot_completed: Option<&str>, storage_available: Option<&str>) -> (unlocked:
    bool)
    ensures
        unlocked == (boot_completed is Some && boot_completed->0@ == "1"@ && storage_available is
            Some && storage_available->0@ == "true"@),
{
    let booted = match boot_completed {
        Some(value) => same(value, "1"),
        None => false,
    };
    let available = match storage_available {
        Some(value) => same(value, "true"),
        None => false,
    };
    booted && available
}

// ---------------------------------------------------------------------------------------
// Task counts.
// ---------------------------------------------------------------------------------------

/// One count of the tasks that still run, as the application was told it.
#[derive(Clone, Copy, Debug, PartialEq, Eq, Structural)]
pub struct TaskActivityPublication {
    pub active: u64,
    pub revision: u64,
}

/// The count of the tasks that still run, and what the application was told of it.
#[derive(Debug)]
pub struct TaskActivityState {
    pub epoch: String,
    pub active: u64,
    pub revision: u64,
    pub connected: bool,
    pub published: Option<TaskActivityPublication>,
}

/// What a state is.
pub struct TaskActivityModel {
    pub epoch: Seq<char>,
    pub active: u64,
    pub revision: u64,
    pub connected: bool,
    pub published: Option<TaskActivityPublication>,
}

impl View for TaskActivityState {
    type V = TaskActivityModel;

    open spec fn view(&self) -> TaskActivityModel {
        TaskActivityModel {
            epoch: self.epoch@,
            active: self.active,
            revision: self.revision,
            connected: self.connected,
            published: self.published,
        }
    }
}

impl TaskActivityModel {
    /// What the application is still to be told. Only a connected one is told anything, nothing is
    /// told twice, and an idle count only follows one that was not idle.
    pub open spec fn due(self) -> Option<TaskActivityPublication> {
        let current = TaskActivityPublication { active: self.active, revision: self.revision };
        if !self.connected || self.revision == 0 {
            None
        } else {
            match self.published {
                Some(published) => if published.revision >= self.revision || (published.active == 0
                    && self.active == 0) {
                    None
                } else {
                    Some(current)
                },
                None => if self.active == 0 {
                    None
                } else {
                    Some(current)
                },
            }
        }
    }

    /// The state once the runtime of `epoch` committed a count. Revisions order the counts of one
    /// epoch; a new epoch begins anew.
    pub open spec fn committed(self, epoch: Seq<char>, active: u64, revision: u64) ->
        TaskActivityModel {
        let begun = if self.epoch == epoch {
            self
        } else {
            TaskActivityModel { epoch, revision: 0, published: None, ..self }
        };
        if revision <= begun.revision {
            begun
        } else {
            TaskActivityModel { active, revision, ..begun }
        }
    }

    /// The state once the application was told a count.
    pub open spec fn told(self, publication: TaskActivityPublication) -> TaskActivityModel {
        TaskActivityModel { published: Some(publication), ..self }
    }

    /// The state once the application came or went. It is told again what it may have lost.
    pub open spec fn linked(self, connected: bool) -> TaskActivityModel {
        TaskActivityModel { connected, published: None, ..self }
    }
}

impl Default for TaskActivityState {
    fn default() -> (state: Self)
        ensures
            state@ == (TaskActivityModel {
                epoch: ""@,
                active: 0,
                revision: 0,
                connected: false,
                published: None,
            }),
    {
        TaskActivityState {
            epoch: "".to_owned(),
            active: 0,
            revision: 0,
            connected: false,
            published: None,
        }
    }
}

impl TaskActivityState {
    /// What the application is still to be told.
    pub fn due(&self) -> (due: Option<(String, TaskActivityPublication)>)
        ensures
            match due {
                Some((epoch, publication)) => epoch@ == self@.epoch && self@.due() == Some(
                    publication,
                ),
                None => self@.due() is None,
            },
    {
        if !self.connected || self.revision == 0 {
            return None;
        }
        let publication = TaskActivityPublication { active: self.active, revision: self.revision };
        let quiet = match self.published {
            Some(published) => published.revision >= publication.revision || (published.active == 0
                && publication.active == 0),
            None => publication.active == 0,
        };
        if quiet {
            None
        } else {
            Some((self.epoch.as_str().to_owned(), publication))
        }
    }
}

/// The count that one daemon carries to its application.
#[derive(Debug)]
pub struct TaskActivityBeacon {
    pub package: &'static str,
    pub state: TaskActivityState,
}

impl TaskActivityBeacon {
    pub fn new(package: &'static str) -> (beacon: Self)
        ensures
            beacon.package == package,
            beacon.state@ == (TaskActivityModel {
                epoch: ""@,
                active: 0,
                revision: 0,
                connected: false,
                published: None,
            }),
    {
        TaskActivityBeacon { package, state: TaskActivityState::default() }
    }

    /// The runtime of `epoch` committed a count.
    pub fn publish(&mut self, epoch: &str, active: u64, revision: u64)
        ensures
            final(self).package == old(self).package,
            final(self).state@ == old(self).state@.committed(epoch@, active, revision),
    {
        if !same(self.state.epoch.as_str(), epoch) {
            self.state.epoch = epoch.to_owned();
            self.state.revision = 0;
            self.state.published = None;
        }
        if revision <= self.state.revision {
            return;
        }
        self.state.revision = revision;
        self.state.active = active;
    }

    /// Whether an application that is gone is to be started for the tasks alone.
    pub fn wake_wanted(&self) -> (wanted: bool)
        ensures
            wanted == (self.state@.active > 0),
    {
        self.state.active > 0
    }

    /// The application came or went.
    pub fn set_connected(&mut self, connected: bool)
        ensures
            final(self).package == old(self).package,
            final(self).state@ == old(self).state@.linked(connected),
    {
        self.state.connected = connected;
        self.state.published = None;
    }

    /// The application was told a count.
    pub fn mark_published(&mut self, publication: TaskActivityPublication)
        ensures
            final(self).package == old(self).package,
            final(self).state@ == old(self).state@.told(publication),
    {
        self.state.published = Some(publication);
    }
}

/// What was just told is not told again, until the application reconnects or the count moves on.
pub proof fn a_count_is_told_once(state: TaskActivityModel)
    requires
        state.due() is Some,
    ensures
        state.told(state.due()->0).due() is None,
        state.linked(true).due() == (if state.active > 0 {
            state.due()
        } else {
            None
        }),
{
}

/// An older revision of an epoch never overtakes a newer one.
pub proof fn an_older_revision_never_overtakes(
    state: TaskActivityModel,
    epoch: Seq<char>,
    active: u64,
    revision: u64,
)
    requires
        state.epoch == epoch,
        revision <= state.revision,
    ensures
        state.committed(epoch, active, revision) == state,
{
}

/// Nothing is told to an application that is not connected.
pub proof fn a_disconnected_app_is_told_nothing(state: TaskActivityModel)
    ensures
        state.linked(false).due() is None,
{
}

/// The arguments that tell the application a count.
pub fn task_activity_arguments(
    package: &str,
    epoch: &str,
    publication: TaskActivityPublication,
) -> (arguments: Vec<String>)
    ensures
        texts(arguments@) == service_start(TASK_ACTIVITY_ACTION@, package@) + seq![
            "--es"@,
            "runtime_epoch"@,
            epoch@,
            "--ei"@,
            "active_tasks"@,
            decimal(publication.active as nat),
            "--el"@,
            "canonical_revision"@,
            decimal(publication.revision as nat),
        ],
{
    let mut arguments = start_arguments(TASK_ACTIVITY_ACTION, package);
    let ghost head = arguments@;
    let active = decimal_text(publication.active);
    let revision = decimal_text(publication.revision);
    let parts = [
        "--es",
        "runtime_epoch",
        epoch,
        "--ei",
        "active_tasks",
        active.as_str(),
        "--el",
        "canonical_revision",
        revision.as_str(),
    ];
    let mut rest = owned_texts(&parts);
    let ghost tail = rest@;
    arguments.append(&mut rest);
    proof {
        let expected = service_start(TASK_ACTIVITY_ACTION@, package@) + slices(parts@);
        assert(texts(head).len() == head.len() && texts(tail).len() == tail.len());
        assert forall|k: int| 0 <= k < expected.len() implies (#[trigger] texts(arguments@)[k])
            == expected[k] by {
            if k < 7 {
                assert(texts(head)[k] == head[k]@);
            } else {
                assert(texts(tail)[k - 7] == tail[k - 7]@);
            }
        }
        assert(texts(arguments@) =~= expected);
        assert(slices(parts@) =~= seq![
            "--es"@,
            "runtime_epoch"@,
            epoch@,
            "--ei"@,
            "active_tasks"@,
            decimal(publication.active as nat),
            "--el"@,
            "canonical_revision"@,
            decimal(publication.revision as nat),
        ]);
    }
    arguments
}

// ---------------------------------------------------------------------------------------
// Laws.
// ---------------------------------------------------------------------------------------

/// A preference counts only if its file is there, reads as JSON, is of schema 1 and says that it is
/// enabled.
pub proof fn a_preference_is_enabled_only_if_it_says_so(settings: Option<&[u8]>, yes: bool)
    requires
        call_ensures(enabled, (settings,), yes),
    ensures
        settings is None ==> !yes,
        settings matches Some(bytes) ==> (yes <==> {
            &&& value_of_bytes(bytes@) is Some
            &&& value_of_bytes(bytes@)->0.get("schema_version"@) == Some(JsonModel::Unsigned(1))
            &&& value_of_bytes(bytes@)->0.get("enabled"@) == Some(JsonModel::Boolean(true))
        }),
{
}

/// The first wake is due at once; after one that was not answered the next one is due in fifteen
/// seconds, after two in a minute, after three in three minutes, and after that in five.
pub proof fn a_wake_is_due_after_its_pause(
    last_wake_ms: Option<u64>,
    unanswered: usize,
    now_ms: u64,
    due: bool,
)
    requires
        call_ensures(wake_due, (last_wake_ms, unanswered, now_ms), due),
    ensures
        last_wake_ms is None ==> due,
        last_wake_ms matches Some(last) ==> {
            &&& unanswered == 0 ==> due
            &&& unanswered == 1 ==> (due <==> now_ms >= last + 15_000)
            &&& unanswered == 2 ==> (due <==> now_ms >= last + 60_000)
            &&& unanswered == 3 ==> (due <==> now_ms >= last + 180_000)
            &&& unanswered >= 4 ==> (due <==> now_ms >= last + 300_000)
        },
{
}

/// An application that is gone is woken only for tasks, for the tunnel, or for the listener of one
/// that ran in this boot, and never before the user has unlocked the device. A wake is noted with
/// its time and as one more without an answer; an answer ends the count.
pub proof fn an_application_is_woken_for_a_reason(
    tasks_want_app: bool,
    tunnel: bool,
    mcp: bool,
    user_unlocked: bool,
    now_ms: u64,
)
    ensures
        forall|app: &mut AppKeepAlive, wake: bool| #[trigger]
            call_ensures(
                AppKeepAlive::observe_absent,
                (app, tasks_want_app, tunnel, mcp, user_unlocked, now_ms),
                wake,
            ) ==> {
                &&& !user_unlocked ==> !wake
                &&& !tasks_want_app && !tunnel && !(mcp && app.ran_this_boot) ==> !wake
                &&& user_unlocked && app.last_wake_ms is None && (tasks_want_app || tunnel || (mcp
                    && app.ran_this_boot)) ==> wake
                &&& app.last_wake_ms is Some && app.unanswered >= 4 && now_ms
                    < app.last_wake_ms->0 + 300_000 ==> !wake
                &&& wake ==> final(app).last_wake_ms == Some(now_ms) && (app.unanswered
                    < usize::MAX ==> final(app).unanswered == app.unanswered + 1)
                &&& !wake ==> *final(app) == *app
                &&& final(app).package == app.package && final(app).exempted == app.exempted
                    && final(app).ran_this_boot == app.ran_this_boot
            },
        forall|app: &mut AppKeepAlive, done: ()| #[trigger]
            call_ensures(AppKeepAlive::observe_present, (app,), done) ==> final(app).unanswered == 0
                && final(app).last_wake_ms is None && final(app).ran_this_boot
                    && final(app).exempted == app.exempted,
{
}

/// The application's service is started for the first user, by its own class, with the action that
/// wakes it; a count comes with the epoch, the tasks and the revision.
pub proof fn the_service_is_started_so(
    app: AppKeepAlive,
    wake: Vec<String>,
    package: &str,
    epoch: &str,
    publication: TaskActivityPublication,
    count: Vec<String>,
)
    requires
        call_ensures(AppKeepAlive::wake_arguments, (&app,), wake),
        call_ensures(task_activity_arguments, (package, epoch, publication), count),
    ensures
        wake@.len() == 7,
        wake@[0]@ == "start-foreground-service"@ && wake@[1]@ == "--user"@ && wake@[2]@ == "0"@
            && wake@[3]@ == "-a"@ && wake@[5]@ == "-n"@,
        wake@[4]@ == "com.droidbridge.android.action.KEEPALIVE_WAKE"@,
        wake@[6]@ == app.package@ + "/"@
            + "com.droidbridge.android.runtimehost.DroidBridgeService"@,
        count@.len() == 16,
        count@[0]@ == "start-foreground-service"@,
        count@[4]@ == "com.droidbridge.android.action.TASK_ACTIVITY"@,
        count@[6]@ == package@ + "/"@ + "com.droidbridge.android.runtimehost.DroidBridgeService"@,
        count@[8]@ == "runtime_epoch"@ && count@[9]@ == epoch@,
        count@[11]@ == "active_tasks"@ && count@[12]@ == decimal(publication.active as nat),
        count@[14]@ == "canonical_revision"@ && count@[15]@ == decimal(publication.revision as nat),
{
    let woken = texts(wake@);
    let told = texts(count@);
    assert(woken.len() == wake@.len() && told.len() == count@.len());
    assert(woken[0] == wake@[0]@ && woken[1] == wake@[1]@ && woken[2] == wake@[2]@ && woken[3]
        == wake@[3]@ && woken[4] == wake@[4]@ && woken[5] == wake@[5]@ && woken[6] == wake@[6]@);
    assert(told[0] == count@[0]@ && told[4] == count@[4]@ && told[6] == count@[6]@ && told[8]
        == count@[8]@ && told[9] == count@[9]@ && told[11] == count@[11]@ && told[12]
        == count@[12]@ && told[14] == count@[14]@ && told[15] == count@[15]@);
}

/// What the application is told is the current count at its revision. It is told only while it is
/// connected, only a revision that it was not told, and that there are no tasks only if it was told
/// of some.
pub proof fn a_due_count_is_the_current_one(
    state: TaskActivityState,
    due: Option<(String, TaskActivityPublication)>,
)
    requires
        call_ensures(TaskActivityState::due, (&state,), due),
    ensures
        due matches Some(told) ==> {
            &&& told.0@ == state.epoch@
            &&& told.1.active == state.active
            &&& told.1.revision == state.revision
            &&& state.connected && state.revision > 0
            &&& state.published is None ==> state.active > 0
            &&& state.published matches Some(last) ==> last.revision < state.revision && (
            last.active > 0 || state.active > 0)
        },
        due is None && state.connected && state.revision > 0 ==> {
            ||| (state.published is None && state.active == 0)
            ||| (state.published is Some && state.published->0.revision >= state.revision)
            ||| (state.published is Some && state.published->0.active == 0 && state.active == 0)
        },
{
}

/// A newer revision of an epoch replaces the count, an older one does not, and a new epoch begins
/// anew: nothing of it was told yet. An application that comes or goes was told nothing.
pub proof fn a_count_belongs_to_its_epoch(epoch: &str, active: u64, revision: u64, connected: bool)
    ensures
        forall|beacon: &mut TaskActivityBeacon, done: ()| #[trigger]
            call_ensures(TaskActivityBeacon::publish, (beacon, epoch, active, revision), done)
                ==> {
                let before = beacon.state@;
                let after = final(beacon).state@;
                &&& after.epoch == epoch@
                &&& after.connected == before.connected
                &&& before.epoch == epoch@ && revision > before.revision ==> after.active == active
                    && after.revision == revision && after.published == before.published
                &&& before.epoch == epoch@ && revision <= before.revision ==> after == before
                &&& before.epoch != epoch@ ==> after.published is None
                &&& before.epoch != epoch@ && revision > 0 ==> after.active == active
                    && after.revision == revision
                &&& before.epoch != epoch@ && revision == 0 ==> after.revision == 0 && after.active
                    == before.active
            },
        forall|beacon: &mut TaskActivityBeacon, done: ()| #[trigger]
            call_ensures(TaskActivityBeacon::set_connected, (beacon, connected), done)
                ==> final(beacon).state@.connected == connected
                && final(beacon).state@.published is None
                && final(beacon).state@.active == beacon.state@.active
                && final(beacon).state@.revision
                == beacon.state@.revision && final(beacon).state@.epoch == beacon.state@.epoch,
        forall|beacon: &mut TaskActivityBeacon, told: TaskActivityPublication, done: ()|
            #[trigger]
            call_ensures(TaskActivityBeacon::mark_published, (beacon, told), done)
                ==> final(beacon).state@.published == Some(told)
                && final(beacon).state@.active == beacon.state@.active
                && final(beacon).state@.revision == beacon.state@.revision
                    && final(beacon).state@.connected == beacon.state@.connected,
{
}

} // verus!
