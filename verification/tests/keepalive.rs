use droidbridge::daemon::keepalive::{
    connection_wanted, enabled, mcp_wanted, start_wanted, task_activity_arguments, user_unlocked,
    wake_due, AppKeepAlive, TaskActivityBeacon, TaskActivityPublication,
};

fn due(beacon: &TaskActivityBeacon) -> Option<(String, TaskActivityPublication)> {
    beacon.state.due()
}

fn mark_published(beacon: &mut TaskActivityBeacon, publication: TaskActivityPublication) {
    beacon.mark_published(publication);
}

#[test]
fn only_a_connected_app_is_told_a_count_it_does_not_already_hold() {
    let mut beacon = TaskActivityBeacon::new("com.droidbridge.android");
    beacon.publish("epoch-a", 1, 7);
    assert_eq!(due(&beacon), None, "a disconnected App is never woken");
    assert!(beacon.wake_wanted(), "but its Tasks still want it started");

    beacon.set_connected(true);
    let first = due(&beacon).expect("the live App is told the count");
    assert_eq!(first.0, "epoch-a");
    assert_eq!(
        first.1,
        TaskActivityPublication {
            active: 1,
            revision: 7
        }
    );
    mark_published(&mut beacon, first.1);
    assert_eq!(due(&beacon), None, "the same count is not repeated");

    beacon.publish("epoch-a", 2, 6);
    assert_eq!(due(&beacon), None, "an older revision never overtakes");
    beacon.publish("epoch-a", 0, 9);
    let release = due(&beacon).expect("the release is owed").1;
    assert_eq!(
        release,
        TaskActivityPublication {
            active: 0,
            revision: 9
        }
    );
    mark_published(&mut beacon, release);
    beacon.publish("epoch-a", 0, 11);
    assert_eq!(due(&beacon), None, "idle is never announced twice");
    assert!(!beacon.wake_wanted(), "an idle daemon never wakes the App");
}

#[test]
fn a_reconnected_app_is_told_again_and_an_idle_one_is_left_alone() {
    let mut beacon = TaskActivityBeacon::new("com.droidbridge.android");
    beacon.set_connected(true);
    beacon.publish("epoch-a", 0, 3);
    assert_eq!(
        due(&beacon),
        None,
        "a fresh connection with no Tasks is quiet"
    );
    beacon.publish("epoch-a", 4, 4);
    let held = due(&beacon).expect("Tasks arrived").1;
    mark_published(&mut beacon, held);

    beacon.set_connected(false);
    assert_eq!(due(&beacon), None);
    beacon.set_connected(true);
    assert_eq!(
        due(&beacon).expect("a new App process holds nothing yet").1,
        held,
    );

    beacon.publish("epoch-b", 1, 1);
    assert_eq!(
        due(&beacon).expect("a new epoch owns its own sequence").1,
        TaskActivityPublication {
            active: 1,
            revision: 1
        },
    );
}

#[test]
fn keepalive_follows_the_committed_tunnel_preference_only() {
    assert!(!connection_wanted(None), "no preference never wakes");
    for (contents, wanted) in [
        (
            r#"{"schema_version":1,"enabled":true,"tunnel_id":"t"}"#,
            true,
        ),
        (r#"{"schema_version":1,"enabled":false}"#, false),
        (r#"{"schema_version":2,"enabled":true}"#, false),
        (r#"{"schema_version":1,"enabled":"true"}"#, false),
        ("not json", false),
    ] {
        assert_eq!(
            connection_wanted(Some(contents.as_bytes())),
            wanted,
            "{contents}"
        );
    }
}

#[test]
fn a_boot_starts_the_tunnel_but_never_opens_the_local_listener_by_itself() {
    assert!(mcp_wanted(Some(
        r#"{"schema_version":1,"enabled":true,"token":"t"}"#.as_bytes()
    )));
    assert!(!mcp_wanted(Some(
        r#"{"schema_version":1,"enabled":false}"#.as_bytes()
    )));

    assert!(!start_wanted(false, false, true, false), "boot alone");
    assert!(
        start_wanted(false, false, true, true),
        "restored after a kill"
    );
    assert!(
        start_wanted(false, true, false, false),
        "the tunnel needs no history"
    );
    assert!(
        start_wanted(true, false, false, false),
        "nor does an outstanding Task"
    );
    assert!(!start_wanted(false, false, false, true));
}

#[test]
fn unanswered_wakes_are_spaced_further_apart() {
    let start: u64 = 1_000;
    assert!(wake_due(None, 0, start));
    let later = |seconds: u64| start + seconds * 1_000;
    assert!(wake_due(Some(start), 0, start));
    assert!(!wake_due(Some(start), 1, later(14)));
    assert!(wake_due(Some(start), 1, later(15)));
    assert!(!wake_due(Some(start), 2, later(59)));
    assert!(!wake_due(Some(start), 9, later(299)));
    assert!(wake_due(Some(start), 9, later(300)));
}

#[test]
fn a_preference_is_an_object_of_the_first_schema() {
    assert!(!enabled(None));
    assert!(!enabled(Some(b"[]")));
    assert!(!enabled(Some(b"{}")));
    assert!(enabled(Some(br#" { "enabled" : true , "schema_version" : 1 } "#)));
}

#[test]
fn an_absent_app_is_woken_again_only_when_it_is_due() {
    let mut state = AppKeepAlive::new("com.droidbridge.android");
    assert!(!state.ran_this_boot);
    state.observe_present();
    assert!(state.ran_this_boot);
    assert_eq!(state.unanswered, 0);
    let arguments = state.wake_arguments();
    assert!(arguments
        .iter()
        .any(|argument| argument.contains("com.droidbridge.android")));
    assert_eq!(
        state.allowlist_arguments().last().map(String::as_str),
        Some("+com.droidbridge.android")
    );
}

#[test]
fn only_a_booted_and_unlocked_user_is_unlocked() {
    assert!(!user_unlocked(None, None));
    assert!(!user_unlocked(Some("1"), None));
    assert!(!user_unlocked(Some("0"), Some("true")));
}

#[test]
fn a_publication_names_its_epoch_and_count() {
    let arguments = task_activity_arguments(
        "com.droidbridge.android",
        "epoch-a",
        TaskActivityPublication {
            active: 3,
            revision: 12,
        },
    );
    assert!(arguments.iter().any(|argument| argument == "epoch-a"));
    assert!(arguments.iter().any(|argument| argument == "3"));
    assert!(arguments.iter().any(|argument| argument == "12"));
}
