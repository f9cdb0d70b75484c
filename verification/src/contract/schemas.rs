//! The names of the schemas that the public contract is made of.

use crate::contract::artifacts::bindings_model;
use crate::json::JsonModel;
use crate::text::slices;
use vstd::prelude::*;

verus! {

/// The names of the schemas, in the order in which they are listed.
pub open spec fn schema_table() -> Seq<Seq<char>> {
    seq![
        "automation"@,
        "daemon_operation"@,
        "daemon_result.maintenance_install"@,
        "daemon_result.maintenance_status"@,
        "internal_execution_envelope"@,
        "public_error"@,
        "public_request"@,
        "public_response"@,
        "result.android.clipboard"@,
        "result.android.intent"@,
        "result.android.launch"@,
        "result.android.notification"@,
        "result.android.package"@,
        "result.automation.delete"@,
        "result.automation.get"@,
        "result.automation.list"@,
        "result.automation.save"@,
        "result.automation.set_enabled"@,
        "result.automation.run"@,
        "result.command.run"@,
        "result.command.run.accepted"@,
        "result.context.catalog"@,
        "result.context.status.compact"@,
        "result.context.status.full"@,
        "result.filesystem.archive.list"@,
        "result.filesystem.archive.accepted"@,
        "result.filesystem.archive.terminal"@,
        "result.filesystem.download.accepted"@,
        "result.filesystem.download.terminal"@,
        "result.filesystem.inspect"@,
        "result.filesystem.manage"@,
        "result.filesystem.read"@,
        "result.filesystem.write"@,
        "result.network.capture.read"@,
        "result.network.capture.start"@,
        "result.network.capture.terminal"@,
        "result.network.diagnose"@,
        "result.network.inspect"@,
        "result.network.packet.build"@,
        "result.network.packet.decode"@,
        "result.network.packet.inject"@,
        "result.task_control.list"@,
        "result.task_control.snapshot"@,
        "result.visual.interact"@,
        "result.visual.observe"@,
        "result.visual.view"@,
    ]
}

/// The names of the schemas, in the order in which they are listed.
pub fn schema_names() -> (names: Vec<&'static str>)
    ensures
        slices(names@) == schema_table(),
{
    let names = vec![
        "automation",
        "daemon_operation",
        "daemon_result.maintenance_install",
        "daemon_result.maintenance_status",
        "internal_execution_envelope",
        "public_error",
        "public_request",
        "public_response",
        "result.android.clipboard",
        "result.android.intent",
        "result.android.launch",
        "result.android.notification",
        "result.android.package",
        "result.automation.delete",
        "result.automation.get",
        "result.automation.list",
        "result.automation.save",
        "result.automation.set_enabled",
        "result.automation.run",
        "result.command.run",
        "result.command.run.accepted",
        "result.context.catalog",
        "result.context.status.compact",
        "result.context.status.full",
        "result.filesystem.archive.list",
        "result.filesystem.archive.accepted",
        "result.filesystem.archive.terminal",
        "result.filesystem.download.accepted",
        "result.filesystem.download.terminal",
        "result.filesystem.inspect",
        "result.filesystem.manage",
        "result.filesystem.read",
        "result.filesystem.write",
        "result.network.capture.read",
        "result.network.capture.start",
        "result.network.capture.terminal",
        "result.network.diagnose",
        "result.network.inspect",
        "result.network.packet.build",
        "result.network.packet.decode",
        "result.network.packet.inject",
        "result.task_control.list",
        "result.task_control.snapshot",
        "result.visual.interact",
        "result.visual.observe",
        "result.visual.view",
    ];
    assert(slices(names@) =~= schema_table());
    names
}

/// Whether a schema is one of a result.
pub open spec fn is_result_name(name: Seq<char>) -> bool {
    "result."@.is_prefix_of(name)
}

/// Whether the results of some action have the schema of that name.
pub open spec fn is_bound(name: Seq<char>) -> bool {
    exists|i: int, j: int|
        0 <= i < bindings_model()->Object_0.len() && 0 <= j
            < bindings_model()->Object_0[i].1->Array_0.len()
            && #[trigger] bindings_model()->Object_0[i].1->Array_0[j] == JsonModel::Text(name)
}

/// Whether `name` stands at a place of the table and at a place of the bindings.
spec fn is_bound_result(name: Seq<char>, at: int, i: int, j: int) -> bool {
    &&& 0 <= at < schema_table().len()
    &&& schema_table()[at] == name
    &&& 0 <= i < bindings_model()->Object_0.len()
    &&& 0 <= j < bindings_model()->Object_0[i].1->Array_0.len()
    &&& bindings_model()->Object_0[i].1->Array_0[j] == JsonModel::Text(name)
}

proof fn lemma_bound_result(name: Seq<char>, at: int, i: int, j: int)
    requires
        is_bound_result(name, at, i, j),
        name.len() >= 7,
        name[0] == 'r' && name[1] == 'e' && name[2] == 's' && name[3] == 'u' && name[4] == 'l'
            && name[5] == 't' && name[6] == '.',
    ensures
        is_bound(name),
        schema_table().contains(name),
        is_result_name(name),
{
    reveal_strlit("result.");
    assert("result."@ =~= seq!['r', 'e', 's', 'u', 'l', 't', '.']);
    assert(name.take(7) =~= seq!['r', 'e', 's', 'u', 'l', 't', '.']);
    assert(is_bound(name)) by {
        assert(bindings_model()->Object_0[i].1->Array_0[j] == JsonModel::Text(name));
    }
}

proof fn lemma_no_result(name: Seq<char>)
    requires
        name.len() > 0,
        name[0] != 'r',
    ensures
        !is_result_name(name),
{
    reveal_strlit("result.");
    if is_result_name(name) {
        assert("result."@[0] == name[0]);
    }
}

/// Whether a name is bound, listed and one of a result.
#[verifier::opaque]
spec fn agrees(name: Seq<char>) -> bool {
    is_bound(name) && schema_table().contains(name) && is_result_name(name)
}

proof fn lemma_android_results()
    ensures
        agrees("result.android.clipboard"@),
        agrees("result.android.intent"@),
        agrees("result.android.launch"@),
        agrees("result.android.notification"@),
        agrees("result.android.package"@),
{
    reveal(agrees);
    assert(agrees("result.android.clipboard"@)) by {
        reveal_strlit("result.android.clipboard");
        lemma_bound_result("result.android.clipboard"@, 8, 0, 0);
    }
    assert(agrees("result.android.intent"@)) by {
        reveal_strlit("result.android.intent");
        lemma_bound_result("result.android.intent"@, 9, 1, 0);
    }
    assert(agrees("result.android.launch"@)) by {
        reveal_strlit("result.android.launch");
        lemma_bound_result("result.android.launch"@, 10, 2, 0);
    }
    assert(agrees("result.android.notification"@)) by {
        reveal_strlit("result.android.notification");
        lemma_bound_result("result.android.notification"@, 11, 3, 0);
    }
    assert(agrees("result.android.package"@)) by {
        reveal_strlit("result.android.package");
        lemma_bound_result("result.android.package"@, 12, 4, 0);
    }
}

proof fn lemma_automation_results()
    ensures
        agrees("result.automation.delete"@),
        agrees("result.automation.get"@),
        agrees("result.automation.list"@),
        agrees("result.automation.save"@),
        agrees("result.automation.set_enabled"@),
        agrees("result.automation.run"@),
{
    reveal(agrees);
    assert(agrees("result.automation.delete"@)) by {
        reveal_strlit("result.automation.delete");
        lemma_bound_result("result.automation.delete"@, 13, 5, 0);
    }
    assert(agrees("result.automation.get"@)) by {
        reveal_strlit("result.automation.get");
        lemma_bound_result("result.automation.get"@, 14, 6, 0);
    }
    assert(agrees("result.automation.list"@)) by {
        reveal_strlit("result.automation.list");
        lemma_bound_result("result.automation.list"@, 15, 7, 0);
    }
    assert(agrees("result.automation.save"@)) by {
        reveal_strlit("result.automation.save");
        lemma_bound_result("result.automation.save"@, 16, 9, 0);
    }
    assert(agrees("result.automation.set_enabled"@)) by {
        reveal_strlit("result.automation.set_enabled");
        lemma_bound_result("result.automation.set_enabled"@, 17, 10, 0);
    }
    assert(agrees("result.automation.run"@)) by {
        reveal_strlit("result.automation.run");
        lemma_bound_result("result.automation.run"@, 18, 8, 0);
    }
}

proof fn lemma_command_results()
    ensures
        agrees("result.command.run"@),
        agrees("result.command.run.accepted"@),
{
    reveal(agrees);
    assert(agrees("result.command.run"@)) by {
        reveal_strlit("result.command.run");
        lemma_bound_result("result.command.run"@, 19, 11, 0);
    }
    assert(agrees("result.command.run.accepted"@)) by {
        reveal_strlit("result.command.run.accepted");
        lemma_bound_result("result.command.run.accepted"@, 20, 11, 1);
    }
}

proof fn lemma_context_results()
    ensures
        agrees("result.context.catalog"@),
        agrees("result.context.status.compact"@),
        agrees("result.context.status.full"@),
{
    reveal(agrees);
    assert(agrees("result.context.catalog"@)) by {
        reveal_strlit("result.context.catalog");
        lemma_bound_result("result.context.catalog"@, 21, 12, 0);
    }
    assert(agrees("result.context.status.compact"@)) by {
        reveal_strlit("result.context.status.compact");
        lemma_bound_result("result.context.status.compact"@, 22, 13, 0);
    }
    assert(agrees("result.context.status.full"@)) by {
        reveal_strlit("result.context.status.full");
        lemma_bound_result("result.context.status.full"@, 23, 13, 1);
    }
}

proof fn lemma_filesystem_results()
    ensures
        agrees("result.filesystem.archive.list"@),
        agrees("result.filesystem.archive.accepted"@),
        agrees("result.filesystem.archive.terminal"@),
        agrees("result.filesystem.download.accepted"@),
        agrees("result.filesystem.download.terminal"@),
        agrees("result.filesystem.inspect"@),
        agrees("result.filesystem.manage"@),
        agrees("result.filesystem.read"@),
        agrees("result.filesystem.write"@),
{
    reveal(agrees);
    assert(agrees("result.filesystem.archive.list"@)) by {
        reveal_strlit("result.filesystem.archive.list");
        lemma_bound_result("result.filesystem.archive.list"@, 24, 14, 0);
    }
    assert(agrees("result.filesystem.archive.accepted"@)) by {
        reveal_strlit("result.filesystem.archive.accepted");
        lemma_bound_result("result.filesystem.archive.accepted"@, 25, 14, 1);
    }
    assert(agrees("result.filesystem.archive.terminal"@)) by {
        reveal_strlit("result.filesystem.archive.terminal");
        lemma_bound_result("result.filesystem.archive.terminal"@, 26, 14, 2);
    }
    assert(agrees("result.filesystem.download.accepted"@)) by {
        reveal_strlit("result.filesystem.download.accepted");
        lemma_bound_result("result.filesystem.download.accepted"@, 27, 15, 0);
    }
    assert(agrees("result.filesystem.download.terminal"@)) by {
        reveal_strlit("result.filesystem.download.terminal");
        lemma_bound_result("result.filesystem.download.terminal"@, 28, 15, 1);
    }
    assert(agrees("result.filesystem.inspect"@)) by {
        reveal_strlit("result.filesystem.inspect");
        lemma_bound_result("result.filesystem.inspect"@, 29, 16, 0);
    }
    assert(agrees("result.filesystem.manage"@)) by {
        reveal_strlit("result.filesystem.manage");
        lemma_bound_result("result.filesystem.manage"@, 30, 17, 0);
    }
    assert(agrees("result.filesystem.read"@)) by {
        reveal_strlit("result.filesystem.read");
        lemma_bound_result("result.filesystem.read"@, 31, 18, 0);
    }
    assert(agrees("result.filesystem.write"@)) by {
        reveal_strlit("result.filesystem.write");
        lemma_bound_result("result.filesystem.write"@, 32, 19, 0);
    }
}

proof fn lemma_network_results()
    ensures
        agrees("result.network.capture.read"@),
        agrees("result.network.capture.start"@),
        agrees("result.network.capture.terminal"@),
        agrees("result.network.diagnose"@),
        agrees("result.network.inspect"@),
        agrees("result.network.packet.build"@),
        agrees("result.network.packet.decode"@),
        agrees("result.network.packet.inject"@),
{
    reveal(agrees);
    assert(agrees("result.network.capture.read"@)) by {
        reveal_strlit("result.network.capture.read");
        lemma_bound_result("result.network.capture.read"@, 33, 20, 1);
    }
    assert(agrees("result.network.capture.start"@)) by {
        reveal_strlit("result.network.capture.start");
        lemma_bound_result("result.network.capture.start"@, 34, 20, 0);
    }
    assert(agrees("result.network.capture.terminal"@)) by {
        reveal_strlit("result.network.capture.terminal");
        lemma_bound_result("result.network.capture.terminal"@, 35, 20, 2);
    }
    assert(agrees("result.network.diagnose"@)) by {
        reveal_strlit("result.network.diagnose");
        lemma_bound_result("result.network.diagnose"@, 36, 21, 0);
    }
    assert(agrees("result.network.inspect"@)) by {
        reveal_strlit("result.network.inspect");
        lemma_bound_result("result.network.inspect"@, 37, 22, 0);
    }
    assert(agrees("result.network.packet.build"@)) by {
        reveal_strlit("result.network.packet.build");
        lemma_bound_result("result.network.packet.build"@, 38, 23, 1);
    }
    assert(agrees("result.network.packet.decode"@)) by {
        reveal_strlit("result.network.packet.decode");
        lemma_bound_result("result.network.packet.decode"@, 39, 23, 0);
    }
    assert(agrees("result.network.packet.inject"@)) by {
        reveal_strlit("result.network.packet.inject");
        lemma_bound_result("result.network.packet.inject"@, 40, 23, 2);
    }
}

proof fn lemma_task_control_results()
    ensures
        agrees("result.task_control.list"@),
        agrees("result.task_control.snapshot"@),
{
    reveal(agrees);
    assert(agrees("result.task_control.list"@)) by {
        reveal_strlit("result.task_control.list");
        lemma_bound_result("result.task_control.list"@, 41, 26, 0);
    }
    assert(agrees("result.task_control.snapshot"@)) by {
        reveal_strlit("result.task_control.snapshot");
        lemma_bound_result("result.task_control.snapshot"@, 42, 24, 0);
    }
}

proof fn lemma_visual_results()
    ensures
        agrees("result.visual.interact"@),
        agrees("result.visual.observe"@),
        agrees("result.visual.view"@),
{
    reveal(agrees);
    assert(agrees("result.visual.interact"@)) by {
        reveal_strlit("result.visual.interact");
        lemma_bound_result("result.visual.interact"@, 43, 27, 0);
    }
    assert(agrees("result.visual.observe"@)) by {
        reveal_strlit("result.visual.observe");
        lemma_bound_result("result.visual.observe"@, 44, 28, 0);
    }
    assert(agrees("result.visual.view"@)) by {
        reveal_strlit("result.visual.view");
        lemma_bound_result("result.visual.view"@, 45, 29, 0);
    }
}

proof fn lemma_other_schemas()
    ensures
        !is_result_name("automation"@),
        !is_result_name("daemon_operation"@),
        !is_result_name("daemon_result.maintenance_install"@),
        !is_result_name("daemon_result.maintenance_status"@),
        !is_result_name("internal_execution_envelope"@),
        !is_result_name("public_error"@),
        !is_result_name("public_request"@),
        !is_result_name("public_response"@),
{
    assert(!is_result_name("automation"@)) by {
        reveal_strlit("automation");
        lemma_no_result("automation"@);
    }
    assert(!is_result_name("daemon_operation"@)) by {
        reveal_strlit("daemon_operation");
        lemma_no_result("daemon_operation"@);
    }
    assert(!is_result_name("daemon_result.maintenance_install"@)) by {
        reveal_strlit("daemon_result.maintenance_install");
        lemma_no_result("daemon_result.maintenance_install"@);
    }
    assert(!is_result_name("daemon_result.maintenance_status"@)) by {
        reveal_strlit("daemon_result.maintenance_status");
        lemma_no_result("daemon_result.maintenance_status"@);
    }
    assert(!is_result_name("internal_execution_envelope"@)) by {
        reveal_strlit("internal_execution_envelope");
        lemma_no_result("internal_execution_envelope"@);
    }
    assert(!is_result_name("public_error"@)) by {
        reveal_strlit("public_error");
        lemma_no_result("public_error"@);
    }
    assert(!is_result_name("public_request"@)) by {
        reveal_strlit("public_request");
        lemma_no_result("public_request"@);
    }
    assert(!is_result_name("public_response"@)) by {
        reveal_strlit("public_response");
        lemma_no_result("public_response"@);
    }
}

proof fn lemma_listed(at: int)
    requires
        0 <= at < schema_table().len(),
        is_result_name(schema_table()[at]),
    ensures
        agrees(schema_table()[at]),
{
    lemma_other_schemas();
    lemma_android_results();
    lemma_automation_results();
    lemma_command_results();
    lemma_context_results();
    lemma_filesystem_results();
    lemma_network_results();
    lemma_task_control_results();
    lemma_visual_results();
}

proof fn lemma_bound(i: int, j: int, name: Seq<char>)
    requires
        0 <= i < bindings_model()->Object_0.len(),
        0 <= j < bindings_model()->Object_0[i].1->Array_0.len(),
        bindings_model()->Object_0[i].1->Array_0[j] == JsonModel::Text(name),
    ensures
        agrees(name),
{
    lemma_android_results();
    lemma_automation_results();
    lemma_command_results();
    lemma_context_results();
    lemma_filesystem_results();
    lemma_network_results();
    lemma_task_control_results();
    lemma_visual_results();
}

/// The schemas that the results of the actions are bound to are exactly the schemas of results:
/// none of them is missing from the table, and none of the table is left unbound.
pub proof fn every_result_schema_is_bound()
    ensures
        forall|name: Seq<char>|
            #[trigger] is_bound(name) <==> schema_table().contains(name) && is_result_name(name),
{
    reveal(agrees);
    assert forall|name: Seq<char>| #[trigger] is_bound(name) implies schema_table().contains(name)
        && is_result_name(name) by {
        let (i, j) = choose|i: int, j: int|
            0 <= i < bindings_model()->Object_0.len() && 0 <= j
                < bindings_model()->Object_0[i].1->Array_0.len()
                && #[trigger] bindings_model()->Object_0[i].1->Array_0[j] == JsonModel::Text(name);
        lemma_bound(i, j, name);
    }
    assert forall|name: Seq<char>| schema_table().contains(name) && is_result_name(name) implies
        #[trigger] is_bound(name) by {
        let at = choose|at: int| 0 <= at < schema_table().len() && schema_table()[at] == name;
        lemma_listed(at);
    }
}

} // verus!
