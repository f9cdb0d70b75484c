//! Recovery of root execution guards: which proofs may be finalized, whether more of them may be
//! kept, and whether the guard that is installed works.

use crate::contract::common::{random_octets, uuid_hyphenated, ErrorCode, UuidV4};
use crate::daemon::command::{guard_arguments, guard_argument_models, CommandProcessRequest};
use crate::daemon::command::{GuardCleanCause, GuardRecovery};
use crate::error::DomainError;
use crate::text::{
    chars_of, decimal, decimal_text_reads_back, ends_with, owned_texts, parse_unsigned, slices,
    texts, unsigned_number,
};
use crate::words::{
    find_word, is_word, nth_word, spaced, trimmed_chars, trimmed_text, words_are_found_in_order,
    words_behind,
};
use vstd::prelude::*;

verus! {

pub const MAX_GUARD_PROOF_FILES: usize = 384;

pub const MAX_GUARD_PROOF_BYTES: u64 = 1_572_864;

pub const PROBE_MARKER_WAIT_MS: u64 = 2_000;

pub const PROBE_EXIT_WAIT_MS: u64 = 8_000;

pub fn io_error(reason: &'static str) -> (error: DomainError)
    ensures
        error == (DomainError { code: ErrorCode::IoError, reason }),
{
    DomainError::new(ErrorCode::IoError, reason)
}

// ---------------------------------------------------------------------------------------
// Recovery.
// ---------------------------------------------------------------------------------------

/// What is to become of the record of a guard.
#[derive(Clone, Copy, Debug, PartialEq, Eq, Structural)]
pub enum GuardFinalizationDisposition {
    Blocked,
    CleanupTaskTemporaryAndRemoveProof,
    RemoveProof,
}

/// The record of one guard.
#[derive(Debug)]
pub struct CleanGuardRecord {
    pub execution_id: UuidV4,
    pub task_id: Option<UuidV4>,
    pub containing_boot_id: Option<UuidV4>,
    pub recovery: GuardRecovery,
    pub finalization: GuardFinalizationDisposition,
}

/// Every guard that an earlier run left behind.
#[derive(Debug)]
pub struct GuardRecoveryPlan {
    pub guards_are_clean: bool,
    pub records: Vec<CleanGuardRecord>,
}

/// The evidence that every guard of an earlier run was cleaned up. Only a recovery makes one.
#[derive(Debug)]
pub struct MagiskCleanupVerification {
    verified: (),
}

/// How records are finalized.
pub trait MagiskGuardRecoveryMechanics {
    fn finalize(&mut self, record: &CleanGuardRecord) -> Result<(), DomainError>;

    fn finish(&mut self, had_records: bool) -> Result<(), DomainError>;
}

/// Whether some record must not be finalized.
pub open spec fn has_blocked(records: Seq<CleanGuardRecord>) -> bool {
    exists|i: int| 0 <= i < records.len() && (#[trigger] records[i]).finalization is Blocked
}

/// Whether a recovery is verified: its guards were clean, no record was blocked, and every record
/// and the recovery as a whole could be finalized.
pub open spec fn recovery_verified(
    guards_are_clean: bool,
    records: Seq<CleanGuardRecord>,
    finalized: Seq<bool>,
    finished: bool,
) -> bool {
    &&& guards_are_clean
    &&& !has_blocked(records)
    &&& forall|i: int| 0 <= i < finalized.len() ==> #[trigger] finalized[i]
    &&& finished
}

/// The verdict on a recovery whose records were finalized, each or not.
pub fn recovery_verdict(plan: &GuardRecoveryPlan, finalized: &[bool], finished: bool) -> (verdict:
    Result<MagiskCleanupVerification, DomainError>)
    ensures
        verdict is Ok <==> recovery_verified(
            plan.guards_are_clean,
            plan.records@,
            finalized@,
            finished,
        ),
        verdict matches Err(error) ==> error == (DomainError {
            code: ErrorCode::IoError,
            reason: if plan.guards_are_clean {
                "root guard finalization is unverified"
            } else {
                "root guard recovery is not proven clean"
            },
        }),
{
    if !plan.guards_are_clean {
        return Err(io_error("root guard recovery is not proven clean"));
    }
    let mut failed = !finished;
    for i in 0..plan.records.len()
        invariant
            failed == (!finished || has_blocked(plan.records@.take(i as int))),
    {
        let ghost before = plan.records@.take(i as int);
        let ghost after = plan.records@.take(i + 1);
        proof {
            assert(after[i as int] == plan.records@[i as int]);
            if has_blocked(before) {
                let k = choose|k: int|
                    0 <= k < before.len() && (#[trigger] before[k]).finalization is Blocked;
                assert(after[k] == before[k]);
            }
            if has_blocked(after) && !(after[i as int].finalization is Blocked) {
                let k = choose|k: int|
                    0 <= k < after.len() && (#[trigger] after[k]).finalization is Blocked;
                assert(before[k] == after[k]);
            }
        }
        if plan.records[i].finalization == GuardFinalizationDisposition::Blocked {
            failed = true;
        }
    }
    assert(plan.records@.take(plan.records@.len() as int) =~= plan.records@);
    let mut every = true;
    for i in 0..finalized.len()
        invariant
            every == forall|k: int| 0 <= k < i ==> #[trigger] finalized@[k],
    {
        if !finalized[i] {
            assert(!finalized@[i as int]);
            every = false;
        }
    }
    if failed || !every {
        Err(io_error("root guard finalization is unverified"))
    } else {
        Ok(MagiskCleanupVerification { verified: () })
    }
}

/// The records that are handed over: each that is not blocked, in order.
pub open spec fn due_records(records: Seq<CleanGuardRecord>) -> Seq<CleanGuardRecord>
    decreases records.len(),
{
    if records.len() == 0 {
        Seq::empty()
    } else if records.last().finalization is Blocked {
        due_records(records.drop_last())
    } else {
        due_records(records.drop_last()).push(records.last())
    }
}

/// Whether there are records at all.
pub open spec fn has_records(records: Seq<CleanGuardRecord>) -> bool {
    records.len() > 0
}

/// Whether there is an answer for every record that is handed over, and a state of the mechanics
/// before the first of them and after each.
pub open spec fn fits<M>(due: Seq<CleanGuardRecord>, states: Seq<M>, answers: Seq<bool>) -> bool {
    states.len() == due.len() + 1 && answers.len() == due.len()
}

/// Hands a record over, once, and tells whether it could be finalized.
fn finalize_once<M: MagiskGuardRecoveryMechanics>(
    mechanics: &mut M,
    record: &CleanGuardRecord,
) -> (done: bool)
    ensures
        exists|asked: &mut M, answer: Result<(), DomainError>|
            *asked == *old(mechanics) && *final(asked) == *final(mechanics) && done == answer is Ok
                && #[trigger] call_ensures(M::finalize, (asked, record), answer),
{
    mechanics.finalize(record).is_ok()
}

/// Ends a recovery, once, and tells whether it could be ended.
fn finish_once<M: MagiskGuardRecoveryMechanics>(mechanics: &mut M, had_records: bool) -> (done: bool)
    ensures
        exists|asked: &mut M, answer: Result<(), DomainError>|
            *asked == *old(mechanics) && *final(asked) == *final(mechanics) && done == answer is Ok
                && #[trigger] call_ensures(M::finish, (asked, had_records), answer),
{
    mechanics.finish(had_records).is_ok()
}

/// Finalizes every record of a plan. Every record is tried, whatever became of the others; a
/// blocked one is left alone. A recovery that is not proven clean touches nothing. The evidence is
/// given exactly if no record was blocked and every call succeeded.
///
/// On a clean plan the mechanics go through `states`, one call from each to the next that hands
/// over the next record that is due; one call that ends the recovery leads from the last of them to
/// the final state. So these are the calls, in this order, and there is no other.
pub fn execute_guard_recovery<M: MagiskGuardRecoveryMechanics>(
    plan: &GuardRecoveryPlan,
    mechanics: &mut M,
) -> (verification: Result<MagiskCleanupVerification, DomainError>)
    ensures
        !plan.guards_are_clean ==> verification is Err && *final(mechanics) == *old(mechanics),
        plan.guards_are_clean ==> exists|
            states: Seq<M>,
            answers: Seq<bool>,
            last: &mut M,
            ended: Result<(), DomainError>,
        |
            {
                &&& #[trigger] fits(due_records(plan.records@), states, answers)
                &&& states[0] == *old(mechanics)
                &&& forall|k: int|
                    0 <= k < answers.len() ==> !((
                    #[trigger] due_records(plan.records@)[k]).finalization is Blocked) && exists|
                        asked: &mut M,
                        answer: Result<(), DomainError>,
                    |
                        *asked == states[k] && *final(asked) == states[k + 1] && answers[k] == (
                        answer is Ok) && #[trigger] call_ensures(
                            M::finalize,
                            (asked, &due_records(plan.records@)[k]),
                            answer,
                        )
                &&& *last == states.last()
                &&& *final(last) == *final(mechanics)
                &&& #[trigger] call_ensures(M::finish, (last, has_records(plan.records@)), ended)
                &&& verification is Ok <==> recovery_verified(
                    true,
                    plan.records@,
                    answers,
                    ended is Ok,
                )
            },
        verification matches Err(error) ==> error == (DomainError {
            code: ErrorCode::IoError,
            reason: if plan.guards_are_clean {
                "root guard finalization is unverified"
            } else {
                "root guard recovery is not proven clean"
            },
        }),
{
    if !plan.guards_are_clean {
        return Err(io_error("root guard recovery is not proven clean"));
    }
    let mut finalized: Vec<bool> = Vec::new();
    let ghost mut states: Seq<M> = seq![*mechanics];
    let ghost mut due: Seq<CleanGuardRecord> = Seq::empty();
    for i in 0..plan.records.len()
        invariant
            due == due_records(plan.records@.take(i as int)),
            fits(due, states, finalized@),
            states[0] == *old(mechanics),
            states.last() == *mechanics,
            forall|k: int|
                0 <= k < finalized@.len() ==> !((#[trigger] due[k]).finalization is Blocked) && exists|
                    asked: &mut M,
                    answer: Result<(), DomainError>,
                |
                    *asked == states[k] && *final(asked) == states[k + 1] && finalized@[k] == (answer
                        is Ok) && #[trigger] call_ensures(M::finalize, (asked, &due[k]), answer),
    {
        let ghost upto = plan.records@.take(i + 1);
        assert(upto.drop_last() =~= plan.records@.take(i as int));
        assert(upto.last() == plan.records@[i as int]);
        let record = &plan.records[i];
        if record.finalization != GuardFinalizationDisposition::Blocked {
            let ghost earlier = (states, due, finalized@);
            let done = finalize_once(mechanics, record);
            finalized.push(done);
            proof {
                states = states.push(*mechanics);
                due = due.push(*record);
                assert forall|k: int| 0 <= k < finalized@.len() implies !((
                #[trigger] due[k]).finalization is Blocked) && exists|
                    asked: &mut M,
                    answer: Result<(), DomainError>,
                |
                    *asked == states[k] && *final(asked) == states[k + 1] && finalized@[k] == (answer
                        is Ok) && #[trigger] call_ensures(M::finalize, (asked, &due[k]), answer) by {
                    if k < earlier.2.len() {
                        assert(states[k] == earlier.0[k] && states[k + 1] == earlier.0[k + 1]);
                        assert(due[k] == earlier.1[k] && finalized@[k] == earlier.2[k]);
                    } else {
                        assert(due[k] == *record);
                    }
                }
            }
        }
    }
    assert(plan.records@.take(plan.records@.len() as int) =~= plan.records@);
    let had_records: bool = plan.records.len() > 0;
    let finished = finish_once(mechanics, had_records);
    assert(had_records == has_records(plan.records@));
    assert(fits(due_records(plan.records@), states, finalized@));
    recovery_verdict(plan, finalized.as_slice(), finished)
}

/// The task whose temporary files are removed before the proof of a record is. A blocked record is
/// refused.
pub fn cleanup_task(record: &CleanGuardRecord) -> (task: Result<Option<UuidV4>, DomainError>)
    ensures
        task == (match record.finalization {
            GuardFinalizationDisposition::Blocked => Err(
                DomainError {
                    code: ErrorCode::IoError,
                    reason: "blocked root guard record cannot be finalized",
                },
            ),
            GuardFinalizationDisposition::CleanupTaskTemporaryAndRemoveProof => match record.task_id {
                Some(task_id) => Ok(Some(task_id)),
                None => Err(
                    DomainError {
                        code: ErrorCode::IoError,
                        reason: "root guard cleanup task identity is missing",
                    },
                ),
            },
            GuardFinalizationDisposition::RemoveProof => Ok(None),
        }),
{
    match record.finalization {
        GuardFinalizationDisposition::Blocked => Err(
            io_error("blocked root guard record cannot be finalized"),
        ),
        GuardFinalizationDisposition::CleanupTaskTemporaryAndRemoveProof => match &record.task_id {
            Some(task_id) => Ok(Some(task_id.clone())),
            None => Err(io_error("root guard cleanup task identity is missing")),
        },
        GuardFinalizationDisposition::RemoveProof => Ok(None),
    }
}

/// The boot whose directory holds the proof of a record.
pub fn record_boot(record: &CleanGuardRecord) -> (boot: Result<UuidV4, DomainError>)
    ensures
        boot == (match record.containing_boot_id {
            Some(boot_id) => Ok(boot_id),
            None => Err(
                DomainError {
                    code: ErrorCode::IoError,
                    reason: "root guard boot identity is missing",
                },
            ),
        }),
{
    match &record.containing_boot_id {
        Some(boot_id) => Ok(boot_id.clone()),
        None => Err(io_error("root guard boot identity is missing")),
    }
}

/// Notes a directory that a proof was removed from, once.
pub fn touch_directory(directories: &mut Vec<String>, directory: &str)
    ensures
        texts(final(directories)@) == (if texts(old(directories)@).contains(directory@) {
            texts(old(directories)@)
        } else {
            texts(old(directories)@).push(directory@)
        }),
{
    let ghost before = texts(directories@);
    for i in 0..directories.len()
        invariant
            before == texts(directories@),
            texts(old(directories)@) == before,
            forall|k: int| 0 <= k < i ==> before[k] != directory@,
    {
        assert(before[i as int] == directories@[i as int]@);
        if crate::text::same(directories[i].as_str(), directory) {
            assert(before.contains(directory@));
            return;
        }
    }
    assert(!before.contains(directory@));
    directories.push(directory.to_owned());
    assert(texts(directories@) =~= before.push(directory@));
}

/// The end of a recovery: every directory was dealt with and, if there were records, the change
/// was made durable.
pub fn finish_verdict(directories_ok: bool, had_records: bool, root_synced: bool) -> (verdict: Result<
    (),
    DomainError,
>)
    ensures
        verdict == (if directories_ok && (!had_records || root_synced) {
            Ok(())
        } else {
            Err(
                DomainError {
                    code: ErrorCode::IoError,
                    reason: "cannot durably finalize root guard records",
                },
            )
        }),
{
    if !directories_ok || (had_records && !root_synced) {
        Err(io_error("cannot durably finalize root guard records"))
    } else {
        Ok(())
    }
}

// ---------------------------------------------------------------------------------------
// Capacity.
// ---------------------------------------------------------------------------------------

/// One file beside the proofs of a boot: its name, unless it is no text, and its length, unless it
/// is no regular file.
#[derive(Debug)]
pub struct ProofEntry {
    pub name: Option<String>,
    pub length: Option<u64>,
}

/// One entry of the proof root: whether it is a directory, and what is in it, unless that cannot
/// be read.
#[derive(Debug)]
pub struct BootListing {
    pub is_directory: bool,
    pub entries: Option<Vec<ProofEntry>>,
}

/// What the proof root holds.
#[derive(Debug)]
pub enum ProofListing {
    Missing,
    Unreadable,
    Boots(Vec<BootListing>),
}

/// How many proofs there are and how many bytes they take.
#[derive(Clone, Copy, Debug, PartialEq, Eq, Structural)]
pub struct ProofUse {
    pub count: usize,
    pub bytes: u64,
}

pub open spec fn is_proof(entry: ProofEntry) -> bool {
    entry.name is Some && ".proof"@.is_suffix_of(entry.name->0@)
}

/// What one more file adds, or nothing if it cannot be told.
pub open spec fn with_entry(used: Option<(int, int)>, entry: ProofEntry) -> Option<(int, int)> {
    match used {
        None => None,
        Some((count, bytes)) => if entry.name is None {
            None
        } else if !is_proof(entry) {
            used
        } else if entry.length is None || bytes + entry.length->0 > u64::MAX {
            None
        } else {
            Some((count + 1, bytes + entry.length->0))
        },
    }
}

/// What files add, or nothing if it cannot be told.
pub open spec fn with_entries(used: Option<(int, int)>, entries: Seq<ProofEntry>) -> Option<
    (int, int),
>
    decreases entries.len(),
{
    if entries.len() == 0 {
        used
    } else {
        with_entry(with_entries(used, entries.drop_last()), entries.last())
    }
}

/// What one more boot adds, or nothing if it cannot be told.
pub open spec fn with_boot(used: Option<(int, int)>, boot: BootListing) -> Option<(int, int)> {
    if !boot.is_directory || boot.entries is None {
        None
    } else {
        with_entries(used, boot.entries->0@)
    }
}

/// What boots add, or nothing if it cannot be told.
pub open spec fn with_boots(used: Option<(int, int)>, boots: Seq<BootListing>) -> Option<
    (int, int),
>
    decreases boots.len(),
{
    if boots.len() == 0 {
        used
    } else {
        with_boot(with_boots(used, boots.drop_last()), boots.last())
    }
}

/// Whether one more proof, of at most `proof_limit` bytes, may be kept. What cannot be told counts
/// as full.
pub open spec fn has_capacity(listing: ProofListing, proof_limit: u64) -> bool {
    match listing {
        ProofListing::Missing => true,
        ProofListing::Unreadable => false,
        ProofListing::Boots(boots) => match with_boots(Some((0, 0)), boots@) {
            Some((count, bytes)) => count < MAX_GUARD_PROOF_FILES && bytes + proof_limit
                <= MAX_GUARD_PROOF_BYTES,
            None => false,
        },
    }
}

proof fn lemma_nothing_stays_nothing(entries: Seq<ProofEntry>)
    ensures
        with_entries(None, entries) is None,
    decreases entries.len(),
{
    if entries.len() > 0 {
        lemma_nothing_stays_nothing(entries.drop_last());
    }
}

proof fn lemma_entries_need_each(used: Option<(int, int)>, entries: Seq<ProofEntry>, n: int)
    requires
        0 <= n <= entries.len(),
        with_entries(used, entries.take(n)) is None,
    ensures
        with_entries(used, entries) is None,
    decreases entries.len() - n,
{
    if n < entries.len() {
        assert(entries.take(n + 1).drop_last() =~= entries.take(n));
        lemma_entries_need_each(used, entries, n + 1);
    } else {
        assert(entries.take(n) =~= entries);
    }
}

proof fn lemma_boots_need_each(used: Option<(int, int)>, boots: Seq<BootListing>, n: int)
    requires
        0 <= n <= boots.len(),
        with_boots(used, boots.take(n)) is None,
    ensures
        with_boots(used, boots) is None,
    decreases boots.len() - n,
{
    if n < boots.len() {
        assert(boots.take(n + 1).drop_last() =~= boots.take(n));
        if boots[n].is_directory && boots[n].entries is Some {
            lemma_nothing_stays_nothing(boots[n].entries->0@);
        }
        lemma_boots_need_each(used, boots, n + 1);
    } else {
        assert(boots.take(n) =~= boots);
    }
}

/// Adds the proofs of one boot, as long as fewer than `usize::MAX` were counted.
fn add_boot(used: ProofUse, boot: &BootListing) -> (sum: Option<ProofUse>)
    ensures
        match sum {
            Some(sum) => with_boot(Some((used.count as int, used.bytes as int)), *boot) == Some(
                (sum.count as int, sum.bytes as int),
            ),
            None => match with_boot(Some((used.count as int, used.bytes as int)), *boot) {
                Some((count, _)) => count > usize::MAX,
                None => true,
            },
        },
{
    if !boot.is_directory {
        return None;
    }
    let entries = match &boot.entries {
        Some(entries) => entries,
        None => {
            return None;
        },
    };
    let ghost start = Some((used.count as int, used.bytes as int));
    let mut sum = used;
    for i in 0..entries.len()
        invariant
            with_entries(start, entries@.take(i as int)) == Some(
                (sum.count as int, sum.bytes as int),
            ),
            boot.is_directory,
            boot.entries == Some(*entries),
            start == Some((used.count as int, used.bytes as int)),
    {
        let ghost next = entries@.take(i + 1);
        proof {
            assert(next.drop_last() =~= entries@.take(i as int));
            assert(next.last() == entries@[i as int]);
        }
        let entry = &entries[i];
        let name = match &entry.name {
            Some(name) => name,
            None => {
                proof {
                    lemma_entries_need_each(start, entries@, i + 1);
                }
                return None;
            },
        };
        if ends_with(name.as_str(), ".proof") {
            let length: u64 = match entry.length {
                Some(length) => length,
                None => {
                    proof {
                        lemma_entries_need_each(start, entries@, i + 1);
                    }
                    return None;
                },
            };
            let bytes: u64 = match sum.bytes.checked_add(length) {
                Some(bytes) => bytes,
                None => {
                    proof {
                        lemma_entries_need_each(start, entries@, i + 1);
                    }
                    return None;
                },
            };
            if sum.count == usize::MAX {
                proof {
                    lemma_count_grows(start, entries@, i + 1);
                }
                return None;
            }
            sum = ProofUse { count: sum.count + 1, bytes };
        }
    }
    assert(entries@.take(entries@.len() as int) =~= entries@);
    Some(sum)
}

proof fn lemma_count_grows(used: Option<(int, int)>, entries: Seq<ProofEntry>, n: int)
    requires
        0 <= n <= entries.len(),
        with_entries(used, entries.take(n)) matches Some((count, _)) ==> count > usize::MAX,
    ensures
        with_entries(used, entries) matches Some((count, _)) ==> count > usize::MAX,
    decreases entries.len() - n,
{
    if n < entries.len() {
        assert(entries.take(n + 1).drop_last() =~= entries.take(n));
        lemma_count_grows(used, entries, n + 1);
    } else {
        assert(entries.take(n) =~= entries);
    }
}

proof fn lemma_total_grows(count: int, bytes: int, entries: Seq<ProofEntry>)
    ensures
        with_entries(Some((count, bytes)), entries) matches Some((total, _)) ==> total >= count,
    decreases entries.len(),
{
    if entries.len() > 0 {
        lemma_total_grows(count, bytes, entries.drop_last());
    }
}

proof fn lemma_boot_count_grows(boots: Seq<BootListing>, n: int)
    requires
        0 <= n <= boots.len(),
        with_boots(Some((0, 0)), boots.take(n)) matches Some((count, _)) ==> count > usize::MAX,
    ensures
        with_boots(Some((0, 0)), boots) matches Some((count, _)) ==> count > usize::MAX,
    decreases boots.len() - n,
{
    if n < boots.len() {
        assert(boots.take(n + 1).drop_last() =~= boots.take(n));
        let before = with_boots(Some((0, 0)), boots.take(n));
        if boots[n].is_directory && boots[n].entries is Some {
            match before {
                Some((count, bytes)) => lemma_total_grows(count, bytes, boots[n].entries->0@),
                None => lemma_nothing_stays_nothing(boots[n].entries->0@),
            }
        }
        lemma_boot_count_grows(boots, n + 1);
    } else {
        assert(boots.take(n) =~= boots);
    }
}

/// Whether one more proof may be kept.
pub fn guard_proof_capacity_available(listing: &ProofListing, proof_limit: u64) -> (available: bool)
    ensures
        available == has_capacity(*listing, proof_limit),
{
    let boots = match listing {
        ProofListing::Missing => {
            return true;
        },
        ProofListing::Unreadable => {
            return false;
        },
        ProofListing::Boots(boots) => boots,
    };
    let mut used = ProofUse { count: 0, bytes: 0 };
    for i in 0..boots.len()
        invariant
            *listing == ProofListing::Boots(*boots),
            with_boots(Some((0, 0)), boots@.take(i as int)) == Some(
                (used.count as int, used.bytes as int),
            ),
    {
        let ghost next = boots@.take(i + 1);
        proof {
            assert(next.drop_last() =~= boots@.take(i as int));
            assert(next.last() == boots@[i as int]);
        }
        match add_boot(used, &boots[i]) {
            Some(sum) => {
                used = sum;
            },
            None => {
                proof {
                    if with_boots(Some((0, 0)), next) is None {
                        lemma_boots_need_each(Some((0, 0)), boots@, i + 1);
                    } else {
                        lemma_boot_count_grows(boots@, i + 1);
                    }
                }
                return false;
            },
        }
    }
    assert(boots@.take(boots@.len() as int) =~= boots@);
    used.count < MAX_GUARD_PROOF_FILES && match used.bytes.checked_add(proof_limit) {
        Some(total) => total <= MAX_GUARD_PROOF_BYTES,
        None => false,
    }
}

// ---------------------------------------------------------------------------------------
// Probing the guard.
// ---------------------------------------------------------------------------------------

/// The two ways in which a guard has to end.
#[derive(Clone, Copy, Debug, PartialEq, Eq, Structural)]
pub enum GuardProbe {
    ChildExit,
    OwnerLost,
}

/// The name of the file that a probe makes once it runs.
pub fn marker_name(execution_id: &str) -> (name: String)
    ensures
        name@ == execution_id@ + ".ready"@,
{
    crate::text::joined(execution_id, ".ready")
}

/// What a probe is given after the guard's own path.
pub open spec fn probe_tail(mode: GuardProbe, marker: Seq<char>) -> Seq<Seq<char>> {
    match mode {
        GuardProbe::ChildExit => seq!["--probe-child"@],
        GuardProbe::OwnerLost => seq!["--probe-owner-death-child"@, marker],
    }
}

/// The arguments a guard is probed with: it guards itself, as a child that plays its part.
pub fn probe_arguments(
    mode: GuardProbe,
    proof_fd: i32,
    lifetime_fd: i32,
    guard_path: &str,
    marker_path: &str,
) -> (arguments: Vec<String>)
    ensures
        texts(arguments@) == guard_argument_models(
            proof_fd,
            lifetime_fd,
            guard_path@,
            probe_tail(mode, marker_path@),
        ),
{
    let tail = match mode {
        GuardProbe::ChildExit => {
            let parts = ["--probe-child"];
            assert(slices(parts@) =~= probe_tail(mode, marker_path@));
            owned_texts(&parts)
        },
        GuardProbe::OwnerLost => {
            let parts = ["--probe-owner-death-child", marker_path];
            assert(slices(parts@) =~= probe_tail(mode, marker_path@));
            owned_texts(&parts)
        },
    };
    let request = CommandProcessRequest {
        run_as: crate::contract::tools::RunAs::Root,
        program: guard_path.to_owned(),
        arguments: tail,
        cwd: None,
        stdin: None,
        timeout_ms: 0,
        max_output_bytes: 0,
    };
    guard_arguments(proof_fd, lifetime_fd, &request)
}

/// What a probe waits for.
#[derive(Clone, Copy, Debug, PartialEq, Eq, Structural)]
pub enum ProbePhase {
    Marker,
    Exit,
}

/// The wait for one probe.
#[derive(Clone, Copy, Debug, PartialEq, Eq, Structural)]
pub struct ProbeWait {
    pub phase: ProbePhase,
    pub deadline_ms: u64,
}

/// What the wait asks for next.
#[derive(Clone, Copy, Debug, PartialEq, Eq)]
pub enum ProbeStep {
    /// Look again after so many milliseconds.
    Sleep(u64),
    /// Let go of the guard's lifetime, as an owner does that is lost.
    ReleaseOwner,
    /// The guard ended; read its proof.
    Settle(bool),
    /// The probe did not come through.
    GiveUp,
    Failed(DomainError),
}

/// What was seen of the probed guard: still running, ended with or without success, or not to be
/// seen.
#[derive(Clone, Copy, Debug, PartialEq, Eq, Structural)]
pub enum ProbeChild {
    Running,
    Ended(bool),
    Unobservable,
}

impl ProbeWait {
    pub fn new(mode: GuardProbe, now_ms: u64) -> (wait: Self)
        requires
            now_ms + PROBE_EXIT_WAIT_MS <= u64::MAX,
        ensures
            wait == (match mode {
                GuardProbe::ChildExit => ProbeWait {
                    phase: ProbePhase::Exit,
                    deadline_ms: (now_ms + PROBE_EXIT_WAIT_MS) as u64,
                },
                GuardProbe::OwnerLost => ProbeWait {
                    phase: ProbePhase::Marker,
                    deadline_ms: (now_ms + PROBE_MARKER_WAIT_MS) as u64,
                },
            }),
    {
        match mode {
            GuardProbe::ChildExit => ProbeWait {
                phase: ProbePhase::Exit,
                deadline_ms: now_ms + PROBE_EXIT_WAIT_MS,
            },
            GuardProbe::OwnerLost => ProbeWait {
                phase: ProbePhase::Marker,
                deadline_ms: now_ms + PROBE_MARKER_WAIT_MS,
            },
        }
    }

    /// One step of the wait. While the marker is missing, only the marker is looked for; once it
    /// is there, the owner lets go and the wait for the guard's end begins.
    pub fn step(&mut self, now_ms: u64, marker: bool, child: ProbeChild) -> (step: ProbeStep)
        requires
            now_ms + PROBE_EXIT_WAIT_MS <= u64::MAX,
        ensures
            *final(self) == (if old(self).phase is Marker && marker {
                ProbeWait {
                    phase: ProbePhase::Exit,
                    deadline_ms: (now_ms + PROBE_EXIT_WAIT_MS) as u64,
                }
            } else {
                *old(self)
            }),
            step == (match old(self).phase {
                ProbePhase::Marker => if marker {
                    ProbeStep::ReleaseOwner
                } else if now_ms < old(self).deadline_ms {
                    ProbeStep::Sleep(10)
                } else {
                    ProbeStep::GiveUp
                },
                ProbePhase::Exit => match child {
                    ProbeChild::Ended(success) => ProbeStep::Settle(success),
                    ProbeChild::Unobservable => ProbeStep::Failed(
                        DomainError {
                            code: ErrorCode::IoError,
                            reason: "cannot observe root guard probe",
                        },
                    ),
                    ProbeChild::Running => if now_ms >= old(self).deadline_ms {
                        ProbeStep::GiveUp
                    } else {
                        ProbeStep::Sleep(20)
                    },
                },
            }),
    {
        match self.phase {
            ProbePhase::Marker => {
                if marker {
                    self.phase = ProbePhase::Exit;
                    self.deadline_ms = now_ms + PROBE_EXIT_WAIT_MS;
                    ProbeStep::ReleaseOwner
                } else if now_ms < self.deadline_ms {
                    ProbeStep::Sleep(10)
                } else {
                    ProbeStep::GiveUp
                }
            },
            ProbePhase::Exit => match child {
                ProbeChild::Ended(success) => ProbeStep::Settle(success),
                ProbeChild::Unobservable => ProbeStep::Failed(
                    io_error("cannot observe root guard probe"),
                ),
                ProbeChild::Running => {
                    if now_ms >= self.deadline_ms {
                        ProbeStep::GiveUp
                    } else {
                        ProbeStep::Sleep(20)
                    }
                },
            },
        }
    }
}

/// Whether a probe came through: the guard succeeded and its proof records exactly the end that
/// was played.
pub fn probe_is_clean(mode: GuardProbe, recovery: &GuardRecovery, exited: bool) -> (clean: bool)
    ensures
        clean == (exited && (match *recovery {
            GuardRecovery::Clean { clean: Some(record) } => record.cause == (match mode {
                GuardProbe::ChildExit => GuardCleanCause::Exited,
                GuardProbe::OwnerLost => GuardCleanCause::OwnerLost,
            }),
            _ => false,
        })),
{
    let expected = match mode {
        GuardProbe::ChildExit => GuardCleanCause::Exited,
        GuardProbe::OwnerLost => GuardCleanCause::OwnerLost,
    };
    exited && match recovery {
        GuardRecovery::Clean { clean: Some(record) } => record.cause == expected,
        _ => false,
    }
}

/// Whether a guard works: it can be run, and both probes came through.
pub fn guard_works(is_absolute: bool, is_file: bool, exited: bool, owner_lost: bool) -> (works: bool)
    ensures
        works == (is_absolute && is_file && exited && owner_lost),
{
    is_absolute && is_file && exited && owner_lost
}

/// Whether the owner, the group and the mode that a file was given are in effect.
pub fn metadata_applied(
    expected: (u32, u32),
    actual: (u32, u32),
    mode: u32,
    actual_mode: u32,
) -> (applied: Result<(), DomainError>)
    ensures
        applied == (if expected == actual && actual_mode & 511 == mode {
            Ok(())
        } else {
            Err(
                DomainError {
                    code: ErrorCode::IoError,
                    reason: "canonical metadata verification failed",
                },
            )
        }),
{
    if expected.0 != actual.0 || expected.1 != actual.1 || actual_mode & 511 != mode {
        return Err(io_error("canonical metadata verification failed"));
    }
    Ok(())
}

// ---------------------------------------------------------------------------------------
// Identities of processes and boots.
// ---------------------------------------------------------------------------------------

/// The last position of `c`, or -1.
pub open spec fn last_position(chars: Seq<char>, c: char) -> int
    decreases chars.len(),
{
    if chars.len() == 0 {
        -1
    } else if chars.last() == c {
        chars.len() - 1
    } else {
        last_position(chars.drop_last(), c)
    }
}

/// The start time in the record of a process: the twentieth word after the name in round brackets
/// and one more character of one byte, if it is a number above zero.
pub open spec fn start_ticks(stat: Seq<char>) -> Option<nat> {
    let close = last_position(stat, ')');
    if close < 0 || close + 1 >= stat.len() || stat[close + 1] >= '\u{80}' {
        None
    } else {
        match nth_word(stat, close + 2, 19) {
            Some(word) => match unsigned_number(word, 10, u64::MAX as nat) {
                Some(ticks) => if ticks > 0 {
                    Some(ticks)
                } else {
                    None
                },
                None => None,
            },
            None => None,
        }
    }
}

/// Reads the start time out of the record of a process.
pub fn parse_start_ticks(stat: &str) -> (ticks: Result<u64, DomainError>)
    ensures
        match ticks {
            Ok(ticks) => start_ticks(stat@) == Some(ticks as nat),
            Err(error) => {
                &&& start_ticks(stat@) is None
                &&& error == DomainError {
                    code: ErrorCode::IoError,
                    reason: if last_position(stat@, ')') < 0 {
                        "process identity is invalid"
                    } else {
                        "process start ticks are invalid"
                    },
                }
            },
        },
{
    let chars = chars_of(stat);
    let mut close: usize = chars.len();
    assert(chars@.take(chars@.len() as int) =~= chars@);
    while close > 0 && chars[close - 1] != ')'
        invariant
            close <= chars@.len(),
            last_position(chars@, ')') == last_position(chars@.take(close as int), ')'),
        decreases close,
    {
        assert(chars@.take(close as int).drop_last() =~= chars@.take(close - 1));
        close -= 1;
    }
    if close == 0 {
        assert(last_position(chars@.take(0), ')') == -1);
        return Err(io_error("process identity is invalid"));
    }
    assert(chars@.take(close as int).last() == ')');
    assert(last_position(stat@, ')') == close - 1);
    if close >= chars.len() || chars[close] >= '\u{80}' {
        return Err(io_error("process start ticks are invalid"));
    }
    match find_word(chars.as_slice(), close + 1, 19) {
        Some((start, end)) => {
            let word = vstd::slice::slice_subrange(chars.as_slice(), start, end);
            match parse_unsigned(word, 10, u64::MAX) {
                Some(ticks) => {
                    if ticks > 0 {
                        Ok(ticks)
                    } else {
                        Err(io_error("process start ticks are invalid"))
                    }
                },
                None => Err(io_error("process start ticks are invalid")),
            }
        },
        None => Err(io_error("process start ticks are invalid")),
    }
}

/// Whether a process is the one that was recorded. One whose record is gone is not; one whose
/// record is there and cannot be read leaves that open.
pub fn is_same_process(
    ticks: Result<u64, DomainError>,
    record_exists: bool,
    start_ticks: u64,
) -> (same: Result<bool, DomainError>)
    ensures
        same == (match ticks {
            Ok(actual) => Ok(actual == start_ticks),
            Err(error) => if record_exists {
                Err(error)
            } else {
                Ok(false)
            },
        }),
{
    match ticks {
        Ok(actual) => Ok(actual == start_ticks),
        Err(error) => {
            if record_exists {
                Err(error)
            } else {
                Ok(false)
            }
        },
    }
}

/// The identity of a boot, as the system gives it.
pub fn parse_boot_id(text: &str) -> (boot_id: Result<UuidV4, DomainError>)
    ensures
        match boot_id {
            Ok(boot_id) => boot_id@ == trimmed_chars(text@),
            Err(error) => error == (DomainError {
                code: ErrorCode::IoError,
                reason: "boot id is invalid",
            }),
        },
        boot_id is Ok <==> crate::contract::common::is_uuid_v4(trimmed_chars(text@)),
{
    match UuidV4::parse(trimmed_text(text)) {
        Ok(boot_id) => Ok(boot_id),
        Err(_) => Err(io_error("boot id is invalid")),
    }
}

/// A fresh identifier.
pub fn new_uuid() -> (id: Result<UuidV4, DomainError>)
    ensures
        id is Ok,
        crate::contract::common::is_uuid_v4(id->Ok_0@),
{
    let octets = random_octets();
    let text = uuid_hyphenated(octets);
    assert(crate::contract::common::spells(text@, octets@));
    match UuidV4::parse(text) {
        Ok(id) => Ok(id),
        Err(_) => Err(DomainError::new(ErrorCode::InternalError, "UUID generation failed")),
    }
}

// ---------------------------------------------------------------------------------------
// Laws.
// ---------------------------------------------------------------------------------------

/// A recovery is verified exactly if its guards were clean, no record was blocked, each of those
/// that were handed over could be finalized, and the recovery could be ended.
pub proof fn a_recovery_is_verified_only_if_all_was_done(
    plan: GuardRecoveryPlan,
    finalized: &[bool],
    finished: bool,
    verdict: Result<MagiskCleanupVerification, DomainError>,
)
    requires
        call_ensures(recovery_verdict, (&plan, finalized, finished), verdict),
    ensures
        !plan.guards_are_clean ==> verdict is Err,
        !finished ==> verdict is Err,
        forall|i: int|
            0 <= i < plan.records@.len() && (#[trigger] plan.records@[i]).finalization is Blocked
                ==> verdict is Err,
        forall|i: int| 0 <= i < finalized@.len() && !#[trigger] finalized@[i] ==> verdict is Err,
        plan.guards_are_clean && finished && (forall|i: int|
            0 <= i < plan.records@.len() ==> !((
            #[trigger] plan.records@[i]).finalization is Blocked)) && (forall|i: int|
            0 <= i < finalized@.len() ==> #[trigger] finalized@[i]) ==> verdict is Ok,
{
    assert forall|i: int|
        0 <= i < finalized@.len() && !#[trigger] finalized@[i] implies verdict is Err by {
        assert(!recovery_verified(plan.guards_are_clean, plan.records@, finalized@, finished));
    }
}

/// Every record that is not blocked is handed over, in order, and no blocked one is.
pub proof fn every_open_record_is_handed_over(records: Seq<CleanGuardRecord>)
    ensures
        due_records(records) == records.filter(
            |record: CleanGuardRecord| record.finalization !is Blocked,
        ),
        has_records(records) <==> exists|record: CleanGuardRecord| records.contains(record),
    decreases records.len(),
{
    reveal(Seq::filter);
    if records.len() > 0 {
        every_open_record_is_handed_over(records.drop_last());
        assert(records.contains(records[0]));
    }
}

/// Every file beside the proofs of some boots, one boot after the other.
pub open spec fn all_files(boots: Seq<BootListing>) -> Seq<ProofEntry>
    decreases boots.len(),
{
    if boots.len() == 0 {
        Seq::empty()
    } else {
        all_files(boots.drop_last()) + boots.last().entries->0@
    }
}

/// The files that are proofs.
pub open spec fn proof_files(files: Seq<ProofEntry>) -> Seq<ProofEntry>
    decreases files.len(),
{
    if files.len() == 0 {
        Seq::empty()
    } else if ".proof"@.is_suffix_of(files.last().name->0@) {
        proof_files(files.drop_last()).push(files.last())
    } else {
        proof_files(files.drop_last())
    }
}

/// The bytes that files take together.
pub open spec fn total_length(files: Seq<ProofEntry>) -> int
    decreases files.len(),
{
    if files.len() == 0 {
        0
    } else {
        total_length(files.drop_last()) + files.last().length->0
    }
}

/// Whether the name of every file is known, and of every proof its length.
pub open spec fn files_known(files: Seq<ProofEntry>) -> bool {
    forall|i: int|
        0 <= i < files.len() ==> (#[trigger] files[i]).name is Some && (".proof"@.is_suffix_of(
            files[i].name->0@,
        ) ==> files[i].length is Some)
}

/// Whether every boot is a directory that can be read, and every file in it is known.
pub open spec fn boots_known(boots: Seq<BootListing>) -> bool {
    forall|i: int|
        0 <= i < boots.len() ==> (#[trigger] boots[i]).is_directory && boots[i].entries is Some
            && files_known(boots[i].entries->0@)
}

proof fn lemma_total_length(files: Seq<ProofEntry>)
    ensures
        total_length(files) >= 0,
    decreases files.len(),
{
    if files.len() > 0 {
        lemma_total_length(files.drop_last());
    }
}

proof fn lemma_files_joined(left: Seq<ProofEntry>, right: Seq<ProofEntry>)
    ensures
        proof_files(left + right) == proof_files(left) + proof_files(right),
        total_length(left + right) == total_length(left) + total_length(right),
    decreases right.len(),
{
    if right.len() == 0 {
        assert(left + right =~= left);
        assert(proof_files(left) + proof_files(right) =~= proof_files(left));
    } else {
        assert((left + right).drop_last() =~= left + right.drop_last());
        assert((left + right).last() == right.last());
        lemma_files_joined(left, right.drop_last());
        if ".proof"@.is_suffix_of(right.last().name->0@) {
            assert((proof_files(left) + proof_files(right.drop_last())).push(right.last())
                =~= proof_files(left) + proof_files(right.drop_last()).push(right.last()));
        }
    }
}

proof fn lemma_used(used: (int, int), files: Seq<ProofEntry>)
    requires
        0 <= used.1 <= u64::MAX,
    ensures
        ({
            let proofs = proof_files(files);
            let told = with_entries(Some(used), files);
            &&& files_known(files) && used.1 + total_length(proofs) <= u64::MAX ==> told == Some(
                (used.0 + proofs.len(), used.1 + total_length(proofs)),
            )
            &&& !(files_known(files) && used.1 + total_length(proofs) <= u64::MAX) ==> told is None
        }),
    decreases files.len(),
{
    let proofs = proof_files(files);
    if files.len() > 0 {
        let earlier = files.drop_last();
        lemma_used(used, earlier);
        lemma_total_length(proof_files(earlier));
        lemma_total_length(proofs);
        if files_known(files) {
            assert forall|i: int| 0 <= i < earlier.len() implies (
            #[trigger] earlier[i]).name is Some && (".proof"@.is_suffix_of(earlier[i].name->0@)
                ==> earlier[i].length is Some) by {
                assert(earlier[i] == files[i]);
            }
            assert(files[files.len() - 1].name is Some);
        } else {
            let i = choose|i: int|
                0 <= i < files.len() && !((#[trigger] files[i]).name is Some && (
                ".proof"@.is_suffix_of(files[i].name->0@) ==> files[i].length is Some));
            if i < files.len() - 1 {
                assert(earlier[i] == files[i]);
                assert(!files_known(earlier));
            }
        }
        if ".proof"@.is_suffix_of(files.last().name->0@) {
            assert(proofs.drop_last() =~= proof_files(earlier));
        }
    }
}

proof fn lemma_boots_used(boots: Seq<BootListing>)
    ensures
        ({
            let proofs = proof_files(all_files(boots));
            let told = with_boots(Some((0, 0)), boots);
            &&& boots_known(boots) && total_length(proofs) <= u64::MAX ==> told == Some(
                (proofs.len() as int, total_length(proofs)),
            )
            &&& !(boots_known(boots) && total_length(proofs) <= u64::MAX) ==> told is None
        }),
    decreases boots.len(),
{
    if boots.len() > 0 {
        let earlier = boots.drop_last();
        let files = boots.last().entries->0@;
        lemma_boots_used(earlier);
        lemma_files_joined(all_files(earlier), files);
        lemma_files_joined(proof_files(all_files(earlier)), proof_files(files));
        lemma_total_length(proof_files(all_files(earlier)));
        lemma_total_length(proof_files(files));
        if with_boots(Some((0, 0)), earlier) is Some {
            lemma_used(
                (
                    proof_files(all_files(earlier)).len() as int,
                    total_length(proof_files(all_files(earlier))),
                ),
                files,
            );
        } else {
            lemma_nothing_used(files);
        }
        if boots_known(boots) {
            assert forall|i: int| 0 <= i < earlier.len() implies (
            #[trigger] earlier[i]).is_directory && earlier[i].entries is Some && files_known(
                earlier[i].entries->0@,
            ) by {
                assert(earlier[i] == boots[i]);
            }
            assert(boots[boots.len() - 1].is_directory);
        } else {
            let i = choose|i: int|
                0 <= i < boots.len() && !((#[trigger] boots[i]).is_directory && boots[i].entries
                    is Some && files_known(boots[i].entries->0@));
            if i < boots.len() - 1 {
                assert(earlier[i] == boots[i]);
                assert(!boots_known(earlier));
            }
        }
    }
}

proof fn lemma_nothing_used(files: Seq<ProofEntry>)
    ensures
        with_entries(None, files) is None,
    decreases files.len(),
{
    if files.len() > 0 {
        lemma_nothing_used(files.drop_last());
    }
}

/// There is room for one more proof if no root exists yet, or if everything in it is known, fewer
/// than 384 proofs are there, and their bytes with those of the new one are at most 1572864.
/// Files with another name than one that ends in `.proof` do not count.
pub proof fn proofs_are_counted_and_weighed(
    listing: ProofListing,
    proof_limit: u64,
    available: bool,
)
    requires
        call_ensures(guard_proof_capacity_available, (&listing, proof_limit), available),
    ensures
        listing is Missing ==> available,
        listing is Unreadable ==> !available,
        listing matches ProofListing::Boots(boots) ==> (available <==> {
            let proofs = proof_files(all_files(boots@));
            &&& boots_known(boots@)
            &&& proofs.len() < 384
            &&& total_length(proofs) + proof_limit <= 1_572_864
        }),
{
    if let ProofListing::Boots(boots) = listing {
        lemma_boots_used(boots@);
        lemma_total_length(proof_files(all_files(boots@)));
    }
}

/// A probed guard guards itself, as the child that plays the end that is probed; a child that
/// loses its owner also learns where its marker goes.
pub proof fn a_probe_plays_its_part(
    mode: GuardProbe,
    proof_fd: i32,
    lifetime_fd: i32,
    guard_path: &str,
    marker_path: &str,
    arguments: Vec<String>,
)
    requires
        call_ensures(
            probe_arguments,
            (mode, proof_fd, lifetime_fd, guard_path, marker_path),
            arguments,
        ),
    ensures
        arguments@.len() == (if mode is ChildExit {
            7int
        } else {
            8
        }),
        arguments@[0]@ == "--proof-fd"@,
        arguments@[2]@ == "--lifetime-fd"@,
        arguments@[4]@ == "--"@,
        arguments@[5]@ == guard_path@,
        mode is ChildExit ==> arguments@[6]@ == "--probe-child"@,
        mode is OwnerLost ==> arguments@[6]@ == "--probe-owner-death-child"@ && arguments@[7]@
            == marker_path@,
{
    let models = texts(arguments@);
    assert(models.len() == arguments@.len());
    assert(models[0] == arguments@[0]@ && models[2] == arguments@[2]@ && models[4]
        == arguments@[4]@ && models[5] == arguments@[5]@ && models[6] == arguments@[6]@);
    if mode is OwnerLost {
        assert(models[7] == arguments@[7]@);
    }
}

/// A marker is waited for two seconds, and the end of a guard eight, from the moment at which each
/// wait begins.
pub proof fn a_probe_waits_for_so_long(mode: GuardProbe, now_ms: u64, wait: ProbeWait)
    requires
        call_ensures(ProbeWait::new, (mode, now_ms), wait),
        now_ms <= u64::MAX - 8_000,
    ensures
        mode is ChildExit ==> wait.phase is Exit && wait.deadline_ms == now_ms + 8_000,
        mode is OwnerLost ==> wait.phase is Marker && wait.deadline_ms == now_ms + 2_000,
        forall|probe: &mut ProbeWait, marker: bool, child: ProbeChild, step: ProbeStep| #[trigger]
            call_ensures(ProbeWait::step, (probe, now_ms, marker, child), step) ==> {
                &&& probe.phase is Marker && marker ==> step is ReleaseOwner
                    && final(probe).phase is Exit && final(probe).deadline_ms == now_ms + 8_000
                &&& !(probe.phase is Marker && marker) ==> *final(probe) == *probe
                &&& step is Settle ==> probe.phase is Exit && child == ProbeChild::Ended(
                    step->Settle_0,
                )
                &&& step is GiveUp ==> now_ms >= probe.deadline_ms
            },
{
}

proof fn lemma_last_position(head: Seq<char>, tail: Seq<char>, c: char)
    requires
        !tail.contains(c),
    ensures
        last_position(head.push(c) + tail, c) == head.len(),
    decreases tail.len(),
{
    let text = head.push(c) + tail;
    if tail.len() == 0 {
        assert(text =~= head.push(c));
    } else {
        assert(tail.contains(tail.last()));
        assert(text.drop_last() =~= head.push(c) + tail.drop_last());
        assert forall|x: char| tail.drop_last().contains(x) implies tail.contains(x) by {
            let i = tail.drop_last().index_of(x);
            assert(tail[i] == x);
        }
        lemma_last_position(head, tail.drop_last(), c);
    }
}

/// The start time of a process is the twentieth word behind its name: the name ends at the last
/// closing bracket, so that brackets in the name itself do no harm.
pub proof fn the_start_time_is_the_twentieth_word(
    head: Seq<char>,
    words: Seq<Seq<char>>,
    ticks: u64,
)
    requires
        words.len() >= 20,
        forall|i: int| 0 <= i < words.len() ==> is_word(#[trigger] words[i]),
        !spaced(words).contains(')'),
        words[19] == decimal(ticks as nat),
    ensures
        start_ticks(head + seq![')'] + spaced(words)) == (if ticks > 0 {
            Some(ticks as nat)
        } else {
            None
        }),
{
    let tail = spaced(words);
    let stat = head + seq![')'] + tail;
    assert(stat =~= head.push(')') + tail);
    lemma_last_position(head, tail, ')');
    let close = head.len() as int;
    assert(tail[0] == ' ');
    assert(stat[close + 1] == ' ');
    words_are_found_in_order(words, 19);
    words_behind(head.push(')'), tail, 0, 19);
    assert(stat.len() > close + 2) by {
        assert(is_word(words[0]));
        assert(tail.len() >= 1 + words[0].len());
    }
    assert(nth_word(stat, close + 1, 19) == nth_word(stat, close + 2, 19)) by {
        reveal_with_fuel(crate::words::next_space, 2);
    }
    decimal_text_reads_back(ticks as nat, u64::MAX as nat);
}

/// A process is the recorded one exactly if it started at the recorded time; it is another one if
/// its record is gone, and nothing is said where the record is there and cannot be read.
pub proof fn a_process_is_known_by_its_start(
    ticks: Result<u64, DomainError>,
    record_exists: bool,
    recorded: u64,
    same: Result<bool, DomainError>,
)
    requires
        call_ensures(is_same_process, (ticks, record_exists, recorded), same),
    ensures
        same == Ok::<_, DomainError>(true) <==> ticks == Ok::<_, DomainError>(recorded),
        same is Err <==> ticks is Err && record_exists,
{
}

} // verus!
