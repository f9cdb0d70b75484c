//! What the daemon reads of the installed module and of the system's properties.

use crate::contract::common::ErrorCode;
use crate::daemon::magisk::MODULE_VERSION_CODE;
use crate::daemon::protocol::{ModuleIdentity, ModuleObservation, PROTOCOL_VERSION};
use crate::error::DomainError;
use crate::text::{
    chars_of, decimal, decimal_text_reads_back, next_position, optional_text, parse_unsigned, same,
    text_of, unsigned_number, utf8_text,
};
use crate::words::{trimmed_chars, trimmed_text};
use vstd::prelude::*;
use vstd::utf8::{decode_utf8, valid_utf8};

verus! {

/// The line of a text that starts at `from`. A line ends before a line feed, or before a carriage
/// return and a line feed.
pub open spec fn line_at(text: Seq<char>, from: int) -> Seq<char> {
    let end = next_position(text, '\n', from);
    if end < text.len() && end > from && text[end - 1] == '\r' {
        text.subrange(from, end - 1)
    } else {
        text.subrange(from, end)
    }
}

pub open spec fn begins_with(line: Seq<char>, prefix: Seq<char>) -> bool {
    line.len() >= prefix.len() && line.take(prefix.len() as int) == prefix
}

/// A search ends where it starts or later, and within the text.
pub proof fn a_search_goes_forward(text: Seq<char>, c: char, from: int)
    requires
        0 <= from <= text.len(),
    ensures
        from <= next_position(text, c, from) <= text.len(),
    decreases text.len() - from,
{
    if from < text.len() && text[from] != c {
        a_search_goes_forward(text, c, from + 1);
    }
}

/// What follows `prefix` in the last line, from `from` on, that begins with it.
pub open spec fn last_value(
    text: Seq<char>,
    from: int,
    prefix: Seq<char>,
    found: Option<Seq<char>>,
) -> Option<Seq<char>>
    decreases text.len() + 1 - from,
{
    if from < 0 || from >= text.len() {
        found
    } else {
        proof {
            a_search_goes_forward(text, '\n', from);
        }
        let line = line_at(text, from);
        last_value(
            text,
            next_position(text, '\n', from) + 1,
            prefix,
            if begins_with(line, prefix) {
                Some(line.skip(prefix.len() as int))
            } else {
                found
            },
        )
    }
}

/// The first line feed of a text from `from` on.
fn line_end(text: &[char], from: usize) -> (end: usize)
    requires
        from <= text@.len(),
    ensures
        end == next_position(text@, '\n', from as int),
        from <= end <= text@.len(),
{
    let mut i: usize = from;
    while i < text.len()
        invariant
            from <= i <= text@.len(),
            next_position(text@, '\n', from as int) == next_position(text@, '\n', i as int),
        decreases text@.len() - i,
    {
        if text[i] == '\n' {
            return i;
        }
        i += 1;
    }
    i
}

fn starts(text: &[char], start: usize, end: usize, prefix: &[char]) -> (yes: bool)
    requires
        start <= end <= text@.len(),
    ensures
        yes == begins_with(text@.subrange(start as int, end as int), prefix@),
{
    let ghost line = text@.subrange(start as int, end as int);
    if end - start < prefix.len() {
        return false;
    }
    let mut i: usize = 0;
    while i < prefix.len()
        invariant
            i <= prefix@.len(),
            start + prefix@.len() <= end <= text@.len(),
            line == text@.subrange(start as int, end as int),
            forall|k: int| 0 <= k < i ==> line[k] == prefix@[k],
        decreases prefix@.len() - i,
    {
        if text[start + i] != prefix[i] {
            assert(line[i as int] != prefix@[i as int]);
            assert(line.take(prefix@.len() as int)[i as int] == line[i as int]);
            return false;
        }
        i += 1;
    }
    assert(line.take(prefix@.len() as int) =~= prefix@);
    true
}

/// What follows `prefix` in the last line that begins with it.
pub fn property_line(text: &str, prefix: &str) -> (value: Option<String>)
    ensures
        match value {
            Some(value) => last_value(text@, 0, prefix@, None) == Some(value@),
            None => last_value(text@, 0, prefix@, None) is None,
        },
{
    let chars = chars_of(text);
    let wanted = chars_of(prefix);
    let mut from: usize = 0;
    let mut found: Option<String> = None;
    while from < chars.len()
        invariant
            chars@ == text@,
            wanted@ == prefix@,
            last_value(text@, 0, prefix@, None) == last_value(
                text@,
                from as int,
                prefix@,
                optional_text(found),
            ),
        decreases chars@.len() - from,
    {
        let line_feed = line_end(chars.as_slice(), from);
        let end: usize = if line_feed < chars.len() && line_feed > from && chars[line_feed - 1]
            == '\r' {
            line_feed - 1
        } else {
            line_feed
        };
        let ghost line = line_at(text@, from as int);
        assert(line == text@.subrange(from as int, end as int));
        if starts(chars.as_slice(), from, end, wanted.as_slice()) {
            let value = text_of(
                vstd::slice::slice_subrange(chars.as_slice(), from + wanted.len(), end),
            );
            assert(value@ =~= line.skip(prefix@.len() as int));
            found = Some(value);
        }
        if line_feed >= chars.len() {
            let ghost kept = optional_text(found);
            assert(last_value(text@, line_feed + 1, prefix@, kept) == kept);
            return found;
        }
        from = line_feed + 1;
    }
    found
}

/// The version that the properties of a module tell. The last line of a kind counts.
pub open spec fn module_version(contents: Seq<char>, module_id: Seq<char>) -> Result<
    nat,
    DomainError,
> {
    if last_value(contents, 0, "id="@, None) != Some(module_id) {
        Err(
            DomainError {
                code: ErrorCode::ProtocolIncompatible,
                reason: "module id does not match daemon build",
            },
        )
    } else {
        let number = match last_value(contents, 0, "versionCode="@, None) {
            Some(value) => unsigned_number(value, 10, u64::MAX as nat),
            None => None,
        };
        match number {
            Some(version) => Ok(version),
            None => Err(
                DomainError {
                    code: ErrorCode::ProtocolIncompatible,
                    reason: "module version is missing",
                },
            ),
        }
    }
}

/// Reads the version of the module of `identity` in its properties.
pub fn parse_module_property(contents: &str, identity: &ModuleIdentity) -> (version: Result<
    u64,
    DomainError,
>)
    ensures
        match (version, module_version(contents@, identity.module_id@)) {
            (Ok(version), Ok(expected)) => version == expected,
            (Err(error), Err(expected)) => error == expected,
            _ => false,
        },
{
    let matches_build = match property_line(contents, "id=") {
        Some(id) => same(id.as_str(), identity.module_id),
        None => false,
    };
    if !matches_build {
        return Err(
            DomainError::new(
                ErrorCode::ProtocolIncompatible,
                "module id does not match daemon build",
            ),
        );
    }
    let version = match property_line(contents, "versionCode=") {
        Some(value) => {
            let digits = chars_of(value.as_str());
            parse_unsigned(digits.as_slice(), 10, u64::MAX)
        },
        None => None,
    };
    match version {
        Some(version) => Ok(version),
        None => Err(
            DomainError::new(ErrorCode::ProtocolIncompatible, "module version is missing"),
        ),
    }
}

/// What is found in the directories of the modules.
#[derive(Clone, Copy, Debug)]
pub struct ModuleFacts {
    pub stable_directory: bool,
    pub stable_removed: bool,
    pub debug_directory: bool,
    pub debug_removed: bool,
    pub disabled: bool,
    pub removed: bool,
    pub metadata_self_test: bool,
    pub excluded: bool,
}

/// Takes in what is seen of the modules. `contents` are the properties of the own module, where
/// they could be read.
pub fn observe_module(
    contents: Option<&str>,
    identity: &ModuleIdentity,
    facts: &ModuleFacts,
) -> (observation: Result<ModuleObservation, DomainError>)
    ensures
        match contents {
            None => observation == Err::<ModuleObservation, _>(
                DomainError { code: ErrorCode::IoError, reason: "cannot read module property" },
            ),
            Some(contents) => match (
                observation,
                module_version(contents@, identity.module_id@),
            ) {
                (Ok(observation), Ok(version)) => {
                    &&& observation.module_version_code == version
                    &&& observation == ModuleObservation {
                        stable_present: facts.stable_directory && !facts.stable_removed,
                        debug_present: facts.debug_directory && !facts.debug_removed,
                        enabled: !facts.disabled && !facts.removed,
                        module_version_code: observation.module_version_code,
                        daemon_version_code: MODULE_VERSION_CODE,
                        protocol_version: PROTOCOL_VERSION,
                        metadata_self_test: facts.metadata_self_test,
                        excluded: facts.excluded,
                    }
                },
                (Err(error), Err(expected)) => error == expected,
                _ => false,
            },
        },
{
    let contents = match contents {
        Some(contents) => contents,
        None => {
            return Err(DomainError::new(ErrorCode::IoError, "cannot read module property"));
        },
    };
    match parse_module_property(contents, identity) {
        Ok(module_version_code) => Ok(
            ModuleObservation {
                stable_present: facts.stable_directory && !facts.stable_removed,
                debug_present: facts.debug_directory && !facts.debug_removed,
                enabled: !facts.disabled && !facts.removed,
                module_version_code,
                daemon_version_code: MODULE_VERSION_CODE,
                protocol_version: PROTOCOL_VERSION,
                metadata_self_test: facts.metadata_self_test,
                excluded: facts.excluded,
            },
        ),
        Err(error) => Err(error),
    }
}

/// The value of a system property: what the query prints, without the white space around it. A
/// query that failed, and one that prints nothing or no text, has none.
pub fn fixed_property(output: &[u8], success: bool) -> (value: Result<String, DomainError>)
    ensures
        match value {
            Ok(value) => success && valid_utf8(output@) && value@.len() > 0 && value@
                == trimmed_chars(decode_utf8(output@)),
            Err(error) => error == (if !success {
                DomainError { code: ErrorCode::IoError, reason: "Android property query failed" }
            } else {
                DomainError { code: ErrorCode::IoError, reason: "Android property is empty" }
            }),
        },
        value is Ok <==> success && valid_utf8(output@) && trimmed_chars(
            decode_utf8(output@),
        ).len() > 0,
{
    if !success {
        return Err(DomainError::new(ErrorCode::IoError, "Android property query failed"));
    }
    match utf8_text(output) {
        Some(text) => {
            let value = trimmed_text(text.as_str());
            if !same(value.as_str(), "") {
                proof {
                    reveal_strlit("");
                    if value@.len() == 0 {
                        assert(value@ =~= ""@);
                    }
                }
                return Ok(value);
            }
            proof {
                reveal_strlit("");
            }
        },
        None => {},
    }
    Err(DomainError::new(ErrorCode::IoError, "Android property is empty"))
}

/// Whether the framework has booted, by the value of its property.
pub fn boot_completed(value: &Result<String, DomainError>) -> (completed: bool)
    ensures
        completed == (*value matches Ok(value) && value@ == "1"@),
{
    match value {
        Ok(value) => same(value.as_str(), "1"),
        Err(_) => false,
    }
}

pub open spec fn is_known_sdk(level: nat) -> bool {
    33 <= level <= 37
}

/// The level of the device's SDK, for which there must be a helper.
pub fn sdk_level(value: &str) -> (level: Result<u32, DomainError>)
    ensures
        match (level, unsigned_number(value@, 10, u32::MAX as nat)) {
            (Ok(level), Some(number)) => level == number && is_known_sdk(number),
            (Err(error), number) => {
                &&& number matches Some(number) ==> !is_known_sdk(number)
                &&& error == DomainError {
                    code: ErrorCode::CapabilityUnavailable,
                    reason: "device SDK has no fixed helper",
                }
            },
            _ => false,
        },
{
    let digits = chars_of(value);
    match parse_unsigned(digits.as_slice(), 10, u32::MAX as u64) {
        Some(number) => {
            if number >= 33 && number <= 37 {
                return Ok(number as u32);
            }
        },
        None => {},
    }
    Err(DomainError::new(ErrorCode::CapabilityUnavailable, "device SDK has no fixed helper"))
}

// ---------------------------------------------------------------------------------------
// Laws.
// ---------------------------------------------------------------------------------------

proof fn lemma_no_line_feed(text: Seq<char>, from: int)
    requires
        0 <= from <= text.len(),
        forall|i: int| from <= i < text.len() ==> #[trigger] text[i] != '\n',
    ensures
        next_position(text, '\n', from) == text.len(),
    decreases text.len() - from,
{
    if from < text.len() {
        lemma_no_line_feed(text, from + 1);
    }
}

proof fn lemma_first_line_feed(front: Seq<char>, line: Seq<char>, from: int)
    requires
        0 <= from <= front.len(),
    ensures
        next_position(front + seq!['\n'] + line, '\n', from) == next_position(front, '\n', from),
        from <= next_position(front, '\n', from) <= front.len(),
    decreases front.len() - from,
{
    let text = front + seq!['\n'] + line;
    if from < front.len() {
        assert(text[from] == front[from]);
        lemma_first_line_feed(front, line, from + 1);
    } else {
        assert(text[from] == '\n');
    }
}

proof fn lemma_one_more_line(
    front: Seq<char>,
    line: Seq<char>,
    from: int,
    prefix: Seq<char>,
    found: Option<Seq<char>>,
)
    requires
        0 <= from <= front.len() + 1,
        prefix.len() > 0,
        !line.contains('\n'),
        front.len() > 0 ==> front.last() != '\r',
    ensures
        last_value(front + seq!['\n'] + line, from, prefix, found) == (if begins_with(
            line,
            prefix,
        ) {
            Some(line.skip(prefix.len() as int))
        } else {
            last_value(front, from, prefix, found)
        }),
    decreases front.len() + 1 - from,
{
    let text = front + seq!['\n'] + line;
    if from == front.len() + 1 {
        assert forall|i: int| from <= i < text.len() implies #[trigger] text[i] != '\n' by {
            assert(text[i] == line[i - from]);
            assert(line.contains(line[i - from]));
        }
        lemma_no_line_feed(text, from);
        assert(text.subrange(from, text.len() as int) =~= line);
        reveal_with_fuel(last_value, 2);
    } else {
        lemma_first_line_feed(front, line, from);
        let end = next_position(front, '\n', from);
        let told = line_at(text, from);
        if from == front.len() {
            assert(told =~= Seq::<char>::empty());
            lemma_one_more_line(front, line, from + 1, prefix, found);
        } else {
            assert(text.subrange(from, end) =~= front.subrange(from, end));
            if end > from {
                assert(text[end - 1] == front[end - 1]);
                assert(text.subrange(from, end - 1) =~= front.subrange(from, end - 1));
            }
            assert(told == line_at(front, from));
            let now = if begins_with(told, prefix) {
                Some(told.skip(prefix.len() as int))
            } else {
                found
            };
            lemma_one_more_line(front, line, end + 1, prefix, now);
        }
    }
}

/// One more line counts for a property exactly if it begins as the property does, and counts before
/// any line above it; any other line changes nothing.
pub proof fn the_last_line_of_a_kind_counts(
    text: &str,
    prefix: &str,
    value: Option<String>,
    above: &str,
    earlier: Option<String>,
    line: Seq<char>,
)
    requires
        call_ensures(property_line, (text, prefix), value),
        call_ensures(property_line, (above, prefix), earlier),
        text@ == above@ + seq!['\n'] + line,
        prefix@.len() > 0,
        !line.contains('\n'),
        above@.len() > 0 ==> above@.last() != '\r',
    ensures
        prefix@.is_prefix_of(line) ==> value is Some && line == prefix@ + value->0@,
        !prefix@.is_prefix_of(line) ==> optional_text(value) == optional_text(earlier),
{
    lemma_one_more_line(above@, line, 0, prefix@, None);
    if prefix@.is_prefix_of(line) {
        assert(line.take(prefix@.len() as int) =~= prefix@);
        assert(line =~= prefix@ + line.skip(prefix@.len() as int));
    } else if line.len() >= prefix@.len() {
        if line.take(prefix@.len() as int) == prefix@ {
            assert(prefix@ =~= line.subrange(0, prefix@.len() as int));
        }
    }
}

/// The version of a module is the number behind `versionCode=`, and is told only of the module that
/// is named behind `id=`.
pub proof fn a_module_is_known_by_its_properties(
    front: Seq<char>,
    id: Seq<char>,
    version: u64,
    contents: &str,
    identity: ModuleIdentity,
    told: Result<u64, DomainError>,
)
    requires
        contents@ == front + seq!['\n'] + ("id="@ + id) + seq!['\n'] + ("versionCode="@ + decimal(
            version as nat,
        )),
        call_ensures(parse_module_property, (contents, &identity), told),
        !id.contains('\n'),
        id.len() > 0 && id.last() != '\r',
        front.len() > 0 ==> front.last() != '\r',
    ensures
        identity.module_id@ == id ==> told == Ok::<_, DomainError>(version),
        identity.module_id@ != id ==> told is Err,
{
    reveal_strlit("id=");
    reveal_strlit("versionCode=");
    let name = "id="@ + id;
    let number = "versionCode="@ + decimal(version as nat);
    let above = front + seq!['\n'] + name;
    assert(above.last() == id.last());
    assert(!number.contains('\n')) by {
        lemma_digits_are_no_line_feed(version as nat);
        if number.contains('\n') {
            let i = number.index_of('\n');
            if i >= 12 {
                assert(number[i] == decimal(version as nat)[i - 12]);
                assert(decimal(version as nat).contains('\n'));
            }
        }
    }
    assert(!name.contains('\n')) by {
        if name.contains('\n') {
            let i = name.index_of('\n');
            if i >= 3 {
                assert(name[i] == id[i - 3]);
                assert(id.contains('\n'));
            }
        }
    }
    lemma_one_more_line(above, number, 0, "id="@, None);
    lemma_one_more_line(above, number, 0, "versionCode="@, None);
    lemma_one_more_line(front, name, 0, "id="@, None);
    assert(!begins_with(number, "id="@)) by {
        assert(number[0] == 'v');
        assert(number.take(3)[0] == 'v' && "id="@[0] == 'i');
    }
    assert(name.take(3) =~= "id="@);
    assert(name.skip(3) =~= id);
    assert(number.take(12) =~= "versionCode="@);
    assert(number.skip(12) =~= decimal(version as nat));
    decimal_text_reads_back(version as nat, u64::MAX as nat);
}

proof fn lemma_digits_are_no_line_feed(n: nat)
    ensures
        !decimal(n).contains('\n'),
    decreases n,
{
    if n >= 10 {
        lemma_digits_are_no_line_feed(n / 10);
        if decimal(n).contains('\n') {
            let i = decimal(n).index_of('\n');
            if i < decimal(n / 10).len() {
                assert(decimal(n / 10)[i] == '\n');
                assert(decimal(n / 10).contains('\n'));
            }
        }
    }
}

/// What is seen of the modules is what is found in their directories: a module is present unless it
/// is removed, and enabled unless it is disabled or removed. The daemon itself is of version 3000
/// and speaks version 1.
pub proof fn the_modules_are_seen_as_they_are(
    contents: &str,
    identity: ModuleIdentity,
    facts: ModuleFacts,
    seen: Result<ModuleObservation, DomainError>,
    version: Result<u64, DomainError>,
)
    requires
        call_ensures(observe_module, (Some(contents), &identity, &facts), seen),
        call_ensures(parse_module_property, (contents, &identity), version),
    ensures
        seen is Ok <==> version is Ok,
        seen matches Ok(seen) ==> {
            &&& seen.module_version_code == version->Ok_0
            &&& seen.stable_present <==> facts.stable_directory && !facts.stable_removed
            &&& seen.debug_present <==> facts.debug_directory && !facts.debug_removed
            &&& seen.enabled <==> !facts.disabled && !facts.removed
            &&& seen.daemon_version_code == 3_000
            &&& seen.protocol_version == 1
            &&& seen.metadata_self_test == facts.metadata_self_test
            &&& seen.excluded == facts.excluded
        },
{
}

/// There is a helper for the levels from 33 to 37, and for no other.
pub proof fn each_known_level_has_a_helper(level: u32, value: &str, told: Result<u32, DomainError>)
    requires
        value@ == decimal(level as nat),
        call_ensures(sdk_level, (value,), told),
    ensures
        told is Ok <==> 33 <= level <= 37,
        told matches Ok(told) ==> told == level,
{
    decimal_text_reads_back(level as nat, u32::MAX as nat);
}

} // verus!
