use vstd::prelude::*;
use vstd::string::*;

use crate::poller::PollOutcome;
use crate::session::{shape, Shape, SessionError};
use crate::wire::WireValue;

verus! {

/// `needle` occurs in `hay` as a run of consecutive characters.
pub open spec fn has_substring(hay: Seq<char>, needle: Seq<char>) -> bool {
    exists|i: int|
        0 <= i && i + needle.len() <= hay.len() && #[trigger] hay.subrange(i, i + needle.len())
            == needle
}

/// Whether `needle` occurs in `hay` at position `start`.
fn occurs_at(hay: &str, needle: &str, start: usize, hay_len: usize, needle_len: usize) -> (r: bool)
    requires
        hay_len == hay@.len(),
        needle_len == needle@.len(),
        start + needle_len <= hay_len,
    ensures
        r == (hay@.subrange(start as int, start + needle_len) == needle@),
{
    let mut k: usize = 0;
    while k < needle_len
        invariant
            k <= needle_len,
            hay_len == hay@.len(),
            needle_len == needle@.len(),
            start + needle_len <= hay_len,
            forall|j: int| 0 <= j < k ==> hay@[start + j] == needle@[j],
        decreases needle_len - k,
    {
        if hay.get_char(start + k) != needle.get_char(k) {
            assert(hay@.subrange(start as int, start + needle_len)[k as int] != needle@[k as int]);
            return false;
        }
        k = k + 1;
    }
    assert(hay@.subrange(start as int, start + needle_len) =~= needle@);
    true
}

/// Whether `needle` occurs in `hay` as a run of consecutive characters.
pub fn text_contains(hay: &str, needle: &str) -> (r: bool)
    ensures
        r == has_substring(hay@, needle@),
{
    let hay_len = hay.unicode_len();
    let needle_len = needle.unicode_len();
    if needle_len > hay_len {
        return false;
    }
    let last = hay_len - needle_len;
    let mut i: usize = 0;
    loop
        invariant
            hay_len == hay@.len(),
            needle_len == needle@.len(),
            last == hay_len - needle_len,
            i <= last,
            forall|j: int|
                0 <= j < i ==> #[trigger] hay@.subrange(j, j + needle_len) != needle@,
        decreases last - i,
    {
        if occurs_at(hay, needle, i, hay_len, needle_len) {
            return true;
        }
        if i == last {
            return false;
        }
        i = i + 1;
    }
}

/// Whether a listed resource name designates the wanted resource. It is a
/// substring test, so a name that merely holds the wanted one also
/// matches; every existence check goes through here.
pub fn name_matches(listed: &str, wanted: &str) -> (r: bool)
    ensures
        r == has_substring(listed@, wanted@),
{
    text_contains(listed, wanted)
}

/// The value of the first member of `members` named `name`.
pub open spec fn member_value(members: Seq<(String, WireValue)>, name: Seq<char>) -> Option<
    WireValue,
>
    decreases members.len(),
{
    if members.len() == 0 {
        None
    } else if members[0].0@ == name {
        Some(members[0].1)
    } else {
        member_value(members.drop_first(), name)
    }
}

/// The member `name` of a structure; `None` for any other value.
pub open spec fn field(v: WireValue, name: Seq<char>) -> Option<WireValue> {
    match v {
        WireValue::Struct(members) => member_value(members@, name),
        _ => None,
    }
}

/// The string held by the member `name`, if `v` is a structure with such a
/// member and that member is a string.
pub open spec fn str_field(v: WireValue, name: Seq<char>) -> Option<Seq<char>> {
    match field(v, name) {
        Some(WireValue::Str(s)) => Some(s@),
        _ => None,
    }
}

/// The integer held by the member `name`, likewise.
pub open spec fn int_field(v: WireValue, name: Seq<char>) -> Option<i64> {
    match field(v, name) {
        Some(WireValue::Int(i)) => Some(i),
        _ => None,
    }
}

/// Looks up the member `name` of a structure.
pub fn get_field<'a>(v: &'a WireValue, name: &str) -> (r: Option<&'a WireValue>)
    ensures
        r is Some <==> field(*v, name@) is Some,
        r matches Some(x) ==> *x == field(*v, name@)->Some_0,
{
    match v {
        WireValue::Struct(members) => {
            let wanted = String::from_str(name);
            let mut i: usize = 0;
            assert(members@.skip(0) =~= members@);
            while i < members.len()
                invariant
                    i <= members.len(),
                    wanted@ == name@,
                    field(*v, name@) == member_value(members@, name@),
                    member_value(members@, name@) == member_value(members@.skip(i as int), name@),
                decreases members.len() - i,
            {
                assert(members@.skip(i as int).drop_first() =~= members@.skip(i + 1));
                let ghost rest = members@.skip(i as int);
                assert(rest[0] == members@[i as int]);
                if members[i].0 == wanted {
                    assert(member_value(rest, name@) == Some(rest[0].1));
                    return Some(&members[i].1);
                }
                assert(member_value(rest, name@) == member_value(rest.drop_first(), name@));
                i = i + 1;
            }
            None
        },
        _ => None,
    }
}

/// The string member `name` of a structure.
pub fn get_str_field<'a>(v: &'a WireValue, name: &str) -> (r: Option<&'a String>)
    ensures
        r is Some <==> str_field(*v, name@) is Some,
        r matches Some(s) ==> s@ == str_field(*v, name@)->Some_0,
{
    match get_field(v, name) {
        Some(WireValue::Str(s)) => Some(s),
        _ => None,
    }
}

/// The integer member `name` of a structure.
pub fn get_int_field(v: &WireValue, name: &str) -> (r: Option<i64>)
    ensures
        r == int_field(*v, name@),
{
    match get_field(v, name) {
        Some(WireValue::Int(i)) => Some(*i),
        _ => None,
    }
}

/// An error for a reply to `method` that is not of the expected structure.
fn malformed(method: &str, expected: Shape, actual: Shape) -> (e: SessionError)
    ensures
        e matches SessionError::UnexpectedShape { method: m, expected: x, actual: a } && m@
            == method@ && x == expected && a == actual,
{
    SessionError::UnexpectedShape { method: String::from_str(method), expected, actual }
}

/// The name of a listed item: its string member `key`.
pub open spec fn item_name(item: WireValue, key: Seq<char>) -> Option<Seq<char>> {
    str_field(item, key)
}

/// The outcome of scanning a listing for a name.
pub enum Scan {
    /// The item at this position is the first whose name holds the wanted one.
    Found(int),
    /// Every item has a name, and none holds the wanted one.
    Absent,
    /// The listing is not a list, or an item before any match has no name.
    Malformed,
}

pub open spec fn scan_from(items: Seq<WireValue>, key: Seq<char>, wanted: Seq<char>, i: int) -> Scan
    decreases items.len() - i,
{
    if i < 0 || i >= items.len() {
        Scan::Absent
    } else {
        match item_name(items[i], key) {
            None => Scan::Malformed,
            Some(n) => if has_substring(n, wanted) {
                Scan::Found(i)
            } else {
                scan_from(items, key, wanted, i + 1)
            },
        }
    }
}

proof fn lemma_found_in_range(items: Seq<WireValue>, key: Seq<char>, wanted: Seq<char>, i: int)
    requires
        0 <= i,
    ensures
        scan_from(items, key, wanted, i) matches Scan::Found(k) ==> i <= k < items.len(),
    decreases items.len() - i,
{
    if i < items.len() {
        lemma_found_in_range(items, key, wanted, i + 1);
    }
}

/// Scans a listing, item by item, for the first name that holds `wanted`.
pub open spec fn scan(listing: WireValue, key: Seq<char>, wanted: Seq<char>) -> Scan {
    match listing {
        WireValue::List(items) => scan_from(items@, key, wanted, 0),
        _ => Scan::Malformed,
    }
}

/// Scans a listing (the reply to `method`) for the first item whose `key`
/// member holds `wanted`; a malformed listing is an `UnexpectedShape`.
pub fn find_listed(listing: &WireValue, method: &str, key: &str, wanted: &str) -> (r: Result<
    Option<usize>,
    SessionError,
>)
    ensures
        scan(*listing, key@, wanted@) matches Scan::Found(i) ==> r == Ok::<
            Option<usize>,
            SessionError,
        >(Some(i as usize)),
        scan(*listing, key@, wanted@) is Absent ==> r matches Ok(None),
        scan(*listing, key@, wanted@) is Malformed ==> (r matches Err(
            SessionError::UnexpectedShape { method: m, .. },
        ) && m@ == method@),
{
    match listing {
        WireValue::List(items) => {
            let mut i: usize = 0;
            while i < items.len()
                invariant
                    i <= items.len(),
                    scan(*listing, key@, wanted@) == scan_from(items@, key@, wanted@, i as int),
                decreases items.len() - i,
            {
                match get_str_field(&items[i], key) {
                    Some(name) => {
                        if name_matches(name.as_str(), wanted) {
                            return Ok(Some(i));
                        }
                    },
                    None => {
                        return Err(malformed(method, Shape::Str, shape(&items[i])));
                    },
                }
                i = i + 1;
            }
            Ok(None)
        },
        _ => Err(malformed(method, Shape::List, shape(listing))),
    }
}

/// Whether the system group `group_name` is among the listed groups (the
/// reply to `systemgroup.listAllGroups`, matched on member `name`).
pub fn exists_system_group(group_name: &str, groups: &WireValue) -> (r: Result<bool, SessionError>)
    ensures
        r is Ok <==> !(scan(*groups, "name"@, group_name@) is Malformed),
        r matches Ok(b) ==> (b <==> scan(*groups, "name"@, group_name@) is Found),
{
    match find_listed(groups, "systemgroup.listAllGroups", "name", group_name) {
        Ok(Some(_)) => Ok(true),
        Ok(None) => Ok(false),
        Err(e) => Err(e),
    }
}

/// Whether the image profile `profile` is among the listed profiles (the
/// reply to `image.profile.listImageProfiles`, matched on member `label`).
pub fn exists_kiwi_profile(profile: &str, profiles: &WireValue) -> (r: Result<bool, SessionError>)
    ensures
        r is Ok <==> !(scan(*profiles, "label"@, profile@) is Malformed),
        r matches Ok(b) ==> (b <==> scan(*profiles, "label"@, profile@) is Found),
{
    match find_listed(profiles, "image.profile.listImageProfiles", "label", profile) {
        Ok(Some(_)) => Ok(true),
        Ok(None) => Ok(false),
        Err(e) => Err(e),
    }
}

/// The id of the image built from `profile`, if one is among the listed
/// images (the reply to `image.listImages`, matched on member `name`).
pub fn exists_kiwi_image(profile: &str, images: &WireValue) -> (r: Result<Option<i64>, SessionError>)
    ensures
        scan(*images, "name"@, profile@) is Absent ==> r matches Ok(None),
        scan(*images, "name"@, profile@) is Malformed ==> r is Err,
        scan(*images, "name"@, profile@) matches Scan::Found(i) ==> (int_field(
            images->List_0@[i],
            "id"@,
        ) is Some ==> r == Ok::<Option<i64>, SessionError>(
            int_field(images->List_0@[i], "id"@),
        )) && (int_field(images->List_0@[i], "id"@) is None ==> r is Err),
{
    let found = find_listed(images, "image.listImages", "name", profile);
    match found {
        Ok(Some(i)) => {
            if let WireValue::List(items) = images {
                proof {
                    lemma_found_in_range(items@, "name"@, profile@, 0);
                    let sc = scan(*images, "name"@, profile@);
                    assert(sc == scan_from(items@, "name"@, profile@, 0));
                    assert(sc is Found);
                    assert(0 <= sc->Found_0 < items@.len());
                    assert(items@.len() == items.len() && items.len() <= usize::MAX);
                    assert(sc->Found_0 as usize as int == sc->Found_0);
                    assert(found == Ok::<Option<usize>, SessionError>(Some(sc->Found_0 as usize)));
                    assert(sc->Found_0 == i as int);
                }
                assert(items@[i as int] == images->List_0@[i as int]);
                match get_int_field(&items[i], "id") {
                    Some(id) => Ok(Some(id)),
                    None => Err(malformed("image.listImages", Shape::Int, shape(&items[i]))),
                }
            } else {
                Err(malformed("image.listImages", Shape::List, shape(images)))
            }
        },
        Ok(None) => Ok(None),
        Err(e) => Err(e),
    }
}

/// Whether two texts are the same.
pub fn same_text(a: &str, b: &str) -> (r: bool)
    ensures
        r == (a@ == b@),
{
    String::from_str(a) == String::from_str(b)
}

/// The system id in a reply to `system.getId`: the `id` member of the first
/// listed system.
pub open spec fn first_id(reply: WireValue) -> Option<i64> {
    match reply {
        WireValue::List(items) => if items.len() > 0 {
            int_field(items@[0], "id"@)
        } else {
            None
        },
        _ => None,
    }
}

/// Reads the system id out of a reply to `system.getId`.
pub fn get_system_id(reply: &WireValue) -> (r: Result<i64, SessionError>)
    ensures
        first_id(*reply) matches Some(id) ==> r == Ok::<i64, SessionError>(id),
        first_id(*reply) is None ==> (r matches Err(SessionError::UnexpectedShape { method: m, .. })
            && m@ == "system.getId"@),
{
    match reply {
        WireValue::List(items) => {
            if items.len() > 0 {
                match get_int_field(&items[0], "id") {
                    Some(id) => Ok(id),
                    None => Err(malformed("system.getId", Shape::Int, shape(&items[0]))),
                }
            } else {
                Err(malformed("system.getId", Shape::Struct, Shape::List))
            }
        },
        _ => Err(malformed("system.getId", Shape::List, shape(reply))),
    }
}

/// The entitlement that lets a system build OS images.
pub open spec fn build_host_entitlement() -> Seq<char> {
    "osimage_build_host"@
}

/// Scans listed entitlements, in order, for one that holds `wanted`:
/// `Some(true)` at the first that does, `Some(false)` when every one is a
/// string and none does, `None` when an entitlement before any match is
/// not a string.
pub open spec fn entitlement_scan(items: Seq<WireValue>, wanted: Seq<char>, i: int) -> Option<bool>
    decreases items.len() - i,
{
    if i < 0 || i >= items.len() {
        Some(false)
    } else {
        match items[i] {
            WireValue::Str(s) => if has_substring(s@, wanted) {
                Some(true)
            } else {
                entitlement_scan(items, wanted, i + 1)
            },
            _ => None,
        }
    }
}

/// Whether the reply to `system.getEntitlements` lists the build host
/// entitlement.
pub fn has_buildhost_entitlement(entitlements: &WireValue) -> (r: Result<bool, SessionError>)
    ensures
        entitlements is List && entitlement_scan(
            entitlements->List_0@,
            build_host_entitlement(),
            0,
        ) is Some ==> r == Ok::<bool, SessionError>(
            entitlement_scan(entitlements->List_0@, build_host_entitlement(), 0)->Some_0,
        ),
        !(entitlements is List && entitlement_scan(
            entitlements->List_0@,
            build_host_entitlement(),
            0,
        ) is Some) ==> r is Err,
{
    match entitlements {
        WireValue::List(items) => {
            let mut i: usize = 0;
            while i < items.len()
                invariant
                    i <= items.len(),
                    *entitlements == WireValue::List(*items),
                    entitlement_scan(items@, build_host_entitlement(), 0) == entitlement_scan(
                        items@,
                        build_host_entitlement(),
                        i as int,
                    ),
                decreases items.len() - i,
            {
                let ghost here = entitlement_scan(items@, build_host_entitlement(), i as int);
                match &items[i] {
                    WireValue::Str(s) => {
                        if text_contains(s.as_str(), "osimage_build_host") {
                            assert(here == Some(true));
                            return Ok(true);
                        }
                    },
                    other => {
                        return Err(malformed("system.getEntitlements", Shape::Str, shape(other)));
                    },
                }
                i = i + 1;
            }
            assert(entitlement_scan(items@, build_host_entitlement(), i as int) == Some(false));
            Ok(false)
        },
        _ => Err(malformed("system.getEntitlements", Shape::List, shape(entitlements))),
    }
}

/// The status of one highstate event from its counts: any failure is a
/// failure, no failure and at least one success is a success, and anything
/// else is still pending.
pub open spec fn counts_outcome(failed: i64, succeeded: i64) -> PollOutcome {
    if failed > 0 {
        PollOutcome::Failed
    } else if failed == 0 && succeeded > 0 {
        PollOutcome::Succeeded
    } else {
        PollOutcome::Pending
    }
}

/// Scans listed system events for the event `id`: its outcome, `Pending`
/// when no event has that id, and `None` when an event before it lacks an
/// integer `id`, or the event itself lacks its integer counts.
pub open spec fn event_scan(events: Seq<WireValue>, id: i64, i: int) -> Option<PollOutcome>
    decreases events.len() - i,
{
    if i < 0 || i >= events.len() {
        Some(PollOutcome::Pending)
    } else {
        match int_field(events[i], "id"@) {
            None => None,
            Some(e) => if e == id {
                match (
                    int_field(events[i], "failed_count"@),
                    int_field(events[i], "successful_count"@),
                ) {
                    (Some(f), Some(s)) => Some(counts_outcome(f, s)),
                    _ => None,
                }
            } else {
                event_scan(events, id, i + 1)
            },
        }
    }
}

/// The status of the highstate event `event_id`, read from the reply to
/// `system.listSystemEvents`.
pub fn status_highstate(events: &WireValue, event_id: i64) -> (r: Result<PollOutcome, SessionError>)
    ensures
        events is List && event_scan(events->List_0@, event_id, 0) is Some ==> r == Ok::<
            PollOutcome,
            SessionError,
        >(event_scan(events->List_0@, event_id, 0)->Some_0),
        !(events is List && event_scan(events->List_0@, event_id, 0) is Some) ==> r is Err,
{
    match events {
        WireValue::List(items) => {
            let mut i: usize = 0;
            while i < items.len()
                invariant
                    i <= items.len(),
                    *events == WireValue::List(*items),
                    event_scan(items@, event_id, 0) == event_scan(items@, event_id, i as int),
                decreases items.len() - i,
            {
                let ghost here = event_scan(items@, event_id, i as int);
                match get_int_field(&items[i], "id") {
                    Some(e) => {
                        if e == event_id {
                            assert(int_field(items@[i as int], "id"@) == Some(e));
                            let failed = get_int_field(&items[i], "failed_count");
                            let succeeded = get_int_field(&items[i], "successful_count");
                            return match (failed, succeeded) {
                                (Some(f), Some(s)) => Ok(
                                    if f > 0 {
                                        PollOutcome::Failed
                                    } else if f == 0 && s > 0 {
                                        PollOutcome::Succeeded
                                    } else {
                                        PollOutcome::Pending
                                    },
                                ),
                                _ => Err(
                                    malformed("system.listSystemEvents", Shape::Int, Shape::Struct),
                                ),
                            };
                        }
                    },
                    None => {
                        return Err(
                            malformed("system.listSystemEvents", Shape::Int, shape(&items[i])),
                        );
                    },
                }
                i = i + 1;
            }
            assert(event_scan(items@, event_id, i as int) == Some(PollOutcome::Pending));
            Ok(PollOutcome::Pending)
        },
        _ => Err(malformed("system.listSystemEvents", Shape::List, shape(events))),
    }
}

/// The build status in a reply to `image.getDetails`.
pub fn status_kiwi_image(details: &WireValue) -> (r: Result<String, SessionError>)
    ensures
        str_field(*details, "buildStatus"@) matches Some(s) ==> (r matches Ok(t) && t@ == s),
        str_field(*details, "buildStatus"@) is None ==> r is Err,
{
    match get_str_field(details, "buildStatus") {
        Some(s) => Ok(s.clone()),
        None => Err(malformed("image.getDetails", Shape::Str, shape(details))),
    }
}

/// The poll outcome of an image build status: `queued` and `picked up` are
/// pending, `completed` a success, `failed` a failure; any other status is
/// unknown.
pub open spec fn image_outcome_of(status: Seq<char>) -> PollOutcome {
    if status == "queued"@ || status == "picked up"@ {
        PollOutcome::Pending
    } else if status == "completed"@ {
        PollOutcome::Succeeded
    } else if status == "failed"@ {
        PollOutcome::Failed
    } else {
        PollOutcome::Unknown
    }
}

/// Classifies an image build status.
pub fn image_outcome(status: &str) -> (r: PollOutcome)
    ensures
        r == image_outcome_of(status@),
{
    if same_text(status, "queued") || same_text(status, "picked up") {
        PollOutcome::Pending
    } else if same_text(status, "completed") {
        PollOutcome::Succeeded
    } else if same_text(status, "failed") {
        PollOutcome::Failed
    } else {
        PollOutcome::Unknown
    }
}

} // verus!
