//! What holds of every listing of notes and of groups.

use crate::error::ErrorKind;
use crate::gather::{
    comes_before, gather, lemma_gather_fails, lemma_place_holds, lemma_place_is_taken,
    lemma_place_rises, place,
};
use crate::group::{canonical_name, group_id};
use crate::metadata::{FileMetadata, NoteFile};
use crate::note::{
    file_steps, get_group_result, group_of, group_steps, is_group, listing_steps, note_of, passes,
    read_result, record_of, GroupContent, GroupListing, GroupView, Listing, NoteView,
};
use crate::path::{
    is_markdown, is_note, is_plugin, path_file_name, path_file_stem, path_parent, path_same,
};
use vstd::prelude::*;

verus! {

/// The last millisecond before the epoch.
pub const JUST_BEFORE_THE_EPOCH: i64 = -1;

/// The listing with the widest window that holds the epoch at its lower
/// end, and no filter: from -1 to the largest time.
pub open spec fn widest(workspace: Seq<char>) -> Listing {
    Listing { workspace, start: JUST_BEFORE_THE_EPOCH, end: i64::MAX, filter: None }
}

/// The canonical name of the group that an entry under the workspace root is.
pub open spec fn name_of_group(workspace: Seq<char>, group_path: Seq<char>) -> Seq<char> {
    canonical_name(path_file_name(workspace)->0, path_file_name(group_path)->0)
}

/// Whether the note lister lists `file`, a file of the entry `group`, as `note`.
pub open spec fn lists(
    asked: Listing,
    group: GroupContent,
    file: NoteFile,
    times: FileMetadata,
    note: NoteView,
) -> bool {
    &&& path_file_name(asked.workspace) is Some
    &&& is_group(group.path@, group.is_file, asked.workspace)
    &&& path_file_name(group.path@) is Some
    &&& note_of(asked, name_of_group(asked.workspace, group.path@), file, times) == Ok::<
        Option<NoteView>,
        ErrorKind,
    >(Some(note))
}

/// Where the record at index `k` of a listing comes from: the index of
/// the entry under the workspace root, and the index of the file among
/// the files of that entry.
pub open spec fn spot(
    asked: Listing,
    groups: Seq<GroupContent>,
    times: Seq<Seq<FileMetadata>>,
    k: int,
) -> (int, int) {
    let (g, in_group) = place(group_steps(asked, groups, times), k);
    let name = name_of_group(asked.workspace, groups[g].path@);
    (g, place(file_steps(asked, name, groups[g].files@, times[g]), in_group).0)
}

/// Every listed note is a file of a group: each record of a listing comes
/// from an entry under the workspace root that is a group, and from a file
/// found below it, which the note lister lists as that record.
pub proof fn law_listed_notes_come_from_groups(
    asked: Listing,
    groups: Seq<GroupContent>,
    times: Seq<Seq<FileMetadata>>,
    list: Seq<NoteView>,
    k: int,
)
    requires
        read_result(asked, groups, times) == Ok::<Seq<NoteView>, ErrorKind>(list),
        0 <= k < list.len(),
    ensures
        0 <= spot(asked, groups, times, k).0 < groups.len(),
        0 <= spot(asked, groups, times, k).1 < groups[spot(asked, groups, times, k).0].files@.len(),
        lists(
            asked,
            groups[spot(asked, groups, times, k).0],
            groups[spot(asked, groups, times, k).0].files@[spot(asked, groups, times, k).1],
            times[spot(asked, groups, times, k).0][spot(asked, groups, times, k).1],
            list[k],
        ),
{
    let outer = group_steps(asked, groups, times);
    lemma_place_holds(outer, k);
    let (g, in_group) = place(outer, k);
    let name = name_of_group(asked.workspace, groups[g].path@);
    lemma_place_holds(file_steps(asked, name, groups[g].files@, times[g]), in_group);
}

/// A listed note is a note, its group is a group, and its record says
/// where it came from: the file is a regular file with the note extension
/// that lies neither directly under the workspace root nor in the
/// reserved configuration directory; the entry it was found under is a
/// directory outside that directory; its creation time lies strictly
/// inside the window; its group passes the filter; its path is text; and
/// the record holds the file's path, its resolved times, the group's
/// canonical name and the id of that name.
pub proof fn law_listed_note_is_a_note_in_the_window(
    asked: Listing,
    group: GroupContent,
    file: NoteFile,
    times: FileMetadata,
    note: NoteView,
)
    requires
        lists(asked, group, file, times, note),
    ensures
        file.is_file,
        path_parent(file.path@) matches Some(parent) && !path_same(parent, asked.workspace),
        is_markdown(file.path@, asked.workspace, file.is_file),
        !is_plugin(file.path@, asked.workspace),
        !group.is_file,
        !is_plugin(group.path@, asked.workspace),
        asked.start < note.created < asked.end,
        passes(asked.filter, note.group_id),
        file.path_is_text,
        note.path == file.path@,
        path_file_stem(file.path@) == Some(note.name),
        note.created == times.created,
        note.updated == times.updated,
        note.group == name_of_group(asked.workspace, group.path@),
        note.group_id == group_id(note.group),
{
}

/// Every note in the window is listed: where a listing succeeds, each file
/// that the note lister lists has its record in the listing, at an index
/// that comes from this file.
pub proof fn law_notes_in_the_window_are_listed(
    asked: Listing,
    groups: Seq<GroupContent>,
    times: Seq<Seq<FileMetadata>>,
    list: Seq<NoteView>,
    g: int,
    f: int,
    note: NoteView,
) -> (k: int)
    requires
        read_result(asked, groups, times) == Ok::<Seq<NoteView>, ErrorKind>(list),
        0 <= g < groups.len(),
        0 <= f < groups[g].files@.len(),
        lists(asked, groups[g], groups[g].files@[f], times[g][f], note),
    ensures
        0 <= k < list.len(),
        list[k] == note,
        spot(asked, groups, times, k) == (g, f),
        list.contains(note),
{
    let outer = group_steps(asked, groups, times);
    let name = name_of_group(asked.workspace, groups[g].path@);
    let inner = file_steps(asked, name, groups[g].files@, times[g]);
    lemma_gather_fails(outer);
    assert(outer[g] is Ok);
    let in_group = lemma_place_is_taken(inner, f, 0);
    lemma_place_is_taken(outer, g, in_group)
}

/// Each note is listed once: the records of a listing come from files one
/// after the other, in the order in which the entries and their files were
/// handed in. So no file gives two records.
pub proof fn law_each_note_is_listed_once(
    asked: Listing,
    groups: Seq<GroupContent>,
    times: Seq<Seq<FileMetadata>>,
    list: Seq<NoteView>,
    first: int,
    second: int,
)
    requires
        read_result(asked, groups, times) == Ok::<Seq<NoteView>, ErrorKind>(list),
        0 <= first < second < list.len(),
    ensures
        comes_before(spot(asked, groups, times, first), spot(asked, groups, times, second)),
{
    let outer = group_steps(asked, groups, times);
    lemma_place_rises(outer, first, second);
    lemma_place_holds(outer, first);
    lemma_place_holds(outer, second);
    let (g, in_first) = place(outer, first);
    let (other, in_second) = place(outer, second);
    if g == other {
        let name = name_of_group(asked.workspace, groups[g].path@);
        let inner = file_steps(asked, name, groups[g].files@, times[g]);
        lemma_place_rises(inner, in_first, in_second);
        lemma_place_holds(inner, in_first);
        lemma_place_holds(inner, in_second);
    }
}

/// With the window from -1 to the largest time and no filter, a listing
/// that succeeds holds every note of every group whose creation time is
/// not negative and not the largest time, each of them once: the note's
/// record stands at one index of the listing, and no other index comes
/// from this file. Every record of the listing has such a creation time.
pub proof fn law_the_widest_window_lists_every_note_once(
    workspace: Seq<char>,
    groups: Seq<GroupContent>,
    times: Seq<Seq<FileMetadata>>,
    list: Seq<NoteView>,
    g: int,
    f: int,
) -> (k: int)
    requires
        read_result(widest(workspace), groups, times) == Ok::<Seq<NoteView>, ErrorKind>(list),
        0 <= g < groups.len(),
        0 <= f < groups[g].files@.len(),
        is_group(groups[g].path@, groups[g].is_file, workspace),
        is_note(groups[g].files@[f].path@, workspace, groups[g].files@[f].is_file),
        0 <= times[g][f].created < i64::MAX,
    ensures
        path_file_name(workspace) is Some,
        path_file_name(groups[g].path@) is Some,
        path_file_stem(groups[g].files@[f].path@) is Some,
        0 <= k < list.len(),
        list[k] == record_of(
            path_file_stem(groups[g].files@[f].path@)->0,
            name_of_group(workspace, groups[g].path@),
            groups[g].files@[f],
            times[g][f],
        ),
        forall|other: int|
            0 <= other < list.len() && #[trigger] spot(widest(workspace), groups, times, other) == (
                g,
                f,
            ) ==> other == k,
        forall|any: int| 0 <= any < list.len() ==> 0 <= (#[trigger] list[any]).created < i64::MAX,
{
    let asked = widest(workspace);
    let outer = group_steps(asked, groups, times);
    let group = name_of_group(workspace, groups[g].path@);
    let inner = file_steps(asked, group, groups[g].files@, times[g]);
    let file = groups[g].files@[f];
    lemma_gather_fails(outer);
    assert(outer[g] is Ok);
    lemma_gather_fails(inner);
    assert(inner[f] is Ok);
    let note = record_of(path_file_stem(file.path@)->0, group, file, times[g][f]);
    let k = law_notes_in_the_window_are_listed(asked, groups, times, list, g, f, note);
    assert forall|other: int|
        0 <= other < list.len() && #[trigger] spot(asked, groups, times, other) == (
            g,
            f,
        ) implies other == k by {
        if other < k {
            law_each_note_is_listed_once(asked, groups, times, list, other, k);
        } else if k < other {
            law_each_note_is_listed_once(asked, groups, times, list, k, other);
        }
    }
    assert forall|any: int| 0 <= any < list.len() implies 0 <= (#[trigger] list[any]).created
        < i64::MAX by {
        law_listed_notes_come_from_groups(asked, groups, times, list, any);
    }
    k
}

/// The window of the note lister leaves out both of its bounds: a note
/// created at `start` or at `end` is not listed, and one created right
/// after `start` and before `end` is, where it has a name, its path is
/// text and its group passes the filter.
pub proof fn law_window_leaves_out_its_bounds(
    asked: Listing,
    group: Seq<char>,
    file: NoteFile,
    times: FileMetadata,
)
    ensures
        times.created == asked.start || times.created == asked.end ==> note_of(
            asked,
            group,
            file,
            times,
        ) == Ok::<Option<NoteView>, ErrorKind>(None),
        is_note(file.path@, asked.workspace, file.is_file) && times.created == asked.start + 1
            && times.created < asked.end && passes(asked.filter, group_id(group)) && path_file_stem(
            file.path@,
        ) is Some && file.path_is_text ==> note_of(asked, group, file, times) == Ok::<
            Option<NoteView>,
            ErrorKind,
        >(Some(record_of(path_file_stem(file.path@)->0, group, file, times))),
{
}

/// Whether the notes of an entry under the workspace root can be listed:
/// where it is a group, its directory has a name, and each note among its
/// files has a name and a path that is text.
pub open spec fn group_can_be_listed(workspace: Seq<char>, group: GroupContent) -> bool {
    is_group(group.path@, group.is_file, workspace) ==> {
        &&& path_file_name(group.path@) is Some
        &&& forall|f: int|
            0 <= f < group.files@.len() && is_note(
                (#[trigger] group.files@[f]).path@,
                workspace,
                group.files@[f].is_file,
            ) ==> path_file_stem(group.files@[f].path@) is Some && group.files@[f].path_is_text
    }
}

/// A listing of notes fails for want of a name or of a path that is text,
/// and for nothing else: the only failures are `FileStem` and
/// `InvalidPath`; it fails whenever the workspace has no name; and it
/// succeeds, whatever the window and the filter, where the workspace and
/// every group has a name and every note has a name and a path that is text.
pub proof fn law_listing_fails_only_for_a_name_or_a_path(
    asked: Listing,
    groups: Seq<GroupContent>,
    times: Seq<Seq<FileMetadata>>,
)
    ensures
        read_result(asked, groups, times) matches Err(kind) ==> kind == ErrorKind::FileStem || kind
            == ErrorKind::InvalidPath,
        path_file_name(asked.workspace) is None ==> read_result(asked, groups, times)
            == Err::<Seq<NoteView>, ErrorKind>(ErrorKind::FileStem),
        path_file_name(asked.workspace) is Some && (forall|g: int|
            0 <= g < groups.len() ==> group_can_be_listed(asked.workspace, #[trigger] groups[g]))
            ==> read_result(asked, groups, times) is Ok,
{
    let outer = group_steps(asked, groups, times);
    let named = path_file_name(asked.workspace) is Some;
    lemma_gather_fails(outer);
    assert forall|g: int| 0 <= g < groups.len() implies {
        &&& (#[trigger] outer[g]) matches Err(kind) ==> kind == ErrorKind::FileStem || kind
            == ErrorKind::InvalidPath
        &&& named && group_can_be_listed(asked.workspace, groups[g]) ==> outer[g] is Ok
    } by {
        let group = name_of_group(asked.workspace, groups[g].path@);
        let inner = file_steps(asked, group, groups[g].files@, times[g]);
        lemma_gather_fails(inner);
        if is_group(groups[g].path@, groups[g].is_file, asked.workspace) && group_can_be_listed(
            asked.workspace,
            groups[g],
        ) {
            assert forall|f: int| 0 <= f < inner.len() implies (#[trigger] inner[f]) is Ok by {
                let file = groups[g].files@[f];
                assert(is_note(file.path@, asked.workspace, file.is_file) ==> path_file_stem(
                    file.path@,
                ) is Some && file.path_is_text);
            }
        }
    }
}

/// Whether the group lister lists the entry `listing` as `group`.
pub open spec fn lists_group(
    workspace: Seq<char>,
    listing: GroupListing,
    group: GroupView,
) -> bool {
    group_of(workspace, listing) == Ok::<Option<GroupView>, ErrorKind>(Some(group))
}

/// Every listed group is an entry under the workspace root: each group of
/// a listing comes from an entry that the group lister lists as that group.
pub proof fn law_listed_groups_come_from_entries(
    workspace: Seq<char>,
    listings: Seq<GroupListing>,
    list: Seq<GroupView>,
    k: int,
)
    requires
        get_group_result(workspace, listings) == Ok::<Seq<GroupView>, ErrorKind>(list),
        0 <= k < list.len(),
    ensures
        0 <= place(listing_steps(workspace, listings), k).0 < listings.len(),
        lists_group(workspace, listings[place(listing_steps(workspace, listings), k).0], list[k]),
{
    lemma_place_holds(listing_steps(workspace, listings), k);
}

/// Each group is listed once: the groups of a listing come from entries
/// one after the other, in the order in which the entries were handed in.
pub proof fn law_each_group_is_listed_once(
    workspace: Seq<char>,
    listings: Seq<GroupListing>,
    list: Seq<GroupView>,
    first: int,
    second: int,
)
    requires
        get_group_result(workspace, listings) == Ok::<Seq<GroupView>, ErrorKind>(list),
        0 <= first < second < list.len(),
    ensures
        place(listing_steps(workspace, listings), first).0 < place(
            listing_steps(workspace, listings),
            second,
        ).0,
{
    let steps = listing_steps(workspace, listings);
    lemma_place_rises(steps, first, second);
    lemma_place_holds(steps, first);
    lemma_place_holds(steps, second);
}

/// A listed group holds a note, and its id is the id of its name: the
/// entry is a directory outside the reserved configuration directory, a
/// walk below it met a note (a regular file with the note extension,
/// neither directly under the workspace root nor in the reserved
/// configuration directory), the name is the group's canonical name, and
/// the id is that of the name.
pub proof fn law_listed_group_holds_a_note(
    workspace: Seq<char>,
    listing: GroupListing,
    group: GroupView,
)
    requires
        lists_group(workspace, listing, group),
    ensures
        !listing.is_file,
        !is_plugin(listing.path@, workspace),
        exists|e: int|
            0 <= e < listing.entries@.len() && is_markdown(
                (#[trigger] listing.entries@[e]).path@,
                workspace,
                listing.entries@[e].is_file,
            ) && !is_plugin(listing.entries@[e].path@, workspace),
        path_file_name(workspace) is Some,
        path_file_name(listing.path@) is Some,
        group.name == name_of_group(workspace, listing.path@),
        group.id == group_id(group.name),
{
}

/// Every group that holds a note is listed: where a listing succeeds,
/// each entry that the group lister lists has its group in the listing.
pub proof fn law_groups_with_a_note_are_listed(
    workspace: Seq<char>,
    listings: Seq<GroupListing>,
    list: Seq<GroupView>,
    l: int,
    group: GroupView,
)
    requires
        get_group_result(workspace, listings) == Ok::<Seq<GroupView>, ErrorKind>(list),
        0 <= l < listings.len(),
        lists_group(workspace, listings[l], group),
    ensures
        list.contains(group),
{
    let k = lemma_place_is_taken(listing_steps(workspace, listings), l, 0);
    assert(list[k] == group);
}

/// Whether an entry under the workspace root is a group whose directory has no name.
pub open spec fn lacks_a_name(workspace: Seq<char>, listing: GroupListing) -> bool {
    is_group(listing.path@, listing.is_file, workspace) && path_file_name(listing.path@) is None
}

/// A listing of groups fails exactly when a name is missing: that of the
/// workspace, or that of the directory of a group. The failure is `FileStem`.
pub proof fn law_group_listing_fails_exactly_for_want_of_a_name(
    workspace: Seq<char>,
    listings: Seq<GroupListing>,
)
    ensures
        get_group_result(workspace, listings) matches Err(kind) ==> kind == ErrorKind::FileStem,
        get_group_result(workspace, listings) is Err <==> path_file_name(workspace) is None || (
        exists|l: int| 0 <= l < listings.len() && lacks_a_name(workspace, #[trigger] listings[l])),
{
    let steps = listing_steps(workspace, listings);
    lemma_gather_fails(steps);
    if path_file_name(workspace) is Some {
        if gather(steps) is Err {
            let l = choose|l: int| 0 <= l < steps.len() && !((#[trigger] steps[l]) is Ok);
            assert(lacks_a_name(workspace, listings[l]));
        }
        if exists|l: int|
            0 <= l < listings.len() && lacks_a_name(workspace, #[trigger] listings[l]) {
            let l = choose|l: int|
                0 <= l < listings.len() && lacks_a_name(workspace, #[trigger] listings[l]);
            assert(steps[l] is Err);
        }
    }
}

} // verus!
