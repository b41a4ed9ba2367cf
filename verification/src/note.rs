//! The note lister and the group lister.
//!
//! Both work on what a walk over the workspace found: the entries directly
//! under the root, each with what lies below it. A group is such an entry
//! that is a directory outside the reserved configuration directory.

use crate::error::{Error, ErrorKind};
use crate::gather::{
    after, gather, lemma_gather_end, lemma_gather_start, lemma_gather_step, single,
};
use crate::group::{canonical_name, group_id, group_name, text_to_hash};
use crate::metadata::{get_metadata, resolves, FileMetadata, NoteFile};
use crate::path::{
    file_name, file_stem, is_note, is_note_path, is_plugin, is_plugin_path, path_file_name,
    path_file_stem,
};
use vstd::prelude::*;

verus! {

/// A note as it is listed.
#[derive(Debug)]
pub struct ObsidianNote {
    pub name: String,
    pub path: String,
    pub created: i64,
    pub updated: i64,
    pub group: String,
    pub group_id: u32,
}

/// A group as it is listed.
#[derive(Debug)]
pub struct ObsidianGroup {
    pub name: String,
    pub id: u32,
}

/// What a listed note holds.
pub struct NoteView {
    pub name: Seq<char>,
    pub path: Seq<char>,
    pub created: i64,
    pub updated: i64,
    pub group: Seq<char>,
    pub group_id: u32,
}

/// What a listed group holds.
pub struct GroupView {
    pub name: Seq<char>,
    pub id: u32,
}

impl View for ObsidianNote {
    type V = NoteView;

    open spec fn view(&self) -> NoteView {
        NoteView {
            name: self.name@,
            path: self.path@,
            created: self.created,
            updated: self.updated,
            group: self.group@,
            group_id: self.group_id,
        }
    }
}

impl DeepView for ObsidianNote {
    type V = NoteView;

    open spec fn deep_view(&self) -> NoteView {
        self@
    }
}

impl View for ObsidianGroup {
    type V = GroupView;

    open spec fn view(&self) -> GroupView {
        GroupView { name: self.name@, id: self.id }
    }
}

impl DeepView for ObsidianGroup {
    type V = GroupView;

    open spec fn deep_view(&self) -> GroupView {
        self@
    }
}

/// An entry that a walk met: its path, and whether it is a regular file.
#[derive(Debug)]
pub struct Entry {
    pub path: String,
    pub is_file: bool,
}

/// An entry directly under the workspace root, with the entries that a
/// walk below it met.
#[derive(Debug)]
pub struct GroupListing {
    pub path: String,
    pub is_file: bool,
    pub entries: Vec<Entry>,
}

/// An entry directly under the workspace root, with the files that were
/// found below it and read.
#[derive(Debug)]
pub struct GroupContent {
    pub path: String,
    pub is_file: bool,
    pub files: Vec<NoteFile>,
}

/// What a listing of notes is asked for: the workspace, the window of
/// creation times, and the group wanted, if only one is.
pub struct Listing {
    pub workspace: Seq<char>,
    pub start: i64,
    pub end: i64,
    pub filter: Option<u32>,
}

/// Whether a time lies inside the window of the note lister. Both bounds
/// are left out.
pub open spec fn in_window(created: i64, start: i64, end: i64) -> bool {
    start < created && created < end
}

/// Whether a group passes the filter: there is none, or it asks for the group's id.
pub open spec fn passes(filter: Option<u32>, id: u32) -> bool {
    match filter {
        Some(wanted) => wanted == id,
        None => true,
    }
}

/// Whether an entry directly under the workspace root is a group: a
/// directory outside the reserved configuration directory.
pub open spec fn is_group(path: Seq<char>, is_file: bool, workspace: Seq<char>) -> bool {
    !is_plugin(path, workspace) && !is_file
}

/// The record of a note of the group `group`, named `name`.
pub open spec fn record_of(
    name: Seq<char>,
    group: Seq<char>,
    file: NoteFile,
    times: FileMetadata,
) -> NoteView {
    NoteView {
        name,
        path: file.path@,
        created: times.created,
        updated: times.updated,
        group,
        group_id: group_id(group),
    }
}

/// What the note lister makes of one file of the group `group`: nothing
/// where the file is no note or its creation time lies outside the window;
/// a failure where it then has no name, or a path that is no text; its
/// record where the group passes the filter.
pub open spec fn note_of(
    asked: Listing,
    group: Seq<char>,
    file: NoteFile,
    times: FileMetadata,
) -> Result<Option<NoteView>, ErrorKind> {
    if !is_note(file.path@, asked.workspace, file.is_file) || !in_window(
        times.created,
        asked.start,
        asked.end,
    ) {
        Ok(None)
    } else {
        match path_file_stem(file.path@) {
            None => Err(ErrorKind::FileStem),
            Some(name) => if !file.path_is_text {
                Err(ErrorKind::InvalidPath)
            } else if passes(asked.filter, group_id(group)) {
                Ok(Some(record_of(name, group, file, times)))
            } else {
                Ok(None)
            },
        }
    }
}

/// What the note lister makes of each file of the group `group`.
/// `times` holds the resolved times of each file, at the file's index.
pub open spec fn file_steps(
    asked: Listing,
    group: Seq<char>,
    files: Seq<NoteFile>,
    times: Seq<FileMetadata>,
) -> Seq<Result<Seq<NoteView>, ErrorKind>> {
    Seq::new(files.len(), |f: int| single(note_of(asked, group, files[f], times[f])))
}

/// The records of one entry under the workspace root: none where it is no
/// group, a failure where the workspace or the group's directory has no
/// name, else the records of its files in their order, or the first
/// failure among them.
pub open spec fn notes_of_group(
    asked: Listing,
    group: GroupContent,
    times: Seq<FileMetadata>,
) -> Result<Seq<NoteView>, ErrorKind> {
    if !is_group(group.path@, group.is_file, asked.workspace) {
        Ok(Seq::empty())
    } else {
        match (path_file_name(asked.workspace), path_file_name(group.path@)) {
            (Some(workspace_name), Some(directory_name)) => gather(
                file_steps(
                    asked,
                    canonical_name(workspace_name, directory_name),
                    group.files@,
                    times,
                ),
            ),
            _ => Err(ErrorKind::FileStem),
        }
    }
}

/// What the note lister makes of each entry under the workspace root.
/// `times` holds, for each entry, the resolved times of its files.
pub open spec fn group_steps(
    asked: Listing,
    groups: Seq<GroupContent>,
    times: Seq<Seq<FileMetadata>>,
) -> Seq<Result<Seq<NoteView>, ErrorKind>> {
    Seq::new(groups.len(), |g: int| notes_of_group(asked, groups[g], times[g]))
}

/// What the note lister returns for a workspace whose files have the
/// resolved times `times`: a failure where the workspace has no name, else
/// the records of all entries under the root in their order, or the first
/// failure among them.
pub open spec fn read_result(
    asked: Listing,
    groups: Seq<GroupContent>,
    times: Seq<Seq<FileMetadata>>,
) -> Result<Seq<NoteView>, ErrorKind> {
    if path_file_name(asked.workspace) is None {
        Err(ErrorKind::FileStem)
    } else {
        gather(group_steps(asked, groups, times))
    }
}

/// Whether `times` holds, for each file of each entry, times that the
/// resolver can give for it.
pub open spec fn all_resolve(
    groups: Seq<GroupContent>,
    created_key: Seq<char>,
    updated_key: Seq<char>,
    times: Seq<Seq<FileMetadata>>,
) -> bool {
    &&& times.len() == groups.len()
    &&& forall|g: int|
        0 <= g < groups.len() ==> (#[trigger] times[g]).len() == groups[g].files@.len()
    &&& forall|g: int, f: int|
        0 <= g < groups.len() && 0 <= f < groups[g].files@.len() ==> resolves(
            #[trigger] groups[g].files@[f],
            created_key,
            updated_key,
            #[trigger] times[g][f],
        )
}

/// A result of the note lister, as the records it holds or the kind of its failure.
pub open spec fn notes_outcome(result: Result<Vec<ObsidianNote>, Error>) -> Result<
    Seq<NoteView>,
    ErrorKind,
> {
    match result {
        Ok(notes) => Ok(notes.deep_view()),
        Err(error) => Err(error.kind()),
    }
}

/// A result for one file, as the record it holds or the kind of its failure.
pub open spec fn note_outcome(result: Result<Option<ObsidianNote>, Error>) -> Result<
    Option<NoteView>,
    ErrorKind,
> {
    match result {
        Ok(Some(note)) => Ok(Some(note@)),
        Ok(None) => Ok(None),
        Err(error) => Err(error.kind()),
    }
}

/// Decides on one file of the group `group`, whose resolved times are
/// `times`: whether the note lister lists it, and as what.
pub fn note_record(
    workspace: &str,
    group: &String,
    file: &NoteFile,
    times: FileMetadata,
    start: i64,
    end: i64,
    group_id: Option<u32>,
) -> (record: Result<Option<ObsidianNote>, Error>)
    ensures
        note_outcome(record) == note_of(
            Listing { workspace: workspace@, start, end, filter: group_id },
            group@,
            *file,
            times,
        ),
{
    if !is_note_path(file.path.as_str(), workspace, file.is_file) {
        return Ok(None);
    }
    if times.created > start && times.created < end {
        let name = match file_stem(file.path.as_str()) {
            Ok(name) => name,
            Err(error) => {
                return Err(error);
            },
        };
        if !file.path_is_text {
            return Err(Error::InvalidPath);
        }
        let current_group_id = text_to_hash(group.clone());
        let insert = match group_id {
            Some(wanted) => wanted == current_group_id,
            None => true,
        };
        if insert {
            return Ok(
                Some(
                    ObsidianNote {
                        name,
                        path: file.path.clone(),
                        created: times.created,
                        updated: times.updated,
                        group: group.clone(),
                        group_id: current_group_id,
                    },
                ),
            );
        }
    }
    Ok(None)
}

/// The times in a list of lists, as sequences.
pub open spec fn times_of(resolved: Seq<Vec<FileMetadata>>) -> Seq<Seq<FileMetadata>> {
    Seq::new(resolved.len(), |g: int| resolved[g]@)
}

/// Resolves the times of the files of one entry under the workspace root.
/// Where `consider` is false, or a file is no note, the header is not
/// looked at and the times are the file system's.
fn resolve_files(
    workspace: &str,
    files: &Vec<NoteFile>,
    consider: bool,
    created_key: &String,
    updated_key: &String,
) -> (times: Vec<FileMetadata>)
    ensures
        times@.len() == files@.len(),
        forall|f: int|
            0 <= f < files@.len() ==> resolves(
                #[trigger] files@[f],
                created_key@,
                updated_key@,
                times@[f],
            ),
{
    let mut times: Vec<FileMetadata> = Vec::new();
    let mut index: usize = 0;
    while index < files.len()
        invariant
            index <= files.len(),
            times@.len() == index,
            forall|f: int|
                0 <= f < index ==> resolves(
                    #[trigger] files@[f],
                    created_key@,
                    updated_key@,
                    times@[f],
                ),
        decreases files.len() - index,
    {
        let file = &files[index];
        let resolved = if consider && is_note_path(file.path.as_str(), workspace, file.is_file) {
            get_metadata(file, created_key.clone(), updated_key.clone())
        } else {
            FileMetadata::resolve(file.created, file.modified, None, None)
        };
        times.push(resolved);
        index += 1;
    }
    times
}

/// Resolves the times of every file of every entry under the workspace
/// root. Headers are read of notes in groups only.
fn resolve_groups(
    workspace: &str,
    groups: &Vec<GroupContent>,
    created_key: &String,
    updated_key: &String,
) -> (resolved: Vec<Vec<FileMetadata>>)
    ensures
        all_resolve(groups@, created_key@, updated_key@, times_of(resolved@)),
{
    let mut resolved: Vec<Vec<FileMetadata>> = Vec::new();
    let mut index: usize = 0;
    while index < groups.len()
        invariant
            index <= groups.len(),
            resolved@.len() == index,
            forall|g: int|
                0 <= g < index ==> (#[trigger] resolved@[g])@.len() == groups@[g].files@.len(),
            forall|g: int, f: int|
                0 <= g < index && 0 <= f < groups@[g].files@.len() ==> resolves(
                    #[trigger] groups@[g].files@[f],
                    created_key@,
                    updated_key@,
                    #[trigger] resolved@[g]@[f],
                ),
        decreases groups.len() - index,
    {
        let group = &groups[index];
        let consider = !is_plugin_path(group.path.as_str(), workspace) && !group.is_file;
        let times = resolve_files(workspace, &group.files, consider, created_key, updated_key);
        resolved.push(times);
        index += 1;
    }
    resolved
}

/// Lists the notes among the files of one group, whose canonical name is `group`.
fn list_group_notes(
    workspace: &str,
    group: &String,
    files: &Vec<NoteFile>,
    times: &Vec<FileMetadata>,
    start: i64,
    end: i64,
    group_id: Option<u32>,
) -> (notes: Result<Vec<ObsidianNote>, Error>)
    requires
        times@.len() == files@.len(),
    ensures
        notes_outcome(notes) == gather(
            file_steps(
                Listing { workspace: workspace@, start, end, filter: group_id },
                group@,
                files@,
                times@,
            ),
        ),
{
    let ghost asked = Listing { workspace: workspace@, start, end, filter: group_id };
    let ghost steps = file_steps(asked, group@, files@, times@);
    let mut list: Vec<ObsidianNote> = Vec::new();
    let mut index: usize = 0;
    proof {
        lemma_gather_start(steps);
        assert(list.deep_view() =~= Seq::<NoteView>::empty());
    }
    while index < files.len()
        invariant
            index <= files.len(),
            times@.len() == files@.len(),
            asked == (Listing { workspace: workspace@, start, end, filter: group_id }),
            steps == file_steps(asked, group@, files@, times@),
            gather(steps) == after(list.deep_view(), gather(steps.skip(index as int))),
        decreases files.len() - index,
    {
        let ghost before = list.deep_view();
        proof {
            lemma_gather_step(steps, before, index as int);
        }
        match note_record(workspace, group, &files[index], times[index], start, end, group_id) {
            Err(error) => {
                return Err(error);
            },
            Ok(Some(note)) => {
                list.push(note);
                assert(list.deep_view() =~= before + seq![note@]);
            },
            Ok(None) => {
                assert(before + Seq::<NoteView>::empty() =~= before);
            },
        }
        index += 1;
    }
    proof {
        lemma_gather_end(steps, list.deep_view());
    }
    Ok(list)
}

/// Lists the notes of a workspace whose files have the resolved times `resolved`.
fn list_notes(
    workspace: &str,
    groups: &Vec<GroupContent>,
    resolved: &Vec<Vec<FileMetadata>>,
    start: i64,
    end: i64,
    group_id: Option<u32>,
) -> (notes: Result<Vec<ObsidianNote>, Error>)
    requires
        resolved@.len() == groups@.len(),
        forall|g: int|
            0 <= g < groups@.len() ==> (#[trigger] resolved@[g])@.len()
                == groups@[g].files@.len(),
    ensures
        notes_outcome(notes) == read_result(
            Listing { workspace: workspace@, start, end, filter: group_id },
            groups@,
            times_of(resolved@),
        ),
{
    let workspace_name = match file_name(workspace) {
        Ok(name) => name,
        Err(error) => {
            return Err(error);
        },
    };
    let ghost asked = Listing { workspace: workspace@, start, end, filter: group_id };
    let ghost steps = group_steps(asked, groups@, times_of(resolved@));
    let mut list: Vec<ObsidianNote> = Vec::new();
    let mut index: usize = 0;
    proof {
        lemma_gather_start(steps);
        assert(list.deep_view() =~= Seq::<NoteView>::empty());
    }
    while index < groups.len()
        invariant
            index <= groups.len(),
            path_file_name(workspace@) == Some(workspace_name@),
            resolved@.len() == groups@.len(),
            forall|g: int|
                0 <= g < groups@.len() ==> (#[trigger] resolved@[g])@.len()
                    == groups@[g].files@.len(),
            asked == (Listing { workspace: workspace@, start, end, filter: group_id }),
            steps == group_steps(asked, groups@, times_of(resolved@)),
            gather(steps) == after(list.deep_view(), gather(steps.skip(index as int))),
        decreases groups.len() - index,
    {
        let ghost before = list.deep_view();
        proof {
            lemma_gather_step(steps, before, index as int);
            assert(times_of(resolved@)[index as int] == resolved@[index as int]@);
        }
        let group_path = &groups[index];
        if is_plugin_path(group_path.path.as_str(), workspace) || group_path.is_file {
            assert(before + Seq::<NoteView>::empty() =~= before);
        } else {
            let directory_name = match file_name(group_path.path.as_str()) {
                Ok(name) => name,
                Err(error) => {
                    return Err(error);
                },
            };
            let group = group_name(workspace_name.as_str(), directory_name.as_str());
            let mut found = match list_group_notes(
                workspace,
                &group,
                &group_path.files,
                &resolved[index],
                start,
                end,
                group_id,
            ) {
                Ok(found) => found,
                Err(error) => {
                    return Err(error);
                },
            };
            let ghost added = found.deep_view();
            list.append(&mut found);
            assert(list.deep_view() =~= before + added);
        }
        index += 1;
    }
    proof {
        lemma_gather_end(steps, list.deep_view());
    }
    Ok(list)
}

/// Lists the notes of a workspace.
///
/// `groups` holds the entries directly under the workspace root, each with
/// the files found below it. A note is a regular file below a group, with
/// the note extension, neither directly under the root nor in the reserved
/// configuration directory. Its times are resolved from its header under
/// `created_key` and `updated_key`; it is listed where its creation time
/// lies strictly between `start` and `end` and its group passes the filter
/// `group_id`. A group is named by the final component of the workspace's
/// path and that of its own, each with whatever extension it has; a note
/// by the final component of its path without the extension. The call
/// fails if the workspace, a group, or a note in the window has no name,
/// or if the path of a note in the window is no text.
///
/// The times that the date parser reads out of a header are not fixed by
/// the text alone, so the result is stated for the times it gave: there
/// are times, resolved for each file, of which the result is the listing.
pub fn read(
    workspace: &str,
    groups: &Vec<GroupContent>,
    created_key: String,
    updated_key: String,
    start: i64,
    end: i64,
    group_id: Option<u32>,
) -> (notes: Result<Vec<ObsidianNote>, Error>)
    ensures
        exists|times: Seq<Seq<FileMetadata>>|
            all_resolve(groups@, created_key@, updated_key@, times) && notes_outcome(notes)
                == #[trigger] read_result(
                Listing { workspace: workspace@, start, end, filter: group_id },
                groups@,
                times,
            ),
{
    let resolved = resolve_groups(workspace, groups, &created_key, &updated_key);
    assert forall|g: int| 0 <= g < groups@.len() implies (#[trigger] resolved@[g])@.len()
        == groups@[g].files@.len() by {
        assert(times_of(resolved@)[g] == resolved@[g]@);
    }
    list_notes(workspace, groups, &resolved, start, end, group_id)
}

/// Whether a walk met a note among `entries`.
pub open spec fn holds_note(workspace: Seq<char>, entries: Seq<Entry>) -> bool {
    exists|e: int|
        0 <= e < entries.len() && is_note(
            (#[trigger] entries[e]).path@,
            workspace,
            entries[e].is_file,
        )
}

/// What the group lister makes of one entry under the workspace root:
/// nothing where it is no group, a failure where the workspace or the
/// group's directory has no name, the group where a note lies below it,
/// and nothing else.
pub open spec fn group_of(workspace: Seq<char>, listing: GroupListing) -> Result<
    Option<GroupView>,
    ErrorKind,
> {
    if !is_group(listing.path@, listing.is_file, workspace) {
        Ok(None)
    } else {
        match (path_file_name(workspace), path_file_name(listing.path@)) {
            (Some(workspace_name), Some(directory_name)) => if holds_note(
                workspace,
                listing.entries@,
            ) {
                Ok(
                    Some(
                        GroupView {
                            name: canonical_name(workspace_name, directory_name),
                            id: group_id(canonical_name(workspace_name, directory_name)),
                        },
                    ),
                )
            } else {
                Ok(None)
            },
            _ => Err(ErrorKind::FileStem),
        }
    }
}

/// What the group lister makes of each entry under the workspace root.
pub open spec fn listing_steps(workspace: Seq<char>, listings: Seq<GroupListing>) -> Seq<
    Result<Seq<GroupView>, ErrorKind>,
> {
    Seq::new(listings.len(), |l: int| single(group_of(workspace, listings[l])))
}

/// What the group lister returns for a workspace: a failure where the
/// workspace has no name, else the groups among the entries under the
/// root in their order, or the first failure among them.
pub open spec fn get_group_result(workspace: Seq<char>, listings: Seq<GroupListing>) -> Result<
    Seq<GroupView>,
    ErrorKind,
> {
    if path_file_name(workspace) is None {
        Err(ErrorKind::FileStem)
    } else {
        gather(listing_steps(workspace, listings))
    }
}

/// A result of the group lister, as the groups it holds or the kind of its failure.
pub open spec fn groups_outcome(result: Result<Vec<ObsidianGroup>, Error>) -> Result<
    Seq<GroupView>,
    ErrorKind,
> {
    match result {
        Ok(groups) => Ok(groups.deep_view()),
        Err(error) => Err(error.kind()),
    }
}

/// Whether a walk met a note among `entries`. The search stops at the first one.
fn has_note(workspace: &str, entries: &Vec<Entry>) -> (found: bool)
    ensures
        found == holds_note(workspace@, entries@),
{
    let mut index: usize = 0;
    while index < entries.len()
        invariant
            index <= entries.len(),
            forall|e: int|
                0 <= e < index ==> !is_note(
                    (#[trigger] entries@[e]).path@,
                    workspace@,
                    entries@[e].is_file,
                ),
        decreases entries.len() - index,
    {
        if is_note_path(entries[index].path.as_str(), workspace, entries[index].is_file) {
            return true;
        }
        index += 1;
    }
    false
}

/// Lists the groups of a workspace that hold at least one note.
///
/// `listings` holds the entries directly under the workspace root, each
/// with the entries that a walk below it met. A group is listed once,
/// under its canonical name and the id of that name, where a note lies
/// below it. The name is made of the final component of the workspace's
/// path and that of the group's, each with whatever extension it has. The
/// call fails if the workspace or a group has no such component.
pub fn get_group(workspace: &str, listings: &Vec<GroupListing>) -> (groups: Result<
    Vec<ObsidianGroup>,
    Error,
>)
    ensures
        groups_outcome(groups) == get_group_result(workspace@, listings@),
{
    let workspace_name = match file_name(workspace) {
        Ok(name) => name,
        Err(error) => {
            return Err(error);
        },
    };
    let ghost steps = listing_steps(workspace@, listings@);
    let mut list: Vec<ObsidianGroup> = Vec::new();
    let mut index: usize = 0;
    proof {
        lemma_gather_start(steps);
        assert(list.deep_view() =~= Seq::<GroupView>::empty());
    }
    while index < listings.len()
        invariant
            index <= listings.len(),
            path_file_name(workspace@) == Some(workspace_name@),
            steps == listing_steps(workspace@, listings@),
            gather(steps) == after(list.deep_view(), gather(steps.skip(index as int))),
        decreases listings.len() - index,
    {
        let ghost before = list.deep_view();
        proof {
            lemma_gather_step(steps, before, index as int);
            assert(before + Seq::<GroupView>::empty() =~= before);
        }
        let group_path = &listings[index];
        if !is_plugin_path(group_path.path.as_str(), workspace) && !group_path.is_file {
            let directory_name = match file_name(group_path.path.as_str()) {
                Ok(name) => name,
                Err(error) => {
                    return Err(error);
                },
            };
            let group = group_name(workspace_name.as_str(), directory_name.as_str());
            if has_note(workspace, &group_path.entries) {
                let found = ObsidianGroup { name: group.clone(), id: text_to_hash(group) };
                list.push(found);
                assert(list.deep_view() =~= before + seq![found@]);
            }
        }
        index += 1;
    }
    proof {
        lemma_gather_end(steps, list.deep_view());
    }
    Ok(list)
}

} // verus!
