//! What holds of every search.

use crate::error::ErrorKind;
use crate::gather::{
    comes_before, lemma_gather_fails, lemma_place_holds, lemma_place_is_taken, lemma_place_rises,
    place,
};
use crate::metadata::{FileMetadata, NoteFile};
use crate::note::in_window;
use crate::path::{is_markdown, is_note, is_plugin, path_file_stem, path_parent, path_same};
use crate::pattern::{matched_lines, pattern_compiles, pattern_matches};
use crate::search::{
    content_item, file_name_of, filename_item, in_range, is_searched, item_steps, items_of,
    lower_bound, search_result, upper_bound, Query, SearchItemView,
};
use vstd::prelude::*;
use vstd::utf8::encode_utf8;

verus! {

/// Whether the search gives `item` for `file`.
pub open spec fn finds(
    asked: Query,
    file: NoteFile,
    times: FileMetadata,
    item: SearchItemView,
) -> bool {
    items_of(asked, file, times) matches Ok(items) && items.contains(item)
}

/// Every item of a search comes from a file that was handed in: each item
/// stands among the items that the search gives for one of the files.
pub proof fn law_items_come_from_files(
    asked: Query,
    files: Seq<NoteFile>,
    times: Seq<FileMetadata>,
    list: Seq<SearchItemView>,
    k: int,
)
    requires
        search_result(asked, files, times) == Ok::<Seq<SearchItemView>, ErrorKind>(list),
        0 <= k < list.len(),
    ensures
        pattern_compiles(asked.pattern),
        0 <= place(item_steps(asked, files, times), k).0 < files.len(),
        finds(
            asked,
            files[place(item_steps(asked, files, times), k).0],
            times[place(item_steps(asked, files, times), k).0],
            list[k],
        ),
{
    let steps = item_steps(asked, files, times);
    lemma_place_holds(steps, k);
    let (f, j) = place(steps, k);
    assert(items_of(asked, files[f], times[f])->Ok_0[j] == list[k]);
}

/// The items of a search keep the order of the files and, for one file,
/// the order in which the search gives them: the file name first, then
/// the lines from top to bottom. So no match is reported twice.
pub proof fn law_items_keep_their_order(
    asked: Query,
    files: Seq<NoteFile>,
    times: Seq<FileMetadata>,
    list: Seq<SearchItemView>,
    first: int,
    second: int,
)
    requires
        search_result(asked, files, times) == Ok::<Seq<SearchItemView>, ErrorKind>(list),
        0 <= first < second < list.len(),
    ensures
        comes_before(
            place(item_steps(asked, files, times), first),
            place(item_steps(asked, files, times), second),
        ),
{
    lemma_place_rises(item_steps(asked, files, times), first, second);
}

/// An item of a search belongs to a note in the window: its file is a
/// regular file with the note extension that lies neither directly under
/// the workspace root nor in the reserved configuration directory, and
/// its creation time lies between the bounds, both included. Its path is
/// text. The item holds the file's path and resolved times. It is either the item for the
/// file name, which the pattern matches and whose name it holds, or the
/// item for a line of the content in which the pattern matches.
pub proof fn law_item_belongs_to_a_note_in_the_window(
    asked: Query,
    file: NoteFile,
    times: FileMetadata,
    item: SearchItemView,
)
    requires
        finds(asked, file, times, item),
    ensures
        file.is_file,
        path_parent(file.path@) matches Some(parent) && !path_same(parent, asked.workspace),
        is_markdown(file.path@, asked.workspace, file.is_file),
        !is_plugin(file.path@, asked.workspace),
        lower_bound(asked.start) <= times.created <= upper_bound(asked.end),
        file.path_is_text,
        item.path == file.path@,
        item.metadata == times,
        ({
            &&& pattern_matches(asked.pattern, encode_utf8(file_name_of(file.path@)))
            &&& path_file_stem(file.path@) matches Some(name)
            &&& item == filename_item(file.path@, name, times)
        }) || ({
            &&& matched_lines(asked.pattern, encode_utf8(file.content@)) matches Some(lines)
            &&& exists|l: int|
                0 <= l < lines.len() && item == content_item(file.path@, #[trigger] lines[l], times)
        }),
{
    let items = items_of(asked, file, times)->Ok_0;
    let j = choose|j: int| 0 <= j < items.len() && items[j] == item;
    let lines = matched_lines(asked.pattern, encode_utf8(file.content@))->0;
    let named = pattern_matches(asked.pattern, encode_utf8(file_name_of(file.path@)));
    if !(named && j == 0) {
        let l = if named {
            j - 1
        } else {
            j
        };
        assert(item == content_item(file.path@, lines[l], times));
    }
}

/// Every match is reported: where a search succeeds, each item that the
/// search gives for one of the files is among its items.
pub proof fn law_every_match_is_reported(
    asked: Query,
    files: Seq<NoteFile>,
    times: Seq<FileMetadata>,
    list: Seq<SearchItemView>,
    f: int,
    item: SearchItemView,
)
    requires
        search_result(asked, files, times) == Ok::<Seq<SearchItemView>, ErrorKind>(list),
        0 <= f < files.len(),
        finds(asked, files[f], times[f], item),
    ensures
        list.contains(item),
{
    let items = items_of(asked, files[f], times[f])->Ok_0;
    let j = choose|j: int| 0 <= j < items.len() && items[j] == item;
    let k = lemma_place_is_taken(item_steps(asked, files, times), f, j);
    assert(list[k] == item);
}

/// What the search gives for a note it looks into: the item for the file
/// name where the pattern matches it, and an item for every line of the
/// content in which the pattern matches.
pub proof fn law_matches_of_a_searched_note(
    asked: Query,
    file: NoteFile,
    times: FileMetadata,
    l: int,
)
    requires
        is_searched(asked, file, times),
        items_of(asked, file, times) is Ok,
    ensures
        pattern_matches(asked.pattern, encode_utf8(file_name_of(file.path@))) ==> (path_file_stem(
            file.path@,
        ) matches Some(name) && finds(asked, file, times, filename_item(file.path@, name, times))),
        matched_lines(asked.pattern, encode_utf8(file.content@)) matches Some(lines) && (0 <= l
            < lines.len() ==> finds(asked, file, times, content_item(file.path@, lines[l], times))),
{
    let items = items_of(asked, file, times)->Ok_0;
    let lines = matched_lines(asked.pattern, encode_utf8(file.content@))->0;
    let named = pattern_matches(asked.pattern, encode_utf8(file_name_of(file.path@)));
    if named {
        assert(items[0] == filename_item(file.path@, path_file_stem(file.path@)->0, times));
    }
    if 0 <= l < lines.len() {
        let j = if named {
            l + 1
        } else {
            l
        };
        assert(items[j] == content_item(file.path@, lines[l], times));
    }
}

/// Whether the search can go through a file: where it is a note, it has a
/// name, its path is text and its content can be read through.
pub open spec fn can_be_searched(asked: Query, file: NoteFile) -> bool {
    is_note(file.path@, asked.workspace, file.is_file) ==> path_file_stem(file.path@) is Some
        && file.path_is_text && matched_lines(asked.pattern, encode_utf8(file.content@)) is Some
}

/// A search fails with `GrepRegex` exactly when the pattern does not
/// compile, whatever the files are. Any other failure is `InvalidPath`,
/// `FileStem` or `Io`. The search succeeds where the pattern compiles and
/// every note has a name, a path that is text and a content that can be
/// read through.
pub proof fn law_search_fails_first_on_the_pattern(
    asked: Query,
    files: Seq<NoteFile>,
    times: Seq<FileMetadata>,
)
    ensures
        search_result(asked, files, times) == Err::<Seq<SearchItemView>, ErrorKind>(
            ErrorKind::GrepRegex,
        ) <==> !pattern_compiles(asked.pattern),
        search_result(asked, files, times) matches Err(kind) ==> kind == ErrorKind::GrepRegex
            || kind == ErrorKind::InvalidPath || kind == ErrorKind::FileStem || kind
            == ErrorKind::Io,
        pattern_compiles(asked.pattern) && (forall|f: int|
            0 <= f < files.len() ==> can_be_searched(asked, #[trigger] files[f])) ==> search_result(
            asked,
            files,
            times,
        ) is Ok,
{
    let steps = item_steps(asked, files, times);
    lemma_gather_fails(steps);
    if forall|f: int| 0 <= f < files.len() ==> can_be_searched(asked, #[trigger] files[f]) {
        assert forall|f: int| 0 <= f < steps.len() implies (#[trigger] steps[f]) is Ok by {
            assert(can_be_searched(asked, files[f]));
        }
    }
}

/// The window of the search holds both of its bounds, where the window of
/// the note lister leaves them out: a time equal to the lower or to the
/// upper bound lies in the search's window, if the lower bound is not
/// above the upper, and lies outside the note lister's window with the
/// same bounds.
pub proof fn law_search_window_holds_its_bounds(created: i64, start: i64, end: i64)
    requires
        start <= end,
        created == start || created == end,
    ensures
        in_range(created, Some(start), Some(end)),
        !in_window(created, start, end),
{
}

/// A note created at a bound of the search's window is looked into.
pub proof fn law_search_looks_into_notes_at_the_bounds(
    asked: Query,
    file: NoteFile,
    times: FileMetadata,
)
    requires
        is_note(file.path@, asked.workspace, file.is_file),
        lower_bound(asked.start) <= upper_bound(asked.end),
        times.created == lower_bound(asked.start) || times.created == upper_bound(asked.end),
    ensures
        is_searched(asked, file, times),
{
}

} // verus!
