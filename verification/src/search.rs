//! The search engine: notes whose file name or content matches a pattern.

use crate::error::{Error, ErrorKind};
use crate::gather::{after, gather, lemma_gather_end, lemma_gather_start, lemma_gather_step};
use crate::metadata::{file_system_times, get_metadata, resolves, FileMetadata, NoteFile};
use crate::path::{file_stem, is_note, is_note_path, name_of, path_file_name, path_file_stem};
use crate::pattern::{matched_lines, pattern_compiles, pattern_matches, Pattern};
use vstd::prelude::*;
use vstd::string::StringExecFns;
use vstd::utf8::encode_utf8;

verus! {

/// The target of a match in a note's file name.
pub const TARGET_FILENAME: &'static str = "filename";

/// The target of a match in a note's content.
pub const TARGET_CONTENT: &'static str = "content";

/// One match of a search.
#[derive(Debug)]
pub struct SearchItem {
    pub path: String,
    pub matched: String,
    pub target: String,
    pub metadata: FileMetadata,
}

/// What a match of a search holds.
pub struct SearchItemView {
    pub path: Seq<char>,
    pub matched: Seq<char>,
    pub target: Seq<char>,
    pub metadata: FileMetadata,
}

impl View for SearchItem {
    type V = SearchItemView;

    open spec fn view(&self) -> SearchItemView {
        SearchItemView {
            path: self.path@,
            matched: self.matched@,
            target: self.target@,
            metadata: self.metadata,
        }
    }
}

impl DeepView for SearchItem {
    type V = SearchItemView;

    open spec fn deep_view(&self) -> SearchItemView {
        self@
    }
}

/// The item for a match in the name of the note at `path`, named `name`.
pub open spec fn filename_item(
    path: Seq<char>,
    name: Seq<char>,
    metadata: FileMetadata,
) -> SearchItemView {
    SearchItemView { path, matched: name, target: TARGET_FILENAME@, metadata }
}

/// The item for a matching line in the content of the note at `path`.
pub open spec fn content_item(
    path: Seq<char>,
    line: Seq<char>,
    metadata: FileMetadata,
) -> SearchItemView {
    SearchItemView { path, matched: line, target: TARGET_CONTENT@, metadata }
}

/// The items for matching lines in the content of the note at `path`, in their order.
pub open spec fn content_items(
    path: Seq<char>,
    lines: Seq<Seq<char>>,
    metadata: FileMetadata,
) -> Seq<SearchItemView> {
    Seq::new(lines.len(), |l: int| content_item(path, lines[l], metadata))
}

/// The lower bound of the search's window: `start`, or 0 where none is given.
pub open spec fn lower_bound(start: Option<i64>) -> i64 {
    match start {
        Some(bound) => bound,
        None => 0,
    }
}

/// The upper bound of the search's window: `end`, or the largest time
/// where none is given.
pub open spec fn upper_bound(end: Option<i64>) -> i64 {
    match end {
        Some(bound) => bound,
        None => i64::MAX,
    }
}

/// Whether a time lies inside the window of the search. Both bounds are
/// part of it.
pub open spec fn in_range(created: i64, start: Option<i64>, end: Option<i64>) -> bool {
    lower_bound(start) <= created && created <= upper_bound(end)
}

/// The file name that the pattern is tried on: the final component of the
/// path, or the whole path where it has none.
pub open spec fn file_name_of(path: Seq<char>) -> Seq<char> {
    match path_file_name(path) {
        Some(name) => name,
        None => path,
    }
}

/// What a search is asked for: the pattern, the workspace, and the bounds
/// of the window of creation times that are given.
pub struct Query {
    pub pattern: Seq<char>,
    pub workspace: Seq<char>,
    pub start: Option<i64>,
    pub end: Option<i64>,
}

/// Whether the search looks into a file: it is a note whose creation time
/// lies in the window.
pub open spec fn is_searched(asked: Query, file: NoteFile, times: FileMetadata) -> bool {
    is_note(file.path@, asked.workspace, file.is_file) && in_range(
        times.created,
        asked.start,
        asked.end,
    )
}

/// What the search makes of one file: nothing where it does not look into
/// it; else an item for the file name where the pattern matches it,
/// followed by an item for each matching line of the content. A failure
/// where the note's path is no text, where the name matches and the note
/// has no name, or where the content cannot be read through.
pub open spec fn items_of(asked: Query, file: NoteFile, times: FileMetadata) -> Result<
    Seq<SearchItemView>,
    ErrorKind,
> {
    if !is_searched(asked, file, times) {
        Ok(Seq::empty())
    } else if !file.path_is_text {
        Err(ErrorKind::InvalidPath)
    } else {
        let name_matches = pattern_matches(asked.pattern, encode_utf8(file_name_of(file.path@)));
        if name_matches && path_file_stem(file.path@) is None {
            Err(ErrorKind::FileStem)
        } else {
            match matched_lines(asked.pattern, encode_utf8(file.content@)) {
                None => Err(ErrorKind::Io),
                Some(lines) => Ok(
                    (if name_matches {
                        seq![filename_item(file.path@, path_file_stem(file.path@)->0, times)]
                    } else {
                        Seq::empty()
                    }) + content_items(file.path@, lines, times),
                ),
            }
        }
    }
}

/// What the search makes of each file. `times` holds the resolved times
/// of each file, at the file's index.
pub open spec fn item_steps(asked: Query, files: Seq<NoteFile>, times: Seq<FileMetadata>) -> Seq<
    Result<Seq<SearchItemView>, ErrorKind>,
> {
    Seq::new(files.len(), |f: int| items_of(asked, files[f], times[f]))
}

/// What the search returns for files that have the resolved times
/// `times`: a failure where the pattern does not compile, else the items
/// of the files in their order, or the first failure among them.
pub open spec fn search_result(
    asked: Query,
    files: Seq<NoteFile>,
    times: Seq<FileMetadata>,
) -> Result<Seq<SearchItemView>, ErrorKind> {
    if !pattern_compiles(asked.pattern) {
        Err(ErrorKind::GrepRegex)
    } else {
        gather(item_steps(asked, files, times))
    }
}

/// Whether `times` holds, for each file, times that the resolver can give for it.
pub open spec fn each_resolves(
    files: Seq<NoteFile>,
    created_key: Seq<char>,
    updated_key: Seq<char>,
    times: Seq<FileMetadata>,
) -> bool {
    &&& times.len() == files.len()
    &&& forall|f: int|
        0 <= f < files.len() ==> resolves(#[trigger] files[f], created_key, updated_key, times[f])
}

/// A result of the search, as the items it holds or the kind of its failure.
pub open spec fn items_outcome(result: Result<Vec<SearchItem>, Error>) -> Result<
    Seq<SearchItemView>,
    ErrorKind,
> {
    match result {
        Ok(items) => Ok(items.deep_view()),
        Err(error) => Err(error.kind()),
    }
}

/// Collects the matches in the content of one note.
struct ObsidianSink {
    path: String,
    results: Vec<SearchItem>,
    metadata: FileMetadata,
}

impl ObsidianSink {
    /// Takes one matching line and asks for the next.
    fn matched(&mut self, line: &String) -> (proceed: bool)
        ensures
            proceed,
            final(self).path == old(self).path,
            final(self).metadata == old(self).metadata,
            final(self).results.deep_view() == old(self).results.deep_view().push(
                content_item(old(self).path@, line@, old(self).metadata),
            ),
    {
        let ghost before = self.results.deep_view();
        let item = SearchItem {
            path: self.path.clone(),
            matched: line.clone(),
            target: String::from_str(TARGET_CONTENT),
            metadata: self.metadata,
        };
        self.results.push(item);
        assert(self.results.deep_view() =~= before.push(item@));
        true
    }
}

/// Searches one file whose resolved times are `metadata`: decides whether
/// the search looks into it, and collects the items it gives.
pub fn note_items(
    pattern: &Pattern,
    workspace: &str,
    file: &NoteFile,
    metadata: FileMetadata,
    start: Option<i64>,
    end: Option<i64>,
) -> (items: Result<Vec<SearchItem>, Error>)
    ensures
        items_outcome(items) == items_of(
            Query { pattern: pattern.text(), workspace: workspace@, start, end },
            *file,
            metadata,
        ),
{
    let mut list: Vec<SearchItem> = Vec::new();
    assert(list.deep_view() =~= Seq::<SearchItemView>::empty());
    let path = file.path.as_str();
    if !is_note_path(path, workspace, file.is_file) {
        return Ok(list);
    }
    let start = start.unwrap_or(0);
    let end = end.unwrap_or(i64::MAX);
    let is_outside_range = metadata.created < start || metadata.created > end;
    if is_outside_range {
        return Ok(list);
    }
    if !file.path_is_text {
        return Err(Error::InvalidPath);
    }
    let mut sink = ObsidianSink { path: file.path.clone(), results: Vec::new(), metadata };
    let file_name = match name_of(path) {
        Some(name) => name,
        None => file.path.clone(),
    };
    let is_file_name_match = pattern.is_match(file_name.as_str().as_bytes());
    if is_file_name_match {
        let matched = match file_stem(path) {
            Ok(name) => name,
            Err(error) => {
                return Err(error);
            },
        };
        list.push(
            SearchItem {
                path: file.path.clone(),
                matched,
                target: String::from_str(TARGET_FILENAME),
                metadata,
            },
        );
    }
    let lines = match pattern.lines(file.content.as_str().as_bytes()) {
        Ok(lines) => lines,
        Err(error) => {
            return Err(error);
        },
    };
    let ghost named = list.deep_view();
    assert(named =~= if is_file_name_match {
        seq![filename_item(file.path@, path_file_stem(file.path@)->0, metadata)]
    } else {
        Seq::empty()
    });
    let mut index: usize = 0;
    while index < lines.len()
        invariant
            index <= lines.len(),
            sink.path@ == file.path@,
            sink.metadata == metadata,
            sink.results.deep_view() == content_items(
                file.path@,
                lines.deep_view().take(index as int),
                metadata,
            ),
        decreases lines.len() - index,
    {
        sink.matched(&lines[index]);
        proof {
            let done = lines.deep_view().take(index as int);
            let next = lines.deep_view().take(index as int + 1);
            assert(lines.deep_view()[index as int] == lines@[index as int]@);
            assert(content_items(file.path@, next, metadata) =~= content_items(
                file.path@,
                done,
                metadata,
            ).push(content_item(file.path@, lines@[index as int]@, metadata)));
        }
        index += 1;
    }
    proof {
        assert(lines.deep_view().take(lines@.len() as int) =~= lines.deep_view());
    }
    let ghost found = sink.results.deep_view();
    list.append(&mut sink.results);
    assert(list.deep_view() =~= named + found);
    Ok(list)
}

/// Resolves the times of every file. Headers are read of notes outside
/// the reserved configuration directory only; the other files keep the
/// times of the file system.
fn resolve_searched(
    workspace: &str,
    files: &Vec<NoteFile>,
    created_key: &String,
    updated_key: &String,
) -> (times: Vec<FileMetadata>)
    ensures
        each_resolves(files@, created_key@, updated_key@, times@),
{
    let mut times: Vec<FileMetadata> = Vec::new();
    let mut index: usize = 0;
    while index < files.len()
        invariant
            index <= files.len(),
            times@.len() == index,
            forall|f: int|
                0 <= f < index ==> resolves(
                    #[trigger] files@[f],
                    created_key@,
                    updated_key@,
                    times@[f],
                ),
        decreases files.len() - index,
    {
        let file = &files[index];
        let path = file.path.as_str();
        let metadata = if is_note_path(path, workspace, file.is_file) {
            get_metadata(file, created_key.clone(), updated_key.clone())
        } else {
            FileMetadata::resolve(file.created, file.modified, None, None)
        };
        times.push(metadata);
        index += 1;
    }
    times
}

/// Searches files that have the resolved times `times`.
fn search_resolved(
    pattern: &Pattern,
    workspace: &str,
    files: &Vec<NoteFile>,
    times: &Vec<FileMetadata>,
    start: Option<i64>,
    end: Option<i64>,
) -> (items: Result<Vec<SearchItem>, Error>)
    requires
        times@.len() == files@.len(),
    ensures
        items_outcome(items) == gather(
            item_steps(
                Query { pattern: pattern.text(), workspace: workspace@, start, end },
                files@,
                times@,
            ),
        ),
{
    let ghost asked = Query { pattern: pattern.text(), workspace: workspace@, start, end };
    let ghost steps = item_steps(asked, files@, times@);
    let mut list: Vec<SearchItem> = Vec::new();
    let mut index: usize = 0;
    proof {
        lemma_gather_start(steps);
        assert(list.deep_view() =~= Seq::<SearchItemView>::empty());
    }
    while index < files.len()
        invariant
            index <= files.len(),
            times@.len() == files@.len(),
            asked == (Query { pattern: pattern.text(), workspace: workspace@, start, end }),
            steps == item_steps(asked, files@, times@),
            gather(steps) == after(list.deep_view(), gather(steps.skip(index as int))),
        decreases files.len() - index,
    {
        let ghost before = list.deep_view();
        proof {
            lemma_gather_step(steps, before, index as int);
        }
        let file = &files[index];
        let mut found = match note_items(pattern, workspace, file, times[index], start, end) {
            Ok(found) => found,
            Err(error) => {
                return Err(error);
            },
        };
        let ghost added = found.deep_view();
        list.append(&mut found);
        assert(list.deep_view() =~= before + added);
        index += 1;
    }
    proof {
        lemma_gather_end(steps, list.deep_view());
    }
    Ok(list)
}

/// Searches the notes of a workspace for a pattern.
///
/// `files` holds the files found in the workspace, in the order of the
/// walk. The search looks into each note outside the reserved
/// configuration directory whose creation time, resolved from its header
/// under `created_key`, lies between `start` and `end`, both included
/// (0 and the largest time where a bound is not given). Such a note gives
/// an item for its file name, where the pattern matches it, and then one
/// for each line of its content in which the pattern matches. The call
/// fails at once if the pattern does not compile, and later if the path
/// of a note in the window is no text, a matched note has no name, or a
/// content cannot be read through.
///
/// The times that the date parser reads out of a header are not fixed by
/// the text alone, so the result is stated for the times it gave: there
/// are times, resolved for each file, of which the result is the outcome.
pub fn search(
    pattern: String,
    workspace: &str,
    files: &Vec<NoteFile>,
    created_key: String,
    updated_key: String,
    start: Option<i64>,
    end: Option<i64>,
) -> (items: Result<Vec<SearchItem>, Error>)
    ensures
        exists|times: Seq<FileMetadata>|
            each_resolves(files@, created_key@, updated_key@, times) && items_outcome(items)
                == #[trigger] search_result(
                Query { pattern: pattern@, workspace: workspace@, start, end },
                files@,
                times,
            ),
{
    let ghost asked = Query { pattern: pattern@, workspace: workspace@, start, end };
    let matcher = match Pattern::new(pattern.as_str()) {
        Ok(matcher) => matcher,
        Err(error) => {
            proof {
                let untouched = Seq::new(files@.len(), |f: int| file_system_times(files@[f]));
                assert(each_resolves(files@, created_key@, updated_key@, untouched));
                assert(search_result(asked, files@, untouched) == Err::<
                    Seq<SearchItemView>,
                    ErrorKind,
                >(ErrorKind::GrepRegex));
            }
            return Err(error);
        },
    };
    let times = resolve_searched(workspace, files, &created_key, &updated_key);
    let items = search_resolved(&matcher, workspace, files, &times, start, end);
    assert(items_outcome(items) == search_result(asked, files@, times@));
    items
}

} // verus!
