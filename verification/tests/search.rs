use obsidian_index::error::ErrorKind;
use obsidian_index::metadata::{FileMetadata, NoteFile};
use obsidian_index::pattern::Pattern;
use obsidian_index::search::{note_items, search, SearchItem};

fn file(path: &str, content: &str, created: u128) -> NoteFile {
    NoteFile {
        path: path.to_string(),
        path_is_text: true,
        is_file: true,
        content: content.to_string(),
        created,
        modified: created + 1,
    }
}

fn vault() -> Vec<NoteFile> {
    vec![
        file("/vault/work/budget-2023.md", "income\nexpenses in 2023\nsavings", 1_000),
        file("/vault/work/plan.md", "say hello world\nand goodbye\nhello  world\n", 2_000),
        file("/vault/.obsidian/hello-2023.md", "hello world 2023\n", 3_000),
        file("/vault/hello-2023.md", "hello world 2023\n", 4_000),
        file("/vault/home/hello.txt", "hello world 2023\n", 5_000),
        NoteFile { is_file: false, ..file("/vault/home/2023.md", "hello world 2023\n", 6_000) },
    ]
}

fn find(pattern: &str, start: Option<i64>, end: Option<i64>) -> Vec<SearchItem> {
    search(
        pattern.to_string(),
        "/vault",
        &vault(),
        "created".to_string(),
        "updated".to_string(),
        start,
        end,
    )
    .unwrap()
}

fn shape(items: &[SearchItem]) -> Vec<(&str, &str, &str)> {
    items
        .iter()
        .map(|item| (item.target.as_str(), item.path.as_str(), item.matched.as_str()))
        .collect()
}

#[test]
fn search_matches_the_file_name() {
    let items = find("2023", None, None);
    assert_eq!(
        shape(&items),
        vec![
            ("filename", "/vault/work/budget-2023.md", "budget-2023"),
            ("content", "/vault/work/budget-2023.md", "expenses in 2023\n"),
        ]
    );
    assert_eq!(items[0].metadata, FileMetadata { created: 1_000, updated: 1_001 });
    assert_eq!(items[1].metadata, FileMetadata { created: 1_000, updated: 1_001 });
}

#[test]
fn search_matches_the_file_name_with_its_extension() {
    let items = find(r"plan\.md$", None, None);
    assert_eq!(shape(&items), vec![("filename", "/vault/work/plan.md", "plan")]);
    assert!(find("^work", None, None).is_empty());
}

#[test]
fn search_matches_lines_of_the_content() {
    let items = find("wor.d", None, None);
    assert_eq!(
        shape(&items),
        vec![
            ("content", "/vault/work/plan.md", "say hello world\n"),
            ("content", "/vault/work/plan.md", "hello  world\n"),
        ]
    );
    let last = find("^savings$", None, None);
    assert_eq!(shape(&last), vec![("content", "/vault/work/budget-2023.md", "savings")]);
}

#[test]
fn search_passes_over_what_is_no_note() {
    let items = find("hello", None, None);
    assert!(items.iter().all(|item| item.path == "/vault/work/plan.md"));
    assert_eq!(items.len(), 2);
}

#[test]
fn search_window_holds_both_bounds() {
    assert_eq!(find("e", Some(1_000), Some(1_000)).len(), 3);
    assert_eq!(find("e", Some(1_000), Some(2_000)).len(), 6);
    assert_eq!(find("e", Some(1_001), Some(2_000)).len(), 3);
    assert_eq!(find("e", Some(1_000), Some(1_999)).len(), 3);
    assert_eq!(find("e", Some(1_001), Some(1_999)).len(), 0);
    assert_eq!(find("e", Some(2_000), None).len(), 3);
    assert_eq!(find("e", None, Some(1_000)).len(), 3);
    assert_eq!(find("e", None, Some(999)).len(), 0);
}

#[test]
fn search_starts_at_the_epoch_where_no_start_is_given() {
    let mut old = file("/vault/work/old.md", "old note\n", 1_000);
    old.content = "---\ncreated: \"1969-12-31T23:59:59Z\"\n---\nold note\n".to_string();
    let files = vec![old, file("/vault/work/epoch.md", "old note\n", 0)];
    let run = |start: Option<i64>| {
        search(
            "old".to_string(),
            "/vault",
            &files,
            "created".to_string(),
            "updated".to_string(),
            start,
            None,
        )
        .unwrap()
    };
    let from_epoch = run(None);
    assert_eq!(shape(&from_epoch), vec![("content", "/vault/work/epoch.md", "old note\n")]);
    let earlier = run(Some(-1_000));
    assert_eq!(earlier.len(), 3);
    assert_eq!(earlier[0].metadata.created, -1_000);
    assert_eq!(earlier[0].target, "filename");
    assert_eq!(earlier[0].matched, "old");
}

#[test]
fn search_fails_at_once_on_a_pattern_that_does_not_compile() {
    let result = search(
        "(unclosed".to_string(),
        "/",
        &vault(),
        "created".to_string(),
        "updated".to_string(),
        None,
        None,
    );
    let err = result.unwrap_err();
    assert_eq!(err.kind(), ErrorKind::GrepRegex);
    assert!(!err.message().is_empty());
}

#[test]
fn search_uses_the_pattern_as_it_is() {
    assert_eq!(find("budget.2023", None, None).len(), 1);
    assert_eq!(find(r"budget\.2023", None, None).len(), 0);
    assert_eq!(find("HELLO", None, None).len(), 0);
    assert_eq!(find("(?i)HELLO", None, None).len(), 2);
}

#[test]
fn search_gives_no_line_of_a_content_with_a_zero_byte() {
    let content = "first line\nsecond\0 line\nthird line\n";
    let files = vec![file("/vault/work/mixed.md", content, 1_000)];
    let items = search(
        "line".to_string(),
        "/vault",
        &files,
        "created".to_string(),
        "updated".to_string(),
        None,
        None,
    )
    .unwrap();
    assert!(items.is_empty());
    let named = search(
        "mixed".to_string(),
        "/vault",
        &files,
        "created".to_string(),
        "updated".to_string(),
        None,
        None,
    )
    .unwrap();
    assert_eq!(shape(&named), vec![("filename", "/vault/work/mixed.md", "mixed")]);
}

#[test]
fn pattern_compiles_and_matches() {
    let pattern = Pattern::new("wor.d").unwrap();
    assert!(pattern.is_match(b"hello world"));
    assert!(!pattern.is_match(b"hello word"));
    assert!(!pattern.is_match(b""));
    assert_eq!(pattern.lines(b"a word\nthe world\nworld's end").unwrap(), vec![
        "the world\n".to_string(),
        "world's end".to_string()
    ]);
    assert!(pattern.lines(b"").unwrap().is_empty());
    assert_eq!(Pattern::new("[a-").unwrap_err().kind(), ErrorKind::GrepRegex);
}

#[test]
fn note_items_decides_on_one_file() {
    let pattern = Pattern::new("plan").unwrap();
    let note = file("/vault/work/plan.md", "the plan\nnothing\n", 0);
    let at = |created: i64| FileMetadata { created, updated: 7 };
    let items = note_items(&pattern, "/vault", &note, at(15), Some(10), Some(20)).unwrap();
    assert_eq!(
        shape(&items),
        vec![
            ("filename", "/vault/work/plan.md", "plan"),
            ("content", "/vault/work/plan.md", "the plan\n"),
        ]
    );
    assert_eq!(items[0].metadata, at(15));
    assert_eq!(note_items(&pattern, "/vault", &note, at(10), Some(10), Some(20)).unwrap().len(), 2);
    assert_eq!(note_items(&pattern, "/vault", &note, at(20), Some(10), Some(20)).unwrap().len(), 2);
    assert_eq!(note_items(&pattern, "/vault", &note, at(9), Some(10), Some(20)).unwrap().len(), 0);
    assert_eq!(note_items(&pattern, "/vault", &note, at(21), Some(10), Some(20)).unwrap().len(), 0);
    assert_eq!(note_items(&pattern, "/vault", &note, at(-1), None, None).unwrap().len(), 0);
    assert_eq!(note_items(&pattern, "/vault", &note, at(0), None, None).unwrap().len(), 2);
    assert_eq!(
        note_items(&pattern, "/vault", &note, at(i64::MAX), None, None).unwrap().len(),
        2
    );
    assert_eq!(note_items(&pattern, "/vault/work", &note, at(0), None, None).unwrap().len(), 0);
}

#[test]
fn search_fails_on_a_note_in_the_window_whose_path_is_no_text() {
    let odd =
        NoteFile { path_is_text: false, ..file("/vault/work/caf\u{fffd}.md", "plan\n", 5_000) };
    let files = vec![file("/vault/work/plan.md", "the plan\n", 1_000), odd];
    let run = |start: Option<i64>, end: Option<i64>| {
        search(
            "plan".to_string(),
            "/vault",
            &files,
            "created".to_string(),
            "updated".to_string(),
            start,
            end,
        )
    };
    assert_eq!(run(None, Some(4_999)).unwrap().len(), 2);
    assert_eq!(run(None, Some(5_000)).unwrap_err().kind(), ErrorKind::InvalidPath);
    assert_eq!(run(Some(5_000), None).unwrap_err().message(), "invalid path");
}
