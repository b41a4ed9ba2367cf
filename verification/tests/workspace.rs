use obsidian_index::metadata::NoteFile;
use obsidian_index::note::{get_group, read, Entry, GroupContent, GroupListing};
use obsidian_index::search::search;

const WORKSPACE: &'static str = "E:\\obsidian workspace\\dev";

fn note(name: &str) -> NoteFile {
    NoteFile {
        path: format!("{}/daily/{}", WORKSPACE, name),
        path_is_text: true,
        is_file: true,
        content: "---\ncreated: 2024-01-11T10:00:00Z\n---\nstep 1\nstep two\n".to_string(),
        created: 1_700_000_000_000,
        modified: 1_700_000_000_001,
    }
}

#[test]
fn test_search() {
    let files = vec![note("day-1.md"), note("day-two.md")];
    let list = search(
        "1".to_string(),
        WORKSPACE,
        &files,
        "created".to_string(),
        "updated".to_string(),
        None,
        None,
    )
    .unwrap();
    println!("{:#?}", list);
    assert_eq!(list.len(), 5);
}

#[test]
fn test_get_group() {
    let listings = vec![GroupListing {
        path: format!("{}/daily", WORKSPACE),
        is_file: false,
        entries: vec![Entry { path: format!("{}/daily/day-1.md", WORKSPACE), is_file: true }],
    }];
    let list = get_group(WORKSPACE, &listings).unwrap();
    println!("{:#?}", list);
    assert_eq!(list.len(), 1);
}

#[test]
fn test_read() {
    let groups = vec![GroupContent {
        path: format!("{}/daily", WORKSPACE),
        is_file: false,
        files: vec![note("day-1.md"), note("day-two.md")],
    }];
    let list = read(
        WORKSPACE,
        &groups,
        "created".to_string(),
        "updated".to_string(),
        0,
        i64::MAX,
        None,
    )
    .unwrap();
    println!("{:#?}", list);
    assert_eq!(list.len(), 2);
}
