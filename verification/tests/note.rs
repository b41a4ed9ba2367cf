use obsidian_index::error::ErrorKind;
use obsidian_index::group::text_to_hash;
use obsidian_index::metadata::{FileMetadata, NoteFile};
use obsidian_index::note::{
    get_group, note_record, read, Entry, GroupContent, GroupListing, ObsidianNote,
};

fn file(path: &str, created: u128) -> NoteFile {
    NoteFile {
        path: path.to_string(),
        path_is_text: true,
        is_file: true,
        content: "plain text\n".to_string(),
        created,
        modified: created + 1,
    }
}

fn content(path: &str, files: Vec<NoteFile>) -> GroupContent {
    GroupContent { path: path.to_string(), is_file: false, files }
}

fn entry(path: &str, is_file: bool) -> Entry {
    Entry { path: path.to_string(), is_file }
}

fn listing(path: &str, is_file: bool, entries: Vec<Entry>) -> GroupListing {
    GroupListing { path: path.to_string(), is_file, entries }
}

fn vault() -> Vec<GroupContent> {
    vec![
        content(
            "/vault/work",
            vec![
                file("/vault/work/plan.md", 1_000),
                file("/vault/work/deep/budget-2023.md", 2_000),
                file("/vault/work/picture.png", 3_000),
            ],
        ),
        content("/vault/.obsidian", vec![file("/vault/.obsidian/plugins/readme.md", 4_000)]),
        GroupContent {
            path: "/vault/top.md".to_string(),
            is_file: true,
            files: vec![file("/vault/top.md", 5_000)],
        },
        content("/vault/home", vec![file("/vault/home/diary.md", 6_000)]),
        content("/vault/empty", vec![]),
    ]
}

fn list(start: i64, end: i64, group_id: Option<u32>) -> Vec<ObsidianNote> {
    read("/vault", &vault(), "created".to_string(), "updated".to_string(), start, end, group_id)
        .unwrap()
}

fn paths(notes: &[ObsidianNote]) -> Vec<&str> {
    notes.iter().map(|note| note.path.as_str()).collect()
}

#[test]
fn read_lists_every_note_once_in_the_widest_window() {
    let notes = list(-1, i64::MAX, None);
    assert_eq!(
        paths(&notes),
        vec!["/vault/work/plan.md", "/vault/work/deep/budget-2023.md", "/vault/home/diary.md"]
    );
    for note in &notes {
        assert!(note.created != 0);
        assert!(note.updated != 0);
    }
}

#[test]
fn read_fills_every_field_of_a_record() {
    let notes = list(-1, i64::MAX, None);
    let note = &notes[1];
    assert_eq!(note.name, "budget-2023");
    assert_eq!(note.path, "/vault/work/deep/budget-2023.md");
    assert_eq!(note.created, 2_000);
    assert_eq!(note.updated, 2_001);
    assert_eq!(note.group, "vault/work");
    assert_eq!(note.group_id, text_to_hash("vault/work".to_string()));
    assert_eq!(note.group_id, 63522701);
    assert_eq!(notes[2].group, "vault/home");
}

#[test]
fn read_leaves_out_both_bounds_of_the_window() {
    assert_eq!(paths(&list(1_000, 6_000, None)), vec!["/vault/work/deep/budget-2023.md"]);
    assert_eq!(paths(&list(999, 2_000, None)), vec!["/vault/work/plan.md"]);
    assert_eq!(paths(&list(1_999, 2_001, None)), vec!["/vault/work/deep/budget-2023.md"]);
    assert!(list(2_000, 2_000, None).is_empty());
    assert!(list(2_000, 2_001, None).is_empty());
    assert!(list(6_000, i64::MAX, None).is_empty());
}

#[test]
fn read_keeps_only_the_group_asked_for() {
    let home = text_to_hash("vault/home".to_string());
    assert_eq!(paths(&list(-1, i64::MAX, Some(home))), vec!["/vault/home/diary.md"]);
    let work = text_to_hash("vault/work".to_string());
    assert_eq!(list(-1, i64::MAX, Some(work)).len(), 2);
    let other = text_to_hash("vault/other".to_string());
    assert!(list(-1, i64::MAX, Some(other)).is_empty());
}

#[test]
fn read_never_lists_what_lies_in_the_config_directory() {
    let notes = list(i64::MIN, i64::MAX, None);
    assert!(notes.iter().all(|note| !note.path.contains(".obsidian")));
}

#[test]
fn read_passes_over_a_config_file_handed_in_under_a_group() {
    let groups = vec![content(
        "/vault/work",
        vec![file("/vault/.obsidian/notes/inner.md", 1_000), file("/vault/work/plan.md", 2_000)],
    )];
    let notes =
        read("/vault", &groups, "created".to_string(), "updated".to_string(), -1, i64::MAX, None)
            .unwrap();
    assert_eq!(paths(&notes), vec!["/vault/work/plan.md"]);
}

#[test]
fn read_never_lists_files_directly_under_the_root() {
    let groups = vec![content(
        "/vault/work",
        vec![file("/vault/top.md", 1_000), file("/vault/work/plan.md", 2_000)],
    )];
    let notes =
        read("/vault", &groups, "created".to_string(), "updated".to_string(), -1, i64::MAX, None)
            .unwrap();
    assert_eq!(paths(&notes), vec!["/vault/work/plan.md"]);
}

#[test]
fn read_takes_the_creation_time_from_the_header() {
    let mut dated = file("/vault/work/dated.md", 1_000);
    dated.content = "---\ncreated: \"2023-01-01T00:00:00Z\"\n---\nbody\n".to_string();
    let mut broken = file("/vault/work/broken.md", 2_000);
    broken.content = "---\ncreated: \"the day before yesterday\"\n---\nbody\n".to_string();
    let groups = vec![content("/vault/work", vec![dated, broken])];
    let notes =
        read("/vault", &groups, "created".to_string(), "updated".to_string(), -1, i64::MAX, None)
            .unwrap();
    assert_eq!(notes.len(), 2);
    assert_eq!(notes[0].created, 1_672_531_200_000);
    assert_eq!(notes[0].updated, 1_001);
    assert_eq!(notes[1].created, 2_000);
    let early =
        read("/vault", &groups, "created".to_string(), "updated".to_string(), -1, 3_000, None)
            .unwrap();
    assert_eq!(paths(&early), vec!["/vault/work/broken.md"]);
}

#[test]
fn read_fails_when_the_workspace_has_no_name() {
    let err = read("/", &vault(), "created".to_string(), "updated".to_string(), -1, 10, None)
        .unwrap_err();
    assert_eq!(err.kind(), ErrorKind::FileStem);
    assert_eq!(err.message(), "file_stem error");
}

#[test]
fn read_fails_when_a_group_has_no_name() {
    let groups = vec![
        content("/vault/work", vec![file("/vault/work/plan.md", 1_000)]),
        content("/vault/work/..", vec![]),
    ];
    let err = read("/vault", &groups, "created".to_string(), "updated".to_string(), -1, 10, None)
        .unwrap_err();
    assert_eq!(err.kind(), ErrorKind::FileStem);
}

#[test]
fn read_of_an_empty_workspace_is_empty() {
    let notes =
        read("/vault", &Vec::new(), "created".to_string(), "updated".to_string(), -1, 10, None)
            .unwrap();
    assert!(notes.is_empty());
}

#[test]
fn note_record_decides_on_one_file() {
    let group = "vault/work".to_string();
    let note = file("/vault/work/plan.md", 0);
    let at = |created: i64| FileMetadata { created, updated: 7 };
    let listed = note_record("/vault", &group, &note, at(11), 10, 20, None).unwrap().unwrap();
    assert_eq!(listed.name, "plan");
    assert_eq!(listed.path, "/vault/work/plan.md");
    assert_eq!(listed.created, 11);
    assert_eq!(listed.updated, 7);
    assert_eq!(listed.group, "vault/work");
    assert_eq!(listed.group_id, 63522701);
    assert!(note_record("/vault", &group, &note, at(10), 10, 20, None).unwrap().is_none());
    assert!(note_record("/vault", &group, &note, at(20), 10, 20, None).unwrap().is_none());
    assert!(note_record("/vault", &group, &note, at(19), 10, 20, None).unwrap().is_some());
    assert!(note_record("/vault", &group, &note, at(11), 10, 20, Some(63522701))
        .unwrap()
        .is_some());
    assert!(note_record("/vault", &group, &note, at(11), 10, 20, Some(1)).unwrap().is_none());
    let folder = NoteFile { is_file: false, ..file("/vault/work/plan.md", 0) };
    assert!(note_record("/vault", &group, &folder, at(11), 10, 20, None).unwrap().is_none());
}

#[test]
fn get_group_lists_the_groups_that_hold_a_note() {
    let listings = vec![
        listing(
            "/vault/work",
            false,
            vec![
                entry("/vault/work", false),
                entry("/vault/work/deep", false),
                entry("/vault/work/deep/budget-2023.md", true),
                entry("/vault/work/plan.md", true),
            ],
        ),
        listing("/vault/.obsidian", false, vec![entry("/vault/.obsidian/readme.md", true)]),
        listing("/vault/top.md", true, vec![entry("/vault/top.md", true)]),
        listing(
            "/vault/pictures",
            false,
            vec![entry("/vault/pictures", false), entry("/vault/pictures/cat.png", true)],
        ),
        listing("/vault/empty", false, vec![entry("/vault/empty", false)]),
        listing("/vault/home.dir", false, vec![entry("/vault/home.dir/diary.md", true)]),
    ];
    let groups = get_group("/vault", &listings).unwrap();
    assert_eq!(groups.len(), 2);
    assert_eq!(groups[0].name, "vault/work");
    assert_eq!(groups[0].id, text_to_hash("vault/work".to_string()));
    assert_eq!(groups[0].id, 63522701);
    assert_eq!(groups[1].name, "vault/home.dir");
    assert_eq!(groups[1].id, text_to_hash("vault/home.dir".to_string()));
}

#[test]
fn get_group_does_not_count_what_lies_in_the_config_directory() {
    let listings = vec![listing(
        "/vault/work",
        false,
        vec![entry("/vault/.obsidian/inner.md", true), entry("/vault/top.md", true)],
    )];
    assert!(get_group("/vault", &listings).unwrap().is_empty());
}

#[test]
fn get_group_does_not_count_a_directory_named_like_a_note() {
    let listings = vec![listing(
        "/vault/work",
        false,
        vec![entry("/vault/work", false), entry("/vault/work/folder.md", false)],
    )];
    assert!(get_group("/vault", &listings).unwrap().is_empty());
}

#[test]
fn get_group_fails_when_a_name_is_missing() {
    let listings = vec![listing("/vault/work", false, vec![entry("/vault/work/a.md", true)])];
    assert_eq!(get_group("/", &listings).unwrap_err().kind(), ErrorKind::FileStem);
    let unnamed = vec![listing("/vault/..", false, vec![])];
    assert_eq!(get_group("/vault", &unnamed).unwrap_err().kind(), ErrorKind::FileStem);
    assert!(get_group("/vault", &Vec::new()).unwrap().is_empty());
}

#[test]
fn get_group_names_a_group_by_the_whole_name_of_its_directory() {
    let listings = vec![
        listing("/vault/dev/proj.v1", false, vec![entry("/vault/dev/proj.v1/a.md", true)]),
        listing("/vault/dev/proj.v2", false, vec![entry("/vault/dev/proj.v2/a.md", true)]),
    ];
    let groups = get_group("/vault/dev", &listings).unwrap();
    assert_eq!(groups.len(), 2);
    assert_eq!(groups[0].name, "dev/proj.v1");
    assert_eq!(groups[1].name, "dev/proj.v2");
    assert_eq!(groups[0].id, text_to_hash("dev/proj.v1".to_string()));
    assert_eq!(groups[1].id, text_to_hash("dev/proj.v2".to_string()));
    assert_ne!(groups[0].id, groups[1].id);
    let dotted = get_group("/vault/dev.old", &listings[..1].iter().map(|l| listing(
        "/vault/dev.old/proj.v1",
        l.is_file,
        vec![entry("/vault/dev.old/proj.v1/a.md", true)],
    )).collect()).unwrap();
    assert_eq!(dotted[0].name, "dev.old/proj.v1");
}

#[test]
fn read_names_a_group_by_the_whole_name_of_its_directory() {
    let groups = vec![
        content("/vault/dev/proj.v1", vec![file("/vault/dev/proj.v1/plan.v3.md", 1_000)]),
        content("/vault/dev/proj.v2", vec![file("/vault/dev/proj.v2/plan.v3.md", 2_000)]),
    ];
    let run = |group_id: Option<u32>| {
        let keys = ("created".to_string(), "updated".to_string());
        read("/vault/dev", &groups, keys.0, keys.1, -1, 9_000, group_id).unwrap()
    };
    let notes = run(None);
    assert_eq!(notes.len(), 2);
    assert_eq!(notes[0].group, "dev/proj.v1");
    assert_eq!(notes[1].group, "dev/proj.v2");
    assert_eq!(notes[0].name, "plan.v3");
    assert_eq!(notes[1].group_id, text_to_hash("dev/proj.v2".to_string()));
    let second = run(Some(text_to_hash("dev/proj.v2".to_string())));
    assert_eq!(paths(&second), vec!["/vault/dev/proj.v2/plan.v3.md"]);
    assert!(run(Some(text_to_hash("dev/proj".to_string()))).is_empty());
}

#[test]
fn read_fails_on_a_note_in_the_window_whose_path_is_no_text() {
    let odd = NoteFile { path_is_text: false, ..file("/vault/work/caf\u{fffd}.md", 5_000) };
    let groups = vec![content("/vault/work", vec![file("/vault/work/plan.md", 1_000), odd])];
    let run = |start: i64, end: i64, group_id: Option<u32>| {
        read("/vault", &groups, "created".to_string(), "updated".to_string(), start, end, group_id)
    };
    assert_eq!(paths(&run(-1, 5_000, None).unwrap()), vec!["/vault/work/plan.md"]);
    let err = run(-1, 5_001, None).unwrap_err();
    assert_eq!(err.kind(), ErrorKind::InvalidPath);
    assert_eq!(err.message(), "invalid path");
    assert_eq!(run(-1, 5_001, Some(1)).unwrap_err().kind(), ErrorKind::InvalidPath);
    let folder = NoteFile { is_file: false, ..file("/vault/work/caf\u{fffd}.md", 5_000) };
    let skipped = vec![content("/vault/work", vec![NoteFile { path_is_text: false, ..folder }])];
    let notes =
        read("/vault", &skipped, "created".to_string(), "updated".to_string(), -1, 9_000, None);
    assert!(notes.unwrap().is_empty());
}
