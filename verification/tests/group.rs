use obsidian_index::group::{group_name, text_to_hash};
use std::collections::hash_map::DefaultHasher;
use std::hash::{Hash, Hasher};

fn independent_id(name: &str) -> u32 {
    let mut hasher = DefaultHasher::new();
    name.to_string().hash(&mut hasher);
    hasher.finish() as u32
}

#[test]
fn group_id_is_the_truncated_default_hash() {
    assert_eq!(text_to_hash("vault/work".to_string()), independent_id("vault/work"));
    assert_eq!(text_to_hash("".to_string()), independent_id(""));
    assert_eq!(text_to_hash("dev/笔记".to_string()), independent_id("dev/笔记"));
}

#[test]
fn group_id_has_the_known_values() {
    assert_eq!(text_to_hash("vault/work".to_string()), 63522701);
    assert_eq!(text_to_hash("dev/notes".to_string()), 3709313542);
    assert_eq!(text_to_hash("".to_string()), 600129007);
}

#[test]
fn group_id_is_the_same_on_every_call() {
    let first = text_to_hash("vault/work".to_string());
    let second = text_to_hash("vault/work".to_string());
    assert_eq!(first, second);
    assert_ne!(first, text_to_hash("vault/home".to_string()));
}

#[test]
fn group_name_joins_workspace_and_directory_with_a_slash() {
    assert_eq!(group_name("vault", "work"), "vault/work");
    assert_eq!(group_name("", ""), "/");
    assert_eq!(group_name("a/b", "c"), "a/b/c");
}
