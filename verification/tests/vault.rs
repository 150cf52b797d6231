use jot::dir::{Child, Directory, Node};
use jot::error::Error;
use jot::vault::{Vault, VaultEntry};

fn entry(filename: &str, content: &str) -> VaultEntry {
    VaultEntry { filename: filename.to_string(), content: content.to_string() }
}

#[test]
fn load_vault() {
    let mut dir: Option<Directory> = None;

    Vault::write_entry(&mut dir, &entry("01-01-23.md", "Test content 1")).unwrap();
    Vault::write_entry(&mut dir, &entry("02-01-23.md", "Test content 2")).unwrap();
    Vault::write_entry(&mut dir, &entry("invalid.txt", "Should not be loaded")).unwrap();

    let vault = Vault::load(&mut dir);

    assert_eq!(
        vault.entries(),
        &[entry("01-01-23.md", "Test content 1"), entry("02-01-23.md", "Test content 2"),]
    );
}

#[test]
fn write_entry() {
    let mut dir: Option<Directory> = None;

    Vault::write_entry(&mut dir, &entry("01-01-23.md", "Test content")).unwrap();

    let content = dir.unwrap().read_file(&"01-01-23.md".to_string()).unwrap().clone();
    assert_eq!(content.as_str(), "Test content");
}

#[test]
fn load_mixed_directory() {
    let dir = Directory {
        children: vec![
            Child { name: "01-01-23.md".to_string(), node: Node::File("a".to_string()) },
            Child { name: "02-01-23.md".to_string(), node: Node::File("b".to_string()) },
            Child { name: "readme.txt".to_string(), node: Node::File("c".to_string()) },
        ],
    };
    let mut state = Some(dir);

    let vault = Vault::load(&mut state);

    assert_eq!(vault.entries(), &[entry("01-01-23.md", "a"), entry("02-01-23.md", "b"),]);
}

#[test]
fn load_nonexistent_directory() {
    let mut state: Option<Directory> = None;

    let vault = Vault::load(&mut state);

    assert!(state.is_some());
    assert!(vault.entries().is_empty());
}

#[test]
fn load_empty_directory() {
    let mut state = Some(Directory { children: vec![] });

    let vault = Vault::load(&mut state);

    assert!(vault.entries().is_empty());
}

#[test]
fn load_skips_directory_with_matching_name() {
    let dir = Directory {
        children: vec![
            Child { name: "01-01-23.md".to_string(), node: Node::Other },
            Child { name: "02-02-24.md".to_string(), node: Node::File("kept".to_string()) },
        ],
    };
    let mut state = Some(dir);

    let vault = Vault::load(&mut state);

    assert_eq!(vault.entries(), &[entry("02-02-24.md", "kept")]);
}

#[test]
fn write_overwrites_entirely() {
    let mut state: Option<Directory> = None;

    Vault::write_entry(&mut state, &entry("03-04-25.md", "a much longer first draft")).unwrap();
    Vault::write_entry(&mut state, &entry("03-04-25.md", "ab")).unwrap();

    let dir = state.unwrap();
    let content = dir.read_file(&"03-04-25.md".to_string()).unwrap();
    assert_eq!(content.as_str(), "ab");
    assert_eq!(dir.children.len(), 1);
}

#[test]
fn write_non_matching_name_is_invisible_to_load() {
    let mut state: Option<Directory> = None;

    Vault::write_entry(&mut state, &entry("notes.txt", "hidden")).unwrap();

    let vault = Vault::load(&mut state);
    assert!(vault.entries().is_empty());

    let dir = state.as_ref().unwrap();
    let content = dir.read_file(&"notes.txt".to_string()).unwrap();
    assert_eq!(content.as_str(), "hidden");
}

#[test]
fn write_matching_name_round_trips() {
    let mut state: Option<Directory> = None;

    Vault::write_entry(&mut state, &entry("12-31-99.md", "new year")).unwrap();

    let vault = Vault::load(&mut state);
    assert!(vault.entries().contains(&entry("12-31-99.md", "new year")));
}

#[test]
fn write_over_non_file_fails() {
    let dir = Directory {
        children: vec![Child { name: "01-01-23.md".to_string(), node: Node::Other }],
    };
    let mut state = Some(dir);

    let result = Vault::write_entry(&mut state, &entry("01-01-23.md", "content"));

    assert!(matches!(result, Err(Error::Io(_))));
    assert_eq!(state.unwrap().children, vec![Child {
        name: "01-01-23.md".to_string(),
        node: Node::Other,
    }]);
}
