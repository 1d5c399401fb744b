use gitph::status::{
    has_staged_changes, parse_porcelain_output, parse_status_char, ChangeType, FileStatus,
    GitStatus,
};

#[test]
fn empty_input_gives_empty_state() {
    let st = parse_porcelain_output("");
    assert_eq!(st.branch_info, "");
    assert_eq!(st.files.len(), 0);
}

#[test]
fn header_prefix_is_stripped() {
    let st = parse_porcelain_output("## main...origin/main [ahead 1]");
    assert_eq!(st.branch_info, "main...origin/main [ahead 1]");
    assert_eq!(st.files.len(), 0);
}

#[test]
fn header_without_prefix_is_kept_verbatim() {
    let st = parse_porcelain_output("stray first line");
    assert_eq!(st.branch_info, "stray first line");
}

#[test]
fn one_record_per_valid_line() {
    let st = parse_porcelain_output("## main\nM  a.rs\nA  b.rs\n?? c.txt");
    assert_eq!(st.branch_info, "main");
    assert_eq!(st.files.len(), 3);
    assert_eq!(st.files[0].path, "a.rs");
    assert_eq!(st.files[0].staged_status, Some(ChangeType::Modified));
    assert_eq!(st.files[0].unstaged_status, None);
    assert_eq!(st.files[1].path, "b.rs");
    assert_eq!(st.files[1].staged_status, Some(ChangeType::Added));
    assert_eq!(st.files[2].path, "c.txt");
    assert_eq!(st.files[2].staged_status, Some(ChangeType::Untracked));
    assert_eq!(st.files[2].unstaged_status, Some(ChangeType::Untracked));
}

#[test]
fn short_lines_are_skipped() {
    let st = parse_porcelain_output("## main\nM\n\nA  b.rs");
    assert_eq!(st.files.len(), 1);
    assert_eq!(st.files[0].path, "b.rs");
}

#[test]
fn trailing_newline_adds_no_record() {
    let st = parse_porcelain_output("## main\nM  a.rs\n");
    assert_eq!(st.files.len(), 1);
}

#[test]
fn unknown_codes_decode_to_no_change() {
    let st = parse_porcelain_output("## main\nZZ strange.txt");
    assert_eq!(st.files.len(), 1);
    assert_eq!(st.files[0].path, "strange.txt");
    assert_eq!(st.files[0].staged_status, None);
    assert_eq!(st.files[0].unstaged_status, None);
}

#[test]
fn rename_line_is_reformatted() {
    let st = parse_porcelain_output("## main\nR  old.txt -> new.txt");
    assert_eq!(st.files.len(), 1);
    assert_eq!(st.files[0].path, "new.txt (renamed from old.txt)");
    assert_eq!(st.files[0].staged_status, Some(ChangeType::Renamed));
    assert_eq!(st.files[0].unstaged_status, None);
}

#[test]
fn unstaged_rename_is_reformatted_too() {
    let st = parse_porcelain_output("## main\n R a -> b");
    assert_eq!(st.files[0].path, "b (renamed from a)");
    assert_eq!(st.files[0].staged_status, None);
    assert_eq!(st.files[0].unstaged_status, Some(ChangeType::Renamed));
}

#[test]
fn malformed_rename_is_kept_verbatim() {
    let st = parse_porcelain_output("## main\nR  justonepath");
    assert_eq!(st.files.len(), 1);
    assert_eq!(st.files[0].path, "justonepath");
    assert_eq!(st.files[0].staged_status, Some(ChangeType::Renamed));
}

fn kind_char(k: Option<ChangeType>) -> char {
    match k {
        None => ' ',
        Some(ChangeType::Added) => 'A',
        Some(ChangeType::Modified) => 'M',
        Some(ChangeType::Deleted) => 'D',
        Some(ChangeType::Renamed) => 'R',
        Some(ChangeType::Copied) => 'C',
        Some(ChangeType::TypeChanged) => 'T',
        Some(ChangeType::Unmerged) => 'U',
        Some(ChangeType::Untracked) => '?',
    }
}

#[test]
fn round_trip_of_known_triples() {
    let triples: Vec<(&str, Option<ChangeType>, Option<ChangeType>)> = vec![
        ("src/lib.rs", Some(ChangeType::Modified), None),
        ("tools/gen.sh", Some(ChangeType::Added), Some(ChangeType::Modified)),
        ("notes.txt", None, Some(ChangeType::Deleted)),
        ("data.bin", Some(ChangeType::Untracked), Some(ChangeType::Untracked)),
        ("Makefile", Some(ChangeType::TypeChanged), Some(ChangeType::Unmerged)),
        ("LICENSE", Some(ChangeType::Copied), None),
    ];
    let mut text = String::from("## work");
    for (path, staged, unstaged) in &triples {
        text.push('\n');
        text.push(kind_char(*staged));
        text.push(kind_char(*unstaged));
        text.push(' ');
        text.push_str(path);
    }
    let st = parse_porcelain_output(&text);
    assert_eq!(st.branch_info, "work");
    assert_eq!(st.files.len(), triples.len());
    for (i, (path, staged, unstaged)) in triples.iter().enumerate() {
        assert_eq!(st.files[i].path, *path);
        assert_eq!(st.files[i].staged_status, *staged);
        assert_eq!(st.files[i].unstaged_status, *unstaged);
    }
}

#[test]
fn status_char_table_is_total() {
    assert_eq!(parse_status_char('A'), Some(ChangeType::Added));
    assert_eq!(parse_status_char('M'), Some(ChangeType::Modified));
    assert_eq!(parse_status_char('D'), Some(ChangeType::Deleted));
    assert_eq!(parse_status_char('R'), Some(ChangeType::Renamed));
    assert_eq!(parse_status_char('C'), Some(ChangeType::Copied));
    assert_eq!(parse_status_char('T'), Some(ChangeType::TypeChanged));
    assert_eq!(parse_status_char('U'), Some(ChangeType::Unmerged));
    assert_eq!(parse_status_char('?'), Some(ChangeType::Untracked));
    assert_eq!(parse_status_char(' '), None);
    assert_eq!(parse_status_char('Z'), None);
    assert_eq!(parse_status_char('%'), None);
}

#[test]
fn staged_changes_are_detected() {
    let none_staged = GitStatus {
        branch_info: String::from("main"),
        files: vec![
            FileStatus {
                path: String::from("a"),
                staged_status: None,
                unstaged_status: Some(ChangeType::Modified),
            },
        ],
    };
    assert!(!has_staged_changes(&none_staged));
    let one_staged = GitStatus {
        branch_info: String::from("main"),
        files: vec![
            FileStatus {
                path: String::from("a"),
                staged_status: None,
                unstaged_status: Some(ChangeType::Modified),
            },
            FileStatus {
                path: String::from("b"),
                staged_status: Some(ChangeType::Added),
                unstaged_status: None,
            },
        ],
    };
    assert!(has_staged_changes(&one_staged));
    let empty = GitStatus { branch_info: String::new(), files: vec![] };
    assert!(!has_staged_changes(&empty));
}
