use timesman::client::pane::start::{pane_start, PaneStore, PaneStoreKind};
use timesman::client::preview::{lines_of, preview_lines, row_excerpt, text_preview, text_summary, PreviewLine};
use timesman::types::{File, FileType};

#[test]
fn lines_follow_str_lines() {
    assert_eq!(lines_of("a\r\nb\n\nc\n"), vec!["a", "b", "", "c"]);
    assert_eq!(lines_of("x\ry"), vec!["x\ry"]);
    assert_eq!(lines_of("end\r"), vec!["end\r"]);
    assert!(lines_of("").is_empty());
    assert_eq!(lines_of("\n"), vec![""]);
}

#[test]
fn json_is_pretty_printed() {
    let r = preview_lines("data.json", "{\"b\":1,\"a\":[true]}");
    assert_eq!(r, vec![PreviewLine::Text("{\n  \"a\": [\n    true\n  ],\n  \"b\": 1\n}".to_string())]);
    let r = preview_lines("data.json", "{not json");
    assert_eq!(r, vec![PreviewLine::Text("{not json".to_string())]);
}

#[test]
fn markdown_lines_by_prefix() {
    let r = preview_lines("notes.md", "# Title\n## Sub\n- one\n* two\n  \t\nplain\n#nospace");
    assert_eq!(
        r,
        vec![
            PreviewLine::Heading("Title".to_string()),
            PreviewLine::Strong("Sub".to_string()),
            PreviewLine::Bullet("one".to_string()),
            PreviewLine::Bullet("two".to_string()),
            PreviewLine::Space,
            PreviewLine::Text("plain".to_string()),
            PreviewLine::Text("#nospace".to_string()),
        ]
    );
    assert_eq!(preview_lines("x.markdown", "# H"), vec![PreviewLine::Heading("H".to_string())]);
}

#[test]
fn code_lines_are_numbered_and_others_plain() {
    let r = preview_lines("main.rs", "fn main() {\n}\n");
    assert_eq!(r, vec![PreviewLine::Numbered(1, "fn main() {".to_string()), PreviewLine::Numbered(2, "}".to_string())]);
    assert_eq!(preview_lines("a.cpp", "x"), vec![PreviewLine::Numbered(1, "x".to_string())]);
    assert_eq!(preview_lines("a.txt", "x\ny"), vec![PreviewLine::Text("x\ny".to_string())]);
}

#[test]
fn summary_and_excerpt() {
    let s = text_summary("héllo\nworld");
    assert_eq!(s.lines, 2);
    assert_eq!(s.characters, 12);
    assert_eq!(s.bytes, 12);
    assert_eq!(row_excerpt("1\n2\n3\n4"), "1\n2\n3\n...");
    assert_eq!(row_excerpt("1\n2\n3\n"), "1\n2\n3");
    assert_eq!(row_excerpt(""), "");
    let f = File { name: "a.md".to_string(), ftype: FileType::Text("# T".to_string()) };
    let (sum, lines) = text_preview(&f).unwrap();
    assert_eq!(sum.lines, 1);
    assert_eq!(lines, vec![PreviewLine::Heading("T".to_string())]);
    let img = File { name: "a.png".to_string(), ftype: FileType::Image(vec![1, 2]) };
    assert!(text_preview(&img).is_none());
}

#[test]
fn start_pane_needs_files_for_sqlite() {
    assert_eq!(
        pane_start(PaneStoreKind::Sqlite, Some("db".to_string()), None, false, "s"),
        Err("db file or path is not specified".to_string())
    );
    assert_eq!(
        pane_start(PaneStoreKind::Sqlite, Some("db".to_string()), Some("dir".to_string()), true, "127.0.0.1:8080"),
        Ok((PaneStore::Sqlite("db".to_string(), "dir".to_string()), Some("127.0.0.1:8080".to_string())))
    );
    assert_eq!(pane_start(PaneStoreKind::Memory, None, None, false, "s"), Ok((PaneStore::Memory, None)));
}
