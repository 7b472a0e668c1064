use tull::session::{
    data_dir_path, directories_from, directories_under, get_session_id, line_record, meta_dir_path, read_lines,
    resolve_session_id, server_log_path, session_path, user_directories,
};

fn assert_generated_shape(id: &str) {
    let chars: Vec<char> = id.chars().collect();
    assert_eq!(chars.len(), 36);
    for (i, c) in chars.iter().enumerate() {
        match i {
            8 | 13 | 18 | 23 => assert_eq!(*c, '-'),
            14 => assert_eq!(*c, '4'),
            19 => assert!(matches!(*c, '8' | '9' | 'a' | 'b')),
            _ => assert!(matches!(*c, '0'..='9' | 'a'..='f')),
        }
    }
}

#[test]
fn directory_paths_lie_below_home() {
    assert_eq!(data_dir_path("/home/op"), "/home/op/.tull/data");
    assert_eq!(meta_dir_path("/home/op"), "/home/op/.tull/meta");
    let dirs = directories_under("/root");
    assert_eq!(dirs.data, "/root/.tull/data");
    assert_eq!(dirs.meta, "/root/.tull/meta");
}

#[test]
fn directories_are_given_exactly_where_home_is_known() {
    let dirs = directories_from(Some("/home/op".to_string())).unwrap();
    assert_eq!(dirs.data, "/home/op/.tull/data");
    assert_eq!(dirs.meta, "/home/op/.tull/meta");
    assert_eq!(directories_from(Some(String::new())), Some(directories_under("")));
    assert_eq!(directories_from(None), None);
}

#[test]
fn user_directories_share_one_home() {
    if let Some(dirs) = user_directories() {
        assert!(dirs.data.ends_with("/.tull/data"));
        assert!(dirs.meta.ends_with("/.tull/meta"));
        let home = &dirs.data[..dirs.data.len() - "/.tull/data".len()];
        assert_eq!(dirs.meta, format!("{}/.tull/meta", home));
    }
}

#[test]
fn server_log_lies_in_meta_directory() {
    assert_eq!(server_log_path("/home/op/.tull/meta"), "/home/op/.tull/meta/server.log");
}

#[test]
fn session_file_is_named_by_its_id() {
    assert_eq!(session_path("/data", "abc"), "/data/abc");
    assert_eq!(session_path("/home/op/.tull/data", "my session"), "/home/op/.tull/data/my session");
}

#[test]
fn generated_id_is_a_hyphenated_random_uuid() {
    for _ in 0..20 {
        assert_generated_shape(&get_session_id());
    }
}

#[test]
fn generated_ids_differ() {
    let first = get_session_id();
    let second = get_session_id();
    assert_ne!(first, second);
}

#[test]
fn requested_id_is_kept() {
    assert_eq!(resolve_session_id(Some("notes".to_string())), "notes");
}

#[test]
fn missing_id_is_generated() {
    assert_generated_shape(&resolve_session_id(None));
}

#[test]
fn record_is_line_and_line_feed() {
    assert_eq!(line_record("hello"), "hello\n");
    assert_eq!(line_record(""), "\n");
}

#[test]
fn read_lines_of_missing_file_is_none() {
    assert_eq!(read_lines(None), None);
}

#[test]
fn read_lines_splits_at_line_feeds() {
    assert_eq!(read_lines(Some("a\nb")), Some(vec!["a".to_string(), "b".to_string()]));
}

#[test]
fn read_lines_has_empty_last_line_after_final_line_feed() {
    assert_eq!(
        read_lines(Some("a\nb\n")),
        Some(vec!["a".to_string(), "b".to_string(), String::new()])
    );
    assert_eq!(read_lines(Some("")), Some(vec![String::new()]));
}

#[test]
fn records_read_back_as_the_lines_and_one_empty_line() {
    let lines = ["first", "", "third line"];
    let mut content = String::new();
    for line in lines {
        content.push_str(&line_record(line));
    }
    let read = read_lines(Some(&content)).unwrap();
    assert_eq!(read, vec!["first", "", "third line", ""]);
}
