use lorelei::modules::music::providers::ytdlp::{PlaylistItem, YtDlp};

fn item(url: &str) -> PlaylistItem {
    PlaylistItem {
        url: url.to_string(),
        title: format!("title of {}", url),
        duration: 60,
        uploader: "someone".to_string(),
    }
}

#[test]
fn entries_are_the_non_empty_lines() {
    let out = b"{\"a\":1}\n{\"b\":2}\n";
    let e = YtDlp::playlist_entries(out);
    assert_eq!(e, vec![b"{\"a\":1}".to_vec(), b"{\"b\":2}".to_vec()]);
}

#[test]
fn empty_lines_are_skipped() {
    let e = YtDlp::playlist_entries(b"\n\nx\n\ny\n\n");
    assert_eq!(e, vec![b"x".to_vec(), b"y".to_vec()]);
    assert!(YtDlp::playlist_entries(b"").is_empty());
    assert!(YtDlp::playlist_entries(b"\n\n\n").is_empty());
}

#[test]
fn last_line_needs_no_newline() {
    let e = YtDlp::playlist_entries(b"first\nsecond");
    assert_eq!(e, vec![b"first".to_vec(), b"second".to_vec()]);
}

#[test]
fn entries_keep_every_byte_but_newlines() {
    let out: &[u8] = b"ab\n\ncd\r\nef\n";
    let e = YtDlp::playlist_entries(out);
    let joined: Vec<u8> = e.concat();
    let expected: Vec<u8> = out.iter().copied().filter(|b| *b != b'\n').collect();
    assert_eq!(joined, expected);
    for entry in &e {
        assert!(!entry.is_empty());
        assert!(!entry.contains(&b'\n'));
    }
}

#[test]
fn items_keep_the_parsed_lines_in_order() {
    let parsed = vec![Some(item("u1")), None, Some(item("u2")), None, Some(item("u3"))];
    let items = YtDlp::playlist_items(parsed);
    assert_eq!(items, vec![item("u1"), item("u2"), item("u3")]);
}

#[test]
fn items_of_nothing_parsed_are_none() {
    assert!(YtDlp::playlist_items(vec![None, None]).is_empty());
    assert!(YtDlp::playlist_items(vec![]).is_empty());
}
