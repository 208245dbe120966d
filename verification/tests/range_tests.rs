use oss_emulator::handlers::{copy_part_data, read_object, read_range_fits_exec, ObjectRead};
use oss_emulator::range::{content_range, parse_part_copy_range, parse_range, range_window, window_fits_exec};

#[test]
fn range_with_both_ends() {
    let r = parse_range("bytes=2-5", 10).unwrap();
    assert_eq!((r.start, r.end), (2, 5));
}

#[test]
fn open_range_ends_at_last_byte() {
    let r = parse_range("bytes=3-", 10).unwrap();
    assert_eq!((r.start, r.end), (3, 9));
}

#[test]
fn range_texts_that_are_not_read() {
    assert!(parse_range("items=1-2", 10).is_none());
    assert!(parse_range("bytes=12", 10).is_none());
    assert!(parse_range("bytes=a-2", 10).is_none());
    assert!(parse_range("bytes=1-b", 10).is_none());
    assert!(parse_range("bytes=-5", 10).is_none());
}

#[test]
fn repeated_prefix_is_removed() {
    let r = parse_range("bytes=bytes=1-2", 10).unwrap();
    assert_eq!((r.start, r.end), (1, 2));
}

#[test]
fn part_copy_range_reads_like_a_range() {
    let r = parse_part_copy_range("bytes=0-", 4).unwrap();
    assert_eq!((r.start, r.end), (0, 3));
    assert!(parse_part_copy_range("0-3", 4).is_none());
}

#[test]
fn window_is_cut_at_the_end_of_the_data() {
    assert_eq!(range_window(2, 5, 10), (2, 5));
    assert_eq!(range_window(2, 50, 10), (2, 10));
    assert!(window_fits_exec(0, 0, 0));
    assert!(!window_fits_exec(5, 2, 10));
    assert!(!window_fits_exec(-1, 2, 10));
}

#[test]
fn content_range_text() {
    assert_eq!(content_range(2, 5, 10), "bytes 2-4/10");
    assert_eq!(content_range(0, 10, 10), "bytes 0-9/10");
}

#[test]
fn whole_read_without_range() {
    let r = read_object(b"hello".to_vec(), &String::new(), None);
    match r {
        ObjectRead::Whole { data, content_type } => {
            assert_eq!(data, b"hello".to_vec());
            assert_eq!(content_type, "application/octet-stream");
        }
        _ => panic!("expected the whole object"),
    }
}

#[test]
fn ranged_read() {
    let range = "bytes=1-3".to_string();
    let r = read_object(b"hello".to_vec(), &"text/plain".to_string(), Some(&range));
    match r {
        ObjectRead::Part { data, content_type, content_range } => {
            assert_eq!(data, b"el".to_vec());
            assert_eq!(content_type, "text/plain");
            assert_eq!(content_range, "bytes 1-2/5");
        }
        _ => panic!("expected a part"),
    }
}

#[test]
fn open_range_stops_before_the_last_byte() {
    let range = "bytes=2-".to_string();
    let r = read_object(b"hello".to_vec(), &"text/plain".to_string(), Some(&range));
    match r {
        ObjectRead::Part { data, content_range, .. } => {
            // The end of the window is exclusive, so the last byte is left out.
            assert_eq!(data, b"ll".to_vec());
            assert_eq!(content_range, "bytes 2-3/5");
        }
        _ => panic!("expected a part"),
    }
}

#[test]
fn unreadable_range_reads_whole() {
    let range = "lines=1-2".to_string();
    match read_object(b"abc".to_vec(), &String::new(), Some(&range)) {
        ObjectRead::Whole { data, .. } => assert_eq!(data, b"abc".to_vec()),
        _ => panic!("expected the whole object"),
    }
}

#[test]
fn backward_range_cannot_be_served() {
    let range = "bytes=4-1".to_string();
    assert!(!read_range_fits_exec(5, Some(&range)));
    assert!(read_range_fits_exec(5, None));
    let ok = "bytes=1-3".to_string();
    assert!(read_range_fits_exec(5, Some(&ok)));
}

#[test]
fn part_copy_takes_the_window() {
    let range = "bytes=1-2".to_string();
    assert_eq!(copy_part_data(b"abcdef".to_vec(), Some(&range)), b"b".to_vec());
    assert_eq!(copy_part_data(b"abcdef".to_vec(), None), b"abcdef".to_vec());
}

#[test]
fn closed_range_on_the_smallest_file_size() {
    let r = parse_range("bytes=0-5", i64::MIN).unwrap();
    assert_eq!((r.start, r.end), (0, 5));
    let r = parse_part_copy_range("bytes=0-4", 10).unwrap();
    assert_eq!((r.start, r.end), (0, 4));
}
