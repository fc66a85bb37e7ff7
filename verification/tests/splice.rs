use rust_roller::service::insert_before;
use rust_roller::service::splice::find_marker;

#[test]
fn absent_marker_returns_source_unchanged() {
    let source = b"<html><body>nothing here</body></html>";
    assert_eq!(insert_before(source, b"MARK", b"X"), source.to_vec());
    assert_eq!(find_marker(source, b"MARK"), None);
}

#[test]
fn data_goes_in_before_the_marker() {
    let result = insert_before(b"<html><head>MARK</head></html>", b"MARK", b"X");
    assert_eq!(result, b"<html><head>XMARK</head></html>".to_vec());
}

#[test]
fn result_is_head_data_tail() {
    let source = b"0123456789";
    let data = b"<script></script>";
    let result = insert_before(source, b"56", data);
    let mut expected = source[..5].to_vec();
    expected.extend_from_slice(data);
    expected.extend_from_slice(&source[5..]);
    assert_eq!(result, expected);
    assert_eq!(result.len(), source.len() + data.len());
    assert_eq!(find_marker(source, b"56"), Some(5));
}

#[test]
fn only_the_first_occurrence_is_used() {
    let result = insert_before(b"a</body>b</body>c", b"</body>", b"+");
    assert_eq!(result, b"a+</body>b</body>c".to_vec());
    assert_eq!(find_marker(b"a</body>b</body>c", b"</body>"), Some(1));
}

#[test]
fn overlapping_occurrences_split_at_the_earliest() {
    assert_eq!(insert_before(b"aaa", b"aa", b"-"), b"-aaa".to_vec());
    assert_eq!(insert_before(b"abababc", b"ababc", b"|"), b"ab|ababc".to_vec());
}

#[test]
fn empty_marker_never_matches() {
    assert_eq!(insert_before(b"abc", b"", b"X"), b"abc".to_vec());
    assert_eq!(insert_before(b"", b"", b"X"), Vec::<u8>::new());
    assert_eq!(find_marker(b"abc", b""), None);
}

#[test]
fn empty_source_is_returned_empty() {
    assert_eq!(insert_before(b"", b"MARK", b"X"), Vec::<u8>::new());
}

#[test]
fn marker_longer_than_source_does_not_match() {
    assert_eq!(insert_before(b"MAR", b"MARK", b"X"), b"MAR".to_vec());
    assert_eq!(find_marker(b"MAR", b"MARK"), None);
}

#[test]
fn marker_at_the_start_and_at_the_end() {
    assert_eq!(insert_before(b"MARKtail", b"MARK", b"in"), b"inMARKtail".to_vec());
    assert_eq!(insert_before(b"headMARK", b"MARK", b"in"), b"headinMARK".to_vec());
    assert_eq!(insert_before(b"MARK", b"MARK", b"in"), b"inMARK".to_vec());
    assert_eq!(find_marker(b"headMARK", b"MARK"), Some(4));
}

#[test]
fn partial_match_before_the_marker_is_skipped() {
    assert_eq!(insert_before(b"MARMARK", b"MARK", b"_"), b"MAR_MARK".to_vec());
}

#[test]
fn empty_data_leaves_the_source_as_it_is() {
    assert_eq!(insert_before(b"headMARKtail", b"MARK", b""), b"headMARKtail".to_vec());
}

#[test]
fn bytes_are_not_read_as_text() {
    let source = [0xff, 0x00, 0xc3, 0xa9, 0x80, 0x00, 0xc3, 0xa9];
    let result = insert_before(&source, &[0xa9, 0x80], &[0x01, 0x02]);
    assert_eq!(result, vec![0xff, 0x00, 0xc3, 0x01, 0x02, 0xa9, 0x80, 0x00, 0xc3, 0xa9]);
    assert_eq!(insert_before(&source, &[0xc3, 0xa9], &[0xfe]).len(), source.len() + 1);
}
