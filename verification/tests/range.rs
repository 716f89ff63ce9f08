use parallel_fetch::{create_ranges, FetchError, Range};

#[test]
fn range_with_0_chunks() {
    let ranges = create_ranges(100, 0);
    let error = ranges.expect_err("testing");
    assert_eq!(
        error.description(),
        "Number of fetches must be greater than zero".to_owned(),
    );
}

#[test]
fn range_with_2_chunks() {
    let ranges = create_ranges(100, 2).unwrap();

    assert_eq!(
        ranges,
        vec![Range { start: 0, end: 49 }, Range { start: 50, end: 99 }]
    );
}

#[test]
fn range_with_uneven_chunks() {
    let ranges = create_ranges(10, 3).unwrap();

    assert_eq!(
        ranges,
        vec![
            Range { start: 0, end: 2 },
            Range { start: 3, end: 5 },
            Range { start: 6, end: 9 }
        ]
    );
}

#[test]
fn range_with_single_chunk() {
    let ranges = create_ranges(1, 1).unwrap();
    assert_eq!(ranges, vec![Range { start: 0, end: 0 }]);
}

#[test]
fn range_covers_content_exactly() {
    let ranges = create_ranges(1000, 7).unwrap();
    assert_eq!(ranges.len(), 7);
    assert_eq!(ranges[0].start, 0);
    assert_eq!(ranges[6].end, 999);
    for i in 0..6 {
        assert_eq!(ranges[i].end + 1, ranges[i + 1].start);
        assert!(ranges[i].start <= ranges[i].end);
    }
}

#[test]
fn range_with_zero_content_length() {
    let error = create_ranges(0, 3).expect_err("testing");
    assert!(matches!(error, FetchError::InvalidArgumentsError(_)));
}

#[test]
fn range_with_more_chunks_than_bytes() {
    let error = create_ranges(2, 5).expect_err("testing");
    assert!(matches!(error, FetchError::InvalidArgumentsError(_)));
}
