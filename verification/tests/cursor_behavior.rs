use mysql_cursor::CursorState;
use mysql_cursor::Error;
use mysql_cursor::FetchEvent;
use mysql_cursor::Fetched;
use mysql_cursor::MysqlType;
use mysql_cursor::StatementIterator;

fn row(cols: Vec<Option<Vec<u8>>>) -> FetchEvent {
    FetchEvent::Row(cols)
}

#[test]
fn iterating_two_rows_two_columns_then_exhaustion() {
    let mut it =
        StatementIterator::new(vec![MysqlType::Tiny, MysqlType::VarChar]).unwrap();
    assert_eq!(it.state, CursorState::Ready);

    let v = it.step(row(vec![Some(vec![1]), Some(b"abc".to_vec())]));
    assert!(matches!(v, Fetched::Row));
    {
        let mut r = it.row();
        assert_eq!(r.take(), Some(&[1u8][..]));
        assert_eq!(r.take(), Some(&b"abc"[..]));
    }

    let v = it.step(row(vec![Some(vec![2]), None]));
    assert!(matches!(v, Fetched::Row));
    {
        let mut r = it.row();
        assert_eq!(r.take(), Some(&[2u8][..]));
        assert_eq!(r.take(), None);
    }

    let v = it.step(FetchEvent::NoData);
    assert!(matches!(v, Fetched::End));
    assert_eq!(it.state, CursorState::Exhausted);

    let v = it.step(row(vec![Some(vec![3]), None]));
    assert!(matches!(v, Fetched::End));
    assert_eq!(it.state, CursorState::Exhausted);
}

#[test]
fn null_and_non_null_columns_read_back() {
    let mut it =
        StatementIterator::new(vec![MysqlType::VarChar, MysqlType::VarChar]).unwrap();
    let v = it.step(row(vec![None, Some(b"hello".to_vec())]));
    assert!(matches!(v, Fetched::Row));
    let mut r = it.row();
    assert_eq!(r.take(), None);
    assert_eq!(r.take(), Some(&b"hello"[..]));
}

#[test]
fn oversized_value_reads_back_in_full() {
    let long_value: Vec<u8> = (0..200u8).collect();
    let mut it = StatementIterator::new(vec![MysqlType::VarChar]).unwrap();
    let v = it.step(row(vec![Some(long_value.clone())]));
    assert!(matches!(v, Fetched::Row));
    let mut r = it.row();
    let got = r.take().expect("value column");
    assert_eq!(got.len(), 200);
    assert_eq!(got, &long_value[..]);
}

#[test]
fn next_is_null_reports_nulls_without_advancing() {
    let mut it = StatementIterator::new(vec![
        MysqlType::Tiny,
        MysqlType::VarChar,
        MysqlType::VarChar,
    ])
    .unwrap();
    let v = it.step(row(vec![Some(vec![9]), None, None]));
    assert!(matches!(v, Fetched::Row));
    let mut r = it.row();
    assert!(!r.next_is_null(1));
    assert!(!r.next_is_null(3));
    assert_eq!(r.take(), Some(&[9u8][..]));
    assert!(r.next_is_null(2));
    assert!(r.next_is_null(1));
    assert!(r.next_is_null(0));
    // the peeks above consumed nothing: the two nulls are still unread
    assert_eq!(r.take(), None);
    assert_eq!(r.take(), None);
}

#[test]
fn next_is_null_counts_columns_past_the_end_as_null() {
    let mut it = StatementIterator::new(vec![MysqlType::Tiny]).unwrap();
    let v = it.step(row(vec![None]));
    assert!(matches!(v, Fetched::Row));
    let r = it.row();
    assert!(r.next_is_null(5));
}

#[test]
fn no_stale_data_after_oversized_row() {
    let long_value: Vec<u8> = vec![7u8; 150];
    let mut it = StatementIterator::new(vec![MysqlType::VarChar]).unwrap();

    let v = it.step(row(vec![Some(long_value.clone())]));
    assert!(matches!(v, Fetched::Row));
    assert_eq!(it.row().take(), Some(&long_value[..]));

    // the next row's value fits the default slot; nothing of the 150 bytes
    // may show through
    let v = it.step(row(vec![Some(b"ok".to_vec())]));
    assert!(matches!(v, Fetched::Row));
    assert_eq!(it.row().take(), Some(&b"ok"[..]));

    // a null in the row after that exposes no stale bytes either
    let v = it.step(row(vec![None]));
    assert!(matches!(v, Fetched::Row));
    assert_eq!(it.row().take(), None);
}

#[test]
fn take_past_the_column_count_yields_none_each_time() {
    let mut it = StatementIterator::new(vec![MysqlType::Short]).unwrap();
    let v = it.step(row(vec![Some(vec![5, 0])]));
    assert!(matches!(v, Fetched::Row));
    let mut r = it.row();
    assert_eq!(r.take(), Some(&[5u8, 0u8][..]));
    assert_eq!(r.take(), None);
    assert_eq!(r.take(), None);
    assert_eq!(r.take(), None);
}

#[test]
fn three_column_row_with_truncated_varchar_and_null() {
    // INT, VARCHAR whose actual value is 200 bytes, and a nullable column
    let long_string: Vec<u8> = vec![b'x'; 200];
    let mut it = StatementIterator::new(vec![
        MysqlType::Long,
        MysqlType::VarChar,
        MysqlType::LongLong,
    ])
    .unwrap();
    let v = it.step(row(vec![
        Some(vec![42, 0, 0, 0]),
        Some(long_string.clone()),
        None,
    ]));
    assert!(matches!(v, Fetched::Row));
    let mut r = it.row();
    assert_eq!(r.take(), Some(&[42u8, 0, 0, 0][..]));
    let s = r.take().expect("varchar column");
    assert_eq!(s.len(), 200);
    assert_eq!(s, &long_string[..]);
    assert_eq!(r.take(), None);
}

#[test]
fn zero_row_result_set_exhausts_immediately() {
    let mut it = StatementIterator::new(vec![MysqlType::Tiny]).unwrap();
    let v = it.step(FetchEvent::NoData);
    assert!(matches!(v, Fetched::End));
    assert_eq!(it.state, CursorState::Exhausted);
}

#[test]
fn statement_without_result_columns_is_a_usage_error() {
    let r = StatementIterator::new(Vec::new());
    match r {
        Err(e) => assert_eq!(e, Error::QueryBuilderError),
        Ok(_) => panic!("construction must fail without result columns"),
    }
}

#[test]
fn server_error_is_surfaced_once_then_nothing() {
    let mut it =
        StatementIterator::new(vec![MysqlType::Tiny, MysqlType::VarChar]).unwrap();
    let v = it.step(row(vec![Some(vec![1]), Some(b"a".to_vec())]));
    assert!(matches!(v, Fetched::Row));

    let v = it.step(FetchEvent::ServerError(1213));
    match v {
        Fetched::Failed(e) => assert_eq!(e, Error::ServerError(1213)),
        _ => panic!("the error must be surfaced as the iterator item"),
    }
    assert_eq!(it.state, CursorState::Failed);

    let v = it.step(row(vec![Some(vec![2]), None]));
    assert!(matches!(v, Fetched::End));
    let v = it.step(FetchEvent::NoData);
    assert!(matches!(v, Fetched::End));
    assert_eq!(it.state, CursorState::Failed);
}

#[test]
fn fixed_slots_get_exact_sizes_and_varlen_a_default() {
    let it = StatementIterator::new(vec![
        MysqlType::Tiny,
        MysqlType::Short,
        MysqlType::Long,
        MysqlType::LongLong,
        MysqlType::VarChar,
        MysqlType::Blob,
    ])
    .unwrap();
    let caps: Vec<usize> = it.output_binds.data.iter().map(|b| b.capacity).collect();
    assert_eq!(caps, vec![1, 2, 4, 8, 64, 64]);
}

#[test]
fn truncation_grows_the_slot_to_the_exact_length_and_reset_shrinks_it() {
    let mut it = StatementIterator::new(vec![MysqlType::Blob]).unwrap();
    let v = it.step(row(vec![Some(vec![0u8; 300])]));
    assert!(matches!(v, Fetched::Row));
    assert_eq!(it.output_binds.data[0].capacity, 300);
    assert_eq!(it.output_binds.data[0].length, 300);
    assert!(!it.output_binds.data[0].is_truncated);

    let v = it.step(row(vec![Some(vec![1u8, 2u8])]));
    assert!(matches!(v, Fetched::Row));
    assert_eq!(it.output_binds.data[0].capacity, 64);
    assert_eq!(it.output_binds.data[0].length, 2);
    assert_eq!(it.row().take(), Some(&[1u8, 2u8][..]));
}
