use std::sync::Arc;

use arrow_array::ArrayRef;
use arrow_array::Int32Array;
use arrow_array::RecordBatch;
use arrow_schema::DataType;
use arrow_schema::Field;
use arrow_schema::TimeUnit;
use duckdb_polars::model::Kind;
use duckdb_polars::support::kind_of;
use duckdb_polars::convert::column_outcome;
use duckdb_polars::support::enough_values;
use duckdb_polars::support::numbers_rescale;
use duckdb_polars::support::type_appends;
use duckdb_polars::support::LENGTH_LIMIT;
use duckdb_polars::support::RESCALED_MAX;
use duckdb_polars::support::type_supported;
use duckdb_polars::support::type_transferable;
use duckdb_polars::text::decimal_text;
use duckdb_polars::Action;
use duckdb_polars::Args;
use duckdb_polars::Batch;
use duckdb_polars::Step;
use polars::prelude::NamedFrom;
use polars::prelude::PolarsError;
use polars::prelude::Series;
use duckdb_polars::DuckDBPolarsError;

type Error = DuckDBPolarsError<String>;

fn int32_batch(name: &str, values: Vec<i32>) -> Batch {
    let column: ArrayRef = Arc::new(Int32Array::from(values));
    Batch { inner: RecordBatch::try_from_iter(vec![(name, column)]).expect("a record batch") }
}

fn list_of(item: DataType) -> DataType {
    DataType::List(Arc::new(Field::new("item", item, true)))
}

#[test]
fn decimal_text_of_small_numbers() {
    assert_eq!(decimal_text(0), "0");
    assert_eq!(decimal_text(7), "7");
    assert_eq!(decimal_text(9), "9");
    assert_eq!(decimal_text(10), "10");
}

#[test]
fn decimal_text_of_large_numbers() {
    assert_eq!(decimal_text(12345), "12345");
    assert_eq!(decimal_text(1000000), "1000000");
    assert_eq!(decimal_text(9080706050), "9080706050");
    assert_eq!(decimal_text(usize::MAX), usize::MAX.to_string());
}

#[test]
fn messages_of_the_errors() {
    assert_eq!(Error::no_batches().message(), "No batches to convert");
    assert_eq!(
        Error::missing_name(12).message(),
        "Column name not found for index 12"
    );
    assert_eq!(
        Error::unsupported().message(),
        "Batch with a column that cannot be converted safely"
    );
    assert_eq!(
        Error::differing().message(),
        "Batches whose columns differ in number or data type"
    );
    assert_eq!(
        Error::row_mismatch(3, 12, 10).message(),
        "Column at index 3 has 12 values, the batch has 10 rows"
    );
    assert_eq!(
        Error::from_engine("Catalog Error: no such table".to_string()).message(),
        "DuckDB error: Catalog Error: no such table"
    );
}

#[test]
fn polars_error_is_wrapped_with_its_text() {
    let error = Error::from(PolarsError::ComputeError("cannot do it".into()));
    assert_eq!(error.message(), "Polars error: cannot do it");
    match error {
        Error::Polars { msg, source } => {
            assert_eq!(msg, "Polars error: cannot do it");
            assert_eq!(source.to_string(), "cannot do it");
        },
        _ => panic!("an error of polars was expected"),
    }
}

#[test]
fn column_outcome_passes_a_series_on() {
    let series = Series::new("a", vec![1_i32, 2, 3]);
    let passed = column_outcome::<String>(Ok(series.clone())).expect("a series");
    assert!(passed.series_equal(&series));
    assert_eq!(passed.name(), "a");
}

#[test]
fn column_outcome_wraps_an_error() {
    match column_outcome::<String>(Err(PolarsError::NoData("nothing there".into()))) {
        Err(Error::Polars { msg, .. }) => {
            assert_eq!(msg, "Polars error: no data: nothing there")
        },
        _ => panic!("an error of polars was expected"),
    }
}

#[test]
fn plain_types_are_taken_wherever_they_stand() {
    for data_type in [
        DataType::Boolean,
        DataType::Int8,
        DataType::Int16,
        DataType::Int32,
        DataType::Int64,
        DataType::UInt8,
        DataType::UInt16,
        DataType::UInt32,
        DataType::UInt64,
        DataType::Float32,
        DataType::Float64,
        DataType::Utf8,
        DataType::LargeUtf8,
        DataType::Binary,
        DataType::LargeBinary,
        DataType::FixedSizeBinary(4),
        DataType::Null,
        DataType::Date32,
        DataType::Date64,
        DataType::Time32(TimeUnit::Second),
        DataType::Time32(TimeUnit::Millisecond),
        DataType::Time64(TimeUnit::Nanosecond),
        DataType::Timestamp(TimeUnit::Millisecond, None),
        DataType::Timestamp(TimeUnit::Microsecond, Some("UTC".into())),
        DataType::Timestamp(TimeUnit::Nanosecond, None),
        DataType::Duration(TimeUnit::Millisecond),
    ] {
        assert!(type_supported(&data_type, true));
        assert!(type_supported(&data_type, false));
        assert!(type_supported(&list_of(data_type.clone()), false));
        assert!(type_supported(&list_of(list_of(data_type)), true));
    }
}

#[test]
fn rescaled_times_are_kinds_of_their_own() {
    for data_type in [
        DataType::Timestamp(TimeUnit::Second, None),
        DataType::Duration(TimeUnit::Second),
        DataType::Time64(TimeUnit::Microsecond),
    ] {
        assert!(type_supported(&data_type, false));
        assert!(type_supported(&data_type, true));
        assert!(type_supported(&list_of(data_type.clone()), false));
        let record = DataType::Struct(vec![Field::new("at", data_type, true)].into());
        assert!(type_supported(&record, false));
    }
}

#[test]
fn numbers_are_rescaled_within_sixty_four_bits() {
    assert_eq!(RESCALED_MAX, i64::MAX / 1000);
    assert!(numbers_rescale(&vec![]));
    assert!(numbers_rescale(&vec![0, 1, -1, RESCALED_MAX, -RESCALED_MAX]));
    assert!(!numbers_rescale(&vec![0, RESCALED_MAX + 1]));
    assert!(!numbers_rescale(&vec![-RESCALED_MAX - 1, 0]));
    assert!(!numbers_rescale(&vec![i64::MIN]));
}

#[test]
fn types_without_a_list_in_polars_are_taken_unless_below_a_list() {
    for data_type in [
        DataType::Float16,
        DataType::Interval(arrow_schema::IntervalUnit::DayTime),
        DataType::Decimal128(10, 2),
        DataType::Decimal256(40, 2),
    ] {
        assert!(type_supported(&data_type, false));
        assert!(!type_supported(&data_type, true));
        assert!(!type_supported(&list_of(data_type.clone()), false));
        let record = DataType::Struct(vec![Field::new("amount", data_type, false)].into());
        assert!(type_supported(&record, false));
        assert!(!type_supported(&record, true));
        assert!(!type_supported(&list_of(record.clone()), false));
        let outer = DataType::Struct(vec![Field::new("inner", record, false)].into());
        assert!(type_supported(&outer, false));
    }
}

#[test]
fn types_on_which_the_calls_can_panic_are_not_taken() {
    for data_type in [
        DataType::Dictionary(Box::new(DataType::Int32), Box::new(DataType::Utf8)),
        DataType::Time64(TimeUnit::Second),
    ] {
        assert!(!type_supported(&data_type, true));
        assert!(!type_supported(&data_type, false));
        assert!(!type_supported(&list_of(data_type.clone()), false));
        let record = DataType::Struct(vec![Field::new("f", data_type, false)].into());
        assert!(!type_supported(&record, false));
    }
}

fn union_of(ids: Vec<i8>) -> DataType {
    let fields: Vec<Field> =
        ids.iter().map(|id| Field::new(format!("f{}", id), DataType::Int32, true)).collect();
    DataType::Union(arrow_schema::UnionFields::new(ids, fields), arrow_schema::UnionMode::Dense)
}

#[test]
fn fixed_size_lists_and_unions_are_taken_for_polars_to_refuse() {
    let item = |data_type: DataType| Arc::new(Field::new("item", data_type, true));
    let fixed = DataType::FixedSizeList(item(DataType::Int32), 2);
    assert!(type_supported(&fixed, false));
    assert!(!type_supported(&fixed, true));
    assert!(!type_supported(&list_of(fixed.clone()), false));
    let record = DataType::Struct(vec![Field::new("f", fixed.clone(), true)].into());
    assert!(type_supported(&record, false));
    let nested = DataType::FixedSizeList(item(DataType::Float16), 3);
    assert!(type_supported(&DataType::FixedSizeList(item(nested), 2), false));
    let dictionary = DataType::Dictionary(Box::new(DataType::Int32), Box::new(DataType::Utf8));
    assert!(!type_supported(&DataType::FixedSizeList(item(dictionary), 2), false));
    assert!(!type_supported(&DataType::FixedSizeList(item(DataType::Int32), 0), false));
    let empty = DataType::FixedSizeList(item(DataType::Int32), 0);
    assert!(!type_supported(&DataType::FixedSizeList(item(empty), 2), false));
    assert!(type_supported(&union_of(vec![0, 1, 126]), false));
    assert!(!type_supported(&union_of(vec![0, 127]), false));
    assert!(!type_supported(&union_of(vec![0, 1]), true));
    assert!(type_transferable(&union_of(vec![5])));
    assert!(!type_transferable(&union_of(vec![127])));
    assert!(type_supported(&DataType::FixedSizeList(item(union_of(vec![3])), 2), false));
    assert!(!type_supported(&DataType::FixedSizeList(item(union_of(vec![127])), 2), false));
    let with_union = DataType::Struct(vec![Field::new("u", union_of(vec![0]), true)].into());
    assert!(type_supported(&with_union, false));
    assert!(!type_supported(&with_union, true));
}

#[test]
fn fixed_size_bytes_need_a_size() {
    assert!(type_supported(&DataType::FixedSizeBinary(1), false));
    assert!(type_supported(&DataType::FixedSizeBinary(1), true));
    assert!(!type_supported(&DataType::FixedSizeBinary(0), false));
    assert!(!type_supported(&DataType::FixedSizeBinary(0), true));
    assert!(!type_supported(&list_of(DataType::FixedSizeBinary(0)), false));
    let item = |data_type: DataType| Arc::new(Field::new("item", data_type, true));
    assert!(type_transferable(&DataType::FixedSizeBinary(7)));
    assert!(!type_transferable(&DataType::FixedSizeBinary(0)));
    let bytes = DataType::FixedSizeList(item(DataType::FixedSizeBinary(0)), 2);
    assert!(!type_supported(&bytes, false));
    let record = DataType::Struct(vec![Field::new("f", DataType::FixedSizeBinary(0), true)].into());
    assert!(!type_supported(&record, false));
}

#[test]
fn structs_with_a_field_without_values_do_not_append() {
    assert_eq!(LENGTH_LIMIT, u32::MAX as usize);
    let plain = DataType::Struct(vec![Field::new("a", DataType::Int32, true)].into());
    assert!(type_appends(&plain));
    assert!(type_appends(&DataType::Null));
    assert!(type_appends(&list_of(DataType::Null)));
    let hollow = DataType::Struct(
        vec![Field::new("a", DataType::Int32, true), Field::new("b", DataType::Null, true)].into(),
    );
    assert!(type_supported(&hollow, false));
    assert!(!type_appends(&hollow));
    assert!(type_appends(&list_of(hollow.clone())));
    let outer = DataType::Struct(vec![Field::new("r", hollow, true)].into());
    assert!(!type_appends(&outer));
}

#[test]
fn values_are_counted_against_the_lists_of_a_fixed_size() {
    assert!(enough_values(0, 3, 2, 6));
    assert!(!enough_values(0, 3, 2, 5));
    assert!(enough_values(1, 2, 2, 6));
    assert!(!enough_values(2, 2, 2, 7));
    assert!(enough_values(5, 7, 0, 0));
    assert!(!enough_values(usize::MAX, usize::MAX, 1, usize::MAX));
    assert!(enough_values(0, usize::MAX, 1, usize::MAX));
}

#[test]
fn nested_types_are_taken_at_any_depth() {
    let mut data_type = DataType::Int32;
    for _ in 0..100 {
        data_type = list_of(data_type);
    }
    assert!(type_supported(&data_type, false));
    let large = DataType::LargeList(Arc::new(Field::new("item", DataType::Int64, true)));
    assert!(type_supported(&large, false));
    let mut bad = DataType::Float16;
    for _ in 0..50 {
        bad = DataType::Struct(vec![Field::new("f", bad, true)].into());
    }
    assert!(type_supported(&bad, false));
    assert!(!type_supported(&list_of(bad), false));
}

#[test]
fn structs_need_a_field_and_supported_fields() {
    let empty = DataType::Struct(Vec::<Field>::new().into());
    assert!(!type_supported(&empty, false));
    assert!(!type_supported(&empty, true));
    let good = DataType::Struct(
        vec![
            Field::new("x", DataType::Float64, false),
            Field::new("y", list_of(DataType::Utf8), false),
        ]
        .into(),
    );
    assert!(type_supported(&good, false));
    assert!(type_supported(&good, true));
    let dictionary = DataType::Dictionary(Box::new(DataType::Int8), Box::new(DataType::Utf8));
    let bad = DataType::Struct(
        vec![Field::new("x", DataType::Float64, false), Field::new("y", dictionary, false)].into(),
    );
    assert!(!type_supported(&bad, false));
}

#[test]
fn maps_are_taken_unless_below_a_list() {
    let entries = DataType::Struct(
        vec![
            Field::new("keys", DataType::Utf8, false),
            Field::new("values", DataType::Int32, true),
        ]
        .into(),
    );
    let map = DataType::Map(Arc::new(Field::new("entries", entries, false)), false);
    assert_eq!(kind_of(&map), Kind::Mapping);
    assert!(type_supported(&map, false));
    assert!(!type_supported(&map, true));
    assert!(!type_supported(&list_of(map), false));
    let decimal = DataType::Struct(
        vec![
            Field::new("keys", DataType::Utf8, false),
            Field::new("values", DataType::Decimal128(10, 2), true),
        ]
        .into(),
    );
    let map = DataType::Map(Arc::new(Field::new("entries", decimal, false)), false);
    assert!(!type_supported(&map, false));
}

#[test]
fn run_begins_with_the_query() {
    let args = Args { sql: "SELECT 1 AS a, 2 AS b".to_string() };
    match args.run(Step::<String>::Begin) {
        Action::Query(sql) => assert_eq!(sql, "SELECT 1 AS a, 2 AS b"),
        _ => panic!("a query was expected"),
    }
}

#[test]
fn run_reports_the_table() {
    let args = Args { sql: "SELECT 1 AS a".to_string() };
    match args.run(Step::<String>::Queried(Ok(vec![int32_batch("a", vec![1])]))) {
        Action::Report(table) => {
            assert_eq!(table.shape(), (1, 1));
            let values: Vec<Option<i32>> =
                table.column("a").unwrap().i32().unwrap().into_iter().collect();
            assert_eq!(values, vec![Some(1)]);
        },
        _ => panic!("a table was expected"),
    }
}

#[test]
fn run_fails_with_the_error_of_the_engine() {
    let args = Args { sql: "SELEC".to_string() };
    match args.run(Step::Queried(Err("Parser Error".to_string()))) {
        Action::Fail(Error::DuckDB { msg, source }) => {
            assert_eq!(msg, "DuckDB error: Parser Error");
            assert_eq!(source, "Parser Error");
        },
        _ => panic!("an error of the engine was expected"),
    }
}

#[test]
fn run_fails_without_batches() {
    let args = Args { sql: "SELECT 1".to_string() };
    match args.run(Step::<String>::Queried(Ok(Vec::new()))) {
        Action::Fail(Error::Internal { msg }) => {
            assert_eq!(msg, "No batches to convert")
        },
        _ => panic!("an internal error was expected"),
    }
}

#[test]
fn kinds_of_data_types() {
    assert_eq!(kind_of(&DataType::Boolean), Kind::Boolean);
    assert_eq!(kind_of(&DataType::Int8), Kind::Int8);
    assert_eq!(kind_of(&DataType::UInt64), Kind::UInt64);
    assert_eq!(kind_of(&DataType::Float16), Kind::Float16);
    assert_eq!(kind_of(&DataType::Float64), Kind::Float64);
    assert_eq!(kind_of(&DataType::Utf8), Kind::Utf8);
    assert_eq!(kind_of(&DataType::LargeBinary), Kind::LargeBinary);
    assert_eq!(kind_of(&DataType::FixedSizeBinary(16)), Kind::FixedSizeBinary);
    assert_eq!(kind_of(&DataType::Null), Kind::Null);
    assert_eq!(kind_of(&DataType::Date32), Kind::Date32);
    assert_eq!(kind_of(&DataType::Date64), Kind::Date64);
    assert_eq!(kind_of(&DataType::Time32(TimeUnit::Millisecond)), Kind::Time32);
    assert_eq!(kind_of(&DataType::Time64(TimeUnit::Nanosecond)), Kind::Time64Nanosecond);
    assert_eq!(kind_of(&DataType::Time64(TimeUnit::Microsecond)), Kind::Time64Microsecond);
    assert_eq!(kind_of(&DataType::Time64(TimeUnit::Second)), Kind::Other);
    assert_eq!(kind_of(&DataType::Timestamp(TimeUnit::Millisecond, None)), Kind::Timestamp);
    assert_eq!(kind_of(&DataType::Timestamp(TimeUnit::Second, None)), Kind::TimestampSecond);
    assert_eq!(kind_of(&DataType::Duration(TimeUnit::Nanosecond)), Kind::Duration);
    assert_eq!(kind_of(&DataType::Duration(TimeUnit::Second)), Kind::DurationSecond);
    assert_eq!(
        kind_of(&DataType::Interval(arrow_schema::IntervalUnit::YearMonth)),
        Kind::Interval
    );
    assert_eq!(kind_of(&DataType::Decimal128(38, 0)), Kind::Decimal128);
    assert_eq!(kind_of(&DataType::Decimal256(40, 0)), Kind::Decimal256);
    assert_eq!(kind_of(&list_of(DataType::Int32)), Kind::List);
    let item = Arc::new(Field::new("item", DataType::Int32, true));
    assert_eq!(kind_of(&DataType::LargeList(item.clone())), Kind::LargeList);
    assert_eq!(kind_of(&DataType::FixedSizeList(item, 2)), Kind::FixedSizeList);
    assert_eq!(kind_of(&DataType::Struct(Vec::<Field>::new().into())), Kind::Struct);
    let dictionary = DataType::Dictionary(Box::new(DataType::Int32), Box::new(DataType::Utf8));
    assert_eq!(kind_of(&dictionary), Kind::Other);
}

#[test]
fn engine_error_is_kept_as_the_source() {
    let cause = "12x".parse::<i32>().unwrap_err();
    let text = cause.to_string();
    match DuckDBPolarsError::from_engine(cause.clone()) {
        DuckDBPolarsError::DuckDB { msg, source } => {
            assert_eq!(msg, format!("DuckDB error: {}", text));
            assert_eq!(source, cause);
        },
        _ => panic!("an error of the engine was expected"),
    }
}
