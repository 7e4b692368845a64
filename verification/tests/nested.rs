use std::sync::Arc;

use arrow_array::builder::Int32Builder;
use arrow_array::builder::Int8Builder;
use arrow_array::builder::LargeListBuilder;
use arrow_array::builder::LargeStringBuilder;
use arrow_array::builder::ListBuilder;
use arrow_array::builder::StringBuilder;
use arrow_array::builder::StructBuilder;
use arrow_array::Array;
use arrow_array::ArrayRef;
use arrow_array::Date32Array;
use arrow_array::Int32Array;
use arrow_array::RecordBatch;
use arrow_array::StructArray;
use arrow_array::TimestampMillisecondArray;
use arrow_schema::DataType;
use arrow_schema::Field;
use duckdb_polars::arrowrs_record_batches_to_polars_df;
use duckdb_polars::query_to_df_polars;
use duckdb_polars::support::batch_is_supported;
use duckdb_polars::Batch;
use polars::prelude::DataFrame;
use polars::prelude::TakeRandom;
use duckdb_polars::DuckDBPolarsError;

type Error = DuckDBPolarsError<String>;

fn table_of_batches(rbs: Vec<Batch>) -> Result<DataFrame, Error> {
    arrowrs_record_batches_to_polars_df(rbs)
}

fn answer(queried: Result<Vec<Batch>, String>) -> Result<DataFrame, Error> {
    query_to_df_polars(queried)
}

fn wrap(columns: Vec<(&str, ArrayRef)>) -> Batch {
    Batch { inner: RecordBatch::try_from_iter(columns).expect("a record batch") }
}

fn points(rows: Vec<Vec<(i32, &str)>>) -> ArrayRef {
    let fields = vec![
        Field::new("x", DataType::Int32, true),
        Field::new("label", DataType::Utf8, true),
    ];
    let mut builder = ListBuilder::new(StructBuilder::from_fields(fields, 0));
    for row in rows {
        for (x, label) in row {
            builder.values().field_builder::<Int32Builder>(0).unwrap().append_value(x);
            builder.values().field_builder::<StringBuilder>(1).unwrap().append_value(label);
            builder.values().append(true);
        }
        builder.append(true);
    }
    Arc::new(builder.finish())
}

fn large_texts(rows: Vec<Vec<&str>>) -> ArrayRef {
    let mut builder = LargeListBuilder::new(LargeStringBuilder::new());
    for row in rows {
        for value in row {
            builder.values().append_value(value);
        }
        builder.append(true);
    }
    Arc::new(builder.finish())
}

fn small_lists(rows: Vec<Vec<i8>>) -> ArrayRef {
    let mut builder = ListBuilder::new(Int8Builder::new());
    for row in rows {
        for value in row {
            builder.values().append_value(value);
        }
        builder.append(true);
    }
    Arc::new(builder.finish())
}

fn dated(days: Vec<i32>, millis: Vec<i64>) -> ArrayRef {
    let inner = StructArray::from(vec![(
        Field::new("day", DataType::Date32, false),
        Arc::new(Date32Array::from(days)) as ArrayRef,
    )]);
    let stamps = TimestampMillisecondArray::from(millis).with_timezone("UTC");
    Arc::new(StructArray::from(vec![
        (Field::new("inner", inner.data_type().clone(), false), Arc::new(inner) as ArrayRef),
        (Field::new("at", stamps.data_type().clone(), false), Arc::new(stamps) as ArrayRef),
    ]))
}

fn first_batch() -> Batch {
    wrap(vec![
        ("points", points(vec![vec![(1, "a"), (2, "b")], vec![], vec![(3, "c")]])),
        ("texts", large_texts(vec![vec!["p"], vec!["q", "r"], vec![]])),
        ("small", small_lists(vec![vec![1], vec![2, 3], vec![]])),
        ("dated", dated(vec![1, 2, 3], vec![10, 20, 30])),
    ])
}

fn second_batch() -> Batch {
    wrap(vec![
        ("points", points(vec![vec![(4, "d")]])),
        ("texts", large_texts(vec![vec!["s", "t"]])),
        ("small", small_lists(vec![vec![4, 5, 6]])),
        ("dated", dated(vec![4], vec![40])),
    ])
}

fn list_lengths(table: &DataFrame, name: &str) -> Vec<usize> {
    let lists = table.column(name).unwrap().list().unwrap();
    (0..lists.len()).map(|row| lists.get(row).map(|item| item.len()).unwrap_or(0)).collect()
}

#[test]
fn nested_types_are_taken() {
    assert!(batch_is_supported(&first_batch()));
    let table = answer(Ok(vec![first_batch()])).expect("a table");
    assert_eq!(table.shape(), (3, 4));
    assert_eq!(list_lengths(&table, "points"), vec![2, 0, 1]);
    assert_eq!(list_lengths(&table, "texts"), vec![1, 2, 0]);
    assert_eq!(table.column("small").unwrap().len(), 3);
    assert_eq!(table.column("small").unwrap().dtype().to_string(), "list[i8]");
    let dated = table.column("dated").unwrap().struct_().unwrap();
    let days: Vec<Option<i32>> = dated
        .field_by_name("inner")
        .unwrap()
        .struct_()
        .unwrap()
        .field_by_name("day")
        .unwrap()
        .date()
        .unwrap()
        .into_iter()
        .collect();
    assert_eq!(days, vec![Some(1), Some(2), Some(3)]);
    let stamps: Vec<Option<i64>> =
        dated.field_by_name("at").unwrap().datetime().unwrap().into_iter().collect();
    assert_eq!(stamps, vec![Some(10), Some(20), Some(30)]);
}

#[test]
fn nested_types_are_stacked() {
    let table = answer(Ok(vec![first_batch(), second_batch(), first_batch()]))
        .expect("a table");
    assert_eq!(table.shape(), (7, 4));
    assert_eq!(list_lengths(&table, "points"), vec![2, 0, 1, 1, 2, 0, 1]);
    assert_eq!(list_lengths(&table, "texts"), vec![1, 2, 0, 2, 1, 2, 0]);
    assert_eq!(table.column("small").unwrap().len(), 7);
    assert_eq!(table.column("small").unwrap().n_chunks(), 3);
    let dated = table.column("dated").unwrap().struct_().unwrap();
    let stamps: Vec<Option<i64>> =
        dated.field_by_name("at").unwrap().datetime().unwrap().into_iter().collect();
    assert_eq!(
        stamps,
        vec![Some(10), Some(20), Some(30), Some(40), Some(10), Some(20), Some(30)]
    );
}

#[test]
fn sliced_batches_are_taken() {
    let whole = first_batch();
    let part = Batch { inner: whole.inner.slice(1, 2) };
    let numbers: ArrayRef = Arc::new(Int32Array::from(vec![1, 2, 3, 4, 5]));
    let sliced = Batch {
        inner: RecordBatch::try_from_iter(vec![("n", numbers)]).unwrap().slice(2, 3),
    };
    let table = table_of_batches(vec![sliced]).expect("a table");
    let values: Vec<Option<i32>> =
        table.column("n").unwrap().i32().unwrap().into_iter().collect();
    assert_eq!(values, vec![Some(3), Some(4), Some(5)]);
    let table = answer(Ok(vec![part])).expect("a table");
    assert_eq!(table.shape(), (2, 4));
    assert_eq!(list_lengths(&table, "points"), vec![0, 1]);
    assert_eq!(list_lengths(&table, "texts"), vec![2, 0]);
    let dated = table.column("dated").unwrap().struct_().unwrap();
    let stamps: Vec<Option<i64>> =
        dated.field_by_name("at").unwrap().datetime().unwrap().into_iter().collect();
    assert_eq!(stamps, vec![Some(20), Some(30)]);
}

#[test]
fn batch_without_columns_gives_a_table_without_columns() {
    let empty = Batch {
        inner: RecordBatch::new_empty(Arc::new(arrow_schema::Schema::empty())),
    };
    let table = answer(Ok(vec![empty])).expect("a table");
    assert_eq!(table.width(), 0);
}

#[test]
fn decimal_numbers_inside_structs_are_taken() {
    let amounts = arrow_array::Decimal128Array::from(vec![150_i128, 275])
        .with_precision_and_scale(10, 2)
        .unwrap();
    let inner = StructArray::from(vec![(
        Field::new("amount", amounts.data_type().clone(), false),
        Arc::new(amounts) as ArrayRef,
    )]);
    let outer: ArrayRef = Arc::new(StructArray::from(vec![(
        Field::new("inner", inner.data_type().clone(), false),
        Arc::new(inner) as ArrayRef,
    )]));
    let first = wrap(vec![("record", outer.clone())]);
    let second = wrap(vec![("record", outer)]);
    assert!(batch_is_supported(&first));
    let table = answer(Ok(vec![first, second])).expect("a table");
    assert_eq!(table.shape(), (4, 1));
    let amounts: Vec<Option<f64>> = table
        .column("record")
        .unwrap()
        .struct_()
        .unwrap()
        .field_by_name("inner")
        .unwrap()
        .struct_()
        .unwrap()
        .field_by_name("amount")
        .unwrap()
        .f64()
        .unwrap()
        .into_iter()
        .collect();
    assert_eq!(amounts, vec![Some(1.5), Some(2.75), Some(1.5), Some(2.75)]);
}

#[test]
fn decimal_numbers_inside_lists_are_refused() {
    let item = Field::new("item", DataType::Decimal128(10, 2), true);
    let lists = arrow_array::new_null_array(&DataType::List(Arc::new(item)), 2);
    let batch = wrap(vec![("l", lists)]);
    assert!(!batch_is_supported(&batch));
    assert!(answer(Ok(vec![batch])).is_err());
}
