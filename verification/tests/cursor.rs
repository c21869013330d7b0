use sqlite::{Cursor, FloatBits, Row, Statement, StepOutcome, Type, Value};

fn users_columns() -> Vec<String> {
    vec![
        "id".to_string(),
        "name".to_string(),
        "age".to_string(),
        "photo".to_string(),
        "email".to_string(),
    ]
}

fn users_values() -> Vec<Value> {
    vec![
        Value::Integer(1),
        Value::String("Alice".to_string()),
        Value::Float(FloatBits { bits: (42.69f64).to_bits() }),
        Value::Binary(vec![0x42, 0x69]),
        Value::Null,
    ]
}

fn users_row() -> Row {
    Row::new(users_columns(), users_values())
}

fn users_cursor() -> Cursor {
    Cursor::new(Statement::new(users_columns(), Vec::new()))
}

fn age_bits() -> FloatBits {
    FloatBits { bits: (42.69f64).to_bits() }
}

#[test]
fn bind_iter() {
    let statement = Statement::new(
        Vec::new(),
        vec![":id".to_string(), ":name".to_string()],
    );
    let mut cursor = Cursor::new(statement);
    assert!(cursor.bind_name(":name", Value::String("Bob".to_string())).is_ok());
    assert!(cursor.bind_name(":id", Value::Integer(42)).is_ok());
    assert_eq!(cursor.bound_value(1), &Value::Integer(42));
    assert_eq!(cursor.bound_value(2), &Value::String("Bob".to_string()));
    assert!(matches!(cursor.try_next(StepOutcome::Finished), Ok(None)));
}

#[test]
fn iter() {
    let statement = Statement::new(vec!["id".to_string(), "age".to_string()], Vec::new());
    let mut cursor = Cursor::new(statement);
    let outcomes = vec![
        StepOutcome::NewRow(vec![Value::Integer(2), Value::Null]),
        StepOutcome::NewRow(vec![Value::Integer(1), Value::Float(age_bits())]),
        StepOutcome::Finished,
    ];
    let mut count = 0;
    for outcome in outcomes {
        match cursor.try_next(outcome) {
            Ok(Some(row)) => {
                let id = row.read::<i64, _>("id");
                if id == 1 {
                    assert_eq!(row.read::<FloatBits, _>("age"), age_bits());
                } else if id == 2 {
                    assert_eq!(row.read::<Option<FloatBits>, _>("age"), None);
                } else {
                    assert!(false);
                }
                count += 1;
            }
            Ok(None) => {}
            Err(_) => assert!(false),
        }
    }
    assert_eq!(count, 2);
}

#[test]
fn iter_column_count() {
    let statement = Statement::new(vec!["value".to_string()], Vec::new());
    let cursor = Cursor::new(statement);
    assert_eq!(cursor.column_count(), 1);
}

#[test]
fn iter_column_type() {
    let words = vec![
        "archetype",
        "prototype",
        "stereotype",
        "subtype",
        "logotype",
        "teletype",
    ];
    let statement = Statement::new(vec!["value".to_string()], Vec::new());
    let mut cursor = Cursor::new(statement);
    assert_eq!(cursor.column_type(0usize).unwrap(), Type::Null);
    assert_eq!(cursor.column_type("value").unwrap(), Type::Null);

    cursor.reset();
    let first = StepOutcome::NewRow(vec![Value::String(words[0].to_string())]);
    assert!(cursor.try_next(first).is_ok());
    assert_eq!(cursor.column_type(0usize).unwrap(), Type::String);
    assert_eq!(cursor.column_type("value").unwrap(), Type::String);

    cursor.reset();
    let mut count = 0;
    for word in &words {
        let outcome = StepOutcome::NewRow(vec![Value::String(word.to_string())]);
        match cursor.try_next(outcome) {
            Ok(Some(_)) => {
                assert_eq!(cursor.column_type(0usize).unwrap(), Type::String);
                assert_eq!(cursor.column_type("value").unwrap(), Type::String);
                count += 1;
            }
            _ => assert!(false),
        }
    }
    assert!(matches!(cursor.try_next(StepOutcome::Finished), Ok(None)));
    assert_eq!(count, 6);
}

#[test]
fn iter_count() {
    let statement = Statement::new(vec!["value".to_string()], Vec::new());
    let mut cursor = Cursor::new(statement);
    let mut count = 0;
    for _ in 0..6 {
        let outcome = StepOutcome::NewRow(vec![Value::String("subtype".to_string())]);
        if cursor.try_next(outcome).is_ok() {
            count += 1;
        }
    }
    assert!(matches!(cursor.try_next(StepOutcome::Finished), Ok(None)));
    assert_eq!(count, 6);
}

#[test]
fn iter_with_exception() {
    let statement = Statement::new(vec!["rowid".to_string()], Vec::new());
    let mut cursor = Cursor::new(statement);
    let outcome = StepOutcome::Failed(19, Some("buz".to_string()));
    let results = vec![cursor.try_next(outcome)];
    assert_eq!(results.len(), 1);
    assert!(matches!(results[0], Err(_)));
}

#[test]
fn next_index() {
    let row = users_row();

    assert_eq!(row.get(0usize), &Value::Integer(1));
    assert_eq!(row.get(2usize), &Value::Float(age_bits()));

    assert_eq!(row.get("id"), &Value::Integer(1));
    assert_eq!(row.get("age"), &Value::Float(age_bits()));
}

#[test]
fn next_read_with_name() {
    let row = users_row();
    assert_eq!(row.read::<i64, _>("id"), 1);
    assert_eq!(row.read::<String, _>("name"), "Alice");
    assert_eq!(row.read::<FloatBits, _>("age"), age_bits());
    assert_eq!(row.read::<Vec<u8>, _>("photo"), &[0x42u8, 0x69u8][..]);
}

#[test]
fn next_read_with_name_and_option() {
    let row = users_row();
    assert!(row.read::<Option<i64>, _>("id").is_some());
    assert!(row.read::<Option<String>, _>("name").is_some());
    assert!(row.read::<Option<FloatBits>, _>("age").is_some());
    assert!(row.read::<Option<Vec<u8>>, _>("photo").is_some());
    assert!(row.read::<Option<String>, _>("email").is_none());
}

#[test]
fn next_take() {
    let mut row = users_row();
    assert_eq!(row.take("name"), Value::String("Alice".to_string()));
    assert_eq!(row.take("name"), Value::Null);
}

#[test]
fn next_try_read_with_index() {
    let row = users_row();
    assert!(row.try_read::<FloatBits, _>(0usize).is_err());
    assert!(row.try_read::<i64, _>(0usize).is_ok());
    assert!(row.try_read::<String, _>(1usize).is_ok());
    assert!(row.try_read::<FloatBits, _>(2usize).is_ok());
    assert!(row.try_read::<Vec<u8>, _>(3usize).is_ok());
    assert!(row.try_read::<String, _>(4usize).is_err());
}

#[test]
fn next_try_read_with_index_out_of_range() {
    let row = users_row();
    assert!(row.try_read::<String, _>(5usize).is_err());
}

#[test]
fn next_try_read_with_index_and_option() {
    let row = users_row();
    assert!(row.try_read::<Option<FloatBits>, _>(0usize).is_err());
    assert!(row.try_read::<Option<i64>, _>(0usize).unwrap().is_some());
    assert!(row.try_read::<Option<String>, _>(1usize).unwrap().is_some());
    assert!(row.try_read::<Option<FloatBits>, _>(2usize).unwrap().is_some());
    assert!(row.try_read::<Option<Vec<u8>>, _>(3usize).unwrap().is_some());
    assert!(row.try_read::<Option<String>, _>(4usize).unwrap().is_none());
}

#[test]
fn next_try_read_with_name() {
    let row = users_row();
    assert!(row.try_read::<FloatBits, _>("id").is_err());
    assert!(row.try_read::<i64, _>("id").is_ok());
    assert!(row.try_read::<String, _>("name").is_ok());
    assert!(row.try_read::<FloatBits, _>("age").is_ok());
    assert!(row.try_read::<Vec<u8>, _>("photo").is_ok());
    assert!(row.try_read::<String, _>("email").is_err());
}

#[test]
fn next_try_read_with_name_and_option() {
    let row = users_row();
    assert!(row.try_read::<Option<FloatBits>, _>("id").is_err());
    assert!(row.try_read::<Option<i64>, _>("id").unwrap().is_some());
    assert!(row.try_read::<Option<String>, _>("name").unwrap().is_some());
    assert!(row.try_read::<Option<FloatBits>, _>("age").unwrap().is_some());
    assert!(row.try_read::<Option<Vec<u8>>, _>("photo").unwrap().is_some());
    assert!(row.try_read::<Option<String>, _>("email").unwrap().is_none());
}

#[test]
fn try_next_try_into() {
    let mut cursor = users_cursor();
    let row = cursor.try_next(StepOutcome::NewRow(users_values())).unwrap().unwrap();
    assert!(row.get(0usize).try_into::<FloatBits>().is_err());
    assert!(row.get(0usize).try_into::<i64>().is_ok());
    assert!(row.get(1usize).try_into::<String>().is_ok());
    assert!(row.get(2usize).try_into::<FloatBits>().is_ok());
    assert!(row.get(3usize).try_into::<Vec<u8>>().is_ok());
    assert!(row.get(4usize).try_into::<String>().is_err());
}

#[test]
fn row_can_be_iterated() {
    let row = users_row();
    let _ = row.entries();
}

#[test]
fn iterating_row_yields_all_items() {
    let row = users_row();
    let entries = row.entries();
    assert_eq!(5, entries.len());
}

#[test]
fn iterating_row_yields_all_items_in_correct_order() {
    let row = users_row();
    let entries = row.entries();
    let mut entries = entries.into_iter();
    assert_eq!(Some(("id".to_string(), Value::Integer(1))), entries.next());
    assert_eq!(
        Some(("name".to_string(), Value::String("Alice".to_owned()))),
        entries.next()
    );
    assert_eq!(Some(("age".to_string(), Value::Float(age_bits()))), entries.next());
    assert_eq!(
        Some(("photo".to_string(), Value::Binary(vec![66, 105]))),
        entries.next()
    );
    assert_eq!(Some(("email".to_string(), Value::Null)), entries.next());
    assert_eq!(None, entries.next());
}

#[test]
fn workflow() {
    let select_statement = Statement::new(
        vec!["id".to_string(), "name".to_string()],
        vec![String::new()],
    );
    let mut select = Cursor::new(select_statement);

    let insert_statement = Statement::new(Vec::new(), vec![String::new(), String::new()]);
    let mut insert = Cursor::new(insert_statement);

    for _ in 0..10 {
        assert!(select.bind_index(1, Value::Integer(1)).is_ok());
        let alice = StepOutcome::NewRow(vec![
            Value::Integer(1),
            Value::String("Alice".to_string()),
        ]);
        let row = select.try_next(alice).unwrap().unwrap();
        assert_eq!(row.read::<i64, _>("id"), 1);
        assert_eq!(row.read::<String, _>("name"), "Alice");
        assert!(select.try_next(StepOutcome::Finished).unwrap().is_none());
    }

    assert!(select.bind_index(1, Value::Integer(42)).is_ok());
    assert!(select.try_next(StepOutcome::Finished).unwrap().is_none());

    let fields = vec![Value::Integer(42), Value::String("Bob".to_string())];
    assert!(insert.bind_all(&fields).is_ok());
    assert!(insert.try_next(StepOutcome::Finished).unwrap().is_none());

    assert!(select.bind_index(1, Value::Integer(42)).is_ok());
    let bob = StepOutcome::NewRow(vec![Value::Integer(42), Value::String("Bob".to_string())]);
    let row = select.try_next(bob).unwrap().unwrap();
    assert_eq!(row.read::<i64, _>("id"), 42);
    assert_eq!(row.read::<String, _>("name"), "Bob");
    assert!(select.try_next(StepOutcome::Finished).unwrap().is_none());
}
