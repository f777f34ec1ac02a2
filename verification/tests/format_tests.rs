use transaction_processor::amount::{Amount, AmountError};
use transaction_processor::config::{
    AmountConfig, AmountFormat, CategoryConfig, DataFormat, DateTimeConfig, FormatConfigFile,
    MemoConfig, PayeeConfig, SeparateDebitCreditFieldsConfig, SingleAmountFieldConfig,
    StatusConfig, TransactionTypeAndAmountFieldsConfig,
};
use transaction_processor::formats::{
    arrange_fields, convert_to_configurable_format, convert_to_transaction, direction_of,
    get_amount_and_transaction_type, get_amount_fields, get_category,
    get_date_time_and_format, get_memo, get_raw_payee_name, get_transaction_status,
    import_from_configurable_format, ExportError,
};
use transaction_processor::row::FieldMap;
use transaction_processor::timestamp::Timestamp;
use transaction_processor::transaction::{
    ParseError, Transaction, TransactionStatus, TransactionType,
};
use transaction_processor::util::currency_to_string_without_delim;

fn s(text: &str) -> String {
    String::from(text)
}

fn row(fields: &[(&str, &str)]) -> FieldMap {
    let mut m = FieldMap::new();
    for (k, v) in fields {
        m.insert(s(k), s(v));
    }
    m
}

fn order(names: &[&str]) -> Vec<String> {
    names.iter().map(|n| s(n)).collect()
}

fn ally_format() -> FormatConfigFile {
    FormatConfigFile {
        id: s("ally"),
        name: s("Ally Bank"),
        include_header: Some(true),
        sort: None,
        data_format: DataFormat::Csv,
        field_order: order(&["Date", "Time", "Amount", "Type", "Description"]),
        date_time_config: DateTimeConfig {
            date_field: s("Date"),
            date_format: s("%Y-%m-%d"),
            time_field: Some(s("Time")),
            time_format: Some(s("%T")),
            deliminator: None,
        },
        payee_config: PayeeConfig { field_name: s("Description") },
        amount_config: AmountConfig {
            format: AmountFormat::TransactionTypeAndAmountFields(
                TransactionTypeAndAmountFieldsConfig {
                    amount_field: s("Amount"),
                    transaction_type_field: s("Type"),
                    credit_string: s("Deposit"),
                    debit_string: s("Withdrawal"),
                    include_debit_sign: true,
                },
            ),
        },
        status_config: None,
        memo_config: None,
        category_config: None,
    }
}

fn single_format(debit_is_negative: bool) -> FormatConfigFile {
    FormatConfigFile {
        id: s("single"),
        name: s("Single"),
        include_header: None,
        sort: None,
        data_format: DataFormat::Csv,
        field_order: order(&["Date", "Payee", "Amount", "Status", "Memo", "Category", "Unused"]),
        date_time_config: DateTimeConfig {
            date_field: s("Date"),
            date_format: s("%m/%d/%Y"),
            time_field: None,
            time_format: None,
            deliminator: None,
        },
        payee_config: PayeeConfig { field_name: s("Payee") },
        amount_config: AmountConfig {
            format: AmountFormat::SingleAmountField(SingleAmountFieldConfig {
                field_name: s("Amount"),
                debit_is_negative,
            }),
        },
        status_config: Some(StatusConfig {
            field_name: s("Status"),
            pending_string: s("Pending"),
            cleared_string: s("Cleared"),
        }),
        memo_config: Some(MemoConfig { field_name: s("Memo") }),
        category_config: Some(CategoryConfig { field_name: s("Category") }),
    }
}

fn separate_format() -> FormatConfigFile {
    FormatConfigFile {
        id: s("sheet"),
        name: s("Sheet"),
        include_header: None,
        sort: None,
        data_format: DataFormat::Csv,
        field_order: order(&["Date", "Payee", "Category", "Debit", "Credit", "Status", "Memo"]),
        date_time_config: DateTimeConfig {
            date_field: s("Date"),
            date_format: s("%m/%d/%Y"),
            time_field: None,
            time_format: None,
            deliminator: None,
        },
        payee_config: PayeeConfig { field_name: s("Payee") },
        amount_config: AmountConfig {
            format: AmountFormat::SeparateDebitCreditFields(SeparateDebitCreditFieldsConfig {
                debit_field: s("Debit"),
                credit_field: s("Credit"),
            }),
        },
        status_config: Some(StatusConfig {
            field_name: s("Status"),
            pending_string: s("Pending"),
            cleared_string: s("Cleared"),
        }),
        memo_config: Some(MemoConfig { field_name: s("Memo") }),
        category_config: Some(CategoryConfig { field_name: s("Category") }),
    }
}

fn single_row(amount: &str) -> FieldMap {
    row(&[
        ("Date", "06/01/2018"),
        ("Payee", "  Corner\nshop "),
        ("Amount", amount),
        ("Status", "Cleared"),
        ("Memo", " lunch "),
    ])
}

#[test]
fn test_currency_to_string_without_delim() {
    let c = Amount::parse("1,000,000").unwrap();
    let s = currency_to_string_without_delim(&c);
    assert_eq!(s, "1000000.00");

    let c = Amount::parse("10").unwrap();
    let s = currency_to_string_without_delim(&c);
    assert_eq!(s, "10.00");
}

#[test]
fn ally_withdrawal_row_is_a_cleared_debit() {
    let unmapped = row(&[
        ("Date", "2018-06-01"),
        ("Time", "01:01:54"),
        ("Amount", "-4874"),
        ("Type", "Withdrawal"),
        ("Description", "Internet transfer to savings"),
    ]);
    let t = convert_to_transaction(&unmapped, &ally_format()).unwrap();
    assert_eq!(t.transaction_type, TransactionType::Debit);
    assert!(!t.amount.negative);
    assert_eq!(t.amount.text, "4,874.00");
    assert_eq!(currency_to_string_without_delim(&t.amount), "4874.00");
    assert_eq!(t.status, TransactionStatus::Cleared);
    assert_eq!(t.date, Timestamp { secs: 1527814914, nanos: 0 });
    assert_eq!(t.date.format("%Y-%m-%dT%H:%M:%SZ").unwrap(), "2018-06-01T01:01:54Z");
    assert_eq!(t.payee(), "Internet transfer to savings");
    assert_eq!(t.normalized_payee_id, None);
    assert_eq!(t.category, None);
    assert_eq!(t.memo, None);
}

#[test]
fn ally_row_goes_out_as_it_came_in() {
    let unmapped = row(&[
        ("Date", "2018-06-01"),
        ("Time", "01:01:54"),
        ("Amount", "-4874"),
        ("Type", "Withdrawal"),
        ("Description", "Internet transfer"),
    ]);
    let f = ally_format();
    let t = convert_to_transaction(&unmapped, &f).unwrap();
    let out = convert_to_configurable_format(&f, &t).unwrap();
    assert_eq!(
        out,
        vec![s("2018-06-01"), s("01:01:54"), s("-4874.00"), s("Withdrawal"), s("Internet transfer")]
    );
}

#[test]
fn signed_amount_round_trip() {
    let f = single_format(true);
    let t = convert_to_transaction(&single_row("-50.00"), &f).unwrap();
    assert_eq!(t.transaction_type, TransactionType::Debit);
    assert!(!t.amount.negative);
    assert_eq!(t.amount.text, "50.00");
    let out = convert_to_configurable_format(&f, &t).unwrap();
    assert_eq!(out[2], "-50.00");
}

#[test]
fn signed_amount_round_trip_where_credits_are_negative() {
    let f = single_format(false);
    let t = convert_to_transaction(&single_row("-50.00"), &f).unwrap();
    assert_eq!(t.transaction_type, TransactionType::Credit);
    assert_eq!(t.amount.text, "50.00");
    let out = convert_to_configurable_format(&f, &t).unwrap();
    assert_eq!(out[2], "-50.00");

    let t = convert_to_transaction(&single_row("12.5"), &f).unwrap();
    assert_eq!(t.transaction_type, TransactionType::Debit);
    let out = convert_to_configurable_format(&f, &t).unwrap();
    assert_eq!(out[2], "12.50");
}

#[test]
fn direction_follows_the_sign_convention() {
    assert_eq!(direction_of(true, true), TransactionType::Debit);
    assert_eq!(direction_of(true, false), TransactionType::Credit);
    assert_eq!(direction_of(false, true), TransactionType::Credit);
    assert_eq!(direction_of(false, false), TransactionType::Debit);
}

#[test]
fn single_format_row_in_full() {
    let f = single_format(true);
    let mut unmapped = single_row("$1,234.5");
    unmapped.insert(s("Category"), s(" Food "));
    let t = convert_to_transaction(&unmapped, &f).unwrap();
    assert_eq!(t.raw_payee_name, "Corner shop");
    assert_eq!(t.memo, Some(s("lunch")));
    assert_eq!(t.category, Some(s("Food")));
    assert_eq!(t.transaction_type, TransactionType::Credit);
    assert_eq!(t.amount.text, "$1,234.50");
    assert_eq!(t.date, Timestamp { secs: 1527811200, nanos: 0 });
    let out = convert_to_configurable_format(&f, &t).unwrap();
    assert_eq!(
        out,
        vec![
            s("06/01/2018"),
            s("Corner shop"),
            s("$1234.50"),
            s("Cleared"),
            s("lunch"),
            s("Food"),
            s(""),
        ]
    );
}

#[test]
fn separate_columns_pick_the_filled_one() {
    let f = separate_format();
    let debit = row(&[
        ("Date", "01/02/2020"),
        ("Payee", "A"),
        ("Debit", "3.10"),
        ("Credit", "  "),
        ("Status", "Pending"),
    ]);
    let (a, ty) = get_amount_and_transaction_type(&debit, &f).unwrap();
    assert_eq!(ty, TransactionType::Debit);
    assert_eq!(a.text, "3.10");
    let t = convert_to_transaction(&debit, &f).unwrap();
    assert_eq!(t.status, TransactionStatus::Pending);
    let out = convert_to_configurable_format(&f, &t).unwrap();
    assert_eq!(
        out,
        vec![s("01/02/2020"), s("A"), s(""), s("3.10"), s(""), s("Pending"), s("")]
    );

    let credit = row(&[
        ("Date", "01/02/2020"),
        ("Payee", "A"),
        ("Debit", ""),
        ("Credit", "7"),
        ("Status", "Cleared"),
    ]);
    let (a, ty) = get_amount_and_transaction_type(&credit, &f).unwrap();
    assert_eq!(ty, TransactionType::Credit);
    assert_eq!(a.text, "7.00");
    let t = convert_to_transaction(&credit, &f).unwrap();
    let fields = get_amount_fields(&f, &t).unwrap();
    assert_eq!(fields, vec![(s("Debit"), s("")), (s("Credit"), s("7.00"))]);
}

#[test]
fn both_amount_columns_blank_is_a_missing_amount() {
    let f = separate_format();
    let unmapped = row(&[("Date", "01/02/2020"), ("Payee", "A"), ("Debit", " "), ("Status", "Cleared")]);
    match convert_to_transaction(&unmapped, &f) {
        Err(ParseError::MissingAmount { debit_field, credit_field }) => {
            assert_eq!(debit_field, "Debit");
            assert_eq!(credit_field, "Credit");
        }
        other => panic!("unexpected: {:?}", other),
    }
}

#[test]
fn missing_columns_are_reported_by_name() {
    let f = single_format(true);
    let no_payee = row(&[("Date", "06/01/2018"), ("Amount", "1"), ("Status", "Cleared")]);
    match convert_to_transaction(&no_payee, &f) {
        Err(ParseError::MissingField { field }) => assert_eq!(field, "Payee"),
        other => panic!("unexpected: {:?}", other),
    }
    assert!(get_raw_payee_name(&no_payee, &f).is_err());

    let no_amount = row(&[("Date", "06/01/2018"), ("Payee", "A"), ("Amount", " "), ("Status", "Cleared")]);
    match convert_to_transaction(&no_amount, &f) {
        Err(ParseError::MissingField { field }) => assert_eq!(field, "Amount"),
        other => panic!("unexpected: {:?}", other),
    }

    let no_date = row(&[("Payee", "A"), ("Amount", "1"), ("Status", "Cleared")]);
    match convert_to_transaction(&no_date, &f) {
        Err(ParseError::MissingField { field }) => assert_eq!(field, "Date"),
        other => panic!("unexpected: {:?}", other),
    }

    let no_status = row(&[("Date", "06/01/2018"), ("Payee", "A"), ("Amount", "1")]);
    match convert_to_transaction(&no_status, &f) {
        Err(ParseError::MissingField { field }) => assert_eq!(field, "Status"),
        other => panic!("unexpected: {:?}", other),
    }

    let ally = ally_format();
    let no_time = row(&[
        ("Date", "2018-06-01"),
        ("Amount", "1"),
        ("Type", "Deposit"),
        ("Description", "x"),
    ]);
    match convert_to_transaction(&no_time, &ally) {
        Err(ParseError::MissingField { field }) => assert_eq!(field, "Time"),
        other => panic!("unexpected: {:?}", other),
    }
    let no_type = row(&[
        ("Date", "2018-06-01"),
        ("Time", "01:01:54"),
        ("Amount", "1"),
        ("Description", "x"),
    ]);
    match convert_to_transaction(&no_type, &ally) {
        Err(ParseError::MissingField { field }) => assert_eq!(field, "Type"),
        other => panic!("unexpected: {:?}", other),
    }
}

#[test]
fn invalid_values_are_reported_with_the_value() {
    let f = single_format(true);
    match convert_to_transaction(&single_row("1-2"), &f) {
        Err(ParseError::InvalidAmount { value, reason }) => {
            assert_eq!(value, "1-2");
            match reason {
                AmountError::Unreadable { cause } => {
                    assert_eq!(cause, "Could not parse 1-2 into a currency.")
                }
                other => panic!("unexpected: {:?}", other),
            }
        }
        other => panic!("unexpected: {:?}", other),
    }
    match convert_to_transaction(&single_row("1.000000000000"), &f) {
        Err(ParseError::InvalidAmount { value, reason }) => {
            assert_eq!(value, "1.000000000000");
            assert!(matches!(reason, AmountError::TooPrecise));
        }
        other => panic!("unexpected: {:?}", other),
    }

    let mut bad_date = single_row("1");
    bad_date.insert(s("Date"), s("2018-06-01"));
    match convert_to_transaction(&bad_date, &f) {
        Err(ParseError::InvalidDateTime { value, format, cause }) => {
            assert_eq!(value, "2018-06-01 00:00:00");
            assert_eq!(format, "%m/%d/%Y %T");
            assert!(!cause.is_empty());
        }
        other => panic!("unexpected: {:?}", other),
    }

    let mut bad_status = single_row("1");
    bad_status.insert(s("Status"), s("cleared"));
    match convert_to_transaction(&bad_status, &f) {
        Err(ParseError::InvalidStatus { value, cleared_string, pending_string }) => {
            assert_eq!(value, "cleared");
            assert_eq!(cleared_string, "Cleared");
            assert_eq!(pending_string, "Pending");
        }
        other => panic!("unexpected: {:?}", other),
    }
    assert!(get_transaction_status(&bad_status, &f).is_err());

    let bad_type = row(&[
        ("Date", "2018-06-01"),
        ("Time", "01:01:54"),
        ("Amount", "1"),
        ("Type", "withdrawal"),
        ("Description", "x"),
    ]);
    match convert_to_transaction(&bad_type, &ally_format()) {
        Err(ParseError::InvalidTransactionType { value, credit_string, debit_string }) => {
            assert_eq!(value, "withdrawal");
            assert_eq!(credit_string, "Deposit");
            assert_eq!(debit_string, "Withdrawal");
        }
        other => panic!("unexpected: {:?}", other),
    }
}

#[test]
fn date_and_time_are_joined_by_the_deliminator() {
    let mut f = ally_format();
    let unmapped = row(&[("Date", "2018-06-01"), ("Time", "01:01:54")]);
    assert_eq!(
        get_date_time_and_format(&unmapped, &f).unwrap(),
        (s("2018-06-01 01:01:54"), s("%Y-%m-%d %T"))
    );
    f.date_time_config.deliminator = Some(s("T"));
    f.date_time_config.time_format = Some(s("%H:%M:%S"));
    assert_eq!(
        get_date_time_and_format(&unmapped, &f).unwrap(),
        (s("2018-06-01T01:01:54"), s("%Y-%m-%dT%H:%M:%S"))
    );
    f.date_time_config.time_field = None;
    assert_eq!(
        get_date_time_and_format(&unmapped, &f).unwrap(),
        (s("2018-06-01T00:00:00"), s("%Y-%m-%dT%T"))
    );
}

#[test]
fn memo_and_category_are_read_where_configured() {
    let f = single_format(true);
    let unmapped = row(&[("Memo", " m "), ("Category", "c")]);
    assert_eq!(get_memo(&unmapped, &f), Some(s(" m ")));
    assert_eq!(get_category(&unmapped, &f), Some(s("c")));
    assert_eq!(get_memo(&row(&[]), &f), None);
    let ally = ally_format();
    assert_eq!(get_memo(&unmapped, &ally), None);
    assert_eq!(get_category(&unmapped, &ally), None);
}

#[test]
fn one_bad_row_fails_the_import() {
    let f = single_format(true);
    let good = vec![single_row("1"), single_row("-2")];
    let ts = import_from_configurable_format(&good, &f).unwrap();
    assert_eq!(ts.len(), 2);
    assert_eq!(ts[1].transaction_type, TransactionType::Debit);
    let bad = vec![single_row("1"), row(&[]), single_row("-2")];
    assert!(matches!(
        import_from_configurable_format(&bad, &f),
        Err(ParseError::MissingField { .. })
    ));
}

#[test]
fn later_columns_of_one_name_win_and_unknown_columns_are_empty() {
    let mut f = single_format(true);
    let t = convert_to_transaction(&single_row("1"), &f).unwrap();
    f.memo_config = Some(MemoConfig { field_name: s("Payee") });
    let out = arrange_fields(
        &f,
        &t,
        s("D"),
        Some(s("ignored without a time column")),
        vec![(s("Amount"), s("first")), (s("Amount"), s("second"))],
    );
    assert_eq!(
        out,
        vec![s("D"), s("lunch"), s("second"), s("Cleared"), s(""), s(""), s("")]
    );
}

#[test]
fn a_date_format_that_cannot_be_written_is_an_error() {
    let mut f = single_format(true);
    let t = convert_to_transaction(&single_row("1"), &f).unwrap();
    f.date_time_config.date_format = s("%Q");
    match convert_to_configurable_format(&f, &t) {
        Err(ExportError::InvalidDateFormat { format }) => assert_eq!(format, "%Q"),
        other => panic!("unexpected: {:?}", other),
    }
}

#[test]
fn build_reads_the_date_and_takes_the_magnitude() {
    let t = Transaction::build(
        s("2018-06-01 01:01:54"),
        s("%Y-%m-%d %T"),
        s(" x "),
        None,
        TransactionType::Credit,
        Amount::parse("-3").unwrap(),
        TransactionStatus::Cleared,
        Some(s("a\nb")),
    )
    .unwrap();
    assert_eq!(t.date().secs, 1527814914);
    assert_eq!(t.amount.text, "3.00");
    assert!(!t.amount.is_negative());
    assert_eq!(t.raw_payee_name, "x");
    assert_eq!(t.memo, Some(s("a b")));
    assert!(matches!(
        Transaction::build(
            s("nonsense"),
            s("%Y"),
            s("x"),
            None,
            TransactionType::Credit,
            Amount::parse("3").unwrap(),
            TransactionStatus::Cleared,
            None,
        ),
        Err(ParseError::InvalidDateTime { .. })
    ));
}
