use transaction_processor::amount::Amount;
use transaction_processor::config::{
    validate_amount_config, validate_date_time_config, validate_format, AccountConfigFile,
    AmountConfig, AmountFormat, Arguments, CategoriesConfigFile, Category, CategoryConfig, Config,
    ConfigError, DataFormat, DateTimeConfig, FieldKind, FormatConfigFile, MatcherType, MemoConfig,
    Payee, PayeeConfig, PayeeNormalizerConfig, SeparateDebitCreditFieldsConfig,
    SingleAmountFieldConfig, Sort, SortBy, SortOrder, StatusConfig,
};
use transaction_processor::parser::{default_false, default_true, deserialize_keyed_items, Keyed};
use transaction_processor::payee::{CategoryStep, PayeeNormalizer};
use transaction_processor::row::FieldMap;
use transaction_processor::timestamp::Timestamp;
use transaction_processor::transaction::{Transaction, TransactionStatus, TransactionType};
use transaction_processor::transaction_io::{
    filter, normalize_and_categorize, sort, TransactionIO,
};

fn s(text: &str) -> String {
    String::from(text)
}

fn names(list: &[&str]) -> Vec<String> {
    list.iter().map(|n| s(n)).collect()
}

fn args() -> Arguments {
    Arguments {
        account_config_file: s("account.json"),
        categories_config_file: s("categories.json"),
        src_format_config_file: s("src.json"),
        dst_format_config_file: s("dst.json"),
        src_file: None,
        dst_file: None,
        sort_by: None,
        sort_order: None,
        include_header: None,
        ignore_pending: None,
        skip_prompts: None,
    }
}

fn rule(matcher: MatcherType, ignore_case: bool) -> PayeeNormalizerConfig {
    PayeeNormalizerConfig { normalizer_type: matcher, ignore_case }
}

fn payee(id: &str, name: &str, categories: Option<&[&str]>, rules: Vec<PayeeNormalizerConfig>) -> Payee {
    Payee {
        id: s(id),
        name: s(name),
        category_ids: categories.map(|c| names(c)),
        normalizers: rules,
    }
}

fn account() -> AccountConfigFile {
    AccountConfigFile {
        id: s("checking"),
        name: s("Checking"),
        format_id: s("bank"),
        ignore_pending: None,
        skip_prompts: None,
        sort: None,
        payees: vec![
            payee(
                "coffee",
                "Coffee House",
                Some(&["food"]),
                vec![rule(MatcherType::Contains { contains_string: s("COFFEE") }, true)],
            ),
            payee(
                "coffee-roasters",
                "Coffee Roasters Ltd",
                Some(&["food", "gifts"]),
                vec![rule(
                    MatcherType::Exact { exact_match_string: s("coffee roasters ltd") },
                    true,
                )],
            ),
            payee(
                "rent",
                "Landlord",
                None,
                vec![rule(MatcherType::Regex { regex_string: s("rent [0-9]+") }, false)],
            ),
            payee(
                "power",
                "Power Company",
                Some(&[]),
                vec![rule(MatcherType::Exact { exact_match_string: s("Power Co") }, false)],
            ),
        ],
    }
}

fn categories() -> CategoriesConfigFile {
    CategoriesConfigFile {
        categories: vec![
            Category { id: s("food"), name: s("Food and drink") },
            Category { id: s("gifts"), name: s("Gifts") },
        ],
    }
}

fn bank_format() -> FormatConfigFile {
    FormatConfigFile {
        id: s("bank"),
        name: s("Bank"),
        include_header: None,
        sort: None,
        data_format: DataFormat::Csv,
        field_order: names(&["Date", "Payee", "Amount", "Status"]),
        date_time_config: DateTimeConfig {
            date_field: s("Date"),
            date_format: s("%Y-%m-%d"),
            time_field: None,
            time_format: None,
            deliminator: None,
        },
        payee_config: PayeeConfig { field_name: s("Payee") },
        amount_config: AmountConfig {
            format: AmountFormat::SingleAmountField(SingleAmountFieldConfig {
                field_name: s("Amount"),
                debit_is_negative: true,
            }),
        },
        status_config: Some(StatusConfig {
            field_name: s("Status"),
            pending_string: s("Pending"),
            cleared_string: s("Cleared"),
        }),
        memo_config: None,
        category_config: None,
    }
}

fn sheet_format() -> FormatConfigFile {
    FormatConfigFile {
        id: s("sheet"),
        name: s("Sheet"),
        include_header: Some(true),
        sort: Some(Sort { sort_by: SortBy::Date, order: SortOrder::Descending }),
        data_format: DataFormat::Csv,
        field_order: names(&["Date", "Payee", "Category", "Debit", "Credit", "Memo"]),
        date_time_config: DateTimeConfig {
            date_field: s("Date"),
            date_format: s("%m/%d/%Y"),
            time_field: None,
            time_format: None,
            deliminator: None,
        },
        payee_config: PayeeConfig { field_name: s("Payee") },
        amount_config: AmountConfig {
            format: AmountFormat::SeparateDebitCreditFields(SeparateDebitCreditFieldsConfig {
                debit_field: s("Debit"),
                credit_field: s("Credit"),
            }),
        },
        status_config: None,
        memo_config: Some(MemoConfig { field_name: s("Memo") }),
        category_config: Some(CategoryConfig { field_name: s("Category") }),
    }
}

fn config_with(a: Arguments) -> Config {
    Config::new(a, account(), categories(), bank_format(), sheet_format()).unwrap()
}

fn config() -> Config {
    config_with(args())
}

fn transaction(payee: &str, day: i64, status: TransactionStatus) -> Transaction {
    Transaction::new(
        Timestamp { secs: day * 86400, nanos: 0 },
        s(payee),
        None,
        TransactionType::Debit,
        Amount::parse("1").unwrap(),
        status,
        None,
    )
    .unwrap()
}

fn bank_row(date: &str, payee: &str, amount: &str, status: &str) -> FieldMap {
    let mut m = FieldMap::new();
    m.insert(s("Date"), s(date));
    m.insert(s("Payee"), s(payee));
    m.insert(s("Amount"), s(amount));
    m.insert(s("Status"), s(status));
    m
}

#[test]
fn the_first_matching_rule_wins() {
    let c = config();
    assert_eq!(
        PayeeNormalizer::normalized_payee_id(&c, "Coffee Roasters Ltd"),
        Some(s("coffee"))
    );
    let mut t = transaction("Coffee Roasters Ltd", 1, TransactionStatus::Cleared);
    t.normalize_payee(&c);
    assert_eq!(t.normalized_payee_id, Some(s("coffee")));
    assert_eq!(t.normalized_payee_name, Some(s("Coffee House")));
    assert_eq!(t.payee(), "Coffee House");
}

#[test]
fn an_unmatched_payee_keeps_its_raw_name() {
    let c = config();
    let mut t = transaction("  Unknown\nshop ", 1, TransactionStatus::Cleared);
    t.normalize_payee(&c);
    assert_eq!(t.normalized_payee_id, None);
    assert_eq!(t.normalized_payee_name, None);
    assert_eq!(t.payee(), "Unknown shop");
    assert_eq!(t.categorize(&c), None);
    assert_eq!(t.category, None);
}

#[test]
fn matchers_fold_case_only_where_asked() {
    let exact = rule(MatcherType::Exact { exact_match_string: s("Power Co") }, false);
    assert!(PayeeNormalizer::rule_applies(&exact, "Power Co"));
    assert!(!PayeeNormalizer::rule_applies(&exact, "power co"));
    assert!(!PayeeNormalizer::rule_applies(&exact, "Power Company"));
    let folded = rule(MatcherType::Exact { exact_match_string: s("Power Co") }, true);
    assert!(PayeeNormalizer::rule_applies(&folded, "POWER CO"));
    let contains = rule(MatcherType::Contains { contains_string: s("COFFEE") }, true);
    assert!(PayeeNormalizer::rule_applies(&contains, "the coffee shop"));
    let strict = rule(MatcherType::Contains { contains_string: s("COFFEE") }, false);
    assert!(!PayeeNormalizer::rule_applies(&strict, "the coffee shop"));
    assert!(PayeeNormalizer::rule_applies(&strict, "THE COFFEE SHOP"));
    assert_eq!(PayeeNormalizer::maybe_to_lower(true, "AbC"), "abc");
    assert_eq!(PayeeNormalizer::maybe_to_lower(false, "AbC"), "AbC");
}

#[test]
fn a_regex_matches_anywhere_in_the_text() {
    let r = rule(MatcherType::Regex { regex_string: s("rent [0-9]+") }, false);
    assert!(PayeeNormalizer::rule_applies(&r, "monthly rent 42 paid"));
    assert!(!PayeeNormalizer::rule_applies(&r, "monthly RENT 42 paid"));
    assert!(!PayeeNormalizer::rule_applies(&r, "rent"));
    let folded = rule(MatcherType::Regex { regex_string: s("rent [0-9]+") }, true);
    assert!(PayeeNormalizer::rule_applies(&folded, "monthly RENT 42 paid"));
    let broken = rule(MatcherType::Regex { regex_string: s("rent (") }, true);
    assert!(!PayeeNormalizer::rule_applies(&broken, "rent ("));
}

#[test]
fn one_candidate_category_needs_no_question() {
    let c = config();
    let mut t = transaction("coffee", 1, TransactionStatus::Cleared);
    t.normalize_payee(&c);
    assert_eq!(t.categorize(&c), None);
    assert_eq!(t.category, Some(s("Food and drink")));
}

#[test]
fn several_candidates_are_asked_for_unless_prompts_are_skipped() {
    let c = config();
    let mut t = transaction("Coffee Roasters Ltd", 1, TransactionStatus::Cleared);
    t.normalized_payee_id = Some(s("coffee-roasters"));
    match PayeeNormalizer::category_for_transaction(&c, &t) {
        CategoryStep::Ask(ids) => assert_eq!(ids, names(&["food", "gifts"])),
        other => panic!("unexpected: {:?}", other),
    }
    let ask = t.categorize(&c).unwrap();
    assert_eq!(ask, names(&["food", "gifts"]));
    assert_eq!(t.category, None);
    assert_eq!(
        PayeeNormalizer::prompt_options(&c, &ask),
        vec![Some(s("Food and drink")), Some(s("Gifts"))]
    );
    t.choose_category(&c, &ask, 2);
    assert_eq!(t.category, Some(s("Gifts")));
    t.choose_category(&c, &ask, 0);
    assert_eq!(t.category, None);
    t.choose_category(&c, &ask, 1);
    assert_eq!(t.category, Some(s("Food and drink")));
    t.choose_category(&c, &ask, 3);
    assert_eq!(t.category, None);

    let mut a = args();
    a.skip_prompts = Some(true);
    let quiet = config_with(a);
    assert_eq!(t.categorize(&quiet), None);
    assert_eq!(t.category, None);
}

#[test]
fn no_candidates_give_no_category() {
    let c = config();
    let mut t = transaction("Power Co", 1, TransactionStatus::Cleared);
    t.normalize_payee(&c);
    assert_eq!(t.normalized_payee_id, Some(s("power")));
    assert_eq!(t.categorize(&c), None);
    assert_eq!(t.category, None);
    let mut t = transaction("rent 12", 1, TransactionStatus::Cleared);
    t.normalize_payee(&c);
    assert_eq!(t.normalized_payee_name, Some(s("Landlord")));
    assert_eq!(t.categorize(&c), None);
    assert_eq!(t.category, None);
}

#[test]
fn pending_transactions_are_dropped_in_order() {
    let mut a = args();
    a.ignore_pending = Some(true);
    let c = config_with(a);
    let batch = vec![
        transaction("a", 1, TransactionStatus::Pending),
        transaction("b", 1, TransactionStatus::Cleared),
        transaction("c", 1, TransactionStatus::Pending),
        transaction("d", 1, TransactionStatus::Pending),
        transaction("e", 1, TransactionStatus::Cleared),
    ];
    let kept = filter(&c, batch);
    let payees: Vec<&str> = kept.iter().map(|t| t.payee()).collect();
    assert_eq!(payees, vec!["b", "e"]);

    let all = filter(
        &config(),
        vec![
            transaction("a", 1, TransactionStatus::Pending),
            transaction("b", 1, TransactionStatus::Cleared),
        ],
    );
    assert_eq!(all.len(), 2);
}

#[test]
fn sorting_keeps_transactions_of_one_date_in_order() {
    let batch = || {
        vec![
            transaction("a", 3, TransactionStatus::Cleared),
            transaction("b", 1, TransactionStatus::Cleared),
            transaction("c", 3, TransactionStatus::Cleared),
            transaction("d", 2, TransactionStatus::Cleared),
            transaction("e", 1, TransactionStatus::Cleared),
        ]
    };
    let mut a = args();
    a.sort_order = Some(SortOrder::Ascending);
    let up = sort(&config_with(a), batch());
    let payees: Vec<&str> = up.iter().map(|t| t.payee()).collect();
    assert_eq!(payees, vec!["b", "e", "d", "a", "c"]);

    let mut a = args();
    a.sort_order = Some(SortOrder::Descending);
    let down = sort(&config_with(a), batch());
    let payees: Vec<&str> = down.iter().map(|t| t.payee()).collect();
    assert_eq!(payees, vec!["a", "c", "d", "b", "e"]);
}

#[test]
fn sorting_looks_at_the_nanoseconds_too() {
    let mut first = transaction("late", 1, TransactionStatus::Cleared);
    first.date = Timestamp { secs: 5, nanos: 7 };
    let mut second = transaction("early", 1, TransactionStatus::Cleared);
    second.date = Timestamp { secs: 5, nanos: 6 };
    assert!(second.date.is_before(&first.date));
    let mut a = args();
    a.sort_order = Some(SortOrder::Ascending);
    let up = sort(&config_with(a), vec![first, second]);
    assert_eq!(up[0].payee(), "early");
}

#[test]
fn overrides_come_before_the_files() {
    let c = config();
    assert_eq!(c.sort_order(), Some(SortOrder::Descending));
    assert_eq!(c.sort_by(), Some(SortBy::Date));
    assert!(c.include_header());
    assert!(!c.ignore_pending());
    assert!(!c.skip_prompts());
    assert_eq!(c.src_file(), None);
    assert_eq!(c.dst_file(), None);
    assert_eq!(c.account().id, "checking");
    assert_eq!(c.src_format().id, "bank");
    assert_eq!(c.dst_format().id, "sheet");
    assert_eq!(c.category(&s("gifts")).unwrap().name, "Gifts");
    assert!(c.category(&s("none")).is_none());
    assert_eq!(c.payee(&s("rent")).unwrap().name, "Landlord");

    let mut a = args();
    a.sort_order = Some(SortOrder::Ascending);
    a.include_header = Some(false);
    a.ignore_pending = Some(true);
    a.skip_prompts = Some(true);
    a.src_file = Some(s("in.csv"));
    let c = config_with(a);
    assert_eq!(c.sort_order(), Some(SortOrder::Ascending));
    assert!(!c.include_header());
    assert!(c.ignore_pending());
    assert!(c.skip_prompts());
    assert_eq!(c.src_file(), Some(&s("in.csv")));

    let mut own = account();
    own.sort = Some(Sort { sort_by: SortBy::Date, order: SortOrder::Ascending });
    let c = Config::new(args(), own, categories(), bank_format(), sheet_format()).unwrap();
    assert_eq!(c.sort_order(), Some(SortOrder::Ascending));

    let mut plain = sheet_format();
    plain.sort = None;
    plain.include_header = None;
    let c = Config::new(args(), account(), categories(), bank_format(), plain).unwrap();
    assert_eq!(c.sort_order(), Some(SortOrder::Ascending));
    assert!(!c.include_header());
}

#[test]
fn a_column_outside_the_field_order_fails_the_load() {
    let mut f = bank_format();
    f.memo_config = Some(MemoConfig { field_name: s("Memo") });
    match validate_format(&f) {
        Err(ConfigError::FieldNotInOrder { kind, field_name, format_id }) => {
            assert_eq!(kind, FieldKind::Memo);
            assert_eq!(field_name, "Memo");
            assert_eq!(format_id, "bank");
        }
        other => panic!("unexpected: {:?}", other),
    }
    let e = Config::new(args(), account(), categories(), f, sheet_format()).unwrap_err();
    assert_eq!(
        e.message(),
        "Memo field name [Memo] for format [bank] not included in field order."
    );

    let mut f = bank_format();
    f.field_order = names(&["Payee", "Amount", "Status", "Extra"]);
    assert!(matches!(
        validate_date_time_config(&f, &f.date_time_config),
        Err(ConfigError::FieldNotInOrder { kind: FieldKind::Date, .. })
    ));
    f.field_order = names(&["Date", "Payee", "Status"]);
    assert!(matches!(
        validate_amount_config(&f, &f.amount_config),
        Err(ConfigError::FieldNotInOrder { kind: FieldKind::Amount, .. })
    ));
    f.field_order = names(&["Date", "Amount", "Status"]);
    assert!(matches!(
        validate_format(&f),
        Err(ConfigError::FieldNotInOrder { kind: FieldKind::Payee, .. })
    ));
    let mut d = sheet_format();
    d.field_order = names(&["Date", "Payee", "Category", "Debit", "Memo"]);
    assert!(matches!(
        Config::new(args(), account(), categories(), bank_format(), d),
        Err(ConfigError::FieldNotInOrder { kind: FieldKind::Credit, .. })
    ));
    let mut extra = bank_format();
    extra.field_order.push(s("Never used"));
    assert!(validate_format(&extra).is_ok());
}

#[test]
fn broken_references_fail_the_load() {
    let mut a = account();
    a.format_id = s("other");
    let e = Config::new(args(), a, categories(), bank_format(), sheet_format()).unwrap_err();
    assert_eq!(
        e.message(),
        "Format ID [other] for account [Checking] is different from the ID of the provided source format file [src.json]."
    );

    let mut a = account();
    a.payees[1].category_ids = Some(names(&["food", "travel"]));
    match Config::new(args(), a, categories(), bank_format(), sheet_format()) {
        Err(ConfigError::UnknownCategory { category_id, payee_id }) => {
            assert_eq!(category_id, "travel");
            assert_eq!(payee_id, "coffee-roasters");
        }
        other => panic!("unexpected: {:?}", other.map(|_| ())),
    }

    let mut a = account();
    a.payees[2].normalizers = vec![rule(MatcherType::Regex { regex_string: s("rent (") }, true)];
    match Config::new(args(), a, categories(), bank_format(), sheet_format()) {
        Err(ConfigError::InvalidRegex { payee_id, cause }) => {
            assert_eq!(payee_id, "rent");
            assert!(!cause.is_empty());
        }
        other => panic!("unexpected: {:?}", other.map(|_| ())),
    }
}

#[test]
fn keys_have_to_differ() {
    assert!(default_true());
    assert!(!default_false());
    assert_eq!(categories().categories[1].key(), "gifts");
    let twice = vec![
        Category { id: s("a"), name: s("A") },
        Category { id: s("b"), name: s("B") },
        Category { id: s("a"), name: s("C") },
    ];
    let e = deserialize_keyed_items(twice).unwrap_err();
    assert_eq!(e.key, "a");
    assert_eq!(e.index, 2);
    assert_eq!(deserialize_keyed_items(account().payees).unwrap().len(), 4);
}

#[test]
fn rows_run_through_the_whole_pipeline() {
    let mut a = args();
    a.ignore_pending = Some(true);
    let c = config_with(a);
    let unmapped = vec![
        bank_row("2018-06-01", "Coffee Roasters Ltd", "-4.50", "Cleared"),
        bank_row("2018-06-03", "coffee roasters ltd ", "-20", "Pending"),
        bank_row("2018-06-02", "rent 6", "-1,000", "Cleared"),
        bank_row("2018-06-02", "Salary", "2500", "Cleared"),
    ];
    let (mut ts, questions) = TransactionIO::import(&c, &unmapped).unwrap();
    assert_eq!(ts.len(), 3);
    assert!(questions.is_empty());
    assert_eq!(ts[0].category, Some(s("Food and drink")));
    assert_eq!(ts[2].normalized_payee_id, None);
    ts[2].memo = Some(s("June"));
    let out = TransactionIO::export(&c, ts).unwrap();
    assert_eq!(
        out,
        vec![
            names(&["Date", "Payee", "Category", "Debit", "Credit", "Memo"]),
            names(&["06/02/2018", "Landlord", "", "1000.00", "", ""]),
            names(&["06/02/2018", "Salary", "", "", "2500.00", "June"]),
            names(&["06/01/2018", "Coffee House", "Food and drink", "4.50", "", ""]),
        ]
    );
    let bad = vec![bank_row("2018-06-01", "x", "1", "Done")];
    assert_eq!(
        TransactionIO::import(&c, &bad).unwrap_err().message(),
        "String [Done] matches neither the cleared string [Cleared] nor the pending string [Pending]"
    );
}

#[test]
fn open_questions_are_answered_by_position() {
    let mut a = account();
    a.payees.swap(0, 1);
    let c = Config::new(args(), a, categories(), bank_format(), sheet_format()).unwrap();
    let batch = vec![
        transaction("Salary", 1, TransactionStatus::Cleared),
        transaction("Coffee Roasters Ltd", 1, TransactionStatus::Cleared),
        transaction("coffee", 1, TransactionStatus::Cleared),
        transaction("COFFEE ROASTERS LTD", 1, TransactionStatus::Cleared),
    ];
    let (mut ts, questions) = normalize_and_categorize(&c, batch);
    assert_eq!(questions.len(), 2);
    assert_eq!(questions[0].index, 1);
    assert_eq!(questions[1].index, 3);
    assert_eq!(questions[0].candidates, names(&["food", "gifts"]));
    assert_eq!(ts[2].category, Some(s("Food and drink")));
    assert_eq!(ts[1].category, None);
    TransactionIO::answer(&c, &mut ts, &questions[0], 2);
    TransactionIO::answer(&c, &mut ts, &questions[1], 0);
    assert_eq!(ts[1].category, Some(s("Gifts")));
    assert_eq!(ts[3].category, None);
    assert_eq!(ts[0].category, None);
}
