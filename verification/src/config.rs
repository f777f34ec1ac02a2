//! The configuration of one run: the account with its payees, the categories,
//! the source and destination formats, and the command-line overrides.

use crate::util::{contains_name, opt_text, texts};
use regex::RegexBuilder;
use vstd::prelude::*;

verus! {

/// What to sort the output by.
#[derive(Debug, Clone, Copy, PartialEq, Eq, Structural)]
pub enum SortBy {
    Date,
}

/// The direction of the sort.
#[derive(Debug, Clone, Copy, PartialEq, Eq, Structural)]
pub enum SortOrder {
    Ascending,
    Descending,
}

/// A sort key with its direction.
#[derive(Debug, Clone, Copy)]
pub struct Sort {
    pub sort_by: SortBy,
    pub order: SortOrder,
}

/// The encoding of the rows.
#[derive(Debug, Clone, Copy)]
pub enum DataFormat {
    Csv,
}

/// The values given on the command line. Each of them overrides the
/// configuration files where it is present.
#[derive(Debug)]
pub struct Arguments {
    pub account_config_file: String,
    pub categories_config_file: String,
    pub src_format_config_file: String,
    pub dst_format_config_file: String,
    pub src_file: Option<String>,
    pub dst_file: Option<String>,
    pub sort_by: Option<SortBy>,
    pub sort_order: Option<SortOrder>,
    pub include_header: Option<bool>,
    pub ignore_pending: Option<bool>,
    pub skip_prompts: Option<bool>,
}

/// A category that a transaction can be assigned to.
#[derive(Debug)]
pub struct Category {
    pub id: String,
    pub name: String,
}

/// How a normalizer rule tests the raw payee text.
#[derive(Debug)]
pub enum MatcherType {
    Exact { exact_match_string: String },
    Contains { contains_string: String },
    Regex { regex_string: String },
}

/// One normalizer rule of a payee.
#[derive(Debug)]
pub struct PayeeNormalizerConfig {
    pub normalizer_type: MatcherType,
    pub ignore_case: bool,
}

/// A counterparty, with the categories its transactions may fall under and the
/// rules that recognise it in raw payee text.
#[derive(Debug)]
pub struct Payee {
    pub id: String,
    pub name: String,
    pub category_ids: Option<Vec<String>>,
    pub normalizers: Vec<PayeeNormalizerConfig>,
}

/// The categories, in the order in which they were declared.
#[derive(Debug)]
pub struct CategoriesConfigFile {
    pub categories: Vec<Category>,
}

/// An account, with its payees in the order in which they were declared.
#[derive(Debug)]
pub struct AccountConfigFile {
    pub id: String,
    pub name: String,
    pub format_id: String,
    pub ignore_pending: Option<bool>,
    pub skip_prompts: Option<bool>,
    pub sort: Option<Sort>,
    pub payees: Vec<Payee>,
}

/// Where the date and the time of day stand in a row, and how they are written.
#[derive(Debug)]
pub struct DateTimeConfig {
    pub date_field: String,
    pub date_format: String,
    pub time_field: Option<String>,
    pub time_format: Option<String>,
    pub deliminator: Option<String>,
}

/// The column that holds the payee.
#[derive(Debug)]
pub struct PayeeConfig {
    pub field_name: String,
}

/// One column holds a signed amount.
#[derive(Debug)]
pub struct SingleAmountFieldConfig {
    pub field_name: String,
    pub debit_is_negative: bool,
}

/// Debits and credits stand in two columns, of which one is filled.
#[derive(Debug)]
pub struct SeparateDebitCreditFieldsConfig {
    pub debit_field: String,
    pub credit_field: String,
}

/// One column holds the amount, another a word that tells debit from credit.
#[derive(Debug)]
pub struct TransactionTypeAndAmountFieldsConfig {
    pub amount_field: String,
    pub transaction_type_field: String,
    pub credit_string: String,
    pub debit_string: String,
    pub include_debit_sign: bool,
}

/// The three ways in which a format can encode amount and direction.
#[derive(Debug)]
pub enum AmountFormat {
    SingleAmountField(SingleAmountFieldConfig),
    SeparateDebitCreditFields(SeparateDebitCreditFieldsConfig),
    TransactionTypeAndAmountFields(TransactionTypeAndAmountFieldsConfig),
}

/// The amount encoding of a format.
#[derive(Debug)]
pub struct AmountConfig {
    pub format: AmountFormat,
}

/// The column that holds the status, and the two words that may stand in it.
#[derive(Debug)]
pub struct StatusConfig {
    pub field_name: String,
    pub pending_string: String,
    pub cleared_string: String,
}

/// The column that holds the memo.
#[derive(Debug)]
pub struct MemoConfig {
    pub field_name: String,
}

/// The column that holds the category.
#[derive(Debug)]
pub struct CategoryConfig {
    pub field_name: String,
}

/// The description of one tabular layout.
#[derive(Debug)]
pub struct FormatConfigFile {
    pub id: String,
    pub name: String,
    pub include_header: Option<bool>,
    pub sort: Option<Sort>,
    pub data_format: DataFormat,
    pub field_order: Vec<String>,
    pub date_time_config: DateTimeConfig,
    pub payee_config: PayeeConfig,
    pub amount_config: AmountConfig,
    pub status_config: Option<StatusConfig>,
    pub memo_config: Option<MemoConfig>,
    pub category_config: Option<CategoryConfig>,
}

/// The role in which a format names a column.
#[derive(Debug, Clone, Copy, PartialEq, Eq, Structural)]
pub enum FieldKind {
    Date,
    Time,
    Amount,
    Debit,
    Credit,
    TransactionType,
    Payee,
    Status,
    Memo,
    Category,
}

/// Why a configuration was refused.
#[derive(Debug)]
pub enum ConfigError {
    /// The account names another format than the source format that was given.
    FormatMismatch { format_id: String, account_name: String, src_format_file: String },
    /// The pattern of a normalizer rule is no regular expression.
    InvalidRegex { payee_id: String, cause: String },
    /// A payee names a category that does not exist.
    UnknownCategory { category_id: String, payee_id: String },
    /// A format names a column that its field order does not list.
    FieldNotInOrder { kind: FieldKind, field_name: String, format_id: String },
}

/// What the contracts say of a `ConfigError`.
pub enum ConfigErrorView {
    FormatMismatch { format_id: Seq<char>, account_name: Seq<char>, src_format_file: Seq<char> },
    InvalidRegex { payee_id: Seq<char>, cause: Seq<char> },
    UnknownCategory { category_id: Seq<char>, payee_id: Seq<char> },
    FieldNotInOrder { kind: FieldKind, field_name: Seq<char>, format_id: Seq<char> },
}

impl View for ConfigError {
    type V = ConfigErrorView;

    open spec fn view(&self) -> ConfigErrorView {
        match self {
            ConfigError::FormatMismatch {
                format_id,
                account_name,
                src_format_file,
            } => ConfigErrorView::FormatMismatch {
                format_id: format_id@,
                account_name: account_name@,
                src_format_file: src_format_file@,
            },
            ConfigError::InvalidRegex { payee_id, cause } => ConfigErrorView::InvalidRegex {
                payee_id: payee_id@,
                cause: cause@,
            },
            ConfigError::UnknownCategory {
                category_id,
                payee_id,
            } => ConfigErrorView::UnknownCategory {
                category_id: category_id@,
                payee_id: payee_id@,
            },
            ConfigError::FieldNotInOrder {
                kind,
                field_name,
                format_id,
            } => ConfigErrorView::FieldNotInOrder {
                kind: *kind,
                field_name: field_name@,
                format_id: format_id@,
            },
        }
    }
}

impl FieldKind {
    /// The role in words.
    pub open spec fn text(self) -> Seq<char> {
        match self {
            FieldKind::Date => "Date"@,
            FieldKind::Time => "Time"@,
            FieldKind::Amount => "Amount"@,
            FieldKind::Debit => "Debit"@,
            FieldKind::Credit => "Credit"@,
            FieldKind::TransactionType => "Transaction type"@,
            FieldKind::Payee => "Payee"@,
            FieldKind::Status => "Status"@,
            FieldKind::Memo => "Memo"@,
            FieldKind::Category => "Category"@,
        }
    }

    /// The role in words.
    pub fn name(&self) -> (r: &'static str)
        ensures
            r@ == self.text(),
    {
        match self {
            FieldKind::Date => "Date",
            FieldKind::Time => "Time",
            FieldKind::Amount => "Amount",
            FieldKind::Debit => "Debit",
            FieldKind::Credit => "Credit",
            FieldKind::TransactionType => "Transaction type",
            FieldKind::Payee => "Payee",
            FieldKind::Status => "Status",
            FieldKind::Memo => "Memo",
            FieldKind::Category => "Category",
        }
    }
}

impl ConfigErrorView {
    /// The error in words.
    pub open spec fn text(self) -> Seq<char> {
        match self {
            ConfigErrorView::FormatMismatch { format_id, account_name, src_format_file } =>
                "Format ID ["@ + format_id + "] for account ["@ + account_name
                + "] is different from the ID of the provided source format file ["@
                + src_format_file + "]."@,
            ConfigErrorView::InvalidRegex { payee_id, cause } =>
                "Invalid regex string provided to normalizer for payee ["@ + payee_id + "]: "@
                + cause,
            ConfigErrorView::UnknownCategory { category_id, payee_id } => "Category ["@
                + category_id + "] does not exist. Referenced from payee ["@ + payee_id + "]."@,
            ConfigErrorView::FieldNotInOrder { kind, field_name, format_id } => kind.text()
                + " field name ["@ + field_name + "] for format ["@ + format_id
                + "] not included in field order."@,
        }
    }
}

impl ConfigError {
    /// The error in words, with the ids that it is about.
    pub fn message(&self) -> (r: String)
        ensures
            r@ == self@.text(),
    {
        match self {
            ConfigError::FormatMismatch {
                format_id,
                account_name,
                src_format_file,
            } => "Format ID [".to_owned().concat(format_id.as_str()).concat(
                "] for account [",
            ).concat(account_name.as_str()).concat(
                "] is different from the ID of the provided source format file [",
            ).concat(src_format_file.as_str()).concat("]."),
            ConfigError::InvalidRegex {
                payee_id,
                cause,
            } => "Invalid regex string provided to normalizer for payee [".to_owned().concat(
                payee_id.as_str(),
            ).concat("]: ").concat(cause.as_str()),
            ConfigError::UnknownCategory {
                category_id,
                payee_id,
            } => "Category [".to_owned().concat(category_id.as_str()).concat(
                "] does not exist. Referenced from payee [",
            ).concat(payee_id.as_str()).concat("]."),
            ConfigError::FieldNotInOrder { kind, field_name, format_id } => kind.name().to_owned().concat(
                " field name [",
            ).concat(field_name.as_str()).concat("] for format [").concat(
                format_id.as_str(),
            ).concat("] not included in field order."),
        }
    }
}

/// Why the regex engine refuses to build `pattern` with the given case
/// sensitivity, if it does.
pub uninterp spec fn regex_build_error(pattern: Seq<char>, ignore_case: bool) -> Option<Seq<char>>;

/// Builds `pattern` with `RegexBuilder::new`, `case_insensitive` and `build`.
/// Trusted: whether the build fails, and with which message, depends on the two
/// arguments alone; the contract names that outcome `regex_build_error`.
#[verifier::external_body]
fn regex_check(pattern: &str, ignore_case: bool) -> (r: Option<String>)
    ensures
        opt_text(r) == regex_build_error(pattern@, ignore_case),
{
    match RegexBuilder::new(pattern).case_insensitive(ignore_case).build() {
        Ok(_) => None,
        Err(e) => Some(e.to_string()),
    }
}

/// Whether `pattern`, built with the given case sensitivity, matches somewhere
/// in `text`, as `Regex::is_match` decides it; `None` where the pattern does not
/// build.
pub uninterp spec fn regex_match(pattern: Seq<char>, ignore_case: bool, text: Seq<char>) -> Option<
    bool,
>;

/// Builds `pattern` as `regex_check` does and calls `Regex::is_match` on `text`.
/// Trusted: the outcome depends on the three arguments alone and is named
/// `regex_match`; there is one exactly where the pattern builds.
#[verifier::external_body]
pub(crate) fn regex_is_match(pattern: &str, ignore_case: bool, text: &str) -> (r: Option<bool>)
    ensures
        r == regex_match(pattern@, ignore_case, text@),
        r is Some <==> regex_build_error(pattern@, ignore_case) is None,
{
    match RegexBuilder::new(pattern).case_insensitive(ignore_case).build() {
        Ok(re) => Some(re.is_match(text)),
        Err(_) => None,
    }
}

/// Whether `i` is the first position at which `name` stands in `names`.
pub open spec fn is_first_index(names: Seq<Seq<char>>, name: Seq<char>, i: int) -> bool {
    &&& 0 <= i < names.len()
    &&& names[i] == name
    &&& forall|k: int| 0 <= k < i ==> names[k] != name
}

/// The first position at which `name` stands in `names`.
pub open spec fn first_index(names: Seq<Seq<char>>, name: Seq<char>) -> Option<int> {
    if exists|i: int| is_first_index(names, name, i) {
        Some(choose|i: int| is_first_index(names, name, i))
    } else {
        None
    }
}

/// A first position is the first position.
pub proof fn lemma_first_index(names: Seq<Seq<char>>, name: Seq<char>, i: int)
    requires
        is_first_index(names, name, i),
    ensures
        first_index(names, name) == Some(i),
{
    let j = choose|j: int| is_first_index(names, name, j);
    assert(is_first_index(names, name, j));
    if j < i {
        assert(names[j] != name);
    }
    if i < j {
        assert(names[i] != name);
    }
}

/// A name that stands nowhere has no first position.
pub proof fn lemma_no_index(names: Seq<Seq<char>>, name: Seq<char>)
    requires
        forall|k: int| 0 <= k < names.len() ==> names[k] != name,
    ensures
        first_index(names, name) is None,
{
}

/// The ids of a list of categories.
pub open spec fn category_ids(cats: Seq<Category>) -> Seq<Seq<char>> {
    cats.map_values(|c: Category| c.id@)
}

/// The ids of a list of payees.
pub open spec fn payee_ids(payees: Seq<Payee>) -> Seq<Seq<char>> {
    payees.map_values(|p: Payee| p.id@)
}

/// The position of the first category with the given id.
pub fn find_category(cats: &Vec<Category>, id: &String) -> (r: Option<usize>)
    ensures
        match r {
            Some(i) => first_index(category_ids(cats@), id@) == Some(i as int),
            None => first_index(category_ids(cats@), id@) is None,
        },
        r is Some <==> category_ids(cats@).contains(id@),
{
    let mut i: usize = 0;
    while i < cats.len()
        invariant
            i <= cats.len(),
            forall|k: int| 0 <= k < i ==> category_ids(cats@)[k] != id@,
        decreases cats.len() - i,
    {
        if cats[i].id == *id {
            proof {
                lemma_first_index(category_ids(cats@), id@, i as int);
                assert(category_ids(cats@)[i as int] == id@);
            }
            return Some(i);
        }
        i += 1;
    }
    proof {
        lemma_no_index(category_ids(cats@), id@);
    }
    None
}

/// The position of the first payee with the given id.
pub fn find_payee(payees: &Vec<Payee>, id: &String) -> (r: Option<usize>)
    ensures
        match r {
            Some(i) => first_index(payee_ids(payees@), id@) == Some(i as int),
            None => first_index(payee_ids(payees@), id@) is None,
        },
{
    let mut i: usize = 0;
    while i < payees.len()
        invariant
            i <= payees.len(),
            forall|k: int| 0 <= k < i ==> payee_ids(payees@)[k] != id@,
        decreases payees.len() - i,
    {
        if payees[i].id == *id {
            proof {
                lemma_first_index(payee_ids(payees@), id@, i as int);
            }
            return Some(i);
        }
        i += 1;
    }
    proof {
        lemma_no_index(payee_ids(payees@), id@);
    }
    None
}

/// The category ids that a payee names.
pub open spec fn candidate_ids(p: Payee) -> Seq<String> {
    match p.category_ids {
        Some(ids) => ids@,
        None => Seq::<String>::empty(),
    }
}

/// The first of the given columns, if any, that the field order does not list.
pub open spec fn missing_date_time_field(order: Seq<Seq<char>>, d: DateTimeConfig) -> Option<
    (FieldKind, Seq<char>),
> {
    if !order.contains(d.date_field@) {
        Some((FieldKind::Date, d.date_field@))
    } else {
        match d.time_field {
            Some(t) => if !order.contains(t@) {
                Some((FieldKind::Time, t@))
            } else {
                None
            },
            None => None,
        }
    }
}

/// The first column of the amount encoding, if any, that the field order does not list.
pub open spec fn missing_amount_field(order: Seq<Seq<char>>, a: AmountConfig) -> Option<
    (FieldKind, Seq<char>),
> {
    match a.format {
        AmountFormat::SingleAmountField(c) => if !order.contains(c.field_name@) {
            Some((FieldKind::Amount, c.field_name@))
        } else {
            None
        },
        AmountFormat::SeparateDebitCreditFields(c) => if !order.contains(c.debit_field@) {
            Some((FieldKind::Debit, c.debit_field@))
        } else if !order.contains(c.credit_field@) {
            Some((FieldKind::Credit, c.credit_field@))
        } else {
            None
        },
        AmountFormat::TransactionTypeAndAmountFields(c) => if !order.contains(c.amount_field@) {
            Some((FieldKind::Amount, c.amount_field@))
        } else if !order.contains(c.transaction_type_field@) {
            Some((FieldKind::TransactionType, c.transaction_type_field@))
        } else {
            None
        },
    }
}

/// The first of the payee, status, memo and category columns, if any, that the
/// field order does not list.
pub open spec fn missing_other_field(f: FormatConfigFile) -> Option<(FieldKind, Seq<char>)> {
    let order = texts(f.field_order@);
    if !order.contains(f.payee_config.field_name@) {
        Some((FieldKind::Payee, f.payee_config.field_name@))
    } else if f.status_config is Some && !order.contains(f.status_config->0.field_name@) {
        Some((FieldKind::Status, f.status_config->0.field_name@))
    } else if f.memo_config is Some && !order.contains(f.memo_config->0.field_name@) {
        Some((FieldKind::Memo, f.memo_config->0.field_name@))
    } else if f.category_config is Some && !order.contains(f.category_config->0.field_name@) {
        Some((FieldKind::Category, f.category_config->0.field_name@))
    } else {
        None
    }
}

/// The first column that the format names and its field order does not list:
/// date, time, the amount columns, payee, status, memo, category, in this order.
pub open spec fn missing_field(f: FormatConfigFile) -> Option<(FieldKind, Seq<char>)> {
    let order = texts(f.field_order@);
    if missing_date_time_field(order, f.date_time_config) is Some {
        missing_date_time_field(order, f.date_time_config)
    } else if missing_amount_field(order, f.amount_config) is Some {
        missing_amount_field(order, f.amount_config)
    } else {
        missing_other_field(f)
    }
}

/// Whether the field order lists every column that the format names.
pub open spec fn fields_listed(f: FormatConfigFile) -> bool {
    let order = texts(f.field_order@);
    &&& order.contains(f.date_time_config.date_field@)
    &&& f.date_time_config.time_field matches Some(t) ==> order.contains(t@)
    &&& match f.amount_config.format {
        AmountFormat::SingleAmountField(c) => order.contains(c.field_name@),
        AmountFormat::SeparateDebitCreditFields(c) => order.contains(c.debit_field@)
            && order.contains(c.credit_field@),
        AmountFormat::TransactionTypeAndAmountFields(c) => order.contains(c.amount_field@)
            && order.contains(c.transaction_type_field@),
    }
    &&& order.contains(f.payee_config.field_name@)
    &&& f.status_config matches Some(c) ==> order.contains(c.field_name@)
    &&& f.memo_config matches Some(c) ==> order.contains(c.field_name@)
    &&& f.category_config matches Some(c) ==> order.contains(c.field_name@)
}

/// Whether `r` reports exactly the missing column `missing` of the format `id`.
pub open spec fn reports_missing(
    r: Result<(), ConfigError>,
    missing: Option<(FieldKind, Seq<char>)>,
    id: Seq<char>,
) -> bool {
    match missing {
        None => r is Ok,
        Some((kind, field_name)) => r matches Err(e) && e@ == (ConfigErrorView::FieldNotInOrder {
            kind,
            field_name,
            format_id: id,
        }),
    }
}

/// The error that the field order of `f` does not list a column.
fn not_in_order(kind: FieldKind, field_name: &String, f: &FormatConfigFile) -> (r: Result<
    (),
    ConfigError,
>)
    ensures
        reports_missing(r, Some((kind, field_name@)), f.id@),
{
    Err(
        ConfigError::FieldNotInOrder {
            kind,
            field_name: field_name.clone(),
            format_id: f.id.clone(),
        },
    )
}

/// Checks that the field order lists the date column and, where there is one,
/// the time column.
pub fn validate_date_time_config(f: &FormatConfigFile, d: &DateTimeConfig) -> (r: Result<
    (),
    ConfigError,
>)
    ensures
        reports_missing(r, missing_date_time_field(texts(f.field_order@), *d), f.id@),
{
    if !contains_name(&f.field_order, &d.date_field) {
        return not_in_order(FieldKind::Date, &d.date_field, f);
    }
    if let Some(time_field) = &d.time_field {
        if !contains_name(&f.field_order, time_field) {
            return not_in_order(FieldKind::Time, time_field, f);
        }
    }
    Ok(())
}

/// Checks that the field order lists the columns of the amount encoding.
pub fn validate_amount_config(f: &FormatConfigFile, a: &AmountConfig) -> (r: Result<
    (),
    ConfigError,
>)
    ensures
        reports_missing(r, missing_amount_field(texts(f.field_order@), *a), f.id@),
{
    match &a.format {
        AmountFormat::SingleAmountField(c) => {
            if !contains_name(&f.field_order, &c.field_name) {
                return not_in_order(FieldKind::Amount, &c.field_name, f);
            }
        },
        AmountFormat::SeparateDebitCreditFields(c) => {
            if !contains_name(&f.field_order, &c.debit_field) {
                return not_in_order(FieldKind::Debit, &c.debit_field, f);
            }
            if !contains_name(&f.field_order, &c.credit_field) {
                return not_in_order(FieldKind::Credit, &c.credit_field, f);
            }
        },
        AmountFormat::TransactionTypeAndAmountFields(c) => {
            if !contains_name(&f.field_order, &c.amount_field) {
                return not_in_order(FieldKind::Amount, &c.amount_field, f);
            }
            if !contains_name(&f.field_order, &c.transaction_type_field) {
                return not_in_order(FieldKind::TransactionType, &c.transaction_type_field, f);
            }
        },
    }
    Ok(())
}

/// Checks that the field order of a format lists every column that the format
/// names. The error names the first column that is not listed.
pub fn validate_format(f: &FormatConfigFile) -> (r: Result<(), ConfigError>)
    ensures
        reports_missing(r, missing_field(*f), f.id@),
        r is Ok <==> fields_listed(*f),
{
    let checked = validate_date_time_config(f, &f.date_time_config);
    if checked.is_err() {
        return checked;
    }
    let checked = validate_amount_config(f, &f.amount_config);
    if checked.is_err() {
        return checked;
    }
    if !contains_name(&f.field_order, &f.payee_config.field_name) {
        return not_in_order(FieldKind::Payee, &f.payee_config.field_name, f);
    }
    if let Some(c) = &f.status_config {
        if !contains_name(&f.field_order, &c.field_name) {
            return not_in_order(FieldKind::Status, &c.field_name, f);
        }
    }
    if let Some(c) = &f.memo_config {
        if !contains_name(&f.field_order, &c.field_name) {
            return not_in_order(FieldKind::Memo, &c.field_name, f);
        }
    }
    if let Some(c) = &f.category_config {
        if !contains_name(&f.field_order, &c.field_name) {
            return not_in_order(FieldKind::Category, &c.field_name, f);
        }
    }
    Ok(())
}

/// The whole configuration of one run.
#[derive(Debug)]
pub struct Config {
    pub args: Arguments,
    pub account_config_file: AccountConfigFile,
    pub categories_config_file: CategoriesConfigFile,
    pub src_format_config_file: FormatConfigFile,
    pub dst_format_config_file: FormatConfigFile,
}

/// Whether the `j`-th category id of the `i`-th payee names no category.
pub open spec fn unknown_category_at(c: Config, i: int, j: int) -> bool {
    &&& 0 <= i < c.account_config_file.payees.len()
    &&& 0 <= j < candidate_ids(c.account_config_file.payees[i]).len()
    &&& !category_ids(c.categories_config_file.categories@).contains(
        candidate_ids(c.account_config_file.payees[i])[j]@,
    )
}

/// Whether the `j`-th rule of the `i`-th payee is a regex rule whose pattern
/// does not build.
pub open spec fn bad_regex_at(c: Config, i: int, j: int) -> bool {
    &&& 0 <= i < c.account_config_file.payees.len()
    &&& 0 <= j < c.account_config_file.payees[i].normalizers.len()
    &&& match c.account_config_file.payees[i].normalizers[j].normalizer_type {
        MatcherType::Regex { regex_string } => regex_build_error(
            regex_string@,
            c.account_config_file.payees[i].normalizers[j].ignore_case,
        ) is Some,
        _ => false,
    }
}

/// Whether the position `(i2, j2)` comes before `(i, j)` in declaration order.
pub open spec fn comes_before(i2: int, j2: int, i: int, j: int) -> bool {
    i2 < i || (i2 == i && j2 < j)
}

/// Whether the account names the source format.
pub open spec fn account_matches_format(c: Config) -> bool {
    c.account_config_file.format_id@ == c.src_format_config_file.id@
}

/// Whether every category id of every payee names a category.
pub open spec fn categories_known(c: Config) -> bool {
    forall|i: int, j: int| !unknown_category_at(c, i, j)
}

/// Whether the pattern of every regex rule builds.
pub open spec fn patterns_build(c: Config) -> bool {
    forall|i: int, j: int| !bad_regex_at(c, i, j)
}

/// Whether a configuration passes every check that loading makes.
pub open spec fn valid(c: Config) -> bool {
    &&& account_matches_format(c)
    &&& patterns_build(c)
    &&& categories_known(c)
    &&& fields_listed(c.src_format_config_file)
    &&& fields_listed(c.dst_format_config_file)
}

/// Whether `e` says that the account names another format than the source
/// format.
pub open spec fn reports_mismatch(c: Config, e: ConfigErrorView) -> bool {
    e == (ConfigErrorView::FormatMismatch {
        format_id: c.account_config_file.format_id@,
        account_name: c.account_config_file.name@,
        src_format_file: c.args.src_format_config_file@,
    })
}

/// Whether `e` names the payee of the first pattern that does not build, with
/// the message of the regex engine.
pub open spec fn reports_bad_regex(c: Config, e: ConfigErrorView) -> bool {
    exists|i: int, j: int|
        {
            &&& #[trigger] bad_regex_at(c, i, j)
            &&& forall|i2: int, j2: int|
                comes_before(i2, j2, i, j) ==> !#[trigger] bad_regex_at(c, i2, j2)
            &&& c.account_config_file.payees[i].normalizers[j].normalizer_type matches MatcherType::Regex {
                regex_string,
            }
            &&& regex_build_error(
                regex_string@,
                c.account_config_file.payees[i].normalizers[j].ignore_case,
            ) matches Some(cause)
            &&& e == (ConfigErrorView::InvalidRegex {
                payee_id: c.account_config_file.payees[i].id@,
                cause,
            })
        }
}

/// Whether `e` names the first category id that names no category, with the
/// payee that holds it.
pub open spec fn reports_unknown_category(c: Config, e: ConfigErrorView) -> bool {
    exists|i: int, j: int|
        {
            &&& #[trigger] unknown_category_at(c, i, j)
            &&& forall|i2: int, j2: int|
                comes_before(i2, j2, i, j) ==> !#[trigger] unknown_category_at(c, i2, j2)
            &&& e == (ConfigErrorView::UnknownCategory {
                category_id: candidate_ids(c.account_config_file.payees[i])[j]@,
                payee_id: c.account_config_file.payees[i].id@,
            })
        }
}

/// Whether `e` names the first column of `f` that its field order does not
/// list.
pub open spec fn reports_unlisted(f: FormatConfigFile, e: ConfigErrorView) -> bool {
    missing_field(f) matches Some((kind, field_name)) && e == (ConfigErrorView::FieldNotInOrder {
        kind,
        field_name,
        format_id: f.id@,
    })
}

/// Whether `e` is the error of the first check that `c` fails: account,
/// patterns, categories, source format, destination format.
pub open spec fn refusal(c: Config, e: ConfigErrorView) -> bool {
    if !account_matches_format(c) {
        reports_mismatch(c, e)
    } else if !patterns_build(c) {
        reports_bad_regex(c, e)
    } else if !categories_known(c) {
        reports_unknown_category(c, e)
    } else if !fields_listed(c.src_format_config_file) {
        reports_unlisted(c.src_format_config_file, e)
    } else {
        !fields_listed(c.dst_format_config_file) && reports_unlisted(c.dst_format_config_file, e)
    }
}

/// Checks that the account names the source format that was given.
pub fn validate_account_config(config: &Config) -> (r: Result<(), ConfigError>)
    ensures
        r is Ok <==> account_matches_format(*config),
        r matches Err(e) ==> reports_mismatch(*config, e@),
{
    if config.account_config_file.format_id != config.src_format_config_file.id {
        Err(
            ConfigError::FormatMismatch {
                format_id: config.account_config_file.format_id.clone(),
                account_name: config.account_config_file.name.clone(),
                src_format_file: config.args.src_format_config_file.clone(),
            },
        )
    } else {
        Ok(())
    }
}

/// Checks that the pattern of every regex rule builds, payee by payee and rule
/// by rule. The error names the payee of the first pattern that does not.
pub fn validate_payee_normalizer_configs(config: &Config) -> (r: Result<(), ConfigError>)
    ensures
        r is Ok <==> patterns_build(*config),
        r matches Err(e) ==> reports_bad_regex(*config, e@),
{
    let payees = &config.account_config_file.payees;
    let mut i: usize = 0;
    while i < payees.len()
        invariant
            i <= payees.len(),
            payees == &config.account_config_file.payees,
            forall|i2: int, j2: int| i2 < i ==> !bad_regex_at(*config, i2, j2),
        decreases payees.len() - i,
    {
        let rules = &payees[i].normalizers;
        let mut j: usize = 0;
        while j < rules.len()
            invariant
                i < payees.len(),
                j <= rules.len(),
                payees == &config.account_config_file.payees,
                rules == &config.account_config_file.payees[i as int].normalizers,
                forall|i2: int, j2: int|
                    comes_before(i2, j2, i as int, j as int) ==> !bad_regex_at(*config, i2, j2),
            decreases rules.len() - j,
        {
            if let MatcherType::Regex { regex_string } = &rules[j].normalizer_type {
                if let Some(cause) = regex_check(regex_string.as_str(), rules[j].ignore_case) {
                    assert(bad_regex_at(*config, i as int, j as int));
                    return Err(
                        ConfigError::InvalidRegex { payee_id: payees[i].id.clone(), cause },
                    );
                }
            }
            j += 1;
        }
        i += 1;
    }
    Ok(())
}

/// Checks that every category id of every payee names a category, payee by
/// payee and id by id. The error names the first id that does not.
pub fn validate_payees(config: &Config) -> (r: Result<(), ConfigError>)
    ensures
        r is Ok <==> categories_known(*config),
        r matches Err(e) ==> reports_unknown_category(*config, e@),
{
    let payees = &config.account_config_file.payees;
    let mut i: usize = 0;
    while i < payees.len()
        invariant
            i <= payees.len(),
            payees == &config.account_config_file.payees,
            forall|i2: int, j2: int| i2 < i ==> !unknown_category_at(*config, i2, j2),
        decreases payees.len() - i,
    {
        if let Some(ids) = &payees[i].category_ids {
            let mut j: usize = 0;
            while j < ids.len()
                invariant
                    i < payees.len(),
                    j <= ids.len(),
                    payees == &config.account_config_file.payees,
                    ids@ == candidate_ids(config.account_config_file.payees[i as int]),
                    forall|i2: int, j2: int|
                        comes_before(i2, j2, i as int, j as int) ==> !unknown_category_at(
                            *config,
                            i2,
                            j2,
                        ),
                decreases ids.len() - j,
            {
                if find_category(&config.categories_config_file.categories, &ids[j]).is_none() {
                    assert(unknown_category_at(*config, i as int, j as int));
                    return Err(
                        ConfigError::UnknownCategory {
                            category_id: ids[j].clone(),
                            payee_id: payees[i].id.clone(),
                        },
                    );
                }
                j += 1;
            }
        }
        i += 1;
    }
    Ok(())
}

/// Makes every check of a configuration, in the order: account, patterns,
/// categories, source format, destination format.
pub fn validate_configs(config: &Config) -> (r: Result<(), ConfigError>)
    ensures
        r is Ok <==> valid(*config),
        r matches Err(e) ==> refusal(*config, e@),
{
    validate_account_config(config)?;
    validate_payee_normalizer_configs(config)?;
    validate_payees(config)?;
    validate_format(&config.src_format_config_file)?;
    validate_format(&config.dst_format_config_file)?;
    Ok(())
}

impl Config {
    /// Puts a configuration together from its parts and checks it.
    pub fn new(
        args: Arguments,
        account_config_file: AccountConfigFile,
        categories_config_file: CategoriesConfigFile,
        src_format_config_file: FormatConfigFile,
        dst_format_config_file: FormatConfigFile,
    ) -> (r: Result<Config, ConfigError>)
        ensures
            r is Ok <==> valid(
                (Config {
                    args,
                    account_config_file,
                    categories_config_file,
                    src_format_config_file,
                    dst_format_config_file,
                }),
            ),
            r matches Ok(c) ==> c == (Config {
                args,
                account_config_file,
                categories_config_file,
                src_format_config_file,
                dst_format_config_file,
            }),
            r matches Err(e) ==> refusal(
                (Config {
                    args,
                    account_config_file,
                    categories_config_file,
                    src_format_config_file,
                    dst_format_config_file,
                }),
                e@,
            ),
    {
        let config = Config {
            args,
            account_config_file,
            categories_config_file,
            src_format_config_file,
            dst_format_config_file,
        };
        match validate_configs(&config) {
            Ok(()) => Ok(config),
            Err(e) => Err(e),
        }
    }

    /// The sort that the files ask for: that of the account, else that of the
    /// destination format.
    pub open spec fn sort_of_files(&self) -> Option<Sort> {
        match self.account_config_file.sort {
            Some(sort) => Some(sort),
            None => self.dst_format_config_file.sort,
        }
    }

    /// The sort order in force: that of the command line, else that of the
    /// account, else that of the destination format, else ascending.
    pub open spec fn sort_order_in_force(&self) -> SortOrder {
        match self.args.sort_order {
            Some(o) => o,
            None => match self.sort_of_files() {
                Some(sort) => sort.order,
                None => SortOrder::Ascending,
            },
        }
    }

    /// The sort key in force: that of the command line, else that of the
    /// account, else that of the destination format, else the date.
    pub open spec fn sort_by_in_force(&self) -> SortBy {
        match self.args.sort_by {
            Some(b) => b,
            None => match self.sort_of_files() {
                Some(sort) => sort.sort_by,
                None => SortBy::Date,
            },
        }
    }

    /// An optional flag of the command line, else the file's, else `false`.
    pub open spec fn flag(first: Option<bool>, second: Option<bool>) -> bool {
        match first {
            Some(b) => b,
            None => match second {
                Some(b) => b,
                None => false,
            },
        }
    }

    /// Whether the output starts with a header row.
    pub open spec fn header_included(&self) -> bool {
        Self::flag(self.args.include_header, self.dst_format_config_file.include_header)
    }

    /// Whether pending transactions are dropped.
    pub open spec fn pending_ignored(&self) -> bool {
        Self::flag(self.args.ignore_pending, self.account_config_file.ignore_pending)
    }

    /// Whether the user is never asked to choose.
    pub open spec fn prompts_skipped(&self) -> bool {
        Self::flag(self.args.skip_prompts, self.account_config_file.skip_prompts)
    }

    /// The category with the given id, if there is one.
    pub open spec fn category_of(&self, id: Seq<char>) -> Option<Category> {
        match first_index(category_ids(self.categories_config_file.categories@), id) {
            Some(i) => Some(self.categories_config_file.categories[i]),
            None => None,
        }
    }

    /// The payee of the account with the given id, if there is one.
    pub open spec fn payee_of(&self, id: Seq<char>) -> Option<Payee> {
        match first_index(payee_ids(self.account_config_file.payees@), id) {
            Some(i) => Some(self.account_config_file.payees[i]),
            None => None,
        }
    }

    /// The account.
    pub fn account(&self) -> (r: &AccountConfigFile)
        ensures
            *r == self.account_config_file,
    {
        &self.account_config_file
    }

    /// The format of the source.
    pub fn src_format(&self) -> (r: &FormatConfigFile)
        ensures
            *r == self.src_format_config_file,
    {
        &self.src_format_config_file
    }

    /// The format of the destination.
    pub fn dst_format(&self) -> (r: &FormatConfigFile)
        ensures
            *r == self.dst_format_config_file,
    {
        &self.dst_format_config_file
    }

    /// The name of the source file; none for standard input.
    pub fn src_file(&self) -> (r: Option<&String>)
        ensures
            r is Some <==> self.args.src_file is Some,
            r matches Some(f) ==> *f == self.args.src_file->0,
    {
        self.args.src_file.as_ref()
    }

    /// The name of the destination file; none for standard output.
    pub fn dst_file(&self) -> (r: Option<&String>)
        ensures
            r is Some <==> self.args.dst_file is Some,
            r matches Some(f) ==> *f == self.args.dst_file->0,
    {
        self.args.dst_file.as_ref()
    }

    /// Looks a category up by its id.
    pub fn category(&self, category_id: &String) -> (r: Option<&Category>)
        ensures
            r is Some <==> self.category_of(category_id@) is Some,
            r matches Some(c) ==> *c == self.category_of(category_id@)->0,
    {
        match find_category(&self.categories_config_file.categories, category_id) {
            Some(i) => Some(&self.categories_config_file.categories[i]),
            None => None,
        }
    }

    /// Looks a payee of the account up by its id.
    pub fn payee(&self, payee_id: &String) -> (r: Option<&Payee>)
        ensures
            r is Some <==> self.payee_of(payee_id@) is Some,
            r matches Some(p) ==> *p == self.payee_of(payee_id@)->0,
    {
        match find_payee(&self.account_config_file.payees, payee_id) {
            Some(i) => Some(&self.account_config_file.payees[i]),
            None => None,
        }
    }

    /// The sort that the files ask for.
    fn file_sort(&self) -> (r: Option<Sort>)
        ensures
            r == self.sort_of_files(),
    {
        match self.account_config_file.sort {
            Some(sort) => Some(sort),
            None => self.dst_format_config_file.sort,
        }
    }

    /// The sort order: that of the command line, else that of the account, else
    /// that of the destination format, else ascending.
    pub fn sort_order(&self) -> (r: Option<SortOrder>)
        ensures
            r == Some(self.sort_order_in_force()),
    {
        if let Some(o) = self.args.sort_order {
            return Some(o);
        }
        match self.file_sort() {
            Some(sort) => Some(sort.order),
            None => Some(SortOrder::Ascending),
        }
    }

    /// The sort key: that of the command line, else that of the account, else
    /// that of the destination format, else the date.
    pub fn sort_by(&self) -> (r: Option<SortBy>)
        ensures
            r == Some(self.sort_by_in_force()),
    {
        if let Some(b) = self.args.sort_by {
            return Some(b);
        }
        match self.file_sort() {
            Some(sort) => Some(sort.sort_by),
            None => Some(SortBy::Date),
        }
    }

    /// Whether the output starts with a header row: as the command line says,
    /// else as the destination format says, else not.
    pub fn include_header(&self) -> (r: bool)
        ensures
            r == self.header_included(),
    {
        match self.args.include_header {
            Some(b) => b,
            None => match self.dst_format_config_file.include_header {
                Some(b) => b,
                None => false,
            },
        }
    }

    /// Whether pending transactions are dropped: as the command line says, else
    /// as the account says, else not.
    pub fn ignore_pending(&self) -> (r: bool)
        ensures
            r == self.pending_ignored(),
    {
        match self.args.ignore_pending {
            Some(b) => b,
            None => match self.account_config_file.ignore_pending {
                Some(b) => b,
                None => false,
            },
        }
    }

    /// Whether the user is never asked to choose: as the command line says, else
    /// as the account says, else not.
    pub fn skip_prompts(&self) -> (r: bool)
        ensures
            r == self.prompts_skipped(),
    {
        match self.args.skip_prompts {
            Some(b) => b,
            None => match self.account_config_file.skip_prompts {
                Some(b) => b,
                None => false,
            },
        }
    }
}

/// A configuration whose destination or source format names a column that its
/// field order does not list is refused when it is put together.
pub proof fn law_unlisted_field_refused(c: Config)
    requires
        !fields_listed(c.src_format_config_file) || !fields_listed(c.dst_format_config_file),
    ensures
        !valid(c),
{
}

} // verus!
