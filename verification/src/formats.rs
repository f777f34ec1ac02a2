//! The format mapper: from the columns of one row to a transaction, and from a
//! transaction to the columns of one row, as a format describes them.

use crate::amount::{
    amount_of, get_currency_from_str, negated, plain_text, Amount, AmountError, AmountErrorView,
    AmountView,
};
use crate::config::{AmountFormat, Config, FormatConfigFile};
use crate::row::FieldMap;
use crate::timestamp::{date_time_text, timestamp_of, Timestamp};
use crate::transaction::{
    assembled, is_transaction_outcome, payee_shown, ParseError, ParseErrorView, Transaction,
    TransactionStatus, TransactionType, TransactionView,
};
use crate::util::{blank, currency_to_string_without_delim, opt_text, texts};
use vstd::prelude::*;

verus! {

/// The time of day of a row without a time column.
pub open spec fn default_time() -> Seq<char> {
    "00:00:00"@
}

/// The format of the time of day where none is given.
pub open spec fn default_time_format() -> Seq<char> {
    "%T"@
}

/// What stands between date and time where nothing else is given.
pub open spec fn default_deliminator() -> Seq<char> {
    " "@
}

/// The text of the column `name`, or the error that the row lacks it.
pub open spec fn required(row: Map<Seq<char>, Seq<char>>, name: Seq<char>) -> Result<
    Seq<char>,
    ParseErrorView,
> {
    if row.contains_key(name) {
        Ok(row[name])
    } else {
        Err(ParseErrorView::MissingField { field: name })
    }
}

/// The text of the column `name` where the row has the column and the text is
/// not blank.
pub open spec fn filled(row: Map<Seq<char>, Seq<char>>, name: Seq<char>) -> Option<Seq<char>> {
    if row.contains_key(name) && !blank(row[name]) {
        Some(row[name])
    } else {
        None
    }
}

/// The amount that a text stands for, or the error that it stands for none.
pub open spec fn amount_read(text: Seq<char>) -> Result<AmountView, ParseErrorView> {
    match amount_of(text) {
        Ok(a) => Ok(a),
        Err(reason) => Err(ParseErrorView::InvalidAmount { value: text, reason }),
    }
}

/// The direction that the sign of a signed amount stands for: a negative amount
/// is a debit where debits are written as negative, else a credit; and the
/// other way round for an amount that is not negative.
pub open spec fn direction(negative: bool, debit_is_negative: bool) -> TransactionType {
    if negative == debit_is_negative {
        TransactionType::Debit
    } else {
        TransactionType::Credit
    }
}

/// The raw payee text of a row.
pub open spec fn raw_payee_of(row: Map<Seq<char>, Seq<char>>, f: FormatConfigFile) -> Result<
    Seq<char>,
    ParseErrorView,
> {
    required(row, f.payee_config.field_name@)
}

/// The delimiter between date and time of a format.
pub open spec fn deliminator_of(f: FormatConfigFile) -> Seq<char> {
    match f.date_time_config.deliminator {
        Some(d) => d@,
        None => default_deliminator(),
    }
}

/// The time format of a format.
pub open spec fn time_format_of(f: FormatConfigFile) -> Seq<char> {
    match f.date_time_config.time_format {
        Some(t) => t@,
        None => default_time_format(),
    }
}

/// The text that holds date and time of a row, and the format under which it
/// is to be read: date, delimiter and time in both.
pub open spec fn date_time_of(row: Map<Seq<char>, Seq<char>>, f: FormatConfigFile) -> Result<
    (Seq<char>, Seq<char>),
    ParseErrorView,
> {
    let d = f.date_time_config;
    if !row.contains_key(d.date_field@) {
        Err(ParseErrorView::MissingField { field: d.date_field@ })
    } else {
        match d.time_field {
            Some(time_field) => if !row.contains_key(time_field@) {
                Err(ParseErrorView::MissingField { field: time_field@ })
            } else {
                Ok(
                    (
                        row[d.date_field@] + deliminator_of(f) + row[time_field@],
                        d.date_format@ + deliminator_of(f) + time_format_of(f),
                    ),
                )
            },
            None => Ok(
                (
                    row[d.date_field@] + deliminator_of(f) + default_time(),
                    d.date_format@ + deliminator_of(f) + default_time_format(),
                ),
            ),
        }
    }
}

/// The amount of a row as it is written there, and the direction.
pub open spec fn amount_and_type_of(
    row: Map<Seq<char>, Seq<char>>,
    f: FormatConfigFile,
) -> Result<(AmountView, TransactionType), ParseErrorView> {
    match f.amount_config.format {
        AmountFormat::SingleAmountField(c) => match filled(row, c.field_name@) {
            None => Err(ParseErrorView::MissingField { field: c.field_name@ }),
            Some(text) => match amount_read(text) {
                Err(e) => Err(e),
                Ok(a) => Ok((a, direction(a.negative, c.debit_is_negative))),
            },
        },
        AmountFormat::SeparateDebitCreditFields(c) => match filled(row, c.debit_field@) {
            Some(text) => match amount_read(text) {
                Err(e) => Err(e),
                Ok(a) => Ok((a, TransactionType::Debit)),
            },
            None => match filled(row, c.credit_field@) {
                Some(text) => match amount_read(text) {
                    Err(e) => Err(e),
                    Ok(a) => Ok((a, TransactionType::Credit)),
                },
                None => Err(
                    ParseErrorView::MissingAmount {
                        debit_field: c.debit_field@,
                        credit_field: c.credit_field@,
                    },
                ),
            },
        },
        AmountFormat::TransactionTypeAndAmountFields(c) => match filled(row, c.amount_field@) {
            None => Err(ParseErrorView::MissingField { field: c.amount_field@ }),
            Some(text) => match amount_read(text) {
                Err(e) => Err(e),
                Ok(a) => if !row.contains_key(c.transaction_type_field@) {
                    Err(ParseErrorView::MissingField { field: c.transaction_type_field@ })
                } else if row[c.transaction_type_field@] == c.credit_string@ {
                    Ok((a, TransactionType::Credit))
                } else if row[c.transaction_type_field@] == c.debit_string@ {
                    Ok((a, TransactionType::Debit))
                } else {
                    Err(
                        ParseErrorView::InvalidTransactionType {
                            value: row[c.transaction_type_field@],
                            credit_string: c.credit_string@,
                            debit_string: c.debit_string@,
                        },
                    )
                },
            },
        },
    }
}

/// The status of a row: cleared where the format has no status column.
pub open spec fn status_of(row: Map<Seq<char>, Seq<char>>, f: FormatConfigFile) -> Result<
    TransactionStatus,
    ParseErrorView,
> {
    match f.status_config {
        None => Ok(TransactionStatus::Cleared),
        Some(c) => if !row.contains_key(c.field_name@) {
            Err(ParseErrorView::MissingField { field: c.field_name@ })
        } else if row[c.field_name@] == c.cleared_string@ {
            Ok(TransactionStatus::Cleared)
        } else if row[c.field_name@] == c.pending_string@ {
            Ok(TransactionStatus::Pending)
        } else {
            Err(
                ParseErrorView::InvalidStatus {
                    value: row[c.field_name@],
                    cleared_string: c.cleared_string@,
                    pending_string: c.pending_string@,
                },
            )
        },
    }
}

/// The text of an optional column of a row.
pub open spec fn optional(row: Map<Seq<char>, Seq<char>>, name: Option<Seq<char>>) -> Option<
    Seq<char>,
> {
    match name {
        Some(n) => if row.contains_key(n) {
            Some(row[n])
        } else {
            None
        },
        None => None,
    }
}

/// The memo of a row.
pub open spec fn memo_in(row: Map<Seq<char>, Seq<char>>, f: FormatConfigFile) -> Option<
    Seq<char>,
> {
    optional(
        row,
        match f.memo_config {
            Some(c) => Some(c.field_name@),
            None => None,
        },
    )
}

/// The category of a row.
pub open spec fn category_in(row: Map<Seq<char>, Seq<char>>, f: FormatConfigFile) -> Option<
    Seq<char>,
> {
    optional(
        row,
        match f.category_config {
            Some(c) => Some(c.field_name@),
            None => None,
        },
    )
}

/// The transaction that a row stands for under a format, or the first error
/// on the way: payee, amount and direction, date and time, status.
pub open spec fn transaction_of(row: Map<Seq<char>, Seq<char>>, f: FormatConfigFile) -> Result<
    TransactionView,
    ParseErrorView,
> {
    match raw_payee_of(row, f) {
        Err(e) => Err(e),
        Ok(payee) => match amount_and_type_of(row, f) {
            Err(e) => Err(e),
            Ok((amount, transaction_type)) => match date_time_of(row, f) {
                Err(e) => Err(e),
                Ok((value, format)) => match timestamp_of(value, format) {
                    Err(cause) => Err(ParseErrorView::InvalidDateTime { value, format, cause }),
                    Ok(date) => match status_of(row, f) {
                        Err(e) => Err(e),
                        Ok(status) => assembled(
                            date,
                            payee,
                            category_in(row, f),
                            transaction_type,
                            amount,
                            status,
                            memo_in(row, f),
                        ),
                    },
                },
            },
        },
    }
}

/// The direction that the sign of a signed amount stands for.
pub fn direction_of(negative: bool, debit_is_negative: bool) -> (r: TransactionType)
    ensures
        r == direction(negative, debit_is_negative),
{
    if negative {
        if debit_is_negative {
            TransactionType::Debit
        } else {
            TransactionType::Credit
        }
    } else {
        if debit_is_negative {
            TransactionType::Credit
        } else {
            TransactionType::Debit
        }
    }
}

/// The error that a row lacks the column `name`.
fn missing_field(name: &String) -> (e: ParseError)
    ensures
        e@ == (ParseErrorView::MissingField { field: name@ }),
{
    ParseError::MissingField { field: name.clone() }
}

/// The amount in the column `name`, where the row has the column and its
/// text is not blank.
fn amount_in(unmapped: &FieldMap, name: &String) -> (r: Option<Result<Amount, ParseError>>)
    ensures
        match r {
            None => filled(unmapped@, name@) is None,
            Some(Ok(a)) => filled(unmapped@, name@) matches Some(text) && amount_read(text) == Ok::<
                AmountView,
                ParseErrorView,
            >(a@),
            Some(Err(e)) => filled(unmapped@, name@) matches Some(text) && amount_read(text)
                == Err::<AmountView, ParseErrorView>(e@),
        },
{
    match unmapped.get(name.as_str()) {
        Some(text) => match get_currency_from_str(text.as_str()) {
            Some(Ok(a)) => Some(Ok(a)),
            Some(Err(reason)) => Some(
                Err(ParseError::InvalidAmount { value: text.clone(), reason }),
            ),
            None => None,
        },
        None => None,
    }
}

/// The raw payee text of a row.
pub fn get_raw_payee_name(unmapped: &FieldMap, f: &FormatConfigFile) -> (r: Result<
    String,
    ParseError,
>)
    ensures
        match r {
            Ok(p) => raw_payee_of(unmapped@, *f) == Ok::<Seq<char>, ParseErrorView>(p@),
            Err(e) => raw_payee_of(unmapped@, *f) == Err::<Seq<char>, ParseErrorView>(e@),
        },
{
    match unmapped.get(f.payee_config.field_name.as_str()) {
        Some(p) => Ok(p.clone()),
        None => Err(missing_field(&f.payee_config.field_name)),
    }
}

/// The text that holds date and time of a row, and the format under which it
/// is to be read.
pub fn get_date_time_and_format(unmapped: &FieldMap, f: &FormatConfigFile) -> (r: Result<
    (String, String),
    ParseError,
>)
    ensures
        match r {
            Ok((value, format)) => date_time_of(unmapped@, *f) == Ok::<
                (Seq<char>, Seq<char>),
                ParseErrorView,
            >((value@, format@)),
            Err(e) => date_time_of(unmapped@, *f) == Err::<(Seq<char>, Seq<char>), ParseErrorView>(
                e@,
            ),
        },
{
    let date = match unmapped.get(f.date_time_config.date_field.as_str()) {
        Some(d) => d,
        None => {
            return Err(missing_field(&f.date_time_config.date_field));
        },
    };
    let delim = match &f.date_time_config.deliminator {
        Some(d) => d.clone(),
        None => " ".to_owned(),
    };
    let (time, time_format) = match &f.date_time_config.time_field {
        Some(time_field) => match unmapped.get(time_field.as_str()) {
            Some(time) => (
                time.clone(),
                match &f.date_time_config.time_format {
                    Some(t) => t.clone(),
                    None => "%T".to_owned(),
                },
            ),
            None => {
                return Err(missing_field(time_field));
            },
        },
        None => ("00:00:00".to_owned(), "%T".to_owned()),
    };
    let format = f.date_time_config.date_format.clone().concat(delim.as_str()).concat(
        time_format.as_str(),
    );
    let date_time_string = date.clone().concat(delim.as_str()).concat(time.as_str());
    Ok((date_time_string, format))
}

/// The amount of a row as it is written there, and the direction.
pub fn get_amount_and_transaction_type(unmapped: &FieldMap, f: &FormatConfigFile) -> (r: Result<
    (Amount, TransactionType),
    ParseError,
>)
    ensures
        match r {
            Ok((a, t)) => amount_and_type_of(unmapped@, *f) == Ok::<
                (AmountView, TransactionType),
                ParseErrorView,
            >((a@, t)),
            Err(e) => amount_and_type_of(unmapped@, *f) == Err::<
                (AmountView, TransactionType),
                ParseErrorView,
            >(e@),
        },
{
    match &f.amount_config.format {
        AmountFormat::SingleAmountField(c) => {
            let amount = match amount_in(unmapped, &c.field_name) {
                Some(a) => a?,
                None => {
                    return Err(missing_field(&c.field_name));
                },
            };
            let transaction_type = direction_of(amount.is_negative(), c.debit_is_negative);
            Ok((amount, transaction_type))
        },
        AmountFormat::SeparateDebitCreditFields(c) => {
            if let Some(amount) = amount_in(unmapped, &c.debit_field) {
                return Ok((amount?, TransactionType::Debit));
            }
            if let Some(amount) = amount_in(unmapped, &c.credit_field) {
                return Ok((amount?, TransactionType::Credit));
            }
            Err(
                ParseError::MissingAmount {
                    debit_field: c.debit_field.clone(),
                    credit_field: c.credit_field.clone(),
                },
            )
        },
        AmountFormat::TransactionTypeAndAmountFields(c) => {
            let amount = match amount_in(unmapped, &c.amount_field) {
                Some(a) => a?,
                None => {
                    return Err(missing_field(&c.amount_field));
                },
            };
            let transaction_type = match unmapped.get(c.transaction_type_field.as_str()) {
                Some(t) => {
                    if *t == c.credit_string {
                        TransactionType::Credit
                    } else if *t == c.debit_string {
                        TransactionType::Debit
                    } else {
                        return Err(
                            ParseError::InvalidTransactionType {
                                value: t.clone(),
                                credit_string: c.credit_string.clone(),
                                debit_string: c.debit_string.clone(),
                            },
                        );
                    }
                },
                None => {
                    return Err(missing_field(&c.transaction_type_field));
                },
            };
            Ok((amount, transaction_type))
        },
    }
}

/// The status of a row.
pub fn get_transaction_status(unmapped: &FieldMap, f: &FormatConfigFile) -> (r: Result<
    TransactionStatus,
    ParseError,
>)
    ensures
        match r {
            Ok(s) => status_of(unmapped@, *f) == Ok::<TransactionStatus, ParseErrorView>(s),
            Err(e) => status_of(unmapped@, *f) == Err::<TransactionStatus, ParseErrorView>(e@),
        },
{
    if let Some(c) = &f.status_config {
        return match unmapped.get(c.field_name.as_str()) {
            Some(s) => {
                if *s == c.cleared_string {
                    Ok(TransactionStatus::Cleared)
                } else if *s == c.pending_string {
                    Ok(TransactionStatus::Pending)
                } else {
                    Err(
                        ParseError::InvalidStatus {
                            value: s.clone(),
                            cleared_string: c.cleared_string.clone(),
                            pending_string: c.pending_string.clone(),
                        },
                    )
                }
            },
            None => Err(missing_field(&c.field_name)),
        };
    }
    Ok(TransactionStatus::Cleared)
}

/// The memo of a row.
pub fn get_memo(unmapped: &FieldMap, f: &FormatConfigFile) -> (r: Option<String>)
    ensures
        opt_text(r) == memo_in(unmapped@, *f),
{
    match &f.memo_config {
        Some(c) => match unmapped.get(c.field_name.as_str()) {
            Some(x) => Some(x.clone()),
            None => None,
        },
        None => None,
    }
}

/// The category of a row.
pub fn get_category(unmapped: &FieldMap, f: &FormatConfigFile) -> (r: Option<String>)
    ensures
        opt_text(r) == category_in(unmapped@, *f),
{
    match &f.category_config {
        Some(c) => match unmapped.get(c.field_name.as_str()) {
            Some(x) => Some(x.clone()),
            None => None,
        },
        None => None,
    }
}

/// Reads one row as a transaction under a format.
pub fn convert_to_transaction(unmapped: &FieldMap, f: &FormatConfigFile) -> (r: Result<
    Transaction,
    ParseError,
>)
    ensures
        is_transaction_outcome(r, transaction_of(unmapped@, *f)),
        r matches Ok(t) ==> t.wf(),
{
    let payee = get_raw_payee_name(unmapped, f)?;
    let (amount, transaction_type) = get_amount_and_transaction_type(unmapped, f)?;
    let (date_time_string, date_time_format) = get_date_time_and_format(unmapped, f)?;
    let date = match Timestamp::parse(date_time_string.as_str(), date_time_format.as_str()) {
        Ok(d) => d,
        Err(cause) => {
            return Err(
                ParseError::InvalidDateTime {
                    value: date_time_string,
                    format: date_time_format,
                    cause,
                },
            );
        },
    };
    let status = get_transaction_status(unmapped, f)?;
    Transaction::new(
        date,
        payee,
        get_category(unmapped, f),
        transaction_type,
        amount,
        status,
        get_memo(unmapped, f),
    )
}

/// Why a transaction could not be written as a row.
#[derive(Debug)]
pub enum ExportError {
    /// The date library does not write the date under this format.
    InvalidDateFormat { format: String },
    /// The sign of the amount could not be turned.
    InvalidAmount { value: String, reason: AmountError },
}

/// What the contracts say of an `ExportError`.
pub enum ExportErrorView {
    InvalidDateFormat { format: Seq<char> },
    InvalidAmount { value: Seq<char>, reason: AmountErrorView },
}

impl View for ExportError {
    type V = ExportErrorView;

    open spec fn view(&self) -> ExportErrorView {
        match self {
            ExportError::InvalidDateFormat { format } => ExportErrorView::InvalidDateFormat {
                format: format@,
            },
            ExportError::InvalidAmount { value, reason } => ExportErrorView::InvalidAmount {
                value: value@,
                reason: reason@,
            },
        }
    }
}

impl ExportErrorView {
    /// The error in words.
    pub open spec fn text(self) -> Seq<char> {
        match self {
            ExportErrorView::InvalidDateFormat { format } => "Unable to write the date with the format ["@
                + format + "]"@,
            ExportErrorView::InvalidAmount { value, reason } => "Unable to turn the sign of amount ["@
                + value + "]: "@ + reason.text(),
        }
    }
}

impl ExportError {
    /// The error in words, with the texts that it is about.
    pub fn message(&self) -> (r: String)
        ensures
            r@ == self@.text(),
    {
        match self {
            ExportError::InvalidDateFormat {
                format,
            } => "Unable to write the date with the format [".to_owned().concat(
                format.as_str(),
            ).concat("]"),
            ExportError::InvalidAmount {
                value,
                reason,
            } => "Unable to turn the sign of amount [".to_owned().concat(value.as_str()).concat(
                "]: ",
            ).concat(reason.message().as_str()),
        }
    }
}

/// The views of a list of pairs of texts.
pub open spec fn pairs(v: Seq<(String, String)>) -> Seq<(Seq<char>, Seq<char>)> {
    v.map_values(|p: (String, String)| (p.0@, p.1@))
}

/// The views of a list of rows.
pub open spec fn rows(v: Seq<Vec<String>>) -> Seq<Seq<Seq<char>>> {
    v.map_values(|r: Vec<String>| texts(r@))
}

/// The amount of a transaction written without commas, with its sign turned
/// where `turn` says so.
pub open spec fn amount_text(amount: AmountView, turn: bool) -> Result<Seq<char>, ExportErrorView> {
    if turn {
        match negated(amount.text) {
            Ok(n) => Ok(plain_text(n.text)),
            Err(reason) => Err(ExportErrorView::InvalidAmount { value: amount.text, reason }),
        }
    } else {
        Ok(plain_text(amount.text))
    }
}

/// Whether a format with one signed amount column writes the magnitude of a
/// transaction as a negative amount: debits where debits are negative, else
/// credits.
pub open spec fn written_negative(t: TransactionType, debit_is_negative: bool) -> bool {
    (t == TransactionType::Debit) == debit_is_negative
}

/// A format with one signed amount column writes an amount with the sign with
/// which it reads it, whichever direction the sign stands for.
pub proof fn law_sign_round_trip(negative: bool, debit_is_negative: bool)
    ensures
        written_negative(direction(negative, debit_is_negative), debit_is_negative) == negative,
{
}

/// The amount columns of a transaction under a format, each with its text.
pub open spec fn amount_fields_of(f: FormatConfigFile, t: TransactionView) -> Result<
    Seq<(Seq<char>, Seq<char>)>,
    ExportErrorView,
> {
    match f.amount_config.format {
        AmountFormat::SingleAmountField(c) => match amount_text(
            t.amount,
            written_negative(t.transaction_type, c.debit_is_negative),
        ) {
            Ok(text) => Ok(seq![(c.field_name@, text)]),
            Err(e) => Err(e),
        },
        AmountFormat::SeparateDebitCreditFields(c) => match t.transaction_type {
            TransactionType::Debit => Ok(
                seq![
                    (c.debit_field@, plain_text(t.amount.text)),
                    (c.credit_field@, Seq::<char>::empty()),
                ],
            ),
            TransactionType::Credit => Ok(
                seq![
                    (c.debit_field@, Seq::<char>::empty()),
                    (c.credit_field@, plain_text(t.amount.text)),
                ],
            ),
        },
        AmountFormat::TransactionTypeAndAmountFields(c) => match amount_text(
            t.amount,
            t.transaction_type == TransactionType::Debit && c.include_debit_sign,
        ) {
            Ok(text) => Ok(
                seq![
                    (
                        c.transaction_type_field@,
                        match t.transaction_type {
                            TransactionType::Debit => c.debit_string@,
                            TransactionType::Credit => c.credit_string@,
                        },
                    ),
                    (c.amount_field@, text),
                ],
            ),
            Err(e) => Err(e),
        },
    }
}

/// A map after the given pairs were put into it, one after the other.
pub open spec fn with_pairs(
    m: Map<Seq<char>, Seq<char>>,
    entries: Seq<(Seq<char>, Seq<char>)>,
) -> Map<Seq<char>, Seq<char>>
    decreases entries.len(),
{
    if entries.len() == 0 {
        m
    } else {
        with_pairs(m, entries.drop_last()).insert(entries.last().0, entries.last().1)
    }
}

/// An optional text, empty where there is none.
pub open spec fn or_empty(o: Option<Seq<char>>) -> Seq<char> {
    match o {
        Some(s) => s,
        None => Seq::<char>::empty(),
    }
}

/// The columns of a transaction under a format, by name: date, time, payee,
/// category, status, the amount columns and memo, put in one after the other,
/// so that of two columns with one name the later one stays.
pub open spec fn fields_of(
    f: FormatConfigFile,
    t: TransactionView,
    date: Seq<char>,
    time: Option<Seq<char>>,
    amounts: Seq<(Seq<char>, Seq<char>)>,
) -> Map<Seq<char>, Seq<char>> {
    let m = Map::<Seq<char>, Seq<char>>::empty().insert(f.date_time_config.date_field@, date);
    let m = match (f.date_time_config.time_field, time) {
        (Some(time_field), Some(text)) => m.insert(time_field@, text),
        _ => m,
    };
    let m = m.insert(f.payee_config.field_name@, payee_shown(t));
    let m = match f.category_config {
        Some(c) => m.insert(c.field_name@, or_empty(t.category)),
        None => m,
    };
    let m = match f.status_config {
        Some(c) => m.insert(
            c.field_name@,
            match t.status {
                TransactionStatus::Pending => c.pending_string@,
                TransactionStatus::Cleared => c.cleared_string@,
            },
        ),
        None => m,
    };
    let m = with_pairs(m, amounts);
    match f.memo_config {
        Some(c) => m.insert(c.field_name@, or_empty(t.memo)),
        None => m,
    }
}

/// The texts that a map holds for the names of `order`, in that order; the
/// empty text for a name that the map lacks.
pub open spec fn projected(m: Map<Seq<char>, Seq<char>>, order: Seq<Seq<char>>) -> Seq<Seq<char>> {
    Seq::new(
        order.len(),
        |i: int|
            if m.contains_key(order[i]) {
                m[order[i]]
            } else {
                Seq::<char>::empty()
            },
    )
}

/// The row that a transaction is written as under a format, or the first
/// error on the way: date, time, amount.
pub open spec fn row_of(f: FormatConfigFile, t: TransactionView) -> Result<
    Seq<Seq<char>>,
    ExportErrorView,
> {
    match date_time_text(t.date.secs, t.date.nanos, f.date_time_config.date_format@) {
        None => Err(ExportErrorView::InvalidDateFormat { format: f.date_time_config.date_format@ }),
        Some(date) => {
            let time = match f.date_time_config.time_field {
                Some(_) => date_time_text(t.date.secs, t.date.nanos, time_format_of(f)),
                None => None,
            };
            if f.date_time_config.time_field is Some && time is None {
                Err(ExportErrorView::InvalidDateFormat { format: time_format_of(f) })
            } else {
                match amount_fields_of(f, t) {
                    Err(e) => Err(e),
                    Ok(amounts) => Ok(
                        projected(fields_of(f, t, date, time, amounts), texts(f.field_order@)),
                    ),
                }
            }
        },
    }
}

/// Writes an amount without commas, with its sign turned where `turn` says so.
fn amount_to_text(amount: &Amount, turn: bool) -> (r: Result<String, ExportError>)
    ensures
        match r {
            Ok(s) => amount_text(amount@, turn) == Ok::<Seq<char>, ExportErrorView>(s@),
            Err(e) => amount_text(amount@, turn) == Err::<Seq<char>, ExportErrorView>(e@),
        },
{
    if turn {
        match amount.negate() {
            Ok(n) => Ok(currency_to_string_without_delim(&n)),
            Err(reason) => Err(ExportError::InvalidAmount { value: amount.text.clone(), reason }),
        }
    } else {
        Ok(currency_to_string_without_delim(amount))
    }
}

/// The amount columns of a transaction under a format, each with its text.
pub fn get_amount_fields(f: &FormatConfigFile, t: &Transaction) -> (r: Result<
    Vec<(String, String)>,
    ExportError,
>)
    ensures
        match r {
            Ok(v) => amount_fields_of(*f, t@) == Ok::<
                Seq<(Seq<char>, Seq<char>)>,
                ExportErrorView,
            >(pairs(v@)),
            Err(e) => amount_fields_of(*f, t@) == Err::<
                Seq<(Seq<char>, Seq<char>)>,
                ExportErrorView,
            >(e@),
        },
{
    let mut r: Vec<(String, String)> = Vec::new();
    let is_debit = match t.transaction_type {
        TransactionType::Debit => true,
        TransactionType::Credit => false,
    };
    match &f.amount_config.format {
        AmountFormat::SingleAmountField(c) => {
            let amount = amount_to_text(&t.amount, is_debit == c.debit_is_negative)?;
            r.push((c.field_name.clone(), amount));
            assert(pairs(r@) =~= seq![(c.field_name@, amount@)]);
        },
        AmountFormat::SeparateDebitCreditFields(c) => {
            let amount = currency_to_string_without_delim(&t.amount);
            let (debit_amount, credit_amount) = if is_debit {
                (amount, String::new())
            } else {
                (String::new(), amount)
            };
            r.push((c.debit_field.clone(), debit_amount));
            r.push((c.credit_field.clone(), credit_amount));
            assert(pairs(r@) =~= seq![
                (c.debit_field@, debit_amount@),
                (c.credit_field@, credit_amount@),
            ]);
        },
        AmountFormat::TransactionTypeAndAmountFields(c) => {
            let transaction_type = if is_debit {
                c.debit_string.clone()
            } else {
                c.credit_string.clone()
            };
            let amount = amount_to_text(&t.amount, is_debit && c.include_debit_sign)?;
            r.push((c.transaction_type_field.clone(), transaction_type));
            r.push((c.amount_field.clone(), amount));
            assert(pairs(r@) =~= seq![
                (c.transaction_type_field@, transaction_type@),
                (c.amount_field@, amount@),
            ]);
        },
    }
    Ok(r)
}

/// The text itself, or the empty text where there is none.
fn text_or_empty(o: &Option<String>) -> (r: String)
    ensures
        r@ == or_empty(opt_text(*o)),
{
    match o {
        Some(s) => s.clone(),
        None => String::new(),
    }
}

/// Puts the columns of a transaction in the order of a format, given the texts
/// of its date, of its time of day and of its amount columns.
pub fn arrange_fields(
    f: &FormatConfigFile,
    t: &Transaction,
    date: String,
    time: Option<String>,
    amounts: Vec<(String, String)>,
) -> (r: Vec<String>)
    ensures
        texts(r@) == projected(
            fields_of(*f, t@, date@, opt_text(time), pairs(amounts@)),
            texts(f.field_order@),
        ),
{
    let mut fields = FieldMap::new();
    fields.insert(f.date_time_config.date_field.clone(), date);
    if let Some(time_field) = &f.date_time_config.time_field {
        if let Some(text) = time {
            fields.insert(time_field.clone(), text);
        }
    }
    fields.insert(f.payee_config.field_name.clone(), t.payee().to_owned());
    if let Some(c) = &f.category_config {
        fields.insert(c.field_name.clone(), text_or_empty(&t.category));
    }
    if let Some(c) = &f.status_config {
        let status = match t.status {
            TransactionStatus::Pending => c.pending_string.clone(),
            TransactionStatus::Cleared => c.cleared_string.clone(),
        };
        fields.insert(c.field_name.clone(), status);
    }
    let ghost before = fields@;
    let mut k: usize = 0;
    while k < amounts.len()
        invariant
            k <= amounts.len(),
            fields@ == with_pairs(before, pairs(amounts@).take(k as int)),
        decreases amounts.len() - k,
    {
        proof {
            assert(pairs(amounts@).take(k as int + 1).drop_last() =~= pairs(amounts@).take(
                k as int,
            ));
        }
        fields.insert(amounts[k].0.clone(), amounts[k].1.clone());
        k += 1;
    }
    proof {
        assert(pairs(amounts@).take(k as int) =~= pairs(amounts@));
    }
    if let Some(c) = &f.memo_config {
        fields.insert(c.field_name.clone(), text_or_empty(&t.memo));
    }
    let ghost all = fields@;
    let mut r: Vec<String> = Vec::new();
    let mut i: usize = 0;
    while i < f.field_order.len()
        invariant
            i <= f.field_order.len(),
            r.len() == i,
            fields@ == all,
            forall|k: int|
                0 <= k < i ==> (#[trigger] r[k])@ == projected(all, texts(f.field_order@))[k],
        decreases f.field_order.len() - i,
    {
        let text = match fields.get(f.field_order[i].as_str()) {
            Some(v) => v.clone(),
            None => String::new(),
        };
        r.push(text);
        i += 1;
    }
    assert(texts(r@) =~= projected(all, texts(f.field_order@)));
    r
}

/// Writes one transaction as a row under a format.
pub fn convert_to_configurable_format(f: &FormatConfigFile, t: &Transaction) -> (r: Result<
    Vec<String>,
    ExportError,
>)
    ensures
        match r {
            Ok(v) => row_of(*f, t@) == Ok::<Seq<Seq<char>>, ExportErrorView>(texts(v@)),
            Err(e) => row_of(*f, t@) == Err::<Seq<Seq<char>>, ExportErrorView>(e@),
        },
{
    let date = match t.date.format(f.date_time_config.date_format.as_str()) {
        Some(d) => d,
        None => {
            return Err(
                ExportError::InvalidDateFormat { format: f.date_time_config.date_format.clone() },
            );
        },
    };
    let time = match &f.date_time_config.time_field {
        Some(_) => {
            let time_format = match &f.date_time_config.time_format {
                Some(t) => t.clone(),
                None => "%T".to_owned(),
            };
            match t.date.format(time_format.as_str()) {
                Some(text) => Some(text),
                None => {
                    return Err(ExportError::InvalidDateFormat { format: time_format });
                },
            }
        },
        None => None,
    };
    let amounts = get_amount_fields(f, t)?;
    Ok(arrange_fields(f, t, date, time, amounts))
}

/// The transactions that a list of rows stands for under a format, or the
/// error of the first row that stands for none.
pub open spec fn imported(
    unmapped: Seq<Map<Seq<char>, Seq<char>>>,
    f: FormatConfigFile,
    r: Result<Seq<TransactionView>, ParseErrorView>,
) -> bool {
    match r {
        Ok(ts) => ts.len() == unmapped.len() && forall|i: int|
            0 <= i < ts.len() ==> transaction_of(#[trigger] unmapped[i], f) == Ok::<
                TransactionView,
                ParseErrorView,
            >(ts[i]),
        Err(e) => exists|i: int|
            0 <= i < unmapped.len() && transaction_of(#[trigger] unmapped[i], f) == Err::<
                TransactionView,
                ParseErrorView,
            >(e) && forall|k: int| 0 <= k < i ==> transaction_of(#[trigger] unmapped[k], f) is Ok,
    }
}

/// The views of a list of transactions.
pub open spec fn views(v: Seq<Transaction>) -> Seq<TransactionView> {
    v.map_values(|t: Transaction| t@)
}

/// The views of a list of rows that were read.
pub open spec fn maps(v: Seq<FieldMap>) -> Seq<Map<Seq<char>, Seq<char>>> {
    v.map_values(|m: FieldMap| m@)
}

/// Reads every row as a transaction under a format. One row that cannot be
/// read fails the whole list.
pub fn import_from_configurable_format(unmapped: &Vec<FieldMap>, f: &FormatConfigFile) -> (r:
    Result<Vec<Transaction>, ParseError>)
    ensures
        imported(
            maps(unmapped@),
            *f,
            match r {
                Ok(ts) => Ok(views(ts@)),
                Err(e) => Err(e@),
            },
        ),
        r matches Ok(ts) ==> forall|i: int| 0 <= i < ts.len() ==> (#[trigger] ts[i]).wf(),
{
    let mut transactions: Vec<Transaction> = Vec::new();
    let mut i: usize = 0;
    while i < unmapped.len()
        invariant
            i <= unmapped.len(),
            transactions.len() == i,
            forall|k: int|
                0 <= k < i ==> transaction_of(#[trigger] maps(unmapped@)[k], *f) == Ok::<
                    TransactionView,
                    ParseErrorView,
                >(transactions[k]@),
            forall|k: int| 0 <= k < i ==> (#[trigger] transactions[k]).wf(),
        decreases unmapped.len() - i,
    {
        match convert_to_transaction(&unmapped[i], f) {
            Ok(t) => {
                transactions.push(t);
            },
            Err(e) => {
                assert(transaction_of(maps(unmapped@)[i as int], *f) == Err::<
                    TransactionView,
                    ParseErrorView,
                >(e@));
                return Err(e);
            },
        }
        i += 1;
    }
    Ok(transactions)
}

/// The rows that a list of transactions is written as under a format, headed
/// by the names of the columns where `header` says so.
pub open spec fn exported(
    f: FormatConfigFile,
    header: bool,
    ts: Seq<TransactionView>,
    r: Result<Seq<Seq<Seq<char>>>, ExportErrorView>,
) -> bool {
    let skip: int = if header {
        1
    } else {
        0
    };
    match r {
        Ok(out) => out.len() == ts.len() + skip && (header ==> out[0] == texts(f.field_order@))
            && forall|i: int|
            0 <= i < ts.len() ==> row_of(f, #[trigger] ts[i]) == Ok::<
                Seq<Seq<char>>,
                ExportErrorView,
            >(out[i + skip]),
        Err(e) => exists|i: int|
            0 <= i < ts.len() && row_of(f, #[trigger] ts[i]) == Err::<
                Seq<Seq<char>>,
                ExportErrorView,
            >(e) && forall|k: int| 0 <= k < i ==> row_of(f, #[trigger] ts[k]) is Ok,
    }
}

/// Writes every transaction as a row under a format, after a header row where
/// the configuration asks for one.
pub fn export_to_configurable_format(
    c: &Config,
    f: &FormatConfigFile,
    transactions: &Vec<Transaction>,
) -> (r: Result<Vec<Vec<String>>, ExportError>)
    ensures
        exported(
            *f,
            c.header_included(),
            views(transactions@),
            match r {
                Ok(out) => Ok(rows(out@)),
                Err(e) => Err(e@),
            },
        ),
{
    let mut out: Vec<Vec<String>> = Vec::new();
    let header = c.include_header();
    if header {
        let mut names: Vec<String> = Vec::new();
        let mut k: usize = 0;
        while k < f.field_order.len()
            invariant
                k <= f.field_order.len(),
                names.len() == k,
                forall|m: int| 0 <= m < k ==> names[m]@ == f.field_order[m]@,
            decreases f.field_order.len() - k,
        {
            names.push(f.field_order[k].clone());
            k += 1;
        }
        assert(texts(names@) =~= texts(f.field_order@));
        out.push(names);
    }
    let ghost skip: int = if header {
        1
    } else {
        0
    };
    let mut i: usize = 0;
    while i < transactions.len()
        invariant
            i <= transactions.len(),
            out.len() == i + skip,
            skip == if header {
                1int
            } else {
                0int
            },
            header ==> rows(out@)[0] == texts(f.field_order@),
            forall|k: int|
                0 <= k < i ==> row_of(*f, #[trigger] views(transactions@)[k]) == Ok::<
                    Seq<Seq<char>>,
                    ExportErrorView,
                >(rows(out@)[k + skip]),
        decreases transactions.len() - i,
    {
        match convert_to_configurable_format(f, &transactions[i]) {
            Ok(row) => {
                out.push(row);
            },
            Err(e) => {
                assert(row_of(*f, views(transactions@)[i as int]) == Err::<
                    Seq<Seq<char>>,
                    ExportErrorView,
                >(e@));
                return Err(e);
            },
        }
        i += 1;
    }
    Ok(out)
}

} // verus!
