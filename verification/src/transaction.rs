//! The canonical transaction record and the two steps that enrich it.

use crate::amount::{magnitude_of, Amount, AmountError, AmountErrorView, AmountView};
use crate::config::Config;
use crate::payee::{
    category_step, chosen_category, matched_payee_id, CategoryStep, CategoryStepView,
    PayeeNormalizer,
};
use crate::timestamp::{timestamp_of, Timestamp};
use crate::util::{clean, clean_optional, cleaned, opt_text, texts};
use vstd::prelude::*;

verus! {

/// The direction of a transaction.
#[derive(Debug, Clone, Copy, PartialEq, Eq, Structural)]
pub enum TransactionType {
    Debit,
    Credit,
}

/// Whether a transaction has been settled.
#[derive(Debug, Clone, Copy, PartialEq, Eq, Structural)]
pub enum TransactionStatus {
    Pending,
    Cleared,
}

/// Why a row could not be read as a transaction.
#[derive(Debug)]
pub enum ParseError {
    /// The row lacks a column that the format names.
    MissingField { field: String },
    /// The text of an amount column is no amount.
    InvalidAmount { value: String, reason: AmountError },
    /// Neither the debit column nor the credit column holds an amount.
    MissingAmount { debit_field: String, credit_field: String },
    /// The date and time could not be read under the format.
    InvalidDateTime { value: String, format: String, cause: String },
    /// The status column holds neither of the two words of the format.
    InvalidStatus { value: String, cleared_string: String, pending_string: String },
    /// The type column holds neither of the two words of the format.
    InvalidTransactionType { value: String, credit_string: String, debit_string: String },
}

/// What the contracts say of a `ParseError`.
pub enum ParseErrorView {
    MissingField { field: Seq<char> },
    InvalidAmount { value: Seq<char>, reason: AmountErrorView },
    MissingAmount { debit_field: Seq<char>, credit_field: Seq<char> },
    InvalidDateTime { value: Seq<char>, format: Seq<char>, cause: Seq<char> },
    InvalidStatus { value: Seq<char>, cleared_string: Seq<char>, pending_string: Seq<char> },
    InvalidTransactionType { value: Seq<char>, credit_string: Seq<char>, debit_string: Seq<char> },
}

impl View for ParseError {
    type V = ParseErrorView;

    open spec fn view(&self) -> ParseErrorView {
        match self {
            ParseError::MissingField { field } => ParseErrorView::MissingField { field: field@ },
            ParseError::InvalidAmount { value, reason } => ParseErrorView::InvalidAmount {
                value: value@,
                reason: reason@,
            },
            ParseError::MissingAmount { debit_field, credit_field } => ParseErrorView::MissingAmount {
                debit_field: debit_field@,
                credit_field: credit_field@,
            },
            ParseError::InvalidDateTime { value, format, cause } => ParseErrorView::InvalidDateTime {
                value: value@,
                format: format@,
                cause: cause@,
            },
            ParseError::InvalidStatus {
                value,
                cleared_string,
                pending_string,
            } => ParseErrorView::InvalidStatus {
                value: value@,
                cleared_string: cleared_string@,
                pending_string: pending_string@,
            },
            ParseError::InvalidTransactionType {
                value,
                credit_string,
                debit_string,
            } => ParseErrorView::InvalidTransactionType {
                value: value@,
                credit_string: credit_string@,
                debit_string: debit_string@,
            },
        }
    }
}

impl ParseErrorView {
    /// The error in words.
    pub open spec fn text(self) -> Seq<char> {
        match self {
            ParseErrorView::MissingField { field } => "Field ["@ + field + "] does not exist."@,
            ParseErrorView::InvalidAmount { value, reason } => "Unable to parse amount ["@ + value
                + "] into a valid currency: "@ + reason.text(),
            ParseErrorView::MissingAmount { debit_field, credit_field } =>
                "Neither the debit field ["@ + debit_field + "] nor the credit field ["@
                + credit_field + "] exists."@,
            ParseErrorView::InvalidDateTime { value, format, cause } =>
                "Unable to parse date and time ["@ + value + "] with the format ["@ + format
                + "]: "@ + cause,
            ParseErrorView::InvalidStatus { value, cleared_string, pending_string } => "String ["@
                + value + "] matches neither the cleared string ["@ + cleared_string
                + "] nor the pending string ["@ + pending_string + "]"@,
            ParseErrorView::InvalidTransactionType { value, credit_string, debit_string } =>
                "String ["@ + value + "] matches neither the credit string ["@ + credit_string
                + "] nor the debit string ["@ + debit_string + "]"@,
        }
    }
}

impl ParseError {
    /// The error in words, with the texts that it is about.
    pub fn message(&self) -> (r: String)
        ensures
            r@ == self@.text(),
    {
        match self {
            ParseError::MissingField { field } => "Field [".to_owned().concat(
                field.as_str(),
            ).concat("] does not exist."),
            ParseError::InvalidAmount { value, reason } => "Unable to parse amount [".to_owned().concat(
                value.as_str(),
            ).concat("] into a valid currency: ").concat(reason.message().as_str()),
            ParseError::MissingAmount {
                debit_field,
                credit_field,
            } => "Neither the debit field [".to_owned().concat(debit_field.as_str()).concat(
                "] nor the credit field [",
            ).concat(credit_field.as_str()).concat("] exists."),
            ParseError::InvalidDateTime {
                value,
                format,
                cause,
            } => "Unable to parse date and time [".to_owned().concat(value.as_str()).concat(
                "] with the format [",
            ).concat(format.as_str()).concat("]: ").concat(cause.as_str()),
            ParseError::InvalidStatus {
                value,
                cleared_string,
                pending_string,
            } => "String [".to_owned().concat(value.as_str()).concat(
                "] matches neither the cleared string [",
            ).concat(cleared_string.as_str()).concat("] nor the pending string [").concat(
                pending_string.as_str(),
            ).concat("]"),
            ParseError::InvalidTransactionType {
                value,
                credit_string,
                debit_string,
            } => "String [".to_owned().concat(value.as_str()).concat(
                "] matches neither the credit string [",
            ).concat(credit_string.as_str()).concat("] nor the debit string [").concat(
                debit_string.as_str(),
            ).concat("]"),
        }
    }
}

/// One transaction in the form that every format is mapped to and from.
#[derive(Debug)]
pub struct Transaction {
    pub date: Timestamp,
    pub raw_payee_name: String,
    pub normalized_payee_id: Option<String>,
    pub normalized_payee_name: Option<String>,
    pub category: Option<String>,
    pub transaction_type: TransactionType,
    /// The magnitude: never negative.
    pub amount: Amount,
    pub status: TransactionStatus,
    pub memo: Option<String>,
}

/// What the contracts say of a transaction.
pub struct TransactionView {
    pub date: Timestamp,
    pub raw_payee_name: Seq<char>,
    pub normalized_payee_id: Option<Seq<char>>,
    pub normalized_payee_name: Option<Seq<char>>,
    pub category: Option<Seq<char>>,
    pub transaction_type: TransactionType,
    pub amount: AmountView,
    pub status: TransactionStatus,
    pub memo: Option<Seq<char>>,
}

impl View for Transaction {
    type V = TransactionView;

    open spec fn view(&self) -> TransactionView {
        TransactionView {
            date: self.date,
            raw_payee_name: self.raw_payee_name@,
            normalized_payee_id: opt_text(self.normalized_payee_id),
            normalized_payee_name: opt_text(self.normalized_payee_name),
            category: opt_text(self.category),
            transaction_type: self.transaction_type,
            amount: self.amount@,
            status: self.status,
            memo: opt_text(self.memo),
        }
    }
}

/// An optional text, cleaned.
pub open spec fn cleaned_optional(o: Option<Seq<char>>) -> Option<Seq<char>> {
    match o {
        Some(s) => Some(cleaned(s)),
        None => None,
    }
}

/// What putting a transaction together from the given parts gives: the texts
/// are cleaned and the amount is replaced by its magnitude.
pub open spec fn assembled(
    date: Timestamp,
    raw_payee_name: Seq<char>,
    category: Option<Seq<char>>,
    transaction_type: TransactionType,
    amount: AmountView,
    status: TransactionStatus,
    memo: Option<Seq<char>>,
) -> Result<TransactionView, ParseErrorView> {
    match magnitude_of(amount) {
        Err(reason) => Err(ParseErrorView::InvalidAmount { value: amount.text, reason }),
        Ok(magnitude) => Ok(
            TransactionView {
                date,
                raw_payee_name: cleaned(raw_payee_name),
                normalized_payee_id: None,
                normalized_payee_name: None,
                category: cleaned_optional(category),
                transaction_type,
                amount: magnitude,
                status,
                memo: cleaned_optional(memo),
            },
        ),
    }
}

/// What building a transaction from the given parts gives: the date and time are
/// read under the format, then the transaction is put together.
pub open spec fn built(
    date_time_string: Seq<char>,
    date_time_format: Seq<char>,
    raw_payee_name: Seq<char>,
    category: Option<Seq<char>>,
    transaction_type: TransactionType,
    amount: AmountView,
    status: TransactionStatus,
    memo: Option<Seq<char>>,
) -> Result<TransactionView, ParseErrorView> {
    match timestamp_of(date_time_string, date_time_format) {
        Err(cause) => Err(
            ParseErrorView::InvalidDateTime {
                value: date_time_string,
                format: date_time_format,
                cause,
            },
        ),
        Ok(date) => assembled(
            date,
            raw_payee_name,
            category,
            transaction_type,
            amount,
            status,
            memo,
        ),
    }
}

/// Whether `r` is the outcome `expected`.
pub open spec fn is_transaction_outcome(
    r: Result<Transaction, ParseError>,
    expected: Result<TransactionView, ParseErrorView>,
) -> bool {
    match r {
        Ok(t) => expected == Ok::<TransactionView, ParseErrorView>(t@),
        Err(e) => expected == Err::<TransactionView, ParseErrorView>(e@),
    }
}

/// A transaction after its payee was normalized under a configuration: the id
/// is that of the first rule that matches the raw payee text, the name that of
/// the payee with this id.
pub open spec fn normalized(t: TransactionView, c: Config) -> TransactionView {
    let id = matched_payee_id(c.account_config_file.payees@, t.raw_payee_name);
    TransactionView {
        normalized_payee_id: id,
        normalized_payee_name: match id {
            Some(p) => match c.payee_of(p) {
                Some(payee) => Some(payee.name@),
                None => None,
            },
            None => None,
        },
        ..t
    }
}

/// The name under which a transaction shows its payee.
pub open spec fn payee_shown(t: TransactionView) -> Seq<char> {
    match t.normalized_payee_name {
        Some(p) => p,
        None => t.raw_payee_name,
    }
}

impl Transaction {
    /// Whether the amount is a magnitude.
    pub open spec fn wf(&self) -> bool {
        !self.amount.negative
    }

    /// Builds a transaction that has not been enriched yet.
    pub fn build(
        date_time_string: String,
        date_time_format: String,
        raw_payee_name: String,
        category: Option<String>,
        transaction_type: TransactionType,
        amount: Amount,
        status: TransactionStatus,
        memo: Option<String>,
    ) -> (r: Result<Transaction, ParseError>)
        ensures
            is_transaction_outcome(
                r,
                built(
                    date_time_string@,
                    date_time_format@,
                    raw_payee_name@,
                    opt_text(category),
                    transaction_type,
                    amount@,
                    status,
                    opt_text(memo),
                ),
            ),
            r matches Ok(t) ==> t.wf(),
    {
        let date = match Timestamp::parse(date_time_string.as_str(), date_time_format.as_str()) {
            Ok(d) => d,
            Err(cause) => {
                return Err(
                    ParseError::InvalidDateTime {
                        value: date_time_string,
                        format: date_time_format,
                        cause,
                    },
                );
            },
        };
        Self::new(date, raw_payee_name, category, transaction_type, amount, status, memo)
    }

    /// Puts together a transaction that has not been enriched yet.
    pub fn new(
        date: Timestamp,
        raw_payee_name: String,
        category: Option<String>,
        transaction_type: TransactionType,
        amount: Amount,
        status: TransactionStatus,
        memo: Option<String>,
    ) -> (r: Result<Transaction, ParseError>)
        ensures
            is_transaction_outcome(
                r,
                assembled(
                    date,
                    raw_payee_name@,
                    opt_text(category),
                    transaction_type,
                    amount@,
                    status,
                    opt_text(memo),
                ),
            ),
            r matches Ok(t) ==> t.wf(),
    {
        let value = amount.text.clone();
        let magnitude = match amount.magnitude() {
            Ok(m) => m,
            Err(reason) => {
                return Err(ParseError::InvalidAmount { value, reason });
            },
        };
        Ok(
            Transaction {
                date,
                raw_payee_name: clean(raw_payee_name.as_str()),
                normalized_payee_id: None,
                normalized_payee_name: None,
                category: clean_optional(category),
                transaction_type,
                amount: magnitude,
                status,
                memo: clean_optional(memo),
            },
        )
    }

    /// Resolves the payee: the first normalizer rule of the account that matches
    /// the raw payee text gives the id, and the payee with this id the name.
    pub fn normalize_payee(&mut self, config: &Config)
        ensures
            final(self)@ == normalized(old(self)@, *config),
            final(self).wf() == old(self).wf(),
    {
        let id = PayeeNormalizer::normalized_payee_id(config, self.raw_payee_name.as_str());
        let name = match &id {
            Some(p) => match config.payee(p) {
                Some(payee) => Some(payee.name.clone()),
                None => None,
            },
            None => None,
        };
        self.normalized_payee_id = id;
        self.normalized_payee_name = name;
    }

    /// Assigns the category where it follows from the configuration alone, and
    /// clears it where none follows. Returns the candidate category ids where
    /// the user has to choose among them; the category is then empty until
    /// `choose_category` is called.
    pub fn categorize(&mut self, config: &Config) -> (ask: Option<Vec<String>>)
        ensures
            match category_step(*config, old(self)@.normalized_payee_id) {
                CategoryStepView::Resolved(c) => ask is None && final(self)@ == (TransactionView {
                    category: c,
                    ..old(self)@
                }),
                CategoryStepView::Ask(ids) => ask matches Some(v) && texts(v@) == ids
                    && final(self)@ == (TransactionView { category: None, ..old(self)@ }),
            },
            final(self).wf() == old(self).wf(),
    {
        match PayeeNormalizer::category_for_transaction(config, self) {
            CategoryStep::Resolved(c) => {
                self.category = c;
                None
            },
            CategoryStep::Ask(ids) => {
                self.category = None;
                Some(ids)
            },
        }
    }

    /// Assigns the category that the user chose among the candidates: `0` for
    /// none, else the position in the list, counted from one.
    pub fn choose_category(&mut self, config: &Config, candidates: &Vec<String>, choice: usize)
        ensures
            final(self)@ == (TransactionView {
                category: chosen_category(
                    *config,
                    texts(candidates@),
                    choice as int,
                ),
                ..old(self)@
            }),
            final(self).wf() == old(self).wf(),
    {
        self.category = PayeeNormalizer::category_for_choice(config, candidates, choice);
    }

    /// The date and time of the transaction.
    pub fn date(&self) -> (r: &Timestamp)
        ensures
            *r == self.date,
    {
        &self.date
    }

    /// The name of the payee: the normalized name where the payee was resolved,
    /// else the raw name.
    pub fn payee(&self) -> (r: &str)
        ensures
            r@ == payee_shown(self@),
    {
        match &self.normalized_payee_name {
            Some(p) => p.as_str(),
            None => self.raw_payee_name.as_str(),
        }
    }
}

} // verus!
