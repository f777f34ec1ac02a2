//! Payee normalisation and category assignment.

use crate::config::{
    comes_before, regex_is_match, regex_match, Config, MatcherType, Payee, PayeeNormalizerConfig,
};
use crate::transaction::{normalized, payee_shown, Transaction, TransactionView};
use crate::util::{contains_text, has_substring, lowercase, opt_text, texts, to_lowercase};
use vstd::prelude::*;

verus! {

/// Resolves payees and categories from the configuration.
#[derive(Debug)]
pub struct PayeeNormalizer {}

/// What follows for the category of a transaction.
#[derive(Debug)]
pub enum CategoryStep {
    /// The category is settled: its name, or none.
    Resolved(Option<String>),
    /// The user has to choose among these category ids.
    Ask(Vec<String>),
}

/// What the contracts say of a `CategoryStep`.
pub enum CategoryStepView {
    Resolved(Option<Seq<char>>),
    Ask(Seq<Seq<char>>),
}

impl View for CategoryStep {
    type V = CategoryStepView;

    open spec fn view(&self) -> CategoryStepView {
        match self {
            CategoryStep::Resolved(c) => CategoryStepView::Resolved(opt_text(*c)),
            CategoryStep::Ask(ids) => CategoryStepView::Ask(texts(ids@)),
        }
    }
}

/// A text as a rule compares it: in lowercase where the rule ignores case.
pub open spec fn folded(ignore_case: bool, s: Seq<char>) -> Seq<char> {
    if ignore_case {
        lowercase(s)
    } else {
        s
    }
}

/// Whether a rule matches a raw payee text.
pub open spec fn rule_matches(rule: PayeeNormalizerConfig, text: Seq<char>) -> bool {
    match rule.normalizer_type {
        MatcherType::Exact { exact_match_string } => folded(rule.ignore_case, exact_match_string@)
            == folded(rule.ignore_case, text),
        MatcherType::Contains { contains_string } => has_substring(
            folded(rule.ignore_case, text),
            folded(rule.ignore_case, contains_string@),
        ),
        MatcherType::Regex { regex_string } => regex_match(regex_string@, rule.ignore_case, text)
            == Some(true),
    }
}

/// Whether the `j`-th rule of the `i`-th payee matches `text`.
pub open spec fn matches_at(payees: Seq<Payee>, text: Seq<char>, i: int, j: int) -> bool {
    &&& 0 <= i < payees.len()
    &&& 0 <= j < payees[i].normalizers.len()
    &&& rule_matches(payees[i].normalizers[j], text)
}

/// Whether the `j`-th rule of the `i`-th payee is the first, in declaration
/// order, that matches `text`.
pub open spec fn is_first_match(payees: Seq<Payee>, text: Seq<char>, i: int, j: int) -> bool {
    &&& matches_at(payees, text, i, j)
    &&& forall|i2: int, j2: int|
        comes_before(i2, j2, i, j) ==> !#[trigger] matches_at(payees, text, i2, j2)
}

/// The id of the payee whose rule is the first to match `text`.
pub open spec fn matched_payee_id(payees: Seq<Payee>, text: Seq<char>) -> Option<Seq<char>> {
    if exists|i: int, j: int| is_first_match(payees, text, i, j) {
        let (i, j) = choose|i: int, j: int| is_first_match(payees, text, i, j);
        Some(payees[i].id@)
    } else {
        None
    }
}

/// The name of the category with the given id.
pub open spec fn category_name(c: Config, id: Seq<char>) -> Option<Seq<char>> {
    match c.category_of(id) {
        Some(category) => Some(category.name@),
        None => None,
    }
}

/// What follows for the category of a transaction with the given normalized
/// payee id: nothing without a payee or without candidates, the one candidate
/// where there is one, else a question to the user unless prompts are skipped.
pub open spec fn category_step(c: Config, payee_id: Option<Seq<char>>) -> CategoryStepView {
    match payee_id {
        None => CategoryStepView::Resolved(None),
        Some(id) => match c.payee_of(id) {
            None => CategoryStepView::Resolved(None),
            Some(payee) => match payee.category_ids {
                None => CategoryStepView::Resolved(None),
                Some(ids) => if ids.len() == 0 {
                    CategoryStepView::Resolved(None)
                } else if ids.len() == 1 {
                    CategoryStepView::Resolved(category_name(c, ids[0]@))
                } else if !c.prompts_skipped() {
                    CategoryStepView::Ask(texts(ids@))
                } else {
                    CategoryStepView::Resolved(None)
                },
            },
        },
    }
}

/// The category that the choice `choice` among `candidates` stands for: none
/// for `0` and for a number beyond the list, else the name of the category at
/// that position, counted from one.
pub open spec fn chosen_category(c: Config, candidates: Seq<Seq<char>>, choice: int) -> Option<
    Seq<char>,
> {
    if 1 <= choice <= candidates.len() {
        category_name(c, candidates[choice - 1])
    } else {
        None
    }
}

/// Of the rules that match a raw payee text, the first in declaration order
/// decides the payee, whatever the rules after it say.
pub proof fn law_first_match_wins(payees: Seq<Payee>, text: Seq<char>, i: int, j: int)
    requires
        is_first_match(payees, text, i, j),
    ensures
        matched_payee_id(payees, text) == Some(payees[i].id@),
{
    let (i2, j2) = choose|i2: int, j2: int| is_first_match(payees, text, i2, j2);
    assert(is_first_match(payees, text, i2, j2));
    if comes_before(i2, j2, i, j) {
        assert(!matches_at(payees, text, i2, j2));
    }
    if comes_before(i, j, i2, j2) {
        assert(!matches_at(payees, text, i, j));
    }
    assert(i == i2);
}

/// A raw payee text that no rule matches resolves to no payee, and the
/// transaction then shows its raw payee text.
pub proof fn law_unmatched_payee(t: TransactionView, c: Config)
    requires
        forall|i: int, j: int| !matches_at(c.account_config_file.payees@, t.raw_payee_name, i, j),
    ensures
        normalized(t, c).normalized_payee_id is None,
        normalized(t, c).normalized_payee_name is None,
        payee_shown(normalized(t, c)) == t.raw_payee_name,
{
}

/// A payee with exactly one candidate category resolves to that category
/// without a question, whether or not prompts are skipped.
pub proof fn law_single_candidate(c: Config, payee_id: Seq<char>)
    requires
        c.payee_of(payee_id) is Some,
        c.payee_of(payee_id)->0.category_ids is Some,
        c.payee_of(payee_id)->0.category_ids->0.len() == 1,
    ensures
        category_step(c, Some(payee_id)) == CategoryStepView::Resolved(
            category_name(c, c.payee_of(payee_id)->0.category_ids->0[0]@),
        ),
{
}

/// Where prompts are skipped no question is asked, and a payee with two or
/// more candidate categories resolves to no category.
pub proof fn law_skip_prompts(c: Config, payee_id: Option<Seq<char>>)
    requires
        c.prompts_skipped(),
    ensures
        category_step(c, payee_id) is Resolved,
        (payee_id matches Some(id) && c.payee_of(id) matches Some(p) && p.category_ids matches Some(
            ids,
        ) && ids.len() >= 2) ==> category_step(c, payee_id) == CategoryStepView::Resolved(None),
{
}

impl PayeeNormalizer {
    /// The text in lowercase where case is ignored, else the text itself.
    pub fn maybe_to_lower(ignore_case: bool, s: &str) -> (r: String)
        ensures
            r@ == folded(ignore_case, s@),
    {
        if ignore_case {
            to_lowercase(s)
        } else {
            s.to_owned()
        }
    }

    /// Whether a rule matches a raw payee text.
    pub fn rule_applies(rule: &PayeeNormalizerConfig, s: &str) -> (r: bool)
        ensures
            r == rule_matches(*rule, s@),
    {
        match &rule.normalizer_type {
            MatcherType::Exact { exact_match_string } => {
                let cmp_string = Self::maybe_to_lower(rule.ignore_case, s);
                let exact_match_string = Self::maybe_to_lower(
                    rule.ignore_case,
                    exact_match_string.as_str(),
                );
                exact_match_string == cmp_string
            },
            MatcherType::Contains { contains_string } => {
                let cmp_string = Self::maybe_to_lower(rule.ignore_case, s);
                let contains_string = Self::maybe_to_lower(
                    rule.ignore_case,
                    contains_string.as_str(),
                );
                contains_text(cmp_string.as_str(), contains_string.as_str())
            },
            MatcherType::Regex { regex_string } => {
                match regex_is_match(regex_string.as_str(), rule.ignore_case, s) {
                    Some(b) => b,
                    None => false,
                }
            },
        }
    }

    /// The id of the payee whose normalizer rule is the first, in declaration
    /// order, to match the raw payee text `s`.
    pub fn normalized_payee_id(config: &Config, s: &str) -> (r: Option<String>)
        ensures
            opt_text(r) == matched_payee_id(config.account_config_file.payees@, s@),
    {
        let payees = &config.account_config_file.payees;
        let mut i: usize = 0;
        while i < payees.len()
            invariant
                i <= payees.len(),
                payees == &config.account_config_file.payees,
                forall|i2: int, j2: int| i2 < i ==> !#[trigger] matches_at(payees@, s@, i2, j2),
            decreases payees.len() - i,
        {
            let rules = &payees[i].normalizers;
            let mut j: usize = 0;
            while j < rules.len()
                invariant
                    i < payees.len(),
                    j <= rules.len(),
                    payees == &config.account_config_file.payees,
                    rules == &payees[i as int].normalizers,
                    forall|i2: int, j2: int|
                        comes_before(i2, j2, i as int, j as int) ==> !#[trigger] matches_at(
                            payees@,
                            s@,
                            i2,
                            j2,
                        ),
                decreases rules.len() - j,
            {
                if Self::rule_applies(&rules[j], s) {
                    proof {
                        assert(matches_at(payees@, s@, i as int, j as int));
                        law_first_match_wins(payees@, s@, i as int, j as int);
                    }
                    return Some(payees[i].id.clone());
                }
                assert(!matches_at(payees@, s@, i as int, j as int));
                j += 1;
            }
            i += 1;
        }
        None
    }

    /// The name of the category with the given id.
    pub fn category_name_of(config: &Config, id: &String) -> (r: Option<String>)
        ensures
            opt_text(r) == category_name(*config, id@),
    {
        match config.category(id) {
            Some(c) => Some(c.name.clone()),
            None => None,
        }
    }

    /// What follows for the category of a transaction from the configuration
    /// alone.
    pub fn category_for_transaction(config: &Config, transaction: &Transaction) -> (r:
        CategoryStep)
        ensures
            r@ == category_step(*config, opt_text(transaction.normalized_payee_id)),
    {
        let id = match &transaction.normalized_payee_id {
            Some(id) => id,
            None => {
                return CategoryStep::Resolved(None);
            },
        };
        let payee = match config.payee(id) {
            Some(p) => p,
            None => {
                return CategoryStep::Resolved(None);
            },
        };
        let ids = match &payee.category_ids {
            Some(ids) => ids,
            None => {
                return CategoryStep::Resolved(None);
            },
        };
        if ids.len() == 0 {
            return CategoryStep::Resolved(None);
        }
        if ids.len() == 1 {
            return CategoryStep::Resolved(Self::category_name_of(config, &ids[0]));
        }
        if !config.skip_prompts() {
            let mut copy: Vec<String> = Vec::new();
            let mut k: usize = 0;
            while k < ids.len()
                invariant
                    k <= ids.len(),
                    copy.len() == k,
                    forall|m: int| 0 <= m < k ==> copy[m]@ == ids[m]@,
                decreases ids.len() - k,
            {
                copy.push(ids[k].clone());
                k += 1;
            }
            assert(texts(copy@) =~= texts(ids@));
            CategoryStep::Ask(copy)
        } else {
            CategoryStep::Resolved(None)
        }
    }

    /// The names under which the candidates are shown to the user, in order;
    /// `None` for a candidate that names no category, which is not shown.
    pub fn prompt_options(config: &Config, candidates: &Vec<String>) -> (r: Vec<Option<String>>)
        ensures
            r.len() == candidates.len(),
            forall|k: int|
                0 <= k < r.len() ==> opt_text(#[trigger] r[k]) == category_name(
                    *config,
                    candidates[k]@,
                ),
    {
        let mut r: Vec<Option<String>> = Vec::new();
        let mut k: usize = 0;
        while k < candidates.len()
            invariant
                k <= candidates.len(),
                r.len() == k,
                forall|m: int|
                    0 <= m < k ==> opt_text(#[trigger] r[m]) == category_name(
                        *config,
                        candidates[m]@,
                    ),
            decreases candidates.len() - k,
        {
            r.push(Self::category_name_of(config, &candidates[k]));
            k += 1;
        }
        r
    }

    /// The category that the user chose among the candidates: `0` for none,
    /// else the position in the list, counted from one.
    pub fn category_for_choice(config: &Config, candidates: &Vec<String>, choice: usize) -> (r:
        Option<String>)
        ensures
            opt_text(r) == chosen_category(*config, texts(candidates@), choice as int),
    {
        if choice == 0 || choice > candidates.len() {
            None
        } else {
            Self::category_name_of(config, &candidates[choice - 1])
        }
    }
}

} // verus!
