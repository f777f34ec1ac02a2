//! The pipeline around the format mapper: rows in, pending transactions
//! dropped, payees and categories resolved, transactions sorted, rows out.

use crate::config::{Config, SortOrder};
use crate::formats::{
    export_to_configurable_format, exported, import_from_configurable_format, imported, maps,
    rows, views, ExportError,
};
use crate::payee::{category_step, chosen_category, CategoryStepView};
use crate::row::FieldMap;
use crate::timestamp::{earlier, Timestamp};
use crate::transaction::{
    normalized, ParseError, Transaction, TransactionStatus, TransactionView,
};
use crate::util::texts;
use vstd::prelude::*;

verus! {

/// The transactions of a list that `keep` holds of, in their order.
pub open spec fn those(s: Seq<Transaction>, keep: spec_fn(Transaction) -> bool) -> Seq<
    Transaction,
>
    decreases s.len(),
{
    if s.len() == 0 {
        Seq::<Transaction>::empty()
    } else if keep(s.last()) {
        those(s.drop_last(), keep).push(s.last())
    } else {
        those(s.drop_last(), keep)
    }
}

/// Holds of the cleared transactions.
pub open spec fn is_cleared() -> spec_fn(Transaction) -> bool {
    |t: Transaction| t.status == TransactionStatus::Cleared
}

/// Holds of the transactions of date `d`.
pub open spec fn has_date(d: Timestamp) -> spec_fn(Transaction) -> bool {
    |t: Transaction| t.date == d
}

/// The cleared transactions of a list, in their order.
pub open spec fn cleared(s: Seq<Transaction>) -> Seq<Transaction> {
    those(s, is_cleared())
}

/// The transactions of a list that bear the date `d`, in their order.
pub open spec fn dated(s: Seq<Transaction>, d: Timestamp) -> Seq<Transaction> {
    those(s, has_date(d))
}

/// Whether a transaction of date `a` has to stand before one of date `b`.
pub open spec fn precedes(order: SortOrder, a: Timestamp, b: Timestamp) -> bool {
    match order {
        SortOrder::Ascending => earlier(a, b),
        SortOrder::Descending => earlier(b, a),
    }
}

/// Whether no transaction of a list stands behind one that it has to stand
/// before.
pub open spec fn sorted(s: Seq<Transaction>, order: SortOrder) -> bool {
    forall|i: int, j: int|
        0 <= i < j < s.len() ==> !precedes(order, (#[trigger] s[j]).date, (#[trigger] s[i]).date)
}

/// Whether `r` holds the transactions of `s` with those of each date in the
/// order in which they stand in `s`.
pub open spec fn keeps_order_within_dates(r: Seq<Transaction>, s: Seq<Transaction>) -> bool {
    forall|d: Timestamp| #[trigger] dated(r, d) == dated(s, d)
}

/// The number of transactions before position `i` that `keep` holds of.
pub open spec fn rank(s: Seq<Transaction>, keep: spec_fn(Transaction) -> bool, i: int) -> int {
    those(s.take(i), keep).len() as int
}

/// What is kept of two lists in a row is what is kept of each, in a row.
proof fn lemma_those_add(a: Seq<Transaction>, b: Seq<Transaction>, keep: spec_fn(Transaction) -> bool)
    ensures
        those(a + b, keep) == those(a, keep) + those(b, keep),
    decreases b.len(),
{
    if b.len() == 0 {
        assert(a + b =~= a);
        assert(those(a, keep) + those(b, keep) =~= those(a, keep));
    } else {
        assert((a + b).drop_last() =~= a + b.drop_last());
        assert((a + b).last() == b.last());
        lemma_those_add(a, b.drop_last(), keep);
        if keep(b.last()) {
            assert(those(a, keep) + those(b.drop_last(), keep).push(b.last()) =~= (those(a, keep)
                + those(b.drop_last(), keep)).push(b.last()));
        }
    }
}

/// Nothing is kept of a list of which `keep` holds nowhere.
proof fn lemma_those_none(s: Seq<Transaction>, keep: spec_fn(Transaction) -> bool)
    requires
        forall|k: int| 0 <= k < s.len() ==> !keep(#[trigger] s[k]),
    ensures
        those(s, keep) == Seq::<Transaction>::empty(),
    decreases s.len(),
{
    if s.len() > 0 {
        assert(s.last() == s[s.len() - 1]);
        assert forall|k: int| 0 <= k < s.drop_last().len() implies !keep(
            #[trigger] s.drop_last()[k],
        ) by {
            assert(s.drop_last()[k] == s[k]);
        }
        lemma_those_none(s.drop_last(), keep);
    }
}

/// Of a list of one transaction the transaction is kept or nothing.
proof fn lemma_those_one(t: Transaction, keep: spec_fn(Transaction) -> bool)
    ensures
        those(seq![t], keep) == if keep(t) {
            seq![t]
        } else {
            Seq::<Transaction>::empty()
        },
{
    let one = seq![t];
    assert(one.drop_last() =~= Seq::<Transaction>::empty());
    assert(one.last() == t);
    assert(those(one.drop_last(), keep) =~= Seq::<Transaction>::empty());
    assert(Seq::<Transaction>::empty().push(t) =~= one);
}

/// A transaction that is kept stands at its rank among those that are kept.
proof fn lemma_those_index(s: Seq<Transaction>, keep: spec_fn(Transaction) -> bool, i: int)
    requires
        0 <= i < s.len(),
        keep(s[i]),
    ensures
        0 <= rank(s, keep, i) < those(s, keep).len(),
        those(s, keep)[rank(s, keep, i)] == s[i],
{
    let a = s.take(i);
    let one = seq![s[i]];
    let c = s.skip(i + 1);
    assert(s =~= a + one + c);
    lemma_those_add(a + one, c, keep);
    lemma_those_add(a, one, keep);
    lemma_those_one(s[i], keep);
}

/// The rank grows past a transaction that is kept.
proof fn lemma_rank_grows(s: Seq<Transaction>, keep: spec_fn(Transaction) -> bool, i: int, j: int)
    requires
        0 <= i < j <= s.len(),
        keep(s[i]),
    ensures
        rank(s, keep, i) < rank(s, keep, j),
{
    let a = s.take(i);
    let one = seq![s[i]];
    let c = s.subrange(i + 1, j);
    assert(s.take(j) =~= a + one + c);
    lemma_those_add(a + one, c, keep);
    lemma_those_add(a, one, keep);
    lemma_those_one(s[i], keep);
}

/// Each of the transactions that are kept stands in the list, at the
/// position whose rank is its position among them.
proof fn lemma_those_source(r: Seq<Transaction>, keep: spec_fn(Transaction) -> bool, p: int) -> (k:
    int)
    requires
        0 <= p < those(r, keep).len(),
    ensures
        0 <= k < r.len(),
        r[k] == those(r, keep)[p],
        keep(r[k]),
        rank(r, keep, k) == p,
    decreases r.len(),
{
    let rest = r.drop_last();
    if keep(r.last()) && p == those(rest, keep).len() {
        assert(r.take(r.len() - 1) =~= rest);
        r.len() - 1
    } else {
        let k = lemma_those_source(rest, keep, p);
        assert(r.take(k) =~= rest.take(k));
        k
    }
}

/// Two transactions that `keep` holds of stand in `those(s, keep)` in the
/// order in which they stand in `s`.
pub proof fn lemma_those_keeps_order(
    s: Seq<Transaction>,
    keep: spec_fn(Transaction) -> bool,
    i: int,
    j: int,
)
    requires
        0 <= i < j < s.len(),
        keep(s[i]),
        keep(s[j]),
    ensures
        0 <= rank(s, keep, i) < rank(s, keep, j) < those(s, keep).len(),
        those(s, keep)[rank(s, keep, i)] == s[i],
        those(s, keep)[rank(s, keep, j)] == s[j],
{
    lemma_those_index(s, keep, i);
    lemma_those_index(s, keep, j);
    lemma_rank_grows(s, keep, i, j);
}

/// Two transactions of one date come out of a sort in the order in which they
/// went in, whichever direction the sort has.
pub proof fn law_sort_is_stable(s: Seq<Transaction>, r: Seq<Transaction>, i: int, j: int)
    requires
        keeps_order_within_dates(r, s),
        0 <= i < j < s.len(),
        s[i].date == s[j].date,
    ensures
        exists|i2: int, j2: int| 0 <= i2 < j2 < r.len() && r[i2] == s[i] && r[j2] == s[j],
{
    let keep = has_date(s[i].date);
    lemma_those_keeps_order(s, keep, i, j);
    assert(dated(r, s[i].date) == dated(s, s[i].date));
    let i2 = lemma_those_source(r, keep, rank(s, keep, i));
    let j2 = lemma_those_source(r, keep, rank(s, keep, j));
    if j2 < i2 {
        lemma_rank_grows(r, keep, j2, i2);
    }
    assert(i2 < j2);
}

/// After the pending transactions were dropped, every transaction that is left
/// is cleared and was in the list, and a list without pending transactions
/// stays as it is.
pub proof fn law_cleared_only(s: Seq<Transaction>)
    ensures
        forall|i: int|
            0 <= i < cleared(s).len() ==> (#[trigger] cleared(s)[i]).status
                == TransactionStatus::Cleared && s.contains(cleared(s)[i]),
        cleared(s).len() <= s.len(),
        (forall|i: int| 0 <= i < s.len() ==> (#[trigger] s[i]).status == TransactionStatus::Cleared)
            ==> cleared(s) == s,
    decreases s.len(),
{
    if s.len() > 0 {
        let rest = s.drop_last();
        law_cleared_only(rest);
        assert(s.last() == s[s.len() - 1]);
        assert forall|i: int| 0 <= i < cleared(s).len() implies (#[trigger] cleared(s)[i]).status
            == TransactionStatus::Cleared && s.contains(cleared(s)[i]) by {
            if i < cleared(rest).len() {
                let x = cleared(rest)[i];
                assert(rest.contains(x));
                let k = choose|k: int| 0 <= k < rest.len() && rest[k] == x;
                assert(s[k] == x);
            }
        }
        if forall|i: int| 0 <= i < s.len() ==> (#[trigger] s[i]).status == TransactionStatus::Cleared {
            assert forall|i: int| 0 <= i < rest.len() implies (#[trigger] rest[i]).status
                == TransactionStatus::Cleared by {
                assert(rest[i] == s[i]);
            }
            assert(rest.push(s.last()) =~= s);
        }
    } else {
        assert(cleared(s) =~= s);
    }
}

/// Two cleared transactions stand, after the pending ones were dropped, in the
/// order in which they stood before.
pub proof fn law_filter_keeps_order(s: Seq<Transaction>, i: int, j: int)
    requires
        0 <= i < j < s.len(),
        s[i].status == TransactionStatus::Cleared,
        s[j].status == TransactionStatus::Cleared,
    ensures
        exists|i2: int, j2: int|
            0 <= i2 < j2 < cleared(s).len() && cleared(s)[i2] == s[i] && cleared(s)[j2] == s[j],
{
    lemma_those_keeps_order(s, is_cleared(), i, j);
    let i2 = rank(s, is_cleared(), i);
    let j2 = rank(s, is_cleared(), j);
    assert(0 <= i2 < j2 < cleared(s).len() && cleared(s)[i2] == s[i] && cleared(s)[j2] == s[j]);
}

/// Drops the pending transactions where the configuration says so.
pub fn filter(config: &Config, transactions: Vec<Transaction>) -> (r: Vec<Transaction>)
    ensures
        r@ == if config.pending_ignored() {
            cleared(transactions@)
        } else {
            transactions@
        },
{
    if !config.ignore_pending() {
        return transactions;
    }
    let ghost all = transactions@;
    let mut transactions = transactions;
    let mut i: usize = 0;
    let ghost mut j: int = 0;
    while i < transactions.len()
        invariant
            0 <= j <= all.len(),
            i <= transactions.len(),
            i == cleared(all.take(j)).len(),
            transactions@ == cleared(all.take(j)) + all.skip(j),
        decreases transactions.len() - i,
    {
        proof {
            assert(transactions@[i as int] == all.skip(j)[0]);
            assert(all.take(j + 1).drop_last() =~= all.take(j));
            assert(all.take(j + 1).last() == all[j]);
        }
        let is_cleared = match transactions[i].status {
            TransactionStatus::Cleared => true,
            TransactionStatus::Pending => false,
        };
        if is_cleared {
            proof {
                assert(transactions@ =~= cleared(all.take(j + 1)) + all.skip(j + 1));
            }
            i += 1;
        } else {
            transactions.remove(i);
            proof {
                assert(transactions@ =~= cleared(all.take(j + 1)) + all.skip(j + 1));
            }
        }
        proof {
            j = j + 1;
        }
    }
    proof {
        assert(all.skip(j) =~= Seq::<Transaction>::empty());
        assert(all.take(j) =~= all);
        assert(transactions@ =~= cleared(all));
    }
    transactions
}

/// Whether a transaction of date `a` has to stand before one of date `b`.
pub fn comes_first(order: SortOrder, a: &Timestamp, b: &Timestamp) -> (r: bool)
    ensures
        r == precedes(order, *a, *b),
{
    match order {
        SortOrder::Ascending => a.is_before(b),
        SortOrder::Descending => b.is_before(a),
    }
}

/// Sorts the transactions by date in the order that the configuration asks
/// for. Transactions of one date keep the order in which they came.
pub fn sort(config: &Config, transactions: Vec<Transaction>) -> (r: Vec<Transaction>)
    ensures
        sorted(r@, config.sort_order_in_force()),
        keeps_order_within_dates(r@, transactions@),
        r.len() == transactions.len(),
{
    let order = match config.sort_order() {
        Some(o) => o,
        None => {
            return transactions;
        },
    };
    let ghost all = transactions@;
    let mut v = transactions;
    let mut i: usize = 0;
    while i < v.len()
        invariant
            i <= v.len(),
            v.len() == all.len(),
            order == config.sort_order_in_force(),
            sorted(v@.take(i as int), order),
            keeps_order_within_dates(v@, all),
        decreases v.len() - i,
    {
        let mut j: usize = i;
        while j > 0 && comes_first(order, &v[i].date, &v[j - 1].date)
            invariant
                j <= i < v.len(),
                forall|k: int| j <= k < i ==> precedes(order, v@[i as int].date, (#[trigger] v@[k]).date),
            decreases j,
        {
            j -= 1;
        }
        let ghost before = v@;
        let t = v.remove(i);
        v.insert(j, t);
        proof {
            let a = before.take(j as int);
            let b = before.subrange(j as int, i as int);
            let c = before.skip(i as int + 1);
            let one = seq![t];
            assert(before =~= a + b + one + c);
            assert(v@ =~= a + one + b + c);
            assert forall|d: Timestamp| #[trigger] dated(v@, d) == dated(all, d) by {
                lemma_those_add(a + b + one, c, has_date(d));
                lemma_those_add(a + b, one, has_date(d));
                lemma_those_add(a, b, has_date(d));
                lemma_those_add(a + one + b, c, has_date(d));
                lemma_those_add(a + one, b, has_date(d));
                lemma_those_add(a, one, has_date(d));
                assert(dated(before, d) == dated(all, d));
                if t.date == d {
                    assert forall|k: int| 0 <= k < b.len() implies (#[trigger] b[k]).date != d by {
                        assert(b[k] == before[j + k]);
                    }
                    lemma_those_none(b, has_date(d));
                    assert(dated(a, d) + dated(b, d) + dated(one, d) + dated(c, d) =~= dated(a, d)
                        + dated(one, d) + dated(b, d) + dated(c, d));
                } else {
                    assert(one[0] == t);
                    lemma_those_none(one, has_date(d));
                    assert(dated(a, d) + dated(b, d) + dated(one, d) + dated(c, d) =~= dated(a, d)
                        + dated(one, d) + dated(b, d) + dated(c, d));
                }
            }
            let w = v@.take(i as int + 1);
            assert forall|x: int, y: int| 0 <= x < y < w.len() implies !precedes(
                order,
                (#[trigger] w[y]).date,
                (#[trigger] w[x]).date,
            ) by {
                assert(forall|k: int| 0 <= k < j ==> w[k] == before.take(i as int)[k]);
                assert(w[j as int] == t);
                assert(forall|k: int| j < k <= i ==> w[k] == before.take(i as int)[k - 1]);
                if j > 0 {
                    assert(!precedes(order, t.date, before[j - 1].date));
                    assert(before[j - 1] == before.take(i as int)[j - 1]);
                }
                if y < j {
                } else if y == j {
                    if x < j - 1 {
                        assert(!precedes(
                            order,
                            before.take(i as int)[j - 1].date,
                            before.take(i as int)[x].date,
                        ));
                    }
                } else if x == j {
                    assert(precedes(order, t.date, before[y - 1].date));
                } else if x < j {
                    assert(!precedes(
                        order,
                        before.take(i as int)[y - 1].date,
                        before.take(i as int)[x].date,
                    ));
                } else {
                    assert(!precedes(
                        order,
                        before.take(i as int)[y - 1].date,
                        before.take(i as int)[x - 1].date,
                    ));
                }
            }
        }
        i += 1;
    }
    proof {
        assert(v@.take(i as int) =~= v@);
    }
    v
}

/// A choice among categories that only the user can make.
#[derive(Debug)]
pub struct Question {
    /// The position of the transaction in the list.
    pub index: usize,
    /// The ids of the categories to choose from.
    pub candidates: Vec<String>,
}

/// A transaction after its payee was normalized and its category was assigned
/// as far as the configuration alone decides it.
pub open spec fn enriched(t: TransactionView, c: Config) -> TransactionView {
    let n = normalized(t, c);
    TransactionView {
        category: match category_step(c, n.normalized_payee_id) {
            CategoryStepView::Resolved(category) => category,
            CategoryStepView::Ask(_) => None,
        },
        ..n
    }
}

/// Whether the user has to choose the category of a transaction.
pub open spec fn is_open(t: TransactionView, c: Config) -> bool {
    category_step(c, t.normalized_payee_id) is Ask
}

/// Whether `questions` asks for exactly the open transactions among the first
/// `n` of `ts`, in their order, each with its candidates.
pub open spec fn asks_for(
    questions: Seq<Question>,
    ts: Seq<Transaction>,
    n: int,
    c: Config,
) -> bool {
    &&& forall|k: int|
        0 <= k < questions.len() ==> {
            &&& (#[trigger] questions[k]).index < n
            &&& category_step(c, ts[questions[k].index as int]@.normalized_payee_id)
                == CategoryStepView::Ask(texts(questions[k].candidates@))
        }
    &&& forall|k: int, m: int|
        0 <= k < m < questions.len() ==> (#[trigger] questions[k]).index < (
        #[trigger] questions[m]).index
    &&& forall|i: int|
        0 <= i < n && is_open(#[trigger] ts[i]@, c) ==> exists|k: int|
            0 <= k < questions.len() && (#[trigger] questions[k]).index == i
}

/// Normalizes the payee of every transaction and assigns its category as far
/// as the configuration alone decides it. Returns, with the transactions, the
/// choices that are left to the user, in the order of the transactions.
pub fn normalize_and_categorize(config: &Config, transactions: Vec<Transaction>) -> (r: (
    Vec<Transaction>,
    Vec<Question>,
))
    ensures
        r.0.len() == transactions.len(),
        forall|i: int|
            0 <= i < r.0.len() ==> (#[trigger] r.0[i])@ == enriched(transactions[i]@, *config),
        forall|i: int| 0 <= i < r.0.len() ==> (#[trigger] r.0[i]).wf() == transactions[i].wf(),
        asks_for(r.1@, r.0@, r.0.len() as int, *config),
{
    let ghost all = transactions@;
    let mut transactions = transactions;
    let mut questions: Vec<Question> = Vec::new();
    let mut i: usize = 0;
    while i < transactions.len()
        invariant
            i <= transactions.len(),
            transactions.len() == all.len(),
            forall|k: int| 0 <= k < i ==> (#[trigger] transactions[k])@ == enriched(all[k]@, *config),
            forall|k: int| 0 <= k < i ==> (#[trigger] transactions[k]).wf() == all[k].wf(),
            forall|k: int| i <= k < all.len() ==> (#[trigger] transactions[k]) == all[k],
            asks_for(questions@, transactions@, i as int, *config),
        decreases transactions.len() - i,
    {
        let ghost asked = questions@;
        let ghost undone = transactions@;
        let t = &mut transactions[i];
        t.normalize_payee(config);
        let ask = t.categorize(config);
        assert(transactions@ =~= undone.update(i as int, transactions@[i as int]));
        if let Some(candidates) = ask {
            questions.push(Question { index: i, candidates });
            assert(questions@[asked.len() as int].index == i);
        }
        proof {
            assert forall|k: int| 0 <= k < asked.len() implies (#[trigger] questions@[k])
                == asked[k] && transactions@[asked[k].index as int] == undone[asked[k].index as int] by {}
            assert forall|m: int|
                0 <= m < i + 1 && is_open(#[trigger] transactions@[m]@, *config) implies exists|
                k: int,
            |
                0 <= k < questions@.len() && (#[trigger] questions@[k]).index == m by {
                if m < i {
                    assert(transactions@[m] == undone[m]);
                    let k = choose|k: int|
                        0 <= k < asked.len() && (#[trigger] asked[k]).index == m;
                    assert(questions@[k].index == m);
                } else {
                    assert(questions@[asked.len() as int].index == m);
                }
            }
        }
        i += 1;
    }
    (transactions, questions)
}

/// The pipeline from rows to transactions and from transactions to rows.
#[derive(Debug)]
pub struct TransactionIO {}

impl TransactionIO {
    /// Reads the rows under the source format, drops the pending transactions
    /// where the configuration says so, and enriches the rest. One row that
    /// cannot be read fails the import.
    pub fn import(config: &Config, unmapped: &Vec<FieldMap>) -> (r: Result<
        (Vec<Transaction>, Vec<Question>),
        ParseError,
    >)
        ensures
            match r {
                Ok((ts, questions)) => exists|parsed: Seq<Transaction>|
                    {
                        let kept = if config.pending_ignored() {
                            cleared(parsed)
                        } else {
                            parsed
                        };
                        &&& #[trigger] imported(
                            maps(unmapped@),
                            config.src_format_config_file,
                            Ok(views(parsed)),
                        )
                        &&& ts.len() == kept.len()
                        &&& forall|i: int|
                            0 <= i < ts.len() ==> (#[trigger] ts[i])@ == enriched(kept[i]@, *config)
                        &&& forall|i: int| 0 <= i < ts.len() ==> (#[trigger] ts[i]).wf()
                        &&& asks_for(questions@, ts@, ts.len() as int, *config)
                    },
                Err(e) => imported(maps(unmapped@), config.src_format_config_file, Err(e@)),
            },
    {
        let parsed = import_from_configurable_format(unmapped, config.src_format())?;
        let ghost all = parsed@;
        proof {
            law_cleared_only(all);
        }
        let kept = filter(config, parsed);
        let r = normalize_and_categorize(config, kept);
        assert(imported(maps(unmapped@), config.src_format_config_file, Ok(views(all))));
        Ok(r)
    }

    /// Sorts the transactions and writes them as rows under the destination
    /// format, after a header row where the configuration asks for one.
    pub fn export(config: &Config, transactions: Vec<Transaction>) -> (r: Result<
        Vec<Vec<String>>,
        ExportError,
    >)
        ensures
            exists|ordered: Seq<Transaction>|
                {
                    &&& sorted(ordered, config.sort_order_in_force())
                    &&& #[trigger] keeps_order_within_dates(ordered, transactions@)
                    &&& exported(
                        config.dst_format_config_file,
                        config.header_included(),
                        views(ordered),
                        match r {
                            Ok(out) => Ok(rows(out@)),
                            Err(e) => Err(e@),
                        },
                    )
                },
    {
        let ordered = sort(config, transactions);
        let r = export_to_configurable_format(config, config.dst_format(), &ordered);
        assert(exported(
            config.dst_format_config_file,
            config.header_included(),
            views(ordered@),
            match r {
                Ok(out) => Ok(rows(out@)),
                Err(e) => Err(e@),
            },
        ));
        r
    }

    /// Assigns to the transaction of a question the category that the user
    /// chose: `0` for none, else the position among the candidates, counted
    /// from one. The other transactions stay as they are.
    pub fn answer(
        config: &Config,
        transactions: &mut Vec<Transaction>,
        question: &Question,
        choice: usize,
    )
        requires
            question.index < old(transactions).len(),
        ensures
            final(transactions).len() == old(transactions).len(),
            forall|i: int|
                0 <= i < old(transactions).len() && i != question.index ==> (
                #[trigger] final(transactions)[i]) == old(transactions)[i],
            final(transactions)[question.index as int]@ == (TransactionView {
                category: chosen_category(
                    *config,
                    texts(question.candidates@),
                    choice as int,
                ),
                ..old(transactions)[question.index as int]@
            }),
            final(transactions)[question.index as int].wf() == old(
                transactions,
            )[question.index as int].wf(),
    {
        let t = &mut transactions[question.index];
        t.choose_category(config, &question.candidates, choice);
    }
}

} // verus!
