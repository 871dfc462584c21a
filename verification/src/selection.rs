use vstd::prelude::*;

verus! {

broadcast use vstd::seq_lib::group_seq_properties;

/// A compressed token account as the selection sees it: the amount of
/// tokens it holds, the lamports it carries, and a key by which the caller
/// finds the full account again.
#[derive(Clone, Copy, Debug, PartialEq, Eq)]
pub struct TokenAccount {
    pub key: u64,
    pub amount: u64,
    pub lamports: u64,
}

/// The selection could not reach the requested amount.
#[derive(Clone, Copy, Debug, PartialEq, Eq)]
pub struct InsufficientBalance {
    /// The amount that was asked for.
    pub required: u64,
    /// The amount that all accounts together hold.
    pub available: u64,
}

/// Total token amount held by the accounts of `s`.
pub open spec fn amount_sum(s: Seq<TokenAccount>) -> nat
    decreases s.len(),
{
    if s.len() == 0 {
        0
    } else {
        amount_sum(s.drop_last()) + s.last().amount as nat
    }
}

/// Total lamports carried by the accounts of `s`.
pub open spec fn lamports_sum(s: Seq<TokenAccount>) -> nat
    decreases s.len(),
{
    if s.len() == 0 {
        0
    } else {
        lamports_sum(s.drop_last()) + s.last().lamports as nat
    }
}

/// The accounts of `s` that hold exactly `amount` tokens, in their order in `s`.
pub open spec fn with_amount(s: Seq<TokenAccount>, amount: u64) -> Seq<TokenAccount> {
    s.filter(|t: TokenAccount| t.amount == amount)
}

/// The accounts of `s` come in non-increasing order of amount.
pub open spec fn sorted_by_amount_desc(s: Seq<TokenAccount>) -> bool {
    forall|i: int, j: int| 0 <= i < j < s.len() ==> #[trigger] s[i].amount >= #[trigger] s[j].amount
}

/// `sorted` is what a stable sort of `unsorted` by descending amount gives:
/// it is ordered by descending amount, and the accounts of each amount keep
/// the order they had in `unsorted`.  These two facts fix `sorted` uniquely.
pub open spec fn is_stable_desc_sort_of(sorted: Seq<TokenAccount>, unsorted: Seq<TokenAccount>) -> bool {
    &&& sorted.to_multiset() == unsorted.to_multiset()
    &&& sorted_by_amount_desc(sorted)
    &&& forall|a: u64| #[trigger] with_amount(sorted, a) == with_amount(unsorted, a)
}

proof fn lemma_sums_insert(s: Seq<TokenAccount>, p: int, x: TokenAccount)
    requires
        0 <= p <= s.len(),
    ensures
        amount_sum(s.insert(p, x)) == amount_sum(s) + x.amount,
        lamports_sum(s.insert(p, x)) == lamports_sum(s) + x.lamports,
    decreases s.len(),
{
    if p == s.len() {
        assert(s.insert(p, x).drop_last() =~= s);
    } else {
        lemma_sums_insert(s.drop_last(), p, x);
        assert(s.insert(p, x).drop_last() =~= s.drop_last().insert(p, x));
    }
}

proof fn lemma_sums_take_step(s: Seq<TokenAccount>, i: int)
    requires
        0 <= i < s.len(),
    ensures
        amount_sum(s.take(i + 1)) == amount_sum(s.take(i)) + s[i].amount,
        lamports_sum(s.take(i + 1)) == lamports_sum(s.take(i)) + s[i].lamports,
{
    assert(s.take(i + 1).drop_last() =~= s.take(i));
}

proof fn lemma_with_amount_push(s: Seq<TokenAccount>, x: TokenAccount, a: u64)
    ensures
        with_amount(s.push(x), a) == if x.amount == a {
            with_amount(s, a).push(x)
        } else {
            with_amount(s, a)
        },
{
    reveal_with_fuel(Seq::filter, 1);
    assert(s.push(x).drop_last() =~= s);
}

/// A list ordered by descending amount holds an account of amount `v`
/// (then at least as large as its last) whenever its accounts of amount `v`
/// are not none.
proof fn lemma_present_amount_at_least_last(s: Seq<TokenAccount>, v: u64)
    requires
        sorted_by_amount_desc(s),
        s.len() > 0,
        with_amount(s, v).len() > 0,
    ensures
        v >= s.last().amount,
{
    let pred = |t: TokenAccount| t.amount == v;
    let f = s.filter(pred);
    let e = f[f.len() - 1];
    assert(f.contains(e));
    s.lemma_filter_contains_rev(pred, e);
    s.filter_lemma(pred);
    let k = choose|k: int| 0 <= k < s.len() && s[k] == e;
    if k < s.len() - 1 {
        assert(s[k].amount >= s[s.len() - 1].amount);
    }
}

proof fn lemma_sorted_with_same_amounts_equal(a: Seq<TokenAccount>, b: Seq<TokenAccount>)
    requires
        sorted_by_amount_desc(a),
        sorted_by_amount_desc(b),
        forall|v: u64| #[trigger] with_amount(a, v) == with_amount(b, v),
    ensures
        a == b,
    decreases a.len() + b.len(),
{
    reveal_with_fuel(Seq::filter, 1);
    if a.len() == 0 && b.len() == 0 {
        assert(a =~= b);
    } else if a.len() == 0 {
        let y = b.last();
        assert(b.drop_last().push(y) =~= b);
        lemma_with_amount_push(b.drop_last(), y, y.amount);
        assert(with_amount(a, y.amount) == with_amount(b, y.amount));
    } else if b.len() == 0 {
        let x = a.last();
        assert(a.drop_last().push(x) =~= a);
        lemma_with_amount_push(a.drop_last(), x, x.amount);
        assert(with_amount(a, x.amount) == with_amount(b, x.amount));
    } else {
        let x = a.last();
        let y = b.last();
        let ra = a.drop_last();
        let rb = b.drop_last();
        assert(ra.push(x) =~= a);
        assert(rb.push(y) =~= b);
        lemma_with_amount_push(ra, x, x.amount);
        lemma_with_amount_push(rb, y, y.amount);
        assert(with_amount(a, x.amount) == with_amount(b, x.amount));
        assert(with_amount(a, y.amount) == with_amount(b, y.amount));
        lemma_present_amount_at_least_last(b, x.amount);
        lemma_present_amount_at_least_last(a, y.amount);
        let m = x.amount;
        assert(y.amount == m);
        assert(with_amount(ra, m).push(x) == with_amount(rb, m).push(y));
        assert(x == with_amount(a, m).last());
        assert(with_amount(ra, m) =~= with_amount(a, m).drop_last());
        assert(with_amount(rb, m) =~= with_amount(b, m).drop_last());
        assert forall|v: u64| #[trigger] with_amount(ra, v) == with_amount(rb, v) by {
            lemma_with_amount_push(ra, x, v);
            lemma_with_amount_push(rb, y, v);
        }
        assert(sorted_by_amount_desc(ra)) by {
            assert forall|i: int, j: int| 0 <= i < j < ra.len() implies #[trigger] ra[i].amount
                >= #[trigger] ra[j].amount by {
                assert(ra[i] == a[i] && ra[j] == a[j]);
            }
        }
        assert(sorted_by_amount_desc(rb)) by {
            assert forall|i: int, j: int| 0 <= i < j < rb.len() implies #[trigger] rb[i].amount
                >= #[trigger] rb[j].amount by {
                assert(rb[i] == b[i] && rb[j] == b[j]);
            }
        }
        lemma_sorted_with_same_amounts_equal(ra, rb);
    }
}

/// There is only one stable sort by descending amount: two lists that are
/// both a stable descending sort of the same accounts are equal.
pub proof fn stable_desc_sort_is_unique(
    a: Seq<TokenAccount>,
    b: Seq<TokenAccount>,
    unsorted: Seq<TokenAccount>,
)
    requires
        is_stable_desc_sort_of(a, unsorted),
        is_stable_desc_sort_of(b, unsorted),
    ensures
        a == b,
{
    lemma_sorted_with_same_amounts_equal(a, b);
}

proof fn lemma_with_amount_insert(s: Seq<TokenAccount>, p: int, x: TokenAccount, a: u64)
    requires
        0 <= p <= s.len(),
        forall|i: int| p <= i < s.len() ==> #[trigger] s[i].amount < x.amount,
    ensures
        with_amount(s.insert(p, x), a) == if x.amount == a {
            with_amount(s, a).push(x)
        } else {
            with_amount(s, a)
        },
{
    let pred = |t: TokenAccount| t.amount == a;
    let front = s.take(p);
    let back = s.skip(p);
    assert(s.insert(p, x) =~= front + seq![x] + back);
    assert(s =~= front + back);
    Seq::filter_distributes_over_add(front + seq![x], back, pred);
    Seq::filter_distributes_over_add(front, seq![x], pred);
    Seq::filter_distributes_over_add(front, back, pred);
    reveal_with_fuel(Seq::filter, 2);
    assert(seq![x].drop_last() =~= Seq::<TokenAccount>::empty());
    if x.amount == a {
        assert forall|i: int| 0 <= i < back.len() implies !pred(#[trigger] back[i]) by {
            assert(back[i] == s[p + i]);
        }
        assert(back.all(|t: TokenAccount| !pred(t)));
        back.lemma_all_neg_filter_empty(pred);
        assert(back.filter(pred) =~= Seq::<TokenAccount>::empty());
        assert(front.filter(pred) + seq![x] =~= front.filter(pred).push(x));
    }
}

/// The first position at which an account of `amount` tokens can be inserted
/// into `sorted` so that it stays ordered and comes after all accounts of
/// the same amount.
fn insert_position(sorted: &Vec<TokenAccount>, amount: u64) -> (p: usize)
    requires
        sorted_by_amount_desc(sorted@),
    ensures
        p <= sorted.len(),
        forall|i: int| 0 <= i < p ==> #[trigger] sorted@[i].amount >= amount,
        forall|i: int| p <= i < sorted.len() ==> #[trigger] sorted@[i].amount < amount,
{
    let mut p: usize = 0;
    while p < sorted.len() && sorted[p].amount >= amount
        invariant
            p <= sorted.len(),
            forall|i: int| 0 <= i < p ==> #[trigger] sorted@[i].amount >= amount,
        decreases sorted.len() - p,
    {
        p = p + 1;
    }
    p
}

/// Sorts the accounts by descending amount; accounts of equal amount keep
/// their relative order.
fn sort_by_amount_desc(accounts: &mut Vec<TokenAccount>)
    ensures
        is_stable_desc_sort_of(final(accounts)@, old(accounts)@),
        amount_sum(final(accounts)@) == amount_sum(old(accounts)@),
        lamports_sum(final(accounts)@) == lamports_sum(old(accounts)@),
        final(accounts)@.len() == old(accounts)@.len(),
{
    let ghost unsorted = accounts@;
    let mut out: Vec<TokenAccount> = Vec::new();
    let n = accounts.len();
    assert(unsorted.take(0) =~= Seq::<TokenAccount>::empty());
    for i in 0..n
        invariant
            n == accounts.len(),
            accounts@ == unsorted,
            out@.len() == i,
            out@.to_multiset() == unsorted.take(i as int).to_multiset(),
            sorted_by_amount_desc(out@),
            forall|a: u64| #[trigger] with_amount(out@, a) == with_amount(unsorted.take(i as int), a),
            amount_sum(out@) == amount_sum(unsorted.take(i as int)),
            lamports_sum(out@) == lamports_sum(unsorted.take(i as int)),
    {
        let x = accounts[i];
        let p = insert_position(&out, x.amount);
        let ghost before = out@;
        out.insert(p, x);
        proof {
            lemma_sums_insert(before, p as int, x);
            vstd::seq_lib::to_multiset_insert(before, p as int, x);
            vstd::seq_lib::to_multiset_build(unsorted.take(i as int), x);
            lemma_sums_take_step(unsorted, i as int);
            assert(unsorted.take(i + 1) =~= unsorted.take(i as int).push(x));
            assert forall|a: u64| #[trigger] with_amount(out@, a) == with_amount(unsorted.take(i + 1), a) by {
                lemma_with_amount_insert(before, p as int, x, a);
                lemma_with_amount_push(unsorted.take(i as int), x, a);
            }
            assert forall|k: int, j: int| 0 <= k < j < out@.len() implies #[trigger] out@[k].amount >= #[trigger] out@[j].amount by {
                if k < p && j < p {
                    assert(out@[k] == before[k] && out@[j] == before[j]);
                } else if k < p && j == p {
                    assert(out@[k] == before[k]);
                } else if k < p {
                    assert(out@[k] == before[k] && out@[j] == before[j - 1]);
                } else if k == p {
                    assert(out@[j] == before[j - 1]);
                } else {
                    assert(out@[k] == before[k - 1] && out@[j] == before[j - 1]);
                }
            }
        }
    }
    assert(unsorted.take(n as int) =~= unsorted);
    *accounts = out;
}


proof fn lemma_prefix_sums_bounded(s: Seq<TokenAccount>, k: int)
    requires
        0 <= k <= s.len(),
    ensures
        amount_sum(s.take(k)) <= amount_sum(s),
        lamports_sum(s.take(k)) <= lamports_sum(s),
    decreases s.len() - k,
{
    if k < s.len() {
        lemma_sums_take_step(s, k);
        lemma_prefix_sums_bounded(s, k + 1);
    } else {
        assert(s.take(k) =~= s);
    }
}

/// Sum of the amounts of the accounts of `s` at the positions listed in `positions`.
pub open spec fn amount_at(s: Seq<TokenAccount>, positions: Seq<int>) -> nat
    decreases positions.len(),
{
    if positions.len() == 0 {
        0
    } else {
        amount_at(s, positions.drop_last()) + s[positions.last()].amount as nat
    }
}

/// `positions` lists distinct positions of a sequence of length `n`.
pub open spec fn distinct_positions(positions: Seq<int>, n: int) -> bool {
    &&& forall|i: int| 0 <= i < positions.len() ==> 0 <= #[trigger] positions[i] < n
    &&& forall|i: int, j: int|
        0 <= i < j < positions.len() ==> #[trigger] positions[i] != #[trigger] positions[j]
}

/// Total amount of the first `m` accounts of `s` (all of them when `m` exceeds its length).
pub open spec fn prefix_amount(s: Seq<TokenAccount>, m: int) -> nat {
    if m >= s.len() {
        amount_sum(s)
    } else {
        amount_sum(s.take(m))
    }
}

proof fn lemma_amount_at_remove(s: Seq<TokenAccount>, positions: Seq<int>, q: int)
    requires
        0 <= q < positions.len(),
    ensures
        amount_at(s, positions) == amount_at(s, positions.remove(q)) + s[positions[q]].amount,
    decreases positions.len(),
{
    if q == positions.len() - 1 {
        assert(positions.remove(q) =~= positions.drop_last());
    } else {
        lemma_amount_at_remove(s, positions.drop_last(), q);
        assert(positions.remove(q).drop_last() =~= positions.drop_last().remove(q));
        assert(positions.remove(q).last() == positions.last());
    }
}

proof fn lemma_amount_at_drop_last(s: Seq<TokenAccount>, positions: Seq<int>)
    requires
        s.len() > 0,
        forall|i: int| 0 <= i < positions.len() ==> 0 <= #[trigger] positions[i] < s.len() - 1,
    ensures
        amount_at(s.drop_last(), positions) == amount_at(s, positions),
    decreases positions.len(),
{
    if positions.len() > 0 {
        lemma_amount_at_drop_last(s, positions.drop_last());
        assert(positions.last() == positions[positions.len() - 1]);
    }
}

/// In a list ordered by descending amount, any `m` distinct accounts hold at
/// most as much as the first `m`.
proof fn lemma_positions_at_most_prefix(s: Seq<TokenAccount>, positions: Seq<int>)
    requires
        sorted_by_amount_desc(s),
        distinct_positions(positions, s.len() as int),
    ensures
        amount_at(s, positions) <= prefix_amount(s, positions.len() as int),
    decreases s.len(),
{
    let n = s.len() as int;
    let m = positions.len() as int;
    if n == 0 {
        if m > 0 {
            assert(0 <= positions[0] < n);
        }
    } else {
        let rest = s.drop_last();
        assert(sorted_by_amount_desc(rest)) by {
            assert forall|i: int, j: int| 0 <= i < j < rest.len() implies #[trigger] rest[i].amount
                >= #[trigger] rest[j].amount by {
                assert(rest[i] == s[i] && rest[j] == s[j]);
            }
        }
        assert(rest =~= s.take(n - 1));
        if exists|q: int| 0 <= q < m && positions[q] == n - 1 {
            let q = choose|q: int| 0 <= q < m && positions[q] == n - 1;
            let others = positions.remove(q);
            lemma_amount_at_remove(s, positions, q);
            assert forall|i: int| 0 <= i < others.len() implies 0 <= #[trigger] others[i] < n - 1 by {
                if i < q {
                    assert(others[i] == positions[i]);
                } else {
                    assert(others[i] == positions[i + 1]);
                }
            }
            assert forall|i: int, j: int| 0 <= i < j < others.len() implies #[trigger] others[i]
                != #[trigger] others[j] by {
                let a = if i < q { i } else { i + 1 };
                let b = if j < q { j } else { j + 1 };
                assert(others[i] == positions[a] && others[j] == positions[b]);
            }
            lemma_amount_at_drop_last(s, others);
            lemma_positions_at_most_prefix(rest, others);
            if m < n {
                assert(rest.take(m - 1) =~= s.take(m - 1));
                lemma_sums_take_step(s, m - 1);
                assert(s[n - 1].amount <= s[m - 1].amount);
            }
        } else {
            assert forall|i: int| 0 <= i < m implies 0 <= #[trigger] positions[i] < n - 1 by {
                assert(positions[i] != n - 1);
            }
            lemma_amount_at_drop_last(s, positions);
            lemma_positions_at_most_prefix(rest, positions);
            if m < n - 1 {
                assert(rest.take(m) =~= s.take(m));
            }
        }
    }
}

/// The greedy choice takes as few accounts as possible: if every proper
/// prefix of the first `k` accounts of a list ordered by descending amount
/// holds less than `target`, then so does every choice of fewer than `k`
/// distinct accounts from that list.
pub proof fn fewer_accounts_fall_short(
    sorted: Seq<TokenAccount>,
    target: u64,
    k: int,
    positions: Seq<int>,
)
    requires
        sorted_by_amount_desc(sorted),
        0 <= k <= sorted.len(),
        forall|j: int| 0 <= j < k ==> amount_sum(#[trigger] sorted.take(j)) < target,
        distinct_positions(positions, sorted.len() as int),
        positions.len() < k,
    ensures
        amount_at(sorted, positions) < target,
{
    lemma_positions_at_most_prefix(sorted, positions);
    assert(amount_sum(sorted.take(positions.len() as int)) < target);
}

/// Lamports in one SOL.
///
/// Reads `solana_sdk::native_token::LAMPORTS_PER_SOL`, which the crate's
/// source defines as 1_000_000_000.
#[verifier::external_body]
fn lamports_per_sol() -> (lamports: u64)
    ensures
        lamports == 1_000_000_000,
{
    solana_sdk::native_token::LAMPORTS_PER_SOL
}

/// The running totals that the selection forms over `sorted` fit in a
/// `u64`: each account is added only while the amount taken so far is below
/// `target`, and every total formed that way, of amounts and of lamports,
/// fits.
pub open spec fn summed_prefixes_fit(sorted: Seq<TokenAccount>, target: u64) -> bool {
    forall|j: int|
        0 <= j < sorted.len() && #[trigger] amount_sum(sorted.take(j)) < target ==> {
            &&& amount_sum(sorted.take(j + 1)) <= u64::MAX
            &&& lamports_sum(sorted.take(j + 1)) <= u64::MAX
        }
}

/// Picks the compressed token accounts that pay `transfer_amount`.
///
/// Sorts `accounts` in place by descending amount (stably), then takes
/// accounts from the front until their amounts reach `transfer_amount`.
/// Returns the chosen accounts, their total amount, and their total lamports
/// when that total is below one SOL.  Fails when all accounts together hold
/// less than `transfer_amount`.
pub fn select_min_compressed_token_accounts_for_transfer(
    accounts: &mut Vec<TokenAccount>,
    transfer_amount: u64,
) -> (result: Result<(Vec<TokenAccount>, u64, Option<u64>), InsufficientBalance>)
    requires
        forall|sorted: Seq<TokenAccount>|
            #[trigger] is_stable_desc_sort_of(sorted, old(accounts)@) ==> summed_prefixes_fit(
                sorted,
                transfer_amount,
            ),
    ensures
        is_stable_desc_sort_of(final(accounts)@, old(accounts)@),
        result is Ok <==> amount_sum(old(accounts)@) >= transfer_amount,
        result matches Ok((selected, accumulated, lamports)) ==> {
            let sorted = final(accounts)@;
            let k = selected@.len() as int;
            &&& k <= sorted.len()
            &&& selected@ == sorted.take(k)
            &&& accumulated == amount_sum(selected@)
            &&& accumulated >= transfer_amount
            &&& forall|j: int| 0 <= j < k ==> amount_sum(#[trigger] sorted.take(j)) < transfer_amount
            &&& forall|positions: Seq<int>|
                distinct_positions(positions, sorted.len() as int) && positions.len() < k
                    ==> #[trigger] amount_at(sorted, positions) < transfer_amount
            &&& lamports == if lamports_sum(selected@) < 1_000_000_000 {
                Some(lamports_sum(selected@) as u64)
            } else {
                None
            }
        },
        result matches Err(e) ==> e.required == transfer_amount && e.available == amount_sum(
            old(accounts)@,
        ),
{
    sort_by_amount_desc(accounts);
    let ghost sorted = accounts@;
    assert(summed_prefixes_fit(sorted, transfer_amount));
    let n = accounts.len();
    let mut accumulated_amount: u64 = 0;
    let mut accumulated_lamports: u64 = 0;
    let mut selected: Vec<TokenAccount> = Vec::new();
    let mut i: usize = 0;
    assert(sorted.take(0) =~= Seq::<TokenAccount>::empty());
    while i < n && accumulated_amount < transfer_amount
        invariant
            n == sorted.len(),
            accounts@ == sorted,
            summed_prefixes_fit(sorted, transfer_amount),
            i <= n,
            selected@ == sorted.take(i as int),
            accumulated_amount == amount_sum(sorted.take(i as int)),
            accumulated_lamports == lamports_sum(sorted.take(i as int)),
            forall|j: int| 0 <= j < i ==> amount_sum(#[trigger] sorted.take(j)) < transfer_amount,
        decreases n - i,
    {
        let account = accounts[i];
        proof {
            lemma_sums_take_step(sorted, i as int);
            assert(sorted.take(i + 1) =~= sorted.take(i as int).push(account));
        }
        accumulated_amount = accumulated_amount + account.amount;
        accumulated_lamports = accumulated_lamports + account.lamports;
        selected.push(account);
        i = i + 1;
    }
    if accumulated_amount < transfer_amount {
        assert(sorted.take(n as int) =~= sorted);
        return Err(InsufficientBalance { required: transfer_amount, available: accumulated_amount });
    }
    proof {
        lemma_prefix_sums_bounded(sorted, i as int);
        assert forall|positions: Seq<int>|
            distinct_positions(positions, sorted.len() as int) && positions.len() < i
                implies #[trigger] amount_at(sorted, positions) < transfer_amount by {
            fewer_accounts_fall_short(sorted, transfer_amount, i as int, positions);
        }
    }
    let total_lamports = if accumulated_lamports < lamports_per_sol() {
        Some(accumulated_lamports)
    } else {
        None
    };
    Ok((selected, accumulated_amount, total_lamports))
}

} // verus!
