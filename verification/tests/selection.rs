use soda_unchained::selection::{
    select_min_compressed_token_accounts_for_transfer, InsufficientBalance, TokenAccount,
};

fn account(key: u64, amount: u64, lamports: u64) -> TokenAccount {
    TokenAccount { key, amount, lamports }
}

fn keys(accounts: &[TokenAccount]) -> Vec<u64> {
    accounts.iter().map(|a| a.key).collect()
}

#[test]
fn selects_largest_accounts_first() {
    let mut accounts = vec![account(0, 5, 10), account(1, 1, 20), account(2, 10, 30)];
    let (selected, amount, lamports) =
        select_min_compressed_token_accounts_for_transfer(&mut accounts, 12).unwrap();
    assert_eq!(keys(&accounts), vec![2, 0, 1]);
    assert_eq!(keys(&selected), vec![2, 0]);
    assert_eq!(amount, 15);
    assert_eq!(lamports, Some(40));
}

#[test]
fn stops_as_soon_as_amount_is_reached() {
    let mut accounts = vec![account(0, 3, 0), account(1, 7, 0), account(2, 4, 0)];
    let (selected, amount, _) =
        select_min_compressed_token_accounts_for_transfer(&mut accounts, 7).unwrap();
    assert_eq!(keys(&selected), vec![1]);
    assert_eq!(amount, 7);
}

#[test]
fn zero_amount_selects_nothing() {
    let mut accounts = vec![account(0, 3, 1), account(1, 7, 1)];
    let (selected, amount, lamports) =
        select_min_compressed_token_accounts_for_transfer(&mut accounts, 0).unwrap();
    assert!(selected.is_empty());
    assert_eq!(amount, 0);
    assert_eq!(lamports, Some(0));
    assert_eq!(keys(&accounts), vec![1, 0]);
}

#[test]
fn insufficient_balance_is_reported() {
    let mut accounts = vec![account(0, 3, 1), account(1, 7, 1)];
    let result = select_min_compressed_token_accounts_for_transfer(&mut accounts, 11);
    assert_eq!(result, Err(InsufficientBalance { required: 11, available: 10 }));
    let mut empty: Vec<TokenAccount> = vec![];
    let result = select_min_compressed_token_accounts_for_transfer(&mut empty, 1);
    assert_eq!(result, Err(InsufficientBalance { required: 1, available: 0 }));
}

#[test]
fn equal_amounts_keep_their_order() {
    let mut accounts = vec![
        account(0, 2, 0),
        account(1, 5, 0),
        account(2, 2, 0),
        account(3, 5, 0),
        account(4, 2, 0),
    ];
    let (selected, amount, _) =
        select_min_compressed_token_accounts_for_transfer(&mut accounts, 11).unwrap();
    assert_eq!(keys(&accounts), vec![1, 3, 0, 2, 4]);
    assert_eq!(keys(&selected), vec![1, 3, 0]);
    assert_eq!(amount, 12);
}

#[test]
fn lamports_of_one_sol_or_more_are_not_reported() {
    let mut accounts = vec![account(0, 5, 600_000_000), account(1, 5, 400_000_000)];
    let (_, _, lamports) =
        select_min_compressed_token_accounts_for_transfer(&mut accounts, 10).unwrap();
    assert_eq!(lamports, None);
    let mut accounts = vec![account(0, 5, 600_000_000), account(1, 5, 399_999_999)];
    let (_, _, lamports) =
        select_min_compressed_token_accounts_for_transfer(&mut accounts, 10).unwrap();
    assert_eq!(lamports, Some(999_999_999));
}

#[test]
fn fewer_accounts_never_reach_the_amount() {
    let mut accounts = vec![account(0, 4, 0), account(1, 4, 0), account(2, 4, 0), account(3, 9, 0)];
    let (selected, _, _) =
        select_min_compressed_token_accounts_for_transfer(&mut accounts, 13).unwrap();
    assert_eq!(selected.len(), 2);
    for i in 0..accounts.len() {
        assert!(accounts[i].amount < 13);
    }
}

#[test]
fn sorting_a_sorted_list_keeps_it() {
    let sorted = vec![account(4, 9, 0), account(1, 5, 0), account(3, 5, 0), account(0, 2, 0)];
    let mut accounts = sorted.clone();
    let _ = select_min_compressed_token_accounts_for_transfer(&mut accounts, 100);
    assert_eq!(accounts, sorted);
}

#[test]
fn selected_amount_is_the_sum_of_the_selection() {
    let mut accounts = vec![account(0, 6, 3), account(1, 2, 4), account(2, 7, 5), account(3, 1, 6)];
    let (selected, amount, lamports) =
        select_min_compressed_token_accounts_for_transfer(&mut accounts, 14).unwrap();
    assert_eq!(keys(&selected), vec![2, 0, 1]);
    assert_eq!(amount, selected.iter().map(|a| a.amount).sum::<u64>());
    assert_eq!(lamports, Some(selected.iter().map(|a| a.lamports).sum::<u64>()));
}

#[test]
fn unselected_accounts_may_exceed_a_u64_together() {
    let mut accounts = vec![account(0, u64::MAX, 1), account(1, u64::MAX, u64::MAX)];
    let (selected, amount, lamports) =
        select_min_compressed_token_accounts_for_transfer(&mut accounts, 1).unwrap();
    assert_eq!(keys(&selected), vec![0]);
    assert_eq!(amount, u64::MAX);
    assert_eq!(lamports, Some(1));
}
