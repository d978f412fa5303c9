use erc20::{AccountId, Balance, Erc20, Error, Transfer};

fn alice() -> AccountId {
    AccountId::from([0x1; 32])
}

fn bob() -> AccountId {
    AccountId::from([0x2; 32])
}

fn carol() -> AccountId {
    AccountId::from([0x3; 32])
}

#[test]
fn opening_credits_the_creator_alone() {
    let ledger = Erc20::new(alice(), 1000);
    assert_eq!(ledger.total_supply(), 1000);
    assert_eq!(ledger.balance_of(alice()), 1000);
    assert_eq!(ledger.balance_of(bob()), 0);
    assert_eq!(ledger.balance_of(carol()), 0);
    assert_eq!(ledger.accounts(), 1);
}

#[test]
fn default_opens_with_no_supply() {
    let ledger = Erc20::default(alice());
    assert_eq!(ledger.total_supply(), 0);
    assert_eq!(ledger.balance_of(alice()), 0);
    assert_eq!(ledger.balance_of(bob()), 0);
    assert_eq!(ledger.accounts(), 1);
}

#[test]
fn no_allowance_is_on_record() {
    let mut ledger = Erc20::new(alice(), 1000);
    assert_eq!(ledger.allowance(alice(), bob()), 0);
    assert_eq!(ledger.allowance(bob(), alice()), 0);
    ledger.transer(alice(), bob(), 10).unwrap();
    assert_eq!(ledger.allowance(alice(), bob()), 0);
    assert_eq!(ledger.allowance(alice(), alice()), 0);
}

#[test]
fn transfer_returns_its_notice() {
    let mut ledger = Erc20::new(alice(), 1000);
    assert_eq!(
        ledger.transer(alice(), bob(), 100),
        Ok(Transfer { from: alice(), to: bob(), value: 100 })
    );
}

#[test]
fn transfer_then_transfer_from() {
    let mut ledger = Erc20::new(alice(), 1000);
    assert!(ledger.transer(alice(), bob(), 100).is_ok());
    assert_eq!(ledger.balance_of(bob()), 100);
    assert_eq!(ledger.balance_of(alice()), 900);
    assert_eq!(ledger.transer_from(alice(), bob(), 50), Ok(()));
    assert_eq!(ledger.balance_of(bob()), 50);
    assert_eq!(ledger.balance_of(alice()), 950);
}

#[test]
fn refused_transfer_changes_nothing() {
    let mut ledger = Erc20::new(alice(), 100);
    assert_eq!(
        ledger.transer(alice(), carol(), 200),
        Err(Error::InsufficientBallance)
    );
    assert_eq!(ledger.balance_of(alice()), 100);
    assert_eq!(ledger.balance_of(carol()), 0);
    assert_eq!(ledger.accounts(), 1);
    assert_eq!(ledger.total_supply(), 100);
}

#[test]
fn refused_transfer_from_changes_nothing() {
    let mut ledger = Erc20::new(alice(), 100);
    ledger.transer(alice(), bob(), 30).unwrap();
    assert_eq!(
        ledger.transer_from(carol(), bob(), 31),
        Err(Error::InsufficientBallance)
    );
    assert_eq!(ledger.balance_of(alice()), 70);
    assert_eq!(ledger.balance_of(bob()), 30);
    assert_eq!(ledger.balance_of(carol()), 0);
    assert_eq!(ledger.accounts(), 2);
}

#[test]
fn transfer_of_the_whole_balance() {
    let mut ledger = Erc20::new(alice(), 1000);
    assert!(ledger.transer(alice(), bob(), 1000).is_ok());
    assert_eq!(ledger.balance_of(alice()), 0);
    assert_eq!(ledger.balance_of(bob()), 1000);
    assert_eq!(
        ledger.transer(alice(), bob(), 1).map(|_| ()),
        Err(Error::InsufficientBallance)
    );
}

#[test]
fn transfer_adds_to_what_the_receiver_holds() {
    let mut ledger = Erc20::new(alice(), 1000);
    ledger.issue(bob(), 40).unwrap();
    ledger.transer(alice(), bob(), 2).unwrap();
    assert_eq!(ledger.balance_of(bob()), 42);
    assert_eq!(ledger.balance_of(alice()), 998);
}

#[test]
fn transfer_keeps_the_sum_of_the_two() {
    let mut ledger = Erc20::new(alice(), 1000);
    ledger.issue(bob(), 500).unwrap();
    let before = ledger.balance_of(alice()) + ledger.balance_of(bob());
    ledger.transer(alice(), bob(), 321).unwrap();
    assert_eq!(ledger.balance_of(alice()) + ledger.balance_of(bob()), before);
    ledger.transer_from(alice(), bob(), 700).unwrap();
    assert_eq!(ledger.balance_of(alice()) + ledger.balance_of(bob()), before);
    assert_eq!(ledger.balance_of(alice()), 1379);
    assert_eq!(ledger.balance_of(bob()), 121);
}

#[test]
fn transfer_leaves_third_parties_alone() {
    let mut ledger = Erc20::new(alice(), 1000);
    ledger.issue(carol(), 5).unwrap();
    ledger.transer(alice(), bob(), 100).unwrap();
    assert_eq!(ledger.balance_of(carol()), 5);
}

#[test]
fn transfer_to_oneself_changes_no_balance() {
    let mut ledger = Erc20::new(alice(), 1000);
    assert_eq!(
        ledger.transer(alice(), alice(), 400),
        Ok(Transfer { from: alice(), to: alice(), value: 400 })
    );
    assert_eq!(ledger.balance_of(alice()), 1000);
    assert_eq!(ledger.transer_from(alice(), alice(), 1000), Ok(()));
    assert_eq!(ledger.balance_of(alice()), 1000);
    assert_eq!(
        ledger.transer(alice(), alice(), 1001).map(|_| ()),
        Err(Error::InsufficientBallance)
    );
    assert_eq!(ledger.balance_of(alice()), 1000);
    assert_eq!(ledger.accounts(), 1);
}

#[test]
fn transfer_of_nothing_from_an_unknown_account() {
    let mut ledger = Erc20::new(alice(), 1000);
    assert!(ledger.transer(bob(), carol(), 0).is_ok());
    assert_eq!(ledger.balance_of(bob()), 0);
    assert_eq!(ledger.balance_of(carol()), 0);
    assert_eq!(ledger.balance_of(alice()), 1000);
    assert_eq!(ledger.accounts(), 3);
}

#[test]
fn transfer_from_asks_for_no_allowance() {
    let mut ledger = Erc20::new(alice(), 1000);
    assert_eq!(ledger.allowance(alice(), carol()), 0);
    assert_eq!(ledger.transer_from(carol(), alice(), 1000), Ok(()));
    assert_eq!(ledger.balance_of(carol()), 1000);
    assert_eq!(ledger.balance_of(alice()), 0);
    assert_eq!(ledger.allowance(alice(), carol()), 0);
}

#[test]
fn burn_beyond_the_balance_empties_it() {
    let mut ledger = Erc20::new(alice(), 1000);
    ledger.burn(alice(), 1500);
    assert_eq!(ledger.balance_of(alice()), 0);
    ledger.burn(alice(), 1);
    assert_eq!(ledger.balance_of(alice()), 0);
}

#[test]
fn burn_within_the_balance_takes_the_value() {
    let mut ledger = Erc20::new(alice(), 1000);
    ledger.burn(alice(), 0);
    assert_eq!(ledger.balance_of(alice()), 1000);
    ledger.burn(alice(), 1);
    assert_eq!(ledger.balance_of(alice()), 999);
    ledger.burn(alice(), 999);
    assert_eq!(ledger.balance_of(alice()), 0);
}

#[test]
fn burn_touches_the_caller_alone() {
    let mut ledger = Erc20::new(alice(), 1000);
    ledger.issue(bob(), 10).unwrap();
    ledger.burn(bob(), 4);
    assert_eq!(ledger.balance_of(bob()), 6);
    assert_eq!(ledger.balance_of(alice()), 1000);
    ledger.burn(carol(), 4);
    assert_eq!(ledger.balance_of(carol()), 0);
    assert_eq!(ledger.accounts(), 3);
}

#[test]
fn issue_adds_the_value() {
    let mut ledger = Erc20::new(alice(), 1000);
    assert_eq!(ledger.issue(alice(), 25), Ok(()));
    assert_eq!(ledger.balance_of(alice()), 1025);
    assert_eq!(ledger.issue(bob(), 0), Ok(()));
    assert_eq!(ledger.balance_of(bob()), 0);
    assert_eq!(ledger.issue(bob(), 7), Ok(()));
    assert_eq!(ledger.issue(bob(), 8), Ok(()));
    assert_eq!(ledger.balance_of(bob()), 15);
    assert_eq!(ledger.balance_of(alice()), 1025);
}

#[test]
fn supply_on_record_never_moves() {
    let mut ledger = Erc20::new(alice(), 1000);
    ledger.burn(alice(), 600);
    assert_eq!(ledger.total_supply(), 1000);
    ledger.issue(bob(), 5000).unwrap();
    assert_eq!(ledger.total_supply(), 1000);
    ledger.transer(bob(), alice(), 5000).unwrap();
    assert_eq!(ledger.total_supply(), 1000);
    assert_eq!(ledger.balance_of(alice()), 5400);
}

#[test]
fn issue_stops_at_the_largest_balance() {
    let mut ledger = Erc20::new(alice(), 1);
    ledger.issue(bob(), Balance::MAX - 1).unwrap();
    assert_eq!(ledger.balance_of(bob()), Balance::MAX - 1);
    ledger.issue(bob(), 1).unwrap();
    assert_eq!(ledger.balance_of(bob()), Balance::MAX);
    assert_eq!(ledger.issue(bob(), 1), Ok(()));
    assert_eq!(ledger.balance_of(bob()), Balance::MAX);
    assert_eq!(ledger.issue(bob(), Balance::MAX), Ok(()));
    assert_eq!(ledger.balance_of(bob()), Balance::MAX);
}

#[test]
fn transfer_credit_stops_at_the_largest_balance() {
    let mut ledger = Erc20::new(alice(), 10);
    ledger.issue(bob(), Balance::MAX - 3).unwrap();
    assert!(ledger.transer(alice(), bob(), 5).is_ok());
    assert_eq!(ledger.balance_of(alice()), 5);
    assert_eq!(ledger.balance_of(bob()), Balance::MAX);
}

#[test]
fn accounts_are_counted_once() {
    let mut ledger = Erc20::new(alice(), 1000);
    assert_eq!(ledger.accounts(), 1);
    ledger.transer(alice(), bob(), 1).unwrap();
    assert_eq!(ledger.accounts(), 2);
    ledger.transer(alice(), bob(), 1).unwrap();
    ledger.burn(bob(), 1);
    assert_eq!(ledger.accounts(), 2);
    ledger.issue(carol(), 1).unwrap();
    assert_eq!(ledger.accounts(), 3);
    assert_eq!(ledger.balance_of(AccountId::from([0x4; 32])), 0);
    assert_eq!(ledger.accounts(), 3);
}

#[test]
fn a_small_ledger_has_room() {
    let mut ledger = Erc20::new(alice(), 1000);
    assert!(ledger.has_room_for(alice(), alice()));
    assert!(ledger.has_room_for(alice(), bob()));
    assert!(ledger.has_room_for(bob(), carol()));
    ledger.issue(bob(), 1).unwrap();
    assert!(ledger.has_room_for(bob(), bob()));
}

#[test]
fn accounts_are_told_apart_by_every_byte() {
    let mut first = [0x1; 32];
    let mut last = [0x1; 32];
    first[0] = 0x2;
    last[31] = 0x2;
    assert!(alice() == AccountId::from([0x1; 32]));
    assert!(alice() != AccountId::from(first));
    assert!(alice() != AccountId::from(last));
    assert!(AccountId::from(first) != AccountId::from(last));
    assert_eq!(AccountId::from(last).bytes, last);

    let mut ledger = Erc20::new(alice(), 1000);
    ledger.issue(AccountId::from(last), 3).unwrap();
    ledger.issue(AccountId::from(first), 4).unwrap();
    assert_eq!(ledger.balance_of(alice()), 1000);
    assert_eq!(ledger.balance_of(AccountId::from(last)), 3);
    assert_eq!(ledger.balance_of(AccountId::from(first)), 4);
}
