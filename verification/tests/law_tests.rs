use rent_wallet::address::AddressKey;
use rent_wallet::balances::Balances;
use rent_wallet::wallet::{
    balances, get_paused_state, require_admin, require_not_paused, DataKey, RentWallet,
    WalletError, WalletEvent,
};

fn key(text: &str) -> AddressKey {
    AddressKey::from_bytes(text.as_bytes().to_vec())
}

fn ready() -> (RentWallet, AddressKey) {
    let admin = key("GADMIN");
    let mut w = RentWallet::new();
    assert!(w.init(admin.duplicate()).is_ok());
    (w, admin)
}

fn error_of(r: Result<WalletEvent, WalletError>) -> WalletError {
    match r {
        Ok(_) => panic!("request was accepted"),
        Err(e) => e,
    }
}

#[test]
fn debit_after_credit_restores_balance() {
    let (mut w, admin) = ready();
    let alice = key("GALICE");
    assert!(w.credit(&admin, &alice, 40i128).is_ok());
    assert!(w.credit(&admin, &alice, 15i128).is_ok());
    assert!(w.debit(&admin, &alice, 15i128).is_ok());
    assert_eq!(w.balance(&alice), 40i128);
}

#[test]
fn credit_leaves_other_accounts_alone() {
    let (mut w, admin) = ready();
    let alice = key("GALICE");
    let bob = key("GBOB");
    assert!(w.credit(&admin, &alice, 10i128).is_ok());
    assert!(w.credit(&admin, &bob, 7i128).is_ok());
    assert!(w.debit(&admin, &alice, 4i128).is_ok());
    assert_eq!(w.balance(&alice), 6i128);
    assert_eq!(w.balance(&bob), 7i128);
}

#[test]
fn credit_past_largest_balance_is_refused() {
    let (mut w, admin) = ready();
    let alice = key("GALICE");
    assert!(w.credit(&admin, &alice, i128::MAX).is_ok());
    let e = error_of(w.credit(&admin, &alice, 1i128));
    assert_eq!(e, WalletError::BalanceOverflow);
    assert_eq!(e.message(), "balance overflow");
    assert_eq!(w.balance(&alice), i128::MAX);
}

#[test]
fn requests_before_init_are_refused() {
    let mut w = RentWallet::new();
    let admin = key("GADMIN");
    let alice = key("GALICE");
    let e = error_of(w.credit(&admin, &alice, 5i128));
    assert_eq!(e, WalletError::AdminNotSet);
    assert_eq!(e.message(), "admin not set");
    assert_eq!(error_of(w.pause(&admin)), WalletError::AdminNotSet);
    assert_eq!(error_of(w.set_admin(&admin, key("GX"))), WalletError::AdminNotSet);
    assert!(matches!(w.authorizer(), Err(WalletError::AdminNotSet)));
    assert_eq!(w.balance(&alice), 0i128);
}

#[test]
fn old_admin_loses_rights_after_set_admin() {
    let (mut w, admin) = ready();
    let next = key("GNEXT");
    let event = w.set_admin(&admin, next.duplicate()).unwrap();
    assert_eq!(event.name(), "set_admin");
    let e = error_of(w.credit(&admin, &key("GALICE"), 5i128));
    assert_eq!(e, WalletError::NotAdmin);
    assert_eq!(e.message(), "caller is not the admin");
    assert_eq!(w.authorizer().unwrap().as_bytes(), next.as_bytes());
}

#[test]
fn init_keeps_paused_flag_and_empties_balances() {
    let mut stored = Balances::new();
    stored.set(key("GALICE"), 9i128);
    let mut w = RentWallet::from_storage(None, Some(stored), Some(true));
    assert_eq!(w.balance(&key("GALICE")), 9i128);
    assert!(w.init(key("GADMIN")).is_ok());
    assert!(w.is_paused());
    assert_eq!(w.balance(&key("GALICE")), 0i128);
    assert_eq!(w.balances().len(), 0);
}

#[test]
fn storage_defaults() {
    assert_eq!(balances(None).len(), 0);
    let mut b = Balances::new();
    b.set(key("GALICE"), 3i128);
    assert_eq!(balances(Some(b)).get(&key("GALICE")), Some(3i128));
    assert!(!get_paused_state(None));
    assert!(get_paused_state(Some(true)));
    assert!(!get_paused_state(Some(false)));
    let w = RentWallet::from_storage(Some(key("GADMIN")), None, None);
    assert!(!w.is_paused());
    assert_eq!(w.admin().as_ref().unwrap().as_bytes(), key("GADMIN").as_bytes());
}

#[test]
fn admin_and_pause_checks() {
    let admin = key("GADMIN");
    assert_eq!(require_admin(&None, &admin), Err(WalletError::AdminNotSet));
    assert_eq!(require_admin(&Some(key("GADMIN")), &admin), Ok(()));
    assert_eq!(require_admin(&Some(key("GOTHER")), &admin), Err(WalletError::NotAdmin));
    assert_eq!(require_not_paused(true), Err(WalletError::Paused));
    assert_eq!(require_not_paused(false), Ok(()));
}

#[test]
fn address_keys_compare_by_bytes() {
    let a = key("GALICE");
    assert!(a.same_as(&key("GALICE")));
    assert!(!a.same_as(&key("GALICF")));
    assert!(!a.same_as(&key("GALIC")));
    assert_eq!(a.duplicate().as_bytes(), a.as_bytes());
}

#[test]
fn balances_map_replaces_entries() {
    let mut b = Balances::new();
    assert_eq!(b.get(&key("GALICE")), None);
    b.set(key("GALICE"), 1i128);
    b.set(key("GBOB"), 2i128);
    b.set(key("GALICE"), 5i128);
    assert_eq!(b.len(), 2);
    assert_eq!(b.get(&key("GALICE")), Some(5i128));
    assert_eq!(b.get(&key("GBOB")), Some(2i128));
    let (k, amount) = b.entry(1);
    assert_eq!(k.as_bytes(), key("GBOB").as_bytes());
    assert_eq!(amount, 2i128);
}

#[test]
fn events_name_and_written_keys() {
    let (mut w, admin) = ready();
    let alice = key("GALICE");
    let credit = w.credit(&admin, &alice, 3i128).unwrap();
    assert_eq!(credit.changed_keys(), vec![DataKey::Balances]);
    let debit = w.debit(&admin, &alice, 3i128).unwrap();
    assert_eq!(debit.changed_keys(), vec![DataKey::Balances]);
    let pause = w.pause(&admin).unwrap();
    assert_eq!(pause.name(), "pause");
    assert_eq!(pause.changed_keys(), vec![DataKey::Paused]);
    let unpause = w.unpause(&admin).unwrap();
    assert_eq!(unpause.name(), "unpause");
    assert_eq!(unpause.changed_keys(), vec![DataKey::Paused]);
    let set = w.set_admin(&admin, admin.duplicate()).unwrap();
    assert_eq!(set.changed_keys(), vec![DataKey::Admin]);
    let mut fresh = RentWallet::new();
    let init = fresh.init(key("GADMIN")).unwrap();
    assert_eq!(init.name(), "init");
    assert_eq!(init.changed_keys(), vec![DataKey::Admin, DataKey::Balances]);
    match init {
        WalletEvent::Init { admin: a } => assert_eq!(a.as_bytes(), admin.as_bytes()),
        _ => panic!("not an init event"),
    }
}

#[test]
fn refused_requests_change_nothing() {
    let (mut w, admin) = ready();
    let alice = key("GALICE");
    assert!(w.credit(&admin, &alice, 20i128).is_ok());
    assert!(w.debit(&admin, &alice, 21i128).is_err());
    assert!(w.credit(&key("GMALLORY"), &alice, 1i128).is_err());
    assert!(w.pause(&key("GMALLORY")).is_err());
    assert_eq!(w.balance(&alice), 20i128);
    assert!(!w.is_paused());
    assert_eq!(w.authorizer().unwrap().as_bytes(), admin.as_bytes());
}

#[test]
fn paused_wallet_freezes_every_account() {
    let (mut w, admin) = ready();
    let alice = key("GALICE");
    assert!(w.credit(&admin, &alice, 20i128).is_ok());
    assert!(w.pause(&admin).is_ok());
    assert_eq!(error_of(w.credit(&admin, &key("GBOB"), 1i128)), WalletError::Paused);
    assert_eq!(error_of(w.debit(&admin, &alice, 1i128)), WalletError::Paused);
    assert!(w.unpause(&admin).is_ok());
    assert!(w.debit(&admin, &alice, 1i128).is_ok());
    assert_eq!(w.balance(&alice), 19i128);
}
