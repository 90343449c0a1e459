use vstd::prelude::*;

use crate::wallet::{
    admin_check, balance_of, credit_outcome, debit_outcome, init_outcome, pause_outcome,
    set_admin_outcome, WalletError, WalletView,
};

verus! {

/// Every balance is zero or more.
pub open spec fn all_non_negative(balances: Map<Seq<u8>, i128>) -> bool {
    forall|u: Seq<u8>| #[trigger] balances.contains_key(u) ==> balances[u] >= 0
}

/// An accepted credit raises the balance of its account by exactly the
/// amount, and changes no other balance, the administrator or the paused flag.
pub proof fn lemma_credit_adds_amount(v: WalletView, caller: Seq<u8>, user: Seq<u8>, amount: i128)
    requires
        credit_outcome(v, caller, user, amount) is Ok,
    ensures
        ({
            let w = credit_outcome(v, caller, user, amount)->Ok_0;
            &&& balance_of(w.balances, user) == balance_of(v.balances, user) + amount
            &&& forall|other: Seq<u8>|
                other != user ==> #[trigger] balance_of(w.balances, other) == balance_of(
                    v.balances,
                    other,
                )
            &&& w.admin == v.admin
            &&& w.paused == v.paused
        }),
{
}

/// An accepted debit lowers the balance of its account by exactly the
/// amount, leaves it at zero or more, and changes no other balance, the
/// administrator or the paused flag.
pub proof fn lemma_debit_takes_amount(v: WalletView, caller: Seq<u8>, user: Seq<u8>, amount: i128)
    requires
        debit_outcome(v, caller, user, amount) is Ok,
    ensures
        ({
            let w = debit_outcome(v, caller, user, amount)->Ok_0;
            &&& balance_of(w.balances, user) == balance_of(v.balances, user) - amount
            &&& balance_of(w.balances, user) >= 0
            &&& forall|other: Seq<u8>|
                other != user ==> #[trigger] balance_of(w.balances, other) == balance_of(
                    v.balances,
                    other,
                )
            &&& w.admin == v.admin
            &&& w.paused == v.paused
        }),
{
}

/// Two accepted credits to one account add up: the balance rises by the sum
/// of the amounts.
pub proof fn lemma_credits_accumulate(
    v: WalletView,
    caller: Seq<u8>,
    user: Seq<u8>,
    first: i128,
    second: i128,
)
    requires
        credit_outcome(v, caller, user, first) is Ok,
        credit_outcome(credit_outcome(v, caller, user, first)->Ok_0, caller, user, second) is Ok,
    ensures
        balance_of(
            credit_outcome(credit_outcome(v, caller, user, first)->Ok_0, caller, user, second)->Ok_0.balances,
            user,
        ) == balance_of(v.balances, user) + first + second,
{
}

/// A debit of what was just credited to an account that held zero or more is
/// accepted, and brings every balance back to what it was.
pub proof fn lemma_debit_undoes_credit(v: WalletView, caller: Seq<u8>, user: Seq<u8>, amount: i128)
    requires
        credit_outcome(v, caller, user, amount) is Ok,
        balance_of(v.balances, user) >= 0,
    ensures
        ({
            let w = credit_outcome(v, caller, user, amount)->Ok_0;
            &&& debit_outcome(w, caller, user, amount) is Ok
            &&& forall|u: Seq<u8>| #[trigger]
                balance_of(debit_outcome(w, caller, user, amount)->Ok_0.balances, u) == balance_of(
                    v.balances,
                    u,
                )
            &&& debit_outcome(w, caller, user, amount)->Ok_0.admin == v.admin
            &&& debit_outcome(w, caller, user, amount)->Ok_0.paused == v.paused
        }),
{
    let w = credit_outcome(v, caller, user, amount)->Ok_0;
    assert(balance_of(w.balances, user) == balance_of(v.balances, user) + amount);
    assert(debit_outcome(w, caller, user, amount) is Ok);
    let x = debit_outcome(w, caller, user, amount)->Ok_0;
    assert forall|u: Seq<u8>| #[trigger] balance_of(x.balances, u) == balance_of(v.balances, u) by {
        if u != user {
            assert(balance_of(w.balances, u) == balance_of(v.balances, u));
        }
    }
}

/// No accepted request makes a balance negative.
pub proof fn lemma_balances_stay_non_negative(v: WalletView)
    requires
        all_non_negative(v.balances),
    ensures
        forall|a: Seq<u8>|
            #[trigger] init_outcome(v, a) is Ok ==> all_non_negative(init_outcome(v, a)->Ok_0.balances),
        forall|c: Seq<u8>, u: Seq<u8>, amount: i128|
            #[trigger] credit_outcome(v, c, u, amount) is Ok ==> all_non_negative(
                credit_outcome(v, c, u, amount)->Ok_0.balances,
            ),
        forall|c: Seq<u8>, u: Seq<u8>, amount: i128|
            #[trigger] debit_outcome(v, c, u, amount) is Ok ==> all_non_negative(
                debit_outcome(v, c, u, amount)->Ok_0.balances,
            ),
        forall|c: Seq<u8>, a: Seq<u8>|
            #[trigger] set_admin_outcome(v, c, a) is Ok ==> all_non_negative(
                set_admin_outcome(v, c, a)->Ok_0.balances,
            ),
        forall|c: Seq<u8>, p: bool|
            #[trigger] pause_outcome(v, c, p) is Ok ==> all_non_negative(
                pause_outcome(v, c, p)->Ok_0.balances,
            ),
{
    assert forall|c: Seq<u8>, u: Seq<u8>, amount: i128|
        #[trigger] credit_outcome(v, c, u, amount) is Ok implies all_non_negative(
        credit_outcome(v, c, u, amount)->Ok_0.balances,
    ) by {
        let w = credit_outcome(v, c, u, amount)->Ok_0;
        assert forall|k: Seq<u8>| #[trigger] w.balances.contains_key(k) implies w.balances[k] >= 0 by {
            if k != u {
                assert(v.balances.contains_key(k));
            }
        }
    }
    assert forall|c: Seq<u8>, u: Seq<u8>, amount: i128|
        #[trigger] debit_outcome(v, c, u, amount) is Ok implies all_non_negative(
        debit_outcome(v, c, u, amount)->Ok_0.balances,
    ) by {
        let w = debit_outcome(v, c, u, amount)->Ok_0;
        assert forall|k: Seq<u8>| #[trigger] w.balances.contains_key(k) implies w.balances[k] >= 0 by {
            if k != u {
                assert(v.balances.contains_key(k));
            }
        }
    }
}

/// While the wallet is paused no credit or debit is accepted, whoever asks.
pub proof fn lemma_paused_freezes_balances(v: WalletView, caller: Seq<u8>, user: Seq<u8>, amount: i128)
    requires
        v.paused,
    ensures
        credit_outcome(v, caller, user, amount) is Err,
        debit_outcome(v, caller, user, amount) is Err,
        v.admin == Some(caller) ==> credit_outcome(v, caller, user, amount) == Err::<
            WalletView,
            WalletError,
        >(WalletError::Paused),
        v.admin == Some(caller) ==> debit_outcome(v, caller, user, amount) == Err::<
            WalletView,
            WalletError,
        >(WalletError::Paused),
{
}

/// An account other than the administrator can make no administrative
/// request: credit, debit, set_admin, pause and unpause are all refused.
pub proof fn lemma_only_admin_acts(
    v: WalletView,
    caller: Seq<u8>,
    user: Seq<u8>,
    amount: i128,
    new_admin: Seq<u8>,
    paused: bool,
)
    requires
        v.admin != Some(caller),
    ensures
        credit_outcome(v, caller, user, amount) is Err,
        debit_outcome(v, caller, user, amount) is Err,
        set_admin_outcome(v, caller, new_admin) is Err,
        pause_outcome(v, caller, paused) is Err,
{
}

/// A wallet can be initialized once: after an accepted `init`, every later
/// `init` is refused, and every account's balance is zero.
pub proof fn lemma_init_only_once(v: WalletView, admin: Seq<u8>, again: Seq<u8>, user: Seq<u8>)
    requires
        init_outcome(v, admin) is Ok,
    ensures
        init_outcome(init_outcome(v, admin)->Ok_0, again) == Err::<WalletView, WalletError>(
            WalletError::AlreadyInitialized,
        ),
        balance_of(init_outcome(v, admin)->Ok_0.balances, user) == 0,
        admin_check(init_outcome(v, admin)->Ok_0.admin, admin) is Ok,
{
}

/// The administrator can pause and then unpause the wallet; neither changes
/// a balance or the administrator.
pub proof fn lemma_pause_then_unpause(v: WalletView, caller: Seq<u8>)
    requires
        v.admin == Some(caller),
    ensures
        ({
            let w = pause_outcome(v, caller, true)->Ok_0;
            let x = pause_outcome(w, caller, false)->Ok_0;
            &&& pause_outcome(v, caller, true) is Ok
            &&& w.paused
            &&& w.balances == v.balances
            &&& w.admin == v.admin
            &&& pause_outcome(w, caller, false) is Ok
            &&& !x.paused
            &&& x.balances == v.balances
            &&& x.admin == v.admin
        }),
{
}

/// After an accepted `set_admin`, the new administrator is the only account
/// whose administrative requests pass the check.
pub proof fn lemma_set_admin_hands_over(v: WalletView, caller: Seq<u8>, new_admin: Seq<u8>, other: Seq<u8>)
    requires
        set_admin_outcome(v, caller, new_admin) is Ok,
    ensures
        admin_check(set_admin_outcome(v, caller, new_admin)->Ok_0.admin, new_admin) is Ok,
        other != new_admin ==> admin_check(set_admin_outcome(v, caller, new_admin)->Ok_0.admin, other)
            == Err::<(), WalletError>(WalletError::NotAdmin),
        set_admin_outcome(v, caller, new_admin)->Ok_0.balances == v.balances,
        set_admin_outcome(v, caller, new_admin)->Ok_0.paused == v.paused,
{
}


/// A credit is accepted exactly when the administrator asks for it, the
/// wallet is not paused, the amount is positive and the new balance fits in an
/// `i128`, whatever the account is (the administrator's own account too) and
/// whatever it holds (an entry at zero too); the account then holds its old
/// balance plus the amount.
pub proof fn lemma_credit_accepted_exactly_when(v: WalletView, caller: Seq<u8>, user: Seq<u8>, amount: i128)
    ensures
        (credit_outcome(v, caller, user, amount) is Ok) <==> (v.admin == Some(caller) && !v.paused && 0
            < amount && balance_of(v.balances, user) + amount <= i128::MAX),
        credit_outcome(v, caller, user, amount) is Ok ==> balance_of(
            credit_outcome(v, caller, user, amount)->Ok_0.balances,
            user,
        ) == balance_of(v.balances, user) + amount,
        v.admin is None ==> credit_outcome(v, caller, user, amount) == Err::<WalletView, WalletError>(
            WalletError::AdminNotSet,
        ),
        (v.admin is Some && v.admin != Some(caller)) ==> credit_outcome(v, caller, user, amount)
            == Err::<WalletView, WalletError>(WalletError::NotAdmin),
        (v.admin == Some(caller) && !v.paused && amount <= 0) ==> credit_outcome(
            v,
            caller,
            user,
            amount,
        ) == Err::<WalletView, WalletError>(WalletError::NonPositiveAmount),
{
}

/// A debit is accepted exactly when the administrator asks for it, the
/// wallet is not paused and the amount is positive and at most the account's
/// balance, whatever the account is (the administrator's own account too);
/// the account then holds its old balance minus the amount.
pub proof fn lemma_debit_accepted_exactly_when(v: WalletView, caller: Seq<u8>, user: Seq<u8>, amount: i128)
    ensures
        (debit_outcome(v, caller, user, amount) is Ok) <==> (v.admin == Some(caller) && !v.paused && 0
            < amount && amount <= balance_of(v.balances, user)),
        debit_outcome(v, caller, user, amount) is Ok ==> balance_of(
            debit_outcome(v, caller, user, amount)->Ok_0.balances,
            user,
        ) == balance_of(v.balances, user) - amount,
        v.admin is None ==> debit_outcome(v, caller, user, amount) == Err::<WalletView, WalletError>(
            WalletError::AdminNotSet,
        ),
        (v.admin is Some && v.admin != Some(caller)) ==> debit_outcome(v, caller, user, amount)
            == Err::<WalletView, WalletError>(WalletError::NotAdmin),
        (v.admin == Some(caller) && !v.paused && 0 < amount && balance_of(v.balances, user) < amount)
            ==> debit_outcome(v, caller, user, amount) == Err::<WalletView, WalletError>(
            WalletError::InsufficientBalance,
        ),
{
}

/// `set_admin` is accepted exactly when the administrator asks for it,
/// paused or not; the new administrator is then `new_admin`, and balances
/// and the paused flag stay as they were.
pub proof fn lemma_set_admin_accepted_exactly_when(v: WalletView, caller: Seq<u8>, new_admin: Seq<u8>)
    ensures
        (set_admin_outcome(v, caller, new_admin) is Ok) <==> v.admin == Some(caller),
        set_admin_outcome(v, caller, new_admin) is Ok ==> {
            let w = set_admin_outcome(v, caller, new_admin)->Ok_0;
            &&& w.admin == Some(new_admin)
            &&& w.balances == v.balances
            &&& w.paused == v.paused
        },
{
}

/// Pausing and unpausing are accepted exactly when the administrator asks,
/// from either state of the flag; the flag is then what was asked for, and
/// balances and the administrator stay as they were.
pub proof fn lemma_pause_flag_set_exactly(v: WalletView, caller: Seq<u8>, paused: bool)
    ensures
        (pause_outcome(v, caller, paused) is Ok) <==> v.admin == Some(caller),
        pause_outcome(v, caller, paused) is Ok ==> {
            let w = pause_outcome(v, caller, paused)->Ok_0;
            &&& w.paused == paused
            &&& w.balances == v.balances
            &&& w.admin == v.admin
        },
{
}

/// `init` is accepted exactly when the wallet has no administrator, for
/// every administrator key; the key then becomes the administrator, every
/// account holds zero, and the paused flag stays as it was.
pub proof fn lemma_init_accepted_exactly_when(v: WalletView, admin: Seq<u8>, user: Seq<u8>)
    ensures
        (init_outcome(v, admin) is Ok) <==> v.admin is None,
        init_outcome(v, admin) is Ok ==> {
            let w = init_outcome(v, admin)->Ok_0;
            &&& w.admin == Some(admin)
            &&& balance_of(w.balances, user) == 0
            &&& w.paused == v.paused
        },
{
}

} // verus!
