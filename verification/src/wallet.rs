use vstd::prelude::*;

use crate::address::AddressKey;
use crate::balances::Balances;

verus! {

/// The entries of the wallet's storage.
#[derive(Clone, Copy, Debug, PartialEq, Eq, Structural)]
pub enum DataKey {
    /// The account that administers the wallet.
    Admin,
    /// The balance of each account.
    Balances,
    /// Whether balances are frozen.
    Paused,
}

/// Why the wallet refused a request. A refused request changes nothing.
#[derive(Clone, Copy, Debug, PartialEq, Eq, Structural)]
pub enum WalletError {
    /// `init` on a wallet that already has an administrator.
    AlreadyInitialized,
    /// An administrative request on a wallet that has no administrator.
    AdminNotSet,
    /// An administrative request authorized by an account other than the administrator.
    NotAdmin,
    /// A credit or debit while the wallet is paused.
    Paused,
    /// A credit or debit of zero or less.
    NonPositiveAmount,
    /// A debit of more than the account holds.
    InsufficientBalance,
    /// A credit that would take the balance past the largest `i128`.
    BalanceOverflow,
}

impl WalletError {
    /// The message with which the wallet reports this refusal.
    pub fn message(&self) -> (m: &'static str)
        ensures
            match self {
                WalletError::AlreadyInitialized => m@ == "already initialized"@,
                WalletError::AdminNotSet => m@ == "admin not set"@,
                WalletError::NotAdmin => m@ == "caller is not the admin"@,
                WalletError::Paused => m@ == "contract is paused"@,
                WalletError::NonPositiveAmount => m@ == "amount must be positive"@,
                WalletError::InsufficientBalance => m@ == "insufficient balance"@,
                WalletError::BalanceOverflow => m@ == "balance overflow"@,
            },
    {
        match self {
            WalletError::AlreadyInitialized => "already initialized",
            WalletError::AdminNotSet => "admin not set",
            WalletError::NotAdmin => "caller is not the admin",
            WalletError::Paused => "contract is paused",
            WalletError::NonPositiveAmount => "amount must be positive",
            WalletError::InsufficientBalance => "insufficient balance",
            WalletError::BalanceOverflow => "balance overflow",
        }
    }
}

/// What an accepted request announces.
pub enum WalletEvent {
    /// The wallet was given its first administrator.
    Init { admin: AddressKey },
    /// `amount` was added to the balance of `user`.
    Credit { user: AddressKey, amount: i128 },
    /// `amount` was taken from the balance of `user`.
    Debit { user: AddressKey, amount: i128 },
    /// The administrator was replaced by `new_admin`.
    SetAdmin { new_admin: AddressKey },
    /// The wallet was paused.
    Pause,
    /// The wallet was unpaused.
    Unpause,
}

/// The mathematical content of a `WalletEvent`.
pub enum EventView {
    Init(Seq<u8>),
    Credit(Seq<u8>, i128),
    Debit(Seq<u8>, i128),
    SetAdmin(Seq<u8>),
    Pause,
    Unpause,
}

impl View for WalletEvent {
    type V = EventView;

    open spec fn view(&self) -> EventView {
        match self {
            WalletEvent::Init { admin } => EventView::Init(admin@),
            WalletEvent::Credit { user, amount } => EventView::Credit(user@, *amount),
            WalletEvent::Debit { user, amount } => EventView::Debit(user@, *amount),
            WalletEvent::SetAdmin { new_admin } => EventView::SetAdmin(new_admin@),
            WalletEvent::Pause => EventView::Pause,
            WalletEvent::Unpause => EventView::Unpause,
        }
    }
}

/// The storage entries that the request announced by `ev` writes.
pub open spec fn written_keys(ev: EventView) -> Seq<DataKey> {
    match ev {
        EventView::Init(_) => seq![DataKey::Admin, DataKey::Balances],
        EventView::Credit(_, _) => seq![DataKey::Balances],
        EventView::Debit(_, _) => seq![DataKey::Balances],
        EventView::SetAdmin(_) => seq![DataKey::Admin],
        EventView::Pause => seq![DataKey::Paused],
        EventView::Unpause => seq![DataKey::Paused],
    }
}

impl WalletEvent {
    /// The name under which the event is announced.
    pub fn name(&self) -> (n: &'static str)
        ensures
            match self@ {
                EventView::Init(_) => n@ == "init"@,
                EventView::Credit(_, _) => n@ == "credit"@,
                EventView::Debit(_, _) => n@ == "debit"@,
                EventView::SetAdmin(_) => n@ == "set_admin"@,
                EventView::Pause => n@ == "pause"@,
                EventView::Unpause => n@ == "unpause"@,
            },
    {
        match self {
            WalletEvent::Init { .. } => "init",
            WalletEvent::Credit { .. } => "credit",
            WalletEvent::Debit { .. } => "debit",
            WalletEvent::SetAdmin { .. } => "set_admin",
            WalletEvent::Pause => "pause",
            WalletEvent::Unpause => "unpause",
        }
    }

    /// The storage entries that the announced request has written.
    pub fn changed_keys(&self) -> (keys: Vec<DataKey>)
        ensures
            keys@ == written_keys(self@),
    {
        let mut keys: Vec<DataKey> = Vec::new();
        match self {
            WalletEvent::Init { .. } => {
                keys.push(DataKey::Admin);
                keys.push(DataKey::Balances);
            },
            WalletEvent::Credit { .. } => keys.push(DataKey::Balances),
            WalletEvent::Debit { .. } => keys.push(DataKey::Balances),
            WalletEvent::SetAdmin { .. } => keys.push(DataKey::Admin),
            WalletEvent::Pause => keys.push(DataKey::Paused),
            WalletEvent::Unpause => keys.push(DataKey::Paused),
        }
        assert(keys@ =~= written_keys(self@));
        keys
    }
}

/// The state of a wallet: its administrator, if any, the balances, and
/// whether it is paused.
pub struct WalletView {
    pub admin: Option<Seq<u8>>,
    pub balances: Map<Seq<u8>, i128>,
    pub paused: bool,
}

/// The balance of `user`: what its entry holds, or zero without one.
pub open spec fn balance_of(balances: Map<Seq<u8>, i128>, user: Seq<u8>) -> i128 {
    if balances.contains_key(user) {
        balances[user]
    } else {
        0
    }
}

/// Whether `caller` may make an administrative request.
pub open spec fn admin_check(admin: Option<Seq<u8>>, caller: Seq<u8>) -> Result<(), WalletError> {
    match admin {
        None => Err(WalletError::AdminNotSet),
        Some(a) => if a == caller {
            Ok(())
        } else {
            Err(WalletError::NotAdmin)
        },
    }
}

/// The outcome of `init(admin)` in state `v`.
pub open spec fn init_outcome(v: WalletView, admin: Seq<u8>) -> Result<WalletView, WalletError> {
    if v.admin is Some {
        Err(WalletError::AlreadyInitialized)
    } else {
        Ok(WalletView { admin: Some(admin), balances: Map::empty(), paused: v.paused })
    }
}

/// The outcome of `credit(user, amount)` authorized by `caller` in state `v`.
pub open spec fn credit_outcome(v: WalletView, caller: Seq<u8>, user: Seq<u8>, amount: i128) -> Result<
    WalletView,
    WalletError,
> {
    let cur = balance_of(v.balances, user);
    match admin_check(v.admin, caller) {
        Err(e) => Err(e),
        Ok(_) => if v.paused {
            Err(WalletError::Paused)
        } else if amount <= 0 {
            Err(WalletError::NonPositiveAmount)
        } else if cur + amount > i128::MAX {
            Err(WalletError::BalanceOverflow)
        } else {
            Ok(WalletView { balances: v.balances.insert(user, (cur + amount) as i128), ..v })
        },
    }
}

/// The outcome of `debit(user, amount)` authorized by `caller` in state `v`.
pub open spec fn debit_outcome(v: WalletView, caller: Seq<u8>, user: Seq<u8>, amount: i128) -> Result<
    WalletView,
    WalletError,
> {
    let cur = balance_of(v.balances, user);
    match admin_check(v.admin, caller) {
        Err(e) => Err(e),
        Ok(_) => if v.paused {
            Err(WalletError::Paused)
        } else if amount <= 0 {
            Err(WalletError::NonPositiveAmount)
        } else if cur < amount {
            Err(WalletError::InsufficientBalance)
        } else {
            Ok(WalletView { balances: v.balances.insert(user, (cur - amount) as i128), ..v })
        },
    }
}

/// The outcome of `set_admin(new_admin)` authorized by `caller` in state `v`.
pub open spec fn set_admin_outcome(v: WalletView, caller: Seq<u8>, new_admin: Seq<u8>) -> Result<
    WalletView,
    WalletError,
> {
    match admin_check(v.admin, caller) {
        Err(e) => Err(e),
        Ok(_) => Ok(WalletView { admin: Some(new_admin), ..v }),
    }
}

/// The outcome of setting the paused flag to `paused`, authorized by
/// `caller`, in state `v`.
pub open spec fn pause_outcome(v: WalletView, caller: Seq<u8>, paused: bool) -> Result<
    WalletView,
    WalletError,
> {
    match admin_check(v.admin, caller) {
        Err(e) => Err(e),
        Ok(_) => Ok(WalletView { paused, ..v }),
    }
}

/// The view of an optional key.
pub open spec fn key_view(k: Option<AddressKey>) -> Option<Seq<u8>> {
    match k {
        Some(a) => Some(a@),
        None => None,
    }
}

/// The balances entry as read from storage: the stored map, or an empty one
/// when storage holds none.
pub fn balances(stored: Option<Balances>) -> (b: Balances)
    ensures
        b@ == match stored {
            Some(s) => s@,
            None => Map::<Seq<u8>, i128>::empty(),
        },
{
    match stored {
        Some(s) => s,
        None => Balances::new(),
    }
}

/// The paused flag as read from storage: the stored flag, or `false` when
/// storage holds none.
pub fn get_paused_state(stored: Option<bool>) -> (paused: bool)
    ensures
        paused == match stored {
            Some(p) => p,
            None => false,
        },
{
    match stored {
        Some(p) => p,
        None => false,
    }
}

/// Refuses an administrative request unless the wallet has an administrator
/// and `caller`, the account that authorized the request, is that
/// administrator.
pub fn require_admin(admin: &Option<AddressKey>, caller: &AddressKey) -> (r: Result<(), WalletError>)
    ensures
        r == admin_check(key_view(*admin), caller@),
{
    match admin {
        None => Err(WalletError::AdminNotSet),
        Some(a) => if a.same_as(caller) {
            Ok(())
        } else {
            Err(WalletError::NotAdmin)
        },
    }
}

/// Refuses a balance change while the wallet is paused.
pub fn require_not_paused(paused: bool) -> (r: Result<(), WalletError>)
    ensures
        r == (if paused {
            Err(WalletError::Paused)
        } else {
            Ok::<(), WalletError>(())
        }),
{
    if paused {
        Err(WalletError::Paused)
    } else {
        Ok(())
    }
}

/// A rent wallet: per-account balances kept by an administrator.
pub struct RentWallet {
    admin: Option<AddressKey>,
    balances: Balances,
    paused: bool,
}

impl View for RentWallet {
    type V = WalletView;

    closed spec fn view(&self) -> WalletView {
        WalletView { admin: key_view(self.admin), balances: self.balances@, paused: self.paused }
    }
}

impl RentWallet {
    /// A wallet whose storage holds nothing yet: no administrator, no
    /// balances, not paused.
    pub fn new() -> (w: RentWallet)
        ensures
            w@.admin is None,
            w@.balances == Map::<Seq<u8>, i128>::empty(),
            !w@.paused,
    {
        RentWallet::from_storage(None, None, None)
    }

    /// The wallet whose storage holds the given entries, where `None` is an
    /// absent entry.
    pub fn from_storage(admin: Option<AddressKey>, stored_balances: Option<Balances>, stored_paused: Option<bool>) -> (w: RentWallet)
        ensures
            w@.admin == key_view(admin),
            w@.balances == match stored_balances {
                Some(s) => s@,
                None => Map::<Seq<u8>, i128>::empty(),
            },
            w@.paused == match stored_paused {
                Some(p) => p,
                None => false,
            },
    {
        RentWallet { admin, balances: balances(stored_balances), paused: get_paused_state(stored_paused) }
    }

    /// The administrator, if the wallet has one.
    pub fn admin(&self) -> (a: &Option<AddressKey>)
        ensures
            key_view(*a) == self@.admin,
    {
        &self.admin
    }

    /// The balances entry.
    pub fn balances(&self) -> (b: &Balances)
        ensures
            b@ == self@.balances,
    {
        &self.balances
    }

    /// The account whose authorization an administrative request needs.
    pub fn authorizer(&self) -> (r: Result<AddressKey, WalletError>)
        ensures
            match self@.admin {
                Some(a) => r matches Ok(k) && k@ == a,
                None => r matches Err(e) && e == WalletError::AdminNotSet,
            },
    {
        match &self.admin {
            Some(a) => Ok(a.duplicate()),
            None => Err(WalletError::AdminNotSet),
        }
    }

    /// Makes `admin` the administrator of a wallet that has none, and
    /// empties the balances.
    pub fn init(&mut self, admin: AddressKey) -> (r: Result<WalletEvent, WalletError>)
        ensures
            match init_outcome(old(self)@, admin@) {
                Ok(v) => {
                    &&& final(self)@ == v
                    &&& r matches Ok(ev) && ev@ == EventView::Init(admin@)
                },
                Err(e) => {
                    &&& final(self)@ == old(self)@
                    &&& r == Err::<WalletEvent, WalletError>(e)
                },
            },
    {
        if self.admin.is_some() {
            return Err(WalletError::AlreadyInitialized);
        }
        let event_admin = admin.duplicate();
        self.admin = Some(admin);
        self.balances = Balances::new();
        Ok(WalletEvent::Init { admin: event_admin })
    }

    /// Adds `amount` to the balance of `user`, on the authority of `caller`.
    pub fn credit(&mut self, caller: &AddressKey, user: &AddressKey, amount: i128) -> (r: Result<
        WalletEvent,
        WalletError,
    >)
        ensures
            match credit_outcome(old(self)@, caller@, user@, amount) {
                Ok(v) => {
                    &&& final(self)@ == v
                    &&& r matches Ok(ev) && ev@ == EventView::Credit(user@, amount)
                },
                Err(e) => {
                    &&& final(self)@ == old(self)@
                    &&& r == Err::<WalletEvent, WalletError>(e)
                },
            },
    {
        if let Err(e) = require_admin(&self.admin, caller) {
            return Err(e);
        }
        if let Err(e) = require_not_paused(self.paused) {
            return Err(e);
        }
        if amount <= 0 {
            return Err(WalletError::NonPositiveAmount);
        }
        let cur = match self.balances.get(user) {
            Some(c) => c,
            None => 0,
        };
        match cur.checked_add(amount) {
            None => Err(WalletError::BalanceOverflow),
            Some(new_balance) => {
                self.balances.set(user.duplicate(), new_balance);
                Ok(WalletEvent::Credit { user: user.duplicate(), amount })
            },
        }
    }

    /// Takes `amount` from the balance of `user`, on the authority of `caller`.
    pub fn debit(&mut self, caller: &AddressKey, user: &AddressKey, amount: i128) -> (r: Result<
        WalletEvent,
        WalletError,
    >)
        ensures
            match debit_outcome(old(self)@, caller@, user@, amount) {
                Ok(v) => {
                    &&& final(self)@ == v
                    &&& r matches Ok(ev) && ev@ == EventView::Debit(user@, amount)
                },
                Err(e) => {
                    &&& final(self)@ == old(self)@
                    &&& r == Err::<WalletEvent, WalletError>(e)
                },
            },
    {
        if let Err(e) = require_admin(&self.admin, caller) {
            return Err(e);
        }
        if let Err(e) = require_not_paused(self.paused) {
            return Err(e);
        }
        if amount <= 0 {
            return Err(WalletError::NonPositiveAmount);
        }
        let cur = match self.balances.get(user) {
            Some(c) => c,
            None => 0,
        };
        if cur < amount {
            return Err(WalletError::InsufficientBalance);
        }
        self.balances.set(user.duplicate(), cur - amount);
        Ok(WalletEvent::Debit { user: user.duplicate(), amount })
    }

    /// The balance of `user`; zero for an account without an entry.
    pub fn balance(&self, user: &AddressKey) -> (b: i128)
        ensures
            b == balance_of(self@.balances, user@),
    {
        match self.balances.get(user) {
            Some(b) => b,
            None => 0,
        }
    }

    /// Makes `new_admin` the administrator, on the authority of `caller`.
    pub fn set_admin(&mut self, caller: &AddressKey, new_admin: AddressKey) -> (r: Result<
        WalletEvent,
        WalletError,
    >)
        ensures
            match set_admin_outcome(old(self)@, caller@, new_admin@) {
                Ok(v) => {
                    &&& final(self)@ == v
                    &&& r matches Ok(ev) && ev@ == EventView::SetAdmin(new_admin@)
                },
                Err(e) => {
                    &&& final(self)@ == old(self)@
                    &&& r == Err::<WalletEvent, WalletError>(e)
                },
            },
    {
        if let Err(e) = require_admin(&self.admin, caller) {
            return Err(e);
        }
        let event_admin = new_admin.duplicate();
        self.admin = Some(new_admin);
        Ok(WalletEvent::SetAdmin { new_admin: event_admin })
    }

    /// Pauses the wallet, on the authority of `caller`.
    pub fn pause(&mut self, caller: &AddressKey) -> (r: Result<WalletEvent, WalletError>)
        ensures
            match pause_outcome(old(self)@, caller@, true) {
                Ok(v) => {
                    &&& final(self)@ == v
                    &&& r matches Ok(ev) && ev@ == EventView::Pause
                },
                Err(e) => {
                    &&& final(self)@ == old(self)@
                    &&& r == Err::<WalletEvent, WalletError>(e)
                },
            },
    {
        if let Err(e) = require_admin(&self.admin, caller) {
            return Err(e);
        }
        self.paused = true;
        Ok(WalletEvent::Pause)
    }

    /// Unpauses the wallet, on the authority of `caller`.
    pub fn unpause(&mut self, caller: &AddressKey) -> (r: Result<WalletEvent, WalletError>)
        ensures
            match pause_outcome(old(self)@, caller@, false) {
                Ok(v) => {
                    &&& final(self)@ == v
                    &&& r matches Ok(ev) && ev@ == EventView::Unpause
                },
                Err(e) => {
                    &&& final(self)@ == old(self)@
                    &&& r == Err::<WalletEvent, WalletError>(e)
                },
            },
    {
        if let Err(e) = require_admin(&self.admin, caller) {
            return Err(e);
        }
        self.paused = false;
        Ok(WalletEvent::Unpause)
    }

    /// Whether the wallet is paused.
    pub fn is_paused(&self) -> (p: bool)
        ensures
            p == self@.paused,
    {
        self.paused
    }
}

} // verus!
