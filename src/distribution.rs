use vstd::prelude::*;
use crate::access::{bytes_equal, copy_bytes, only_owner, owner_check};
use crate::error::DistError;
use crate::pause::{set_pause_spec, PauseModule};

verus! {

/// The contract's persistent values, as mathematical values.
///
/// `None` is a value that was never written; a written zero is `Some(0)`.
pub struct DistributionModel {
    pub token_id: Option<Seq<u8>>,
    pub price: Option<u128>,
    pub buy_limit: Option<u128>,
    pub burned: u128,
    pub paused: bool,
}

/// The identifier under which the native currency is written.
pub open spec fn native_token_spec() -> Seq<u8> {
    seq![69u8, 71u8, 76u8, 68u8]
}

/// Storage after `init`: the token identifier and the price are each set
/// only where they were never written.
pub open spec fn init_spec(m: DistributionModel, token_id: Seq<u8>, price: u128) -> DistributionModel {
    DistributionModel {
        token_id: if m.token_id is None { Some(token_id) } else { m.token_id },
        price: if m.price is None { Some(price) } else { m.price },
        ..m
    }
}

/// The outcome of `updatePrice`.
pub open spec fn update_price_spec(m: DistributionModel, caller: Seq<u8>, owner: Seq<u8>, price: u128) -> (
    Result<(), DistError>,
    DistributionModel,
) {
    match owner_check(caller, owner) {
        Ok(()) => (Ok(()), DistributionModel { price: Some(price), ..m }),
        Err(e) => (Err(e), m),
    }
}

/// The outcome of `updateBuyLimit`.
pub open spec fn update_buy_limit_spec(
    m: DistributionModel,
    caller: Seq<u8>,
    owner: Seq<u8>,
    limit: u128,
) -> (Result<(), DistError>, DistributionModel) {
    match owner_check(caller, owner) {
        Ok(()) => (Ok(()), DistributionModel { buy_limit: Some(limit), ..m }),
        Err(e) => (Err(e), m),
    }
}

/// The outcome of `pause` (`to == true`) and `unpause` (`to == false`).
pub open spec fn set_paused_spec(m: DistributionModel, caller: Seq<u8>, owner: Seq<u8>, to: bool) -> (
    Result<(), DistError>,
    DistributionModel,
) {
    let (r, paused) = set_pause_spec(m.paused, caller, owner, to);
    (r, DistributionModel { paused, ..m })
}

/// The outcome of `deposit`: the owner may pay in the distributable token only.
pub open spec fn deposit_spec(m: DistributionModel, caller: Seq<u8>, owner: Seq<u8>, token: Seq<u8>) -> Result<
    (),
    DistError,
> {
    match owner_check(caller, owner) {
        Err(e) => Err(e),
        Ok(()) => if m.token_id == Some(token) {
            Ok(())
        } else {
            Err(DistError::InvalidToken)
        },
    }
}

/// The outcome of `claim`: the native amount sent to the owner, which is the
/// whole native balance.
pub open spec fn claim_spec(caller: Seq<u8>, owner: Seq<u8>, native_balance: u128) -> Result<
    u128,
    DistError,
> {
    match owner_check(caller, owner) {
        Err(e) => Err(e),
        Ok(()) => if native_balance == 0 {
            Err(DistError::NoFundsToClaim)
        } else {
            Ok(native_balance)
        },
    }
}

/// The outcome of `buy`: the number of distributable units sent to the buyer.
pub open spec fn buy_spec(m: DistributionModel, paid: u128, available: u128) -> Result<u128, DistError> {
    if paid == 0 {
        Err(DistError::ZeroPayment)
    } else if m.paused {
        Err(DistError::SalePaused)
    } else if m.buy_limit is Some && paid > m.buy_limit->0 {
        Err(DistError::BuyLimitExceeded)
    } else if m.price is None || m.price->0 == 0 {
        Err(DistError::DivisionByZero)
    } else if paid / m.price->0 > available {
        Err(DistError::InsufficientInventory)
    } else {
        Ok(paid / m.price->0)
    }
}

/// What `burn` demands: the burned total stays representable, and the native
/// currency is never burned.
pub open spec fn burn_allowed(m: DistributionModel, token: Seq<u8>, amount: u128) -> bool {
    m.token_id == Some(token) ==> (token != native_token_spec() && m.burned + amount <= u128::MAX)
}

/// The outcome of `burn`: the number of units destroyed, and the new total.
pub open spec fn burn_spec(m: DistributionModel, token: Seq<u8>, amount: u128) -> (
    Result<u128, DistError>,
    DistributionModel,
) {
    if m.token_id == Some(token) {
        (Ok(amount), DistributionModel { burned: (m.burned + amount) as u128, ..m })
    } else {
        (Err(DistError::InvalidToken), m)
    }
}

/// Whether `token` is the identifier of the native currency.
pub fn is_native_token(token: &[u8]) -> (r: bool)
    ensures
        r == (token@ == native_token_spec()),
{
    let native: [u8; 4] = [69u8, 71u8, 76u8, 68u8];
    let r = bytes_equal(token, native.as_slice());
    assert(native@ =~= native_token_spec());
    r
}

/// The distribution ledger: sale configuration and burned total, on top of
/// the pause gate.
///
/// Each entry point either succeeds, with the change its contract states, or
/// fails and leaves every value as it was. Balances and transfers belong to
/// the host: an entry point is told the balances it reads and returns the
/// amount to move.
pub trait Distribution: PauseModule {
    /// The persistent values.
    spec fn model(&self) -> DistributionModel;

    /// The pause gate's flag is the model's, and `same_besides_pause` says
    /// that two states differ in that flag at most.
    proof fn lemma_pause_in_model(&self, other: &Self)
        ensures
            self.paused() == self.model().paused,
            self.same_besides_pause(other) == (self.model() == (DistributionModel {
                paused: self.model().paused,
                ..other.model()
            })),
    ;

    /// Runs at deployment and at every upgrade: sets the token and the price
    /// where they are still unset. Never fails.
    fn init(&mut self, dist_token_id: &[u8], dist_token_price: u128)
        ensures
            final(self).model() == init_spec(old(self).model(), dist_token_id@, dist_token_price),
    ;

    /// Owner only: overwrites the unit price, zero included.
    fn update_price(&mut self, caller: &[u8], owner: &[u8], dist_token_price: u128) -> (r: Result<
        (),
        DistError,
    >)
        ensures
            (r, final(self).model()) == update_price_spec(
                old(self).model(),
                caller@,
                owner@,
                dist_token_price,
            ),
    ;

    /// Owner only: overwrites the per-call buy limit, zero included.
    fn update_buy_limit(&mut self, caller: &[u8], owner: &[u8], limit_amount: u128) -> (r: Result<
        (),
        DistError,
    >)
        ensures
            (r, final(self).model()) == update_buy_limit_spec(
                old(self).model(),
                caller@,
                owner@,
                limit_amount,
            ),
    ;

    /// Owner only: admits a payment of the distributable token. The host
    /// credits the funds; nothing is recorded here.
    fn deposit(&self, caller: &[u8], owner: &[u8], token: &[u8]) -> (r: Result<(), DistError>)
        ensures
            r == deposit_spec(self.model(), caller@, owner@, token@),
    ;

    /// Owner only: the native amount to send to the caller, which is the
    /// contract's whole native balance.
    fn claim(&self, caller: &[u8], owner: &[u8], native_balance: u128) -> (r: Result<u128, DistError>)
        ensures
            r == claim_spec(caller@, owner@, native_balance),
    ;

    /// Anyone: `paid_amount` of native currency buys `paid_amount / price`
    /// units of the distributable token, of which the contract holds
    /// `available`. Returns the units to send to the buyer; the payment stays
    /// with the contract, remainder included.
    fn buy(&self, paid_amount: u128, available: u128) -> (r: Result<u128, DistError>)
        ensures
            r == buy_spec(self.model(), paid_amount, available),
    ;

    /// Anyone: destroys `payment_amount` units paid in, which must be the
    /// distributable token, and adds them to the burned total. Returns the
    /// units to destroy.
    fn burn(&mut self, payment_token: &[u8], payment_amount: u128) -> (r: Result<u128, DistError>)
        requires
            burn_allowed(old(self).model(), payment_token@, payment_amount),
        ensures
            (r, final(self).model()) == burn_spec(old(self).model(), payment_token@, payment_amount),
    ;

    /// The distributable token's identifier; `None` before `init`.
    fn get_distributable_token_id(&self) -> (r: Option<Vec<u8>>)
        ensures
            r is Some <==> self.model().token_id is Some,
            r is Some ==> r->0@ == self.model().token_id->0,
    ;

    /// The unit price in native currency; `None` when never written.
    fn get_distributable_price(&self) -> (r: Option<u128>)
        ensures
            r == self.model().price,
    ;

    /// The per-call buy limit; `None` when unset.
    fn get_buy_limit(&self) -> (r: Option<u128>)
        ensures
            r == self.model().buy_limit,
    ;

    /// The total of units burned so far.
    fn get_burned_amount(&self) -> (r: u128)
        ensures
            r == self.model().burned,
    ;
}

/// The contract's storage: the five persistent values.
pub struct SaleContract {
    token_id: Option<Vec<u8>>,
    price: Option<u128>,
    buy_limit: Option<u128>,
    burned: u128,
    paused: bool,
}

impl SaleContract {
    /// The persistent values as mathematical values.
    pub closed spec fn state(&self) -> DistributionModel {
        DistributionModel {
            token_id: match self.token_id {
                Some(t) => Some(t@),
                None => None,
            },
            price: self.price,
            buy_limit: self.buy_limit,
            burned: self.burned,
            paused: self.paused,
        }
    }

    /// A contract whose storage was never written.
    pub fn new() -> (r: SaleContract)
        ensures
            r.state().token_id is None,
            r.state().price is None,
            r.state().buy_limit is None,
            r.state().burned == 0,
            !r.state().paused,
    {
        SaleContract { token_id: None, price: None, buy_limit: None, burned: 0, paused: false }
    }

    /// Whether `token` is the distributable token (never, before `init`).
    fn holds_token(&self, token: &[u8]) -> (r: bool)
        ensures
            r == (self.state().token_id == Some(token@)),
    {
        match &self.token_id {
            Some(t) => bytes_equal(token, t.as_slice()),
            None => false,
        }
    }

    /// A contract holding the values read back from storage.
    pub fn from_storage(
        token_id: Option<Vec<u8>>,
        price: Option<u128>,
        buy_limit: Option<u128>,
        burned: u128,
        paused: bool,
    ) -> (r: SaleContract)
        ensures
            r.state().token_id is Some <==> token_id is Some,
            token_id is Some ==> r.state().token_id->0 == token_id->0@,
            r.state().price == price,
            r.state().buy_limit == buy_limit,
            r.state().burned == burned,
            r.state().paused == paused,
    {
        SaleContract { token_id, price, buy_limit, burned, paused }
    }
}

impl PauseModule for SaleContract {
    open spec fn paused(&self) -> bool {
        self.state().paused
    }

    open spec fn same_besides_pause(&self, other: &Self) -> bool {
        self.state() == (DistributionModel { paused: self.state().paused, ..other.state() })
    }

    fn is_paused(&self) -> (r: bool) {
        self.paused
    }

    fn pause(&mut self, caller: &[u8], owner: &[u8]) -> (r: Result<(), DistError>) {
        match only_owner(caller, owner) {
            Ok(()) => {
                self.paused = true;
                Ok(())
            },
            Err(e) => Err(e),
        }
    }

    fn unpause(&mut self, caller: &[u8], owner: &[u8]) -> (r: Result<(), DistError>) {
        match only_owner(caller, owner) {
            Ok(()) => {
                self.paused = false;
                Ok(())
            },
            Err(e) => Err(e),
        }
    }
}

impl Distribution for SaleContract {
    open spec fn model(&self) -> DistributionModel {
        self.state()
    }

    proof fn lemma_pause_in_model(&self, other: &Self) {
    }

    fn init(&mut self, dist_token_id: &[u8], dist_token_price: u128) {
        if self.token_id.is_none() {
            self.token_id = Some(copy_bytes(dist_token_id));
        }
        if self.price.is_none() {
            self.price = Some(dist_token_price);
        }
    }

    fn update_price(&mut self, caller: &[u8], owner: &[u8], dist_token_price: u128) -> (r: Result<
        (),
        DistError,
    >) {
        match only_owner(caller, owner) {
            Ok(()) => {
                self.price = Some(dist_token_price);
                Ok(())
            },
            Err(e) => Err(e),
        }
    }

    fn update_buy_limit(&mut self, caller: &[u8], owner: &[u8], limit_amount: u128) -> (r: Result<
        (),
        DistError,
    >) {
        match only_owner(caller, owner) {
            Ok(()) => {
                self.buy_limit = Some(limit_amount);
                Ok(())
            },
            Err(e) => Err(e),
        }
    }

    fn deposit(&self, caller: &[u8], owner: &[u8], token: &[u8]) -> (r: Result<(), DistError>) {
        match only_owner(caller, owner) {
            Ok(()) => {
                if self.holds_token(token) {
                    Ok(())
                } else {
                    Err(DistError::InvalidToken)
                }
            },
            Err(e) => Err(e),
        }
    }

    fn claim(&self, caller: &[u8], owner: &[u8], native_balance: u128) -> (r: Result<u128, DistError>) {
        match only_owner(caller, owner) {
            Ok(()) => {
                if native_balance > 0 {
                    Ok(native_balance)
                } else {
                    Err(DistError::NoFundsToClaim)
                }
            },
            Err(e) => Err(e),
        }
    }

    fn buy(&self, paid_amount: u128, available: u128) -> (r: Result<u128, DistError>) {
        if paid_amount == 0 {
            return Err(DistError::ZeroPayment);
        }
        if !self.not_paused() {
            return Err(DistError::SalePaused);
        }
        match self.buy_limit {
            Some(limit) => {
                if paid_amount > limit {
                    return Err(DistError::BuyLimitExceeded);
                }
            },
            None => {},
        }
        let price = match self.price {
            Some(p) => p,
            None => 0,
        };
        if price == 0 {
            return Err(DistError::DivisionByZero);
        }
        let token_amount = paid_amount / price;
        if token_amount > available {
            return Err(DistError::InsufficientInventory);
        }
        Ok(token_amount)
    }

    fn burn(&mut self, payment_token: &[u8], payment_amount: u128) -> (r: Result<u128, DistError>) {
        if !self.holds_token(payment_token) {
            return Err(DistError::InvalidToken);
        }
        self.burned = self.burned + payment_amount;
        Ok(payment_amount)
    }

    fn get_distributable_token_id(&self) -> (r: Option<Vec<u8>>) {
        match &self.token_id {
            Some(t) => Some(copy_bytes(t.as_slice())),
            None => None,
        }
    }

    fn get_distributable_price(&self) -> (r: Option<u128>) {
        self.price
    }

    fn get_buy_limit(&self) -> (r: Option<u128>) {
        self.buy_limit
    }

    fn get_burned_amount(&self) -> (r: u128) {
        self.burned
    }
}

} // verus!
