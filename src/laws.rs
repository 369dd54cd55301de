//! Properties that relate the entry points to one another, proved over the
//! specifications that their contracts state.

use vstd::prelude::*;
use crate::distribution::{
    buy_spec, burn_allowed, burn_spec, claim_spec, deposit_spec, init_spec, native_token_spec,
    set_paused_spec, update_buy_limit_spec, update_price_spec, Distribution, DistributionModel,
};
use crate::pause::{set_pause_spec, PauseModule};
use crate::error::DistError;

verus! {

/// Once `init` has set the token identifier, a later `init` with any other
/// identifier and price leaves it as it is; a price that was written, zero
/// included, is never replaced by `init`.
pub proof fn lemma_init_sets_token_once(
    m: DistributionModel,
    first: Seq<u8>,
    first_price: u128,
    second: Seq<u8>,
    second_price: u128,
)
    ensures
        init_spec(init_spec(m, first, first_price), second, second_price).token_id == init_spec(
            m,
            first,
            first_price,
        ).token_id,
        m.token_id is None ==> init_spec(
            init_spec(m, first, first_price),
            second,
            second_price,
        ).token_id == Some(first),
        m.price is Some ==> init_spec(m, first, first_price).price == m.price,
        init_spec(init_spec(m, first, first_price), second, second_price).price == init_spec(
            m,
            first,
            first_price,
        ).price,
{
}

/// Every owner-only entry point rejects a caller other than the owner with
/// `Unauthorized`, and changes nothing.
pub proof fn lemma_non_owner_rejected(
    m: DistributionModel,
    caller: Seq<u8>,
    owner: Seq<u8>,
    amount: u128,
    token: Seq<u8>,
)
    requires
        caller != owner,
    ensures
        update_price_spec(m, caller, owner, amount) == (Err::<(), DistError>(DistError::Unauthorized), m),
        update_buy_limit_spec(m, caller, owner, amount) == (Err::<(), DistError>(DistError::Unauthorized), m),
        deposit_spec(m, caller, owner, token) == Err::<(), DistError>(DistError::Unauthorized),
        claim_spec(caller, owner, amount) == Err::<u128, DistError>(DistError::Unauthorized),
        set_paused_spec(m, caller, owner, true) == (Err::<(), DistError>(DistError::Unauthorized), m),
        set_paused_spec(m, caller, owner, false) == (Err::<(), DistError>(DistError::Unauthorized), m),
{
}

/// A purchase with nothing paid fails with `ZeroPayment`, whatever the pause
/// state, price, limit or inventory.
pub proof fn lemma_buy_zero_payment(m: DistributionModel, available: u128)
    ensures
        buy_spec(m, 0, available) == Err::<u128, DistError>(DistError::ZeroPayment),
{
}

/// While sales are paused, every purchase with a non-zero payment fails with
/// `SalePaused`.
pub proof fn lemma_buy_when_paused(m: DistributionModel, paid: u128, available: u128)
    requires
        m.paused,
        paid > 0,
    ensures
        buy_spec(m, paid, available) == Err::<u128, DistError>(DistError::SalePaused),
{
}

/// A buy limit of zero is a limit: every purchase with a non-zero payment
/// exceeds it.
pub proof fn lemma_zero_limit_blocks_buys(m: DistributionModel, paid: u128, available: u128)
    requires
        m.buy_limit == Some(0u128),
        !m.paused,
        paid > 0,
    ensures
        buy_spec(m, paid, available) == Err::<u128, DistError>(DistError::BuyLimitExceeded),
{
}

/// Burning a token other than the distributable one fails with
/// `InvalidToken` and leaves the burned total unchanged.
pub proof fn lemma_burn_wrong_token(m: DistributionModel, token: Seq<u8>, amount: u128)
    requires
        m.token_id != Some(token),
    ensures
        burn_spec(m, token, amount).0 == Err::<u128, DistError>(DistError::InvalidToken),
        burn_spec(m, token, amount).1.burned == m.burned,
{
}

/// Whatever its outcome, a burn never lowers the burned total.
pub proof fn lemma_burn_never_lowers(m: DistributionModel, token: Seq<u8>, amount: u128)
    requires
        burn_allowed(m, token, amount),
    ensures
        burn_spec(m, token, amount).1.burned >= m.burned,
{
}

/// Two burns of the distributable token in a row destroy exactly the amounts
/// paid in, and raise the burned total by exactly their sum, never lowering it
/// on the way.
pub proof fn lemma_burn_accumulates(m: DistributionModel, token: Seq<u8>, first: u128, second: u128)
    requires
        m.token_id == Some(token),
        token != native_token_spec(),
        m.burned + first + second <= u128::MAX,
    ensures
        burn_allowed(m, token, first),
        burn_spec(m, token, first).0 == Ok::<u128, DistError>(first),
        burn_allowed(burn_spec(m, token, first).1, token, second),
        burn_spec(burn_spec(m, token, first).1, token, second).0 == Ok::<u128, DistError>(second),
        burn_spec(m, token, first).1.burned == m.burned + first,
        burn_spec(burn_spec(m, token, first).1, token, second).1.burned == m.burned + first
            + second,
        m.burned <= burn_spec(m, token, first).1.burned <= burn_spec(
            burn_spec(m, token, first).1,
            token,
            second,
        ).1.burned,
{
}

/// The owner's claim fails with `NoFundsToClaim` on an empty native balance;
/// on a balance `b > 0` it sends exactly `b`, which leaves nothing behind.
pub proof fn lemma_claim_sweeps(owner: Seq<u8>, balance: u128)
    ensures
        balance == 0 ==> claim_spec(owner, owner, balance) == Err::<u128, DistError>(
            DistError::NoFundsToClaim,
        ),
        balance > 0 ==> claim_spec(owner, owner, balance) == Ok::<u128, DistError>(balance),
        balance > 0 ==> balance - claim_spec(owner, owner, balance)->Ok_0 == 0,
{
}

/// The pause flag is what the owner's most recent `pause` or `unpause` made
/// it, whatever it was before; other values are untouched.
pub proof fn lemma_pause_reflects_last_call(m: DistributionModel, owner: Seq<u8>, first: bool, last: bool)
    ensures
        set_paused_spec(set_paused_spec(m, owner, owner, first).1, owner, owner, last).1.paused == last,
        set_paused_spec(m, owner, owner, last).1 == (DistributionModel { paused: last, ..m }),
{
}

/// For every implementor, a state change that `pause` (`to == true`) or
/// `unpause` (`to == false`) allows is exactly `set_paused_spec` on the
/// model: a non-owner changes nothing, the owner sets the flag to `to` and
/// nothing else. After the owner's `pause`, every paid purchase fails with
/// `SalePaused`.
pub proof fn lemma_pause_step<D: Distribution>(
    before: &D,
    after: &D,
    caller: Seq<u8>,
    owner: Seq<u8>,
    to: bool,
    r: Result<(), DistError>,
    paid: u128,
    available: u128,
)
    requires
        (r, after.paused()) == set_pause_spec(before.paused(), caller, owner, to),
        after.same_besides_pause(before),
    ensures
        (r, after.model()) == set_paused_spec(before.model(), caller, owner, to),
        caller != owner ==> r == Err::<(), DistError>(DistError::Unauthorized) && after.model()
            == before.model(),
        caller == owner ==> r is Ok && after.model().paused == to,
        caller == owner && to && paid > 0 ==> buy_spec(after.model(), paid, available) == Err::<
            u128,
            DistError,
        >(DistError::SalePaused),
{
    before.lemma_pause_in_model(before);
    after.lemma_pause_in_model(before);
}

} // verus!
