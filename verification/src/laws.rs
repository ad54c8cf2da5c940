//! Proved statements that tie the operations together: what a created
//! record decodes to, what a sale does and does not touch, and when
//! initialization is refused.

use vstd::prelude::*;
use crate::dispatch::{
    spec_add_product, spec_auth_shop, spec_begin_sell, spec_finish_sell, spec_initialize,
    spec_owner_region_set, spec_step, AccountsView, OutcomeView, PendingSale,
};
use crate::errors::CakeError;
use crate::records::{
    lemma_history_roundtrip, lemma_product_roundtrip, lemma_state_roundtrip, spec_decode_history,
    spec_decode_product, spec_decode_state, CakeStateView, ProductView, PurchaseHistoryView,
    STATE_LEN,
};

verus! {

/// A decoded shop state is well formed: its owner field is 32 bytes.
pub proof fn lemma_decoded_state_wf(b: Seq<u8>, s: CakeStateView)
    requires
        spec_decode_state(b) == Some(s),
    ensures
        s.wf(),
{
}

/// A decoded product is well formed: its text fields have their fixed
/// widths.
pub proof fn lemma_decoded_product_wf(b: Seq<u8>, p: ProductView)
    requires
        spec_decode_product(b) == Some(p),
    ensures
        p.wf(),
{
}

/// Initializing a vacant slot writes a state owned by the caller with both
/// counters at zero, and nothing else.
pub proof fn lemma_initialize_fresh(env: AccountsView)
    requires
        env.wf(),
        env.shop_data.len() == STATE_LEN,
        !spec_owner_region_set(env.shop_data),
    ensures
        ({
            let (env2, res) = spec_initialize(env);
            &&& res == Ok::<OutcomeView, CakeError>(OutcomeView::Done)
            &&& spec_decode_state(env2.shop_data) == Some(
                CakeStateView { owner: env.caller, product_counter: 0, history_counter: 0 },
            )
            &&& env2 == (AccountsView {
                shop_data: (CakeStateView {
                    owner: env.caller,
                    product_counter: 0,
                    history_counter: 0,
                }).enc(),
                ..env
            })
        }),
{
    let s = CakeStateView { owner: env.caller, product_counter: 0, history_counter: 0 };
    lemma_state_roundtrip(s);
}

/// Initializing a slot that already carries an owner fails with
/// `AlreadyInitialized` and leaves the slot byte-for-byte unchanged.
pub proof fn lemma_initialize_already_initialized(env: AccountsView)
    requires
        env.shop_data.len() == STATE_LEN,
        spec_owner_region_set(env.shop_data),
    ensures
        spec_initialize(env) == (env, Err::<OutcomeView, CakeError>(CakeError::AlreadyInitialized)),
{
}

/// A successful add-product creates a record that decodes back to exactly
/// the submitted fields under the next unused product id, and advances the
/// product counter by exactly one.
pub proof fn lemma_add_product_exact(
    program_id: Seq<u8>,
    env: AccountsView,
    name: Seq<u8>,
    description: Seq<u8>,
    price: u64,
    stock: u64,
    s: CakeStateView,
    env2: AccountsView,
    address: Seq<u8>,
    bump: u8,
    data: Seq<u8>,
)
    requires
        name.len() == 32,
        description.len() == 128,
        spec_auth_shop(env) == Ok::<CakeStateView, CakeError>(s),
        spec_add_product(program_id, env, name, description, price, stock) == (
            env2,
            Ok::<OutcomeView, CakeError>(OutcomeView::Created { address, bump, data }),
        ),
    ensures
        spec_decode_product(data) == Some(
            ProductView { id: s.product_counter, name, description, price, stock },
        ),
        spec_decode_state(env2.shop_data) == Some(
            CakeStateView { product_counter: (s.product_counter + 1) as u64, ..s },
        ),
        s.product_counter < u64::MAX,
        crate::address::spec_product_address(program_id, s.product_counter) == Some(
            (address, bump),
        ),
        env2.product_data == env.product_data,
{
    lemma_decoded_state_wf(env.shop_data, s);
    let p = ProductView { id: s.product_counter, name, description, price, stock };
    lemma_product_roundtrip(p);
    let s2 = CakeStateView { product_counter: (s.product_counter + 1) as u64, ..s };
    lemma_state_roundtrip(s2);
}

/// The sell opcode itself never mutates a slot, whatever its result: the
/// payment is ordered strictly before any local mutation.
pub proof fn lemma_begin_sell_mutates_nothing(
    program_id: Seq<u8>,
    env: AccountsView,
    product_id: u64,
    quantity: u64,
)
    ensures
        spec_begin_sell(program_id, env, product_id, quantity).0 == env,
{
}

/// An oversell is rejected: when every prior check passes but the asked
/// quantity exceeds the stock, the result is exactly `InsufficientStock`
/// and every slot is unchanged.
pub proof fn lemma_oversell_rejected(
    program_id: Seq<u8>,
    env: AccountsView,
    product_id: u64,
    quantity: u64,
    p: ProductView,
)
    requires
        spec_auth_shop(env) is Ok,
        crate::address::spec_product_address(program_id, product_id) matches Some((addr, _))
            && env.product_address == addr,
        spec_decode_product(env.product_data) == Some(p),
        quantity > p.stock,
    ensures
        spec_begin_sell(program_id, env, product_id, quantity) == (
            env,
            Err::<OutcomeView, CakeError>(CakeError::InsufficientStock),
        ),
{
}

/// A sale is all-or-nothing with respect to payment: a failed transfer
/// surfaces `ExternalTransferFailed` and leaves stock, counters and every
/// other byte of every slot exactly as they were, with no history record.
pub proof fn lemma_sell_all_or_nothing(
    program_id: Seq<u8>,
    env: AccountsView,
    sale: PendingSale,
    timestamp: i64,
)
    ensures
        spec_finish_sell(program_id, env, sale, false, timestamp) == (
            env,
            Err::<OutcomeView, CakeError>(CakeError::ExternalTransferFailed),
        ),
{
}

/// A completed sale decrements the stock by exactly the sold quantity —
/// possible only because the quantity was at most the stock — advances the
/// history counter by exactly one, and creates a history record whose
/// `total_price` equals `quantity` times the price in effect at the moment
/// of the sale, under the buyer and the oracle's timestamp.
pub proof fn lemma_finish_sell_exact(
    program_id: Seq<u8>,
    env: AccountsView,
    sale: PendingSale,
    timestamp: i64,
    s: CakeStateView,
    p: ProductView,
    env2: AccountsView,
    address: Seq<u8>,
    bump: u8,
    data: Seq<u8>,
)
    requires
        env.wf(),
        spec_auth_shop(env) == Ok::<CakeStateView, CakeError>(s),
        spec_decode_product(env.product_data) == Some(p),
        spec_finish_sell(program_id, env, sale, true, timestamp) == (
            env2,
            Ok::<OutcomeView, CakeError>(OutcomeView::Created { address, bump, data }),
        ),
    ensures
        sale.quantity <= p.stock,
        sale.total == sale.quantity * p.price,
        spec_decode_product(env2.product_data) == Some(
            ProductView { stock: (p.stock - sale.quantity) as u64, ..p },
        ),
        spec_decode_state(env2.shop_data) == Some(
            CakeStateView { history_counter: (s.history_counter + 1) as u64, ..s },
        ),
        spec_decode_history(data) == Some(
            PurchaseHistoryView {
                product_id: sale.product_id,
                quantity: sale.quantity,
                total_price: sale.total,
                buyer: env.buyer,
                timestamp,
            },
        ),
        crate::address::spec_history_address(
            program_id,
            env.buyer,
            sale.product_id,
            s.history_counter,
        ) == Some((address, bump)),
{
    lemma_decoded_state_wf(env.shop_data, s);
    lemma_decoded_product_wf(env.product_data, p);
    let p2 = ProductView { stock: (p.stock - sale.quantity) as u64, ..p };
    lemma_product_roundtrip(p2);
    let s2 = CakeStateView { history_counter: (s.history_counter + 1) as u64, ..s };
    lemma_state_roundtrip(s2);
    let h = PurchaseHistoryView {
        product_id: sale.product_id,
        quantity: sale.quantity,
        total_price: sale.total,
        buyer: env.buyer,
        timestamp,
    };
    lemma_history_roundtrip(h);
}

/// No partial mutation is ever observable: whenever an invocation returns
/// an error, every slot holds exactly the bytes it held before.
pub proof fn lemma_error_leaves_slots_unchanged(
    program_id: Seq<u8>,
    env: AccountsView,
    data: Seq<u8>,
)
    requires
        spec_step(program_id, env, data).1 is Err,
    ensures
        spec_step(program_id, env, data).0 == env,
{
}

/// The same for completing a sale: an error, the failed payment included,
/// leaves every slot exactly as it was.
pub proof fn lemma_finish_sell_error_leaves_slots_unchanged(
    program_id: Seq<u8>,
    env: AccountsView,
    sale: PendingSale,
    transfer_ok: bool,
    timestamp: i64,
)
    requires
        spec_finish_sell(program_id, env, sale, transfer_ok, timestamp).1 is Err,
    ensures
        spec_finish_sell(program_id, env, sale, transfer_ok, timestamp).0 == env,
{
}

/// Across every operation that leaves the shop record in place — all but
/// the state-creating initialize and the state-destroying close-shop — the
/// owner identity never changes and both counters are monotonically
/// non-decreasing.
pub proof fn lemma_shop_state_monotonic(
    program_id: Seq<u8>,
    env: AccountsView,
    data: Seq<u8>,
    s: CakeStateView,
    s2: CakeStateView,
)
    requires
        spec_decode_state(env.shop_data) == Some(s),
        spec_decode_state(spec_step(program_id, env, data).0.shop_data) == Some(s2),
        data.len() >= 1,
        data[0] != 0,
        data[0] != 6,
    ensures
        s2.owner == s.owner,
        s2.product_counter >= s.product_counter,
        s2.history_counter >= s.history_counter,
{
    lemma_decoded_state_wf(env.shop_data, s);
    lemma_state_roundtrip(
        CakeStateView { product_counter: (s.product_counter + 1) as u64, ..s },
    );
    lemma_state_roundtrip(
        CakeStateView { history_counter: (s.history_counter + 1) as u64, ..s },
    );
}

/// Completing a sale never touches the owner or the product counter, and
/// never moves the history counter backwards.
pub proof fn lemma_finish_sell_monotonic(
    program_id: Seq<u8>,
    env: AccountsView,
    sale: PendingSale,
    transfer_ok: bool,
    timestamp: i64,
    s: CakeStateView,
    s2: CakeStateView,
)
    requires
        spec_decode_state(env.shop_data) == Some(s),
        spec_decode_state(
            spec_finish_sell(program_id, env, sale, transfer_ok, timestamp).0.shop_data,
        ) == Some(s2),
    ensures
        s2.owner == s.owner,
        s2.product_counter == s.product_counter,
        s2.history_counter >= s.history_counter,
{
    lemma_decoded_state_wf(env.shop_data, s);
    lemma_state_roundtrip(
        CakeStateView { history_counter: (s.history_counter + 1) as u64, ..s },
    );
}

} // verus!
