//! The instruction dispatcher and the sell protocol's state machine.
//!
//! The dispatcher itself is stateless: all state lives in the storage slots
//! it reads and writes, modelled here by [`Accounts`]. One invocation
//! decodes the opcode-tagged buffer, authenticates the caller against the
//! shop's owner, re-derives and checks every record address the caller
//! supplied, applies the operation's mutation and re-encodes. Any error
//! leaves every slot exactly as it was, so the host's all-or-nothing commit
//! has nothing partial to discard.
//!
//! The sell operation alone spans an external payment. It is split in two:
//! [`process_instruction`] validates the sale and, mutating nothing, asks
//! the host for a transfer of the computed total; [`finish_sell`] takes the
//! transfer's outcome and either applies the whole local mutation or, on a
//! failed payment, changes nothing at all.

use vstd::prelude::*;
use crate::address::{
    derive_history_address, derive_product_address, spec_history_address, spec_product_address,
};
use crate::bytes_util::{bytes_eq, copy_bytes, spec_zeroed, zeroed};
use crate::errors::CakeError;
use crate::instruction::{parse, Instruction, InstructionView, spec_parse};
use crate::records::{
    spec_decode_product, spec_decode_state, CakeState, CakeStateView, Product, ProductView,
    PurchaseHistory, PurchaseHistoryView, HISTORY_LEN, PRODUCT_LEN, STATE_LEN,
};

verus! {

/// The storage slots and identities one invocation works on, as the host
/// hands them over: plain byte buffers bound by position, plus the caller's
/// authenticated identity. Only `shop_data` and `product_data` are ever
/// mutated; every other field is read-only input.
pub struct Accounts {
    /// The identity the caller presented and signed for.
    pub caller: Vec<u8>,
    /// Contents of the shop's state slot.
    pub shop_data: Vec<u8>,
    /// The product-record address the caller supplied.
    pub product_address: Vec<u8>,
    /// Contents of the product slot at that address.
    pub product_data: Vec<u8>,
    /// The buying identity of a sale.
    pub buyer: Vec<u8>,
    /// The history-record address the caller supplied.
    pub history_address: Vec<u8>,
}

/// Mathematical image of [`Accounts`].
#[verifier::ext_equal]
pub struct AccountsView {
    pub caller: Seq<u8>,
    pub shop_data: Seq<u8>,
    pub product_address: Seq<u8>,
    pub product_data: Seq<u8>,
    pub buyer: Seq<u8>,
    pub history_address: Seq<u8>,
}

impl View for Accounts {
    type V = AccountsView;

    open spec fn view(&self) -> AccountsView {
        AccountsView {
            caller: self.caller@,
            shop_data: self.shop_data@,
            product_address: self.product_address@,
            product_data: self.product_data@,
            buyer: self.buyer@,
            history_address: self.history_address@,
        }
    }
}

impl AccountsView {
    /// Identities are 32 bytes; the host guarantees as much for the keys it
    /// binds to an invocation.
    pub open spec fn wf(self) -> bool {
        self.caller.len() == 32 && self.buyer.len() == 32
    }
}

impl Accounts {
    pub open spec fn wf(self) -> bool {
        self@.wf()
    }
}

/// A validated sale waiting for its payment: what the sell operation asks
/// the host to transfer before any local state is touched.
#[derive(Clone, Copy, Debug, PartialEq, Eq, Structural)]
pub struct PendingSale {
    pub product_id: u64,
    pub quantity: u64,
    /// The amount to move from buyer to owner; equals `quantity` times the
    /// product's price at validation time.
    pub total: u64,
}

/// What a finished operation asks the host to do beyond the in-place slot
/// mutations already applied to [`Accounts`].
#[derive(Debug)]
pub enum Outcome {
    /// Nothing further; mutations, if any, are in the slots.
    Done,
    /// Allocate a fresh slot at `address` (derived with disambiguator
    /// `bump`) and persist `data` there.
    Created { address: Vec<u8>, bump: u8, data: Vec<u8> },
    /// Perform the payment, then hand its outcome to [`finish_sell`].
    AwaitTransfer { sale: PendingSale },
}

/// Mathematical image of an [`Outcome`].
pub enum OutcomeView {
    Done,
    Created { address: Seq<u8>, bump: u8, data: Seq<u8> },
    AwaitTransfer { sale: PendingSale },
}

impl View for Outcome {
    type V = OutcomeView;

    open spec fn view(&self) -> OutcomeView {
        match self {
            Outcome::Done => OutcomeView::Done,
            Outcome::Created { address, bump, data } => OutcomeView::Created {
                address: address@,
                bump: *bump,
                data: data@,
            },
            Outcome::AwaitTransfer { sale } => OutcomeView::AwaitTransfer { sale: *sale },
        }
    }
}

/// The image of an operation's result.
pub open spec fn view_result(r: Result<Outcome, CakeError>) -> Result<OutcomeView, CakeError> {
    match r {
        Ok(o) => Ok(o@),
        Err(e) => Err(e),
    }
}

/// The shared prologue of every operation but initialize: decode the shop's
/// state and confirm the caller is its owner.
pub open spec fn spec_auth_shop(env: AccountsView) -> Result<CakeStateView, CakeError> {
    match spec_decode_state(env.shop_data) {
        None => Err(CakeError::SizeMismatch),
        Some(s) => if s.owner != env.caller {
            Err(CakeError::Unauthorized)
        } else {
            Ok(s)
        },
    }
}

/// Whether the slot's owner region already carries an identity: any nonzero
/// byte among the first 32 marks the slot as claimed.
pub open spec fn spec_owner_region_set(b: Seq<u8>) -> bool {
    exists|i: int| 0 <= i < 32 && b[i] != 0
}

/// Initialize: the one state-creating transition. Demands a vacant slot of
/// the exact state length and writes a fresh state owned by the caller with
/// both counters at zero.
pub open spec fn spec_initialize(env: AccountsView) -> (AccountsView, Result<
    OutcomeView,
    CakeError,
>) {
    if env.shop_data.len() != STATE_LEN {
        (env, Err(CakeError::SizeMismatch))
    } else if spec_owner_region_set(env.shop_data) {
        (env, Err(CakeError::AlreadyInitialized))
    } else {
        let s = CakeStateView { owner: env.caller, product_counter: 0, history_counter: 0 };
        (AccountsView { shop_data: s.enc(), ..env }, Ok(OutcomeView::Done))
    }
}

/// Add-product: assign the next product id, check the supplied address
/// against the derived one, create the record and advance the counter.
pub open spec fn spec_add_product(
    program_id: Seq<u8>,
    env: AccountsView,
    name: Seq<u8>,
    description: Seq<u8>,
    price: u64,
    stock: u64,
) -> (AccountsView, Result<OutcomeView, CakeError>) {
    match spec_auth_shop(env) {
        Err(e) => (env, Err(e)),
        Ok(s) => match spec_product_address(program_id, s.product_counter) {
            None => (env, Err(CakeError::DerivationExhausted)),
            Some((addr, bump)) => if env.product_address != addr {
                (env, Err(CakeError::InvalidAddress))
            } else if s.product_counter == u64::MAX {
                (env, Err(CakeError::ArithmeticOverflow))
            } else {
                let p = ProductView { id: s.product_counter, name, description, price, stock };
                let s2 = CakeStateView {
                    product_counter: (s.product_counter + 1) as u64,
                    ..s
                };
                (
                    AccountsView { shop_data: s2.enc(), ..env },
                    Ok(OutcomeView::Created { address: addr, bump, data: p.enc() }),
                )
            },
        },
    }
}

/// Add-stock: raise the addressed product's stock by `amount`, checked.
pub open spec fn spec_add_stock(
    program_id: Seq<u8>,
    env: AccountsView,
    product_id: u64,
    amount: u64,
) -> (AccountsView, Result<OutcomeView, CakeError>) {
    match spec_auth_shop(env) {
        Err(e) => (env, Err(e)),
        Ok(s) => match spec_product_address(program_id, product_id) {
            None => (env, Err(CakeError::DerivationExhausted)),
            Some((addr, bump)) => if env.product_address != addr {
                (env, Err(CakeError::InvalidAddress))
            } else {
                match spec_decode_product(env.product_data) {
                    None => (env, Err(CakeError::SizeMismatch)),
                    Some(p) => if p.stock + amount > u64::MAX {
                        (env, Err(CakeError::ArithmeticOverflow))
                    } else {
                        let p2 = ProductView { stock: (p.stock + amount) as u64, ..p };
                        (AccountsView { product_data: p2.enc(), ..env }, Ok(OutcomeView::Done))
                    },
                }
            },
        },
    }
}

/// Update-price: replace the addressed product's price.
pub open spec fn spec_update_price(
    program_id: Seq<u8>,
    env: AccountsView,
    product_id: u64,
    new_price: u64,
) -> (AccountsView, Result<OutcomeView, CakeError>) {
    match spec_auth_shop(env) {
        Err(e) => (env, Err(e)),
        Ok(s) => match spec_product_address(program_id, product_id) {
            None => (env, Err(CakeError::DerivationExhausted)),
            Some((addr, bump)) => if env.product_address != addr {
                (env, Err(CakeError::InvalidAddress))
            } else {
                match spec_decode_product(env.product_data) {
                    None => (env, Err(CakeError::SizeMismatch)),
                    Some(p) => {
                        let p2 = ProductView { price: new_price, ..p };
                        (AccountsView { product_data: p2.enc(), ..env }, Ok(OutcomeView::Done))
                    },
                }
            },
        },
    }
}

/// The sell operation's first half: validate stock and price, compute the
/// total with checked multiplication, and mutate nothing — payment comes
/// before any local state is touched.
pub open spec fn spec_begin_sell(
    program_id: Seq<u8>,
    env: AccountsView,
    product_id: u64,
    quantity: u64,
) -> (AccountsView, Result<OutcomeView, CakeError>) {
    match spec_auth_shop(env) {
        Err(e) => (env, Err(e)),
        Ok(s) => match spec_product_address(program_id, product_id) {
            None => (env, Err(CakeError::DerivationExhausted)),
            Some((addr, bump)) => if env.product_address != addr {
                (env, Err(CakeError::InvalidAddress))
            } else {
                match spec_decode_product(env.product_data) {
                    None => (env, Err(CakeError::SizeMismatch)),
                    Some(p) => if quantity > p.stock {
                        (env, Err(CakeError::InsufficientStock))
                    } else if quantity * p.price > u64::MAX {
                        (env, Err(CakeError::ArithmeticOverflow))
                    } else {
                        (
                            env,
                            Ok(
                                OutcomeView::AwaitTransfer {
                                    sale: PendingSale {
                                        product_id,
                                        quantity,
                                        total: (quantity * p.price) as u64,
                                    },
                                },
                            ),
                        )
                    },
                }
            },
        },
    }
}

/// The sell operation's second half, entered with the payment's outcome.
/// A failed payment changes nothing and surfaces `ExternalTransferFailed`;
/// a completed one decrements stock, creates the history record at the
/// address derived from the buyer, the product and the history counter, and
/// advances that counter.
pub open spec fn spec_finish_sell(
    program_id: Seq<u8>,
    env: AccountsView,
    sale: PendingSale,
    transfer_ok: bool,
    timestamp: i64,
) -> (AccountsView, Result<OutcomeView, CakeError>) {
    if !transfer_ok {
        (env, Err(CakeError::ExternalTransferFailed))
    } else {
        match spec_auth_shop(env) {
            Err(e) => (env, Err(e)),
            Ok(s) => match spec_product_address(program_id, sale.product_id) {
                None => (env, Err(CakeError::DerivationExhausted)),
                Some((addr, bump)) => if env.product_address != addr {
                    (env, Err(CakeError::InvalidAddress))
                } else {
                    match spec_decode_product(env.product_data) {
                        None => (env, Err(CakeError::SizeMismatch)),
                        Some(p) => if sale.quantity > p.stock {
                            (env, Err(CakeError::InsufficientStock))
                        } else if sale.quantity * p.price > u64::MAX {
                            (env, Err(CakeError::ArithmeticOverflow))
                        } else if sale.total != sale.quantity * p.price {
                            (env, Err(CakeError::InvalidPayload))
                        } else {
                            spec_finish_sell_write(program_id, env, sale, timestamp, s, p)
                        },
                    }
                },
            },
        }
    }
}

/// The write phase of a paid sale: history-address check, then the three
/// slot mutations.
pub open spec fn spec_finish_sell_write(
    program_id: Seq<u8>,
    env: AccountsView,
    sale: PendingSale,
    timestamp: i64,
    s: CakeStateView,
    p: ProductView,
) -> (AccountsView, Result<OutcomeView, CakeError>) {
    match spec_history_address(program_id, env.buyer, sale.product_id, s.history_counter) {
        None => (env, Err(CakeError::DerivationExhausted)),
        Some((haddr, hbump)) => if env.history_address != haddr {
            (env, Err(CakeError::InvalidAddress))
        } else if s.history_counter == u64::MAX {
            (env, Err(CakeError::ArithmeticOverflow))
        } else {
            let p2 = ProductView { stock: (p.stock - sale.quantity) as u64, ..p };
            let s2 = CakeStateView { history_counter: (s.history_counter + 1) as u64, ..s };
            let h = PurchaseHistoryView {
                product_id: sale.product_id,
                quantity: sale.quantity,
                total_price: sale.total,
                buyer: env.buyer,
                timestamp,
            };
            (
                AccountsView { shop_data: s2.enc(), product_data: p2.enc(), ..env },
                Ok(OutcomeView::Created { address: haddr, bump: hbump, data: h.enc() }),
            )
        },
    }
}

/// Migrate-history: administrative backfill of one history record, written
/// verbatim from the payload; bypasses the sell invariants but not
/// ownership, addressing or the counter.
pub open spec fn spec_migrate_history(
    program_id: Seq<u8>,
    env: AccountsView,
    product_id: u64,
    quantity: u64,
    total: u64,
    buyer: Seq<u8>,
    timestamp: i64,
) -> (AccountsView, Result<OutcomeView, CakeError>) {
    match spec_auth_shop(env) {
        Err(e) => (env, Err(e)),
        Ok(s) => match spec_history_address(program_id, buyer, product_id, s.history_counter) {
            None => (env, Err(CakeError::DerivationExhausted)),
            Some((addr, bump)) => if env.history_address != addr {
                (env, Err(CakeError::InvalidAddress))
            } else if s.history_counter == u64::MAX {
                (env, Err(CakeError::ArithmeticOverflow))
            } else {
                let s2 = CakeStateView { history_counter: (s.history_counter + 1) as u64, ..s };
                let h = PurchaseHistoryView {
                    product_id,
                    quantity,
                    total_price: total,
                    buyer,
                    timestamp,
                };
                (
                    AccountsView { shop_data: s2.enc(), ..env },
                    Ok(OutcomeView::Created { address: addr, bump, data: h.enc() }),
                )
            },
        },
    }
}

/// Close-shop: zero the state slot; the host reclaims the storage and
/// refunds its reserved balance to the owner.
pub open spec fn spec_close_shop(env: AccountsView) -> (AccountsView, Result<
    OutcomeView,
    CakeError,
>) {
    match spec_auth_shop(env) {
        Err(e) => (env, Err(e)),
        Ok(s) => (
            AccountsView { shop_data: spec_zeroed(STATE_LEN as nat), ..env },
            Ok(OutcomeView::Done),
        ),
    }
}

/// Close-product: zero the addressed product's slot; the host reclaims the
/// storage and refunds its reserved balance to the owner.
pub open spec fn spec_close_product(
    program_id: Seq<u8>,
    env: AccountsView,
    product_id: u64,
) -> (AccountsView, Result<OutcomeView, CakeError>) {
    match spec_auth_shop(env) {
        Err(e) => (env, Err(e)),
        Ok(s) => match spec_product_address(program_id, product_id) {
            None => (env, Err(CakeError::DerivationExhausted)),
            Some((addr, bump)) => if env.product_address != addr {
                (env, Err(CakeError::InvalidAddress))
            } else {
                match spec_decode_product(env.product_data) {
                    None => (env, Err(CakeError::SizeMismatch)),
                    Some(p) => (
                        AccountsView { product_data: spec_zeroed(PRODUCT_LEN as nat), ..env },
                        Ok(OutcomeView::Done),
                    ),
                }
            },
        },
    }
}

/// What one invocation does, for every instruction buffer and every slot
/// state: the new slot contents and the operation's result.
pub open spec fn spec_step(program_id: Seq<u8>, env: AccountsView, data: Seq<u8>) -> (
    AccountsView,
    Result<OutcomeView, CakeError>,
) {
    match spec_parse(data) {
        Err(e) => (env, Err(e)),
        Ok(iv) => match iv {
            InstructionView::Initialize => spec_initialize(env),
            InstructionView::AddProduct { name, description, price, stock } => spec_add_product(
                program_id,
                env,
                name,
                description,
                price,
                stock,
            ),
            InstructionView::AddStock { product_id, amount } => spec_add_stock(
                program_id,
                env,
                product_id,
                amount,
            ),
            InstructionView::UpdatePrice { product_id, new_price } => spec_update_price(
                program_id,
                env,
                product_id,
                new_price,
            ),
            InstructionView::Sell { product_id, quantity } => spec_begin_sell(
                program_id,
                env,
                product_id,
                quantity,
            ),
            InstructionView::MigrateHistory { product_id, quantity, total, buyer, timestamp } => {
                spec_migrate_history(
                    program_id,
                    env,
                    product_id,
                    quantity,
                    total,
                    buyer,
                    timestamp,
                )
            },
            InstructionView::CloseShop => spec_close_shop(env),
            InstructionView::CloseProduct { product_id } => spec_close_product(
                program_id,
                env,
                product_id,
            ),
        },
    }
}

/// Decode the shop state and confirm the caller is its owner.
fn auth_shop(env: &Accounts) -> (r: Result<CakeState, CakeError>)
    ensures
        match r {
            Ok(s) => spec_auth_shop(env@) == Ok::<CakeStateView, CakeError>(s@) && s.wf(),
            Err(e) => spec_auth_shop(env@) == Err::<CakeStateView, CakeError>(e),
        },
{
    let s = match CakeState::unpack_from_slice(env.shop_data.as_slice()) {
        Ok(s) => s,
        Err(e) => { return Err(e); },
    };
    if !bytes_eq(s.owner.as_slice(), env.caller.as_slice()) {
        return Err(CakeError::Unauthorized);
    }
    Ok(s)
}

/// Whether any of the slot's first 32 bytes is nonzero.
fn owner_region_set(b: &Vec<u8>) -> (r: bool)
    requires
        b@.len() >= 32,
    ensures
        r <==> spec_owner_region_set(b@),
{
    let mut i: usize = 0;
    while i < 32
        invariant
            i <= 32,
            b@.len() >= 32,
            forall|j: int| 0 <= j < i ==> b@[j] == 0,
        decreases 32 - i,
    {
        if b[i] != 0 {
            proof {
                assert(0 <= i < 32 && b@[i as int] != 0);
            }
            return true;
        }
        i += 1;
    }
    false
}

fn do_initialize(env: &mut Accounts) -> (r: Result<Outcome, CakeError>)
    requires
        old(env).wf(),
    ensures
        final(env)@ == spec_initialize(old(env)@).0,
        view_result(r) == spec_initialize(old(env)@).1,
        final(env).wf(),
{
    if env.shop_data.len() != STATE_LEN {
        return Err(CakeError::SizeMismatch);
    }
    if owner_region_set(&env.shop_data) {
        return Err(CakeError::AlreadyInitialized);
    }
    let state = CakeState {
        owner: copy_bytes(&env.caller),
        product_counter: 0,
        history_counter: 0,
    };
    state.pack_into_slice(&mut env.shop_data);
    proof {
        assert(env@ =~= (AccountsView { shop_data: state@.enc(), ..old(env)@ }));
    }
    Ok(Outcome::Done)
}

fn do_add_product(
    program_id: &[u8],
    env: &mut Accounts,
    name: Vec<u8>,
    description: Vec<u8>,
    price: u64,
    stock: u64,
) -> (r: Result<Outcome, CakeError>)
    requires
        program_id@.len() == 32,
        old(env).wf(),
        name@.len() == 32,
        description@.len() == 128,
    ensures
        final(env)@ == spec_add_product(
            program_id@,
            old(env)@,
            name@,
            description@,
            price,
            stock,
        ).0,
        view_result(r) == spec_add_product(
            program_id@,
            old(env)@,
            name@,
            description@,
            price,
            stock,
        ).1,
        final(env).wf(),
{
    let s = match auth_shop(env) {
        Ok(s) => s,
        Err(e) => { return Err(e); },
    };
    let derived = match derive_product_address(program_id, s.product_counter) {
        Some(d) => d,
        None => { return Err(CakeError::DerivationExhausted); },
    };
    if !bytes_eq(env.product_address.as_slice(), derived.0.as_slice()) {
        return Err(CakeError::InvalidAddress);
    }
    if s.product_counter == u64::MAX {
        return Err(CakeError::ArithmeticOverflow);
    }
    let product = Product { id: s.product_counter, name, description, price, stock };
    let mut data = zeroed(PRODUCT_LEN);
    product.pack_into_slice(&mut data);
    let state = CakeState {
        owner: s.owner,
        product_counter: s.product_counter + 1,
        history_counter: s.history_counter,
    };
    state.pack_into_slice(&mut env.shop_data);
    proof {
        assert(env@ =~= (AccountsView { shop_data: state@.enc(), ..old(env)@ }));
    }
    Ok(Outcome::Created { address: derived.0, bump: derived.1, data })
}

fn do_add_stock(program_id: &[u8], env: &mut Accounts, product_id: u64, amount: u64) -> (r: Result<
    Outcome,
    CakeError,
>)
    requires
        program_id@.len() == 32,
        old(env).wf(),
    ensures
        final(env)@ == spec_add_stock(program_id@, old(env)@, product_id, amount).0,
        view_result(r) == spec_add_stock(program_id@, old(env)@, product_id, amount).1,
        final(env).wf(),
{
    if let Err(e) = auth_shop(env) {
        return Err(e);
    }
    let derived = match derive_product_address(program_id, product_id) {
        Some(d) => d,
        None => { return Err(CakeError::DerivationExhausted); },
    };
    if !bytes_eq(env.product_address.as_slice(), derived.0.as_slice()) {
        return Err(CakeError::InvalidAddress);
    }
    let mut product = match Product::unpack_from_slice(env.product_data.as_slice()) {
        Ok(p) => p,
        Err(e) => { return Err(e); },
    };
    let new_stock = match product.stock.checked_add(amount) {
        Some(v) => v,
        None => { return Err(CakeError::ArithmeticOverflow); },
    };
    product.stock = new_stock;
    product.pack_into_slice(&mut env.product_data);
    proof {
        assert(env@ =~= (AccountsView { product_data: product@.enc(), ..old(env)@ }));
    }
    Ok(Outcome::Done)
}

fn do_update_price(program_id: &[u8], env: &mut Accounts, product_id: u64, new_price: u64) -> (r:
    Result<Outcome, CakeError>)
    requires
        program_id@.len() == 32,
        old(env).wf(),
    ensures
        final(env)@ == spec_update_price(program_id@, old(env)@, product_id, new_price).0,
        view_result(r) == spec_update_price(program_id@, old(env)@, product_id, new_price).1,
        final(env).wf(),
{
    if let Err(e) = auth_shop(env) {
        return Err(e);
    }
    let derived = match derive_product_address(program_id, product_id) {
        Some(d) => d,
        None => { return Err(CakeError::DerivationExhausted); },
    };
    if !bytes_eq(env.product_address.as_slice(), derived.0.as_slice()) {
        return Err(CakeError::InvalidAddress);
    }
    let mut product = match Product::unpack_from_slice(env.product_data.as_slice()) {
        Ok(p) => p,
        Err(e) => { return Err(e); },
    };
    product.price = new_price;
    product.pack_into_slice(&mut env.product_data);
    proof {
        assert(env@ =~= (AccountsView { product_data: product@.enc(), ..old(env)@ }));
    }
    Ok(Outcome::Done)
}

fn do_begin_sell(program_id: &[u8], env: &mut Accounts, product_id: u64, quantity: u64) -> (r:
    Result<Outcome, CakeError>)
    requires
        program_id@.len() == 32,
        old(env).wf(),
    ensures
        final(env)@ == spec_begin_sell(program_id@, old(env)@, product_id, quantity).0,
        view_result(r) == spec_begin_sell(program_id@, old(env)@, product_id, quantity).1,
        final(env).wf(),
{
    if let Err(e) = auth_shop(env) {
        return Err(e);
    }
    let derived = match derive_product_address(program_id, product_id) {
        Some(d) => d,
        None => { return Err(CakeError::DerivationExhausted); },
    };
    if !bytes_eq(env.product_address.as_slice(), derived.0.as_slice()) {
        return Err(CakeError::InvalidAddress);
    }
    let product = match Product::unpack_from_slice(env.product_data.as_slice()) {
        Ok(p) => p,
        Err(e) => { return Err(e); },
    };
    if quantity > product.stock {
        return Err(CakeError::InsufficientStock);
    }
    let total = match quantity.checked_mul(product.price) {
        Some(v) => v,
        None => { return Err(CakeError::ArithmeticOverflow); },
    };
    Ok(Outcome::AwaitTransfer { sale: PendingSale { product_id, quantity, total } })
}

fn do_migrate_history(
    program_id: &[u8],
    env: &mut Accounts,
    product_id: u64,
    quantity: u64,
    total: u64,
    buyer: Vec<u8>,
    timestamp: i64,
) -> (r: Result<Outcome, CakeError>)
    requires
        program_id@.len() == 32,
        old(env).wf(),
        buyer@.len() == 32,
    ensures
        final(env)@ == spec_migrate_history(
            program_id@,
            old(env)@,
            product_id,
            quantity,
            total,
            buyer@,
            timestamp,
        ).0,
        view_result(r) == spec_migrate_history(
            program_id@,
            old(env)@,
            product_id,
            quantity,
            total,
            buyer@,
            timestamp,
        ).1,
        final(env).wf(),
{
    let s = match auth_shop(env) {
        Ok(s) => s,
        Err(e) => { return Err(e); },
    };
    let derived = match derive_history_address(
        program_id,
        buyer.as_slice(),
        product_id,
        s.history_counter,
    ) {
        Some(d) => d,
        None => { return Err(CakeError::DerivationExhausted); },
    };
    if !bytes_eq(env.history_address.as_slice(), derived.0.as_slice()) {
        return Err(CakeError::InvalidAddress);
    }
    if s.history_counter == u64::MAX {
        return Err(CakeError::ArithmeticOverflow);
    }
    let entry = PurchaseHistory { product_id, quantity, total_price: total, buyer, timestamp };
    let mut data = zeroed(HISTORY_LEN);
    entry.pack_into_slice(&mut data);
    let state = CakeState {
        owner: s.owner,
        product_counter: s.product_counter,
        history_counter: s.history_counter + 1,
    };
    state.pack_into_slice(&mut env.shop_data);
    proof {
        assert(env@ =~= (AccountsView { shop_data: state@.enc(), ..old(env)@ }));
    }
    Ok(Outcome::Created { address: derived.0, bump: derived.1, data })
}

fn do_close_shop(env: &mut Accounts) -> (r: Result<Outcome, CakeError>)
    requires
        old(env).wf(),
    ensures
        final(env)@ == spec_close_shop(old(env)@).0,
        view_result(r) == spec_close_shop(old(env)@).1,
        final(env).wf(),
{
    if let Err(e) = auth_shop(env) {
        return Err(e);
    }
    env.shop_data = zeroed(STATE_LEN);
    proof {
        assert(env@ =~= (AccountsView { shop_data: spec_zeroed(STATE_LEN as nat), ..old(env)@ }));
    }
    Ok(Outcome::Done)
}

fn do_close_product(program_id: &[u8], env: &mut Accounts, product_id: u64) -> (r: Result<
    Outcome,
    CakeError,
>)
    requires
        program_id@.len() == 32,
        old(env).wf(),
    ensures
        final(env)@ == spec_close_product(program_id@, old(env)@, product_id).0,
        view_result(r) == spec_close_product(program_id@, old(env)@, product_id).1,
        final(env).wf(),
{
    if let Err(e) = auth_shop(env) {
        return Err(e);
    }
    let derived = match derive_product_address(program_id, product_id) {
        Some(d) => d,
        None => { return Err(CakeError::DerivationExhausted); },
    };
    if !bytes_eq(env.product_address.as_slice(), derived.0.as_slice()) {
        return Err(CakeError::InvalidAddress);
    }
    if let Err(e) = Product::unpack_from_slice(env.product_data.as_slice()) {
        return Err(e);
    }
    env.product_data = zeroed(PRODUCT_LEN);
    proof {
        assert(env@ =~= (AccountsView {
            product_data: spec_zeroed(PRODUCT_LEN as nat),
            ..old(env)@
        }));
    }
    Ok(Outcome::Done)
}

/// One invocation of the dispatcher: decode, authenticate, check addresses,
/// apply. Errors leave every slot unchanged; the sell opcode mutates
/// nothing here and instead asks for its payment.
pub fn process_instruction(program_id: &[u8], env: &mut Accounts, instruction_data: &[u8]) -> (r:
    Result<Outcome, CakeError>)
    requires
        program_id@.len() == 32,
        old(env).wf(),
    ensures
        final(env)@ == spec_step(program_id@, old(env)@, instruction_data@).0,
        view_result(r) == spec_step(program_id@, old(env)@, instruction_data@).1,
        final(env).wf(),
{
    let inst = match parse(instruction_data) {
        Ok(inst) => inst,
        Err(e) => { return Err(e); },
    };
    match inst {
        Instruction::Initialize => do_initialize(env),
        Instruction::AddProduct { name, description, price, stock } => do_add_product(
            program_id,
            env,
            name,
            description,
            price,
            stock,
        ),
        Instruction::AddStock { product_id, amount } => do_add_stock(
            program_id,
            env,
            product_id,
            amount,
        ),
        Instruction::UpdatePrice { product_id, new_price } => do_update_price(
            program_id,
            env,
            product_id,
            new_price,
        ),
        Instruction::Sell { product_id, quantity } => do_begin_sell(
            program_id,
            env,
            product_id,
            quantity,
        ),
        Instruction::MigrateHistory { product_id, quantity, total, buyer, timestamp } => {
            do_migrate_history(program_id, env, product_id, quantity, total, buyer, timestamp)
        },
        Instruction::CloseShop => do_close_shop(env),
        Instruction::CloseProduct { product_id } => do_close_product(program_id, env, product_id),
    }
}

/// Complete a sale begun by the sell opcode, given the payment's outcome
/// and the time oracle's reading. A failed payment mutates nothing; a
/// completed one applies the stock decrement, the history record and the
/// counter increment together.
pub fn finish_sell(
    program_id: &[u8],
    env: &mut Accounts,
    sale: &PendingSale,
    transfer_ok: bool,
    timestamp: i64,
) -> (r: Result<Outcome, CakeError>)
    requires
        program_id@.len() == 32,
        old(env).wf(),
    ensures
        final(env)@ == spec_finish_sell(program_id@, old(env)@, *sale, transfer_ok, timestamp).0,
        view_result(r) == spec_finish_sell(
            program_id@,
            old(env)@,
            *sale,
            transfer_ok,
            timestamp,
        ).1,
        final(env).wf(),
{
    if !transfer_ok {
        return Err(CakeError::ExternalTransferFailed);
    }
    let s = match auth_shop(env) {
        Ok(s) => s,
        Err(e) => { return Err(e); },
    };
    let derived = match derive_product_address(program_id, sale.product_id) {
        Some(d) => d,
        None => { return Err(CakeError::DerivationExhausted); },
    };
    if !bytes_eq(env.product_address.as_slice(), derived.0.as_slice()) {
        return Err(CakeError::InvalidAddress);
    }
    let mut product = match Product::unpack_from_slice(env.product_data.as_slice()) {
        Ok(p) => p,
        Err(e) => { return Err(e); },
    };
    if sale.quantity > product.stock {
        return Err(CakeError::InsufficientStock);
    }
    let total = match sale.quantity.checked_mul(product.price) {
        Some(v) => v,
        None => { return Err(CakeError::ArithmeticOverflow); },
    };
    if sale.total != total {
        return Err(CakeError::InvalidPayload);
    }
    let hist_derived = match derive_history_address(
        program_id,
        env.buyer.as_slice(),
        sale.product_id,
        s.history_counter,
    ) {
        Some(d) => d,
        None => { return Err(CakeError::DerivationExhausted); },
    };
    if !bytes_eq(env.history_address.as_slice(), hist_derived.0.as_slice()) {
        return Err(CakeError::InvalidAddress);
    }
    if s.history_counter == u64::MAX {
        return Err(CakeError::ArithmeticOverflow);
    }
    product.stock = product.stock - sale.quantity;
    product.pack_into_slice(&mut env.product_data);
    let entry = PurchaseHistory {
        product_id: sale.product_id,
        quantity: sale.quantity,
        total_price: sale.total,
        buyer: copy_bytes(&env.buyer),
        timestamp,
    };
    let mut data = zeroed(HISTORY_LEN);
    entry.pack_into_slice(&mut data);
    let state = CakeState {
        owner: s.owner,
        product_counter: s.product_counter,
        history_counter: s.history_counter + 1,
    };
    state.pack_into_slice(&mut env.shop_data);
    proof {
        assert(env@ =~= (AccountsView {
            shop_data: state@.enc(),
            product_data: product@.enc(),
            ..old(env)@
        }));
    }
    Ok(Outcome::Created { address: hist_derived.0, bump: hist_derived.1, data })
}

} // verus!
