//! What holds of a token's record over its whole life: from its creation
//! through any number of trading updates and graduation attempts.

use crate::context::CreateTokenView;
use crate::error::TokenFactoryError;
use crate::instructions::{
    create_rejection, created_record, creation_in_range, graduated_record, graduation_rejection,
    updated_record,
};
use crate::state::{TokenDataView, GRADUATION_MARKET_CAP};
use vstd::prelude::*;

verus! {

/// An instruction that reaches a record after its creation, with its
/// arguments and the time at which it ran.
pub enum Operation {
    UpdateTradingData {
        current_price: u64,
        market_cap: u64,
        total_volume: u64,
        holder_count: u32,
        transactions_count: u64,
        unix_timestamp: i64,
    },
    GraduateToken { raydium_pool_id: Seq<u8>, graduation_fee: u64, unix_timestamp: i64 },
}

/// The record after one instruction. A refused graduation leaves it as it
/// was.
pub open spec fn apply(record: TokenDataView, operation: Operation) -> TokenDataView {
    match operation {
        Operation::UpdateTradingData {
            current_price,
            market_cap,
            total_volume,
            holder_count,
            transactions_count,
            unix_timestamp,
        } => updated_record(
            record,
            current_price,
            market_cap,
            total_volume,
            holder_count,
            transactions_count,
            unix_timestamp,
        ),
        Operation::GraduateToken { raydium_pool_id, graduation_fee, unix_timestamp } => {
            if graduation_rejection(record) is None {
                graduated_record(record, raydium_pool_id, graduation_fee, unix_timestamp)
            } else {
                record
            }
        },
    }
}

/// The record after a history of instructions, the first one first.
pub open spec fn replay(record: TokenDataView, history: Seq<Operation>) -> TokenDataView
    decreases history.len(),
{
    if history.len() == 0 {
        record
    } else {
        apply(replay(record, history.drop_last()), history.last())
    }
}

/// What no instruction ever changes once a token exists: who it belongs to,
/// how it is described, its supply and its split, and how it was created.
pub open spec fn same_token(before: TokenDataView, after: TokenDataView) -> bool {
    &&& after.mint == before.mint
    &&& after.creator == before.creator
    &&& after.admin == before.admin
    &&& after.name == before.name
    &&& after.symbol == before.symbol
    &&& after.uri == before.uri
    &&& after.total_supply == before.total_supply
    &&& after.bonding_curve_supply == before.bonding_curve_supply
    &&& after.burning_reserve == before.burning_reserve
    &&& after.created_at == before.created_at
    &&& after.is_active == before.is_active
    &&& after.initial_purchase_amount == before.initial_purchase_amount
    &&& after.initial_tokens_purchased == before.initial_tokens_purchased
}

/// Neither flag has been taken back, and what a graduation recorded is
/// still there.
pub open spec fn no_step_back(before: TokenDataView, after: TokenDataView) -> bool {
    &&& before.graduation_eligible ==> after.graduation_eligible
    &&& before.graduated ==> {
        &&& after.graduated
        &&& after.graduation_date == before.graduation_date
        &&& after.raydium_pool_id == before.raydium_pool_id
        &&& after.graduation_fee == before.graduation_fee
    }
}

/// Every accepted creation writes a well-formed record: active, with texts
/// that fit, with the fixed supply split into four fifths for the bonding
/// curve and one fifth for burning, neither eligible nor graduated.
pub proof fn lemma_created_record_well_formed(
    accounts: CreateTokenView,
    name: Seq<char>,
    symbol: Seq<char>,
    uri: Seq<char>,
    initial_purchase_amount: Option<u64>,
    unix_timestamp: i64,
)
    requires
        create_rejection(name, symbol, uri, initial_purchase_amount) is None,
        creation_in_range(name, symbol, uri, initial_purchase_amount),
    ensures
        ({
            let record = created_record(
                accounts,
                name,
                symbol,
                uri,
                initial_purchase_amount,
                unix_timestamp,
            );
            &&& record.well_formed()
            &&& record.total_supply == record.bonding_curve_supply + record.burning_reserve
            &&& record.bonding_curve_supply == 4 * record.burning_reserve
            &&& !record.graduation_eligible
            &&& !record.graduated
        }),
{
}

/// Every instruction keeps a well-formed record well-formed.
pub proof fn lemma_apply_keeps_well_formed(record: TokenDataView, operation: Operation)
    requires
        record.well_formed(),
    ensures
        apply(record, operation).well_formed(),
{
}

/// No instruction changes what a token is, and none takes back eligibility
/// or graduation.
pub proof fn lemma_apply_keeps_token(record: TokenDataView, operation: Operation)
    ensures
        same_token(record, apply(record, operation)),
        no_step_back(record, apply(record, operation)),
{
}

/// A token becomes eligible in one way only: by a trading update that
/// reports a market capitalisation at or above the threshold. Every such
/// update makes it eligible.
pub proof fn lemma_eligible_by_market_cap(record: TokenDataView, operation: Operation)
    ensures
        !record.graduation_eligible && apply(record, operation).graduation_eligible ==> (
        operation matches Operation::UpdateTradingData { market_cap, .. } && market_cap
            >= GRADUATION_MARKET_CAP),
        operation matches Operation::UpdateTradingData { market_cap, .. } && market_cap
            >= GRADUATION_MARKET_CAP ==> apply(record, operation).graduation_eligible,
{
}

/// A token graduates in one way only: by a graduation asked for while it is
/// eligible and has not graduated. Every such graduation is carried out.
pub proof fn lemma_graduated_by_graduation(record: TokenDataView, operation: Operation)
    ensures
        !record.graduated && apply(record, operation).graduated ==> (operation is GraduateToken
            && record.graduation_eligible),
        operation is GraduateToken && graduation_rejection(record) is None ==> apply(
            record,
            operation,
        ).graduated,
{
}

/// A well-formed record stays well-formed through any history.
pub proof fn lemma_replay_keeps_well_formed(record: TokenDataView, history: Seq<Operation>)
    requires
        record.well_formed(),
    ensures
        replay(record, history).well_formed(),
    decreases history.len(),
{
    if history.len() > 0 {
        lemma_replay_keeps_well_formed(record, history.drop_last());
        lemma_apply_keeps_well_formed(replay(record, history.drop_last()), history.last());
    }
}

/// Through any history the token stays the same token, with the supply
/// fixed at its creation.
pub proof fn lemma_replay_keeps_token(record: TokenDataView, history: Seq<Operation>)
    ensures
        same_token(record, replay(record, history)),
    decreases history.len(),
{
    if history.len() > 0 {
        lemma_replay_keeps_token(record, history.drop_last());
        lemma_apply_keeps_token(replay(record, history.drop_last()), history.last());
    }
}

/// Eligibility and graduation only ever go from false to true: what holds
/// after the first `earlier` instructions of a history still holds after
/// the first `later` ones.
pub proof fn lemma_replay_never_steps_back(
    record: TokenDataView,
    history: Seq<Operation>,
    earlier: int,
    later: int,
)
    requires
        0 <= earlier <= later <= history.len(),
    ensures
        no_step_back(
            replay(record, history.take(earlier)),
            replay(record, history.take(later)),
        ),
    decreases later - earlier,
{
    if earlier < later {
        let before = history.take(later - 1);
        lemma_replay_never_steps_back(record, history, earlier, later - 1);
        assert(history.take(later).drop_last() =~= before);
        lemma_apply_keeps_token(replay(record, before), history.take(later).last());
    }
}

/// A token graduates once. After a graduation, whatever instructions follow,
/// every further graduation is refused as a repetition, and the time, the
/// pool and the fee of the first one stay on record.
pub proof fn lemma_graduates_once(
    record: TokenDataView,
    raydium_pool_id: Seq<u8>,
    graduation_fee: u64,
    unix_timestamp: i64,
    history: Seq<Operation>,
)
    requires
        graduation_rejection(record) is None,
    ensures
        ({
            let later = replay(
                graduated_record(record, raydium_pool_id, graduation_fee, unix_timestamp),
                history,
            );
            &&& graduation_rejection(later) == Some(TokenFactoryError::AlreadyGraduated)
            &&& later.graduation_date == Some(unix_timestamp)
            &&& later.raydium_pool_id == Some(raydium_pool_id)
            &&& later.graduation_fee == Some(graduation_fee)
        }),
{
    let graduated = graduated_record(record, raydium_pool_id, graduation_fee, unix_timestamp);
    lemma_replay_never_steps_back(graduated, history, 0, history.len() as int);
    assert(history.take(0) =~= Seq::<Operation>::empty());
    assert(history.take(history.len() as int) =~= history);
}

} // verus!
