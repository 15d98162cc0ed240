//! Properties that every assembled message has.
use vstd::prelude::*;

use crate::assembly::{assembled_model, beneficiary_model, transact_model};
use crate::instruction::{
    kind_of, AssetFilterModel, Instruction, InstructionKind, InstructionModel, MultiAsset,
    OriginKind, WeightLimit,
};
use crate::MAX_XCM_TRANSACT_WEIGHT;

verus! {

/// The instruction kinds of a message, in order.
pub open spec fn kinds(m: Seq<InstructionModel>) -> Seq<InstructionKind> {
    m.map_values(|i: InstructionModel| kind_of(i))
}

/// Every assembled message runs withdraw, buy-execution, transact,
/// refund-surplus and deposit, in that order.
pub proof fn lemma_instruction_order(
    asset: MultiAsset,
    transact_instruction: Instruction,
    beneficiary: [u8; 32],
    estimate: Result<u64, ()>,
)
    requires
        kind_of(transact_instruction@) == InstructionKind::Transact,
    ensures
        assembled_model(asset@, transact_instruction@, beneficiary, estimate) matches Ok(m)
            ==> kinds(m) == seq![
            InstructionKind::WithdrawAsset,
            InstructionKind::BuyExecution,
            InstructionKind::Transact,
            InstructionKind::RefundSurplus,
            InstructionKind::DepositAsset,
        ],
{
    if let Ok(m) = assembled_model(asset@, transact_instruction@, beneficiary, estimate) {
        assert(kinds(m) =~= seq![
            InstructionKind::WithdrawAsset,
            InstructionKind::BuyExecution,
            InstructionKind::Transact,
            InstructionKind::RefundSurplus,
            InstructionKind::DepositAsset,
        ]);
    }
}

/// The transact instruction declares the fixed weight ceiling and native
/// origin whatever call it carries, and keeps both in the assembled message.
pub proof fn lemma_transact_ceiling_is_fixed(
    asset: MultiAsset,
    call: Vec<u8>,
    beneficiary: [u8; 32],
    estimate: Result<u64, ()>,
)
    ensures
        transact_model(call@) matches InstructionModel::Transact {
            origin_type,
            require_weight_at_most,
            ..
        } ==> origin_type == OriginKind::Native
            && require_weight_at_most == MAX_XCM_TRANSACT_WEIGHT,
        transact_model(call@) is Transact,
        assembled_model(asset@, transact_model(call@), beneficiary, estimate) matches Ok(m)
            ==> m[2] == transact_model(call@),
{
}

/// The assembled message buys exactly the weight that the estimator returned.
pub proof fn lemma_purchase_is_estimate(
    asset: MultiAsset,
    transact_instruction: Instruction,
    beneficiary: [u8; 32],
    weight: u64,
)
    ensures
        assembled_model(asset@, transact_instruction@, beneficiary, Ok(weight)) matches Ok(m)
            && m[1] == (InstructionModel::BuyExecution {
            fees: asset@,
            weight_limit: WeightLimit::Limited(weight),
        }),
{
}

/// The deposit takes every remaining asset, never a listed part of them.
pub proof fn lemma_deposit_takes_all(
    asset: MultiAsset,
    transact_instruction: Instruction,
    beneficiary: [u8; 32],
    estimate: Result<u64, ()>,
)
    ensures
        assembled_model(asset@, transact_instruction@, beneficiary, estimate) matches Ok(m)
            ==> m[4] matches InstructionModel::DepositAsset { assets, .. }
            && assets == AssetFilterModel::WildAll,
{
}

/// The refund beneficiary is the converted account itself, addressed on the
/// local chain: no parents, a single 32-byte account junction.
pub proof fn lemma_refund_to_converted_account(
    asset: MultiAsset,
    transact_instruction: Instruction,
    beneficiary: [u8; 32],
    estimate: Result<u64, ()>,
)
    ensures
        assembled_model(asset@, transact_instruction@, beneficiary, estimate) matches Ok(m)
            ==> m[4] matches InstructionModel::DepositAsset { beneficiary: b, .. }
            && b == beneficiary_model(beneficiary) && b.parents == 0,
{
}

/// Assembling from equal inputs gives equal results.
pub proof fn lemma_assembly_is_deterministic(
    asset1: MultiAsset,
    asset2: MultiAsset,
    transact1: Instruction,
    transact2: Instruction,
    beneficiary: [u8; 32],
    estimate: Result<u64, ()>,
)
    requires
        asset1@ == asset2@,
        transact1@ == transact2@,
    ensures
        assembled_model(asset1@, transact1@, beneficiary, estimate) == assembled_model(
            asset2@,
            transact2@,
            beneficiary,
            estimate,
        ),
{
}

} // verus!
