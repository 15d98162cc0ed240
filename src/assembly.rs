//! Assembly of the five-step message that funds, runs and refunds a remote call.
use vstd::prelude::*;

use crate::instruction::{
    AssetModel, Instruction, InstructionModel, Junction, JunctionModel, LocationModel, MultiAsset,
    MultiAssetFilter, MultiLocation, NetworkId, NetworkModel, OriginKind, WeightLimit, Xcm, AssetFilterModel,
};
use crate::MAX_XCM_TRANSACT_WEIGHT;

verus! {

/// Why a message could not be assembled.
#[derive(Clone, Copy, Debug, PartialEq, Eq, Structural)]
pub enum XcmBuildError {
    /// The weight estimator could not cost the assembled instructions.
    WeightEstimationFailed,
}

/// The transact instruction that dispatches `call` with native origin,
/// bounded by the fixed weight ceiling.
pub open spec fn transact_model(call: Seq<u8>) -> InstructionModel {
    InstructionModel::Transact {
        origin_type: OriginKind::Native,
        require_weight_at_most: MAX_XCM_TRANSACT_WEIGHT,
        call,
    }
}

/// The local account location that a 32-byte account id names.
pub open spec fn beneficiary_model(id: [u8; 32]) -> LocationModel {
    LocationModel {
        parents: 0,
        interior: seq![JunctionModel::AccountId32 { network: NetworkModel::Any, id }],
    }
}

/// Withdraw the funding asset, buy execution with it up to `limit`, run the
/// transact instruction, refund the unused weight and deposit everything that
/// is left to the account `id`.
pub open spec fn message_model(
    asset: AssetModel,
    transact: InstructionModel,
    id: [u8; 32],
    limit: WeightLimit,
) -> Seq<InstructionModel> {
    seq![
        InstructionModel::WithdrawAsset(seq![asset]),
        InstructionModel::BuyExecution { fees: asset, weight_limit: limit },
        transact,
        InstructionModel::RefundSurplus,
        InstructionModel::DepositAsset {
            assets: AssetFilterModel::WildAll,
            max_assets: 1,
            beneficiary: beneficiary_model(id),
        },
    ]
}

/// The outcome of assembly once the estimator has answered: the message that
/// buys exactly the estimated weight, or the estimator's failure.
pub open spec fn assembled_model(
    asset: AssetModel,
    transact: InstructionModel,
    id: [u8; 32],
    estimate: Result<u64, ()>,
) -> Result<Seq<InstructionModel>, XcmBuildError> {
    match estimate {
        Ok(w) => Ok(message_model(asset, transact, id, WeightLimit::Limited(w))),
        Err(_) => Err(XcmBuildError::WeightEstimationFailed),
    }
}

/// The view of an assembly result.
pub open spec fn result_view(r: Result<Xcm, XcmBuildError>) -> Result<Seq<InstructionModel>, XcmBuildError> {
    match r {
        Ok(m) => Ok(m@),
        Err(e) => Err(e),
    }
}

/// Wraps an encoded call in a transact instruction with native origin and the
/// fixed weight ceiling.
pub fn transact_instruction(call: Vec<u8>) -> (r: Instruction)
    ensures
        r@ == transact_model(call@),
{
    Instruction::Transact {
        origin_type: OriginKind::Native,
        require_weight_at_most: MAX_XCM_TRANSACT_WEIGHT,
        call,
    }
}

/// The location of the local account `id`.
pub fn beneficiary_location(id: [u8; 32]) -> (r: MultiLocation)
    ensures
        r@ == beneficiary_model(id),
{
    let mut interior: Vec<Junction> = Vec::new();
    interior.push(Junction::AccountId32 { network: NetworkId::Any, id });
    let r = MultiLocation { parents: 0, interior };
    assert(r@.interior =~= seq![JunctionModel::AccountId32 { network: NetworkModel::Any, id }]);
    r
}

/// The five instructions in their fixed order, buying execution up to `limit`.
pub fn instruction_set_with_limit(
    asset: MultiAsset,
    transact_instruction: Instruction,
    beneficiary: [u8; 32],
    limit: WeightLimit,
) -> (r: Xcm)
    ensures
        r@ == message_model(asset@, transact_instruction@, beneficiary, limit),
{
    let mut withdrawn: Vec<MultiAsset> = Vec::new();
    withdrawn.push(asset.duplicate());
    let withdraw = Instruction::WithdrawAsset(withdrawn);
    let buy = Instruction::BuyExecution { fees: asset, weight_limit: limit };
    let deposit = Instruction::DepositAsset {
        assets: MultiAssetFilter::WildAll,
        max_assets: 1,
        beneficiary: beneficiary_location(beneficiary),
    };
    let mut instructions: Vec<Instruction> = Vec::new();
    instructions.push(withdraw);
    instructions.push(buy);
    instructions.push(transact_instruction);
    instructions.push(Instruction::RefundSurplus);
    instructions.push(deposit);
    let r = Xcm(instructions);
    assert(r@[0] == InstructionModel::WithdrawAsset(seq![asset@]) ) by {
        assert(withdrawn@.map_values(|a: MultiAsset| a@) =~= seq![asset@]);
    }
    assert(r@ =~= message_model(asset@, transact_instruction@, beneficiary, limit));
    r
}

/// The message that the weight estimator is asked to cost: the final
/// instructions, with an unlimited purchase in place of the measured one.
pub fn provisional_instruction_set(
    asset: &MultiAsset,
    transact_instruction: &Instruction,
    beneficiary: [u8; 32],
) -> (r: Xcm)
    ensures
        r@ == message_model(asset@, transact_instruction@, beneficiary, WeightLimit::Unlimited),
{
    instruction_set_with_limit(
        asset.duplicate(),
        transact_instruction.duplicate(),
        beneficiary,
        WeightLimit::Unlimited,
    )
}

/// Completes assembly with the estimator's answer for the provisional
/// message: on a weight, the message that buys exactly that weight; on a
/// failure, `WeightEstimationFailed` and no message.
pub fn finish_instruction_set(
    asset: MultiAsset,
    transact_instruction: Instruction,
    beneficiary: [u8; 32],
    estimate: Result<u64, ()>,
) -> (r: Result<Xcm, XcmBuildError>)
    ensures
        result_view(r) == assembled_model(asset@, transact_instruction@, beneficiary, estimate),
{
    match estimate {
        Ok(w) => Ok(
            instruction_set_with_limit(asset, transact_instruction, beneficiary, WeightLimit::Limited(w)),
        ),
        Err(_) => Err(XcmBuildError::WeightEstimationFailed),
    }
}

} // verus!
