//! The message generator and the capabilities it is assembled from: a call
//! encoder, an account converter and a weight estimator.
use vstd::prelude::*;

use core::marker::PhantomData;

use crate::assembly::{
    assembled_model, finish_instruction_set, message_model, provisional_instruction_set,
    result_view, transact_instruction, transact_model, XcmBuildError,
};
use crate::instruction::{Instruction, InstructionModel, MultiAsset, WeightLimit, Xcm};
use crate::MAX_XCM_TRANSACT_WEIGHT;

verus! {

/// Identifies a parachain.
#[derive(Clone, Copy, Debug, PartialEq, Eq, Structural)]
pub struct ParaId(pub u32);

/// Encodes the automation chain's call that schedules a cross-chain task.
/// The encoding depends on the arguments alone.
pub trait CallEncoder {
    /// The encoding of the scheduling call for these arguments.
    spec fn encoded_schedule_xcmp(
        provided_id: Vec<u8>,
        execution_times: Vec<u64>,
        para_id: ParaId,
        returnable_call: Vec<u8>,
        weight_at_most: u64,
    ) -> Vec<u8>;

    /// The encoded call that schedules `returnable_call` for `para_id` at each
    /// of `execution_times` under the task id `provided_id`, bounded by
    /// `weight_at_most`.
    fn automation_time_schedule_xcmp(
        provided_id: Vec<u8>,
        execution_times: Vec<u64>,
        para_id: ParaId,
        returnable_call: Vec<u8>,
        weight_at_most: u64,
    ) -> (r: Vec<u8>)
        ensures
            r@ == Self::encoded_schedule_xcmp(
                provided_id,
                execution_times,
                para_id,
                returnable_call,
                weight_at_most,
            )@,
    ;
}

/// Maps an account of the sending chain to its 32-byte form, the same way
/// each time.
pub trait AccountConverter<AccountId> {
    /// The 32-byte form of `account`.
    spec fn converted(account: AccountId) -> [u8; 32];

    fn convert(account: AccountId) -> (r: [u8; 32])
        ensures
            r == Self::converted(account),
    ;
}

/// Costs a message: the weight needed to execute it, or a failure when some
/// instruction cannot be costed. The answer depends on the message alone.
pub trait WeightEstimator {
    /// The answer for a message with these instructions.
    spec fn estimate(message: Seq<InstructionModel>) -> Result<u64, ()>;

    fn weight(message: &Xcm) -> (r: Result<u64, ()>)
        ensures
            r == Self::estimate(message@),
    ;
}

/// Builds the instructions that schedule a task on the automation chain.
pub trait XcmInstructionGenerator<AccountId> {
    /// The encoded scheduling call that the transact instruction carries.
    spec fn encoded_call(
        provided_id: Vec<u8>,
        execution_times: Vec<u64>,
        para_id: ParaId,
        returnable_call: Vec<u8>,
    ) -> Seq<u8>;

    /// The 32-byte form of a refund account.
    spec fn refund_id(account: AccountId) -> [u8; 32];

    /// The estimator's answer for a message.
    spec fn estimate_of(message: Seq<InstructionModel>) -> Result<u64, ()>;

    /// A transact instruction with native origin and the fixed weight ceiling
    /// that carries the encoded scheduling call. The task id and the execution
    /// times are handed to the encoder as given: whether they are acceptable
    /// is for the automation chain to decide.
    fn create_schedule_xcmp_instruction(
        provided_id: Vec<u8>,
        execution_times: Vec<u64>,
        para_id: ParaId,
        returnable_call: Vec<u8>,
    ) -> (r: Instruction)
        ensures
            r@ == transact_model(
                Self::encoded_call(provided_id, execution_times, para_id, returnable_call),
            ),
    ;

    /// The five-step message that withdraws `asset`, buys with it the weight
    /// that the estimator gives for the message with an unlimited purchase,
    /// runs `transact_instruction`, refunds the surplus and deposits what is
    /// left to the converted `refund_account`; or `WeightEstimationFailed`
    /// when the estimator fails.
    fn create_xcm_instruction_set(
        asset: MultiAsset,
        transact_instruction: Instruction,
        refund_account: AccountId,
    ) -> (r: Result<Xcm, XcmBuildError>)
        ensures
            result_view(r) == assembled_model(
                asset@,
                transact_instruction@,
                Self::refund_id(refund_account),
                Self::estimate_of(
                    message_model(
                        asset@,
                        transact_instruction@,
                        Self::refund_id(refund_account),
                        WeightLimit::Unlimited,
                    ),
                ),
            ),
    ;
}

/// The generator that encodes calls with `E`, converts refund accounts with
/// `A` and costs messages with `W`.
pub struct OakXcmInstructionGenerator<E, A, W>(pub PhantomData<(E, A, W)>);

impl<AccountId, E, A, W> XcmInstructionGenerator<AccountId> for OakXcmInstructionGenerator<E, A, W> where
    E: CallEncoder,
    A: AccountConverter<AccountId>,
    W: WeightEstimator,
 {
    open spec fn encoded_call(
        provided_id: Vec<u8>,
        execution_times: Vec<u64>,
        para_id: ParaId,
        returnable_call: Vec<u8>,
    ) -> Seq<u8> {
        E::encoded_schedule_xcmp(
            provided_id,
            execution_times,
            para_id,
            returnable_call,
            MAX_XCM_TRANSACT_WEIGHT,
        )@
    }

    open spec fn refund_id(account: AccountId) -> [u8; 32] {
        A::converted(account)
    }

    open spec fn estimate_of(message: Seq<InstructionModel>) -> Result<u64, ()> {
        W::estimate(message)
    }

    fn create_schedule_xcmp_instruction(
        provided_id: Vec<u8>,
        execution_times: Vec<u64>,
        para_id: ParaId,
        returnable_call: Vec<u8>,
    ) -> (r: Instruction) {
        let call = E::automation_time_schedule_xcmp(
            provided_id,
            execution_times,
            para_id,
            returnable_call,
            MAX_XCM_TRANSACT_WEIGHT,
        );
        transact_instruction(call)
    }

    fn create_xcm_instruction_set(
        asset: MultiAsset,
        transact_instruction: Instruction,
        refund_account: AccountId,
    ) -> (r: Result<Xcm, XcmBuildError>) {
        let beneficiary = A::convert(refund_account);
        let provisional = provisional_instruction_set(&asset, &transact_instruction, beneficiary);
        let estimate = W::weight(&provisional);
        finish_instruction_set(asset, transact_instruction, beneficiary, estimate)
    }
}

} // verus!
