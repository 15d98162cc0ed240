use vstd::seq::Seq;

use oak_xcm::assembly::{
    beneficiary_location, finish_instruction_set, instruction_set_with_limit,
    provisional_instruction_set, transact_instruction, XcmBuildError,
};
use oak_xcm::generator::{
    AccountConverter, CallEncoder, OakXcmInstructionGenerator, ParaId, WeightEstimator,
    XcmInstructionGenerator,
};
use oak_xcm::instruction::{
    BodyId, BodyPart, Instruction, InstructionKind, InstructionModel, Junction, MultiAsset, MultiAssetFilter, MultiLocation,
    NetworkId, OriginKind, WeightLimit, Xcm,
};
use oak_xcm::{MAX_XCM_TRANSACT_WEIGHT, TURING_PARA_ID};

fn location_l() -> MultiLocation {
    MultiLocation { parents: 1, interior: vec![Junction::Parachain(TURING_PARA_ID)] }
}

fn funding(amount: u128) -> MultiAsset {
    MultiAsset { id: location_l(), amount }
}

fn account_location(id: [u8; 32]) -> MultiLocation {
    MultiLocation {
        parents: 0,
        interior: vec![Junction::AccountId32 { network: NetworkId::Any, id }],
    }
}

/// Encodes the scheduling call as its fields laid end to end.
struct FieldEncoder;

impl CallEncoder for FieldEncoder {
    fn encoded_schedule_xcmp(
        provided_id: Vec<u8>,
        execution_times: Vec<u64>,
        para_id: ParaId,
        returnable_call: Vec<u8>,
        weight_at_most: u64,
    ) -> Vec<u8> {
        Self::automation_time_schedule_xcmp(
            provided_id,
            execution_times,
            para_id,
            returnable_call,
            weight_at_most,
        )
    }

    fn automation_time_schedule_xcmp(
        provided_id: Vec<u8>,
        execution_times: Vec<u64>,
        para_id: ParaId,
        returnable_call: Vec<u8>,
        weight_at_most: u64,
    ) -> Vec<u8> {
        let mut out = provided_id;
        for t in execution_times {
            out.extend_from_slice(&t.to_le_bytes());
        }
        out.extend_from_slice(&para_id.0.to_le_bytes());
        out.extend_from_slice(&returnable_call);
        out.extend_from_slice(&weight_at_most.to_le_bytes());
        out
    }
}

/// Repeats the account's low byte over the whole id.
struct ByteConverter;

impl AccountConverter<u8> for ByteConverter {
    fn converted(account: u8) -> [u8; 32] {
        [account; 32]
    }

    fn convert(account: u8) -> [u8; 32] {
        [account; 32]
    }
}

/// Costs every message at 500.
struct FixedEstimator;

impl WeightEstimator for FixedEstimator {
    fn estimate(_message: Seq<InstructionModel>) -> Result<u64, ()> {
        Ok(500)
    }

    fn weight(_message: &Xcm) -> Result<u64, ()> {
        Ok(500)
    }
}

/// Fails on every message.
struct FailingEstimator;

impl WeightEstimator for FailingEstimator {
    fn estimate(_message: Seq<InstructionModel>) -> Result<u64, ()> {
        Err(())
    }

    fn weight(_message: &Xcm) -> Result<u64, ()> {
        Err(())
    }
}

type Fixed = OakXcmInstructionGenerator<FieldEncoder, ByteConverter, FixedEstimator>;
type Failing = OakXcmInstructionGenerator<FieldEncoder, ByteConverter, FailingEstimator>;

fn kinds(m: &Xcm) -> Vec<InstructionKind> {
    m.0.iter().map(|i| i.kind()).collect()
}

const ORDER: [InstructionKind; 5] = [
    InstructionKind::WithdrawAsset,
    InstructionKind::BuyExecution,
    InstructionKind::Transact,
    InstructionKind::RefundSurplus,
    InstructionKind::DepositAsset,
];

#[test]
fn scenario_funded_task_buys_estimated_weight() {
    let transact = <Fixed as XcmInstructionGenerator<u8>>::create_schedule_xcmp_instruction(
        b"task-1".to_vec(),
        vec![1000, 2000],
        ParaId(TURING_PARA_ID),
        vec![7, 8, 9],
    );
    let m = <Fixed as XcmInstructionGenerator<u8>>::create_xcm_instruction_set(
        funding(100),
        transact.clone(),
        5,
    )
    .unwrap();
    assert_eq!(kinds(&m), ORDER.to_vec());
    assert_eq!(m.0[0], Instruction::WithdrawAsset(vec![funding(100)]));
    assert_eq!(
        m.0[1],
        Instruction::BuyExecution { fees: funding(100), weight_limit: WeightLimit::Limited(500) }
    );
    match &m.0[2] {
        Instruction::Transact { origin_type, require_weight_at_most, .. } => {
            assert_eq!(*origin_type, OriginKind::Native);
            assert_eq!(*require_weight_at_most, 6_000_000_000);
        }
        other => panic!("expected a transact instruction, got {:?}", other),
    }
    assert_eq!(m.0[2], transact);
    assert_eq!(m.0[3], Instruction::RefundSurplus);
    assert_eq!(
        m.0[4],
        Instruction::DepositAsset {
            assets: MultiAssetFilter::WildAll,
            max_assets: 1,
            beneficiary: account_location([5; 32]),
        }
    );
}

#[test]
fn scenario_estimator_failure_gives_no_message() {
    let transact = transact_instruction(vec![]);
    let r = <Failing as XcmInstructionGenerator<u8>>::create_xcm_instruction_set(
        funding(100),
        transact,
        5,
    );
    assert_eq!(r, Err(XcmBuildError::WeightEstimationFailed));
}

#[test]
fn finish_with_failed_estimate_is_an_error() {
    let r = finish_instruction_set(funding(100), transact_instruction(vec![1]), [3; 32], Err(()));
    assert_eq!(r, Err(XcmBuildError::WeightEstimationFailed));
}

#[test]
fn schedule_instruction_carries_encoded_call_and_ceiling() {
    let r = <Fixed as XcmInstructionGenerator<u8>>::create_schedule_xcmp_instruction(
        vec![0xaa],
        vec![3],
        ParaId(1000),
        vec![0xbb],
    );
    let mut call = vec![0xaa];
    call.extend_from_slice(&3u64.to_le_bytes());
    call.extend_from_slice(&1000u32.to_le_bytes());
    call.push(0xbb);
    call.extend_from_slice(&MAX_XCM_TRANSACT_WEIGHT.to_le_bytes());
    assert_eq!(
        r,
        Instruction::Transact {
            origin_type: OriginKind::Native,
            require_weight_at_most: MAX_XCM_TRANSACT_WEIGHT,
            call,
        }
    );
}

#[test]
fn ceiling_ignores_payload_size_and_time_count() {
    let small = <Fixed as XcmInstructionGenerator<u8>>::create_schedule_xcmp_instruction(
        vec![],
        vec![],
        ParaId(TURING_PARA_ID),
        vec![],
    );
    let large = <Fixed as XcmInstructionGenerator<u8>>::create_schedule_xcmp_instruction(
        vec![1; 64],
        (0..24).collect(),
        ParaId(TURING_PARA_ID),
        vec![2; 4096],
    );
    for i in [small, large] {
        match i {
            Instruction::Transact { require_weight_at_most, origin_type, .. } => {
                assert_eq!(require_weight_at_most, MAX_XCM_TRANSACT_WEIGHT);
                assert_eq!(origin_type, OriginKind::Native);
            }
            other => panic!("expected a transact instruction, got {:?}", other),
        }
    }
}

#[test]
fn transact_instruction_wraps_call() {
    assert_eq!(
        transact_instruction(vec![4, 5, 6]),
        Instruction::Transact {
            origin_type: OriginKind::Native,
            require_weight_at_most: 6_000_000_000,
            call: vec![4, 5, 6],
        }
    );
}

#[test]
fn beneficiary_is_local_account() {
    let mut id = [0u8; 32];
    id[0] = 1;
    id[31] = 255;
    assert_eq!(beneficiary_location(id), account_location(id));
}

#[test]
fn provisional_set_buys_unlimited_weight() {
    let transact = transact_instruction(vec![1]);
    let m = provisional_instruction_set(&funding(7), &transact, [2; 32]);
    assert_eq!(kinds(&m), ORDER.to_vec());
    assert_eq!(
        m.0[1],
        Instruction::BuyExecution { fees: funding(7), weight_limit: WeightLimit::Unlimited }
    );
    assert_eq!(m.0[2], transact);
}

#[test]
fn instruction_set_with_limit_in_fixed_order() {
    let transact = transact_instruction(vec![1]);
    let m = instruction_set_with_limit(funding(7), transact.clone(), [2; 32], WeightLimit::Limited(77));
    assert_eq!(
        m,
        Xcm(vec![
            Instruction::WithdrawAsset(vec![funding(7)]),
            Instruction::BuyExecution { fees: funding(7), weight_limit: WeightLimit::Limited(77) },
            transact,
            Instruction::RefundSurplus,
            Instruction::DepositAsset {
                assets: MultiAssetFilter::WildAll,
                max_assets: 1,
                beneficiary: account_location([2; 32]),
            },
        ])
    );
}

#[test]
fn assembly_twice_gives_identical_messages() {
    let build = || {
        let transact = <Fixed as XcmInstructionGenerator<u8>>::create_schedule_xcmp_instruction(
            b"task-1".to_vec(),
            vec![1000, 2000],
            ParaId(TURING_PARA_ID),
            vec![7],
        );
        <Fixed as XcmInstructionGenerator<u8>>::create_xcm_instruction_set(funding(100), transact, 5)
    };
    assert_eq!(build(), build());
    let a = finish_instruction_set(funding(3), transact_instruction(vec![1]), [4; 32], Ok(9));
    let b = finish_instruction_set(funding(3), transact_instruction(vec![1]), [4; 32], Ok(9));
    assert_eq!(a, b);
}

#[test]
fn duplicates_keep_every_field() {
    let loc = MultiLocation {
        parents: 2,
        interior: vec![Junction::Parachain(9), Junction::PalletInstance(3), Junction::GeneralIndex(12)],
    };
    assert_eq!(loc.duplicate(), loc);
    let asset = MultiAsset { id: loc, amount: 1 << 100 };
    assert_eq!(asset.duplicate(), asset);
    let deposit = Instruction::DepositAsset {
        assets: MultiAssetFilter::Definite(vec![asset.clone(), funding(1)]),
        max_assets: 2,
        beneficiary: account_location([8; 32]),
    };
    assert_eq!(deposit.duplicate(), deposit);
    let withdraw = Instruction::WithdrawAsset(vec![asset, funding(5)]);
    assert_eq!(withdraw.duplicate(), withdraw);
}

#[test]
fn duplicates_keep_every_junction_kind() {
    let loc = MultiLocation {
        parents: 1,
        interior: vec![
            Junction::AccountIndex64 { network: NetworkId::Named(b"net".to_vec()), index: 77 },
            Junction::AccountKey20 { network: NetworkId::Kusama, key: [6; 20] },
            Junction::GeneralKey(vec![1, 2, 3]),
            Junction::OnlyChild,
            Junction::Plurality { id: BodyId::Named(vec![9]), part: BodyPart::Fraction { nom: 1, denom: 3 } },
            Junction::Plurality { id: BodyId::Index(4), part: BodyPart::Members { count: 5 } },
            Junction::AccountId32 { network: NetworkId::Polkadot, id: [1; 32] },
        ],
    };
    let copy = loc.duplicate();
    assert_eq!(copy, loc);
    assert_eq!(copy.interior.len(), 7);
}

#[test]
fn funding_asset_at_general_key_location_is_kept() {
    let asset = MultiAsset {
        id: MultiLocation { parents: 0, interior: vec![Junction::GeneralKey(b"KAR".to_vec())] },
        amount: 10,
    };
    let m = finish_instruction_set(asset.clone(), transact_instruction(vec![1]), [4; 32], Ok(3))
        .unwrap();
    assert_eq!(m.0[0], Instruction::WithdrawAsset(vec![asset.clone()]));
    assert_eq!(
        m.0[1],
        Instruction::BuyExecution { fees: asset, weight_limit: WeightLimit::Limited(3) }
    );
}
