//! A value model of the cross-chain message format: locations, assets and the
//! instructions that a built message is made of.
use vstd::prelude::*;

verus! {

/// The network a junction belongs to.
#[derive(Clone, Debug, PartialEq, Eq)]
pub enum NetworkId {
    Any,
    /// A network known by name (at most 32 bytes on the wire).
    Named(Vec<u8>),
    Polkadot,
    Kusama,
}

pub ghost enum NetworkModel {
    Any,
    Named(Seq<u8>),
    Polkadot,
    Kusama,
}

impl View for NetworkId {
    type V = NetworkModel;

    open spec fn view(&self) -> NetworkModel {
        match self {
            NetworkId::Any => NetworkModel::Any,
            NetworkId::Named(name) => NetworkModel::Named(name@),
            NetworkId::Polkadot => NetworkModel::Polkadot,
            NetworkId::Kusama => NetworkModel::Kusama,
        }
    }
}

/// A copy of a byte string.
pub fn duplicate_bytes(b: &Vec<u8>) -> (r: Vec<u8>)
    ensures
        r@ == b@,
{
    let r = b.clone();
    assert(r@ =~= b@);
    r
}

impl NetworkId {
    /// A copy of the same network.
    pub fn duplicate(&self) -> (r: NetworkId)
        ensures
            r@ == self@,
    {
        match self {
            NetworkId::Any => NetworkId::Any,
            NetworkId::Named(name) => NetworkId::Named(duplicate_bytes(name)),
            NetworkId::Polkadot => NetworkId::Polkadot,
            NetworkId::Kusama => NetworkId::Kusama,
        }
    }
}

/// A body of a chain's governance.
#[derive(Clone, Debug, PartialEq, Eq)]
pub enum BodyId {
    Unit,
    /// A body known by name (at most 32 bytes on the wire).
    Named(Vec<u8>),
    Index(u32),
    Executive,
    Technical,
    Legislative,
    Judicial,
    Defense,
    Administration,
    Treasury,
}

pub ghost enum BodyIdModel {
    Unit,
    Named(Seq<u8>),
    Index(u32),
    Executive,
    Technical,
    Legislative,
    Judicial,
    Defense,
    Administration,
    Treasury,
}

impl View for BodyId {
    type V = BodyIdModel;

    open spec fn view(&self) -> BodyIdModel {
        match self {
            BodyId::Unit => BodyIdModel::Unit,
            BodyId::Named(name) => BodyIdModel::Named(name@),
            BodyId::Index(i) => BodyIdModel::Index(*i),
            BodyId::Executive => BodyIdModel::Executive,
            BodyId::Technical => BodyIdModel::Technical,
            BodyId::Legislative => BodyIdModel::Legislative,
            BodyId::Judicial => BodyIdModel::Judicial,
            BodyId::Defense => BodyIdModel::Defense,
            BodyId::Administration => BodyIdModel::Administration,
            BodyId::Treasury => BodyIdModel::Treasury,
        }
    }
}

impl BodyId {
    /// A copy of the same body.
    pub fn duplicate(&self) -> (r: BodyId)
        ensures
            r@ == self@,
    {
        match self {
            BodyId::Unit => BodyId::Unit,
            BodyId::Named(name) => BodyId::Named(duplicate_bytes(name)),
            BodyId::Index(i) => BodyId::Index(*i),
            BodyId::Executive => BodyId::Executive,
            BodyId::Technical => BodyId::Technical,
            BodyId::Legislative => BodyId::Legislative,
            BodyId::Judicial => BodyId::Judicial,
            BodyId::Defense => BodyId::Defense,
            BodyId::Administration => BodyId::Administration,
            BodyId::Treasury => BodyId::Treasury,
        }
    }
}

/// Which part of a body acts.
#[derive(Clone, Copy, Debug, PartialEq, Eq, Structural)]
pub enum BodyPart {
    Voice,
    Members { count: u32 },
    Fraction { nom: u32, denom: u32 },
    AtLeastProportion { nom: u32, denom: u32 },
    MoreThanProportion { nom: u32, denom: u32 },
}

/// One step of a location's interior path.
#[derive(Clone, Debug, PartialEq, Eq)]
pub enum Junction {
    Parachain(u32),
    AccountId32 { network: NetworkId, id: [u8; 32] },
    AccountIndex64 { network: NetworkId, index: u64 },
    AccountKey20 { network: NetworkId, key: [u8; 20] },
    PalletInstance(u8),
    GeneralIndex(u128),
    /// A key of at most 32 bytes on the wire.
    GeneralKey(Vec<u8>),
    OnlyChild,
    Plurality { id: BodyId, part: BodyPart },
}

pub ghost enum JunctionModel {
    Parachain(u32),
    AccountId32 { network: NetworkModel, id: [u8; 32] },
    AccountIndex64 { network: NetworkModel, index: u64 },
    AccountKey20 { network: NetworkModel, key: [u8; 20] },
    PalletInstance(u8),
    GeneralIndex(u128),
    GeneralKey(Seq<u8>),
    OnlyChild,
    Plurality { id: BodyIdModel, part: BodyPart },
}

impl View for Junction {
    type V = JunctionModel;

    open spec fn view(&self) -> JunctionModel {
        match self {
            Junction::Parachain(p) => JunctionModel::Parachain(*p),
            Junction::AccountId32 { network, id } => JunctionModel::AccountId32 {
                network: network@,
                id: *id,
            },
            Junction::AccountIndex64 { network, index } => JunctionModel::AccountIndex64 {
                network: network@,
                index: *index,
            },
            Junction::AccountKey20 { network, key } => JunctionModel::AccountKey20 {
                network: network@,
                key: *key,
            },
            Junction::PalletInstance(i) => JunctionModel::PalletInstance(*i),
            Junction::GeneralIndex(i) => JunctionModel::GeneralIndex(*i),
            Junction::GeneralKey(k) => JunctionModel::GeneralKey(k@),
            Junction::OnlyChild => JunctionModel::OnlyChild,
            Junction::Plurality { id, part } => JunctionModel::Plurality { id: id@, part: *part },
        }
    }
}

impl Junction {
    /// A copy of the same junction.
    pub fn duplicate(&self) -> (r: Junction)
        ensures
            r@ == self@,
    {
        match self {
            Junction::Parachain(p) => Junction::Parachain(*p),
            Junction::AccountId32 { network, id } => Junction::AccountId32 {
                network: network.duplicate(),
                id: *id,
            },
            Junction::AccountIndex64 { network, index } => Junction::AccountIndex64 {
                network: network.duplicate(),
                index: *index,
            },
            Junction::AccountKey20 { network, key } => Junction::AccountKey20 {
                network: network.duplicate(),
                key: *key,
            },
            Junction::PalletInstance(i) => Junction::PalletInstance(*i),
            Junction::GeneralIndex(i) => Junction::GeneralIndex(*i),
            Junction::GeneralKey(k) => Junction::GeneralKey(duplicate_bytes(k)),
            Junction::OnlyChild => Junction::OnlyChild,
            Junction::Plurality { id, part } => Junction::Plurality { id: id.duplicate(), part: *part },
        }
    }
}

/// The views of a path of junctions, in order.
pub open spec fn junctions_view(js: Seq<Junction>) -> Seq<JunctionModel> {
    js.map_values(|j: Junction| j@)
}

/// A location relative to the chain that reads it: how many levels up,
/// then the path down.
#[derive(Clone, Debug, PartialEq, Eq)]
pub struct MultiLocation {
    pub parents: u8,
    pub interior: Vec<Junction>,
}

pub ghost struct LocationModel {
    pub parents: u8,
    pub interior: Seq<JunctionModel>,
}

impl View for MultiLocation {
    type V = LocationModel;

    open spec fn view(&self) -> LocationModel {
        LocationModel { parents: self.parents, interior: junctions_view(self.interior@) }
    }
}

impl MultiLocation {
    /// A copy with the same parents and the same path.
    pub fn duplicate(&self) -> (r: MultiLocation)
        ensures
            r@ == self@,
    {
        let mut interior: Vec<Junction> = Vec::new();
        let mut i: usize = 0;
        while i < self.interior.len()
            invariant
                i <= self.interior.len(),
                interior@.len() == i,
                forall|k: int| 0 <= k < i ==> #[trigger] interior@[k]@ == self.interior@[k]@,
            decreases self.interior.len() - i,
        {
            let j = self.interior[i].duplicate();
            interior.push(j);
            i = i + 1;
        }
        assert(junctions_view(interior@) =~= junctions_view(self.interior@));
        MultiLocation { parents: self.parents, interior }
    }
}

/// A fungible amount of the asset that a location identifies.
#[derive(Clone, Debug, PartialEq, Eq)]
pub struct MultiAsset {
    pub id: MultiLocation,
    pub amount: u128,
}

pub ghost struct AssetModel {
    pub id: LocationModel,
    pub amount: u128,
}

impl View for MultiAsset {
    type V = AssetModel;

    open spec fn view(&self) -> AssetModel {
        AssetModel { id: self.id@, amount: self.amount }
    }
}

impl MultiAsset {
    /// A copy of the same location and amount.
    pub fn duplicate(&self) -> (r: MultiAsset)
        ensures
            r@ == self@,
    {
        MultiAsset { id: self.id.duplicate(), amount: self.amount }
    }
}

/// The views of a list of assets, in order.
pub open spec fn assets_view(assets: Seq<MultiAsset>) -> Seq<AssetModel> {
    assets.map_values(|a: MultiAsset| a@)
}

/// A copy of a list of assets, element by element.
pub fn duplicate_assets(assets: &Vec<MultiAsset>) -> (r: Vec<MultiAsset>)
    ensures
        assets_view(r@) == assets_view(assets@),
{
    let mut out: Vec<MultiAsset> = Vec::new();
    let mut i: usize = 0;
    while i < assets.len()
        invariant
            i <= assets.len(),
            out@.len() == i,
            forall|k: int| 0 <= k < i ==> #[trigger] out@[k]@ == assets@[k]@,
        decreases assets.len() - i,
    {
        let a = assets[i].duplicate();
        out.push(a);
        i = i + 1;
    }
    assert(assets_view(out@) =~= assets_view(assets@));
    out
}

/// Which of the held assets an instruction acts on.
#[derive(Clone, Debug, PartialEq, Eq)]
pub enum MultiAssetFilter {
    Definite(Vec<MultiAsset>),
    WildAll,
}

pub ghost enum AssetFilterModel {
    Definite(Seq<AssetModel>),
    WildAll,
}

impl View for MultiAssetFilter {
    type V = AssetFilterModel;

    open spec fn view(&self) -> AssetFilterModel {
        match self {
            MultiAssetFilter::Definite(assets) => AssetFilterModel::Definite(assets_view(assets@)),
            MultiAssetFilter::WildAll => AssetFilterModel::WildAll,
        }
    }
}

/// How much weight a buy-execution instruction pays for.
#[derive(Clone, Copy, Debug, PartialEq, Eq, Structural)]
pub enum WeightLimit {
    Unlimited,
    Limited(u64),
}

/// The authority under which a transact instruction dispatches its call.
#[derive(Clone, Copy, Debug, PartialEq, Eq, Structural)]
pub enum OriginKind {
    Native,
    SovereignAccount,
    Superuser,
    Xcm,
}

/// The five kinds of instruction that a built message is made of.
#[derive(Clone, Copy, Debug, PartialEq, Eq, Structural)]
pub enum InstructionKind {
    WithdrawAsset,
    BuyExecution,
    Transact,
    RefundSurplus,
    DepositAsset,
}

/// One step of a cross-chain message.
#[derive(Clone, Debug, PartialEq, Eq)]
pub enum Instruction {
    WithdrawAsset(Vec<MultiAsset>),
    BuyExecution { fees: MultiAsset, weight_limit: WeightLimit },
    Transact { origin_type: OriginKind, require_weight_at_most: u64, call: Vec<u8> },
    RefundSurplus,
    DepositAsset { assets: MultiAssetFilter, max_assets: u32, beneficiary: MultiLocation },
}

pub ghost enum InstructionModel {
    WithdrawAsset(Seq<AssetModel>),
    BuyExecution { fees: AssetModel, weight_limit: WeightLimit },
    Transact { origin_type: OriginKind, require_weight_at_most: u64, call: Seq<u8> },
    RefundSurplus,
    DepositAsset { assets: AssetFilterModel, max_assets: u32, beneficiary: LocationModel },
}

impl View for Instruction {
    type V = InstructionModel;

    open spec fn view(&self) -> InstructionModel {
        match self {
            Instruction::WithdrawAsset(assets) => InstructionModel::WithdrawAsset(
                assets_view(assets@),
            ),
            Instruction::BuyExecution { fees, weight_limit } => InstructionModel::BuyExecution {
                fees: fees@,
                weight_limit: *weight_limit,
            },
            Instruction::Transact { origin_type, require_weight_at_most, call } =>
                InstructionModel::Transact {
                origin_type: *origin_type,
                require_weight_at_most: *require_weight_at_most,
                call: call@,
            },
            Instruction::RefundSurplus => InstructionModel::RefundSurplus,
            Instruction::DepositAsset { assets, max_assets, beneficiary } =>
                InstructionModel::DepositAsset {
                assets: assets@,
                max_assets: *max_assets,
                beneficiary: beneficiary@,
            },
        }
    }
}

/// The kind of an instruction model.
pub open spec fn kind_of(i: InstructionModel) -> InstructionKind {
    match i {
        InstructionModel::WithdrawAsset(_) => InstructionKind::WithdrawAsset,
        InstructionModel::BuyExecution { .. } => InstructionKind::BuyExecution,
        InstructionModel::Transact { .. } => InstructionKind::Transact,
        InstructionModel::RefundSurplus => InstructionKind::RefundSurplus,
        InstructionModel::DepositAsset { .. } => InstructionKind::DepositAsset,
    }
}

impl MultiAssetFilter {
    /// A copy of the same filter.
    pub fn duplicate(&self) -> (r: MultiAssetFilter)
        ensures
            r@ == self@,
    {
        match self {
            MultiAssetFilter::Definite(assets) => MultiAssetFilter::Definite(duplicate_assets(assets)),
            MultiAssetFilter::WildAll => MultiAssetFilter::WildAll,
        }
    }
}

impl Instruction {
    /// The kind of this instruction.
    pub fn kind(&self) -> (r: InstructionKind)
        ensures
            r == kind_of(self@),
    {
        match self {
            Instruction::WithdrawAsset(_) => InstructionKind::WithdrawAsset,
            Instruction::BuyExecution { .. } => InstructionKind::BuyExecution,
            Instruction::Transact { .. } => InstructionKind::Transact,
            Instruction::RefundSurplus => InstructionKind::RefundSurplus,
            Instruction::DepositAsset { .. } => InstructionKind::DepositAsset,
        }
    }

    /// A copy of the same instruction.
    pub fn duplicate(&self) -> (r: Instruction)
        ensures
            r@ == self@,
    {
        match self {
            Instruction::WithdrawAsset(assets) => Instruction::WithdrawAsset(duplicate_assets(assets)),
            Instruction::BuyExecution { fees, weight_limit } => Instruction::BuyExecution {
                fees: fees.duplicate(),
                weight_limit: *weight_limit,
            },
            Instruction::Transact { origin_type, require_weight_at_most, call } => {
                let c = call.clone();
                assert(c@ =~= call@);
                Instruction::Transact {
                    origin_type: *origin_type,
                    require_weight_at_most: *require_weight_at_most,
                    call: c,
                }
            },
            Instruction::RefundSurplus => Instruction::RefundSurplus,
            Instruction::DepositAsset { assets, max_assets, beneficiary } =>
                Instruction::DepositAsset {
                assets: assets.duplicate(),
                max_assets: *max_assets,
                beneficiary: beneficiary.duplicate(),
            },
        }
    }
}

/// An ordered list of instructions.
#[derive(Clone, Debug, PartialEq, Eq)]
pub struct Xcm(pub Vec<Instruction>);

impl View for Xcm {
    type V = Seq<InstructionModel>;

    open spec fn view(&self) -> Seq<InstructionModel> {
        self.0@.map_values(|i: Instruction| i@)
    }
}

} // verus!
