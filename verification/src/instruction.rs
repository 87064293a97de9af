//! The closed instruction set of the chain.

use crate::bytes::Address;
use vstd::prelude::*;

verus! {

/// Opaque zero-knowledge proof bytes.
pub type ZkProof = Vec<u8>;

/// The asset classes that balances are kept in.
#[derive(Debug, Clone, PartialEq)]
pub enum AssetType {
    LUSD,
    LJUN,
    Lumina,
    Custom(String),
}

/// Every operation that a transaction can carry.
#[allow(inconsistent_fields)]
#[derive(Debug, Clone, PartialEq)]
pub enum StablecoinInstruction {
    RegisterAsset { ticker: String, decimals: u8 },
    MintSenior { amount: u64, collateral_amount: u64, proof: Vec<u8> },
    RedeemSenior { amount: u64 },
    MintJunior { amount: u64, collateral_amount: u64 },
    RedeemJunior { amount: u64 },
    Burn { amount: u64, asset: AssetType },
    Transfer { to: Address, amount: u64, asset: AssetType },
    RebalanceTranches,
    DistributeYield { total_yield: u64 },
    TriggerStabilizer,
    RunCircuitBreaker { active: bool },
    FairRedeemQueue { batch_size: u32 },
    ConfidentialTransfer { commitment: [u8; 32], proof: Vec<u8> },
    ProveCompliance { tx_hash: [u8; 32], proof: Vec<u8> },
    ZkTaxAttest { period: u64, proof: Vec<u8> },
    MultiJurisdictionalCheck { jurisdiction_id: u32, proof: Vec<u8> },
    UpdateOracle { asset: String, price: u64, timestamp: u64, signature: Vec<u8> },
    SubmitZkPoR { proof: Vec<u8>, total_reserves: u64, timestamp: u64 },
    InstantFiatBridge { amount: u64, target_bank_id: [u8; 16], mpc_sig: Vec<u8> },
    ZeroSlipBatchMatch { orders: Vec<[u8; 32]> },
    DynamicHedge { ratio_bps: u64 },
    GeoRebalance { zone_id: u32 },
    VelocityIncentive { multiplier_bps: u64 },
    StreamPayment { to: Address, amount_per_sec: u64, duration: u64 },
    RegisterValidator { pubkey: [u8; 32], stake: u64 },
    Vote { proposal_id: u64, approve: bool },
    CreatePasskeyAccount { device_key: Vec<u8>, guardians: Vec<[u8; 32]> },
    RecoverSocial { new_device_key: Vec<u8>, guardian_signatures: Vec<Vec<u8>> },
    ClaimVelocityReward { epoch: u64, tx_volume: u64 },
    RegisterCustodian { stake: u64, mpc_pubkeys: Vec<[u8; 32]> },
    RotateReserves { new_custodian_set: Vec<[u8; 32]> },
    ClaimInsurance { loss_proof: Vec<u8>, claimed_amount: u64 },
    SwitchToPQSignature { new_pq_pubkey: Vec<u8> },
    RegisterGreenValidator { energy_proof: Vec<u8> },
    UploadComplianceCircuit { circuit_id: u64, verifier_key: Vec<u8> },
    FlashMint { amount: u64, collateral_asset: AssetType, collateral_amount: u64, commitment: [u8; 32] },
    FlashBurn { amount: u64 },
    InstantRedeem { amount: u64, destination: Address },
    MintWithCreditScore {
        amount: u64,
        collateral_amount: u64,
        credit_score_proof: ZkProof,
        min_score_threshold: u16,
        oracle: [u8; 32],
    },
    WrapToYieldToken { amount: u64, maturity_blocks: u64 },
    UnwrapYieldToken { token_id: u64 },
    ListRWA {
        asset_description: String,
        attested_value: u64,
        attestation_proof: ZkProof,
        maturity_date: Option<u64>,
        collateral_eligibility: bool,
    },
    UseRWAAsCollateral { rwa_id: u64, amount_to_pledge: u64 },
    ComputeHealthIndex,
}

} // verus!
