use ark_bls12_381::{Bls12_381, Fr};
use ark_groth16::Groth16;
use ark_relations::r1cs::{
    ConstraintSynthesizer, ConstraintSystemRef, LinearCombination, SynthesisError, Variable,
};
use ark_serialize::CanonicalSerialize;
use ark_snark::SNARK;
use ed25519_dalek::{Signer, SigningKey};
use lumina_core::account::AccountState;
use lumina_core::block::{hash_concat, Block, BlockHeader};
use lumina_core::encoding::{encode_account, encode_instruction};
use lumina_core::execution::{execute_si, ExecutionContext};
use lumina_core::instruction::{AssetType, StablecoinInstruction};
use lumina_core::pipeline::{
    execute_transaction, execute_transactions_parallel_non_conflicting, non_conflicting_transfer,
    select_non_conflicting,
};
use lumina_core::proofs::{
    verify_compliance_proof, verify_confidential_proof, verify_credit_score_proof,
    verify_green_energy_proof, verify_insurance_loss_proof, verify_multi_jurisdictional_proof,
    verify_rwa_attestation, verify_tax_attestation_proof, ZkManager,
};
use lumina_core::recovery::{count_guardian_approvals, recover_social, recover_with_matches};
use lumina_core::rules::ExecError;
use lumina_core::signatures::{verify_pq_signature, verify_signature};
use lumina_core::simulation::{
    build_mint_tx, build_register_asset_tx, build_transfer_tx, build_wallets,
};
use lumina_core::state::GlobalState;
use lumina_core::transaction::Transaction;
use lumina_core::trie::{account_trie_root, bytes_to_nibbles, longest_common_extension, TrieEntry};
use pqcrypto_traits::sign::{DetachedSignature, PublicKey};

struct OneInput {
    total: Option<Fr>,
}

impl ConstraintSynthesizer<Fr> for OneInput {
    fn generate_constraints(self, cs: ConstraintSystemRef<Fr>) -> Result<(), SynthesisError> {
        let total = self.total;
        let sum = cs.new_witness_variable(|| total.ok_or(SynthesisError::AssignmentMissing))?;
        let public = cs.new_input_variable(|| total.ok_or(SynthesisError::AssignmentMissing))?;
        cs.enforce_constraint(
            LinearCombination::from(sum),
            LinearCombination::from(Variable::One),
            LinearCombination::from(public),
        )
    }
}

fn key(seed: u8) -> SigningKey {
    SigningKey::from_bytes(&[seed; 32])
}

fn transfer(key: &SigningKey, nonce: u64, to: [u8; 32], amount: u64) -> Transaction {
    let mut tx = Transaction {
        sender: key.verifying_key().to_bytes(),
        nonce,
        instruction: StablecoinInstruction::Transfer { to, amount, asset: AssetType::LUSD },
        signature: Vec::new(),
        gas_limit: 7,
        gas_price: 9,
    };
    tx.signature = key.sign(&tx.signing_bytes()).to_bytes().to_vec();
    tx
}

fn context(state: GlobalState) -> ExecutionContext {
    ExecutionContext { state, height: 1, timestamp: 1, zk: ZkManager::new(Vec::new()) }
}

fn funded(lusd: u64) -> AccountState {
    let mut account = AccountState::default();
    account.lusd_balance = lusd;
    account
}

fn bound(context: &[u8], payload: &[u8]) -> Vec<u8> {
    let mut preimage = context.to_vec();
    preimage.extend_from_slice(payload);
    let mut out = blake3::hash(&preimage).as_bytes().to_vec();
    out.extend_from_slice(payload);
    out
}

#[test]
fn signing_bytes_have_the_fixed_layout() {
    let tx = Transaction {
        sender: [0xAA; 32],
        nonce: 0x0102,
        instruction: StablecoinInstruction::Transfer {
            to: [0xBB; 32],
            amount: 5,
            asset: AssetType::Custom("BTC".to_string()),
        },
        signature: vec![1, 2, 3],
        gas_limit: 7,
        gas_price: 9,
    };
    let mut expected = vec![0xAAu8; 32];
    expected.extend_from_slice(&[2, 1, 0, 0, 0, 0, 0, 0]);
    expected.extend_from_slice(&[6, 0, 0, 0]);
    expected.extend_from_slice(&[0xBB; 32]);
    expected.extend_from_slice(&[5, 0, 0, 0, 0, 0, 0, 0]);
    expected.extend_from_slice(&[3, 0, 0, 0]);
    expected.extend_from_slice(&[3, 0, 0, 0, 0, 0, 0, 0]);
    expected.extend_from_slice(b"BTC");
    expected.extend_from_slice(&[7, 0, 0, 0, 0, 0, 0, 0]);
    expected.extend_from_slice(&[9, 0, 0, 0, 0, 0, 0, 0]);
    assert_eq!(tx.signing_bytes(), expected);

    let mut preimage = expected;
    preimage.extend_from_slice(&[1, 2, 3]);
    assert_eq!(tx.id(), *blake3::hash(&preimage).as_bytes());
    assert_ne!(tx.id()[..], preimage[..32]);
}

#[test]
fn instructions_encode_tag_then_fields() {
    let list = StablecoinInstruction::ListRWA {
        asset_description: "x".to_string(),
        attested_value: 2,
        attestation_proof: vec![9, 8],
        maturity_date: Some(3),
        collateral_eligibility: true,
    };
    let mut expected = vec![41u8, 0, 0, 0];
    expected.extend_from_slice(&[1, 0, 0, 0, 0, 0, 0, 0, b'x']);
    expected.extend_from_slice(&[2, 0, 0, 0, 0, 0, 0, 0]);
    expected.extend_from_slice(&[2, 0, 0, 0, 0, 0, 0, 0, 9, 8]);
    expected.extend_from_slice(&[1, 3, 0, 0, 0, 0, 0, 0, 0]);
    expected.push(1);
    assert_eq!(encode_instruction(&list), expected);

    let recover = StablecoinInstruction::RecoverSocial {
        new_device_key: vec![7],
        guardian_signatures: vec![vec![1, 2], vec![]],
    };
    let mut expected = vec![27u8, 0, 0, 0];
    expected.extend_from_slice(&[1, 0, 0, 0, 0, 0, 0, 0, 7]);
    expected.extend_from_slice(&[2, 0, 0, 0, 0, 0, 0, 0]);
    expected.extend_from_slice(&[2, 0, 0, 0, 0, 0, 0, 0, 1, 2]);
    expected.extend_from_slice(&[0, 0, 0, 0, 0, 0, 0, 0]);
    assert_eq!(encode_instruction(&recover), expected);

    assert_eq!(encode_instruction(&StablecoinInstruction::ComputeHealthIndex), vec![43, 0, 0, 0]);
    assert_eq!(
        encode_instruction(&StablecoinInstruction::MintWithCreditScore {
            amount: 1,
            collateral_amount: 2,
            credit_score_proof: vec![],
            min_score_threshold: 0x0304,
            oracle: [5u8; 32],
        })[..4],
        [38, 0, 0, 0]
    );
}

#[test]
fn the_empty_account_encodes_to_its_zero_fields() {
    let bytes = encode_account(&AccountState::default());
    assert_eq!(bytes.len(), 8 * 4 + 8 + 1 + 1 + 8 + 1 + 8 + 8 + 2 + 8 + 8 + 8 + 8);
    assert!(bytes.iter().all(|b| *b == 0));

    let mut account = AccountState::default();
    account.nonce = 1;
    account.commitment = Some([4u8; 32]);
    account.custom_balances.insert("AB".to_string(), 5);
    let bytes = encode_account(&account);
    assert_eq!(bytes[0], 1);
    assert_eq!(&bytes[32..40], &[1, 0, 0, 0, 0, 0, 0, 0]);
    assert_eq!(&bytes[40..48], &[2, 0, 0, 0, 0, 0, 0, 0]);
    assert_eq!(&bytes[48..50], b"AB");
    assert_eq!(&bytes[50..58], &[5, 0, 0, 0, 0, 0, 0, 0]);
    assert_eq!(bytes[58], 1);
    assert_eq!(&bytes[59..91], &[4u8; 32]);
}

#[test]
fn classical_signatures_are_checked_by_the_dalek_verifier() {
    let kp = key(3);
    let pubkey = kp.verifying_key().to_bytes();
    let message = b"device key".to_vec();
    let signature = kp.sign(&message).to_bytes().to_vec();
    assert_eq!(verify_signature(&pubkey, &message, &signature), Ok(()));
    assert_eq!(verify_signature(&pubkey, b"other", &signature), Err(ExecError::CryptoInvalid));
    assert_eq!(verify_signature(&pubkey, &message, &signature[..63]), Err(ExecError::CryptoInvalid));
    let mut long = signature.clone();
    long.push(0);
    assert_eq!(verify_signature(&pubkey, &message, &long), Err(ExecError::CryptoInvalid));
    let other = key(4).verifying_key().to_bytes();
    assert_eq!(verify_signature(&other, &message, &signature), Err(ExecError::CryptoInvalid));
    assert_eq!(verify_signature(&pubkey, &message, &[]), Err(ExecError::CryptoInvalid));
}

#[test]
fn post_quantum_signatures_are_checked_by_dilithium() {
    let (pk, sk) = pqcrypto_dilithium::dilithium3::keypair();
    let message = b"switch".to_vec();
    let signature = pqcrypto_dilithium::dilithium3::detached_sign(&message, &sk);
    assert_eq!(verify_pq_signature(pk.as_bytes(), &message, signature.as_bytes()), Ok(()));
    assert_eq!(
        verify_pq_signature(pk.as_bytes(), b"other", signature.as_bytes()),
        Err(ExecError::CryptoInvalid)
    );
    assert_eq!(
        verify_pq_signature(&[], &message, signature.as_bytes()),
        Err(ExecError::CryptoInvalid)
    );
    assert_eq!(verify_pq_signature(pk.as_bytes(), &message, &[]), Err(ExecError::CryptoInvalid));
    assert_eq!(
        verify_pq_signature(&[1, 2, 3], &message, signature.as_bytes()),
        Err(ExecError::CryptoInvalid)
    );
}

#[test]
fn an_account_with_a_post_quantum_key_is_verified_under_it() {
    let kp = key(5);
    let sender = kp.verifying_key().to_bytes();
    let (pk, sk) = pqcrypto_dilithium::dilithium3::keypair();
    let mut ctx = context(GlobalState::default());

    let mut switch = Transaction {
        sender,
        nonce: 0,
        instruction: StablecoinInstruction::SwitchToPQSignature {
            new_pq_pubkey: pk.as_bytes().to_vec(),
        },
        signature: Vec::new(),
        gas_limit: 1,
        gas_price: 1,
    };
    switch.signature = kp.sign(&switch.signing_bytes()).to_bytes().to_vec();
    assert_eq!(execute_transaction(&switch, &mut ctx), Ok(()));

    let classical = transfer(&kp, 1, [1u8; 32], 0);
    assert_eq!(execute_transaction(&classical, &mut ctx), Err(ExecError::CryptoInvalid));

    let mut next = Transaction {
        sender,
        nonce: 1,
        instruction: StablecoinInstruction::RunCircuitBreaker { active: true },
        signature: Vec::new(),
        gas_limit: 1,
        gas_price: 1,
    };
    next.signature =
        pqcrypto_dilithium::dilithium3::detached_sign(&next.signing_bytes(), &sk).as_bytes().to_vec();
    assert_eq!(execute_transaction(&next, &mut ctx), Ok(()));
    assert!(ctx.state.circuit_breaker_active);
    assert_eq!(ctx.state.accounts.get(&sender).unwrap().nonce, 2);
}

#[test]
fn reserve_proofs_are_checked_by_groth16() {
    let mut rng = rand::thread_rng();
    let (pk, vk) =
        Groth16::<Bls12_381>::circuit_specific_setup(OneInput { total: None }, &mut rng).unwrap();
    let mut key_bytes = Vec::new();
    vk.serialize_compressed(&mut key_bytes).unwrap();
    let proof =
        Groth16::<Bls12_381>::prove(&pk, OneInput { total: Some(Fr::from(77u64)) }, &mut rng)
            .unwrap();
    let mut proof_bytes = Vec::new();
    proof.serialize_compressed(&mut proof_bytes).unwrap();

    let manager = ZkManager::new(key_bytes.clone());
    assert!(manager.verify_zk_por(&proof_bytes, 77));
    assert!(!manager.verify_zk_por(&proof_bytes, 78));
    assert!(!manager.verify_zk_por(&proof_bytes[1..], 77));
    assert!(!manager.verify_zk_por(&[], 77));
    assert!(!ZkManager::new(Vec::new()).verify_zk_por(&proof_bytes, 77));
    assert!(!ZkManager::new(proof_bytes.clone()).verify_zk_por(&proof_bytes, 77));

    let sender = [6u8; 32];
    let mut ctx = ExecutionContext {
        state: GlobalState::default(),
        height: 1,
        timestamp: 1,
        zk: ZkManager::new(key_bytes),
    };
    let forged = StablecoinInstruction::MintSenior {
        amount: 1000,
        collateral_amount: 78,
        proof: proof_bytes.clone(),
    };
    assert_eq!(execute_si(&forged, &sender, &mut ctx), Err(ExecError::ProofInvalid));
    assert_eq!(ctx.state.accounts.len(), 0);
    let honest =
        StablecoinInstruction::MintSenior { amount: 1000, collateral_amount: 77, proof: proof_bytes };
    assert_eq!(execute_si(&honest, &sender, &mut ctx), Ok(()));
    assert_eq!(ctx.state.stabilization_pool_balance, 77);
}

#[test]
fn bound_proofs_carry_the_digest_of_context_and_payload() {
    let green = bound(b"green-energy", b"solar");
    assert!(verify_green_energy_proof(&green));
    assert!(verify_green_energy_proof(&bound(b"green-energy", b"")));
    assert!(!verify_green_energy_proof(&bound(b"green-energy!", b"solar")));
    assert!(!verify_green_energy_proof(&green[..31]));
    assert!(!verify_green_energy_proof(&[0u8; 32]));
    let mut tampered = green.clone();
    tampered[33] ^= 1;
    assert!(!verify_green_energy_proof(&tampered));

    let credit = bound(blake3::hash(b"credit-score").as_bytes(), b"score");
    assert!(verify_credit_score_proof(&credit));
    assert!(!verify_credit_score_proof(&green));

    let amount = bound(blake3::hash(&500u64.to_le_bytes()).as_bytes(), b"attested");
    assert!(verify_rwa_attestation(&amount, 500));
    assert!(!verify_rwa_attestation(&amount, 501));
    assert!(verify_insurance_loss_proof(&amount, 500));
    assert!(!verify_insurance_loss_proof(&amount, 499));

    assert!(verify_confidential_proof(&[0u8; 32], &[]));
    assert!(verify_compliance_proof(&[0u8; 32], &[1]));
    assert!(verify_tax_attestation_proof(2024, &[]));
    assert!(verify_multi_jurisdictional_proof(3, &[]));
}

#[test]
fn the_pre_check_does_not_change_what_serial_execution_finds() {
    let alice = key(1);
    let bob = key(2);
    let carol = key(3);
    let mut state = GlobalState::default();
    state.accounts.insert(alice.verifying_key().to_bytes(), funded(100));
    state.accounts.insert(bob.verifying_key().to_bytes(), funded(100));
    state.accounts.insert(carol.verifying_key().to_bytes(), funded(100));

    let first = transfer(&alice, 0, [9u8; 32], 10);
    let mut forged = transfer(&bob, 0, [10u8; 32], 20);
    forged.signature[5] ^= 1;
    let third = transfer(&carol, 0, [11u8; 32], 30);
    let txs = vec![first, forged, third];

    assert_eq!(select_non_conflicting(&txs), vec![0, 1, 2]);
    let mut ctx = context(state);
    assert_eq!(
        execute_transactions_parallel_non_conflicting(&txs, &mut ctx),
        Err(ExecError::CryptoInvalid)
    );
    assert_eq!(ctx.state.accounts.get(&[9u8; 32]).unwrap().lusd_balance, 10);
    assert!(ctx.state.accounts.get(&[10u8; 32]).is_none());
    assert!(ctx.state.accounts.get(&[11u8; 32]).is_none());
    assert_eq!(ctx.state.accounts.get(&bob.verifying_key().to_bytes()).unwrap().nonce, 0);
}

#[test]
fn a_verdict_checked_ahead_is_dropped_when_the_key_has_changed() {
    let alice = key(1);
    let sender = alice.verifying_key().to_bytes();
    let mut state = GlobalState::default();
    state.accounts.insert(sender, funded(100));
    let mut switch = Transaction {
        sender,
        nonce: 0,
        instruction: StablecoinInstruction::SwitchToPQSignature { new_pq_pubkey: vec![1, 2, 3] },
        signature: Vec::new(),
        gas_limit: 1,
        gas_price: 1,
    };
    switch.signature = alice.sign(&switch.signing_bytes()).to_bytes().to_vec();
    let after = transfer(&alice, 1, [9u8; 32], 10);
    let txs = vec![switch, after];
    assert_eq!(select_non_conflicting(&txs), vec![1]);
    let mut ctx = context(state);
    assert_eq!(
        execute_transactions_parallel_non_conflicting(&txs, &mut ctx),
        Err(ExecError::CryptoInvalid)
    );
    assert_eq!(ctx.state.accounts.get(&sender).unwrap().nonce, 1);
    assert_eq!(ctx.state.accounts.get(&sender).unwrap().lusd_balance, 100);
}

#[test]
fn only_transfers_with_untouched_parties_are_picked() {
    let alice = key(1);
    let bob = key(2);
    let a = alice.verifying_key().to_bytes();
    let b = bob.verifying_key().to_bytes();
    let t0 = transfer(&alice, 0, [9u8; 32], 1);
    let t1 = transfer(&bob, 0, [9u8; 32], 1);
    let t2 = transfer(&bob, 1, a, 1);
    let t3 = transfer(&bob, 2, [7u8; 32], 1);
    let mut other = transfer(&bob, 3, [8u8; 32], 1);
    other.instruction = StablecoinInstruction::TriggerStabilizer;
    assert_eq!(non_conflicting_transfer(&t0), Some((a, [9u8; 32])));
    assert_eq!(non_conflicting_transfer(&other), None);
    assert_eq!(select_non_conflicting(&[t0, t1, t2, other, t3]), vec![0, 4]);
    assert_eq!(select_non_conflicting(&[]), Vec::<usize>::new());
    let _ = b;
}

#[test]
fn recovery_binds_each_guardian_once() {
    let guardians = vec![[1u8; 32], [2u8; 32], [1u8; 32]];
    let all = vec![true, true, true];
    assert_eq!(count_guardian_approvals(&guardians, &vec![all.clone(), all.clone(), all.clone()]), 2);
    assert_eq!(count_guardian_approvals(&guardians, &vec![vec![false, false, true]]), 1);
    assert_eq!(
        count_guardian_approvals(&guardians, &vec![vec![true, false, false], vec![true, false, true]]),
        1
    );
    assert_eq!(count_guardian_approvals(&guardians, &vec![vec![false, true], vec![true]]), 2);
    assert_eq!(count_guardian_approvals(&guardians, &Vec::new()), 0);
    assert_eq!(count_guardian_approvals(&Vec::new(), &vec![all]), 0);

    let mut account = AccountState::default();
    assert_eq!(recover_with_matches(&mut account, &[1], &vec![vec![true]]), Err(ExecError::NotFound));
    account.guardians = vec![[1u8; 32], [2u8; 32], [3u8; 32]];
    assert_eq!(
        recover_with_matches(&mut account, &[1], &vec![vec![true, true, true]]),
        Err(ExecError::ThresholdNotMet)
    );
    assert_eq!(
        recover_with_matches(
            &mut account,
            &[1],
            &vec![vec![true, false, false], vec![true, false, false]]
        ),
        Err(ExecError::ThresholdNotMet)
    );
    assert!(account.passkey_device_key.is_none());
    assert_eq!(
        recover_with_matches(
            &mut account,
            &[1, 2],
            &vec![vec![true, false, false], vec![true, false, true]]
        ),
        Ok(())
    );
    assert_eq!(account.passkey_device_key, Some(vec![1, 2]));

    let g1 = key(11);
    let g2 = key(12);
    let mut signed_for = AccountState::default();
    signed_for.guardians = vec![g1.verifying_key().to_bytes(), g2.verifying_key().to_bytes()];
    let new_key = vec![5u8; 10];
    let s1 = g1.sign(&new_key).to_bytes().to_vec();
    let s2 = g2.sign(&new_key).to_bytes().to_vec();
    assert_eq!(
        recover_social(&mut signed_for, &new_key, &vec![s1.clone(), s1.clone()]),
        Err(ExecError::ThresholdNotMet)
    );
    assert_eq!(recover_social(&mut signed_for, &new_key, &vec![s2, s1]), Ok(()));
    assert_eq!(signed_for.passkey_device_key, Some(new_key));
}

#[test]
fn the_transactions_root_is_a_binary_merkle_tree() {
    assert_eq!(Block::transactions_root(&[]), [0u8; 32]);
    let kp = key(1);
    let a = transfer(&kp, 0, [1u8; 32], 1);
    let b = transfer(&kp, 1, [1u8; 32], 1);
    let c = transfer(&kp, 2, [1u8; 32], 1);
    let pair = |l: [u8; 32], r: [u8; 32]| {
        let mut bytes = l.to_vec();
        bytes.extend_from_slice(&r);
        *blake3::hash(&bytes).as_bytes()
    };
    assert_eq!(hash_concat(&a.id(), &b.id()), pair(a.id(), b.id()));
    assert_eq!(Block::transactions_root(&[a.clone()]), a.id());
    assert_eq!(Block::transactions_root(&[a.clone(), b.clone()]), pair(a.id(), b.id()));
    assert_eq!(
        Block::transactions_root(&[a.clone(), b.clone(), c.clone()]),
        pair(pair(a.id(), b.id()), pair(c.id(), c.id()))
    );
}

#[test]
fn the_block_hash_is_the_digest_of_the_header() {
    let header = BlockHeader {
        height: 3,
        prev_hash: [1u8; 32],
        transactions_root: [2u8; 32],
        state_root: [3u8; 32],
        timestamp: 4,
        proposer: [5u8; 32],
    };
    let block = Block { header, transactions: Vec::new(), votes: Vec::new() };
    let mut bytes = 3u64.to_le_bytes().to_vec();
    bytes.extend_from_slice(&[1u8; 32]);
    bytes.extend_from_slice(&[2u8; 32]);
    bytes.extend_from_slice(&[3u8; 32]);
    bytes.extend_from_slice(&4u64.to_le_bytes());
    bytes.extend_from_slice(&[5u8; 32]);
    assert_eq!(block.hash(), *blake3::hash(&bytes).as_bytes());
}

fn leaf(path: &[u8], value: &[u8]) -> [u8; 32] {
    let mut bytes = vec![0u8, 0, 0, 0];
    bytes.extend_from_slice(&(path.len() as u64).to_le_bytes());
    bytes.extend_from_slice(path);
    bytes.extend_from_slice(&(value.len() as u64).to_le_bytes());
    bytes.extend_from_slice(value);
    *blake3::hash(&bytes).as_bytes()
}

fn extension(path: &[u8], child: [u8; 32]) -> [u8; 32] {
    let mut bytes = vec![1u8, 0, 0, 0];
    bytes.extend_from_slice(&(path.len() as u64).to_le_bytes());
    bytes.extend_from_slice(path);
    bytes.extend_from_slice(&child);
    *blake3::hash(&bytes).as_bytes()
}

fn branch(children: &[Option<[u8; 32]>; 16]) -> [u8; 32] {
    let mut bytes = vec![2u8, 0, 0, 0];
    for child in children {
        match child {
            Some(h) => {
                bytes.push(1);
                bytes.extend_from_slice(h);
            }
            None => bytes.push(0),
        }
    }
    bytes.push(0);
    *blake3::hash(&bytes).as_bytes()
}

#[test]
fn the_state_root_is_the_root_of_the_nibble_trie() {
    let mut state = GlobalState::default();
    assert_eq!(state.root_hash(), [0u8; 32]);

    let mut first = [0x12u8; 32];
    first[1] = 0x30;
    let account = funded(5);
    let value = encode_account(&account);
    state.accounts.insert(first, account.clone());
    let nibbles = bytes_to_nibbles(&first);
    assert_eq!(nibbles.len(), 64);
    assert_eq!(&nibbles[..4], &[1, 2, 3, 0]);
    assert_eq!(state.root_hash(), leaf(&nibbles, &value));
    assert_eq!(account_trie_root(&state.accounts), state.root_hash());

    let mut second = first;
    second[1] = 0x3F;
    state.accounts.insert(second, account.clone());
    let mut children = [None; 16];
    children[0] = Some(leaf(&nibbles[4..], &value));
    children[15] = Some(leaf(&bytes_to_nibbles(&second)[4..], &value));
    let expected = extension(&[1, 2, 3], branch(&children));
    assert_eq!(state.root_hash(), expected);

    let mut reversed = GlobalState::default();
    reversed.accounts.insert(second, account.clone());
    reversed.accounts.insert(first, account);
    assert_eq!(reversed.root_hash(), expected);
    assert_eq!(reversed.accounts.address_at(0), first);
}

#[test]
fn the_common_extension_stops_where_keys_part_or_end() {
    let entry = |key: &[u8]| TrieEntry { key: key.to_vec(), value: Vec::new() };
    let entries = vec![entry(&[1, 2, 3, 4]), entry(&[1, 2, 3, 5]), entry(&[1, 2, 3])];
    assert_eq!(longest_common_extension(&entries, 0), vec![1, 2, 3]);
    assert_eq!(longest_common_extension(&entries, 1), vec![2, 3]);
    assert_eq!(longest_common_extension(&entries, 3), Vec::<u8>::new());
    assert_eq!(longest_common_extension(&entries, 9), Vec::<u8>::new());
    assert_eq!(longest_common_extension(&vec![entry(&[7, 7])], 0), vec![7, 7]);
}

#[test]
fn library_keys_sign_what_the_verifier_accepts() {
    let key = lumina_core::signatures::SigningKey::from_bytes(&[7u8; 32]);
    assert_eq!(key.public_key, SigningKey::from_bytes(&[7u8; 32]).verifying_key().to_bytes());
    assert_ne!(key.public_key, key.secret_key);
    let signature = lumina_core::signatures::sign(&key, b"message");
    assert_eq!(signature, SigningKey::from_bytes(&[7u8; 32]).sign(b"message").to_bytes().to_vec());
    assert_eq!(verify_signature(&key.public_key, b"message", &signature), Ok(()));
    assert_eq!(
        lumina_core::signatures::sign(&key, b"message"),
        lumina_core::signatures::sign(&key, b"message")
    );

    let fresh = lumina_core::signatures::generate_keypair();
    let other = lumina_core::signatures::generate_keypair();
    assert_ne!(fresh.secret_key, other.secret_key);
    assert_eq!(
        fresh.public_key,
        SigningKey::from_bytes(&fresh.secret_key).verifying_key().to_bytes()
    );
}

#[test]
fn built_transactions_pass_the_pipeline() {
    let wallets = build_wallets(3);
    assert_eq!(wallets.len(), 3);
    assert_eq!(wallets[0].address, wallets[0].keypair.public_key);
    assert_ne!(wallets[0].address, wallets[1].address);

    let mut state = GlobalState::default();
    state.accounts.insert(wallets[0].address, funded(10));
    let mut ctx = context(state);
    let register = build_register_asset_tx(&wallets[0], 0, "SOL".to_string());
    assert_eq!((register.gas_limit, register.gas_price, register.nonce), (20_000, 1, 0));
    assert_eq!(execute_transaction(&register, &mut ctx), Ok(()));
    assert_eq!(ctx.state.oracle_prices.get(&"SOL".to_string()), Some(0));
    let send = build_transfer_tx(&wallets[0], wallets[1].address, 4, 1, AssetType::LUSD);
    assert_eq!(send.gas_limit, 1000);
    assert_eq!(execute_transaction(&send, &mut ctx), Ok(()));
    assert_eq!(ctx.state.accounts.get(&wallets[1].address).unwrap().lusd_balance, 4);
    let mint = build_mint_tx(&wallets[2], 0, 1001, vec![1, 2]);
    assert_eq!(
        mint.instruction,
        StablecoinInstruction::MintSenior { amount: 1001, collateral_amount: 1201, proof: vec![1, 2] }
    );
    assert_eq!(mint.gas_limit, 100_000);
    assert_eq!(execute_transaction(&mint, &mut ctx), Err(ExecError::ProofInvalid));
}
