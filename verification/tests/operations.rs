use multisig::approve_txn::approve_txn_handler;
use multisig::create_multisig_account::create_multisig_handler;
use multisig::errors::ErrorCode;
use multisig::execute_txn::execute_txn_handler;
use multisig::propose_txn::propose_txn_handler;
use multisig::remove_approval::remove_approval_handler;
use multisig::state::{InstructionData, Multisig, SerializedAccountMeta, Transaction};

const A: u64 = 11;
const B: u64 = 22;
const C: u64 = 33;
const OUTSIDER: u64 = 99;
const MS_KEY: u64 = 1000;

fn meta(pubkey: u64) -> SerializedAccountMeta {
    SerializedAccountMeta {
        pubkey,
        is_signer: false,
        is_writable: true,
    }
}

fn one_op(program_id: u64, account: u64) -> InstructionData {
    InstructionData {
        program_id,
        accounts: vec![meta(account)],
        data: vec![1, 2, 3],
    }
}

fn registry(owners: Vec<u64>, threshold: u8) -> Multisig {
    create_multisig_handler(owners, threshold, A, 254).expect("valid registry")
}

fn proposed(ms: &mut Multisig, proposer: u64) -> Transaction {
    propose_txn_handler(ms, MS_KEY, proposer, vec![one_op(7, 70)], 253)
        .expect("valid proposal")
}

#[test]
fn test_create_registry() {
    let ms = registry(vec![A, B, C], 2);
    assert_eq!(ms.owners, vec![A, B, C]);
    assert_eq!(ms.creator, A);
    assert_eq!(ms.threshold, 2);
    assert_eq!(ms.nonce, 0);
    assert_eq!(ms.bump, 254);
}

#[test]
fn test_create_duplicate_owners() {
    let r = create_multisig_handler(vec![A, B, A], 2, A, 254);
    assert_eq!(r, Err(ErrorCode::DuplicateOwners));
    let r = create_multisig_handler(vec![B, B], 1, A, 254);
    assert_eq!(r, Err(ErrorCode::DuplicateOwners));
}

#[test]
fn test_create_invalid_threshold() {
    let r = create_multisig_handler(vec![A, B], 0, A, 254);
    assert_eq!(r, Err(ErrorCode::InvalidThreshold));
    let r = create_multisig_handler(vec![A, B], 3, A, 254);
    assert_eq!(r, Err(ErrorCode::InvalidThreshold));
}

#[test]
fn test_create_owner_count_bounds() {
    let r = create_multisig_handler(vec![1, 2, 3, 4, 5, 6], 2, A, 254);
    assert_eq!(r, Err(ErrorCode::InvalidNumberOfOwners));
    let r = create_multisig_handler(vec![], 0, A, 254);
    assert_eq!(r, Err(ErrorCode::InvalidNumberOfOwners));
    let r = create_multisig_handler(vec![1, 2, 3, 4, 5], 5, A, 254);
    assert!(r.is_ok());
}

#[test]
fn test_propose_unauthorized() {
    let mut ms = registry(vec![A, B], 2);
    let r = propose_txn_handler(&mut ms, MS_KEY, OUTSIDER, vec![one_op(7, 70)], 253);
    assert_eq!(r, Err(ErrorCode::Unauthorized));
    assert_eq!(ms.nonce, 0);
}

#[test]
fn test_propose_batch_size_bounds() {
    let mut ms = registry(vec![A, B], 2);
    let r = propose_txn_handler(&mut ms, MS_KEY, A, vec![], 253);
    assert_eq!(r, Err(ErrorCode::EmptyInstructions));
    let six: Vec<InstructionData> = (0..6).map(|i| one_op(i, 70)).collect();
    let r = propose_txn_handler(&mut ms, MS_KEY, A, six, 253);
    assert_eq!(r, Err(ErrorCode::InvalidNumberOfInstructions));
    assert_eq!(ms.nonce, 0);
    let five: Vec<InstructionData> = (0..5).map(|i| one_op(i, 70)).collect();
    let r = propose_txn_handler(&mut ms, MS_KEY, A, five, 253);
    assert!(r.is_ok());
    assert_eq!(ms.nonce, 1);
}

#[test]
fn test_propose_oversized_operation() {
    let mut ms = registry(vec![A, B], 2);
    let too_many_accounts = InstructionData {
        program_id: 7,
        accounts: (0..16).map(|i| meta(i)).collect(),
        data: vec![],
    };
    let r = propose_txn_handler(&mut ms, MS_KEY, A, vec![too_many_accounts], 253);
    assert_eq!(r, Err(ErrorCode::InvalidNumberOfInstructions));
    let oversized_payload = InstructionData {
        program_id: 7,
        accounts: vec![meta(70)],
        data: vec![0u8; 1233],
    };
    let r = propose_txn_handler(&mut ms, MS_KEY, A, vec![oversized_payload], 253);
    assert_eq!(r, Err(ErrorCode::InvalidNumberOfInstructions));
    assert_eq!(ms.nonce, 0);
    let at_the_limits = InstructionData {
        program_id: 7,
        accounts: (0..15).map(|i| meta(i)).collect(),
        data: vec![0u8; 1232],
    };
    let r = propose_txn_handler(&mut ms, MS_KEY, A, vec![at_the_limits], 253);
    assert!(r.is_ok());
}

#[test]
fn test_propose_success_and_counter_monotonic() {
    let mut ms = registry(vec![A, B, C], 2);
    let tx = proposed(&mut ms, A);
    assert_eq!(ms.nonce, 1);
    assert_eq!(tx.multisig, MS_KEY);
    assert_eq!(tx.proposer, A);
    assert_eq!(tx.signers, vec![A]);
    assert!(!tx.executed);
    assert_eq!(tx.nonce, 0);
    assert_eq!(tx.bump, 253);
    let tx2 = proposed(&mut ms, B);
    assert_eq!(ms.nonce, 2);
    assert_eq!(tx2.nonce, 1);
}

#[test]
fn test_scenario_quorum_execute() {
    let mut ms = registry(vec![A, B, C], 2);
    let mut tx = proposed(&mut ms, A);
    assert_eq!(tx.signers, vec![A]);
    assert!(!tx.executed);

    let ev = approve_txn_handler(&ms, MS_KEY, &mut tx, B).expect("B may approve");
    assert_eq!(tx.signers, vec![A, B]);
    assert_eq!(ev.multisig, MS_KEY);
    assert_eq!(ev.signers, 2);
    assert_eq!(ev.nonce, 0);

    let (plan, done) =
        execute_txn_handler(&ms, MS_KEY, &mut tx, &vec![70]).expect("quorum reached");
    assert!(tx.executed);
    assert_eq!(plan, vec![vec![0]]);
    assert_eq!(done.multisig, MS_KEY);
    assert_eq!(done.nonce, 0);
}

#[test]
fn test_approve_after_execute() {
    let mut ms = registry(vec![A, B, C], 2);
    let mut tx = proposed(&mut ms, A);
    approve_txn_handler(&ms, MS_KEY, &mut tx, B).expect("B may approve");
    execute_txn_handler(&ms, MS_KEY, &mut tx, &vec![70]).expect("quorum reached");

    let before = tx.clone();
    let r = approve_txn_handler(&ms, MS_KEY, &mut tx, C);
    assert_eq!(r, Err(ErrorCode::TransactionExecuted));
    assert_eq!(tx, before);

    let r = remove_approval_handler(&ms, MS_KEY, &mut tx, B);
    assert_eq!(r, Err(ErrorCode::TransactionExecuted));
    let r = execute_txn_handler(&ms, MS_KEY, &mut tx, &vec![70]);
    assert_eq!(r, Err(ErrorCode::TransactionExecuted));
}

#[test]
fn test_withdraw_then_execute_fails() {
    let mut ms = registry(vec![A, B], 2);
    let mut tx = proposed(&mut ms, A);
    approve_txn_handler(&ms, MS_KEY, &mut tx, B).expect("B may approve");
    assert_eq!(tx.signers, vec![A, B]);

    let ev = remove_approval_handler(&ms, MS_KEY, &mut tx, B).expect("B may withdraw");
    assert_eq!(tx.signers, vec![A]);
    assert_eq!(ev.multisig, MS_KEY);
    assert_eq!(ev.signer_removed, B);
    assert_eq!(ev.signers, 1);
    assert_eq!(ev.nonce, 0);

    let r = execute_txn_handler(&ms, MS_KEY, &mut tx, &vec![70]);
    assert_eq!(r, Err(ErrorCode::NotEnoughSigners));
    assert!(!tx.executed);
}

#[test]
fn test_second_approval_rejected() {
    let mut ms = registry(vec![A, B, C], 3);
    let mut tx = proposed(&mut ms, A);
    approve_txn_handler(&ms, MS_KEY, &mut tx, B).expect("first approval");
    let before = tx.clone();
    let r = approve_txn_handler(&ms, MS_KEY, &mut tx, B);
    assert_eq!(r, Err(ErrorCode::AlreadySigned));
    assert_eq!(tx, before);
    let r = approve_txn_handler(&ms, MS_KEY, &mut tx, A);
    assert_eq!(r, Err(ErrorCode::AlreadySigned));
    assert_eq!(tx, before);
}

#[test]
fn test_approve_and_withdraw_membership() {
    let mut ms = registry(vec![A, B], 1);
    let mut tx = proposed(&mut ms, A);
    let r = approve_txn_handler(&ms, MS_KEY, &mut tx, OUTSIDER);
    assert_eq!(r, Err(ErrorCode::Unauthorized));
    let r = remove_approval_handler(&ms, MS_KEY, &mut tx, OUTSIDER);
    assert_eq!(r, Err(ErrorCode::Unauthorized));
    let r = remove_approval_handler(&ms, MS_KEY, &mut tx, B);
    assert_eq!(r, Err(ErrorCode::NotSigned));
    assert_eq!(tx.signers, vec![A]);
}

#[test]
fn test_withdraw_keeps_order_of_others() {
    let mut ms = registry(vec![A, B, C], 3);
    let mut tx = proposed(&mut ms, A);
    approve_txn_handler(&ms, MS_KEY, &mut tx, B).expect("B approves");
    approve_txn_handler(&ms, MS_KEY, &mut tx, C).expect("C approves");
    assert_eq!(tx.signers, vec![A, B, C]);
    remove_approval_handler(&ms, MS_KEY, &mut tx, B).expect("B withdraws");
    assert_eq!(tx.signers, vec![A, C]);
    let ev = approve_txn_handler(&ms, MS_KEY, &mut tx, B).expect("B approves again");
    assert_eq!(tx.signers, vec![A, C, B]);
    assert_eq!(ev.signers, 3);
}

#[test]
fn test_execute_missing_account_no_op() {
    let mut ms = registry(vec![A, B], 1);
    let batch = vec![one_op(7, 70), one_op(8, 80)];
    let mut tx = propose_txn_handler(&mut ms, MS_KEY, A, batch, 253).expect("proposed");
    let before = tx.clone();
    let r = execute_txn_handler(&ms, MS_KEY, &mut tx, &vec![70, 71]);
    assert_eq!(r, Err(ErrorCode::MissingAccount));
    assert_eq!(tx, before);
    assert!(!tx.executed);
}

#[test]
fn test_execute_resolution_order() {
    let mut ms = registry(vec![A, B], 1);
    let batch = vec![
        InstructionData {
            program_id: 7,
            accounts: vec![meta(80), meta(60), meta(80)],
            data: vec![],
        },
        one_op(8, 60),
    ];
    let mut tx = propose_txn_handler(&mut ms, MS_KEY, A, batch, 253).expect("proposed");
    let ctx = vec![60, 80, 80];
    let (plan, _) = execute_txn_handler(&ms, MS_KEY, &mut tx, &ctx).expect("resolvable");
    assert_eq!(plan, vec![vec![1, 0, 1], vec![0]]);
}

#[test]
fn test_execute_needs_no_membership_of_trigger() {
    let mut ms = registry(vec![A, B], 1);
    let mut tx = proposed(&mut ms, A);
    let r = execute_txn_handler(&ms, MS_KEY, &mut tx, &vec![70]);
    assert!(r.is_ok());
    assert!(tx.executed);
}
