use decent_credit::models::account::AccountId;
use decent_credit::models::record::{
    CreditRecord, NotificationContent, RecordContent, RecordStatus, RecordType,
};
use decent_credit::services::zk_proof_service::ZKProofService;
use sha2::{Digest, Sha256};

fn digest(parts: &[&[u8]]) -> Vec<u8> {
    let mut hasher = Sha256::new();
    for part in parts {
        hasher.update(part);
    }
    hasher.finalize().to_vec()
}

fn record_with(encrypted_content: Vec<u8>) -> CreditRecord {
    CreditRecord {
        id: "REC-1-1".to_string(),
        institution_id: AccountId::new(vec![1]),
        institution_name: "bank".to_string(),
        institution_full_name: "Bank".to_string(),
        record_type: RecordType::NotificationRecord,
        user_did: "did:x".to_string(),
        event_date: "2024-01-01".to_string(),
        content: RecordContent::Notification(NotificationContent {
            amount: 1,
            days: 1,
            period_amount: 1,
        }),
        encrypted_content,
        proof: Vec::new(),
        canister_id: String::new(),
        timestamp: 1,
        status: RecordStatus::Pending,
        reward_amount: None,
        query_price: 0,
    }
}

#[test]
fn proof_is_three_chained_digests() {
    let service = ZKProofService::new();
    let content = b"encrypted bytes".to_vec();
    let proof = service.generate_proof(&content);
    assert_eq!(proof.len(), 96);
    let base = digest(&[&content]);
    let commitment = digest(&[&base, &0u64.to_le_bytes()]);
    let opening = digest(&[&commitment]);
    assert_eq!(&proof[..32], &base[..]);
    assert_eq!(&proof[32..64], &commitment[..]);
    assert_eq!(&proof[64..], &opening[..]);
}

#[test]
fn proof_is_deterministic_and_content_bound() {
    let service = ZKProofService::new();
    assert_eq!(service.generate_proof(b"abc"), service.generate_proof(b"abc"));
    assert_ne!(service.generate_proof(b"abc"), service.generate_proof(b"abd"));
    assert_eq!(service.generate_proof(b"").len(), 96);
}

#[test]
fn generated_proof_verifies() {
    let service = ZKProofService::new();
    let record = record_with(b"some encrypted content".to_vec());
    let proof = service.generate_proof(&record.encrypted_content);
    assert!(service.verify_proof(&record, &proof));
}

#[test]
fn proof_of_other_content_is_refused() {
    let service = ZKProofService::new();
    let record = record_with(b"some encrypted content".to_vec());
    let proof = service.generate_proof(b"other content");
    assert!(!service.verify_proof(&record, &proof));
}

#[test]
fn malformed_proof_is_refused() {
    let service = ZKProofService::new();
    let record = record_with(b"content".to_vec());
    let proof = service.generate_proof(&record.encrypted_content);
    assert!(!service.verify_proof(&record, &proof[..95]));
    assert!(!service.verify_proof(&record, &[]));
    let mut longer = proof.clone();
    longer.push(0);
    assert!(!service.verify_proof(&record, &longer));
    let mut flipped = proof.clone();
    flipped[95] ^= 0x80;
    assert!(!service.verify_proof(&record, &flipped));
}

#[test]
fn blinded_commitment_and_opening() {
    let service = ZKProofService::new();
    let now = 1234u64;
    let random = service.generate_deterministic_random(b"seed", now);
    assert_eq!(random, digest(&[b"seed", &now.to_le_bytes()]));
    let (commitment, opening) = service.generate_zk_proof(b"message", 7, now);
    let blinding = digest(&[b"message", &now.to_le_bytes()]);
    assert_eq!(commitment, digest(&[b"message", &blinding]));
    assert_eq!(opening, digest(&[&commitment, &7u64.to_le_bytes()]));
    let (later, _) = service.generate_zk_proof(b"message", 7, now + 1);
    assert_ne!(later, commitment);
}
