use extsload_optimizer::config::ExtsloadConfig;
use extsload_optimizer::interceptor::{setup_extsload_precompiles, ExtsloadInterceptor, Interception};
use extsload_optimizer::precompiles::{
    ConsecutiveSlotsPrecompile, ExtsloadError, SingleSlotPrecompile, SparseSlotsPrecompile,
    storage_owner, StorageRead, StorageRequest, TxTarget,
};
use extsload_optimizer::selectors;
use extsload_optimizer::selectors::{match_selector, PrecompileKind};

fn word(n: u64) -> Vec<u8> {
    let mut w = vec![0u8; 24];
    w.extend_from_slice(&n.to_be_bytes());
    w
}

fn low(last: u8) -> [u8; 20] {
    let mut a = [0u8; 20];
    a[18] = 0x01;
    a[19] = last;
    a
}

fn all() -> Vec<[u8; 20]> {
    vec![low(0x00), low(0x01), low(0x02)]
}

fn pool_manager() -> [u8; 20] {
    let mut a = [0u8; 20];
    a[0] = 0x1f;
    a[1] = 0x98;
    a[2] = 0x40;
    a[19] = 0x04;
    a
}

#[test]
fn test_selector_constants() {
    assert_eq!(selectors::SINGLE_SLOT, [0x6c, 0x94, 0x52, 0x2e]);
    assert_eq!(selectors::CONSECUTIVE_SLOTS, [0x37, 0x96, 0x3c, 0x44]);
    assert_eq!(selectors::SPARSE_SLOTS, [0x06, 0xb8, 0xab, 0x04]);
}

#[test]
fn test_extsload_config_default() {
    let config = ExtsloadConfig::default();
    assert!(config.enabled);
    assert!(!config.pool_manager_addresses.is_empty());
}

#[test]
fn default_config_addresses() {
    let config = ExtsloadConfig::default();
    assert_eq!(config.pool_manager_addresses, vec![pool_manager()]);
    assert_eq!(config.single_slot_precompile, low(0x00));
    assert_eq!(config.consecutive_slots_precompile, low(0x01));
    assert_eq!(config.sparse_slots_precompile, low(0x02));
}

/// A storage stand-in: the value of a slot is its last byte plus the last
/// byte of the address, repeated.
fn fake_read(address: &[u8; 20], slot: &[u8; 32]) -> StorageRead {
    StorageRead { slot: *slot, value: [slot[31].wrapping_add(address[19]); 32] }
}

fn run(request: &StorageRequest) -> (u64, Vec<u8>) {
    let reads: Vec<StorageRead> =
        request.slots.iter().map(|s| fake_read(&request.address, s)).collect();
    request.answer(&reads)
}

#[test]
fn single_slot_reads_one_word() {
    let p = SingleSlotPrecompile;
    let slot = word(7);
    let request = p.plan_reads(&slot, 100_000, &pool_manager()).unwrap();
    assert_eq!(request.kind, PrecompileKind::SingleSlot);
    assert_eq!(request.address, pool_manager());
    assert_eq!(request.slots, vec![<[u8; 32]>::try_from(&slot[..]).unwrap()]);
    let (gas, out) = run(&request);
    assert_eq!(gas, 200);
    assert_eq!(out, vec![11u8; 32]);
}

#[test]
fn single_slot_rejects_wrong_length() {
    let p = SingleSlotPrecompile;
    assert!(matches!(p.plan_reads(&[0u8; 31], 0, &[0u8; 20]), Err(ExtsloadError::InvalidInputLength)));
    assert!(matches!(p.plan_reads(&[0u8; 33], 0, &[0u8; 20]), Err(ExtsloadError::InvalidInputLength)));
    assert_eq!(ExtsloadError::InvalidInputLength.message(), "Invalid input length");
}

#[test]
fn consecutive_slots_encodes_array() {
    let p = ConsecutiveSlotsPrecompile;
    let mut input = word(5);
    input.extend_from_slice(&word(3));
    let request = p.plan_reads(&input, 0, &[0u8; 20]).unwrap();
    assert_eq!(request.address, [0u8; 20]);
    assert_eq!(request.slots.len(), 3);
    for i in 0..3 {
        assert_eq!(request.slots[i].to_vec(), word(5 + i as u64));
    }
    let (gas, out) = run(&request);
    assert_eq!(gas, 500 + 3 * 150);
    assert_eq!(out.len(), 64 + 3 * 32);
    assert_eq!(&out[..32], &word(32)[..]);
    assert_eq!(&out[32..64], &word(3)[..]);
    assert_eq!(&out[64..96], &[5u8; 32][..]);
    assert_eq!(&out[96..128], &[6u8; 32][..]);
    assert_eq!(&out[128..160], &[7u8; 32][..]);
}

#[test]
fn consecutive_slots_with_max_start_wraps() {
    let p = ConsecutiveSlotsPrecompile;
    let mut input = vec![0xffu8; 32];
    input.extend_from_slice(&word(2));
    let request = p.plan_reads(&input, 0, &[0u8; 20]).unwrap();
    assert_eq!(request.slots[0], [0xffu8; 32]);
    assert_eq!(request.slots[1], [0u8; 32]);
    let (gas, out) = run(&request);
    assert_eq!(gas, 800);
    assert_eq!(out.len(), 128);
}

#[test]
fn consecutive_slots_limits() {
    let p = ConsecutiveSlotsPrecompile;
    let mut input = word(0);
    input.extend_from_slice(&word(1000));
    let request = p.plan_reads(&input, 0, &[0u8; 20]).unwrap();
    let (gas, out) = run(&request);
    assert_eq!(gas, 500 + 1000 * 150);
    assert_eq!(out.len(), 64 + 1000 * 32);
    let mut input = word(0);
    input.extend_from_slice(&word(1001));
    assert!(matches!(p.plan_reads(&input, 0, &[0u8; 20]), Err(ExtsloadError::TooManySlots)));
    let mut huge = word(0);
    huge.extend_from_slice(&[0xffu8; 32]);
    assert!(matches!(p.plan_reads(&huge, 0, &[0u8; 20]), Err(ExtsloadError::TooManySlots)));
    assert!(matches!(p.plan_reads(&[0u8; 63], 0, &[0u8; 20]), Err(ExtsloadError::InvalidInputLength)));
    assert_eq!(ExtsloadError::TooManySlots.message(), "Too many slots requested");
}

#[test]
fn consecutive_slots_zero_count() {
    let p = ConsecutiveSlotsPrecompile;
    let input = vec![0u8; 64];
    let request = p.plan_reads(&input, 0, &[0u8; 20]).unwrap();
    assert!(request.slots.is_empty());
    let (gas, out) = run(&request);
    assert_eq!(gas, 500);
    let mut expected = word(32);
    expected.extend_from_slice(&word(0));
    assert_eq!(out, expected);
}

#[test]
fn sparse_slots_encodes_array() {
    let p = SparseSlotsPrecompile;
    let mut input = word(2);
    input.extend_from_slice(&word(11));
    input.extend_from_slice(&word(42));
    let request = p.plan_reads(&input, 0, &pool_manager()).unwrap();
    assert_eq!(request.kind, PrecompileKind::SparseSlots);
    assert_eq!(request.slots[0].to_vec(), word(11));
    assert_eq!(request.slots[1].to_vec(), word(42));
    let (gas, out) = run(&request);
    assert_eq!(gas, 500 + 2 * 180);
    assert_eq!(out.len(), 128);
    assert_eq!(&out[..32], &word(32)[..]);
    assert_eq!(&out[32..64], &word(2)[..]);
    assert_eq!(&out[64..96], &[15u8; 32][..]);
    assert_eq!(&out[96..128], &[46u8; 32][..]);
}

#[test]
fn sparse_slots_errors() {
    let p = SparseSlotsPrecompile;
    assert!(matches!(p.plan_reads(&[0u8; 31], 0, &[0u8; 20]), Err(ExtsloadError::InvalidInputLength)));
    assert!(matches!(p.plan_reads(&word(1001), 0, &[0u8; 20]), Err(ExtsloadError::TooManySlots)));
    assert!(matches!(p.plan_reads(&word(1), 0, &[0u8; 20]), Err(ExtsloadError::InputLengthMismatch)));
    let mut input = word(1);
    input.extend_from_slice(&word(9));
    input.push(0);
    assert!(matches!(p.plan_reads(&input, 0, &[0u8; 20]), Err(ExtsloadError::InputLengthMismatch)));
    assert_eq!(ExtsloadError::InputLengthMismatch.message(), "Input length mismatch");
    let request = p.plan_reads(&word(0), 0, &[0u8; 20]).unwrap();
    let (gas, out) = run(&request);
    assert_eq!(gas, 500);
    assert_eq!(out.len(), 64);
}

#[test]
fn sparse_slots_huge_count_is_refused() {
    let p = SparseSlotsPrecompile;
    let mut count = [0u8; 32];
    count[23] = 1; // 2^64
    assert!(matches!(p.plan_reads(&count, 0, &[0u8; 20]), Err(ExtsloadError::TooManySlots)));
    assert!(matches!(p.plan_reads(&[0xffu8; 32], 0, &[0u8; 20]), Err(ExtsloadError::TooManySlots)));
}

#[test]
fn match_selector_recognises_overloads() {
    assert_eq!(match_selector(&[0x6c, 0x94, 0x52, 0x2e, 1]), Some(PrecompileKind::SingleSlot));
    assert_eq!(match_selector(&[0x37, 0x96, 0x3c, 0x44]), Some(PrecompileKind::ConsecutiveSlots));
    assert_eq!(match_selector(&[0x06, 0xb8, 0xab, 0x04]), Some(PrecompileKind::SparseSlots));
    assert_eq!(match_selector(&[0x06, 0xb8, 0xab]), None);
    assert_eq!(match_selector(&[0x06, 0xb8, 0xab, 0x05]), None);
}

#[test]
fn interceptor_redirects_extsload_to_pool_manager() {
    let interceptor = ExtsloadInterceptor::new(ExtsloadConfig::default());
    let mut data = selectors::CONSECUTIVE_SLOTS.to_vec();
    data.extend_from_slice(&word(1));
    data.extend_from_slice(&word(4));
    match interceptor.intercept_call(&TxTarget::Call(pool_manager()), &data, &all()) {
        Interception::Redirect(call) => {
            assert_eq!(call.precompile, low(0x01));
            assert_eq!(call.kind, PrecompileKind::ConsecutiveSlots);
            assert_eq!(call.data, data[4..].to_vec());
        }
        Interception::Transact => panic!("expected a redirect"),
    }
    let data = [0x6c, 0x94, 0x52, 0x2e];
    match interceptor.intercept_call(&TxTarget::Call(pool_manager()), &data, &all()) {
        Interception::Redirect(call) => {
            assert_eq!(call.precompile, low(0x00));
            assert!(call.data.is_empty());
        }
        Interception::Transact => panic!("expected a redirect"),
    }
}

#[test]
fn interceptor_passes_other_calls_through() {
    let interceptor = ExtsloadInterceptor::new(ExtsloadConfig::default());
    let data = selectors::SPARSE_SLOTS.to_vec();
    assert!(matches!(interceptor.intercept_call(&TxTarget::Create, &data, &all()), Interception::Transact));
    assert!(matches!(
        interceptor.intercept_call(&TxTarget::Call(low(0x05)), &data, &all()),
        Interception::Transact
    ));
    assert!(matches!(
        interceptor.intercept_call(&TxTarget::Call(pool_manager()), &data[..3], &all()),
        Interception::Transact
    ));
    assert!(matches!(
        interceptor.intercept_call(&TxTarget::Call(pool_manager()), &[1, 2, 3, 4, 5], &all()),
        Interception::Transact
    ));
    let mut config = ExtsloadConfig::default();
    config.enabled = false;
    let disabled = ExtsloadInterceptor::new(config);
    assert!(matches!(
        disabled.intercept_call(&TxTarget::Call(pool_manager()), &data, &all()),
        Interception::Transact
    ));
}

#[test]
fn setup_registers_three_precompiles_when_enabled() {
    let config = ExtsloadConfig::default();
    let installed = setup_extsload_precompiles(&config);
    assert_eq!(installed.len(), 3);
    assert_eq!(installed[0].address, low(0x00));
    assert_eq!(installed[0].kind, PrecompileKind::SingleSlot);
    assert_eq!(installed[1].address, low(0x01));
    assert_eq!(installed[1].kind, PrecompileKind::ConsecutiveSlots);
    assert_eq!(installed[2].address, low(0x02));
    assert_eq!(installed[2].kind, PrecompileKind::SparseSlots);
    let mut off = ExtsloadConfig::default();
    off.enabled = false;
    assert!(setup_extsload_precompiles(&off).is_empty());
}

#[test]
fn tx_target_zero_for_create() {
    assert_eq!(TxTarget::Create.to_or_zero(), [0u8; 20]);
    assert_eq!(TxTarget::Call(low(3)).to_or_zero(), low(3));
}

#[test]
fn interceptor_falls_back_when_precompile_missing() {
    let interceptor = ExtsloadInterceptor::new(ExtsloadConfig::default());
    let data = selectors::SPARSE_SLOTS.to_vec();
    assert!(matches!(
        interceptor.intercept_call(&TxTarget::Call(pool_manager()), &data, &vec![low(0x00), low(0x01)]),
        Interception::Transact
    ));
    assert!(matches!(
        interceptor.intercept_call(&TxTarget::Call(pool_manager()), &data, &vec![]),
        Interception::Transact
    ));
    assert!(matches!(
        interceptor.intercept_call(&TxTarget::Call(pool_manager()), &data, &vec![low(0x02)]),
        Interception::Redirect(_)
    ));
}

#[test]
fn redirected_call_reads_pool_manager_storage() {
    let interceptor = ExtsloadInterceptor::new(ExtsloadConfig::default());
    let mut data = selectors::SINGLE_SLOT.to_vec();
    data.extend_from_slice(&word(9));
    let call = match interceptor.intercept_call(&TxTarget::Call(pool_manager()), &data, &all()) {
        Interception::Redirect(call) => call,
        Interception::Transact => panic!("expected a redirect"),
    };
    assert_eq!(call.storage_owner, pool_manager());
    // While the redirected call runs, the transaction targets the precompile.
    let owner = storage_owner(Some(call.storage_owner), &TxTarget::Call(call.precompile));
    assert_eq!(owner, pool_manager());
    let request = SingleSlotPrecompile.plan_reads(&call.data, 0, &owner).unwrap();
    assert_eq!(request.address, pool_manager());
    let (gas, out) = run(&request);
    assert_eq!(gas, 200);
    assert_eq!(out, vec![13u8; 32]);
}

#[test]
fn direct_call_reads_target_storage() {
    assert_eq!(storage_owner(None, &TxTarget::Call(low(0x07))), low(0x07));
    assert_eq!(storage_owner(None, &TxTarget::Create), [0u8; 20]);
}
