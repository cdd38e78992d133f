use forge_mw::fill::{
    adopt_access_list, fee_need, fill_answer, fill_sender, name_to_resolve, set_market_fees,
    set_resolved, wants_access_list, FeeNeed, FillAction, FillEvent, FillStage, Filler,
};
use forge_mw::forge::{block_is_latest, default_sender, ExecError, Forge, Inner, NoClient, TxOutput};
use forge_mw::evm::VmShow;
use forge_mw::memvm::{MemError, MemVm, CALL_GAS, CREATE_GAS};
use forge_mw::middleware::{synth_receipt, Routed};
use forge_mw::types::{AccessListItem, BlockId, BlockNumber, NameOrAddress, TxKind, TypedTx, Word};

fn addr(hex: &str) -> [u8; 20] {
    let h = hex.trim_start_matches("0x");
    let mut out = [0u8; 20];
    for i in 0..20 {
        out[i] = u8::from_str_radix(&h[2 * i..2 * i + 2], 16).unwrap();
    }
    out
}

fn word(n: u64) -> Word {
    Word::from_u64(n)
}

fn engine_with_blocks(n: u8) -> MemVm {
    let mut vm = MemVm::new(31337, 7, 30_000_000);
    for i in 0..n {
        vm.push_block([i + 1; 32]);
    }
    vm
}

const A: &str = "0xEA674fdDe714fd979de3EdF0F56AA9716B898ec8";
const B: &str = "0xD3D13a578a53685B4ac36A1Bab31912D2B2A2F36";

#[test]
fn test_forge() {
    let from = addr(A);
    let to = addr(B);
    let mut vm = engine_with_blocks(1);
    vm.fund(from, 1_000_000);
    let mut forge = Forge::new(vm);

    let mut tx = TypedTx::new(TxKind::Legacy);
    tx.to = Some(NameOrAddress::Address(to));
    tx.from = Some(from);
    tx.value = Some(word(1));
    tx.gas = Some(word(2300));

    let receipt = forge.send_transaction(&tx, [9u8; 32]).unwrap();
    assert_eq!(receipt.status, 1);
    assert!(receipt.contract_address.is_none());
    assert_eq!(receipt.gas_used, CALL_GAS);
    assert_eq!(receipt.transaction_hash, [9u8; 32]);
    assert_eq!(forge.vm.balance(to).l0, 1);
    assert_eq!(forge.vm.balance(from).l0, 999_999);
}

#[test]
fn create_path_yields_nonzero_address() {
    let from = addr(A);
    let mut vm = engine_with_blocks(1);
    vm.fund(from, 100);
    let mut forge = Forge::new(vm);
    let mut tx = TypedTx::new(TxKind::Legacy);
    tx.from = Some(from);
    tx.data = Some(vec![0x60, 0x80, 0x60, 0x40]);

    let res = forge.apply_tx(&tx).ok().unwrap();
    let created = res.output.maybe_addr().unwrap();
    assert_ne!(created, [0u8; 20]);
    assert!(res.exit);
    assert_eq!(res.gas, CREATE_GAS);
    assert_eq!(forge.vm.code(created), vec![0x60, 0x80, 0x60, 0x40]);
}

#[test]
fn send_to_nobody_reports_contract_address() {
    let from = addr(A);
    let mut vm = engine_with_blocks(1);
    vm.fund(from, 100);
    let mut forge = Forge::new(vm);
    let mut tx = TypedTx::new(TxKind::Legacy);
    tx.from = Some(from);
    tx.data = Some(vec![1, 2, 3]);
    let receipt = forge.send_transaction(&tx, [1u8; 32]).unwrap();
    assert_eq!(receipt.status, 1);
    assert!(receipt.contract_address.is_some());
}

#[test]
fn call_path_yields_bytes_not_address() {
    let mut forge = Forge::new(engine_with_blocks(1));
    let mut tx = TypedTx::new(TxKind::Legacy);
    tx.to = Some(NameOrAddress::Address(addr(B)));
    let res = forge.apply_tx(&tx).ok().unwrap();
    assert!(res.output.maybe_addr().is_none());
    assert_eq!(res.output.maybe_bytes(), Some(vec![]));
}

#[test]
fn failed_payment_is_status_zero_not_error() {
    let mut forge = Forge::new(engine_with_blocks(1));
    let mut tx = TypedTx::new(TxKind::Legacy);
    tx.to = Some(NameOrAddress::Address(addr(B)));
    tx.from = Some(addr(A));
    tx.value = Some(word(5));
    let receipt = forge.send_transaction(&tx, [0u8; 32]).unwrap();
    assert_eq!(receipt.status, 0);
    assert_eq!(forge.vm.balance(addr(B)).l0, 0);
}

#[test]
fn call_leaves_balance_unchanged() {
    let from = addr(A);
    let to = addr(B);
    let mut vm = engine_with_blocks(2);
    vm.fund(from, 50);
    let mut forge = Forge::new(vm);
    let mut tx = TypedTx::new(TxKind::Legacy);
    tx.to = Some(NameOrAddress::Address(to));
    tx.from = Some(from);
    tx.value = Some(word(20));

    let first = forge.call(&tx).ok().unwrap();
    assert_eq!(forge.vm.balance(from).l0, 50);
    assert_eq!(forge.vm.balance(to).l0, 0);
    let second = forge.call(&tx).ok().unwrap();
    assert_eq!(first, second);
    assert_eq!(forge.vm.balance(from).l0, 50);
}

#[test]
fn call_on_create_returns_deployed_code_and_rolls_back() {
    let from = addr(A);
    let mut vm = engine_with_blocks(1);
    vm.fund(from, 10);
    let mut forge = Forge::new(vm);
    let mut tx = TypedTx::new(TxKind::Legacy);
    tx.from = Some(from);
    tx.data = Some(vec![0xAA, 0xBB]);
    assert_eq!(forge.call(&tx).ok().unwrap(), vec![0xAA, 0xBB]);
    assert_eq!(forge.vm.accounts.len(), 1);
    assert_eq!(forge.vm.created, 0);
}

#[test]
fn unresolved_destination_is_reported() {
    let mut forge = Forge::new(engine_with_blocks(1));
    let mut tx = TypedTx::new(TxKind::Legacy);
    tx.to = Some(NameOrAddress::Name("vitalik.eth".to_string()));
    match forge.apply_tx(&tx) {
        Err(ExecError::Unresolved(n)) => assert_eq!(n, "vitalik.eth"),
        _ => panic!("expected an unresolved name"),
    }
}

#[test]
fn engine_error_is_propagated() {
    let mut vm = engine_with_blocks(1);
    vm.created = 65535;
    let mut forge = Forge::new(vm);
    let tx = TypedTx::new(TxKind::Legacy);
    match forge.apply_tx(&tx) {
        Err(ExecError::Evm(e)) => assert_eq!(e, MemError::AddressesExhausted),
        _ => panic!("expected an engine error"),
    }
}

#[test]
fn default_sender_is_used() {
    let mut vm = engine_with_blocks(1);
    vm.fund(addr(B), 10);
    let mut forge = Forge::new(vm);
    let mut tx = TypedTx::new(TxKind::Legacy);
    tx.to = Some(NameOrAddress::Address(addr(A)));
    tx.value = Some(word(4));
    let receipt = forge.send_transaction(&tx, [0u8; 32]).unwrap();
    assert_eq!(receipt.status, 1);
    assert_eq!(forge.vm.balance(addr(A)).l0, 4);
    assert_eq!(default_sender(), addr(B));
}

#[test]
fn classifier_by_number_and_tag() {
    let last = [5u8; 32];
    let n = |k| BlockId::Number(BlockNumber::Number(k));
    assert!(block_is_latest(&n(9), 10, &last));
    assert!(!block_is_latest(&n(10), 10, &last));
    assert!(!block_is_latest(&n(8), 10, &last));
    assert!(!block_is_latest(&n(0), 0, &last));
    assert!(block_is_latest(&BlockId::Number(BlockNumber::Latest), 10, &last));
    assert!(block_is_latest(&BlockId::Number(BlockNumber::Pending), 10, &last));
    assert!(!block_is_latest(&BlockId::Number(BlockNumber::Earliest), 10, &last));
}

#[test]
fn classifier_by_hash() {
    let last = [5u8; 32];
    assert!(block_is_latest(&BlockId::Hash([5u8; 32]), 10, &last));
    assert!(!block_is_latest(&BlockId::Hash([6u8; 32]), 10, &last));
    assert!(!block_is_latest(&BlockId::Hash([0u8; 32]), 10, &[0u8; 32]));
}

#[test]
fn forge_is_latest_uses_engine_head() {
    let forge = Forge::new(engine_with_blocks(3));
    assert!(forge.is_latest(&BlockId::Number(BlockNumber::Number(2))));
    assert!(!forge.is_latest(&BlockId::Number(BlockNumber::Number(1))));
    assert!(forge.is_latest(&BlockId::Hash([3u8; 32])));
    assert!(!forge.is_latest(&BlockId::Hash([2u8; 32])));
}

#[test]
fn receipt_synthesis() {
    let r = synth_receipt(&TxOutput::CallRes(vec![1]), 21000, true, [4u8; 32]);
    assert_eq!(r.status, 1);
    assert_eq!(r.gas_used, 21000);
    assert!(r.contract_address.is_none());
    let r = synth_receipt(&TxOutput::CreateRes([3u8; 20]), 5, false, [4u8; 32]);
    assert_eq!(r.status, 0);
    assert_eq!(r.contract_address, Some([3u8; 20]));
}

fn item() -> Vec<AccessListItem> {
    vec![AccessListItem { address: [1u8; 20], storage_keys: vec![[2u8; 32]] }]
}

#[test]
fn access_list_adopted_when_strictly_cheaper() {
    let mut tx = TypedTx::new(TxKind::Eip2930);
    adopt_access_list(&mut tx, word(50_000), Some((item(), word(40_000))));
    assert_eq!(tx.gas.unwrap().l0, 40_000);
    assert_eq!(tx.access_list.len(), 1);
}

#[test]
fn access_list_tie_keeps_plain_estimate() {
    let mut tx = TypedTx::new(TxKind::Eip1559);
    adopt_access_list(&mut tx, word(50_000), Some((item(), word(50_000))));
    assert_eq!(tx.gas.unwrap().l0, 50_000);
    assert!(tx.access_list.is_empty());
    let mut tx = TypedTx::new(TxKind::Eip1559);
    adopt_access_list(&mut tx, word(50_000), Some((item(), word(60_000))));
    assert_eq!(tx.gas.unwrap().l0, 50_000);
    assert!(tx.access_list.is_empty());
    let mut tx = TypedTx::new(TxKind::Eip1559);
    adopt_access_list(&mut tx, word(50_000), None);
    assert_eq!(tx.gas.unwrap().l0, 50_000);
}

#[test]
fn legacy_never_takes_access_list() {
    let mut tx = TypedTx::new(TxKind::Legacy);
    assert!(!wants_access_list(&tx));
    adopt_access_list(&mut tx, word(50_000), Some((item(), word(1))));
    assert_eq!(tx.gas.unwrap().l0, 50_000);
    assert!(tx.access_list.is_empty());
}

#[test]
fn word_order_uses_high_limbs() {
    let big = Word { l0: 0, l1: 0, l2: 0, l3: 1 };
    let small = Word { l0: u64::MAX, l1: u64::MAX, l2: u64::MAX, l3: 0 };
    assert!(small.lt(&big));
    assert!(!big.lt(&small));
    assert!(!big.lt(&big));
    assert!(word(3).lt(&word(4)));
}

#[test]
fn fill_gas_price_local_at_head_remote_when_historical() {
    let forge = Forge::new(engine_with_blocks(5));
    let mut tx = TypedTx::new(TxKind::Legacy);
    assert!(!forge.fill_gas_price(&mut tx, &None));
    assert_eq!(tx.gas_price.unwrap().l0, 7);

    let mut tx = TypedTx::new(TxKind::Legacy);
    let old = Some(BlockId::Number(BlockNumber::Number(1)));
    assert!(forge.fill_gas_price(&mut tx, &old));
    assert!(tx.gas_price.is_none());
}

#[test]
fn fill_gas_price_keeps_set_price() {
    let forge = Forge::new(engine_with_blocks(5));
    let mut tx = TypedTx::new(TxKind::Legacy);
    tx.gas_price = Some(word(99));
    assert!(!forge.fill_gas_price(&mut tx, &None));
    assert_eq!(tx.gas_price.unwrap().l0, 99);
}

#[test]
fn fee_market_needs_both_fields() {
    let mut tx = TypedTx::new(TxKind::Eip1559);
    assert_eq!(fee_need(&tx), FeeNeed::MarketFees);
    tx.max_fee_per_gas = Some(word(2));
    assert_eq!(fee_need(&tx), FeeNeed::MarketFees);
    set_market_fees(&mut tx, word(3), word(1));
    assert_eq!(fee_need(&tx), FeeNeed::Nothing);
    assert_eq!(tx.max_fee_per_gas.unwrap().l0, 3);
    assert_eq!(fee_need(&TypedTx::new(TxKind::Eip2930)), FeeNeed::GasPrice);
}

#[test]
fn sender_and_name_filling() {
    let mut tx = TypedTx::new(TxKind::Legacy);
    fill_sender(&mut tx, Some(addr(A)));
    assert_eq!(tx.from, Some(addr(A)));
    fill_sender(&mut tx, Some(addr(B)));
    assert_eq!(tx.from, Some(addr(A)));
    tx.to = Some(NameOrAddress::Name("a.eth".to_string()));
    assert_eq!(name_to_resolve(&tx), Some("a.eth".to_string()));
    set_resolved(&mut tx, addr(B));
    assert!(matches!(tx.to, Some(NameOrAddress::Address(a)) if a == addr(B)));
    assert_eq!(name_to_resolve(&tx), None);
}

#[test]
fn plain_gas_and_estimates() {
    let forge = Forge::new(engine_with_blocks(2));
    let tx = TypedTx::new(TxKind::Legacy);
    assert!(matches!(forge.plain_gas(&tx, &None), Routed::Local(w) if w.l0 == 30_000_000));
    let old = Some(BlockId::Number(BlockNumber::Earliest));
    assert!(matches!(forge.plain_gas(&tx, &old), Routed::Remote));
    let mut tx = TypedTx::new(TxKind::Legacy);
    tx.gas = Some(word(2300));
    assert!(matches!(forge.plain_gas(&tx, &old), Routed::Local(w) if w.l0 == 2300));
}

#[test]
fn balance_and_block_routing() {
    let mut vm = engine_with_blocks(3);
    vm.fund(addr(A), 12);
    let forge = Forge::new(vm);
    let who = NameOrAddress::Address(addr(A));
    assert!(matches!(forge.get_balance(&who, &None), Routed::Local(w) if w.l0 == 12));
    let hist = Some(BlockId::Number(BlockNumber::Number(0)));
    assert!(matches!(forge.get_balance(&who, &hist), Routed::Remote));
    let name = NameOrAddress::Name("x.eth".to_string());
    assert!(matches!(forge.get_balance(&name, &None), Routed::Resolve(n) if n == "x.eth"));

    match forge.get_block(&BlockId::Number(BlockNumber::Latest)) {
        Routed::Local(Some(b)) => {
            assert_eq!(b.number, 2);
            assert_eq!(b.hash, [3u8; 32]);
            assert_eq!(b.parent_hash, [2u8; 32]);
        },
        _ => panic!("expected a local block"),
    }
    assert!(matches!(forge.get_block(&BlockId::Number(BlockNumber::Earliest)), Routed::Remote));
    assert_eq!(forge.get_block_number(), 3);
    assert_eq!(forge.get_chainid().l0, 31337);
}

#[test]
fn empty_engine_has_no_latest_block() {
    let forge = Forge::new(MemVm::new(1, 1, 1));
    assert!(matches!(forge.get_block(&BlockId::Number(BlockNumber::Latest)), Routed::Local(None)));
    assert!(!forge.is_latest(&BlockId::Hash([0u8; 32])));
}

#[test]
fn inner_tags() {
    let not: Inner<NoClient> = Inner::not();
    assert!(not.is_not());
    assert!(!not.is_use());
    let used = Inner::Use(5u8);
    assert!(used.is_use());
    assert_eq!(*used.get(), 5);
    let forge = Forge::new_with_provider(MemVm::new(1, 1, 1), 7u32);
    assert!(forge.inner.is_use());
    let _ = NoClient::new();
}

#[test]
fn accessors_and_address_lookup() {
    let mut forge = Forge::new(engine_with_blocks(2));
    assert_eq!(forge.get_block_hash(0), [1u8; 32]);
    assert_eq!(forge.get_block_hash(7), [0u8; 32]);
    assert_eq!(forge.vm().block_number(), 2);
    forge.vm_mut().push_block([9u8; 32]);
    assert_eq!(forge.get_block_number(), 3);
    assert_eq!(forge.to_addr(&NameOrAddress::Address(addr(A))), Ok(addr(A)));
    assert_eq!(forge.to_addr(&NameOrAddress::Name("n.eth".to_string())), Err("n.eth".to_string()));
}

#[test]
fn static_call_with_value_fails() {
    let mut vm = engine_with_blocks(1);
    vm.fund(addr(A), 10);
    let (bytes, ok, gas, _) = vm.call_raw(addr(A), addr(B), vec![], word(1), true).unwrap();
    assert!(bytes.is_empty());
    assert!(!ok);
    assert_eq!(gas, CALL_GAS);
    assert_eq!(vm.balance(addr(A)).l0, 10);
}

#[test]
fn fill_legacy_at_head_is_all_local() {
    let forge = Forge::new(engine_with_blocks(4));
    let mut tx = TypedTx::new(TxKind::Legacy);
    tx.to = Some(NameOrAddress::Address(addr(B)));
    let mut f = Filler::new();
    assert!(matches!(forge.fill_advance(&mut f, &mut tx, &None), FillAction::Done));
    assert_eq!(f.stage, FillStage::Done);
    assert_eq!(tx.gas.unwrap().l0, 30_000_000);
    assert_eq!(tx.gas_price.unwrap().l0, 7);
}

#[test]
fn fill_legacy_at_historical_block_asks_remote() {
    let forge = Forge::new(engine_with_blocks(4));
    let old = Some(BlockId::Number(BlockNumber::Number(1)));
    let mut tx = TypedTx::new(TxKind::Legacy);
    let mut f = Filler::new();
    assert!(matches!(forge.fill_advance(&mut f, &mut tx, &old), FillAction::EstimateGas));
    assert!(fill_answer(&mut f, &mut tx, FillEvent::GasEstimate(word(60_000))));
    assert!(matches!(forge.fill_advance(&mut f, &mut tx, &old), FillAction::GetGasPrice));
    assert!(tx.gas_price.is_none());
    assert!(fill_answer(&mut f, &mut tx, FillEvent::GasPrice(word(42))));
    assert!(matches!(forge.fill_advance(&mut f, &mut tx, &old), FillAction::Done));
    assert_eq!(tx.gas.unwrap().l0, 60_000);
    assert_eq!(tx.gas_price.unwrap().l0, 42);
}

#[test]
fn fill_resolves_names_and_takes_cheaper_access_list() {
    let forge = Forge::new(engine_with_blocks(2));
    let mut tx = TypedTx::new(TxKind::Eip1559);
    tx.to = Some(NameOrAddress::Name("pay.eth".to_string()));
    let mut f = Filler::new();
    match forge.fill_advance(&mut f, &mut tx, &None) {
        FillAction::ResolveName(n) => assert_eq!(n, "pay.eth"),
        _ => panic!("expected a name to resolve"),
    }
    assert!(!fill_answer(&mut f, &mut tx, FillEvent::GasPrice(word(1))));
    assert!(fill_answer(&mut f, &mut tx, FillEvent::Resolved(addr(B))));
    assert!(matches!(forge.fill_advance(&mut f, &mut tx, &None), FillAction::CreateAccessList));
    assert!(fill_answer(&mut f, &mut tx, FillEvent::AccessList(Some((item(), word(25_000))))));
    assert!(matches!(forge.fill_advance(&mut f, &mut tx, &None), FillAction::EstimateFees));
    assert!(fill_answer(&mut f, &mut tx, FillEvent::Fees(word(10), word(2))));
    assert!(matches!(forge.fill_advance(&mut f, &mut tx, &None), FillAction::Done));
    assert!(matches!(tx.to, Some(NameOrAddress::Address(a)) if a == addr(B)));
    assert_eq!(tx.gas.unwrap().l0, 25_000);
    assert_eq!(tx.access_list.len(), 1);
    assert_eq!(tx.max_fee_per_gas.unwrap().l0, 10);
    assert_eq!(tx.max_priority_fee_per_gas.unwrap().l0, 2);
    assert!(tx.gas_price.is_none());
}

#[test]
fn call_at_historical_block_is_remote() {
    let mut vm = engine_with_blocks(3);
    vm.fund(addr(A), 5);
    let mut forge = Forge::new(vm);
    let mut tx = TypedTx::new(TxKind::Legacy);
    tx.to = Some(NameOrAddress::Address(addr(B)));
    tx.from = Some(addr(A));
    tx.value = Some(word(1));
    let old = Some(BlockId::Number(BlockNumber::Number(0)));
    assert!(matches!(forge.call_at(&tx, &old), Routed::Remote));
    assert!(matches!(forge.call_at(&tx, &None), Routed::Local(Ok(b)) if b.is_empty()));
    assert_eq!(forge.vm.balance(addr(A)).l0, 5);
}
