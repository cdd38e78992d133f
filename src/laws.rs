use vstd::prelude::*;
use crate::evm::VmShow;
use crate::forge::{
    ExecError, Forge, TxRes, apply_post, is_empty_hash, spec_data, spec_from,
    spec_is_latest, spec_value,
};
use crate::fill::{
    FeeNeed, FillEvent, FillStage, Filler, spec_adopted, spec_answer, spec_fee_need,
    spec_wants_access_list, stage_rank,
};
use crate::middleware::{Receipt, call_post, send_post};
use crate::types::{Address, BlockId, BlockNumber, H256, NameOrAddress, TypedTx, Word};

verus! {

/// A request without a destination takes the create path and yields an
/// address; one with a concrete destination takes the call path and yields
/// bytes.
pub proof fn lemma_output_path<E: VmShow>(
    st: E::Model,
    tx: TypedTx,
    r: Result<TxRes<E::Exit>, ExecError<E::Error>>,
    after: E::Model,
)
    requires
        apply_post::<E>(st, tx, r, after),
        r is Ok,
    ensures
        tx.to is None <==> r->Ok_0.output is CreateRes,
        tx.to is Some <==> r->Ok_0.output is CallRes,
{
}

/// Two calls in a row with the same request give the same result, and the
/// engine ends in the state it started in, every balance included.
pub proof fn lemma_call_idempotent<M, E: VmShow>(
    f0: Forge<M, E>,
    f1: Forge<M, E>,
    f2: Forge<M, E>,
    tx: TypedTx,
    r1: Result<Vec<u8>, ExecError<E::Error>>,
    r2: Result<Vec<u8>, ExecError<E::Error>>,
)
    requires
        call_post(f0, tx, r1, f1),
        call_post(f1, tx, r2, f2),
    ensures
        f1.vm.view() == f0.vm.view(),
        f2.vm.view() == f0.vm.view(),
        r1 is Ok <==> r2 is Ok,
        r1 is Ok ==> r1->Ok_0@ == r2->Ok_0@,
        r1 is Err ==> r1->Err_0 == r2->Err_0,
        forall|a: Address|
            E::spec_balance(f1.vm.view(), a) == #[trigger] E::spec_balance(f0.vm.view(), a),
{
}

/// With head counter `head`: the number `head - 1` is local and every other
/// number is remote; the most recent block's hash is local (when the engine
/// has it) and every other hash is remote; "latest" and "pending" are always
/// local.
pub proof fn lemma_classifier(head: u64, last_hash: H256, n: u64, h: H256)
    ensures
        spec_is_latest(BlockId::Number(BlockNumber::Number(n)), head, last_hash) <==> (head >= 1
            && n == head - 1),
        spec_is_latest(BlockId::Number(BlockNumber::Latest), head, last_hash),
        spec_is_latest(BlockId::Number(BlockNumber::Pending), head, last_hash),
        !spec_is_latest(BlockId::Number(BlockNumber::Earliest), head, last_hash),
        head >= 1 && !is_empty_hash(last_hash) ==> (spec_is_latest(BlockId::Hash(h), head, last_hash)
            <==> h@ == last_hash@),
        spec_is_latest(BlockId::Hash(h), head, last_hash) ==> h@ == last_hash@,
{
}

/// The exit that executing `tx` on `st` reports.
pub open spec fn spec_exit<E: VmShow>(st: E::Model, tx: TypedTx) -> E::Exit {
    match tx.to {
        Some(NameOrAddress::Address(to)) => E::spec_call(
            st,
            spec_from(tx),
            to,
            spec_data(tx),
            spec_value(tx),
            false,
        )->Ok_0.1,
        _ => E::spec_deploy(st, spec_from(tx), spec_data(tx), spec_value(tx))->Ok_0.1,
    }
}

/// A synthesized receipt has status 1 exactly when the engine reports
/// success and 0 otherwise, and a contract address exactly when the request
/// had no destination.
pub proof fn lemma_receipt_fields<E: VmShow>(
    st: E::Model,
    tx: TypedTx,
    hash: H256,
    r: Result<Receipt, ExecError<E::Error>>,
    after: E::Model,
)
    requires
        send_post::<E>(st, tx, hash, r, after),
        r is Ok,
    ensures
        r->Ok_0.status == 1 || r->Ok_0.status == 0,
        r->Ok_0.status == 1 <==> E::spec_is_success(spec_exit::<E>(st, tx)),
        r->Ok_0.contract_address is Some <==> tx.to is None,
        r->Ok_0.transaction_hash == hash,
{
}


/// A transaction ready to execute or submit: a concrete destination (or
/// none), a gas limit, and the fee fields its scheme needs.
pub open spec fn spec_filled(tx: TypedTx) -> bool {
    &&& !(tx.to matches Some(NameOrAddress::Name(_)))
    &&& tx.gas is Some
    &&& spec_fee_need(tx) == FeeNeed::Nothing
}

/// What holds of the transaction once filling has passed a stage.
pub open spec fn stage_ok(stage: FillStage, tx: TypedTx) -> bool {
    &&& stage_rank(stage) <= 4 ==> !(tx.to matches Some(NameOrAddress::Name(_)))
    &&& stage_rank(stage) <= 2 ==> tx.gas is Some
    &&& stage_rank(stage) <= 1 ==> spec_fee_need(tx) != FeeNeed::GasPrice
    &&& stage == FillStage::Done ==> spec_fee_need(tx) == FeeNeed::Nothing
}

/// Advancing keeps what the stages have established, and filling reports
/// `Done` only for a filled transaction.
pub proof fn lemma_fill_advance<M, E: VmShow>(
    forge: Forge<M, E>,
    stage: FillStage,
    gas: Word,
    tx: TypedTx,
    block: Option<BlockId>,
)
    requires
        stage_ok(stage, tx),
    ensures
        ({
            let r = forge.spec_advance(stage, gas, tx, block);
            &&& stage_ok(r.0, r.2)
            &&& r.3 is Done ==> r.0 == FillStage::Done && spec_filled(r.2)
        }),
    decreases stage_rank(stage),
{
    match stage {
        FillStage::Name => {
            if !(tx.to matches Some(NameOrAddress::Name(_))) {
                lemma_fill_advance(forge, FillStage::Gas, gas, tx, block);
            }
        },
        FillStage::Gas => {
            match tx.gas {
                Some(g) => lemma_fill_advance(forge, FillStage::AccessList, g, tx, block),
                None => {
                    if forge.spec_local(block) {
                        lemma_fill_advance(
                            forge,
                            FillStage::AccessList,
                            E::spec_gas_limit(forge.vm.view()),
                            tx,
                            block,
                        );
                    }
                },
            }
        },
        FillStage::AccessList => {
            if !spec_wants_access_list(tx) {
                lemma_fill_advance(
                    forge,
                    FillStage::GasPrice,
                    gas,
                    spec_adopted(tx, gas, None),
                    block,
                );
            }
        },
        FillStage::GasPrice => {
            if spec_fee_need(tx) == FeeNeed::GasPrice {
                if forge.spec_local(block) {
                    lemma_fill_advance(
                        forge,
                        FillStage::Fees,
                        gas,
                        TypedTx { gas_price: Some(E::spec_gas_price(forge.vm.view())), ..tx },
                        block,
                    );
                }
            } else {
                lemma_fill_advance(forge, FillStage::Fees, gas, tx, block);
            }
        },
        _ => {},
    }
}

/// An accepted answer keeps what the stages have established; a new filler
/// starts with nothing to keep.
pub proof fn lemma_fill_answer(f: Filler, tx: TypedTx, ev: FillEvent)
    requires
        stage_ok(f.stage, tx),
    ensures
        stage_ok(FillStage::Name, tx),
        spec_answer(f, tx, ev) matches Some(p) ==> stage_ok(p.0.stage, p.1),
{
}

} // verus!
