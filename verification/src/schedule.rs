use vstd::prelude::*;

use crate::codec::{decimal_bytes, spec_decimal};
use crate::authority::{
    ata_seeds, derive_escrow_address, derive_token_account, escrow_seeds, pda_of, sha256,
    sha256_of, ATA_PROGRAM_ID, PROGRAM_ID, SYSTEM_PROGRAM_ID,
};
use crate::errors::EscrowError;
use anchor_lang::solana_program::instruction::{AccountMeta, Instruction};
use anchor_lang::solana_program::pubkey::Pubkey;
use tuktuk_program::CompiledTransactionV0;

verus! {

/// The scheduler's opaque transaction envelope, produced by its own
/// compiler; this library carries values of it through without reading
/// their insides.
#[verifier::external_type_specification]
#[verifier::external_body]
pub struct ExCompiledTransactionV0(CompiledTransactionV0);

/// ASCII bytes of `global:auto_refund`, the preimage whose digest prefix
/// names the automatic-refund entry point in the instruction encoding.
pub const AUTO_REFUND_PREIMAGE: [u8; 18] = [103, 108, 111, 98, 97, 108, 58, 97, 117, 116, 111, 95,
    114, 101, 102, 117, 110, 100];

/// ASCII bytes of `auto-refund-`, the stem of the scheduled task's
/// human-readable description.
pub const DESCRIPTION_TAG: [u8; 12] = [97, 117, 116, 111, 45, 114, 101, 102, 117, 110, 100, 45];

/// Reward paid to whoever executes the scheduled call.
pub const CRANK_REWARD: u64 = 1000001;

/// One account the scheduled invocation will touch, with its access
/// flags.
pub struct TaskAccountMeta {
    pub address: Vec<u8>,
    pub is_signer: bool,
    pub is_writable: bool,
}

impl View for TaskAccountMeta {
    type V = (Seq<u8>, bool, bool);

    open spec fn view(&self) -> (Seq<u8>, bool, bool) {
        (self.address@, self.is_signer, self.is_writable)
    }
}

impl DeepView for TaskAccountMeta {
    type V = (Seq<u8>, bool, bool);

    open spec fn deep_view(&self) -> (Seq<u8>, bool, bool) {
        self@
    }
}

/// A fully addressed invocation of the automatic refund: the program to
/// call, the accounts it touches, and its argument bytes.
pub struct AutoRefundCall {
    pub program_id: Vec<u8>,
    pub accounts: Vec<TaskAccountMeta>,
    pub data: Vec<u8>,
}

/// Everything the host needs to register the future call with the
/// external scheduler: the invocation both in open form and compiled into
/// the scheduler's envelope, the trigger time, and the task bookkeeping.
pub struct ScheduledRefund {
    pub call: AutoRefundCall,
    pub envelope: CompiledTransactionV0,
    pub trigger_timestamp: i64,
    pub crank_reward: u64,
    pub free_tasks: u8,
    pub task_id: u16,
    pub description: Vec<u8>,
}

/// The scheduled task's description: the stem followed by the nonce in
/// decimal.
pub open spec fn description_bytes(seed: u64) -> Seq<u8> {
    DESCRIPTION_TAG@ + spec_decimal(seed as nat)
}

/// The argument bytes of the automatic-refund invocation: the first eight
/// digest bytes of the entry point's name, then the little-endian nonce.
pub open spec fn auto_refund_call_data(seed: u64) -> Seq<u8> {
    sha256_of(AUTO_REFUND_PREIMAGE@).take(8) + vstd::bytes::spec_u64_to_le_bytes(seed)
}

/// The account list of the automatic-refund invocation, in calling order:
/// maker (writable), offered mint, maker's token account (writable),
/// escrow record (writable), vault (writable), token program, system
/// program.  Nothing signs: the record's own derived authority stands in
/// at execution time.
pub open spec fn auto_refund_accounts(
    maker: Seq<u8>,
    mint_a: Seq<u8>,
    maker_ata: Seq<u8>,
    escrow: Seq<u8>,
    vault: Seq<u8>,
    token_program: Seq<u8>,
) -> Seq<(Seq<u8>, bool, bool)> {
    seq![
        (maker, false, true),
        (mint_a, false, false),
        (maker_ata, false, true),
        (escrow, false, true),
        (vault, false, true),
        (token_program, false, false),
        (SYSTEM_PROGRAM_ID@, false, false),
    ]
}

/// Build the argument bytes of the automatic-refund invocation.
pub fn auto_refund_instruction_data(seed: u64) -> (r: Vec<u8>)
    ensures
        r@ == auto_refund_call_data(seed),
        r@.len() == 16,
{
    let digest = sha256(AUTO_REFUND_PREIMAGE.as_slice());
    let mut data: Vec<u8> = Vec::new();
    let mut i: usize = 0;
    while i < 8
        invariant
            i <= 8,
            digest@ == sha256_of(AUTO_REFUND_PREIMAGE@),
            digest@.len() == 32,
            data@ =~= digest@.take(i as int),
        decreases 8 - i,
    {
        data.push(digest[i]);
        i = i + 1;
    }
    let mut tail = vstd::bytes::u64_to_le_bytes(seed);
    data.append(&mut tail);
    data
}

/// Relies on `tuktuk_program::compile_transaction`: it compiles the
/// instruction into the scheduler's envelope.  The order of the
/// envelope's account table can differ from call to call (it hashes the
/// addresses), so nothing is claimed of the envelope's insides.  With so
/// few accounts its source has no failing path, so the call returns the
/// envelope.
#[verifier::external_body]
fn compile_envelope(call: &AutoRefundCall) -> (r: Result<CompiledTransactionV0, EscrowError>)
    requires
        call.program_id@.len() == 32,
        call.accounts@.len() <= 100,
        forall|i: int|
            0 <= i < call.accounts@.len() ==> (#[trigger] call.accounts@[i]).address@.len() == 32,
    ensures
        r is Ok,
{
    let program_id = Pubkey::new_from_array(call.program_id.as_slice().try_into().unwrap());
    let accounts = call.accounts.iter().map(|m: &TaskAccountMeta| AccountMeta {
        pubkey: Pubkey::new_from_array(m.address.as_slice().try_into().unwrap()),
        is_signer: m.is_signer,
        is_writable: m.is_writable,
    }).collect();
    let ix = Instruction { program_id, accounts, data: call.data.clone() };
    match tuktuk_program::compile_transaction(vec![ix], vec![]) {
        Ok(pair) => Ok(pair.0),
        Err(_) => Err(EscrowError::CompileTransactionFailed),
    }
}

/// Arrange the automatic refund of `(maker, seed)` at `expiry_timestamp`.
///
/// Every account the future call will need is re-derived here from the
/// stable identities -- never taken as opaque input -- and serialized
/// into the invocation, which is then compiled into the scheduler's
/// envelope.  The caller registers the result with the scheduler and
/// forgets it: safety under replay rests on the automatic refund's
/// idempotence, not on any later cancellation of the task.
pub fn schedule_refund(
    maker: &[u8; 32],
    seed: u64,
    mint_a: &[u8; 32],
    token_program: &[u8; 32],
    task_id: u16,
    expiry_timestamp: i64,
) -> (r: Result<ScheduledRefund, EscrowError>)
    ensures
        ({
            let ep = pda_of(escrow_seeds(maker@, seed), PROGRAM_ID@);
            let mp = pda_of(ata_seeds(maker@, mint_a@, token_program@), ATA_PROGRAM_ID@);
            &&& (r is Ok <==> ep is Some && mp is Some && pda_of(
                ata_seeds(ep.unwrap().0, mint_a@, token_program@),
                ATA_PROGRAM_ID@,
            ) is Some)
            &&& (r matches Ok(sr) ==> {
                let escrow = ep.unwrap().0;
                let maker_ata = mp.unwrap().0;
                let vault = pda_of(
                    ata_seeds(escrow, mint_a@, token_program@),
                    ATA_PROGRAM_ID@,
                ).unwrap().0;
                &&& sr.call.program_id@ == PROGRAM_ID@
                &&& sr.call.data@ == auto_refund_call_data(seed)
                &&& sr.call.accounts.deep_view() == auto_refund_accounts(
                    maker@,
                    mint_a@,
                    maker_ata,
                    escrow,
                    vault,
                    token_program@,
                )
                &&& sr.trigger_timestamp == expiry_timestamp
                &&& sr.crank_reward == CRANK_REWARD
                &&& sr.free_tasks == 1
                &&& sr.task_id == task_id
                &&& sr.description@ == description_bytes(seed)
            })
            &&& (r matches Err(e) ==> e == EscrowError::CompileTransactionFailed)
        }),
{
    let escrow = match derive_escrow_address(maker, seed) {
        None => return Err(EscrowError::CompileTransactionFailed),
        Some(p) => p.0,
    };
    let maker_ata = match derive_token_account(maker, mint_a, token_program) {
        None => return Err(EscrowError::CompileTransactionFailed),
        Some(p) => p.0,
    };
    let mut escrow_arr: [u8; 32] = [0; 32];
    let mut k: usize = 0;
    while k < 32
        invariant
            k <= 32,
            escrow@.len() == 32,
            forall|j: int| 0 <= j < k ==> escrow_arr@[j] == escrow@[j],
        decreases 32 - k,
    {
        escrow_arr[k] = escrow[k];
        k = k + 1;
    }
    proof {
        assert(escrow_arr@ =~= escrow@);
    }
    let vault = match derive_token_account(&escrow_arr, mint_a, token_program) {
        None => return Err(EscrowError::CompileTransactionFailed),
        Some(p) => p.0,
    };
    let data = auto_refund_instruction_data(seed);
    let mut accounts: Vec<TaskAccountMeta> = Vec::new();
    accounts.push(TaskAccountMeta {
        address: vstd::slice::slice_to_vec(maker.as_slice()),
        is_signer: false,
        is_writable: true,
    });
    accounts.push(TaskAccountMeta {
        address: vstd::slice::slice_to_vec(mint_a.as_slice()),
        is_signer: false,
        is_writable: false,
    });
    accounts.push(TaskAccountMeta { address: maker_ata, is_signer: false, is_writable: true });
    accounts.push(TaskAccountMeta { address: escrow, is_signer: false, is_writable: true });
    accounts.push(TaskAccountMeta { address: vault, is_signer: false, is_writable: true });
    accounts.push(TaskAccountMeta {
        address: vstd::slice::slice_to_vec(token_program.as_slice()),
        is_signer: false,
        is_writable: false,
    });
    accounts.push(TaskAccountMeta {
        address: vstd::slice::slice_to_vec(SYSTEM_PROGRAM_ID.as_slice()),
        is_signer: false,
        is_writable: false,
    });
    let call = AutoRefundCall {
        program_id: vstd::slice::slice_to_vec(PROGRAM_ID.as_slice()),
        accounts,
        data,
    };
    let envelope = match compile_envelope(&call) {
        Ok(tx) => tx,
        Err(e) => return Err(e),
    };
    let description = {
        let mut d = vstd::slice::slice_to_vec(DESCRIPTION_TAG.as_slice());
        let mut digits = decimal_bytes(seed);
        d.append(&mut digits);
        d
    };
    proof {
        let escrow_pda = pda_of(escrow_seeds(maker@, seed), PROGRAM_ID@).unwrap().0;
        assert(call.accounts.deep_view() =~~= auto_refund_accounts(
            maker@,
            mint_a@,
            pda_of(ata_seeds(maker@, mint_a@, token_program@), ATA_PROGRAM_ID@).unwrap().0,
            escrow_pda,
            pda_of(ata_seeds(escrow_pda, mint_a@, token_program@), ATA_PROGRAM_ID@).unwrap().0,
            token_program@,
        ));
    }
    Ok(
        ScheduledRefund {
            call,
            envelope,
            trigger_timestamp: expiry_timestamp,
            crank_reward: CRANK_REWARD,
            free_tasks: 1,
            task_id,
            description,
        },
    )
}

} // verus!
