use vstd::prelude::*;

use solana_program::account_info::AccountInfo;
use solana_program::pubkey::Pubkey;
use spl_governance::state::token_owner_record::get_token_owner_record_data;

use crate::address::Address;
use crate::error::RealmVoterError;
use crate::registrar::{permits_program, Registrar};
use crate::voter_weight_record::VoterWeightRecord;

verus! {

/// The account that is presented as the voter's token owner record: its
/// address, the program that owns it, and its data.
#[derive(Clone, Debug)]
pub struct TokenOwnerRecordAccount {
    pub key: Address,
    pub owner: Address,
    pub data: Vec<u8>,
}

/// The accounts of a realm voter weight update.
#[derive(Clone, Debug)]
pub struct UpdateVoterWeightRecord {
    pub registrar: Registrar,
    pub voter_weight_record: VoterWeightRecord,
    /// A token owner record of any of the permitted governance programs.
    pub token_owner_record: TokenOwnerRecordAccount,
}

/// Whether spl-governance reads `data`, held by an account that `owner` owns,
/// as a token owner record of `program_id`.
pub uninterp spec fn token_owner_record_readable(
    program_id: Seq<u8>,
    owner: Seq<u8>,
    data: Seq<u8>,
) -> bool;

/// Relies on spl_governance::state::token_owner_record::get_token_owner_record_data:
/// whether it accepts the account depends on the program id, the account's
/// owner and data alone; it refuses an empty account and one that another
/// program owns.
#[verifier::external_body]
fn token_owner_record_is_readable(program_id: &Address, account: &TokenOwnerRecordAccount) -> (r:
    bool)
    ensures
        r == token_owner_record_readable(program_id.bytes@, account.owner.bytes@, account.data@),
        account.data@.len() == 0 ==> !r,
        account.owner != *program_id ==> !r,
{
    let program_id = Pubkey::new_from_array(program_id.bytes);
    let key = Pubkey::new_from_array(account.key.bytes);
    let owner = Pubkey::new_from_array(account.owner.bytes);
    let mut lamports: u64 = 0;
    let mut data = account.data.clone();
    let info = AccountInfo::new(&key, false, false, &mut lamports, &mut data, &owner, false, 0);
    get_token_owner_record_data(&program_id, &info).is_ok()
}

/// The result of a realm voter weight update, given whether the token owner
/// record could be read.
pub open spec fn update_result(ctx: UpdateVoterWeightRecord, token_owner_record_valid: bool) -> Result<
    (),
    RealmVoterError,
> {
    if ctx.voter_weight_record.realm != ctx.registrar.realm {
        Err(RealmVoterError::InvalidVoterWeightRecordRealm)
    } else if ctx.voter_weight_record.governing_token_mint != ctx.registrar.governing_token_mint {
        Err(RealmVoterError::InvalidVoterWeightRecordMint)
    } else if !token_owner_record_valid {
        Err(RealmVoterError::InvalidTokenOwnerRecord)
    } else {
        Ok(())
    }
}

/// The record after a successful update: weight 1 for a member of a permitted
/// governance program and 0 otherwise, valid in `slot` for any action and target.
pub open spec fn updated_record(ctx: UpdateVoterWeightRecord, slot: u64) -> VoterWeightRecord {
    VoterWeightRecord {
        voter_weight: if permits_program(
            ctx.registrar.governance_program_configs@,
            ctx.token_owner_record.owner,
        ) {
            1
        } else {
            0
        },
        voter_weight_expiry: Some(slot),
        weight_action: None,
        weight_action_target: None,
        ..ctx.voter_weight_record
    }
}

/// Completes a realm voter weight update once it is known whether the token
/// owner record can be read.
pub fn settle_voter_weight_record(
    ctx: &mut UpdateVoterWeightRecord,
    token_owner_record_valid: bool,
    current_slot: u64,
) -> (r: Result<(), RealmVoterError>)
    ensures
        r == update_result(*old(ctx), token_owner_record_valid),
        final(ctx).registrar == old(ctx).registrar,
        final(ctx).token_owner_record == old(ctx).token_owner_record,
        r is Ok ==> final(ctx).voter_weight_record == updated_record(*old(ctx), current_slot),
        r is Err ==> final(ctx).voter_weight_record == old(ctx).voter_weight_record,
{
    if ctx.voter_weight_record.realm != ctx.registrar.realm {
        return Err(RealmVoterError::InvalidVoterWeightRecordRealm);
    }
    if ctx.voter_weight_record.governing_token_mint != ctx.registrar.governing_token_mint {
        return Err(RealmVoterError::InvalidVoterWeightRecordMint);
    }
    if !token_owner_record_valid {
        return Err(RealmVoterError::InvalidTokenOwnerRecord);
    }
    let governance_program_id = ctx.token_owner_record.owner;
    let voter_weight_factor: u64 = if ctx.registrar.permits_governance_program(&governance_program_id) {
        1
    } else {
        0
    };
    ctx.voter_weight_record.voter_weight = voter_weight_factor;
    ctx.voter_weight_record.voter_weight_expiry = Some(current_slot);
    ctx.voter_weight_record.weight_action = None;
    ctx.voter_weight_record.weight_action_target = None;
    Ok(())
}

/// Attests the voter's weight for the time unit `current_slot`: 1 where the
/// token owner record belongs to a permitted governance program, 0 otherwise,
/// usable for any action on any target.
pub fn update_voter_weight_record(ctx: &mut UpdateVoterWeightRecord, current_slot: u64) -> (r: Result<
    (),
    RealmVoterError,
>)
    ensures
        r == update_result(
            *old(ctx),
            token_owner_record_readable(
                old(ctx).token_owner_record.owner.bytes@,
                old(ctx).token_owner_record.owner.bytes@,
                old(ctx).token_owner_record.data@,
            ),
        ),
        final(ctx).registrar == old(ctx).registrar,
        final(ctx).token_owner_record == old(ctx).token_owner_record,
        r is Ok ==> final(ctx).voter_weight_record == updated_record(*old(ctx), current_slot),
        r is Err ==> final(ctx).voter_weight_record == old(ctx).voter_weight_record,
{
    let governance_program_id = ctx.token_owner_record.owner;
    let valid = token_owner_record_is_readable(&governance_program_id, &ctx.token_owner_record);
    settle_voter_weight_record(ctx, valid, current_slot)
}

} // verus!
