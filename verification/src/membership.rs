use vstd::prelude::*;

use crate::calls::ProgramCall;
use crate::error::ErrorCode;

verus! {

/// Handles a membership request of `payer`.
///
/// With `param == 0` the payer becomes a member: one compressed token is
/// minted to it and its address is inserted into the address queue.  Every
/// other `param` is refused with `InvalidParam`, and nothing is called.
pub fn manage_membership(payer: [u8; 32], param: u8) -> (result: Result<
    Vec<ProgramCall>,
    ErrorCode,
>)
    ensures
        result is Ok <==> param == 0,
        result matches Ok(calls) ==> {
            &&& calls@.len() == 2
            &&& calls@[0].is_mint_to(seq![payer], seq![1u64])
            &&& calls@[1].is_insert_addresses(seq![payer])
        },
        result matches Err(e) ==> e == ErrorCode::InvalidParam,
{
    match param {
        0 => {
            let mut recipients: Vec<[u8; 32]> = Vec::new();
            recipients.push(payer);
            let mut amounts: Vec<u64> = Vec::new();
            amounts.push(1);
            let mut addresses: Vec<[u8; 32]> = Vec::new();
            addresses.push(payer);
            let mut calls: Vec<ProgramCall> = Vec::new();
            calls.push(ProgramCall::MintTo { recipients, amounts });
            calls.push(ProgramCall::InsertAddresses { addresses });
            assert(recipients@ =~= seq![payer]);
            assert(amounts@ =~= seq![1u64]);
            assert(addresses@ =~= seq![payer]);
            Ok(calls)
        },
        _ => Err(ErrorCode::InvalidParam),
    }
}

} // verus!
