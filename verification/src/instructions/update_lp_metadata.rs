//! LP token metadata update: the instruction data of the token metadata
//! program's `UpdateMetadataAccountV2`.

use vstd::prelude::*;
use vstd::string::StringSliceAdditionalSpecFns;
use crate::error::RogueTraderError;
use crate::instructions::create_lp_metadata::{borsh_names, borsh_string, metadata_error, MAX_NAME_LEN, MAX_SYMBOL_LEN, MAX_URI_LEN};
use crate::state::agent_vault::AgentVault;

verus! {

/// `UpdateMetadataAccountV2` data: tag 15, new token data (name, symbol,
/// URI, seller fee 0, no creators, collection or uses), update authority
/// and primary sale unchanged, mutable.
pub open spec fn update_metadata_data(name: Seq<u8>, symbol: Seq<u8>, uri: Seq<u8>) -> Seq<u8> {
    seq![15u8, 1u8] + borsh_names(name, symbol, uri) + seq![0u8, 0u8, 0u8, 0u8, 0u8, 0u8, 0u8, 1u8, 1u8]
}

/// Check the request and build the metadata program's instruction data.
pub fn handler(vault: &AgentVault, bot_id: u8, name: &str, symbol: &str, uri: &str) -> (r: Result<
    Vec<u8>,
    RogueTraderError,
>)
    ensures
        match metadata_error(*vault, bot_id, name.spec_bytes(), symbol.spec_bytes(), uri.spec_bytes()) {
            Some(e) => r == Err::<Vec<u8>, RogueTraderError>(e),
            None => r matches Ok(data) && data@ == update_metadata_data(
                name.spec_bytes(),
                symbol.spec_bytes(),
                uri.spec_bytes(),
            ),
        },
{
    if vault.bot_id != bot_id {
        return Err(RogueTraderError::InvalidBotId);
    }
    if name.as_bytes().len() > MAX_NAME_LEN {
        return Err(RogueTraderError::InvalidConfig);
    }
    if symbol.as_bytes().len() > MAX_SYMBOL_LEN {
        return Err(RogueTraderError::InvalidConfig);
    }
    if uri.as_bytes().len() > MAX_URI_LEN {
        return Err(RogueTraderError::InvalidConfig);
    }
    let mut data: Vec<u8> = Vec::new();
    data.push(15);
    // Option<DataV2> = Some
    data.push(1);
    borsh_string(&mut data, name);
    borsh_string(&mut data, symbol);
    borsh_string(&mut data, uri);
    // seller_fee_basis_points: u16 = 0
    data.push(0);
    data.push(0);
    // creators, collection, uses: None
    data.push(0);
    data.push(0);
    data.push(0);
    // new_update_authority: None
    data.push(0);
    // primary_sale_happened: None
    data.push(0);
    // is_mutable: Some(true)
    data.push(1);
    data.push(1);
    assert(data@ =~= update_metadata_data(name.spec_bytes(), symbol.spec_bytes(), uri.spec_bytes()));
    Ok(data)
}

} // verus!
