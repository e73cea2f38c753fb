//! LP token metadata: the instruction data of the token metadata program's
//! `CreateMetadataAccountV3`.

use vstd::prelude::*;
use vstd::bytes::{spec_u32_to_le_bytes, u32_to_le_bytes};
use vstd::slice::slice_to_vec;
use vstd::string::StringSliceAdditionalSpecFns;
use crate::error::RogueTraderError;
use crate::state::agent_vault::AgentVault;

verus! {

/// Longest token name, in bytes.
pub const MAX_NAME_LEN: usize = 32;
/// Longest token symbol, in bytes.
pub const MAX_SYMBOL_LEN: usize = 10;
/// Longest metadata URI, in bytes.
pub const MAX_URI_LEN: usize = 200;

/// Borsh encoding of a string: its byte length as a little-endian u32, then
/// its bytes.
pub open spec fn borsh_bytes(b: Seq<u8>) -> Seq<u8> {
    spec_u32_to_le_bytes(b.len() as u32) + b
}

/// Append the Borsh encoding of `s` to `buf`.
pub fn borsh_string(buf: &mut Vec<u8>, s: &str)
    ensures
        final(buf)@ == old(buf)@ + borsh_bytes(s.spec_bytes()),
{
    let bytes = s.as_bytes();
    let n: u32 = #[verifier::truncate] (bytes.len() as u32);
    let mut len_bytes = u32_to_le_bytes(n);
    buf.append(&mut len_bytes);
    let mut content = slice_to_vec(bytes);
    buf.append(&mut content);
}

/// The Borsh-encoded name, symbol and URI of a token's data.
pub open spec fn borsh_names(name: Seq<u8>, symbol: Seq<u8>, uri: Seq<u8>) -> Seq<u8> {
    borsh_bytes(name) + borsh_bytes(symbol) + borsh_bytes(uri)
}

/// `CreateMetadataAccountV3` data: tag 33, the token data (name, symbol,
/// URI, seller fee 0, no creators, collection or uses), mutable, no
/// collection details.
pub open spec fn create_metadata_data(name: Seq<u8>, symbol: Seq<u8>, uri: Seq<u8>) -> Seq<u8> {
    seq![33u8] + borsh_names(name, symbol, uri) + seq![0u8, 0u8, 0u8, 0u8, 0u8, 1u8, 0u8]
}

/// The first check the metadata request fails: the vault must be the bot's,
/// name, symbol and URI at most 32, 10 and 200 bytes.
pub open spec fn metadata_error(vault: AgentVault, bot_id: u8, name: Seq<u8>, symbol: Seq<u8>, uri: Seq<u8>) -> Option<
    RogueTraderError,
> {
    if vault.bot_id != bot_id {
        Some(RogueTraderError::InvalidBotId)
    } else if name.len() > MAX_NAME_LEN || symbol.len() > MAX_SYMBOL_LEN || uri.len() > MAX_URI_LEN {
        Some(RogueTraderError::InvalidConfig)
    } else {
        None
    }
}

/// Check the request and build the metadata program's instruction data.
pub fn handler(vault: &AgentVault, bot_id: u8, name: &str, symbol: &str, uri: &str) -> (r: Result<
    Vec<u8>,
    RogueTraderError,
>)
    ensures
        match metadata_error(*vault, bot_id, name.spec_bytes(), symbol.spec_bytes(), uri.spec_bytes()) {
            Some(e) => r == Err::<Vec<u8>, RogueTraderError>(e),
            None => r matches Ok(data) && data@ == create_metadata_data(
                name.spec_bytes(),
                symbol.spec_bytes(),
                uri.spec_bytes(),
            ),
        },
{
    if vault.bot_id != bot_id {
        return Err(RogueTraderError::InvalidBotId);
    }
    if name.as_bytes().len() > MAX_NAME_LEN {
        return Err(RogueTraderError::InvalidConfig);
    }
    if symbol.as_bytes().len() > MAX_SYMBOL_LEN {
        return Err(RogueTraderError::InvalidConfig);
    }
    if uri.as_bytes().len() > MAX_URI_LEN {
        return Err(RogueTraderError::InvalidConfig);
    }
    let mut data: Vec<u8> = Vec::new();
    data.push(33);
    borsh_string(&mut data, name);
    borsh_string(&mut data, symbol);
    borsh_string(&mut data, uri);
    // seller_fee_basis_points: u16 = 0
    data.push(0);
    data.push(0);
    // creators, collection, uses: None
    data.push(0);
    data.push(0);
    data.push(0);
    // is_mutable = true
    data.push(1);
    // collection_details: None
    data.push(0);
    assert(data@ =~= create_metadata_data(name.spec_bytes(), symbol.spec_bytes(), uri.spec_bytes()));
    Ok(data)
}

} // verus!
