//! What the host tells the pool about the call that is being served.

use vstd::prelude::*;

verus! {

/// The facts about one call that the ledger's rules depend on. The host
/// supplies them; the pool never reads a clock or a caller by itself.
#[derive(Debug)]
pub struct Context {
    /// The account that made the call.
    pub predecessor_account_id: String,
    /// The account of the pool itself.
    pub current_account_id: String,
    /// The current block height.
    pub block_index: u64,
    /// The current block's timestamp.
    pub block_timestamp: u64,
    /// The current epoch height.
    pub epoch_height: u64,
    /// The deposit attached to the call.
    pub attached_deposit: u128,
}

impl Clone for Context {
    fn clone(&self) -> (r: Context)
        ensures
            r == *self,
    {
        Context {
            predecessor_account_id: self.predecessor_account_id.clone(),
            current_account_id: self.current_account_id.clone(),
            block_index: self.block_index,
            block_timestamp: self.block_timestamp,
            epoch_height: self.epoch_height,
            attached_deposit: self.attached_deposit,
        }
    }
}

} // verus!
