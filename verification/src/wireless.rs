//! What the wireless Matter stacks have in common.

use vstd::prelude::*;

use crate::ble::{BtpGattContext, GattModel, DEFAULT_MAX_CONNECTIONS};

verus! {

/// The application id under which the GATT peripheral of the stack registers.
pub const GATTS_APP_ID: u16 = 0;

/// An embedding of the GATT peripheral context.
///
/// Allows the memory of this context to be allocated together with that of the stack. `C` is the
/// context, or what it is shared through. `E` can be a next-level embedding, or just `()` if there
/// is nothing else to embed.
pub struct EspGatt<C, E> {
    pub btp_gatt_context: C,
    pub embedding: E,
}

impl<E> EspGatt<BtpGattContext, E> {
    /// Creates a new instance of the `EspGatt` embedding, with a context of its own that
    /// remembers up to `DEFAULT_MAX_CONNECTIONS` peers.
    pub fn new(embedding: E) -> (r: Self)
        ensures
            r.btp_gatt_context@ == GattModel::fresh(DEFAULT_MAX_CONNECTIONS as nat),
            r.embedding == embedding,
    {
        EspGatt { btp_gatt_context: BtpGattContext::new(), embedding }
    }
}

impl<C, E> EspGatt<C, E> {
    /// Return a reference to the GATT peripheral context.
    pub fn context(&self) -> (r: &C)
        ensures
            *r == self.btp_gatt_context,
    {
        &self.btp_gatt_context
    }

    /// Return a reference to the embedding.
    pub fn embedding(&self) -> (r: &E)
        ensures
            *r == self.embedding,
    {
        &self.embedding
    }
}

} // verus!
