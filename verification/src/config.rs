//! Run-time configuration of a decoding session.

use vstd::prelude::*;

verus! {

/// Sizes the native context is created with. A field left at zero stands
/// for "unset" and is replaced by its default before use.
#[derive(Clone, Copy, Debug, PartialEq, Eq, Structural)]
pub struct RunOptions {
    pub ctx_size: u32,
    pub n_batch: u32,
    pub n_gpu_layers: u32,
}

impl RunOptions {
    /// Replace every unset (zero) field by its default: a context of 1024
    /// tokens, a batch capacity of 512, and 100 layers offloaded.
    pub fn fill_default_value(&mut self)
        ensures
            final(self).ctx_size == if old(self).ctx_size == 0 {
                1024u32
            } else {
                old(self).ctx_size
            },
            final(self).n_batch == if old(self).n_batch == 0 {
                512u32
            } else {
                old(self).n_batch
            },
            final(self).n_gpu_layers == if old(self).n_gpu_layers == 0 {
                100u32
            } else {
                old(self).n_gpu_layers
            },
    {
        if self.ctx_size == 0 {
            self.ctx_size = 1024;
        }
        if self.n_batch == 0 {
            self.n_batch = 512;
        }
        if self.n_gpu_layers == 0 {
            self.n_gpu_layers = 100;
        }
    }
}

} // verus!
