//! The entropy capability facade.
//!
//! The true-random-number engine's sampling state machine is an explicit
//! gap of this driver: acquisition succeeds without starting anything,
//! cancellation always reports failure, and the sampling path yields no
//! words. The contracts state exactly that, so callers cannot mistake the
//! placeholders for working entropy.

use vstd::prelude::*;
use crate::error::ErrorCode;
use crate::CryptoCell310;

verus! {

impl CryptoCell310 {
    /// Requests entropy. The request is accepted, but no sampling is
    /// started: delivery would require the random-number state machine
    /// this driver does not implement.
    pub fn get(&mut self) -> (r: Result<(), ErrorCode>)
        ensures
            *final(self) == *old(self),
            r is Ok,
    {
        Ok(())
    }

    /// Cancels an entropy request. Cancellation is not supported: the call
    /// always reports failure, and callers must not assume a request was
    /// stopped.
    pub fn cancel(&mut self) -> (r: Result<(), ErrorCode>)
        ensures
            *final(self) == *old(self),
            r == Err::<(), ErrorCode>(ErrorCode::Fail),
    {
        Err(ErrorCode::Fail)
    }

    /// Draws one 32-bit word from the sampling buffer. The buffer is never
    /// filled, so no word is ever available.
    pub fn get_trng_rand32(&self) -> (r: Option<u32>)
        ensures
            r is None,
    {
        None
    }
}

} // verus!
