use vstd::prelude::*;
use crate::errors::AgioError;
use crate::state::{AccountId, Config};

verus! {

/// The accounts a configuration request names, read into plain values: the
/// configuration record and the signer of the request.
#[derive(Clone, Copy, Debug, PartialEq, Eq, Structural)]
pub struct Configure {
    pub config: Config,
    pub caller: AccountId,
}

impl Configure {
    /// The configuration write as a function of the request context: gated
    /// on the signer matching the stored authority, it replaces the record
    /// wholesale.
    pub open spec fn outcome(self, new_config: Config) -> Result<Configure, AgioError> {
        if self.caller != self.config.authority {
            Err(AgioError::IncorrectAuthority)
        } else {
            Ok(Configure { config: new_config, caller: self.caller })
        }
    }

    /// Applies the configuration write. Only the stored authority may write;
    /// on a mismatch nothing changes.
    pub fn process(&mut self, new_config: Config) -> (r: Result<(), AgioError>)
        ensures
            (match old(self).outcome(new_config) {
                Ok(c) => r is Ok && *final(self) == c,
                Err(e) => r == Err::<(), AgioError>(e) && *final(self) == *old(self),
            }),
    {
        if self.caller != self.config.authority {
            return Err(AgioError::IncorrectAuthority);
        }
        self.config = new_config;
        Ok(())
    }
}

/// Law: the configuration record is written only under the stored
/// authority's signature — any other signer fails with `IncorrectAuthority`
/// and the record stands.
pub proof fn lemma_configure_authority_gate(ctx: Configure, new_config: Config)
    requires
        ctx.caller != ctx.config.authority,
    ensures
        ctx.outcome(new_config) == Err::<Configure, AgioError>(AgioError::IncorrectAuthority),
{
}

} // verus!
