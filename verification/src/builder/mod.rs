//! Builders of packets and data units, and the builder interfaces.
pub mod data_unit;
pub mod packet;

use crate::error::EncodeResult;
use vstd::prelude::*;

pub use data_unit::{
    AnalogValueBuilder, ComponentStatusBuilder, ConfigInfoBuilder, DataUnitBuilder,
    OperationInfoBuilder, SystemStatusBuilder, TimeInfoBuilder, VersionInfoBuilder,
};
pub use packet::PacketBuilder;

verus! {

/// A builder of values of type `T`.
pub trait Builder<T> {
    /// Whether `r` is the outcome of building from this builder; a builder
    /// that says nothing of its outcome allows any.
    open spec fn builds(&self, r: EncodeResult<T>) -> bool {
        true
    }

    /// Builds the value.
    fn build(self) -> (r: EncodeResult<T>)
        ensures
            self.builds(r),
    ;

    /// Checks the parameters; by default they always pass.
    fn validate(&self) -> (r: EncodeResult<()>)
        default_ensures
            r is Ok,
    {
        Ok(())
    }
}

/// A builder that can be put back into its initial state.
pub trait ResettableBuilder<T>: Builder<T> + Clone {
    /// Whether the builder is in its initial state; a builder that says
    /// nothing of its states allows any.
    open spec fn is_initial(&self) -> bool {
        true
    }

    /// Puts the builder back into its initial state.
    fn reset(&mut self)
        ensures
            final(self).is_initial(),
    ;

    /// Builds from a copy of the builder, and resets the builder when that
    /// succeeds; on failure the builder stays as it was.
    fn build_and_reset(&mut self) -> (r: EncodeResult<T>)
        ensures
            exists|c: Self| #[trigger] cloned(*old(self), c) && c.builds(r),
            r is Ok ==> final(self).is_initial(),
            r is Err ==> *final(self) == *old(self),
    {
        let copy = self.clone();
        proof {
            assert(cloned(*self, copy));
        }
        let ghost built = copy;
        let result = copy.build();
        assert(cloned(*old(self), built) && built.builds(result));
        if result.is_ok() {
            self.reset();
        }
        result
    }
}

} // verus!
