//! Helpers for types whose comparison is split into a "local" part (data stored inside the
//! value itself) and a "non-local" part (data reached through pointers), so that the cheaper,
//! cache-friendly part can be compared first.

pub mod locality;
pub mod forwarding;

pub use locality::{
    debug_fail_unreachable_for_local, debug_fail_unreachable_for_non_local, Locality,
};
pub use forwarding::always_equal_ref;
