//! What holds of evaluation and partial evaluation, for every rule, all
//! data and every kernel.

pub mod agreement;
pub mod equality;
pub mod purity;
pub mod shape;
pub mod soundness;
