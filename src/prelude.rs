//! What the early-return and loop-control helpers need, in one import:
//! `ValRet` with its variants, `Looping`, and the `Judge` and `Return` traits (unnamed).
pub use crate::Looping;
pub use crate::ValRet::{self, Ret, Val};

pub use crate::Judge as _;
pub use crate::Return as _;
