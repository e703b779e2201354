//! Everything in `prelude`, and also `Moral` with its variants, the `Judge` and `Return`
//! traits by name, `gut` and `Maru`.
pub use crate::prelude::{Looping, Ret, Val, ValRet};

pub use crate::Moral::{self, Bad, Good};
pub use crate::{Judge, Return};

pub use crate::gut;
pub use crate::Maru;
