//! Loop-control signals, and how a signal is matched against the loops it may act on.
use vstd::prelude::*;

verus! {

/// Message when breaking with a value from a loop that cannot take one
pub const BREAKVAL_IN_NOT_LOOP: &'static str = "\
	error[E0571]: `break` with value is invalid in a `for` or `while` loop. \
	Use Break instead of BreakVal in `twist!` expression \
	or use `twist!` with the `-val` flag.";

/// Message when breaking without a value from a loop that must break with one
pub const BREAK_WITHOUT_VAL: &'static str = "\
	error[E0308]: mismatched types. \
	Breaking without a value when using `twist -val`. \
	Use BreakVal instead of Break, or use `twist!` without `-val`";

/// Message when breaking with a value of another type than the loop's
pub const BAD_BREAKVAL_TYPE: &'static str = "\
	error[E0308]: mismatched types. \
	Looping::BreakVal has a value type different from the loop it's breaking from. \
	Check you're breaking from the right loop, or use Break instead of BreakVal.";

/// A type with no value (its one field has none), used as the break-value type of a `Looping`
/// that must not break with a value: breaking with one then fails to compile, and the
/// compiler's message names this type.
#[allow(non_camel_case_types)]
pub struct Error0571__Tried_to_break_with_value_using_twist_without_val_flag__Use_Break_instead_of_BreakVal_or_add_the_dash_val_flag_to_twist(core::convert::Infallible);

/// Short name for the type above.
pub type BreakValError = Error0571__Tried_to_break_with_value_using_twist_without_val_flag__Use_Break_instead_of_BreakVal_or_add_the_dash_val_flag_to_twist;

/// Loop control signals: `break`, `break $value` and `continue` as values.
#[derive(PartialEq, Debug, Clone)]
pub enum Looping<T, B> {
    /// Resume loop execution with value of type T
    Resume(T),
    /// Break a loop selected by `label`
    Break {
        /// The index of the label of the loop to break from. `None` means innermost loop
        label: Option<usize>,
    },
    /// Break a loop selected by `label` with a value of `value`
    BreakVal {
        /// The index of the label of the loop to break from. `None` means innermost loop
        label: Option<usize>,
        /// The value to break with
        value: B,
    },
    /// Skip to the next iteration of the loop selected by `label`
    Continue {
        /// The index of the label of the loop to continue from. `None` means innermost loop
        label: Option<usize>,
    },
}

/// Message when a `Looping::Break` names no loop that breaks without a value
pub const INVALID_BREAK_LABEL: &'static str = "Invalid label index in Looping::Break object.";

/// Message when a `Looping::Continue` names no loop
pub const INVALID_CONTINUE_LABEL: &'static str = "Invalid label index in Looping::Continue object.";

/// Message when a `Looping::BreakVal` names no loop that breaks with a value
pub const INVALID_BREAKVAL_LABEL: &'static str = "Invalid label index in Looping::BreakVal object.";

/// How a loop is left by `break`: without a value (`for`, `while`, or a `loop` whose value is
/// not used), or with one (a `loop` used as an expression).
#[derive(PartialEq, Eq, Debug, Clone, Copy, Structural)]
pub enum BreakKind {
    /// `break`
    Plain,
    /// `break value`
    Value,
}

/// Why a `Looping` signal cannot be carried out by the loops it is aimed at.
#[derive(PartialEq, Eq, Debug, Clone, Copy, Structural)]
pub enum TwistError {
    /// A `Break` names no labelled loop that breaks without a value
    InvalidBreakLabel,
    /// A `Continue` names no labelled loop
    InvalidContinueLabel,
    /// A `BreakVal` names no labelled loop that breaks with a value
    InvalidBreakValLabel,
    /// A `BreakVal` is aimed at a loop that breaks without a value
    BreakValInNotLoop,
    /// A `Break` is aimed at a loop that must break with a value
    BreakWithoutVal,
}

impl TwistError {
    /// The message to fail with.
    pub fn message(&self) -> (r: &'static str)
        ensures
            r == (match *self {
                TwistError::InvalidBreakLabel => INVALID_BREAK_LABEL,
                TwistError::InvalidContinueLabel => INVALID_CONTINUE_LABEL,
                TwistError::InvalidBreakValLabel => INVALID_BREAKVAL_LABEL,
                TwistError::BreakValInNotLoop => BREAKVAL_IN_NOT_LOOP,
                TwistError::BreakWithoutVal => BREAK_WITHOUT_VAL,
            }),
    {
        match *self {
            TwistError::InvalidBreakLabel => INVALID_BREAK_LABEL,
            TwistError::InvalidContinueLabel => INVALID_CONTINUE_LABEL,
            TwistError::InvalidBreakValLabel => INVALID_BREAKVAL_LABEL,
            TwistError::BreakValInNotLoop => BREAKVAL_IN_NOT_LOOP,
            TwistError::BreakWithoutVal => BREAK_WITHOUT_VAL,
        }
    }
}

impl<T, B> Looping<T, B> {
    /// Whether this signal can act on a single loop, broken as `target` says. Label indices are
    /// not looked at: every `Break`, `BreakVal` and `Continue` is aimed at that loop.
    pub open spec fn single_outcome(self, target: BreakKind) -> Result<(), TwistError> {
        match self {
            Looping::Break { .. } => if target == BreakKind::Value {
                Err(TwistError::BreakWithoutVal)
            } else {
                Ok(())
            },
            Looping::BreakVal { .. } => if target == BreakKind::Plain {
                Err(TwistError::BreakValInNotLoop)
            } else {
                Ok(())
            },
            _ => Ok(()),
        }
    }

    /// Whether this signal can act on the innermost loop, broken as `innermost` says, or on the
    /// labelled loops, where label index `i` names the loop broken as `labels[i]`.
    pub open spec fn labels_outcome(self, innermost: BreakKind, labels: Seq<BreakKind>) -> Result<
        (),
        TwistError,
    > {
        match self {
            Looping::Resume(_) => Ok(()),
            Looping::Break { label: None } => if innermost == BreakKind::Value {
                Err(TwistError::BreakWithoutVal)
            } else {
                Ok(())
            },
            Looping::Break { label: Some(l) } => if l < labels.len() && labels[l as int]
                == BreakKind::Plain {
                Ok(())
            } else {
                Err(TwistError::InvalidBreakLabel)
            },
            Looping::Continue { label: None } => Ok(()),
            Looping::Continue { label: Some(l) } => if l < labels.len() {
                Ok(())
            } else {
                Err(TwistError::InvalidContinueLabel)
            },
            Looping::BreakVal { label: None, .. } => if innermost == BreakKind::Plain {
                Err(TwistError::BreakValInNotLoop)
            } else {
                Ok(())
            },
            Looping::BreakVal { label: Some(l), .. } => if l < labels.len() && labels[l as int]
                == BreakKind::Value {
                Ok(())
            } else {
                Err(TwistError::InvalidBreakValLabel)
            },
        }
    }

    /// Checks this signal against a single loop, broken as `target` says (label indices are not
    /// looked at). On `Ok`, `Resume` gives its value, and `Break`, `BreakVal` and `Continue` act
    /// on that loop.
    pub fn check_single(&self, target: BreakKind) -> (r: Result<(), TwistError>)
        ensures
            r == self.single_outcome(target),
    {
        match self {
            Looping::Break { .. } => if target == BreakKind::Value {
                Err(TwistError::BreakWithoutVal)
            } else {
                Ok(())
            },
            Looping::BreakVal { .. } => if target == BreakKind::Plain {
                Err(TwistError::BreakValInNotLoop)
            } else {
                Ok(())
            },
            _ => Ok(()),
        }
    }

    /// Checks this signal against the innermost loop, broken as `innermost` says, and the
    /// labelled loops, where label index `i` names the loop broken as `labels[i]`. On `Ok`, a
    /// signal without a label acts on the innermost loop, and one with label `i` on loop `i`.
    pub fn check_labels(&self, innermost: BreakKind, labels: &[BreakKind]) -> (r: Result<
        (),
        TwistError,
    >)
        ensures
            r == self.labels_outcome(innermost, labels@),
    {
        match self {
            Looping::Resume(_) => Ok(()),
            Looping::Break { label: None } => if innermost == BreakKind::Value {
                Err(TwistError::BreakWithoutVal)
            } else {
                Ok(())
            },
            Looping::Break { label: Some(l) } => if *l < labels.len() && labels[*l]
                == BreakKind::Plain {
                Ok(())
            } else {
                Err(TwistError::InvalidBreakLabel)
            },
            Looping::Continue { label: None } => Ok(()),
            Looping::Continue { label: Some(l) } => if *l < labels.len() {
                Ok(())
            } else {
                Err(TwistError::InvalidContinueLabel)
            },
            Looping::BreakVal { label: None, .. } => if innermost == BreakKind::Plain {
                Err(TwistError::BreakValInNotLoop)
            } else {
                Ok(())
            },
            Looping::BreakVal { label: Some(l), .. } => if *l < labels.len() && labels[*l]
                == BreakKind::Value {
                Ok(())
            } else {
                Err(TwistError::InvalidBreakValLabel)
            },
        }
    }
}

} // verus!
