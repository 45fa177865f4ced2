//! The arithmetic operations the calculator knows, and the record kept of each
//! one that was carried out.

use vstd::prelude::*;

verus! {

/// The closed set of arithmetic operations.
#[derive(Clone, Copy, Debug, PartialEq, Eq, Structural)]
pub enum OperationType {
    Addition,
    Subtraction,
    Multiplication,
}

/// Whether `v` can be held in a signed 64-bit integer.
pub open spec fn fits_i64(v: int) -> bool {
    i64::MIN <= v <= i64::MAX
}

impl OperationType {
    /// The symbol under which the operation is displayed.
    pub open spec fn sign(self) -> Seq<char> {
        match self {
            OperationType::Addition => seq!['+'],
            OperationType::Subtraction => seq!['-'],
            OperationType::Multiplication => seq!['*'],
        }
    }

    /// The true result of the operation over the unbounded integers.
    pub open spec fn exact(self, x: int, y: int) -> int {
        match self {
            OperationType::Addition => x + y,
            OperationType::Subtraction => x - y,
            OperationType::Multiplication => x * y,
        }
    }

    /// The result of the operation on 64-bit operands: the exact result where
    /// it fits in 64 bits, and nothing where it does not.
    pub open spec fn checked(self, x: i64, y: i64) -> Option<i64> {
        let v = self.exact(x as int, y as int);
        if fits_i64(v) {
            Some(v as i64)
        } else {
            None
        }
    }

    /// Returns the display symbol: `"+"`, `"-"` or `"*"`.
    pub fn get_sign(&self) -> (s: &str)
        ensures
            s@ == self.sign(),
    {
        proof {
            reveal_strlit("+");
            reveal_strlit("-");
            reveal_strlit("*");
        }
        match self {
            OperationType::Addition => "+",
            OperationType::Subtraction => "-",
            OperationType::Multiplication => "*",
        }
    }

    /// Applies the operation to `x` and `y`. Overflow in either direction
    /// yields `None`; the operation never wraps.
    pub fn perform(&self, x: i64, y: i64) -> (r: Option<i64>)
        ensures
            r == self.checked(x, y),
    {
        match self {
            OperationType::Addition => x.checked_add(y),
            OperationType::Subtraction => x.checked_sub(y),
            OperationType::Multiplication => x.checked_mul(y),
        }
    }
}

/// Two operands and the operation that joins them. The result is not stored:
/// it is recomputed from the operands whenever it is needed.
#[derive(Clone, Copy, Debug, PartialEq, Eq, Structural)]
pub struct Operation {
    pub first_num: i64,
    pub second_num: i64,
    pub operation_type: OperationType,
}

impl Operation {
    /// What applying the stored operation to the stored operands gives.
    pub open spec fn result(self) -> Option<i64> {
        self.operation_type.checked(self.first_num, self.second_num)
    }

    /// Whether the operation can be carried out without overflow.
    pub open spec fn replayable(self) -> bool {
        self.result() is Some
    }

    /// Stores the three fields as given. Nothing is validated here.
    pub fn new(first_num: i64, second_num: i64, operation_type: OperationType) -> (op: Self)
        ensures
            op.first_num == first_num,
            op.second_num == second_num,
            op.operation_type == operation_type,
    {
        Operation { first_num, second_num, operation_type }
    }
}

/// Whether every operation of `history` can be carried out without overflow.
pub open spec fn all_replayable(history: Seq<Operation>) -> bool {
    forall|i: int| 0 <= i < history.len() ==> (#[trigger] history[i]).replayable()
}

} // verus!
