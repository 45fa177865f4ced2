//! The calculator: checked arithmetic with a history of what succeeded.

use vstd::prelude::*;
use vstd::string::*;
use crate::operation::{all_replayable, fits_i64, Operation, OperationType};
use crate::render::{
    format_line, history_text, history_text_of_push, line_count,
    replayable_history_has_a_line_for_each,
};

verus! {

/// A calculator that remembers, in order, every operation it carried out.
pub struct Calculator {
    pub history: Vec<Operation>,
}

impl View for Calculator {
    type V = Seq<Operation>;

    /// A calculator is its history, oldest operation first.
    open spec fn view(&self) -> Seq<Operation> {
        self.history@
    }
}

impl Calculator {
    /// Every recorded operation can be carried out again without overflow.
    /// A new calculator has this property and every method keeps it; only a
    /// write to `history` from outside can break it.
    pub open spec fn replayable(&self) -> bool {
        all_replayable(self@)
    }

    /// A calculator with an empty history.
    pub fn new() -> (calculator: Self)
        ensures
            calculator@ == Seq::<Operation>::empty(),
            calculator.replayable(),
    {
        Calculator { history: Vec::new() }
    }

    /// Adds `y` to `x`. On success the operation is recorded and the sum
    /// returned; on overflow nothing is recorded and nothing returned.
    pub fn addition(&mut self, x: i64, y: i64) -> (r: Option<i64>)
        ensures
            fits_i64(x + y) ==> r == Some((x + y) as i64) && final(self)@ == old(self)@.push(
                (Operation { first_num: x, second_num: y, operation_type: OperationType::Addition }),
            ),
            !fits_i64(x + y) ==> r is None && final(self)@ == old(self)@,
            old(self).replayable() ==> final(self).replayable(),
    {
        let operation_type = OperationType::Addition;
        match operation_type.perform(x, y) {
            Some(result) => {
                let op = Operation::new(x, y, operation_type);
                self.history.push(op);
                Some(result)
            },
            None => None,
        }
    }

    /// Subtracts `y` from `x`. On success the operation is recorded and the
    /// difference returned; on overflow nothing is recorded and nothing
    /// returned.
    pub fn subtraction(&mut self, x: i64, y: i64) -> (r: Option<i64>)
        ensures
            fits_i64(x - y) ==> r == Some((x - y) as i64) && final(self)@ == old(self)@.push(
                (Operation {
                    first_num: x,
                    second_num: y,
                    operation_type: OperationType::Subtraction,
                }),
            ),
            !fits_i64(x - y) ==> r is None && final(self)@ == old(self)@,
            old(self).replayable() ==> final(self).replayable(),
    {
        let operation_type = OperationType::Subtraction;
        match operation_type.perform(x, y) {
            Some(result) => {
                let op = Operation::new(x, y, operation_type);
                self.history.push(op);
                Some(result)
            },
            None => None,
        }
    }

    /// Multiplies `x` by `y`. On success the operation is recorded and the
    /// product returned; on overflow nothing is recorded and nothing returned.
    pub fn multiplication(&mut self, x: i64, y: i64) -> (r: Option<i64>)
        ensures
            fits_i64(x * y) ==> r == Some((x * y) as i64) && final(self)@ == old(self)@.push(
                (Operation {
                    first_num: x,
                    second_num: y,
                    operation_type: OperationType::Multiplication,
                }),
            ),
            !fits_i64(x * y) ==> r is None && final(self)@ == old(self)@,
            old(self).replayable() ==> final(self).replayable(),
    {
        let operation_type = OperationType::Multiplication;
        match operation_type.perform(x, y) {
            Some(result) => {
                let op = Operation::new(x, y, operation_type);
                self.history.push(op);
                Some(result)
            },
            None => None,
        }
    }

    /// Renders the history, one line per operation in the order recorded. An
    /// operation that overflows when applied again contributes no line; in a
    /// replayable history there is none, so every operation has its line.
    pub fn show_history(&self) -> (text: String)
        ensures
            text@ == history_text(self@),
            self.replayable() ==> line_count(text@) == self@.len(),
    {
        let mut history_string = String::new();
        let mut i: usize = 0;
        while i < self.history.len()
            invariant
                i <= self.history.len(),
                history_string@ == history_text(self@.take(i as int)),
            decreases self.history.len() - i,
        {
            let operation = &self.history[i];
            proof {
                assert(self@.take(i + 1) == self@.take(i as int).push(*operation));
                history_text_of_push(self@.take(i as int), *operation);
            }
            if let Some(result) = operation.operation_type.perform(
                operation.first_num,
                operation.second_num,
            ) {
                let line = format_line(i, operation, result);
                history_string.append(line.as_str());
            }
            i += 1;
        }
        proof {
            assert(self@.take(i as int) == self@);
            if self.replayable() {
                replayable_history_has_a_line_for_each(self@);
            }
        }
        history_string
    }

    /// Carries out again the operation at `operation_index`. If there is one
    /// and it does not overflow, a copy of it is recorded at the end of the
    /// history and its result returned. Otherwise nothing changes and
    /// nothing is returned, whichever of the two was the reason.
    pub fn repeat(&mut self, operation_index: usize) -> (r: Option<i64>)
        ensures
            operation_index >= old(self)@.len() ==> r is None,
            operation_index < old(self)@.len() ==> r == old(self)@[operation_index as int].result(),
            r is Some ==> final(self)@ == old(self)@.push(old(self)@[operation_index as int]),
            r is None ==> final(self)@ == old(self)@,
            old(self).replayable() ==> final(self).replayable() && (r is Some
                <==> operation_index < old(self)@.len()),
    {
        if operation_index < self.history.len() {
            let operation = self.history[operation_index];
            match operation.operation_type.perform(operation.first_num, operation.second_num) {
                Some(result) => {
                    self.history.push(operation);
                    Some(result)
                },
                None => None,
            }
        } else {
            None
        }
    }

    /// Forgets every recorded operation.
    pub fn clear_history(&mut self)
        ensures
            final(self)@ == Seq::<Operation>::empty(),
            final(self).replayable(),
    {
        self.history.clear();
    }
}

/// Showing the history right after clearing it gives the empty string,
/// whatever was recorded before: a calculator without history has no text.
pub proof fn cleared_history_shows_nothing(cleared: Calculator)
    requires
        cleared@ == Seq::<Operation>::empty(),
    ensures
        history_text(cleared@) == Seq::<char>::empty(),
{
}

/// Showing the history again without a change in between gives the same
/// text: what is shown depends on the recorded operations and nothing else.
pub proof fn unchanged_history_shows_the_same(earlier: Calculator, later: Calculator)
    requires
        later@ == earlier@,
    ensures
        history_text(later@) == history_text(earlier@),
{
}

} // verus!
