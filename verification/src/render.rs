//! The text form of a history: one line per operation that can be carried out.

use vstd::prelude::*;
use vstd::string::*;
use crate::decimal::{append_signed, append_unsigned, signed_decimal, unsigned_decimal};
use crate::operation::{all_replayable, Operation};

verus! {

/// The line that shows `op` at position `index` with the given result:
/// `{index}: {first} {sign} {second} = {result}` and a newline.
pub open spec fn entry_text(index: nat, op: Operation, result: i64) -> Seq<char> {
    unsigned_decimal(index)
        + seq![':', ' ']
        + signed_decimal(op.first_num as int)
        + seq![' ']
        + op.operation_type.sign()
        + seq![' ']
        + signed_decimal(op.second_num as int)
        + seq![' ', '=', ' ']
        + signed_decimal(result as int)
        + seq!['\n']
}

/// What `op` contributes to the text of a history in which it stands at
/// position `index`: its line, or nothing at all if it overflows.
pub open spec fn line_text(index: nat, op: Operation) -> Seq<char> {
    match op.result() {
        Some(result) => entry_text(index, op, result),
        None => Seq::empty(),
    }
}

/// The text of a whole history: the lines of its operations in order, each
/// under its zero-based position.
pub open spec fn history_text(history: Seq<Operation>) -> Seq<char>
    decreases history.len(),
{
    if history.len() == 0 {
        Seq::empty()
    } else {
        history_text(history.drop_last())
            + line_text((history.len() - 1) as nat, history.last())
    }
}

/// How many lines `text` holds: the number of newline characters in it.
pub open spec fn line_count(text: Seq<char>) -> nat
    decreases text.len(),
{
    if text.len() == 0 {
        0
    } else if text.last() == '\n' {
        line_count(text.drop_last()) + 1
    } else {
        line_count(text.drop_last())
    }
}

/// Formats the line for `operation` at position `index`, given its result.
pub fn format_line(index: usize, operation: &Operation, result: i64) -> (line: String)
    ensures
        line@ == entry_text(index as nat, *operation, result),
{
    proof {
        reveal_strlit(": ");
        reveal_strlit(" ");
        reveal_strlit(" = ");
        reveal_strlit("\n");
    }
    let mut line = String::new();
    append_unsigned(&mut line, index as u64);
    line.append(": ");
    append_signed(&mut line, operation.first_num);
    line.append(" ");
    line.append(operation.operation_type.get_sign());
    line.append(" ");
    append_signed(&mut line, operation.second_num);
    line.append(" = ");
    append_signed(&mut line, result);
    line.append("\n");
    line
}

/// Recording one more operation leaves the text so far as it is and adds the
/// new operation's line, numbered by the length before, at the end.
pub proof fn history_text_of_push(history: Seq<Operation>, op: Operation)
    ensures
        history_text(history.push(op)) == history_text(history) + line_text(history.len(), op),
{
    assert(history.push(op).drop_last() == history);
}

/// Whether `text` holds no newline.
spec fn without_newline(text: Seq<char>) -> bool {
    forall|i: int| 0 <= i < text.len() ==> text[i] != '\n'
}

/// A text without a newline holds no line.
proof fn line_count_without_newline(text: Seq<char>)
    requires
        without_newline(text),
    ensures
        line_count(text) == 0,
    decreases text.len(),
{
    if text.len() > 0 {
        line_count_without_newline(text.drop_last());
    }
}

/// The lines of two texts joined are the lines of the one and of the other.
proof fn line_count_of_concat(a: Seq<char>, b: Seq<char>)
    ensures
        line_count(a + b) == line_count(a) + line_count(b),
    decreases b.len(),
{
    if b.len() == 0 {
        assert(a + b == a);
    } else {
        assert((a + b).drop_last() == a + b.drop_last());
        line_count_of_concat(a, b.drop_last());
    }
}

/// Digits hold no newline.
proof fn unsigned_decimal_without_newline(n: nat)
    ensures
        without_newline(unsigned_decimal(n)),
    decreases n,
{
    if n >= 10 {
        unsigned_decimal_without_newline(n / 10);
    }
}

/// Neither do digits under a sign.
proof fn signed_decimal_without_newline(v: int)
    ensures
        without_newline(signed_decimal(v)),
{
    if v < 0 {
        unsigned_decimal_without_newline((-v) as nat);
    } else {
        unsigned_decimal_without_newline(v as nat);
    }
}

/// The line of one entry is one line: its only newline is the one that ends
/// it.
pub proof fn entry_text_is_one_line(index: nat, op: Operation, result: i64)
    ensures
        line_count(entry_text(index, op, result)) == 1,
{
    let text = entry_text(index, op, result);
    assert(without_newline(text.drop_last())) by {
        unsigned_decimal_without_newline(index);
        signed_decimal_without_newline(op.first_num as int);
        signed_decimal_without_newline(op.second_num as int);
        signed_decimal_without_newline(result as int);
    }
    line_count_without_newline(text.drop_last());
}

/// Where every operation of a history can be carried out, its text holds
/// exactly one line for each of them: none is left out.
pub proof fn replayable_history_has_a_line_for_each(history: Seq<Operation>)
    requires
        all_replayable(history),
    ensures
        line_count(history_text(history)) == history.len(),
    decreases history.len(),
{
    if history.len() > 0 {
        let index = (history.len() - 1) as nat;
        let op = history.last();
        replayable_history_has_a_line_for_each(history.drop_last());
        assert(op.replayable());
        entry_text_is_one_line(index, op, op.result().unwrap());
        line_count_of_concat(history_text(history.drop_last()), line_text(index, op));
    }
}

} // verus!
