use calculator::render::format_line;
use calculator::{Calculator, Operation, OperationType};

#[test]
fn new_calculator_has_no_history() {
    let calc = Calculator::new();
    assert!(calc.history.is_empty());
    assert_eq!(calc.show_history(), "");
}

#[test]
fn addition_is_shown_as_one_line() {
    let mut calc = Calculator::new();
    assert_eq!(calc.addition(5, 3), Some(8));
    assert_eq!(calc.show_history(), "0: 5 + 3 = 8\n");
}

#[test]
fn lines_come_in_the_order_recorded() {
    let mut calc = Calculator::new();
    assert_eq!(calc.subtraction(10, 20), Some(-10));
    assert_eq!(calc.multiplication(2, 3), Some(6));
    assert_eq!(calc.show_history(), "0: 10 - 20 = -10\n1: 2 * 3 = 6\n");
}

#[test]
fn failed_multiplication_is_not_shown() {
    let mut calc = Calculator::new();
    assert_eq!(calc.addition(1, 2), Some(3));
    assert_eq!(calc.multiplication(i64::MAX, 2), None);
    assert_eq!(calc.history.len(), 1);
    assert_eq!(calc.show_history(), "0: 1 + 2 = 3\n");
}

#[test]
fn repeat_appends_a_copy_of_the_entry() {
    let mut calc = Calculator::new();
    assert_eq!(calc.addition(1, 1), Some(2));
    assert_eq!(calc.subtraction(5, 2), Some(3));
    assert_eq!(calc.repeat(0), Some(2));
    assert_eq!(calc.history.len(), 3);
    assert_eq!(calc.history[2], calc.history[0]);
    assert_eq!(calc.history[2], Operation::new(1, 1, OperationType::Addition));
    assert_eq!(calc.show_history(), "0: 1 + 1 = 2\n1: 5 - 2 = 3\n2: 1 + 1 = 2\n");
}

#[test]
fn repeat_keeps_the_earlier_entries_in_place() {
    let mut calc = Calculator::new();
    assert_eq!(calc.multiplication(6, 7), Some(42));
    assert_eq!(calc.subtraction(0, 9), Some(-9));
    assert_eq!(calc.repeat(1), Some(-9));
    assert_eq!(calc.repeat(2), Some(-9));
    assert_eq!(calc.repeat(0), Some(42));
    assert_eq!(
        calc.history,
        vec![
            Operation::new(6, 7, OperationType::Multiplication),
            Operation::new(0, 9, OperationType::Subtraction),
            Operation::new(0, 9, OperationType::Subtraction),
            Operation::new(0, 9, OperationType::Subtraction),
            Operation::new(6, 7, OperationType::Multiplication),
        ]
    );
}

#[test]
fn repeat_on_a_new_calculator_gives_nothing() {
    let mut calc = Calculator::new();
    assert_eq!(calc.repeat(0), None);
    assert!(calc.history.is_empty());
}

#[test]
fn repeat_past_the_end_gives_nothing() {
    let mut calc = Calculator::new();
    assert_eq!(calc.addition(1, 1), Some(2));
    assert_eq!(calc.addition(2, 2), Some(4));
    let before = calc.history.clone();
    assert_eq!(calc.repeat(2), None);
    assert_eq!(calc.repeat(3), None);
    assert_eq!(calc.repeat(usize::MAX), None);
    assert_eq!(calc.history, before);
    assert_eq!(calc.show_history(), "0: 1 + 1 = 2\n1: 2 + 2 = 4\n");
}

#[test]
fn repeat_of_an_overflowing_entry_gives_nothing() {
    let mut calc = Calculator::new();
    assert_eq!(calc.addition(1, 1), Some(2));
    calc.history.push(Operation::new(i64::MAX, 1, OperationType::Addition));
    let before = calc.history.clone();
    assert_eq!(calc.repeat(1), None);
    assert_eq!(calc.history, before);
    assert_eq!(calc.repeat(0), Some(2));
    assert_eq!(calc.history.len(), 3);
}

#[test]
fn overflowing_entry_is_left_out_of_the_text() {
    let mut calc = Calculator::new();
    assert_eq!(calc.addition(1, 1), Some(2));
    calc.history.push(Operation::new(i64::MIN, -1, OperationType::Multiplication));
    assert_eq!(calc.subtraction(4, 6), Some(-2));
    assert_eq!(calc.history.len(), 3);
    assert_eq!(calc.show_history(), "0: 1 + 1 = 2\n2: 4 - 6 = -2\n");
}

#[test]
fn history_of_overflowing_entries_alone_has_no_text() {
    let mut calc = Calculator::new();
    calc.history.push(Operation::new(i64::MAX, i64::MAX, OperationType::Addition));
    calc.history.push(Operation::new(i64::MIN, 1, OperationType::Subtraction));
    assert_eq!(calc.show_history(), "");
}

#[test]
fn clearing_empties_the_history() {
    let mut calc = Calculator::new();
    assert_eq!(calc.addition(1, 2), Some(3));
    assert_eq!(calc.multiplication(3, 4), Some(12));
    calc.clear_history();
    assert!(calc.history.is_empty());
    assert_eq!(calc.show_history(), "");
}

#[test]
fn clearing_an_empty_history_is_harmless() {
    let mut calc = Calculator::new();
    calc.clear_history();
    calc.clear_history();
    assert!(calc.history.is_empty());
    assert_eq!(calc.show_history(), "");
}

#[test]
fn numbering_starts_again_after_clearing() {
    let mut calc = Calculator::new();
    assert_eq!(calc.addition(1, 2), Some(3));
    assert_eq!(calc.addition(3, 4), Some(7));
    calc.clear_history();
    assert_eq!(calc.repeat(0), None);
    assert_eq!(calc.subtraction(9, 4), Some(5));
    assert_eq!(calc.show_history(), "0: 9 - 4 = 5\n");
}

#[test]
fn showing_twice_gives_the_same_text() {
    let mut calc = Calculator::new();
    assert_eq!(calc.addition(12, 30), Some(42));
    assert_eq!(calc.multiplication(-2, 8), Some(-16));
    let first = calc.show_history();
    let second = calc.show_history();
    assert_eq!(first, second);
    assert_eq!(first, "0: 12 + 30 = 42\n1: -2 * 8 = -16\n");
    assert_eq!(calc.history.len(), 2);
}

#[test]
fn extreme_operands_are_shown_in_full() {
    let mut calc = Calculator::new();
    assert_eq!(calc.addition(i64::MIN, 0), Some(i64::MIN));
    assert_eq!(calc.subtraction(i64::MAX, 0), Some(i64::MAX));
    assert_eq!(calc.multiplication(i64::MIN + 1, -1), Some(i64::MAX));
    assert_eq!(
        calc.show_history(),
        "0: -9223372036854775808 + 0 = -9223372036854775808\n\
         1: 9223372036854775807 - 0 = 9223372036854775807\n\
         2: -9223372036854775807 * -1 = 9223372036854775807\n"
    );
}

#[test]
fn positions_past_nine_are_shown_in_decimal() {
    let mut calc = Calculator::new();
    let mut expected = String::new();
    for i in 0..120i64 {
        assert_eq!(calc.addition(i, 1), Some(i + 1));
        expected.push_str(&format!("{}: {} + 1 = {}\n", i, i, i + 1));
    }
    let text = calc.show_history();
    assert_eq!(text, expected);
    assert_eq!(text.lines().count(), 120);
    assert_eq!(text.lines().nth(10), Some("10: 10 + 1 = 11"));
    assert_eq!(text.lines().nth(119), Some("119: 119 + 1 = 120"));
}

#[test]
fn text_agrees_with_standard_formatting() {
    let mut calc = Calculator::new();
    let samples: [i64; 7] = [i64::MIN, -1000000007, -1, 0, 9, 1234567890123, i64::MAX];
    let mut expected = String::new();
    let mut position = 0;
    for &x in samples.iter() {
        for &y in samples.iter() {
            if let Some(sum) = calc.addition(x, y) {
                expected.push_str(&format!("{}: {} + {} = {}\n", position, x, y, sum));
                position += 1;
            }
            if let Some(difference) = calc.subtraction(x, y) {
                expected.push_str(&format!("{}: {} - {} = {}\n", position, x, y, difference));
                position += 1;
            }
            if let Some(product) = calc.multiplication(x, y) {
                expected.push_str(&format!("{}: {} * {} = {}\n", position, x, y, product));
                position += 1;
            }
        }
    }
    assert_eq!(calc.history.len(), position);
    assert_eq!(calc.show_history(), expected);
}

#[test]
fn format_line_lays_out_one_entry() {
    let op = Operation::new(10, 20, OperationType::Subtraction);
    assert_eq!(format_line(0, &op, -10), "0: 10 - 20 = -10\n");
    let op = Operation::new(-3, -4, OperationType::Multiplication);
    assert_eq!(format_line(57, &op, 12), "57: -3 * -4 = 12\n");
    let op = Operation::new(0, 0, OperationType::Addition);
    assert_eq!(format_line(1000, &op, 0), "1000: 0 + 0 = 0\n");
}
