use gungnir_app::journal::{sessions_oldest_first, SessionRead};
use gungnir_app::text::{concat3, decimal_string, trim};

#[test]
fn trimming_strips_unicode_white_space_at_both_ends() {
    assert_eq!(trim("  a b \t\n"), "a b");
    assert_eq!(trim("\u{3000}x\u{a0}"), "x");
    assert_eq!(trim(" \t "), "");
    assert_eq!(trim("x"), "x");
}

#[test]
fn counts_are_written_in_decimal() {
    assert_eq!(decimal_string(0), "0");
    assert_eq!(decimal_string(1234567890), "1234567890");
    assert_eq!(concat3("a", "b", "c"), "abc");
}

#[test]
fn sessions_are_read_oldest_first_keeping_ties_in_order() {
    let sorted = sessions_oldest_first(vec![
        SessionRead { session: 5, events: Ok(vec!['a']) },
        SessionRead { session: 2, events: Ok(vec!['b']) },
        SessionRead { session: 5, events: Err("late".into()) },
    ]);
    let order: Vec<u64> = sorted.iter().map(|s| s.session).collect();
    assert_eq!(order, vec![2, 5, 5]);
    assert!(sorted[1].events.is_ok(), "ties keep the order they were given");
}
