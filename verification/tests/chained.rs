use std::cell::Cell;

use all_or_none::Apply;
use all_or_none::Chain;
use all_or_none::ChainFailure;
use all_or_none::Prepared;
use all_or_none::Slot;

type Res = Result<(u64, u64), &'static str>;

#[test]
fn chain_both_succeed_composes_outputs() {
    let first = Prepared::new(Slot::new(5u64), |x: u64| -> Res { Ok((x + 1, x + 1)) });
    let second = Prepared::new(Slot::new(6u64), |x: u64| -> Res { Ok((2 * x, 2 * x)) });
    match first.chain(second).apply() {
        Ok(((out_a, consumed_a), (out_b, consumed_b))) => {
            assert_eq!(out_a, 6);
            assert_eq!(*consumed_a.peek(), 6);
            assert_eq!(out_b, 12);
            assert_eq!(*consumed_b.peek(), 12);
        }
        Err(_) => panic!("a chain of two always-succeeding transforms must commit"),
    }
}

#[test]
fn chain_first_failure_skips_second() {
    let calls = Cell::new(0u32);
    let first = Prepared::new(Slot::new(5u64), |_x: u64| -> Res { Err("reason") });
    let second = Prepared::<Slot<u64>, u64, _, u64, &'static str>::new(
        Slot::new(6u64),
        |x: u64| -> Res {
            calls.set(calls.get() + 1);
            Ok((2 * x, 2 * x))
        },
    );
    match first.chain(second).apply() {
        Err(ChainFailure::First((e, token), recovered)) => {
            assert_eq!(e, "reason");
            assert_eq!(*token.peek(), 5);
            assert_eq!(calls.get(), 0);
            // the second unit comes back whole and stays usable on its own
            match recovered.apply() {
                Ok((out_b, consumed_b)) => {
                    assert_eq!(out_b, 12);
                    assert_eq!(*consumed_b.peek(), 12);
                    assert_eq!(calls.get(), 1);
                }
                Err(_) => panic!("the recovered second unit must still commit"),
            }
        }
        _ => panic!("a chain whose first transform fails must report that failure"),
    }
}

#[test]
fn chain_second_failure_keeps_first_durable() {
    let first = Prepared::new(Slot::new(5u64), |x: u64| -> Res { Ok((x + 1, x + 1)) });
    let second = Prepared::new(Slot::new(6u64), |_x: u64| -> Res { Err("late") });
    match first.chain(second).apply() {
        Err(ChainFailure::Second((out_a, consumed_a), (e, token_b))) => {
            assert_eq!(out_a, 6);
            assert_eq!(*consumed_a.peek(), 6);
            assert_eq!(e, "late");
            assert_eq!(*token_b.peek(), 6);
        }
        _ => panic!("a chain whose second transform fails must report that failure"),
    }
}

#[test]
fn nested_chain_commits_all_three() {
    let first = Prepared::new(Slot::new(1u64), |x: u64| -> Res { Ok((x + 1, x + 1)) });
    let second = Prepared::new(Slot::new(2u64), |x: u64| -> Res { Ok((x + 2, x + 2)) });
    let third = Prepared::new(Slot::new(3u64), |x: u64| -> Res { Ok((x + 3, x + 3)) });
    let nested = Chain::new(first.chain(second), third);
    match Apply::apply(nested) {
        Ok((((out_a, consumed_a), (out_b, consumed_b)), (out_c, consumed_c))) => {
            assert_eq!(out_a, 2);
            assert_eq!(*consumed_a.peek(), 2);
            assert_eq!(out_b, 4);
            assert_eq!(*consumed_b.peek(), 4);
            assert_eq!(out_c, 6);
            assert_eq!(*consumed_c.peek(), 6);
        }
        Err(_) => panic!("a nested chain of succeeding transforms must commit"),
    }
}
