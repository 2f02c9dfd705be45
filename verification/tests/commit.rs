use std::cell::Cell;

use all_or_none::Prepared;
use all_or_none::Slot;
use all_or_none::Take;
use all_or_none::TakeOwned;
use all_or_none::Token;

type Res = Result<(u64, u64), &'static str>;

#[test]
fn commit_success_applies_mutation() {
    let slot = Slot::new(5u64);
    let unit = Prepared::new(slot, |x: u64| -> Res { Ok((x + 1, x + 1)) });
    match unit.apply() {
        Ok((out, consumed)) => {
            assert_eq!(out, 6);
            assert_eq!(*consumed.peek(), 6);
            assert_eq!(consumed.into_inner(), 6);
        }
        Err(_) => panic!("an always-succeeding transform must commit"),
    }
}

#[test]
fn commit_failure_keeps_original() {
    let slot = Slot::new(5u64);
    let unit = Prepared::new(slot, |_x: u64| -> Res { Err("reason") });
    match unit.apply() {
        Ok(_) => panic!("an always-failing transform must not commit"),
        Err((e, token)) => {
            assert_eq!(e, "reason");
            assert_eq!(*token.peek(), 5);
            assert_eq!(token.into_inner(), 5);
        }
    }
}

#[test]
fn cancel_never_runs_transform() {
    let calls = Cell::new(0u32);
    let slot = Slot::new(5u64);
    let unit = Prepared::<Slot<u64>, u64, _, u64, &'static str>::new(slot, |x: u64| -> Res {
        calls.set(calls.get() + 1);
        Ok((x + 1, x + 1))
    });
    let token = unit.cancel();
    assert_eq!(calls.get(), 0);
    assert_eq!(*token.peek(), 5);
}

#[test]
fn unchecked_cancel_returns_untouched_token() {
    let calls = Cell::new(0u32);
    let slot = Slot::new(41u64);
    let unit = Prepared::<Slot<u64>, u64, _, u64, &'static str>::new(slot, |x: u64| -> Res {
        calls.set(calls.get() + 1);
        Ok((x, x))
    });
    let token = unit.unchecked_cancel();
    assert_eq!(calls.get(), 0);
    assert_eq!(token.into_inner(), 41);
}

#[test]
fn snapshot_leaves_original_untouched() {
    let slot = Slot::new(5u64);
    let unit = Prepared::<Slot<u64>, u64, _, u64, &'static str>::new(slot, |x: u64| -> Res {
        Ok((x, x))
    });
    let scratch = unit.get_next();
    assert_eq!(scratch, 5);
    let token = unit.cancel();
    assert_eq!(*token.peek(), 5);
}

#[test]
fn modify_next_runs_transform_on_scratch() {
    let add_one = |x: u64| -> Res { Ok((x + 1, x + 1)) };
    let r = Prepared::<Slot<u64>, u64, _, u64, &'static str>::modify_next(5, &add_one);
    assert_eq!(r, Ok((6, 6)));
    let fail = |_x: u64| -> Res { Err("no") };
    let r = Prepared::<Slot<u64>, u64, _, u64, &'static str>::modify_next(5, &fail);
    assert_eq!(r, Err("no"));
}

#[test]
fn replace_overwrites_guarded_slot() {
    let slot = Slot::new(5u64);
    let mut unit = Prepared::<Slot<u64>, u64, _, u64, &'static str>::new(slot, |x: u64| -> Res {
        Ok((x, x))
    });
    unit.replace(9);
    let token = unit.take_owned();
    assert_eq!(*token.peek(), 9);
}

#[test]
fn take_ref_borrows_transform() {
    let slot = Slot::new(2u64);
    let unit = Prepared::<Slot<u64>, u64, _, u64, &'static str>::new(slot, |x: u64| -> Res {
        Ok((x * 3, x * 3))
    });
    let f = unit.take_ref();
    assert_eq!(f(4), Ok((12, 12)));
}

#[test]
fn commit_with_cloned_value_type() {
    let slot = Slot::new(String::from("state"));
    let unit = Prepared::new(slot, |mut s: String| -> Result<(usize, String), &'static str> {
        s.push_str("-next");
        Ok((s.len(), s))
    });
    match unit.apply() {
        Ok((len, consumed)) => {
            assert_eq!(len, 10);
            assert_eq!(consumed.into_inner(), "state-next");
        }
        Err(_) => panic!("an always-succeeding transform must commit"),
    }
}

#[test]
fn slot_accessors_read_and_write() {
    let mut slot = Slot::new(5u64);
    assert_eq!(*slot.take_ref(), 5);
    slot.put(8);
    assert_eq!(*slot.take_ref(), 8);
    let token = slot.take_owned();
    assert_eq!(*token.peek(), 8);
}

#[test]
fn failed_commit_token_allows_retry() {
    let unit = Prepared::new(Slot::new(5u64), |_x: u64| -> Res { Err("not yet") });
    let token = match unit.apply() {
        Ok(_) => panic!("an always-failing transform must not commit"),
        Err((_, token)) => token,
    };
    // retrying takes a fresh unit built from the returned capability's value
    let retry = Prepared::new(Slot::new(token.into_inner()), |x: u64| -> Res {
        Ok((x + 1, x + 1))
    });
    match retry.apply() {
        Ok((out, consumed)) => {
            assert_eq!(out, 6);
            assert_eq!(consumed.into_inner(), 6);
        }
        Err(_) => panic!("the retry must commit"),
    }
}

#[test]
fn token_carries_and_yields_value() {
    let token = Token::new(3u64);
    assert_eq!(*token.peek(), 3);
    let consumed = token.consume();
    assert_eq!(*consumed.peek(), 3);
    assert_eq!(consumed.into_inner(), 3);
}
