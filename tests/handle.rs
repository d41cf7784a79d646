use std::cell::{Cell, RefCell};
use std::rc::Rc;

use cortex::{Cortex, CortexError, CortexResult, CortexSync, ErrorKind, Reason};

/// A lock for tests: keys below zero have no lock to attach to, and a lock
/// created with `true` as its setting refuses to be entered.
struct TestLock {
    refuse: bool,
    held: Cell<u32>,
    claimed: bool,
}

fn lock_error() -> CortexError {
    CortexError::new_clean(Reason::LockFailed)
}

impl CortexSync for TestLock {
    type Settings = bool;

    fn new(cortex_key: i32, settings: Option<&bool>) -> CortexResult<Self> {
        if cortex_key == i32::MIN {
            return Err(lock_error());
        }
        Ok(TestLock { refuse: settings.copied().unwrap_or(false), held: Cell::new(0), claimed: false })
    }

    fn attach(cortex_key: i32) -> CortexResult<Self> {
        if cortex_key < 0 {
            return Err(lock_error());
        }
        if cortex_key == 0 {
            return Err(CortexError::new_dirty(Reason::LockFailed));
        }
        Ok(TestLock { refuse: false, held: Cell::new(0), claimed: false })
    }

    fn force_ownership(&mut self) {
        self.claimed = true;
    }

    fn read_lock(&self) -> CortexResult<()> {
        self.write_lock()
    }

    fn write_lock(&self) -> CortexResult<()> {
        if self.refuse || self.held.get() > 0 {
            return Err(lock_error());
        }
        self.held.set(1);
        Ok(())
    }

    fn release(&self) -> CortexResult<()> {
        if self.held.get() == 0 {
            return Err(lock_error());
        }
        self.held.set(0);
        Ok(())
    }
}

#[derive(Debug, Clone, Copy, PartialEq)]
struct Point {
    x: i64,
    y: f64,
}

#[test]
fn created_handle_owns_segment() {
    let c: Cortex<Point, TestLock> = Cortex::new(17, 3, 16, None).unwrap();
    assert_eq!(c.key(), 17);
    assert_eq!(c.id(), 3);
    assert_eq!(c.size(), 16);
    assert!(c.is_owner());
    let t = c.teardown();
    assert!(t.detach && t.remove_segment);
}

#[test]
fn lock_failure_after_creation_is_dirty() {
    let r: CortexResult<Cortex<Point, TestLock>> = Cortex::new(i32::MIN, 3, 16, None);
    let e = r.err().unwrap();
    assert_eq!(e.kind, ErrorKind::Dirty);
    assert_eq!(e.reason(), Reason::LockFailed);
}

#[test]
fn attached_handle_does_not_remove_segment() {
    let c: Cortex<Point, TestLock> = Cortex::attach(17, 16, |_| Ok(3)).unwrap();
    assert!(!c.is_owner());
    let t = c.teardown();
    assert!(t.detach);
    assert!(!t.remove_segment);
}

#[test]
fn attach_without_lock_is_clean_failure() {
    let r: CortexResult<Cortex<Point, TestLock>> = Cortex::attach(-4, 16, |_| Ok(3));
    assert_eq!(r.err(), Some(CortexError::new_clean(Reason::LockFailed)));
}

#[test]
fn takeover_yields_owner() {
    let c: Cortex<Point, TestLock> = Cortex::takeover(17, 16, |_| Ok(3)).unwrap();
    assert!(c.is_owner());
    assert_eq!(c.key(), 17);
    assert!(c.teardown().remove_segment);
}

#[test]
fn force_ownership_flips_owner() {
    let mut c: Cortex<Point, TestLock> = Cortex::attach(8, 16, |_| Ok(1)).unwrap();
    assert!(!c.is_owner());
    c.force_ownership();
    assert!(c.is_owner());
    assert_eq!(c.key(), 8);
    assert_eq!(c.id(), 1);
}

#[test]
fn write_then_read_round_trips() {
    let cell = RefCell::new(Point { x: 0, y: 0.0 });
    let c: Cortex<Point, TestLock> = Cortex::new(1, 1, 16, None).unwrap();
    let v = Point { x: -3, y: 2.5 };
    c.write(v, |d| *cell.borrow_mut() = d).unwrap();
    assert_eq!(c.read(|| *cell.borrow()).unwrap(), v);
}

#[test]
fn write_is_seen_by_other_handle() {
    let cell = Rc::new(RefCell::new(Point { x: 1, y: 1.0 }));
    let a: Cortex<Point, TestLock> = Cortex::new(2, 5, 16, None).unwrap();
    let b: Cortex<Point, TestLock> = Cortex::attach(2, 16, |_| Ok(5)).unwrap();
    let v2 = Point { x: 2, y: 4.0 };
    let shared = cell.clone();
    a.write(v2, move |d| *shared.borrow_mut() = d).unwrap();
    assert_eq!(b.read(|| *cell.borrow()).unwrap(), v2);
}

#[test]
fn refused_lock_fails_access_without_transfer() {
    let touched = Cell::new(false);
    let c: Cortex<Point, TestLock> = Cortex::new(3, 1, 16, Some(&true)).unwrap();
    let r = c.read(|| {
        touched.set(true);
        Point { x: 0, y: 0.0 }
    });
    assert_eq!(r.err().map(|e| e.reason()), Some(Reason::LockFailed));
    let w = c.write(Point { x: 1, y: 1.0 }, |_| touched.set(true));
    assert_eq!(w.err().map(|e| e.reason()), Some(Reason::LockFailed));
    assert!(!touched.get());
}

#[test]
fn access_leaves_lock_released() {
    let c: Cortex<Point, TestLock> = Cortex::new(4, 1, 16, None).unwrap();
    for i in 0..3 {
        assert_eq!(c.read(|| Point { x: i, y: 0.0 }).unwrap().x, i);
        c.write(Point { x: i, y: 0.0 }, |_| ()).unwrap();
    }
}

#[test]
fn attach_asks_locate_for_its_key() {
    let c: Cortex<Point, TestLock> = Cortex::attach(21, 16, |k| Ok(k * 2)).unwrap();
    assert_eq!(c.id(), 42);
    assert_eq!(c.key(), 21);
}

#[test]
fn attach_takes_lock_before_locating() {
    let located = Cell::new(false);
    let r: CortexResult<Cortex<Point, TestLock>> = Cortex::attach(-1, 16, |_| {
        located.set(true);
        Ok(1)
    });
    assert!(r.is_err());
    assert!(!located.get());
}

#[test]
fn attach_passes_lookup_error_on() {
    let r: CortexResult<Cortex<Point, TestLock>> =
        Cortex::attach(6, 16, |_| Err(CortexError::new_clean(Reason::LookupFailed)));
    assert_eq!(r.err(), Some(CortexError::new_clean(Reason::LookupFailed)));
}

#[test]
fn lock_error_is_passed_on_unchanged() {
    let r: CortexResult<Cortex<Point, TestLock>> = Cortex::attach(0, 16, |_| Ok(1));
    assert_eq!(r.err(), Some(CortexError::new_dirty(Reason::LockFailed)));
}

#[test]
fn write_hands_data_to_store() {
    let seen = Cell::new(None);
    let c: Cortex<Point, TestLock> = Cortex::new(5, 1, 16, None).unwrap();
    let v = Point { x: 9, y: -1.5 };
    c.write(v, |d| seen.set(Some(d))).unwrap();
    assert_eq!(seen.get(), Some(v));
}
