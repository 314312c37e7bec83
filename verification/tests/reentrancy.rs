use std::cell::{Cell, RefCell};
use std::rc::Rc;

use win_win::message::{WM_CREATE, WM_NCDESTROY};
use win_win::{Binding, Departure, Handle, Reply, WindowProc};

const WM_CLOSE: u32 = 0x0010;
const WM_PAINT: u32 = 0x000F;
const HWND: usize = 0x5150;

/// What stands for the native subsystem: it owns the window's state and
/// delivers events to the trampoline, also from inside a callback.
struct Desk {
    window: RefCell<Option<Binding<Closer>>>,
    log: RefCell<Vec<String>>,
    dropped: Cell<u32>,
}

/// Destroys its window when it is asked to close.
struct Closer {
    desk: Rc<Desk>,
    marker: u64,
}

impl Desk {
    fn note(&self, line: String) {
        self.log.borrow_mut().push(line);
    }

    fn references(&self) -> usize {
        self.window.borrow().as_ref().unwrap().references()
    }

    fn alive(&self) -> bool {
        self.window.borrow().as_ref().unwrap().is_alive()
    }

    fn bound(&self) -> bool {
        self.window.borrow().as_ref().unwrap().is_bound()
    }
}

/// The trampoline as the driver of the bridge runs it: no borrow of the
/// window's state is held while the callback runs.
fn trampoline(desk: &Rc<Desk>, msg: u32) -> Departure {
    let call = desk.window.borrow_mut().as_mut().unwrap().enter(msg);
    let result = match call.target() {
        Some(callback) => callback.window_proc(Handle::from_raw(HWND), msg, 0, 0),
        None => None,
    };
    desk.window.borrow_mut().as_mut().unwrap().leave(call, result)
}

impl WindowProc for Closer {
    fn window_proc(&self, hwnd: Handle, msg: u32, _wparam: usize, _lparam: isize) -> Option<isize> {
        assert_eq!(hwnd.raw, HWND);
        self.desk.note(format!("enter {msg:#06x} refs {}", self.desk.references()));
        if msg == WM_CLOSE {
            let nested = trampoline(&self.desk, WM_NCDESTROY);
            assert_eq!(nested, Departure { reply: Reply::Handled(0), cleared: true, destroyed: false });
            // The window is gone, and this call is still running.
            assert_eq!(self.marker, 0xFEED_FACE);
            assert_eq!(self.desk.dropped.get(), 0);
            assert!(self.desk.alive());
            assert!(!self.desk.bound());
            self.desk.note(format!("after nested teardown refs {}", self.desk.references()));
            return Some(1);
        }
        if msg == WM_NCDESTROY {
            return Some(0);
        }
        None
    }
}

impl Drop for Closer {
    fn drop(&mut self) {
        self.desk.dropped.set(self.desk.dropped.get() + 1);
        self.desk.note(String::from("dropped"));
    }
}

fn desk() -> Rc<Desk> {
    let desk = Rc::new(Desk {
        window: RefCell::new(None),
        log: RefCell::new(Vec::new()),
        dropped: Cell::new(0),
    });
    let binding = Binding::new(Closer { desk: desk.clone(), marker: 0xFEED_FACE });
    *desk.window.borrow_mut() = Some(binding);
    desk
}

#[test]
fn a_nested_teardown_leaves_the_running_call_its_instance() {
    let desk = desk();
    let quiet = Departure { reply: Reply::Default, cleared: false, destroyed: false };
    assert_eq!(trampoline(&desk, WM_CREATE), quiet);
    assert_eq!(trampoline(&desk, WM_PAINT), quiet);
    assert_eq!(desk.references(), 1);

    assert_eq!(
        trampoline(&desk, WM_CLOSE),
        Departure { reply: Reply::Handled(1), cleared: false, destroyed: true }
    );

    assert_eq!(desk.dropped.get(), 1);
    assert_eq!(desk.references(), 0);
    assert!(!desk.alive());
    assert!(!desk.bound());
    assert_eq!(
        *desk.log.borrow(),
        vec![
            String::from("enter 0x0001 refs 2"),
            String::from("enter 0x000f refs 2"),
            String::from("enter 0x0010 refs 2"),
            String::from("enter 0x0082 refs 3"),
            String::from("after nested teardown refs 1"),
            String::from("dropped"),
        ]
    );
}

#[test]
fn the_instance_goes_when_the_outermost_call_returns() {
    let desk = desk();
    trampoline(&desk, WM_CREATE);
    let outer = desk.window.borrow_mut().as_mut().unwrap().enter(WM_PAINT);
    let middle = desk.window.borrow_mut().as_mut().unwrap().enter(WM_PAINT);
    let inner = desk.window.borrow_mut().as_mut().unwrap().enter(WM_NCDESTROY);
    assert_eq!(desk.references(), 4);

    let left = desk.window.borrow_mut().as_mut().unwrap().leave(inner, Some(0));
    assert_eq!(left, Departure { reply: Reply::Handled(0), cleared: true, destroyed: false });
    assert_eq!(desk.references(), 2);
    assert!(!desk.bound());
    assert_eq!(desk.dropped.get(), 0);

    let left = desk.window.borrow_mut().as_mut().unwrap().leave(middle, None);
    assert_eq!(left, Departure { reply: Reply::Default, cleared: false, destroyed: false });
    assert_eq!(desk.references(), 1);
    assert!(desk.alive());
    assert_eq!(outer.target().unwrap().marker, 0xFEED_FACE);
    assert_eq!(desk.dropped.get(), 0);

    let left = desk.window.borrow_mut().as_mut().unwrap().leave(outer, None);
    assert_eq!(left, Departure { reply: Reply::Default, cleared: false, destroyed: true });
    assert_eq!(desk.references(), 0);
    assert!(!desk.alive());
    assert_eq!(desk.dropped.get(), 1);
}

#[test]
fn a_dispatch_entered_after_a_nested_teardown_is_unbound() {
    let desk = desk();
    trampoline(&desk, WM_CREATE);
    let outer = desk.window.borrow_mut().as_mut().unwrap().enter(WM_PAINT);
    assert_eq!(
        trampoline(&desk, WM_NCDESTROY),
        Departure { reply: Reply::Handled(0), cleared: true, destroyed: false }
    );
    // The outer call still runs; an event that arrives now finds the slot empty.
    let late = desk.window.borrow_mut().as_mut().unwrap().enter(WM_PAINT);
    assert!(late.target().is_none());
    assert_eq!(desk.references(), 1);
    assert_eq!(
        desk.window.borrow_mut().as_mut().unwrap().leave(late, Some(3)),
        Departure { reply: Reply::Default, cleared: false, destroyed: false }
    );
    assert_eq!(desk.dropped.get(), 0);
    desk.window.borrow_mut().as_mut().unwrap().leave(outer, None);
    assert_eq!(desk.dropped.get(), 1);
}

#[test]
fn a_teardown_nested_in_a_teardown_clears_the_slot_once() {
    let desk = desk();
    trampoline(&desk, WM_CREATE);
    let outer = desk.window.borrow_mut().as_mut().unwrap().enter(WM_NCDESTROY);
    let inner = desk.window.borrow_mut().as_mut().unwrap().enter(WM_NCDESTROY);
    assert_eq!(desk.references(), 3);
    let left = desk.window.borrow_mut().as_mut().unwrap().leave(inner, Some(0));
    assert_eq!(left, Departure { reply: Reply::Handled(0), cleared: true, destroyed: false });
    assert_eq!(desk.references(), 1);
    assert!(!desk.bound());
    assert_eq!(desk.dropped.get(), 0);
    let left = desk.window.borrow_mut().as_mut().unwrap().leave(outer, Some(0));
    assert_eq!(left, Departure { reply: Reply::Handled(0), cleared: false, destroyed: true });
    assert_eq!(desk.references(), 0);
    assert_eq!(desk.dropped.get(), 1);
}
