use std::sync::Arc;

use vstd::prelude::*;

use crate::history::History;
use crate::metrics::Snapshot;

verus! {

/// `parking_lot`'s mutex (its `Mutex<T>` is `lock_api::Mutex<RawMutex, T>`),
/// carried through opaquely.
#[verifier::external_type_specification]
#[verifier::external_body]
#[verifier::reject_recursive_types(R)]
#[verifier::reject_recursive_types(T)]
pub struct ExLockApiMutex<R, T: ?Sized>(parking_lot::lock_api::Mutex<R, T>);

/// The raw lock that `parking_lot::Mutex` is built on, carried through opaquely.
#[verifier::external_type_specification]
#[verifier::external_body]
pub struct ExParkingLotRawMutex(parking_lot::RawMutex);

/// Takes the lock of `parking_lot::Mutex` (`lock_api::Mutex::lock`) and clones
/// the snapshot behind it. The collectors write that snapshot from other
/// tasks, so nothing is promised of the value read.
#[verifier::external_body]
fn read_shared_snapshot(shared: &Arc<parking_lot::Mutex<Snapshot>>) -> (snap: Snapshot) {
    shared.lock().clone()
}

pub enum AppState {
    Running,
    Quitting,
}

/// The keys that the application reacts to; every other key is `Other`.
pub enum Key {
    Char(char),
    Esc,
    Up,
    Down,
    Other,
}

pub struct App {
    pub state: AppState,
    /// Latest hardware snapshot shared with collector tasks.
    pub snapshot: Arc<parking_lot::Mutex<Snapshot>>,
    /// Rolling history for sparklines.
    pub history: History,
    /// Currently selected row in the process table.
    pub selected_process: usize,
}

/// The key asks the application to quit (`q` or Esc).
pub open spec fn is_quit_key(key: Key) -> bool {
    key matches Key::Char('q') || key matches Key::Esc
}

/// The key moves the selection down (Down arrow or `j`).
pub open spec fn is_down_key(key: Key) -> bool {
    key matches Key::Down || key matches Key::Char('j')
}

/// The key moves the selection up (Up arrow or `k`).
pub open spec fn is_up_key(key: Key) -> bool {
    key matches Key::Up || key matches Key::Char('k')
}

/// The selection after pressing `key` with `selected` selected: one row down
/// or up, stopping at the ends of `usize`; other keys leave it.
pub open spec fn selection_after(selected: usize, key: Key) -> usize {
    if is_quit_key(key) {
        selected
    } else if is_down_key(key) {
        if selected == usize::MAX {
            selected
        } else {
            (selected + 1) as usize
        }
    } else if is_up_key(key) {
        if selected == 0 {
            0
        } else {
            (selected - 1) as usize
        }
    } else {
        selected
    }
}

/// The state after pressing `key` in `state`: the quit keys quit, and nothing
/// else changes the state.
pub open spec fn state_after(state: AppState, key: Key) -> AppState {
    if is_quit_key(key) {
        AppState::Quitting
    } else {
        state
    }
}

impl App {
    pub fn new(snapshot: Arc<parking_lot::Mutex<Snapshot>>) -> (app: Self)
        ensures
            app.state == AppState::Running,
            app.snapshot == snapshot,
            app.history.is_empty(),
            app.selected_process == 0,
    {
        App { state: AppState::Running, snapshot, history: History::new(), selected_process: 0 }
    }

    /// Called on every timer tick: pulls the latest snapshot into the history
    /// buffers, one sample per series.
    pub fn tick(&mut self)
        ensures
            final(self).state == old(self).state,
            final(self).snapshot == old(self).snapshot,
            final(self).selected_process == old(self).selected_process,
            exists|snap: Snapshot| History::updated_with(old(self).history, final(self).history, snap),
    {
        let ghost before = self.history;
        let snap = read_shared_snapshot(&self.snapshot);
        self.history.update(&snap);
        assert(History::updated_with(before, self.history, snap));
    }

    /// Handle a keyboard event.
    pub fn on_key(&mut self, key: Key)
        ensures
            final(self).state == state_after(old(self).state, key),
            final(self).selected_process == selection_after(old(self).selected_process, key),
            final(self).snapshot == old(self).snapshot,
            final(self).history == old(self).history,
    {
        match key {
            Key::Char('q') | Key::Esc => {
                self.state = AppState::Quitting;
            },
            Key::Down | Key::Char('j') => {
                self.selected_process = self.selected_process.saturating_add(1);
            },
            Key::Up | Key::Char('k') => {
                self.selected_process = self.selected_process.saturating_sub(1);
            },
            _ => {},
        }
    }

    /// A key press read by the event loop, with whether Control was held.
    /// Ctrl+C asks the loop to stop at once (returns `true`) and changes
    /// nothing; any other key goes to `on_key`.
    pub fn on_key_event(&mut self, key: Key, control: bool) -> (stop_now: bool)
        ensures
            stop_now == (control && key == Key::Char('c')),
            stop_now ==> *final(self) == *old(self),
            !stop_now ==> {
                &&& final(self).state == state_after(old(self).state, key)
                &&& final(self).selected_process == selection_after(
                    old(self).selected_process,
                    key,
                )
                &&& final(self).snapshot == old(self).snapshot
                &&& final(self).history == old(self).history
            },
    {
        let interrupt = match key {
            Key::Char('c') => control,
            _ => false,
        };
        if interrupt {
            true
        } else {
            self.on_key(key);
            false
        }
    }

    pub fn is_running(&self) -> (r: bool)
        ensures
            r == (self.state == AppState::Running),
    {
        match self.state {
            AppState::Running => true,
            AppState::Quitting => false,
        }
    }
}

/// The key bindings: `q` and Esc quit; Down and `j` move the selection one
/// row down and Up and `k` one row up, stopping at the ends; the quit keys
/// leave the selection and the moving keys the state as they were; every
/// other key changes nothing.
pub proof fn lemma_key_bindings(state: AppState, selected: usize, key: Key)
    ensures
        key == Key::Char('q') || key == Key::Esc ==> state_after(state, key) == AppState::Quitting
            && selection_after(selected, key) == selected,
        key == Key::Down || key == Key::Char('j') ==> state_after(state, key) == state
            && selection_after(selected, key) == (if selected < usize::MAX {
            selected + 1
        } else {
            selected as int
        }),
        key == Key::Up || key == Key::Char('k') ==> state_after(state, key) == state
            && selection_after(selected, key) == (if selected > 0 {
            selected - 1
        } else {
            0
        }),
        !(key == Key::Char('q') || key == Key::Esc || key == Key::Down || key == Key::Char('j')
            || key == Key::Up || key == Key::Char('k')) ==> state_after(state, key) == state
            && selection_after(selected, key) == selected,
{
}

/// Once the application is quitting, no key brings it back to running.
pub proof fn lemma_quitting_is_final(key: Key)
    ensures
        state_after(AppState::Quitting, key) == AppState::Quitting,
{
}

/// Moving the selection down and then up returns to the row one started
/// from, unless the selection was already at the largest `usize`; moving up
/// and then down does the same unless it was at row 0.
pub proof fn lemma_down_up_roundtrip(selected: usize)
    ensures
        selected < usize::MAX ==> selection_after(selection_after(selected, Key::Down), Key::Up)
            == selected,
        selected > 0 ==> selection_after(selection_after(selected, Key::Up), Key::Down)
            == selected,
{
}

} // verus!
