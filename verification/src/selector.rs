//! The keyboard-driven list-selection state machine.
//!
//! The selector owns only the cursor over a non-empty item sequence; the
//! surrounding shell renders frames and polls the terminal, feeding each key
//! event into [`Selector::step`] until a terminal status comes back.

use vstd::prelude::*;
use vstd::string::StringExecFns;
use vstd::arithmetic::div_mod::{
    lemma_add_mod_noop_right,
    lemma_mod_bound,
    lemma_mod_multiples_vanish,
    lemma_mod_self_0,
    lemma_small_mod,
};

verus! {

/// A key the selection screen reacts to, after the shell has decoded the
/// terminal event.
#[derive(Clone, Copy, PartialEq, Eq)]
pub enum Key {
    Down,
    Up,
    Enter,
    Escape,
    Char(char),
    /// Any key the selector does not react to.
    Other,
}

/// One keyboard event: the key and whether it was a press.  Platforms that
/// emit key-release events deliver them with `is_press == false`, and the
/// selector ignores them.
#[derive(Clone, Copy, PartialEq, Eq)]
pub struct KeyEvent {
    pub code: Key,
    pub is_press: bool,
}

/// The selector's externally visible state after one event.
#[derive(Clone, Copy, Debug, PartialEq, Eq, Structural)]
pub enum SelectionStatus {
    /// Still awaiting input.
    Active,
    /// Terminal: the user confirmed the item at this index.
    Chosen(usize),
    /// Terminal: the user cancelled the selection.
    Aborted,
}

/// Cursor position after one event: Down and Up wrap around the ends of the
/// list, every other event leaves the cursor in place.
pub open spec fn cursor_after(c: int, n: int, e: KeyEvent) -> int {
    if e.is_press {
        match e.code {
            Key::Down => (c + 1) % n,
            Key::Up => (c - 1 + n) % n,
            _ => c,
        }
    } else {
        c
    }
}

/// Status after one event: Enter chooses the current cursor, Escape and the
/// literal `q` cancel, everything else (including releases) stays active.
pub open spec fn status_after(c: usize, e: KeyEvent) -> SelectionStatus {
    if e.is_press {
        match e.code {
            Key::Enter => SelectionStatus::Chosen(c),
            Key::Escape => SelectionStatus::Aborted,
            Key::Char(ch) => if ch == 'q' {
                SelectionStatus::Aborted
            } else {
                SelectionStatus::Active
            },
            _ => SelectionStatus::Active,
        }
    } else {
        SelectionStatus::Active
    }
}

/// Cursor position after a whole run of events, applied in order.
pub open spec fn cursor_after_events(c: int, n: int, events: Seq<KeyEvent>) -> int
    decreases events.len(),
{
    if events.len() == 0 {
        c
    } else {
        cursor_after_events(cursor_after(c, n, events[0]), n, events.drop_first())
    }
}

/// One item's line on the selection screen: the item at the cursor carries
/// the highlight marker, every other item a blank of the same width.
pub open spec fn marked_label(label: Seq<char>, highlighted: bool) -> Seq<char> {
    (if highlighted {
        "> "@
    } else {
        "  "@
    }) + label
}

/// The full frame shown after every event: the title line, then each item's
/// label with the item at `cursor` prefixed by the marker.
pub fn render_lines(title: &str, labels: &Vec<String>, cursor: usize) -> (lines: Vec<String>)
    requires
        cursor < labels.len(),
    ensures
        lines.len() == labels.len() + 1,
        lines[0]@ == title@,
        forall|i: int|
            0 <= i < labels.len() ==> lines[i + 1]@ == marked_label(labels[i]@, i == cursor),
{
    let mut lines: Vec<String> = Vec::new();
    lines.push(title.to_owned());
    let mut i: usize = 0;
    while i < labels.len()
        invariant
            i <= labels.len(),
            lines.len() == i + 1,
            lines[0]@ == title@,
            forall|j: int|
                0 <= j < i ==> lines[j + 1]@ == marked_label(labels[j]@, j == cursor),
        decreases labels.len() - i,
    {
        let prefix: &str = if i == cursor {
            "> "
        } else {
            "  "
        };
        lines.push(prefix.to_owned().concat(labels[i].as_str()));
        i = i + 1;
    }
    lines
}

/// The Down key as one pressed event.
pub open spec fn down_press() -> KeyEvent {
    KeyEvent { code: Key::Down, is_press: true }
}

/// The Up key as one pressed event.
pub open spec fn up_press() -> KeyEvent {
    KeyEvent { code: Key::Up, is_press: true }
}

/// Law: from cursor `c` over `n` items, a run of Down presses of any length
/// `k` lands on `(c + k) mod n`, wrapping past the last item.
pub proof fn lemma_repeated_down(c: int, n: int, events: Seq<KeyEvent>)
    requires
        0 < n,
        0 <= c < n,
        forall|i: int| 0 <= i < events.len() ==> events[i] == down_press(),
    ensures
        cursor_after_events(c, n, events) == (c + events.len()) % n,
    decreases events.len(),
{
    if events.len() == 0 {
        lemma_small_mod(c as nat, n as nat);
    } else {
        assert(events[0] == down_press());
        let c1 = (c + 1) % n;
        lemma_mod_bound(c + 1, n);
        assert forall|i: int| 0 <= i < events.drop_first().len() implies events.drop_first()[i]
            == down_press() by {
            assert(events.drop_first()[i] == events[i + 1]);
        }
        lemma_repeated_down(c1, n, events.drop_first());
        lemma_add_mod_noop_right(events.len() - 1, c + 1, n);
    }
}

/// Law: from cursor `c` over `n` items, a run of Up presses of any length
/// `k` lands on `(c - k) mod n` (Euclidean remainder, so always in range),
/// the negation of the Down law.
pub proof fn lemma_repeated_up(c: int, n: int, events: Seq<KeyEvent>)
    requires
        0 < n,
        0 <= c < n,
        forall|i: int| 0 <= i < events.len() ==> events[i] == up_press(),
    ensures
        cursor_after_events(c, n, events) == (c - events.len()) % n,
    decreases events.len(),
{
    if events.len() == 0 {
        lemma_small_mod(c as nat, n as nat);
    } else {
        assert(events[0] == up_press());
        let c1 = (c - 1 + n) % n;
        lemma_mod_bound(c - 1 + n, n);
        assert forall|i: int| 0 <= i < events.drop_first().len() implies events.drop_first()[i]
            == up_press() by {
            assert(events.drop_first()[i] == events[i + 1]);
        }
        lemma_repeated_up(c1, n, events.drop_first());
        lemma_add_mod_noop_right(-(events.len() - 1), c - 1 + n, n);
        lemma_mod_multiples_vanish(1, c - events.len(), n);
    }
}

/// Law: a pressed Enter at any cursor position returns exactly that index,
/// never adjusted.
pub proof fn lemma_enter_returns_cursor(c: usize, e: KeyEvent)
    requires
        e.is_press,
        e.code is Enter,
    ensures
        status_after(c, e) == SelectionStatus::Chosen(c),
{
}

/// Law: a pressed Escape or `q` always aborts, regardless of cursor position
/// or prior navigation.
pub proof fn lemma_cancel_always_aborts(c: usize, e: KeyEvent)
    requires
        e.is_press,
        e.code is Escape || e.code == Key::Char('q'),
    ensures
        status_after(c, e) == SelectionStatus::Aborted,
{
}

/// Cursor state over one selection screen.
///
/// Created fresh per screen and discarded as soon as a terminal status is
/// returned; it never persists across screens.
pub struct Selector {
    /// Index of the highlighted item.
    pub cursor: usize,
    /// Number of items on the screen; never zero.
    pub count: usize,
}

impl Selector {
    /// The selector's invariant: a non-empty list with the cursor inside it.
    pub open spec fn wf(self) -> bool {
        0 < self.count && self.cursor < self.count
    }

    /// Opens a selection screen over `count` items with the first highlighted.
    ///
    /// Callers must rule out the empty case themselves before opening a
    /// screen; an empty sequence is not a selector responsibility.
    pub fn new(count: usize) -> (s: Selector)
        requires
            0 < count,
        ensures
            s.wf(),
            s.cursor == 0,
            s.count == count,
    {
        Selector { cursor: 0, count }
    }

    /// Reacts to one keyboard event.
    ///
    /// Down and Up move the cursor with wrap-around, Enter returns the
    /// current index unadjusted, Escape or `q` cancels, and any other key or
    /// a key release changes nothing.
    pub fn step(&mut self, e: KeyEvent) -> (st: SelectionStatus)
        requires
            old(self).wf(),
        ensures
            final(self).wf(),
            final(self).count == old(self).count,
            final(self).cursor as int == cursor_after(
                old(self).cursor as int,
                old(self).count as int,
                e,
            ),
            st == status_after(old(self).cursor, e),
    {
        if !e.is_press {
            return SelectionStatus::Active;
        }
        match e.code {
            Key::Down => {
                let next: usize = if self.cursor + 1 == self.count {
                    0
                } else {
                    self.cursor + 1
                };
                proof {
                    let c = self.cursor as int;
                    let n = self.count as int;
                    if c + 1 == n {
                        vstd::arithmetic::div_mod::lemma_mod_self_0(n);
                    } else {
                        vstd::arithmetic::div_mod::lemma_small_mod((c + 1) as nat, n as nat);
                    }
                }
                self.cursor = next;
                SelectionStatus::Active
            },
            Key::Up => {
                let prev: usize = if self.cursor == 0 {
                    self.count - 1
                } else {
                    self.cursor - 1
                };
                proof {
                    let c = self.cursor as int;
                    let n = self.count as int;
                    if c == 0 {
                        vstd::arithmetic::div_mod::lemma_small_mod((n - 1) as nat, n as nat);
                    } else {
                        vstd::arithmetic::div_mod::lemma_mod_multiples_vanish(1, c - 1, n);
                        vstd::arithmetic::div_mod::lemma_small_mod((c - 1) as nat, n as nat);
                    }
                }
                self.cursor = prev;
                SelectionStatus::Active
            },
            Key::Enter => SelectionStatus::Chosen(self.cursor),
            Key::Escape => SelectionStatus::Aborted,
            Key::Char(ch) => {
                if ch == 'q' {
                    SelectionStatus::Aborted
                } else {
                    SelectionStatus::Active
                }
            },
            Key::Other => SelectionStatus::Active,
        }
    }
}

} // verus!
