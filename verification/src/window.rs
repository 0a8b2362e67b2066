//! The window stack: placed windows in stacking order, bottom first.
//!
//! Windows are known by their id. The stack expects ids to be distinct;
//! where several windows share one, an operation by id treats them alike.

use vstd::prelude::*;
use crate::geometry::{Point, Rect};
use crate::serial::Serial;

verus! {

/// A geometry proposed to a window and not yet acknowledged by it.
#[derive(Clone, Copy, Debug, PartialEq, Eq, Structural)]
pub struct Proposal {
    pub serial: Serial,
    pub rect: Rect,
}

/// A placed window.
#[derive(Clone, Copy, Debug, PartialEq, Eq, Structural)]
pub struct Window {
    pub id: u64,
    /// The geometry the window has acknowledged.
    pub rect: Rect,
    pub activated: bool,
    /// The latest proposal still waiting for the window's acknowledgment.
    pub pending: Option<Proposal>,
}

/// The windows in stacking order: the last one is on top.
#[derive(Clone, Debug, PartialEq, Eq)]
pub struct WindowStack {
    pub windows: Vec<Window>,
}

/// Index of the topmost window of `s` that contains `p`.
pub open spec fn topmost_at(s: Seq<Window>, p: Point) -> Option<int>
    decreases s.len(),
{
    if s.len() == 0 {
        None
    } else if s.last().rect.spec_contains(p) {
        Some(s.len() - 1)
    } else {
        topmost_at(s.drop_last(), p)
    }
}

/// The stack with the window at `index` moved to the top, the others in
/// their order. With `activate`, the raised window is activated and every
/// other one deactivated.
pub open spec fn raised(s: Seq<Window>, index: int, activate: bool) -> Seq<Window> {
    if activate {
        all_deactivated(s.remove(index)).push(activated(s[index]))
    } else {
        s.remove(index).push(s[index])
    }
}

/// What becomes of `w` when the windows of the id `id` become `changed`.
pub open spec fn for_id(w: Window, id: u64, changed: Window) -> Window {
    if w.id == id {
        changed
    } else {
        w
    }
}

/// `w`, activated.
pub open spec fn activated(w: Window) -> Window {
    Window { activated: true, ..w }
}

/// `w`, no longer activated.
pub open spec fn deactivated(w: Window) -> Window {
    Window { activated: false, ..w }
}

/// `w`, placed at `loc`.
pub open spec fn placed(w: Window, loc: Point) -> Window {
    Window { rect: Rect { loc, size: w.rect.size }, ..w }
}

/// `w`, with `proposal` waiting for its acknowledgment.
pub open spec fn proposed(w: Window, proposal: Proposal) -> Window {
    Window { pending: Some(proposal), ..w }
}

/// `w`, with nothing waiting for its acknowledgment.
pub open spec fn settled(w: Window) -> Window {
    Window { pending: None, ..w }
}

/// `w` after it has acknowledged the proposal of `serial`: where that is the
/// one waiting, it becomes the window's geometry; any other acknowledgment
/// changes nothing.
pub open spec fn acknowledged(w: Window, serial: Serial) -> Window {
    match w.pending {
        Some(p) if p.serial == serial => Window { rect: p.rect, pending: None, ..w },
        _ => w,
    }
}

/// The stack with every window deactivated.
pub open spec fn all_deactivated(s: Seq<Window>) -> Seq<Window> {
    Seq::new(s.len(), |i: int| deactivated(s[i]))
}

/// The stack with the window `id` placed at `loc`.
pub open spec fn with_location(s: Seq<Window>, id: u64, loc: Point) -> Seq<Window> {
    Seq::new(s.len(), |i: int| for_id(s[i], id, placed(s[i], loc)))
}

/// The stack with `proposal` waiting at the window `id`.
pub open spec fn with_proposal(s: Seq<Window>, id: u64, proposal: Proposal) -> Seq<Window> {
    Seq::new(s.len(), |i: int| for_id(s[i], id, proposed(s[i], proposal)))
}

/// The stack with nothing waiting at the window `id`.
pub open spec fn with_settled(s: Seq<Window>, id: u64) -> Seq<Window> {
    Seq::new(s.len(), |i: int| for_id(s[i], id, settled(s[i])))
}

/// The stack after the window `id` has acknowledged the proposal of `serial`.
pub open spec fn with_acknowledged(s: Seq<Window>, id: u64, serial: Serial) -> Seq<Window> {
    Seq::new(s.len(), |i: int| for_id(s[i], id, acknowledged(s[i], serial)))
}

/// What `topmost_at` finds: a window that contains the point, with none
/// above it that does; and nothing only where no window contains the point.
pub proof fn lemma_topmost_at(s: Seq<Window>, p: Point)
    ensures
        match topmost_at(s, p) {
            Some(i) => 0 <= i < s.len() && s[i].rect.spec_contains(p) && forall|j: int|
                i < j < s.len() ==> !(#[trigger] s[j]).rect.spec_contains(p),
            None => forall|j: int| 0 <= j < s.len() ==> !(#[trigger] s[j]).rect.spec_contains(p),
        },
    decreases s.len(),
{
    if s.len() > 0 && !s.last().rect.spec_contains(p) {
        let below = s.drop_last();
        lemma_topmost_at(below, p);
        assert forall|j: int| 0 <= j < below.len() implies below[j] == s[j] by {}
        match topmost_at(below, p) {
            Some(i) => {
                assert forall|j: int| i < j < s.len() implies !(#[trigger] s[j]).rect.spec_contains(
                    p,
                ) by {
                    if j < below.len() {
                        assert(below[j] == s[j]);
                    }
                }
            },
            None => {
                assert forall|j: int| 0 <= j < s.len() implies !(#[trigger] s[j]).rect.spec_contains(
                    p,
                ) by {
                    if j < below.len() {
                        assert(below[j] == s[j]);
                    }
                }
            },
        }
    }
}

impl View for WindowStack {
    type V = Seq<Window>;

    open spec fn view(&self) -> Seq<Window> {
        self.windows@
    }
}

impl WindowStack {
    /// The empty stack.
    pub fn new() -> (r: WindowStack)
        ensures
            r@ == Seq::<Window>::empty(),
    {
        WindowStack { windows: Vec::new() }
    }

    /// The number of windows.
    pub fn len(&self) -> (r: usize)
        ensures
            r == self@.len(),
    {
        self.windows.len()
    }

    /// The window at `index`, counted from the bottom.
    pub fn get(&self, index: usize) -> (r: Option<Window>)
        ensures
            r == if index < self@.len() {
                Some(self@[index as int])
            } else {
                None
            },
    {
        if index < self.windows.len() {
            Some(self.windows[index])
        } else {
            None
        }
    }

    /// Maps a window on top of the stack.
    pub fn map_window(&mut self, window: Window)
        ensures
            final(self)@ == old(self)@.push(window),
    {
        self.windows.push(window);
    }

    /// Index of the topmost window under `p`, if any window is.
    pub fn element_under(&self, p: Point) -> (r: Option<usize>)
        ensures
            match r {
                Some(i) => topmost_at(self@, p) == Some(i as int) && i < self@.len(),
                None => topmost_at(self@, p) is None,
            },
    {
        let mut n: usize = self.windows.len();
        assert(self@.take(n as int) =~= self@);
        while n > 0
            invariant
                n <= self.windows.len(),
                topmost_at(self@, p) == topmost_at(self@.take(n as int), p),
            decreases n,
        {
            let ghost prefix = self@.take(n as int);
            assert(prefix.last() == self@[n - 1]);
            assert(prefix.drop_last() =~= self@.take(n - 1));
            if self.windows[n - 1].rect.contains(p) {
                return Some(n - 1);
            }
            n = n - 1;
        }
        assert(self@.take(0).len() == 0);
        None
    }

    /// Index of the window with the id `id`: the topmost, should several
    /// share it.
    pub fn position(&self, id: u64) -> (r: Option<usize>)
        ensures
            match r {
                Some(i) => i < self@.len() && self@[i as int].id == id && forall|j: int|
                    i < j < self@.len() ==> (#[trigger] self@[j]).id != id,
                None => forall|j: int| 0 <= j < self@.len() ==> (#[trigger] self@[j]).id != id,
            },
    {
        let mut n: usize = self.windows.len();
        while n > 0
            invariant
                n <= self.windows.len(),
                forall|j: int| n <= j < self@.len() ==> (#[trigger] self@[j]).id != id,
            decreases n,
        {
            if self.windows[n - 1].id == id {
                return Some(n - 1);
            }
            n = n - 1;
        }
        None
    }

    /// Moves the window at `index` to the top of the stack. With `activate`
    /// it is activated as well, and all the others deactivated. An index
    /// past the top names no window, and nothing changes.
    pub fn raise_element(&mut self, index: usize, activate: bool)
        ensures
            final(self)@ == if index < old(self)@.len() {
                raised(old(self)@, index as int, activate)
            } else {
                old(self)@
            },
    {
        if index >= self.windows.len() {
            return ;
        }
        let w = self.windows.remove(index);
        if activate {
            self.deactivate_all();
            self.windows.push(Window { activated: true, ..w });
        } else {
            self.windows.push(w);
        }
    }

    /// Clears the activated flag of every window.
    pub fn deactivate_all(&mut self)
        ensures
            final(self)@ == all_deactivated(old(self)@),
    {
        let n: usize = self.windows.len();
        let mut i: usize = 0;
        while i < n
            invariant
                i <= n,
                n == self@.len(),
                self@.len() == old(self)@.len(),
                forall|k: int| 0 <= k < i ==> self@[k] == deactivated(old(self)@[k]),
                forall|k: int| i <= k < n ==> self@[k] == old(self)@[k],
            decreases n - i,
        {
            let w = self.windows[i];
            self.windows[i] = Window { activated: false, ..w };
            i = i + 1;
        }
        assert(self@ =~= all_deactivated(old(self)@));
    }

    /// Places the window `id` at `loc`.
    pub fn set_location(&mut self, id: u64, loc: Point)
        ensures
            final(self)@ == with_location(old(self)@, id, loc),
    {
        let n: usize = self.windows.len();
        let mut i: usize = 0;
        while i < n
            invariant
                i <= n,
                n == self@.len(),
                self@.len() == old(self)@.len(),
                forall|k: int|
                    0 <= k < i ==> self@[k] == for_id(old(self)@[k], id, placed(old(self)@[k], loc)),
                forall|k: int| i <= k < n ==> self@[k] == old(self)@[k],
            decreases n - i,
        {
            let w = self.windows[i];
            if w.id == id {
                self.windows[i] = Window { rect: Rect { loc, size: w.rect.size }, ..w };
            }
            i = i + 1;
        }
        assert(self@ =~= with_location(old(self)@, id, loc));
    }

    /// Records `proposal` as waiting at the window `id`, in place of any
    /// earlier one.
    pub fn propose(&mut self, id: u64, proposal: Proposal)
        ensures
            final(self)@ == with_proposal(old(self)@, id, proposal),
    {
        let n: usize = self.windows.len();
        let mut i: usize = 0;
        while i < n
            invariant
                i <= n,
                n == self@.len(),
                self@.len() == old(self)@.len(),
                forall|k: int|
                    0 <= k < i ==> self@[k] == for_id(
                        old(self)@[k],
                        id,
                        proposed(old(self)@[k], proposal),
                    ),
                forall|k: int| i <= k < n ==> self@[k] == old(self)@[k],
            decreases n - i,
        {
            let w = self.windows[i];
            if w.id == id {
                self.windows[i] = Window { pending: Some(proposal), ..w };
            }
            i = i + 1;
        }
        assert(self@ =~= with_proposal(old(self)@, id, proposal));
    }

    /// Drops what waits at the window `id`: its geometry stays the one it
    /// acknowledged last.
    pub fn settle(&mut self, id: u64)
        ensures
            final(self)@ == with_settled(old(self)@, id),
    {
        let n: usize = self.windows.len();
        let mut i: usize = 0;
        while i < n
            invariant
                i <= n,
                n == self@.len(),
                self@.len() == old(self)@.len(),
                forall|k: int|
                    0 <= k < i ==> self@[k] == for_id(old(self)@[k], id, settled(old(self)@[k])),
                forall|k: int| i <= k < n ==> self@[k] == old(self)@[k],
            decreases n - i,
        {
            let w = self.windows[i];
            if w.id == id {
                self.windows[i] = Window { pending: None, ..w };
            }
            i = i + 1;
        }
        assert(self@ =~= with_settled(old(self)@, id));
    }

    /// Takes the acknowledgment of the window `id` for the proposal of
    /// `serial`.
    pub fn acknowledge(&mut self, id: u64, serial: Serial)
        ensures
            final(self)@ == with_acknowledged(old(self)@, id, serial),
    {
        let n: usize = self.windows.len();
        let mut i: usize = 0;
        while i < n
            invariant
                i <= n,
                n == self@.len(),
                self@.len() == old(self)@.len(),
                forall|k: int|
                    0 <= k < i ==> self@[k] == for_id(
                        old(self)@[k],
                        id,
                        acknowledged(old(self)@[k], serial),
                    ),
                forall|k: int| i <= k < n ==> self@[k] == old(self)@[k],
            decreases n - i,
        {
            let w = self.windows[i];
            if w.id == id {
                match w.pending {
                    Some(p) => {
                        if p.serial.value == serial.value {
                            self.windows[i] = Window { rect: p.rect, pending: None, ..w };
                        }
                    },
                    None => {},
                }
            }
            i = i + 1;
        }
        assert(self@ =~= with_acknowledged(old(self)@, id, serial));
    }
}

} // verus!
