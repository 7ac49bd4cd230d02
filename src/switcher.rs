use std::collections::VecDeque;

use vstd::prelude::*;

use crate::events::{WorkspaceChange, WorkspaceChangeNotice, WorkspaceSwitcherEvent};
use crate::tree::{name_by_id, workspace_name_by_id, WorkspaceTree};

verus! {

/// The switcher's state: the workspace ids from most to least recently used,
/// and the cycle cursor, an index into that list where 0 means that no cycle
/// is under way.
pub struct MruState {
    pub mru: Seq<i64>,
    pub cursor: nat,
}

impl MruState {
    /// No id is listed twice, and the cursor is 0 or a valid index.
    pub open spec fn wf(self) -> bool {
        &&& self.mru.no_duplicates()
        &&& (self.cursor == 0 || self.cursor < self.mru.len())
    }
}

/// The list with `id` at its front and nowhere else.
pub open spec fn promote(mru: Seq<i64>, id: i64) -> Seq<i64> {
    seq![id] + mru.remove_value(id)
}

/// `Trigger`: on a non-empty list the cursor advances by one, wrapping round
/// at the end, and the workspace under it is to be focused.
pub open spec fn trigger_step(s: MruState) -> (MruState, Option<i64>) {
    if s.mru.len() == 0 {
        (s, None)
    } else {
        let c = ((s.cursor + 1) as int % (s.mru.len() as int)) as nat;
        (MruState { mru: s.mru, cursor: c }, Some(s.mru[c as int]))
    }
}

/// Ends a cycle on workspace `id`: it becomes the most recently used and the
/// cursor goes back to 0. Outside a cycle nothing changes.
pub open spec fn commit(s: MruState, id: i64) -> MruState {
    if s.cursor == 0 {
        s
    } else {
        MruState { mru: promote(s.mru, id), cursor: 0 }
    }
}

/// `EndMod`: commits the workspace under the cursor.
pub open spec fn end_modifier_step(s: MruState) -> MruState {
    if s.mru.len() == 0 {
        s
    } else {
        commit(s, s.mru[s.cursor as int])
    }
}

/// A new workspace goes to the back of the list; one already listed stays
/// where it is.
pub open spec fn init_step(s: MruState, id: i64) -> MruState {
    if s.mru.contains(id) {
        s
    } else {
        MruState { mru: s.mru.push(id), cursor: s.cursor }
    }
}

/// A destroyed workspace leaves the list. The cursor keeps pointing at the
/// same entry where that entry stays; where the entry under the cursor is the
/// one destroyed, the cycle is abandoned and the cursor goes back to 0. An
/// unlisted id changes nothing.
pub open spec fn empty_step(s: MruState, id: i64) -> MruState {
    if s.mru.contains(id) {
        let i = s.mru.index_of(id);
        MruState {
            mru: s.mru.remove(i),
            cursor: if i < s.cursor {
                (s.cursor - 1) as nat
            } else if i == s.cursor {
                0
            } else {
                s.cursor
            },
        }
    } else {
        s
    }
}

/// A focus change outside a cycle moves the workspace to the front. During a
/// cycle, a focus on any workspace but the one under the cursor came from
/// elsewhere: it ends the cycle on that workspace.
pub open spec fn focus_step(s: MruState, id: i64) -> MruState {
    if s.cursor == 0 {
        MruState { mru: promote(s.mru, id), cursor: 0 }
    } else if id != s.mru[s.cursor as int] {
        commit(s, id)
    } else {
        s
    }
}

/// A workspace notice. Notices that name no current workspace, and changes
/// of other kinds, are ignored.
pub open spec fn notice_step(s: MruState, n: WorkspaceChangeNotice) -> MruState {
    match n.current {
        None => s,
        Some(id) => match n.change {
            WorkspaceChange::Init => init_step(s, id),
            WorkspaceChange::Empty => empty_step(s, id),
            WorkspaceChange::Focus => focus_step(s, id),
            WorkspaceChange::Other => s,
        },
    }
}

/// One event: the next state, and the workspace to focus, if any.
pub open spec fn step(s: MruState, e: WorkspaceSwitcherEvent) -> (MruState, Option<i64>) {
    match e {
        WorkspaceSwitcherEvent::Trigger => trigger_step(s),
        WorkspaceSwitcherEvent::EndMod => (end_modifier_step(s), None),
        WorkspaceSwitcherEvent::SwayWsEvent(n) => (notice_step(s, n), None),
    }
}

/// The event for a newly created workspace `id`.
pub open spec fn init_event(id: i64) -> WorkspaceSwitcherEvent {
    WorkspaceSwitcherEvent::SwayWsEvent(
        WorkspaceChangeNotice { change: WorkspaceChange::Init, current: Some(id) },
    )
}

/// Two creation notices in a row for the same workspace leave the switcher
/// as one does: a listed id is never listed twice.
pub proof fn lemma_init_idempotent(s: MruState, id: i64)
    ensures
        step(step(s, init_event(id)).0, init_event(id)) == step(s, init_event(id)),
{
    if !s.mru.contains(id) {
        let t = s.mru.push(id);
        assert(t[t.len() - 1] == id);
    }
}

/// The most-recently-used order of workspaces and the Alt-Tab cycle over it.
pub struct AltTabWorkspaceSwitcher {
    mru_workspaces: VecDeque<i64>,
    tab_count: usize,
}

impl View for AltTabWorkspaceSwitcher {
    type V = MruState;

    closed spec fn view(&self) -> MruState {
        MruState { mru: self.mru_workspaces@, cursor: self.tab_count as nat }
    }
}

impl AltTabWorkspaceSwitcher {
    /// An empty list, no cycle.
    pub fn new() -> (r: Self)
        ensures
            r@ == (MruState { mru: Seq::empty(), cursor: 0 }),
            r@.wf(),
    {
        AltTabWorkspaceSwitcher { mru_workspaces: VecDeque::new(), tab_count: 0 }
    }

    /// The first index of `id` in the list.
    fn position(&self, id: i64) -> (r: Option<usize>)
        ensures
            match r {
                Some(i) => {
                    &&& i < self@.mru.len()
                    &&& self@.mru[i as int] == id
                    &&& forall|j: int| 0 <= j < i ==> self@.mru[j] != id
                },
                None => !self@.mru.contains(id),
            },
    {
        let n = self.mru_workspaces.len();
        let mut i: usize = 0;
        while i < n
            invariant
                n == self@.mru.len(),
                i <= n,
                forall|j: int| 0 <= j < i ==> self@.mru[j] != id,
            decreases n - i,
        {
            if self.mru_workspaces[i] == id {
                return Some(i);
            }
            i = i + 1;
        }
        None
    }

    /// Moves `id` to the front of the list, adding it where it was absent.
    /// Only done outside a cycle, so that the cursor stays valid throughout.
    fn move_to_front(&mut self, id: i64)
        requires
            old(self)@.wf(),
            old(self).tab_count == 0,
        ensures
            final(self)@ == (MruState { mru: promote(old(self)@.mru, id), cursor: 0 }),
            final(self)@.wf(),
    {
        let ghost s = self@.mru;
        proof {
            s.index_of_first_ensures(id);
        }
        match self.position(id) {
            Some(i) => {
                proof {
                    let k = s.index_of_first(id)->0;
                    assert(k == i as int) by {
                        if k < i {
                        } else if k > i {
                        }
                    }
                    let rest = s.remove(i as int);
                    assert(rest.no_duplicates()) by {
                        assert forall|a: int, b: int|
                            0 <= a < rest.len() && 0 <= b < rest.len() && a != b
                            implies rest[a] != rest[b] by {
                            let sa = if a < i { a } else { a + 1 };
                            let sb = if b < i { b } else { b + 1 };
                            assert(rest[a] == s[sa]);
                            assert(rest[b] == s[sb]);
                        }
                    }
                }
                self.mru_workspaces.remove(i);
            },
            None => {},
        }
        let ghost rest = self@.mru;
        assert(rest == s.remove_value(id));
        assert(!rest.contains(id)) by {
            if rest.contains(id) {
                let j = choose|j: int| 0 <= j < rest.len() && rest[j] == id;
                if s.contains(id) {
                    let k = s.index_of_first(id)->0;
                    if j < k {
                        assert(s[j] == id);
                    } else {
                        assert(s[j + 1] == id);
                    }
                }
            }
        }
        proof {
            let t = seq![id] + rest;
            assert(t.no_duplicates()) by {
                assert forall|a: int, b: int| 0 <= a < t.len() && 0 <= b < t.len() && a != b
                    implies t[a] != t[b] by {
                    if a == 0 {
                        assert(t[b] == rest[b - 1]);
                    } else if b == 0 {
                        assert(t[a] == rest[a - 1]);
                    } else {
                        assert(t[a] == rest[a - 1]);
                        assert(t[b] == rest[b - 1]);
                    }
                }
            }
        }
        self.mru_workspaces.push_front(id);
    }

    /// Ends a cycle on `new_ws_id`; outside a cycle does nothing.
    fn end_sequence(&mut self, new_ws_id: i64)
        requires
            old(self)@.wf(),
        ensures
            final(self)@ == commit(old(self)@, new_ws_id),
            final(self)@.wf(),
    {
        if self.tab_count == 0 {
            return;
        }
        self.tab_count = 0;
        self.move_to_front(new_ws_id);
    }

    /// Advances the cursor and returns the workspace to focus.
    fn trigger(&mut self) -> (r: Option<i64>)
        requires
            old(self)@.wf(),
        ensures
            (final(self)@, r) == trigger_step(old(self)@),
            final(self)@.wf(),
    {
        let n = self.mru_workspaces.len();
        if n == 0 {
            return None;
        }
        self.tab_count = (self.tab_count + 1) % n;
        Some(self.mru_workspaces[self.tab_count])
    }

    /// Commits the workspace under the cursor.
    fn end_modifier(&mut self)
        requires
            old(self)@.wf(),
        ensures
            final(self)@ == end_modifier_step(old(self)@),
            final(self)@.wf(),
    {
        if self.mru_workspaces.len() == 0 {
            return;
        }
        let id = self.mru_workspaces[self.tab_count];
        self.end_sequence(id);
    }

    /// Lists a newly created workspace last, unless it is already listed.
    fn add_workspace(&mut self, id: i64)
        requires
            old(self)@.wf(),
        ensures
            final(self)@ == init_step(old(self)@, id),
            final(self)@.wf(),
    {
        if self.position(id).is_none() {
            proof {
                let s = self@.mru;
                let t = s.push(id);
                assert forall|a: int, b: int| 0 <= a < t.len() && 0 <= b < t.len() && a != b
                    implies t[a] != t[b] by {
                    if a < s.len() && b < s.len() {
                        assert(t[a] == s[a] && t[b] == s[b]);
                    } else if a < s.len() {
                        assert(t[a] == s[a]);
                    } else if b < s.len() {
                        assert(t[b] == s[b]);
                    }
                }
            }
            self.mru_workspaces.push_back(id);
        }
    }

    /// Removes a destroyed workspace and keeps the cursor on the same entry,
    /// or abandons the cycle where that entry is the one removed.
    fn remove_workspace(&mut self, id: i64)
        requires
            old(self)@.wf(),
        ensures
            final(self)@ == empty_step(old(self)@, id),
            final(self)@.wf(),
    {
        let ghost s = self@.mru;
        match self.position(id) {
            Some(idx) => {
                proof {
                    let k = s.index_of(id);
                    assert(s.contains(id));
                    assert(k == idx as int);
                    let rest = s.remove(idx as int);
                    assert(rest.no_duplicates()) by {
                        assert forall|a: int, b: int|
                            0 <= a < rest.len() && 0 <= b < rest.len() && a != b
                            implies rest[a] != rest[b] by {
                            let sa = if a < idx { a } else { a + 1 };
                            let sb = if b < idx { b } else { b + 1 };
                            assert(rest[a] == s[sa]);
                            assert(rest[b] == s[sb]);
                        }
                    }
                }
                if idx < self.tab_count {
                    self.tab_count = self.tab_count - 1;
                } else if idx == self.tab_count {
                    self.tab_count = 0;
                }
                self.mru_workspaces.remove(idx);
            },
            None => {},
        }
    }

    /// A focus change: see `focus_step`.
    fn focus_workspace(&mut self, id: i64)
        requires
            old(self)@.wf(),
        ensures
            final(self)@ == focus_step(old(self)@, id),
            final(self)@.wf(),
    {
        if self.tab_count == 0 {
            self.move_to_front(id);
        } else if id != self.mru_workspaces[self.tab_count] {
            self.end_sequence(id);
        }
    }

    /// Applies a workspace notice from the window manager.
    fn handle_ws_event(&mut self, ws_event: WorkspaceChangeNotice)
        requires
            old(self)@.wf(),
        ensures
            final(self)@ == notice_step(old(self)@, ws_event),
            final(self)@.wf(),
    {
        match ws_event.current {
            None => {},
            Some(current_id) => match ws_event.change {
                WorkspaceChange::Init => self.add_workspace(current_id),
                WorkspaceChange::Empty => self.remove_workspace(current_id),
                WorkspaceChange::Focus => self.focus_workspace(current_id),
                WorkspaceChange::Other => {},
            },
        }
    }

    /// Processes one event and returns the workspace to focus, if any.
    pub fn handle_event(&mut self, evt: WorkspaceSwitcherEvent) -> (r: Option<i64>)
        requires
            old(self)@.wf(),
        ensures
            (final(self)@, r) == step(old(self)@, evt),
            final(self)@.wf(),
    {
        let r = match evt {
            WorkspaceSwitcherEvent::Trigger => self.trigger(),
            WorkspaceSwitcherEvent::EndMod => {
                self.end_modifier();
                None
            },
            WorkspaceSwitcherEvent::SwayWsEvent(n) => {
                self.handle_ws_event(n);
                None
            },
        };
        r
    }

    /// The names of the listed workspaces, most recently used first, as the
    /// tree gives them (`None` for an id the tree does not name).
    pub fn workspace_names<'a>(&self, tree: &'a WorkspaceTree) -> (r: Vec<Option<&'a str>>)
        ensures
            r@.len() == self@.mru.len(),
            forall|i: int|
                0 <= i < r@.len() ==> match #[trigger] r@[i] {
                    Some(n) => name_by_id(*tree, self@.mru[i]) == Some(n@),
                    None => name_by_id(*tree, self@.mru[i]) is None,
                },
    {
        let n = self.mru_workspaces.len();
        let mut names: Vec<Option<&'a str>> = Vec::new();
        let mut i: usize = 0;
        while i < n
            invariant
                n == self@.mru.len(),
                i <= n,
                names@.len() == i,
                forall|k: int|
                    0 <= k < i ==> match #[trigger] names@[k] {
                        Some(m) => name_by_id(*tree, self@.mru[k]) == Some(m@),
                        None => name_by_id(*tree, self@.mru[k]) is None,
                    },
            decreases n - i,
        {
            names.push(workspace_name_by_id(tree, self.mru_workspaces[i]));
            i = i + 1;
        }
        names
    }

    /// The workspace ids, most recently used first.
    pub fn mru_list(&self) -> (r: Vec<i64>)
        ensures
            r@ == self@.mru,
    {
        let n = self.mru_workspaces.len();
        let mut ids: Vec<i64> = Vec::new();
        let mut i: usize = 0;
        while i < n
            invariant
                n == self@.mru.len(),
                i <= n,
                ids@ == self@.mru.subrange(0, i as int),
            decreases n - i,
        {
            ids.push(self.mru_workspaces[i]);
            i = i + 1;
            assert(ids@ =~= self@.mru.subrange(0, i as int));
        }
        assert(self@.mru.subrange(0, n as int) =~= self@.mru);
        ids
    }

    /// The cycle cursor: 0 outside a cycle.
    pub fn cycle_cursor(&self) -> (r: usize)
        ensures
            r as nat == self@.cursor,
    {
        self.tab_count
    }
}

} // verus!
