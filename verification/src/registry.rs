//! The table of open result windows, keyed by window handle, and the
//! operations that read or change several windows at once: linking,
//! grouping, closing a chain, and the button actions routed by handle.

use vstd::prelude::*;
use crate::layout::ResizeEdge;
use crate::text::owned;
use crate::window_state::{
    redo_step, redo_text, undo_step, undo_text, DisplayState, DragState, InteractionMode,
    SpeakerAction, TtsState, WindowState, spec_speaker_action,
};

verus! {

/// Open result windows by handle. Every handle occurs at most once.
pub struct WindowRegistry {
    entries: Vec<(isize, WindowState)>,
}

spec fn has_key(s: Seq<(isize, WindowState)>, k: isize) -> bool {
    exists|i: int| 0 <= i < s.len() && s[i].0 == k
}

spec fn key_before(s: Seq<(isize, WindowState)>, n: int, k: isize) -> bool {
    exists|j: int| 0 <= j < n && s[j].0 == k
}

spec fn keys_unique(s: Seq<(isize, WindowState)>) -> bool {
    forall|i: int, j: int| 0 <= i < s.len() && 0 <= j < s.len() && i != j ==> s[i].0 != s[j].0
}

spec fn map_of(s: Seq<(isize, WindowState)>) -> Map<isize, WindowState> {
    Map::new(
        |k: isize| has_key(s, k),
        |k: isize| s[choose|i: int| 0 <= i < s.len() && s[i].0 == k].1,
    )
}

impl View for WindowRegistry {
    type V = Map<isize, WindowState>;

    closed spec fn view(&self) -> Map<isize, WindowState> {
        map_of(self.entries@)
    }
}

proof fn lemma_map_at(s: Seq<(isize, WindowState)>, i: int)
    requires
        keys_unique(s),
        0 <= i < s.len(),
    ensures
        map_of(s).dom().contains(s[i].0),
        map_of(s)[s[i].0] == s[i].1,
{
    let k = s[i].0;
    assert(has_key(s, k));
    let j = choose|j: int| 0 <= j < s.len() && s[j].0 == k;
    assert(j == i);
}

/// A sequence of distinct entries describes exactly the map `m`.
proof fn lemma_map_ext(s: Seq<(isize, WindowState)>, m: Map<isize, WindowState>)
    requires
        keys_unique(s),
        forall|k: isize| #[trigger] m.dom().contains(k) <==> has_key(s, k),
        forall|i: int| 0 <= i < s.len() ==> m[#[trigger] s[i].0] == s[i].1,
    ensures
        map_of(s) == m,
{
    assert forall|k: isize| #[trigger] map_of(s).dom().contains(k) implies map_of(s)[k] == m[k] by {
        let i = choose|i: int| 0 <= i < s.len() && s[i].0 == k;
        lemma_map_at(s, i);
    }
    assert(map_of(s) =~= m);
}

proof fn lemma_map_remove(s: Seq<(isize, WindowState)>, i: int)
    requires
        keys_unique(s),
        0 <= i < s.len(),
    ensures
        keys_unique(s.remove(i)),
        map_of(s.remove(i)) == map_of(s).remove(s[i].0),
{
    let r = s.remove(i);
    let m = map_of(s).remove(s[i].0);
    assert forall|a: int, b: int| 0 <= a < r.len() && 0 <= b < r.len() && a != b implies r[a].0
        != r[b].0 by {
        let a2 = if a < i { a } else { a + 1 };
        let b2 = if b < i { b } else { b + 1 };
        assert(r[a] == s[a2] && r[b] == s[b2]);
    }
    assert forall|k: isize| #[trigger] m.dom().contains(k) <==> has_key(r, k) by {
        if m.dom().contains(k) {
            let j = choose|j: int| 0 <= j < s.len() && s[j].0 == k;
            assert(j != i);
            let j2 = if j < i { j } else { j - 1 };
            assert(r[j2] == s[j]);
        }
        if has_key(r, k) {
            let j = choose|j: int| 0 <= j < r.len() && r[j].0 == k;
            let j2 = if j < i { j } else { j + 1 };
            assert(r[j] == s[j2]);
            assert(has_key(s, k));
        }
    }
    assert forall|a: int| 0 <= a < r.len() implies m[#[trigger] r[a].0] == r[a].1 by {
        let a2 = if a < i { a } else { a + 1 };
        assert(r[a] == s[a2]);
        lemma_map_at(s, a2);
    }
    lemma_map_ext(r, m);
}

proof fn lemma_map_push(s: Seq<(isize, WindowState)>, k: isize, v: WindowState)
    requires
        keys_unique(s),
        !has_key(s, k),
    ensures
        keys_unique(s.push((k, v))),
        map_of(s.push((k, v))) == map_of(s).insert(k, v),
{
    let p = s.push((k, v));
    let m = map_of(s).insert(k, v);
    assert forall|a: int, b: int| 0 <= a < p.len() && 0 <= b < p.len() && a != b implies p[a].0
        != p[b].0 by {
        if a < s.len() && b < s.len() {
        } else if a < s.len() {
            assert(s[a].0 != k);
        } else {
            assert(s[b].0 != k);
        }
    }
    assert forall|j: isize| #[trigger] m.dom().contains(j) <==> has_key(p, j) by {
        if j == k {
            assert(p[s.len() as int].0 == k);
        } else if m.dom().contains(j) {
            let w = choose|w: int| 0 <= w < s.len() && s[w].0 == j;
            assert(p[w] == s[w]);
        }
        if has_key(p, j) && j != k {
            let w = choose|w: int| 0 <= w < p.len() && p[w].0 == j;
            assert(w < s.len());
            assert(has_key(s, j));
        }
    }
    assert forall|a: int| 0 <= a < p.len() implies m[#[trigger] p[a].0] == p[a].1 by {
        if a < s.len() {
            assert(s[a].0 != k);
            lemma_map_at(s, a);
        }
    }
    lemma_map_ext(p, m);
}

impl WindowRegistry {
    /// Handles are unique in the table.
    #[verifier::type_invariant]
    spec fn wf(&self) -> bool {
        keys_unique(self.entries@)
    }

    /// An empty table.
    pub fn new() -> (r: WindowRegistry)
        ensures
            r@ == Map::<isize, WindowState>::empty(),
    {
        let r = WindowRegistry { entries: Vec::new() };
        assert(r@ =~= Map::<isize, WindowState>::empty());
        r
    }

    fn find_index(&self, key: isize) -> (r: Option<usize>)
        ensures
            r matches Some(i) ==> i < self.entries@.len() && self.entries@[i as int].0 == key,
            r is None ==> !has_key(self.entries@, key),
            r is None <==> !self@.dom().contains(key),
    {
        let mut i: usize = 0;
        while i < self.entries.len()
            invariant
                i <= self.entries@.len(),
                forall|j: int| 0 <= j < i ==> self.entries@[j].0 != key,
            decreases self.entries@.len() - i,
        {
            if self.entries[i].0 == key {
                return Some(i);
            }
            i = i + 1;
        }
        None
    }

    /// Whether a window with this handle is open.
    pub fn contains(&self, key: isize) -> (r: bool)
        ensures
            r == self@.dom().contains(key),
    {
        self.find_index(key).is_some()
    }

    /// Number of open windows.
    pub fn len(&self) -> (n: usize)
        ensures
            n == self@.dom().len(),
    {
        proof {
            use_type_invariant(self);
        }
        proof {
            self.lemma_dom_len();
        }
        self.entries.len()
    }

    proof fn lemma_dom_len(&self)
        requires
            self.wf(),
        ensures
            self@.dom().finite(),
            self@.dom().len() == self.entries@.len(),
    {
        let ks = self.entries@.map_values(|e: (isize, WindowState)| e.0);
        assert(ks.no_duplicates()) by {
            assert forall|a: int, b: int| 0 <= a < ks.len() && 0 <= b < ks.len() && a != b implies ks[a]
                != ks[b] by {
                assert(ks[a] == self.entries@[a].0 && ks[b] == self.entries@[b].0);
            }
        }
        ks.unique_seq_to_set();
        assert(ks.to_set() =~= self@.dom()) by {
            assert forall|k: isize| ks.to_set().contains(k) <==> self@.dom().contains(k) by {
                if ks.to_set().contains(k) {
                    let a = choose|a: int| 0 <= a < ks.len() && ks[a] == k;
                    assert(self.entries@[a].0 == k);
                }
                if self@.dom().contains(k) {
                    let a = choose|a: int| 0 <= a < self.entries@.len() && self.entries@[a].0 == k;
                    assert(ks[a] == k);
                }
            }
        }
    }

    /// The state of the window with this handle.
    pub fn get(&self, key: isize) -> (r: Option<&WindowState>)
        ensures
            self@.dom().contains(key) ==> (r matches Some(s) && *s == self@[key]),
            !self@.dom().contains(key) ==> r is None,
    {
        proof {
            use_type_invariant(self);
        }
        match self.find_index(key) {
            Some(i) => {
                proof {
                    lemma_map_at(self.entries@, i as int);
                }
                Some(&self.entries[i].1)
            },
            None => None,
        }
    }

    /// Add a window, replacing the state of one with the same handle.
    pub fn insert(&mut self, key: isize, state: WindowState)
        ensures
            final(self)@ == old(self)@.insert(key, state),
    {
        let _ = self.remove(key);
        proof {
            use_type_invariant(&*self);
        }
        let mut entries: Vec<(isize, WindowState)> = Vec::new();
        std::mem::swap(&mut entries, &mut self.entries);
        proof {
            lemma_map_push(entries@, key, state);
        }
        entries.push((key, state));
        self.entries = entries;
        proof {
            assert(old(self)@.insert(key, state) =~= old(self)@.remove(key).insert(key, state));
        }
    }

    /// Remove a window, returning its state if it was open.
    pub fn remove(&mut self, key: isize) -> (r: Option<WindowState>)
        ensures
            final(self)@ == old(self)@.remove(key),
            !final(self)@.dom().contains(key),
            old(self)@.dom().contains(key) ==> r == Some(old(self)@[key]),
            !old(self)@.dom().contains(key) ==> r is None,
    {
        proof {
            use_type_invariant(&*self);
        }
        match self.find_index(key) {
            Some(i) => {
                proof {
                    lemma_map_at(self.entries@, i as int);
                    lemma_map_remove(self.entries@, i as int);
                }
                let mut entries: Vec<(isize, WindowState)> = Vec::new();
                std::mem::swap(&mut entries, &mut self.entries);
                let (_, state) = entries.remove(i);
                self.entries = entries;
                Some(state)
            },
            None => {
                proof {
                    assert(old(self)@.remove(key) =~= old(self)@);
                }
                None
            },
        }
    }
}

/// Which windows a key listing selects.
#[derive(Clone, Copy, Debug, PartialEq, Eq, Structural)]
pub enum KeyFilter {
    /// Every open window.
    All,
    /// Windows in the chain identified by this cancellation token.
    Token(u64),
    /// Windows whose refine bar is open.
    Editing,
}

pub open spec fn filter_holds(f: KeyFilter, s: WindowState) -> bool {
    match f {
        KeyFilter::All => true,
        KeyFilter::Token(t) => s.cancellation_token == Some(t),
        KeyFilter::Editing => s.is_editing,
    }
}

/// `keys` lists, once each, exactly the windows of `m` that `f` selects.
pub open spec fn lists_selected(m: Map<isize, WindowState>, f: KeyFilter, keys: Seq<isize>) -> bool {
    &&& keys.no_duplicates()
    &&& forall|k: isize| #[trigger] keys.contains(k) <==> (m.dom().contains(k) && filter_holds(f, m[k]))
}

impl WindowRegistry {
    /// Handles of the windows that `f` selects, each once, in table order.
    pub fn keys_where(&self, f: KeyFilter) -> (r: Vec<isize>)
        ensures
            lists_selected(self@, f, r@),
    {
        proof {
            use_type_invariant(self);
        }
        let mut r: Vec<isize> = Vec::new();
        let mut i: usize = 0;
        while i < self.entries.len()
            invariant
                self.wf(),
                i <= self.entries@.len(),
                r@.no_duplicates(),
                forall|a: int| 0 <= a < r@.len() ==> key_before(self.entries@, i as int, #[trigger] r@[a]),
                forall|j: int| 0 <= j < i && filter_holds(f, self.entries@[j].1) ==> r@.contains(
                    #[trigger] self.entries@[j].0,
                ),
                forall|a: int| #![trigger r@[a]] 0 <= a < r@.len() ==> (forall|j: int| 0 <= j < self.entries@.len()
                    && self.entries@[j].0 == r@[a] ==> filter_holds(f, #[trigger] self.entries@[j].1)),
            decreases self.entries@.len() - i,
        {
            let sel = match f {
                KeyFilter::All => true,
                KeyFilter::Token(t) => self.entries[i].1.cancellation_token == Some(t),
                KeyFilter::Editing => self.entries[i].1.is_editing,
            };
            if sel {
                let k = self.entries[i].0;
                proof {
                    assert forall|a: int| 0 <= a < r@.len() implies r@[a] != k by {
                        assert(key_before(self.entries@, i as int, r@[a]));
                        let j = choose|j: int| 0 <= j < i && self.entries@[j].0 == r@[a];
                        assert(j != i);
                    }
                }
                let ghost old_r = r@;
                r.push(k);
                proof {
                    assert forall|a: int| 0 <= a < r@.len() implies key_before(self.entries@, i + 1, #[trigger] r@[a]) by {
                        if a == r@.len() - 1 {
                            assert(self.entries@[i as int].0 == r@[a]);
                        } else {
                            assert(r@[a] == old_r[a]);
                            assert(key_before(self.entries@, i as int, old_r[a]));
                        }
                    }
                    assert forall|a: int| #![trigger r@[a]] 0 <= a < r@.len() implies (forall|j: int| 0 <= j < self.entries@.len()
                        && self.entries@[j].0 == r@[a] ==> filter_holds(f, #[trigger] self.entries@[j].1)) by {
                        if a == r@.len() - 1 {
                            assert forall|j: int| 0 <= j < self.entries@.len() && self.entries@[j].0 == r@[a]
                                implies filter_holds(f, #[trigger] self.entries@[j].1) by {
                                assert(j == i);
                            }
                        }
                    }
                    assert forall|j: int| 0 <= j < i + 1 && filter_holds(f, self.entries@[j].1) implies r@.contains(
                        #[trigger] self.entries@[j].0) by {
                        if j == i {
                            assert(r@[r@.len() - 1] == k);
                        } else {
                            assert(old_r.contains(self.entries@[j].0));
                            let w = choose|w: int| 0 <= w < old_r.len() && old_r[w] == self.entries@[j].0;
                            assert(r@[w] == old_r[w]);
                        }
                    }
                }
            } else {
                proof {
                    assert forall|a: int| 0 <= a < r@.len() implies key_before(self.entries@, i + 1, #[trigger] r@[a]) by {
                        assert(key_before(self.entries@, i as int, r@[a]));
                    }
                }
            }
            i = i + 1;
        }
        proof {
            assert forall|k: isize| #[trigger] r@.contains(k) <==> (self@.dom().contains(k) && filter_holds(
                f,
                self@[k],
            )) by {
                if r@.contains(k) {
                    let a = choose|a: int| 0 <= a < r@.len() && r@[a] == k;
                    assert(key_before(self.entries@, i as int, r@[a]));
                    let j = choose|j: int| 0 <= j < i && self.entries@[j].0 == r@[a];
                    lemma_map_at(self.entries@, j);
                }
                if self@.dom().contains(k) && filter_holds(f, self@[k]) {
                    let j = choose|j: int| 0 <= j < self.entries@.len() && self.entries@[j].0 == k;
                    lemma_map_at(self.entries@, j);
                }
            }
        }
        r
    }

    /// The first window (in table order) whose refine bar is open.
    pub fn first_editing(&self) -> (r: Option<isize>)
        ensures
            r matches Some(k) ==> self@.dom().contains(k) && self@[k].is_editing,
            r is None <==> !exists|k: isize| self@.dom().contains(k) && #[trigger] self@[k].is_editing,
    {
        proof {
            use_type_invariant(self);
        }
        let mut i: usize = 0;
        while i < self.entries.len()
            invariant
                self.wf(),
                i <= self.entries@.len(),
                forall|j: int| 0 <= j < i ==> !(#[trigger] self.entries@[j]).1.is_editing,
            decreases self.entries@.len() - i,
        {
            if self.entries[i].1.is_editing {
                proof {
                    lemma_map_at(self.entries@, i as int);
                }
                return Some(self.entries[i].0);
            }
            i = i + 1;
        }
        proof {
            assert forall|k: isize| self@.dom().contains(k) implies !#[trigger] self@[k].is_editing by {
                let j = choose|j: int| 0 <= j < self.entries@.len() && self.entries@[j].0 == k;
                lemma_map_at(self.entries@, j);
                assert(!self.entries@[j].1.is_editing);
            }
        }
        None
    }
}

/// `s` with its linked window set to `other`.
pub open spec fn with_link(s: WindowState, other: isize) -> WindowState {
    WindowState { linked_window: Some(other), ..s }
}

/// The table `m` after window `a`, if open, is linked to `b`.
pub open spec fn set_link(m: Map<isize, WindowState>, a: isize, b: isize) -> Map<isize, WindowState> {
    if m.dom().contains(a) {
        m.insert(a, with_link(m[a], b))
    } else {
        m
    }
}

proof fn lemma_reinsert<V>(m: Map<isize, V>, k: isize, v: V)
    requires
        m.dom().contains(k),
    ensures
        m.remove(k).insert(k, v) == m.insert(k, v),
{
    assert(m.remove(k).insert(k, v) =~= m.insert(k, v));
}

fn relink(reg: &mut WindowRegistry, a: isize, b: isize)
    ensures
        final(reg)@ == set_link(old(reg)@, a, b),
{
    let ghost m0 = reg@;
    match reg.remove(a) {
        Some(s) => {
            let s1 = WindowState { linked_window: Some(b), ..s };
            proof {
                lemma_reinsert(m0, a, s1);
            }
            reg.insert(a, s1);
        },
        None => {},
    }
}

/// Link two windows to each other: each open one remembers the other.
pub fn link_windows(reg: &mut WindowRegistry, hwnd1: isize, hwnd2: isize)
    ensures
        final(reg)@ == set_link(set_link(old(reg)@, hwnd1, hwnd2), hwnd2, hwnd1),
{
    relink(reg, hwnd1, hwnd2);
    relink(reg, hwnd2, hwnd1);
}

/// Whether any window has its refine bar open.
pub fn is_any_refine_active(reg: &WindowRegistry) -> (r: bool)
    ensures
        r == exists|k: isize| reg@.dom().contains(k) && #[trigger] reg@[k].is_editing,
{
    reg.first_editing().is_some()
}

/// A window whose refine bar is open, if any.
pub fn get_active_refine_parent(reg: &WindowRegistry) -> (r: Option<isize>)
    ensures
        r matches Some(k) ==> reg@.dom().contains(k) && reg@[k].is_editing,
        r is None <==> !exists|k: isize| reg@.dom().contains(k) && #[trigger] reg@[k].is_editing,
{
    reg.first_editing()
}

/// Every open window, for closing them all.
pub fn trigger_close_all(reg: &WindowRegistry) -> (r: Vec<isize>)
    ensures
        lists_selected(reg@, KeyFilter::All, r@),
{
    reg.keys_where(KeyFilter::All)
}

/// The windows of the chain identified by `token`, which are to be closed.
pub fn close_windows_with_token(reg: &WindowRegistry, token: u64) -> (r: Vec<isize>)
    ensures
        lists_selected(reg@, KeyFilter::Token(token), r@),
{
    reg.keys_where(KeyFilter::Token(token))
}

/// What must happen after a window was destroyed.
pub struct DestroyOutcome {
    /// Speech of the destroyed window that is still to be stopped.
    pub tts_to_stop: Option<u64>,
    /// The other windows of its chain, to be closed as well.
    pub to_close: Vec<isize>,
}

/// What destroying `hwnd` in the table `m` must stop and close: its speech,
/// if any, and the other windows sharing its cancellation token.
pub open spec fn destroy_outcome_ok(m: Map<isize, WindowState>, hwnd: isize, out: DestroyOutcome) -> bool {
    &&& !out.to_close@.contains(hwnd)
    &&& !m.dom().contains(hwnd) ==> out.tts_to_stop is None && out.to_close@.len() == 0
    &&& m.dom().contains(hwnd) ==> {
        let s = m[hwnd];
        &&& out.tts_to_stop == (if s.tts.tts_request_id != 0 { Some(s.tts.tts_request_id) } else { None })
        &&& match s.cancellation_token {
            Some(t) => lists_selected(m.remove(hwnd), KeyFilter::Token(t), out.to_close@),
            None => out.to_close@.len() == 0,
        }
    }
}

/// A window was destroyed: it leaves the table; its speech, if any, is to
/// be stopped, and the other windows sharing its cancellation token are to
/// be closed.
pub fn handle_destroy(reg: &mut WindowRegistry, hwnd: isize) -> (out: DestroyOutcome)
    ensures
        final(reg)@ == old(reg)@.remove(hwnd),
        destroy_outcome_ok(old(reg)@, hwnd, out),
{
    match reg.remove(hwnd) {
        Some(state) => {
            let tts_to_stop = if state.tts.tts_request_id != 0 {
                Some(state.tts.tts_request_id)
            } else {
                None
            };
            let to_close = match state.cancellation_token {
                Some(t) => reg.keys_where(KeyFilter::Token(t)),
                None => Vec::new(),
            };
            DestroyOutcome { tts_to_stop, to_close }
        },
        None => DestroyOutcome { tts_to_stop: None, to_close: Vec::new() },
    }
}

/// Set the mouse interaction mode of a window.
pub fn set_window_interaction_mode(reg: &mut WindowRegistry, hwnd: isize, mode: InteractionMode)
    ensures
        !old(reg)@.dom().contains(hwnd) ==> final(reg)@ == old(reg)@,
        old(reg)@.dom().contains(hwnd) ==> final(reg)@ == old(reg)@.insert(
            hwnd,
            WindowState {
                drag: DragState { interaction_mode: mode, ..old(reg)@[hwnd].drag },
                ..old(reg)@[hwnd]
            },
        ),
{
    let ghost m0 = reg@;
    match reg.remove(hwnd) {
        Some(s) => {
            let s1 = WindowState { drag: DragState { interaction_mode: mode, ..s.drag }, ..s };
            proof {
                lemma_reinsert(m0, hwnd, s1);
            }
            reg.insert(hwnd, s1);
        },
        None => {},
    }
}

/// Copy action: the text of an open window with a non-empty text, which is
/// then marked as copied.
pub fn trigger_copy(reg: &mut WindowRegistry, hwnd: isize) -> (text: Option<String>)
    ensures
        !(old(reg)@.dom().contains(hwnd) && old(reg)@[hwnd].texts.full_text@.len() > 0) ==> text is None
            && final(reg)@ == old(reg)@,
        old(reg)@.dom().contains(hwnd) && old(reg)@[hwnd].texts.full_text@.len() > 0 ==> {
            &&& text == Some(old(reg)@[hwnd].texts.full_text)
            &&& final(reg)@ == old(reg)@.insert(hwnd, WindowState { copy_success: true, ..old(reg)@[hwnd] })
        },
{
    let ghost m0 = reg@;
    match reg.remove(hwnd) {
        Some(s) => {
            if s.texts.full_text.as_str().unicode_len() == 0 {
                proof {
                    lemma_reinsert(m0, hwnd, s);
                    assert(m0.insert(hwnd, s) =~= m0);
                }
                reg.insert(hwnd, s);
                None
            } else {
                let text = s.texts.full_text.clone();
                let s1 = WindowState { copy_success: true, ..s };
                proof {
                    lemma_reinsert(m0, hwnd, s1);
                }
                reg.insert(hwnd, s1);
                Some(text)
            }
        },
        None => None,
    }
}

/// The copied mark of a window is set or cleared.
pub fn set_copy_success(reg: &mut WindowRegistry, hwnd: isize, copied: bool)
    ensures
        !old(reg)@.dom().contains(hwnd) ==> final(reg)@ == old(reg)@,
        old(reg)@.dom().contains(hwnd) ==> final(reg)@ == old(reg)@.insert(
            hwnd,
            WindowState { copy_success: copied, ..old(reg)@[hwnd] },
        ),
{
    let ghost m0 = reg@;
    match reg.remove(hwnd) {
        Some(s) => {
            let s1 = WindowState { copy_success: copied, ..s };
            proof {
                lemma_reinsert(m0, hwnd, s1);
            }
            reg.insert(hwnd, s1);
        },
        None => {},
    }
}

/// The restored text of an undo or redo, with whether the window shows
/// markdown (its view must then be rebuilt).
pub open spec fn restored_with_mode(t: Option<String>, markdown: bool) -> Option<(String, bool)> {
    match t {
        Some(x) => Some((x, markdown)),
        None => None,
    }
}

/// Undo action of the button canvas on a window.
pub fn trigger_undo(reg: &mut WindowRegistry, hwnd: isize) -> (r: Option<(String, bool)>)
    ensures
        !old(reg)@.dom().contains(hwnd) ==> r is None && final(reg)@ == old(reg)@,
        old(reg)@.dom().contains(hwnd) ==> {
            let s = old(reg)@[hwnd];
            &&& r == restored_with_mode(undo_text(s.texts@), s.is_markdown_mode)
            &&& final(reg)@ == old(reg)@.insert(hwnd, WindowState { texts: final(reg)@[hwnd].texts, ..s })
            &&& final(reg)@[hwnd].texts@ == undo_step(s.texts@)
        },
{
    let ghost m0 = reg@;
    match reg.remove(hwnd) {
        Some(mut s) => {
            let restored = s.texts.undo();
            let md = s.is_markdown_mode;
            proof {
                lemma_reinsert(m0, hwnd, s);
            }
            reg.insert(hwnd, s);
            match restored {
                Some(t) => Some((t, md)),
                None => None,
            }
        },
        None => None,
    }
}

/// Redo action of the button canvas on a window.
pub fn trigger_redo(reg: &mut WindowRegistry, hwnd: isize) -> (r: Option<(String, bool)>)
    ensures
        !old(reg)@.dom().contains(hwnd) ==> r is None && final(reg)@ == old(reg)@,
        old(reg)@.dom().contains(hwnd) ==> {
            let s = old(reg)@[hwnd];
            &&& r == restored_with_mode(redo_text(s.texts@), s.is_markdown_mode)
            &&& final(reg)@ == old(reg)@.insert(hwnd, WindowState { texts: final(reg)@[hwnd].texts, ..s })
            &&& final(reg)@[hwnd].texts@ == redo_step(s.texts@)
        },
{
    let ghost m0 = reg@;
    match reg.remove(hwnd) {
        Some(mut s) => {
            let restored = s.texts.redo();
            let md = s.is_markdown_mode;
            proof {
                lemma_reinsert(m0, hwnd, s);
            }
            reg.insert(hwnd, s);
            match restored {
                Some(t) => Some((t, md)),
                None => None,
            }
        },
        None => None,
    }
}

/// Edit action: the refine bar of a window opens or closes; opening it
/// clears the typed input.
pub fn trigger_edit(reg: &mut WindowRegistry, hwnd: isize)
    ensures
        !old(reg)@.dom().contains(hwnd) ==> final(reg)@ == old(reg)@,
        old(reg)@.dom().contains(hwnd) ==> {
            let s = old(reg)@[hwnd];
            let f = final(reg)@[hwnd];
            &&& final(reg)@ == old(reg)@.insert(hwnd, WindowState { is_editing: !s.is_editing, input_text: f.input_text, ..s })
            &&& f.is_editing ==> f.input_text@ == Seq::<char>::empty()
            &&& !f.is_editing ==> f.input_text == s.input_text
        },
{
    let ghost m0 = reg@;
    match reg.remove(hwnd) {
        Some(mut s) => {
            s.toggle_edit();
            proof {
                lemma_reinsert(m0, hwnd, s);
            }
            reg.insert(hwnd, s);
        },
        None => {},
    }
}

/// The refine bar of a window is closed without refining.
pub fn trigger_refine_cancel(reg: &mut WindowRegistry, hwnd: isize)
    ensures
        !old(reg)@.dom().contains(hwnd) ==> final(reg)@ == old(reg)@,
        old(reg)@.dom().contains(hwnd) ==> final(reg)@ == old(reg)@.insert(
            hwnd,
            WindowState { is_editing: false, ..old(reg)@[hwnd] },
        ),
{
    let ghost m0 = reg@;
    match reg.remove(hwnd) {
        Some(s) => {
            let s1 = WindowState { is_editing: false, ..s };
            proof {
                lemma_reinsert(m0, hwnd, s1);
            }
            reg.insert(hwnd, s1);
        },
        None => {},
    }
}

/// Submit a refine prompt for a window: see [`WindowState::submit_refine`].
/// Returns the (text to refine, instruction) pair of the request to start.
pub fn trigger_refine_submit(reg: &mut WindowRegistry, hwnd: isize, text: &str) -> (request: Option<(String, String)>)
    ensures
        (crate::text::is_blank(text@) || !old(reg)@.dom().contains(hwnd)) ==> request is None && final(reg)@ == old(reg)@,
        !crate::text::is_blank(text@) && old(reg)@.dom().contains(hwnd) ==> {
            let s = old(reg)@[hwnd];
            let f = final(reg)@[hwnd];
            &&& final(reg)@ == old(reg)@.insert(hwnd, f)
            &&& f.texts.text_history@ == s.texts.text_history@.push(s.texts.full_text)
            &&& f.texts.redo_history@.len() == 0
            &&& f.texts.full_text@ == Seq::<char>::empty()
            &&& f.input_text == s.texts.full_text
            &&& f.display.pending_text matches Some(p) && p@ == Seq::<char>::empty()
            &&& f.display == (DisplayState {
                pending_text: f.display.pending_text,
                is_streaming_active: true,
                was_streaming_active: true,
                ..s.display
            })
            &&& f == (WindowState {
                texts: f.texts,
                input_text: f.input_text,
                display: f.display,
                is_editing: false,
                is_refining: true,
                ..s
            })
            &&& request matches Some(r) && (r.0@, r.1@) == crate::window_state::spec_refine_request_views(
                s.texts.full_text@,
                s.preset_prompt@,
                text@,
            )
        },
{
    let ghost m0 = reg@;
    match reg.remove(hwnd) {
        Some(mut s) => {
            let request = s.submit_refine(text);
            proof {
                lemma_reinsert(m0, hwnd, s);
                if crate::text::is_blank(text@) {
                    assert(m0.insert(hwnd, s) =~= m0);
                }
            }
            reg.insert(hwnd, s);
            request
        },
        None => None,
    }
}

/// Markdown toggle action: refused (`None`) while the window refines or
/// streams, or when it is not open; otherwise the new mode.
pub fn trigger_markdown_toggle(reg: &mut WindowRegistry, hwnd: isize) -> (r: Option<bool>)
    ensures
        !old(reg)@.dom().contains(hwnd) ==> r is None && final(reg)@ == old(reg)@,
        old(reg)@.dom().contains(hwnd) ==> {
            let s = old(reg)@[hwnd];
            &&& (s.is_refining || s.display.is_streaming_active) ==> r is None && final(reg)@ == old(reg)@
            &&& !(s.is_refining || s.display.is_streaming_active) ==> r == Some(!s.is_markdown_mode)
                && final(reg)@ == old(reg)@.insert(hwnd, WindowState { is_markdown_mode: !s.is_markdown_mode, ..s })
        },
{
    let ghost m0 = reg@;
    match reg.remove(hwnd) {
        Some(mut s) => {
            let r = s.toggle_markdown();
            proof {
                lemma_reinsert(m0, hwnd, s);
                if r is None {
                    assert(m0.insert(hwnd, s) =~= m0);
                }
            }
            reg.insert(hwnd, s);
            r
        },
        None => None,
    }
}

/// Speaker action on a window: see [`TtsState::speaker_click`]. A window
/// that is not open has no text to speak. `is_speaking` tells whether the
/// window's speech request is still playing.
pub fn trigger_speaker(reg: &mut WindowRegistry, hwnd: isize, is_speaking: bool) -> (action: SpeakerAction)
    ensures
        !old(reg)@.dom().contains(hwnd) ==> action == SpeakerAction::NoText && final(reg)@ == old(reg)@,
        old(reg)@.dom().contains(hwnd) ==> {
            let s = old(reg)@[hwnd];
            let f = final(reg)@[hwnd];
            &&& action == spec_speaker_action(s.tts, s.texts.full_text@, is_speaking)
            &&& final(reg)@ == old(reg)@.insert(hwnd, WindowState { tts: f.tts, ..s })
            &&& action == SpeakerAction::Stop ==> f.tts == TtsState { tts_request_id: 0, tts_loading: false }
            &&& action == SpeakerAction::Start ==> f.tts == TtsState { tts_loading: true, ..s.tts }
            &&& (action == SpeakerAction::Ignore || action == SpeakerAction::NoText) ==> f.tts == s.tts
        },
{
    let ghost m0 = reg@;
    match reg.remove(hwnd) {
        Some(mut s) => {
            let action = s.tts.speaker_click(s.texts.full_text.as_str(), is_speaking);
            proof {
                lemma_reinsert(m0, hwnd, s);
            }
            reg.insert(hwnd, s);
            action
        },
        None => SpeakerAction::NoText,
    }
}

/// Record the speech request started for a window.
pub fn set_tts_request(reg: &mut WindowRegistry, hwnd: isize, request_id: u64)
    ensures
        !old(reg)@.dom().contains(hwnd) ==> final(reg)@ == old(reg)@,
        old(reg)@.dom().contains(hwnd) ==> final(reg)@ == old(reg)@.insert(
            hwnd,
            WindowState { tts: TtsState { tts_request_id: request_id, ..old(reg)@[hwnd].tts }, ..old(reg)@[hwnd] },
        ),
{
    let ghost m0 = reg@;
    match reg.remove(hwnd) {
        Some(s) => {
            let s1 = WindowState { tts: TtsState { tts_request_id: request_id, ..s.tts }, ..s };
            proof {
                lemma_reinsert(m0, hwnd, s1);
            }
            reg.insert(hwnd, s1);
        },
        None => {},
    }
}

/// New text for the refine bar of a window. Only a replacement (not an
/// insertion at the cursor) is kept as the window's typed input.
pub fn set_refine_text(reg: &mut WindowRegistry, hwnd: isize, text: &str, is_insert: bool)
    ensures
        (is_insert || !old(reg)@.dom().contains(hwnd)) ==> final(reg)@ == old(reg)@,
        !is_insert && old(reg)@.dom().contains(hwnd) ==> {
            &&& final(reg)@ == old(reg)@.insert(hwnd, WindowState { input_text: final(reg)@[hwnd].input_text, ..old(reg)@[hwnd] })
            &&& final(reg)@[hwnd].input_text@ == text@
        },
{
    if is_insert {
        return;
    }
    let ghost m0 = reg@;
    match reg.remove(hwnd) {
        Some(s) => {
            let s1 = WindowState { input_text: owned(text), ..s };
            proof {
                lemma_reinsert(m0, hwnd, s1);
            }
            reg.insert(hwnd, s1);
        },
        None => {},
    }
}

/// The window `k` is linked to, when both are open.
pub open spec fn linked_of(m: Map<isize, WindowState>, k: isize) -> Option<isize> {
    if m.dom().contains(k) && m[k].linked_window is Some && m.dom().contains(m[k].linked_window->0) {
        m[k].linked_window
    } else {
        None
    }
}

/// `g` follows the links from `start` without repeating a window.
pub open spec fn is_link_path(m: Map<isize, WindowState>, start: isize, g: Seq<isize>) -> bool {
    &&& g.len() >= 1
    &&& g[0] == start
    &&& g.no_duplicates()
    &&& forall|i: int| 0 <= i < g.len() - 1 ==> #[trigger] linked_of(m, g[i]) == Some(g[i + 1])
}

/// `g` follows the links from `start` until a window without a further
/// link, or whose link leads back into `g`.
pub open spec fn is_link_chain(m: Map<isize, WindowState>, start: isize, g: Seq<isize>) -> bool {
    &&& is_link_path(m, start, g)
    &&& match linked_of(m, g.last()) {
        Some(l) => g.contains(l),
        None => true,
    }
}

/// The cancellation token of an open window.
pub open spec fn group_token(m: Map<isize, WindowState>, k: isize) -> Option<u64> {
    if m.dom().contains(k) { m[k].cancellation_token } else { None }
}

/// At least two open windows share the token `t`.
pub open spec fn token_shared(m: Map<isize, WindowState>, t: u64) -> bool {
    exists|a: isize, b: isize|
        a != b && m.dom().contains(a) && m.dom().contains(b) && #[trigger] m[a].cancellation_token == Some(t)
            && #[trigger] m[b].cancellation_token == Some(t)
}

/// The window moves with the other windows of its token rather than along
/// its links.
pub open spec fn moves_by_token(m: Map<isize, WindowState>, k: isize) -> bool {
    group_token(m, k) is Some && token_shared(m, group_token(m, k)->0)
}

proof fn lemma_path_bound(m: Map<isize, WindowState>, start: isize, g: Seq<isize>)
    requires
        m.dom().finite(),
        is_link_path(m, start, g),
    ensures
        g.len() <= m.dom().len() + 1,
{
    let t = g.drop_first();
    assert(t.no_duplicates()) by {
        assert forall|a: int, b: int| 0 <= a < t.len() && 0 <= b < t.len() && a != b implies t[a] != t[b] by {
            assert(t[a] == g[a + 1] && t[b] == g[b + 1]);
        }
    }
    t.unique_seq_to_set();
    assert(t.to_set().subset_of(m.dom())) by {
        assert forall|k: isize| t.to_set().contains(k) implies m.dom().contains(k) by {
            let a = choose|a: int| 0 <= a < t.len() && t[a] == k;
            assert(linked_of(m, g[a]) == Some(g[a + 1]));
        }
    }
    vstd::set_lib::lemma_len_subset(t.to_set(), m.dom());
}

fn vec_contains(v: &Vec<isize>, x: isize) -> (r: bool)
    ensures
        r == v@.contains(x),
{
    let mut i: usize = 0;
    while i < v.len()
        invariant
            i <= v@.len(),
            forall|j: int| 0 <= j < i ==> v@[j] != x,
        decreases v@.len() - i,
    {
        if v[i] == x {
            return true;
        }
        i = i + 1;
    }
    false
}

/// The windows that move together with `hwnd`: the open windows sharing its
/// cancellation token when there are at least two of them, otherwise the
/// chain of linked windows starting at `hwnd`.
pub fn get_window_group(reg: &WindowRegistry, hwnd: isize) -> (g: Vec<isize>)
    ensures
        moves_by_token(reg@, hwnd) ==> lists_selected(reg@, KeyFilter::Token(group_token(reg@, hwnd)->0), g@),
        !moves_by_token(reg@, hwnd) ==> is_link_chain(reg@, hwnd, g@),
{
    let m = Ghost(reg@);
    let token = match reg.get(hwnd) {
        Some(s) => s.cancellation_token,
        None => None,
    };
    if let Some(t) = token {
        let members = reg.keys_where(KeyFilter::Token(t));
        if members.len() > 1 {
            proof {
                let a = members@[0];
                let b = members@[1];
                assert(members@.contains(a) && members@.contains(b));
                assert(m@[a].cancellation_token == Some(t) && m@[b].cancellation_token == Some(t));
            }
            return members;
        }
        proof {
            if token_shared(m@, t) {
                let (a, b) = choose|a: isize, b: isize|
                    a != b && m@.dom().contains(a) && m@.dom().contains(b) && #[trigger] m@[a].cancellation_token
                        == Some(t) && #[trigger] m@[b].cancellation_token == Some(t);
                assert(members@.contains(a) && members@.contains(b));
                assert(false);
            }
        }
    }
    proof {
        use_type_invariant(reg);
        reg.lemma_dom_len();
    }
    let mut g: Vec<isize> = Vec::new();
    g.push(hwnd);
    let mut cur = hwnd;
    loop
        invariant
            m@ == reg@,
            m@.dom().finite(),
            is_link_path(m@, hwnd, g@),
            cur == g@.last(),
        ensures
            is_link_chain(m@, hwnd, g@),
        decreases m@.dom().len() + 1 - g@.len(),
    {
        proof {
            lemma_path_bound(m@, hwnd, g@);
        }
        let next = match reg.get(cur) {
            Some(s) => match s.linked_window {
                Some(l) => if reg.contains(l) && !vec_contains(&g, l) { Some(l) } else { None },
                None => None,
            },
            None => None,
        };
        match next {
            Some(l) => {
                let ghost g0 = g@;
                g.push(l);
                cur = l;
                proof {
                    assert(linked_of(m@, g0.last()) == Some(l));
                    assert forall|i: int| 0 <= i < g@.len() - 1 implies #[trigger] linked_of(m@, g@[i]) == Some(g@[i + 1]) by {
                        if i < g0.len() - 1 {
                            assert(g@[i] == g0[i] && g@[i + 1] == g0[i + 1]);
                            assert(linked_of(m@, g0[i]) == Some(g0[i + 1]));
                        } else {
                            assert(g@[i] == g0.last());
                        }
                    }
                    assert(g@.no_duplicates()) by {
                        assert forall|a: int, b: int| 0 <= a < g@.len() && 0 <= b < g@.len() && a != b implies g@[a] != g@[b] by {
                            if a < g0.len() && b < g0.len() {
                                assert(g@[a] == g0[a] && g@[b] == g0[b]);
                            } else if a < g0.len() {
                                assert(g@[a] == g0[a]);
                                assert(g0.contains(g0[a]));
                            } else {
                                assert(g@[b] == g0[b]);
                                assert(g0.contains(g0[b]));
                            }
                        }
                    }
                    lemma_path_bound(m@, hwnd, g@);
                }
            },
            None => {
                break;
            },
        }
    }
    g
}

/// The chain of linked windows from a window is determined by the links:
/// two chains from the same window are equal.
pub proof fn lemma_link_chain_unique(m: Map<isize, WindowState>, start: isize, g1: Seq<isize>, g2: Seq<isize>)
    requires
        is_link_chain(m, start, g1),
        is_link_chain(m, start, g2),
    ensures
        g1 == g2,
{
    let n = if g1.len() < g2.len() { g1.len() } else { g2.len() };
    assert forall|i: int| 0 <= i < n implies g1[i] == g2[i] by {
        lemma_chain_prefix_agree(m, start, g1, g2, i);
    }
    if g1.len() < g2.len() {
        let k = g1.len() - 1;
        assert(linked_of(m, g2[k]) == Some(g2[k + 1]));
        assert(g1.last() == g2[k]);
        let j = choose|j: int| 0 <= j < g1.len() && g1[j] == g2[k + 1];
        assert(g2[j] == g1[j]);
        assert(false);
    } else if g2.len() < g1.len() {
        let k = g2.len() - 1;
        assert(linked_of(m, g1[k]) == Some(g1[k + 1]));
        assert(g2.last() == g1[k]);
        let j = choose|j: int| 0 <= j < g2.len() && g2[j] == g1[k + 1];
        assert(g1[j] == g2[j]);
        assert(false);
    }
    assert(g1 =~= g2);
}

proof fn lemma_chain_prefix_agree(m: Map<isize, WindowState>, start: isize, g1: Seq<isize>, g2: Seq<isize>, i: int)
    requires
        is_link_path(m, start, g1),
        is_link_path(m, start, g2),
        0 <= i < g1.len(),
        i < g2.len(),
    ensures
        g1[i] == g2[i],
    decreases i,
{
    if i > 0 {
        lemma_chain_prefix_agree(m, start, g1, g2, i - 1);
        assert(linked_of(m, g1[i - 1]) == Some(g1[i]));
        assert(linked_of(m, g2[i - 1]) == Some(g2[i]));
    }
}

/// Two open windows linked to each other form a chain of exactly those two
/// windows.
pub proof fn lemma_linked_pair_moves_together(m: Map<isize, WindowState>, a: isize, b: isize)
    requires
        a != b,
        m.dom().contains(a),
        m.dom().contains(b),
    ensures
        ({
            let linked = set_link(set_link(m, a, b), b, a);
            &&& linked_of(linked, a) == Some(b)
            &&& linked_of(linked, b) == Some(a)
            &&& is_link_chain(linked, a, seq![a, b])
            &&& forall|g: Seq<isize>| is_link_chain(linked, a, g) ==> g == seq![a, b]
        }),
{
    let linked = set_link(set_link(m, a, b), b, a);
    let g = seq![a, b];
    assert(linked_of(linked, a) == Some(b));
    assert(linked_of(linked, b) == Some(a));
    assert(g.no_duplicates());
    assert(linked_of(linked, g[0]) == Some(g[1]));
    assert(g.contains(g[0]));
    assert(is_link_chain(linked, a, g));
    assert forall|h: Seq<isize>| is_link_chain(linked, a, h) implies h == g by {
        lemma_link_chain_unique(linked, a, h, g);
    }
}

/// New text for an open window: it becomes the window text and is pending
/// for display.
pub fn update_window_text(reg: &mut WindowRegistry, hwnd: isize, text: &str)
    ensures
        !old(reg)@.dom().contains(hwnd) ==> final(reg)@ == old(reg)@,
        old(reg)@.dom().contains(hwnd) ==> {
            let s = old(reg)@[hwnd];
            let f = final(reg)@[hwnd];
            &&& final(reg)@ == old(reg)@.insert(hwnd, f)
            &&& f.texts.full_text@ == text@
            &&& f.texts.text_history@ == s.texts.text_history@
            &&& f.texts.redo_history@ == s.texts.redo_history@
            &&& f.display.pending_text matches Some(p) && p@ == text@
            &&& f == (WindowState { texts: f.texts, display: DisplayState { pending_text: f.display.pending_text, ..s.display }, ..s })
        },
{
    let ghost m0 = reg@;
    match reg.remove(hwnd) {
        Some(mut s) => {
            s.update_text(text);
            proof {
                lemma_reinsert(m0, hwnd, s);
            }
            reg.insert(hwnd, s);
        },
        None => {},
    }
}

/// What must happen after a result window was destroyed, beyond the
/// table of windows.
pub struct WindowTeardown {
    pub outcome: DestroyOutcome,
    /// The child window of its refine bar, which was closed.
    pub refine_child: Option<isize>,
    /// No markdown window is left on the button canvas: it hides.
    pub hide_canvas: bool,
}

/// A result window was destroyed: see [`handle_destroy`]. A window that
/// was in the table also loses its refine bar, and every window leaves the
/// button canvas. (Its markdown view, an object of the web view library,
/// is dropped by the caller.)
pub fn destroy_result_window(
    reg: &mut WindowRegistry,
    bars: &mut crate::refine_input::RefineInputs,
    canvas: &mut crate::canvas::CanvasWindows,
    hwnd: isize,
) -> (t: WindowTeardown)
    ensures
        final(reg)@ == old(reg)@.remove(hwnd),
        destroy_outcome_ok(old(reg)@, hwnd, t.outcome),
        old(reg)@.dom().contains(hwnd) ==> final(bars).inputs@ == old(bars).inputs@.remove(hwnd)
            && match t.refine_child {
            Some(c) => old(bars).inputs@.contains_key(hwnd) && c == old(bars).inputs@[hwnd].child,
            None => !old(bars).inputs@.contains_key(hwnd),
        },
        !old(reg)@.dom().contains(hwnd) ==> final(bars).inputs@ == old(bars).inputs@ && t.refine_child is None,
        !final(bars).inputs@.contains_key(hwnd) || !old(reg)@.dom().contains(hwnd),
        final(canvas).windows@ == old(canvas).windows@.remove(hwnd),
        t.hide_canvas == final(canvas).windows@.is_empty(),
{
    let was_open = reg.contains(hwnd);
    let outcome = handle_destroy(reg, hwnd);
    let refine_child = if was_open {
        bars.hide_refine_input(hwnd)
    } else {
        None
    };
    let hide_canvas = canvas.unregister_markdown_window(hwnd);
    WindowTeardown { outcome, refine_child, hide_canvas }
}

} // verus!
