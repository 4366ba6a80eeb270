//! The editor's data model and its input-driven state machine.

use vstd::prelude::*;

verus! {

/// The screen the user is currently looking at; it alone decides which
/// keys are meaningful and which widgets the planner emits.
#[derive(Clone, Copy, PartialEq, Eq, Structural, Debug)]
pub enum ActiveScreen {
    Main,
    Editing,
    Exiting,
}

/// While the editing popup is open, which of the two text boxes
/// receives character input.
#[derive(Clone, Copy, PartialEq, Eq, Structural, Debug)]
pub enum EditingMode {
    Key,
    Value,
}

/// One key press, already stripped of release events by the driver.
#[derive(Clone, Copy, PartialEq, Eq, Structural, Debug)]
pub enum KeyEvent {
    Char(char),
    Enter,
    Backspace,
    Esc,
    Tab,
    Other,
}

/// The decision the state machine hands back from the exit screen; the
/// driver must end its event loop when it receives one.
#[derive(Clone, Copy, PartialEq, Eq, Structural, Debug)]
pub enum ExitDecision {
    CommitAndQuit,
    QuitWithoutSaving,
}

/// The mathematical contents of an association list: later entries win,
/// exactly as repeated `Map::insert` does.
pub open spec fn map_of(s: Seq<(Seq<char>, Seq<char>)>) -> Map<Seq<char>, Seq<char>>
    decreases s.len(),
{
    if s.len() == 0 {
        Map::empty()
    } else {
        map_of(s.drop_last()).insert(s.last().0, s.last().1)
    }
}

/// The accumulated key-to-value pairs. Keys are unique; iteration order
/// carries no meaning. Viewed as a `Map` from key characters to value
/// characters.
pub struct PairStore {
    entries: Vec<(String, String)>,
}

impl View for PairStore {
    type V = Map<Seq<char>, Seq<char>>;

    closed spec fn view(&self) -> Map<Seq<char>, Seq<char>> {
        map_of(self.entries_seq())
    }
}

impl PairStore {
    /// The stored pairs, in storage order, as sequences of characters.
    pub closed spec fn entries_seq(&self) -> Seq<(Seq<char>, Seq<char>)> {
        self.entries@.map_values(|p: (String, String)| (p.0@, p.1@))
    }

    /// Every stored key occurs exactly once.
    pub open spec fn wf(&self) -> bool {
        forall|i: int, j: int|
            0 <= i < j < self.entries_seq().len() ==> self.entries_seq()[i].0
                != self.entries_seq()[j].0
    }

    pub open spec fn len_spec(&self) -> nat {
        self.entries_seq().len()
    }

    pub fn new() -> (r: PairStore)
        ensures
            r.wf(),
            r@ == Map::<Seq<char>, Seq<char>>::empty(),
            r.len_spec() == 0,
    {
        PairStore { entries: Vec::new() }
    }

    pub fn len(&self) -> (n: usize)
        ensures
            n == self.len_spec(),
    {
        self.entries.len()
    }

    pub fn key_at(&self, i: usize) -> (k: &String)
        requires
            i < self.len_spec(),
        ensures
            k@ == self.entries_seq()[i as int].0,
    {
        &self.entries[i].0
    }

    pub fn value_at(&self, i: usize) -> (v: &String)
        requires
            i < self.len_spec(),
        ensures
            v@ == self.entries_seq()[i as int].1,
    {
        &self.entries[i].1
    }

    /// A key present at some position is mapped, by the view, to the
    /// value stored beside it.
    proof fn lemma_lookup(t: Seq<(Seq<char>, Seq<char>)>, i: int)
        requires
            0 <= i < t.len(),
            forall|p: int, q: int| 0 <= p < q < t.len() ==> t[p].0 != t[q].0,
        ensures
            map_of(t).contains_key(t[i].0),
            map_of(t)[t[i].0] == t[i].1,
        decreases t.len(),
    {
        if i == t.len() - 1 {
        } else {
            let u = t.drop_last();
            assert(u[i] == t[i]);
            Self::lemma_lookup(u, i);
            assert(t[i].0 != t.last().0);
        }
    }

    /// A key that stands at no position is absent from the view.
    proof fn lemma_absent(t: Seq<(Seq<char>, Seq<char>)>, k: Seq<char>)
        requires
            forall|p: int| 0 <= p < t.len() ==> t[p].0 != k,
        ensures
            !map_of(t).contains_key(k),
        decreases t.len(),
    {
        if t.len() > 0 {
            Self::lemma_absent(t.drop_last(), k);
        }
    }

    /// Overwriting the value at position `i` is, on the view, an insert
    /// at the key stored there.
    proof fn lemma_update(t: Seq<(Seq<char>, Seq<char>)>, i: int, v: Seq<char>)
        requires
            0 <= i < t.len(),
            forall|p: int, q: int| 0 <= p < q < t.len() ==> t[p].0 != t[q].0,
        ensures
            map_of(t.update(i, (t[i].0, v))) == map_of(t).insert(t[i].0, v),
        decreases t.len(),
    {
        let u = t.update(i, (t[i].0, v));
        if i == t.len() - 1 {
            assert(u.drop_last() =~= t.drop_last());
            assert(u.last() == (t[i].0, v));
            assert(map_of(u) =~= map_of(t).insert(t[i].0, v));
        } else {
            let td = t.drop_last();
            assert(u.drop_last() =~= td.update(i, (td[i].0, v)));
            Self::lemma_update(td, i, v);
            assert(u.last() == t.last());
            assert(t[i].0 != t.last().0);
            assert(map_of(u) =~= map_of(t).insert(t[i].0, v));
        }
    }

    /// The map of an association list with unique keys has a finite
    /// domain holding exactly one key per entry.
    proof fn lemma_map_of_count(t: Seq<(Seq<char>, Seq<char>)>)
        requires
            forall|p: int, q: int| 0 <= p < q < t.len() ==> t[p].0 != t[q].0,
        ensures
            map_of(t).dom().finite(),
            map_of(t).dom().len() == t.len(),
        decreases t.len(),
    {
        broadcast use vstd::set::group_set_axioms;

        if t.len() == 0 {
            assert(map_of(t).dom() =~= Set::<Seq<char>>::empty());
        } else {
            let td = t.drop_last();
            assert(forall|p: int| 0 <= p < td.len() ==> td[p].0 == t[p].0);
            Self::lemma_map_of_count(td);
            Self::lemma_absent(td, t.last().0);
            assert(map_of(t).dom() =~= map_of(td).dom().insert(t.last().0));
            assert(!map_of(td).dom().contains(t.last().0));
        }
    }

    /// Law: the map view carries exactly one entry per stored pair —
    /// its domain is finite, with the entry count as its size. With
    /// [`PairStore::insert`]'s contract this lets a caller conclude
    /// that inserting a fresh key grows the object by exactly one
    /// entry, and an existing key by none.
    pub proof fn lemma_entry_count(&self)
        requires
            self.wf(),
        ensures
            self@.dom().finite(),
            self@.dom().len() == self.len_spec(),
    {
        Self::lemma_map_of_count(self.entries_seq());
    }

    /// Inserts the pair, overwriting the value of an existing equal key;
    /// the entry count grows only when the key is new.
    pub fn insert(&mut self, key: String, value: String)
        requires
            old(self).wf(),
        ensures
            final(self).wf(),
            final(self)@ == old(self)@.insert(key@, value@),
            old(self)@.contains_key(key@) ==> final(self).len_spec() == old(self).len_spec(),
            !old(self)@.contains_key(key@) ==> final(self).len_spec() == old(self).len_spec()
                + 1,
    {
        let ghost t = self.entries_seq();
        let n: usize = self.entries.len();
        let mut i: usize = 0;
        while i < n
            invariant
                n == self.entries@.len(),
                i <= n,
                self == old(self),
                self.wf(),
                t == self.entries_seq(),
                forall|p: int| 0 <= p < i ==> self.entries_seq()[p].0 != key@,
            decreases n - i,
        {
            if self.entries[i].0 == key {
                proof {
                    assert(t[i as int].0 == key@);
                    Self::lemma_lookup(t, i as int);
                    Self::lemma_update(t, i as int, value@);
                }
                self.entries.set(i, (key, value));
                proof {
                    assert(self.entries_seq() =~= t.update(i as int, (t[i as int].0, value@)));
                }
                return ;
            }
            proof {
                assert(self.entries_seq()[i as int].0 != key@);
            }
            i += 1;
        }
        proof {
            Self::lemma_absent(t, key@);
        }
        self.entries.push((key, value));
        proof {
            assert(self.entries_seq() =~= t.push((key@, value@)));
            assert(self.entries_seq().drop_last() =~= t);
            assert(map_of(self.entries_seq()) =~= map_of(t).insert(key@, value@));
        }
    }

    /// Looks a key up, as the view does.
    pub fn get(&self, key: &String) -> (r: Option<&String>)
        requires
            self.wf(),
        ensures
            match r {
                Some(v) => self@.contains_key(key@) && v@ == self@[key@],
                None => !self@.contains_key(key@),
            },
    {
        let ghost t = self.entries_seq();
        let n: usize = self.entries.len();
        let mut i: usize = 0;
        while i < n
            invariant
                n == self.entries@.len(),
                i <= n,
                self.wf(),
                t == self.entries_seq(),
                forall|p: int| 0 <= p < i ==> self.entries_seq()[p].0 != key@,
            decreases n - i,
        {
            if self.entries[i].0 == *key {
                proof {
                    Self::lemma_lookup(t, i as int);
                }
                return Some(&self.entries[i].1);
            }
            proof {
                assert(self.entries_seq()[i as int].0 != key@);
            }
            i += 1;
        }
        proof {
            Self::lemma_absent(t, key@);
        }
        None
    }
}

/// Relies on `String::push`: appends the given character to the end of
/// the string.
#[verifier::external_body]
fn push_char(s: &mut String, c: char)
    ensures
        final(s)@ == old(s)@.push(c),
{
    s.push(c)
}

/// Relies on `String::pop`: removes and returns the last character, or
/// returns `None` and leaves the string untouched when it is empty.
#[verifier::external_body]
fn pop_char(s: &mut String) -> (r: Option<char>)
    ensures
        old(s)@.len() == 0 ==> final(s)@ == old(s)@ && r is None,
        old(s)@.len() > 0 ==> final(s)@ == old(s)@.drop_last() && r == Some(old(s)@.last()),
{
    s.pop()
}

/// The mathematical image of a [`JsonEditor`]: buffers as character
/// sequences and the pair store as a map.
#[verifier::ext_equal]
pub ghost struct EditorModel {
    pub key_input: Seq<char>,
    pub value_input: Seq<char>,
    pub pairs: Map<Seq<char>, Seq<char>>,
    pub current_screen: ActiveScreen,
    pub editing_mode: Option<EditingMode>,
}

/// The single mutable aggregate of the program: two input buffers, the
/// accumulated pairs, and the screen/editing-mode pair that routes
/// every key event.
pub struct JsonEditor {
    /// The JSON key that's currently being edited.
    pub key_input: String,
    /// The JSON value that's currently being edited.
    pub value_input: String,
    /// The accumulated key-value pairs.
    pub pairs: PairStore,
    /// The current screen the user is looking at.
    pub current_screen: ActiveScreen,
    /// Whether the user is editing a JSON key or value; absent when
    /// nothing is being edited.
    pub editing_mode: Option<EditingMode>,
}

impl View for JsonEditor {
    type V = EditorModel;

    open spec fn view(&self) -> EditorModel {
        EditorModel {
            key_input: self.key_input@,
            value_input: self.value_input@,
            pairs: self.pairs@,
            current_screen: self.current_screen,
            editing_mode: self.editing_mode,
        }
    }
}

/// The editing mode after one press of Tab: a two-cycle between `Key`
/// and `Value`, entered at `Key` when no mode is set.
pub open spec fn toggled(mode: Option<EditingMode>) -> Option<EditingMode> {
    match mode {
        None => Some(EditingMode::Key),
        Some(EditingMode::Key) => Some(EditingMode::Value),
        Some(EditingMode::Value) => Some(EditingMode::Key),
    }
}

/// The model after a commit: both buffers moved into the pair map and
/// emptied, the editing mode cleared. The screen is left alone, as
/// [`JsonEditor::save_kv_pair`] leaves it to its caller.
pub open spec fn model_after_save(m: EditorModel) -> EditorModel {
    EditorModel {
        key_input: Seq::empty(),
        value_input: Seq::empty(),
        pairs: m.pairs.insert(m.key_input, m.value_input),
        current_screen: m.current_screen,
        editing_mode: None,
    }
}

/// One character removed from the end, if there is one.
pub open spec fn popped(s: Seq<char>) -> Seq<char> {
    if s.len() > 0 {
        s.drop_last()
    } else {
        s
    }
}

/// The editor state after one key press: the full routing table, keyed
/// first by screen and then, on the editing screen, by editing mode.
/// Unrecognized keys leave the state unchanged by design.
pub open spec fn step_state(m: EditorModel, key: KeyEvent) -> EditorModel {
    match m.current_screen {
        ActiveScreen::Main => match key {
            KeyEvent::Char(c) => if c == 'q' {
                EditorModel { current_screen: ActiveScreen::Exiting, ..m }
            } else if c == 'e' {
                EditorModel {
                    current_screen: ActiveScreen::Editing,
                    editing_mode: Some(EditingMode::Key),
                    ..m
                }
            } else {
                m
            },
            _ => m,
        },
        ActiveScreen::Exiting => m,
        ActiveScreen::Editing => match key {
            KeyEvent::Enter => match m.editing_mode {
                Some(EditingMode::Key) => EditorModel {
                    editing_mode: Some(EditingMode::Value),
                    ..m
                },
                Some(EditingMode::Value) => EditorModel {
                    current_screen: ActiveScreen::Main,
                    ..model_after_save(m)
                },
                None => m,
            },
            KeyEvent::Backspace => match m.editing_mode {
                Some(EditingMode::Key) => EditorModel { key_input: popped(m.key_input), ..m },
                Some(EditingMode::Value) => EditorModel {
                    value_input: popped(m.value_input),
                    ..m
                },
                None => m,
            },
            KeyEvent::Esc => EditorModel {
                current_screen: ActiveScreen::Main,
                editing_mode: None,
                ..m
            },
            KeyEvent::Tab => EditorModel { editing_mode: toggled(m.editing_mode), ..m },
            KeyEvent::Char(c) => match m.editing_mode {
                Some(EditingMode::Key) => EditorModel { key_input: m.key_input.push(c), ..m },
                Some(EditingMode::Value) => EditorModel {
                    value_input: m.value_input.push(c),
                    ..m
                },
                None => m,
            },
            _ => m,
        },
    }
}

/// The decision, if any, that one key press yields for the driver:
/// only the exit screen ever produces one.
pub open spec fn step_signal(m: EditorModel, key: KeyEvent) -> Option<ExitDecision> {
    if m.current_screen == ActiveScreen::Exiting {
        match key {
            KeyEvent::Char(c) => if c == 'y' {
                Some(ExitDecision::CommitAndQuit)
            } else if c == 'n' || c == 'q' {
                Some(ExitDecision::QuitWithoutSaving)
            } else {
                None
            },
            _ => None,
        }
    } else {
        None
    }
}

impl Default for ActiveScreen {
    fn default() -> (r: Self)
        ensures
            r == ActiveScreen::Main,
    {
        ActiveScreen::Main
    }
}

impl Default for EditingMode {
    fn default() -> (r: Self)
        ensures
            r == EditingMode::Key,
    {
        EditingMode::Key
    }
}

impl Default for JsonEditor {
    fn default() -> (r: Self)
        ensures
            r.wf(),
            r@.key_input == Seq::<char>::empty(),
            r@.value_input == Seq::<char>::empty(),
            r@.pairs == Map::<Seq<char>, Seq<char>>::empty(),
            r@.current_screen == ActiveScreen::Main,
            r@.editing_mode is None,
    {
        JsonEditor::new()
    }
}

/// The editor state after a whole sequence of key presses, applied
/// left to right.
pub open spec fn apply_keys(m: EditorModel, keys: Seq<KeyEvent>) -> EditorModel
    decreases keys.len(),
{
    if keys.len() == 0 {
        m
    } else {
        step_state(apply_keys(m, keys.drop_last()), keys.last())
    }
}

/// Law: toggling the editing mode is a two-cycle. Any set mode comes
/// back to itself after two toggles, and a toggle with no mode set
/// lands on `Key`.
pub proof fn lemma_toggle_two_cycle(mode: Option<EditingMode>)
    ensures
        mode is Some ==> toggled(toggled(mode)) == mode,
        toggled(None::<EditingMode>) == Some(EditingMode::Key),
{
}

/// Law: while the editing screen is up in key mode, a run of plain
/// character presses appends exactly those characters, in order, to
/// the key buffer, and touches nothing else of the state.
pub proof fn lemma_char_keys_append(m: EditorModel, keys: Seq<KeyEvent>)
    requires
        m.current_screen == ActiveScreen::Editing,
        m.editing_mode == Some(EditingMode::Key),
        forall|i: int| 0 <= i < keys.len() ==> keys[i] is Char,
    ensures
        apply_keys(m, keys).key_input == m.key_input + keys.map_values(
            |k: KeyEvent| k->Char_0,
        ),
        apply_keys(m, keys).current_screen == ActiveScreen::Editing,
        apply_keys(m, keys).editing_mode == Some(EditingMode::Key),
        apply_keys(m, keys).value_input == m.value_input,
        apply_keys(m, keys).pairs == m.pairs,
    decreases keys.len(),
{
    let f = |k: KeyEvent| k->Char_0;
    if keys.len() == 0 {
        assert(m.key_input + keys.map_values(f) =~= m.key_input);
    } else {
        let init = keys.drop_last();
        lemma_char_keys_append(m, init);
        assert(init.map_values(f) =~= keys.map_values(f).drop_last());
        assert(apply_keys(m, keys).key_input =~= m.key_input + keys.map_values(f));
    }
}

/// Law: Enter while editing the value commits the buffers. The pair
/// map then carries the typed value under the typed key, both buffers
/// are empty, no mode is set, and the screen is back on main — for
/// every state in value-editing mode, whatever the buffers hold.
pub proof fn lemma_commit_stores_pair(m: EditorModel)
    requires
        m.current_screen == ActiveScreen::Editing,
        m.editing_mode == Some(EditingMode::Value),
    ensures
        step_state(m, KeyEvent::Enter).pairs.contains_key(m.key_input),
        step_state(m, KeyEvent::Enter).pairs[m.key_input] == m.value_input,
        step_state(m, KeyEvent::Enter).key_input == Seq::<char>::empty(),
        step_state(m, KeyEvent::Enter).value_input == Seq::<char>::empty(),
        step_state(m, KeyEvent::Enter).editing_mode is None,
        step_state(m, KeyEvent::Enter).current_screen == ActiveScreen::Main,
{
}

/// Law: Esc from the editing screen always returns to the main screen
/// and clears the editing mode, whatever the mode and buffers were;
/// the buffers and the stored pairs are left untouched.
pub proof fn lemma_esc_resets(m: EditorModel)
    requires
        m.current_screen == ActiveScreen::Editing,
    ensures
        step_state(m, KeyEvent::Esc).current_screen == ActiveScreen::Main,
        step_state(m, KeyEvent::Esc).editing_mode is None,
        step_state(m, KeyEvent::Esc).key_input == m.key_input,
        step_state(m, KeyEvent::Esc).value_input == m.value_input,
        step_state(m, KeyEvent::Esc).pairs == m.pairs,
{
}

impl JsonEditor {
    /// At rest between events, a mode is set exactly while the editing
    /// screen is up, and the store's keys are unique.
    pub open spec fn wf(&self) -> bool {
        self.pairs.wf() && (self.editing_mode is Some <==> self.current_screen
            == ActiveScreen::Editing)
    }

    /// A fresh editor: empty buffers, no pairs, main screen, no mode.
    pub fn new() -> (r: JsonEditor)
        ensures
            r.wf(),
            r@.key_input == Seq::<char>::empty(),
            r@.value_input == Seq::<char>::empty(),
            r@.pairs == Map::<Seq<char>, Seq<char>>::empty(),
            r@.current_screen == ActiveScreen::Main,
            r@.editing_mode is None,
    {
        JsonEditor {
            key_input: String::new(),
            value_input: String::new(),
            pairs: PairStore::new(),
            current_screen: ActiveScreen::Main,
            editing_mode: None,
        }
    }

    /// Moves the two buffers into the pair store as one entry and
    /// resets the editing state. The screen is the caller's to change,
    /// in the same input-handling step.
    pub fn save_kv_pair(&mut self)
        requires
            old(self).pairs.wf(),
        ensures
            final(self).pairs.wf(),
            final(self)@ == model_after_save(old(self)@),
    {
        let k = self.key_input.clone();
        let v = self.value_input.clone();
        self.pairs.insert(k, v);
        self.key_input = String::new();
        self.value_input = String::new();
        self.editing_mode = None;
        proof {
            assert(self@ =~= model_after_save(old(self)@));
        }
    }

    /// Swaps between editing the key and the value; with no mode set,
    /// starts at the key.
    pub fn toggle_editing_mode(&mut self)
        ensures
            final(self).editing_mode == toggled(old(self).editing_mode),
            final(self).key_input == old(self).key_input,
            final(self).value_input == old(self).value_input,
            final(self).pairs == old(self).pairs,
            final(self).current_screen == old(self).current_screen,
            final(self)@ == (EditorModel { editing_mode: toggled(old(self)@.editing_mode), ..old(
                self,
            )@ }),
    {
        match self.editing_mode {
            None => self.editing_mode = Some(EditingMode::Key),
            Some(EditingMode::Key) => self.editing_mode = Some(EditingMode::Value),
            Some(EditingMode::Value) => self.editing_mode = Some(EditingMode::Key),
        }
        proof {
            assert(self@ =~= (EditorModel { editing_mode: toggled(old(self)@.editing_mode), ..old(
                self,
            )@ }));
        }
    }

    /// Feeds one key press through the routing table; the returned
    /// decision, when present, tells the driver to stop.
    pub fn handle_key_event(&mut self, key: KeyEvent) -> (signal: Option<ExitDecision>)
        requires
            old(self).wf(),
        ensures
            final(self).wf(),
            final(self)@ == step_state(old(self)@, key),
            signal == step_signal(old(self)@, key),
    {
        match self.current_screen {
            ActiveScreen::Main => {
                match key {
                    KeyEvent::Char(c) => {
                        if c == 'q' {
                            self.current_screen = ActiveScreen::Exiting;
                        } else if c == 'e' {
                            self.current_screen = ActiveScreen::Editing;
                            self.editing_mode = Some(EditingMode::Key);
                        }
                    },
                    _ => {},
                }
                proof {
                    assert(self@ =~= step_state(old(self)@, key));
                }
                None
            },
            ActiveScreen::Exiting => {
                match key {
                    KeyEvent::Char(c) => {
                        if c == 'y' {
                            Some(ExitDecision::CommitAndQuit)
                        } else if c == 'n' || c == 'q' {
                            Some(ExitDecision::QuitWithoutSaving)
                        } else {
                            None
                        }
                    },
                    _ => None,
                }
            },
            ActiveScreen::Editing => {
                match key {
                    KeyEvent::Enter => {
                        match self.editing_mode {
                            Some(EditingMode::Key) => {
                                self.editing_mode = Some(EditingMode::Value);
                            },
                            Some(EditingMode::Value) => {
                                self.save_kv_pair();
                                self.current_screen = ActiveScreen::Main;
                            },
                            None => {},
                        }
                    },
                    KeyEvent::Backspace => {
                        match self.editing_mode {
                            Some(EditingMode::Key) => {
                                pop_char(&mut self.key_input);
                            },
                            Some(EditingMode::Value) => {
                                pop_char(&mut self.value_input);
                            },
                            None => {},
                        }
                    },
                    KeyEvent::Esc => {
                        self.current_screen = ActiveScreen::Main;
                        self.editing_mode = None;
                    },
                    KeyEvent::Tab => {
                        self.toggle_editing_mode();
                    },
                    KeyEvent::Char(c) => {
                        match self.editing_mode {
                            Some(EditingMode::Key) => {
                                push_char(&mut self.key_input, c);
                            },
                            Some(EditingMode::Value) => {
                                push_char(&mut self.value_input, c);
                            },
                            None => {},
                        }
                    },
                    KeyEvent::Other => {},
                }
                proof {
                    assert(self@ =~= step_state(old(self)@, key));
                }
                None
            },
        }
    }
}

} // verus!

