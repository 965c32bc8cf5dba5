//! The single-select list: a cursor over a fixed, non-empty list of options
//! that moves on arrow keys without wrapping and is confirmed with enter.

use crate::text::texts;
use vstd::prelude::*;
use vstd::string::*;

verus! {

/// A key press as the list understands it.
#[derive(Clone, Copy, PartialEq, Eq, Structural, Debug)]
pub enum Key {
    /// Arrow up.
    Up,
    /// Arrow down.
    Down,
    /// Enter: confirm the highlighted option.
    Enter,
    /// Any other key.
    Other,
}

/// Where the cursor stands after `key`, in a list of `len` options.
pub open spec fn moved(cursor: nat, len: nat, key: Key) -> nat {
    match key {
        Key::Up => if cursor > 0 {
            (cursor - 1) as nat
        } else {
            cursor
        },
        Key::Down => if cursor + 1 < len {
            cursor + 1
        } else {
            cursor
        },
        Key::Enter => cursor,
        Key::Other => cursor,
    }
}

/// Where a cursor that starts on the first option stands after `keys`.
pub open spec fn cursor_after(len: nat, keys: Seq<Key>) -> nat
    decreases keys.len(),
{
    if keys.len() == 0 {
        0
    } else {
        moved(cursor_after(len, keys.drop_last()), len, keys.last())
    }
}

/// How many of `keys` come before the first enter: all of them where none
/// is an enter.
pub open spec fn keys_before_enter(keys: Seq<Key>) -> nat
    decreases keys.len(),
{
    if keys.len() == 0 || keys[0] == Key::Enter {
        0
    } else {
        1 + keys_before_enter(keys.drop_first())
    }
}

/// The option that a run on `keys` confirms: the one under the cursor when
/// the first enter arrives. `None` when `keys` holds no enter.
pub open spec fn chosen_index(len: nat, keys: Seq<Key>) -> Option<nat> {
    let read = keys_before_enter(keys);
    if read < keys.len() {
        Some(cursor_after(len, keys.take(read as int)))
    } else {
        None
    }
}

/// The line that shows `option`, marked when the cursor is on it.
pub open spec fn marked_line(option: Seq<char>, highlighted: bool) -> Seq<char> {
    if highlighted {
        seq!['>', ' '] + option
    } else {
        seq![' ', ' '] + option
    }
}

/// One drawn frame: the prompt, then one line for each option.
pub open spec fn frame_lines(prompt: Seq<char>, options: Seq<Seq<char>>, cursor: nat) -> Seq<
    Seq<char>,
> {
    seq![prompt] + Seq::new(options.len(), |i: int| marked_line(options[i], i == cursor))
}

/// What a [`SelectList`] stands for.
pub struct SelectView {
    /// The options, in the order given.
    pub options: Seq<Seq<char>>,
    /// Zero-based index of the highlighted option.
    pub cursor: nat,
    /// Whether a frame of this run is on the screen.
    pub drawn: bool,
}

/// One redraw: the lines of the frame before it to clear, then the lines of
/// the new frame to write.
#[derive(Debug, Clone)]
pub struct Draw {
    /// Number of lines to clear, counted up from the current line.
    pub clear: usize,
    /// The lines to write.
    pub lines: Vec<String>,
}

/// Whether `draw` is the redraw of the list with the cursor at `cursor`:
/// it clears the frame before it, which has one line for the prompt and one
/// for each option, and nothing where it is the first frame of the run; and
/// it writes the frame for `cursor`.
pub open spec fn is_draw(
    draw: Draw,
    prompt: Seq<char>,
    options: Seq<Seq<char>>,
    cursor: nat,
    first: bool,
) -> bool {
    &&& draw.clear == if first {
        0
    } else {
        options.len() + 1
    }
    &&& texts(draw.lines@) == frame_lines(prompt, options, cursor)
    &&& draw.lines.len() == options.len() + 1
}

/// The state of one run of the list.
pub struct SelectList {
    options: Vec<String>,
    cursor: usize,
    drawn: bool,
}

impl View for SelectList {
    type V = SelectView;

    closed spec fn view(&self) -> SelectView {
        SelectView {
            options: texts(self.options@),
            cursor: self.cursor as nat,
            drawn: self.drawn,
        }
    }
}

impl SelectList {
    #[verifier::type_invariant]
    spec fn well_formed(&self) -> bool {
        &&& 0 < self.options.len() < usize::MAX
        &&& self.cursor < self.options.len()
    }

    /// A list over `options` with the cursor on the first of them.
    pub fn new(options: Vec<String>) -> (list: SelectList)
        requires
            0 < options.len() < usize::MAX,
        ensures
            list@ == (SelectView { options: texts(options@), cursor: 0, drawn: false }),
    {
        SelectList { options, cursor: 0, drawn: false }
    }

    /// Zero-based index of the highlighted option.
    pub fn cursor(&self) -> (at: usize)
        ensures
            at == self@.cursor,
            at < self@.options.len(),
    {
        proof {
            use_type_invariant(self);
        }
        self.cursor
    }

    /// Number of options.
    pub fn len(&self) -> (n: usize)
        ensures
            n == self@.options.len(),
            n > 0,
    {
        proof {
            use_type_invariant(self);
        }
        self.options.len()
    }

    /// Takes one key: the arrows move the cursor, stopping at either end, and
    /// no other key moves it. Returns whether the key confirms the choice.
    pub fn press(&mut self, key: Key) -> (confirmed: bool)
        ensures
            final(self)@.options == old(self)@.options,
            final(self)@.drawn == old(self)@.drawn,
            final(self)@.cursor == moved(old(self)@.cursor, old(self)@.options.len(), key),
            final(self)@.cursor < final(self)@.options.len(),
            confirmed == (key == Key::Enter),
    {
        proof {
            use_type_invariant(&*self);
        }
        match key {
            Key::Up => {
                if self.cursor > 0 {
                    self.cursor -= 1;
                }
                false
            },
            Key::Down => {
                if self.cursor < self.options.len() - 1 {
                    self.cursor += 1;
                }
                false
            },
            Key::Enter => true,
            Key::Other => false,
        }
    }

    /// The highlighted option, which is one of the options of the list.
    pub fn selected(&self) -> (option: &str)
        ensures
            option@ == self@.options[self@.cursor as int],
            self@.options.contains(option@),
    {
        proof {
            use_type_invariant(self);
        }
        let option = self.options[self.cursor].as_str();
        assert(self@.options[self.cursor as int] == option@);
        option
    }

    /// Number of lines in a frame, which is what a redraw has to clear first.
    pub fn frame_height(&self) -> (n: usize)
        ensures
            n == self@.options.len() + 1,
            n == frame_lines(Seq::empty(), self@.options, self@.cursor).len(),
    {
        proof {
            use_type_invariant(self);
        }
        self.options.len() + 1
    }

    /// The lines of the frame to draw: `prompt`, then every option, the
    /// highlighted one led by `"> "` and the others by two blanks.
    pub fn frame(&self, prompt: &str) -> (lines: Vec<String>)
        ensures
            texts(lines@) == frame_lines(prompt@, self@.options, self@.cursor),
            lines.len() == self@.options.len() + 1,
    {
        proof {
            use_type_invariant(self);
        }
        let n = self.options.len();
        let mut lines: Vec<String> = Vec::new();
        lines.push(String::from_str(prompt));
        let mut i: usize = 0;
        while i < n
            invariant
                n == self.options.len(),
                i <= n,
                lines.len() == i + 1,
                lines[0]@ == prompt@,
                forall|j: int|
                    0 <= j < i ==> (#[trigger] lines[j + 1])@ == marked_line(
                        self.options[j]@,
                        j == self.cursor,
                    ),
            decreases n - i,
        {
            proof {
                reveal_strlit("> ");
                reveal_strlit("  ");
            }
            let mut line = if i == self.cursor {
                String::from_str("> ")
            } else {
                String::from_str("  ")
            };
            assert(line@ =~= marked_line(Seq::empty(), i == self.cursor));
            line.append(self.options[i].as_str());
            assert(line@ =~= marked_line(self.options[i as int]@, i == self.cursor));
            lines.push(line);
            i += 1;
        }
        assert(texts(lines@) =~= frame_lines(prompt@, self@.options, self@.cursor)) by {
            assert forall|k: int| 0 <= k < lines.len() implies texts(lines@)[k] == frame_lines(
                prompt@,
                self@.options,
                self@.cursor,
            )[k] by {
                if k > 0 {
                    assert(lines[(k - 1) + 1]@ == marked_line(
                        self.options[k - 1]@,
                        k - 1 == self.cursor,
                    ));
                }
            }
        }
        lines
    }

    /// Redraws the list: what to clear and what to write. The first redraw
    /// of a run clears nothing; every later one clears exactly the frame
    /// that the one before it wrote.
    pub fn draw(&mut self, prompt: &str) -> (draw: Draw)
        ensures
            is_draw(draw, prompt@, old(self)@.options, old(self)@.cursor, !old(self)@.drawn),
            final(self)@ == (SelectView { drawn: true, ..old(self)@ }),
    {
        proof {
            use_type_invariant(&*self);
        }
        let clear = if self.drawn {
            self.frame_height()
        } else {
            0
        };
        let lines = self.frame(prompt);
        self.drawn = true;
        Draw { clear, lines }
    }
}

/// What a run of the list gave.
#[derive(Debug, Clone)]
pub struct Selection {
    /// The option that was confirmed, if one was.
    pub choice: Option<String>,
    /// Every redraw of the run, in order.
    pub draws: Vec<Draw>,
}

/// Runs the list over `options` on the recorded `keys`. Before each key is
/// read the list is redrawn under `prompt`, with the cursor where the keys
/// read so far have left it. The first enter confirms the option under the
/// cursor and ends the run; keys after it are not read. Where the keys run
/// out before an enter, the run ends with nothing chosen.
pub fn select_from_list(prompt: &str, options: Vec<String>, keys: &Vec<Key>) -> (run: Selection)
    requires
        0 < options.len() < usize::MAX,
    ensures
        match chosen_index(options.len() as nat, keys@) {
            Some(at) => run.choice is Some && at < options.len() && run.choice->0@
                == options[at as int]@,
            None => run.choice is None,
        },
        run.choice is Some ==> texts(options@).contains(run.choice->0@),
        run.draws.len() == keys_before_enter(keys@) + 1,
        forall|i: int|
            0 <= i < run.draws.len() ==> is_draw(
                #[trigger] run.draws[i],
                prompt@,
                texts(options@),
                cursor_after(options.len() as nat, keys@.take(i)),
                i == 0,
            ),
{
    let ghost len = options.len() as nat;
    let ghost given = texts(options@);
    let mut list = SelectList::new(options);
    let mut draws: Vec<Draw> = Vec::new();
    let mut i: usize = 0;
    loop
        invariant
            i <= keys.len(),
            given == texts(options@),
            len == options.len(),
            list@ == (SelectView {
                options: given,
                cursor: cursor_after(len, keys@.take(i as int)),
                drawn: i > 0,
            }),
            list@.cursor < len,
            forall|j: int| 0 <= j < i ==> keys[j] != Key::Enter,
            draws.len() == i,
            forall|j: int|
                0 <= j < i ==> is_draw(
                    #[trigger] draws[j],
                    prompt@,
                    given,
                    cursor_after(len, keys@.take(j)),
                    j == 0,
                ),
        decreases keys.len() - i,
    {
        draws.push(list.draw(prompt));
        if i >= keys.len() {
            proof {
                lemma_keys_before_enter(keys@, i as int);
            }
            return Selection { choice: None, draws };
        }
        assert(keys@.take(i + 1).drop_last() =~= keys@.take(i as int));
        if list.press(keys[i]) {
            let choice = String::from_str(list.selected());
            proof {
                lemma_keys_before_enter(keys@, i as int);
                assert(given[list@.cursor as int] == options[list@.cursor as int]@);
            }
            return Selection { choice: Some(choice), draws };
        }
        i += 1;
    }
}

/// The keys before the first enter are those before the place `stop` where
/// no key before it is an enter and the key at it, if there is one, is.
pub proof fn lemma_keys_before_enter(keys: Seq<Key>, stop: int)
    requires
        0 <= stop <= keys.len(),
        forall|j: int| 0 <= j < stop ==> keys[j] != Key::Enter,
        stop < keys.len() ==> keys[stop] == Key::Enter,
    ensures
        keys_before_enter(keys) == stop,
    decreases stop,
{
    if stop > 0 {
        let rest = keys.drop_first();
        assert forall|j: int| 0 <= j < stop - 1 implies rest[j] != Key::Enter by {
            assert(rest[j] == keys[j + 1]);
        }
        lemma_keys_before_enter(rest, stop - 1);
    }
}

/// A key moves the cursor by at most one place and never out of the list:
/// at the first option up does nothing, at the last one down does nothing.
pub proof fn lemma_moved_stays_in_list(cursor: nat, len: nat, key: Key)
    requires
        cursor < len,
    ensures
        moved(cursor, len, key) < len,
        cursor - 1 <= moved(cursor, len, key) <= cursor + 1,
        cursor == 0 && key == Key::Up ==> moved(cursor, len, key) == 0,
        cursor == len - 1 && key == Key::Down ==> moved(cursor, len, key) == len - 1,
{
}

/// Whatever keys arrive, the cursor stays in the list.
pub proof fn lemma_cursor_stays_in_list(len: nat, keys: Seq<Key>)
    requires
        len > 0,
    ensures
        cursor_after(len, keys) < len,
    decreases keys.len(),
{
    if keys.len() > 0 {
        lemma_cursor_stays_in_list(len, keys.drop_last());
    }
}

/// The first enter is where [`keys_before_enter`] says: no key before that
/// place is an enter, and the key at that place is one unless the keys have
/// run out.
pub proof fn lemma_first_enter(keys: Seq<Key>)
    ensures
        keys_before_enter(keys) <= keys.len(),
        forall|j: int| 0 <= j < keys_before_enter(keys) ==> keys[j] != Key::Enter,
        keys_before_enter(keys) < keys.len() ==> keys[keys_before_enter(keys) as int]
            == Key::Enter,
    decreases keys.len(),
{
    if keys.len() > 0 && keys[0] != Key::Enter {
        let rest = keys.drop_first();
        lemma_first_enter(rest);
        assert forall|j: int| 0 <= j < keys_before_enter(keys) implies keys[j] != Key::Enter by {
            if j > 0 {
                assert(keys[j] == rest[j - 1]);
            }
        }
        let at = keys_before_enter(rest) as int;
        if at < rest.len() {
            assert(rest[at] == keys[at + 1]);
        }
    }
}

/// Whatever keys arrive, the option that a run confirms lies in the list,
/// and a run confirms one exactly when an enter is among the keys.
pub proof fn lemma_chosen_in_list(len: nat, keys: Seq<Key>)
    requires
        len > 0,
    ensures
        chosen_index(len, keys) matches Some(at) ==> at < len,
        chosen_index(len, keys) is Some <==> keys.contains(Key::Enter),
{
    let read = keys_before_enter(keys);
    lemma_first_enter(keys);
    lemma_cursor_stays_in_list(len, keys.take(read as int));
    if read < keys.len() {
        assert(keys[read as int] == Key::Enter);
    }
    if keys.contains(Key::Enter) {
        let j = choose|j: int| 0 <= j < keys.len() && keys[j] == Key::Enter;
        assert(read <= j);
    }
}

} // verus!
