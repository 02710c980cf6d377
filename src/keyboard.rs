use vstd::prelude::*;

verus! {

/// Number of keys on a full piano keyboard.
pub const TOTAL_KEY_COUNT: usize = 88;

/// Number of white keys on a full piano keyboard.
pub const WHITE_KEY_COUNT: usize = 52;

/// Whether the key at position `k` of a twelve-key cycle that starts at A is black.
pub open spec fn black_in_cycle(k: int) -> bool {
    k == 1 || k == 4 || k == 6 || k == 9 || k == 11
}

/// Whether piano key `i` (0 is A0) is a black key.
pub open spec fn is_black_spec(i: int) -> bool {
    black_in_cycle(i % 12)
}

/// Number of white keys among the keys `0..i`.
pub open spec fn white_keys_before_spec(i: int) -> int
    decreases i,
{
    if i <= 0 {
        0
    } else if is_black_spec(i - 1) {
        white_keys_before_spec(i - 1)
    } else {
        white_keys_before_spec(i - 1) + 1
    }
}

/// Reports whether piano key `key_index` (0 is A0) is a black key.
pub fn is_black_key(key_index: u8) -> (r: bool)
    ensures
        r == is_black_spec(key_index as int),
{
    let k: u8 = key_index % 12;
    k == 1 || k == 4 || k == 6 || k == 9 || k == 11
}

proof fn lemma_white_keys_before_bounded(i: int)
    requires
        0 <= i,
    ensures
        0 <= white_keys_before_spec(i) <= i,
    decreases i,
{
    if i > 0 {
        lemma_white_keys_before_bounded(i - 1);
    }
}

/// Number of white keys to the left of key `key_index`.
pub fn white_keys_before(key_index: u8) -> (r: usize)
    requires
        key_index as usize <= TOTAL_KEY_COUNT,
    ensures
        r as int == white_keys_before_spec(key_index as int),
{
    let mut count: usize = 0;
    let mut i: u8 = 0;
    while i < key_index
        invariant
            i <= key_index,
            key_index as usize <= TOTAL_KEY_COUNT,
            count as int == white_keys_before_spec(i as int),
        decreases key_index - i,
    {
        proof {
            lemma_white_keys_before_bounded(i as int);
        }
        if !is_black_key(i) {
            count = count + 1;
        }
        i = i + 1;
    }
    count
}

/// The key index of the `n`-th white key from the left (counting from 0), if the
/// keyboard has that many white keys.
pub fn white_key_index(n: usize) -> (r: Option<u8>)
    ensures
        match r {
            Some(k) => {
                &&& (k as usize) < TOTAL_KEY_COUNT
                &&& !is_black_spec(k as int)
                &&& white_keys_before_spec(k as int) == n
            },
            None => forall|k: int|
                0 <= k < TOTAL_KEY_COUNT && !is_black_spec(k) ==> white_keys_before_spec(k) != n,
        },
{
    let mut count: usize = 0;
    let mut i: u8 = 0;
    while (i as usize) < TOTAL_KEY_COUNT
        invariant
            i as usize <= TOTAL_KEY_COUNT,
            count as int == white_keys_before_spec(i as int),
            forall|k: int|
                0 <= k < i && !is_black_spec(k) ==> white_keys_before_spec(k) != n,
            count <= n,
        decreases TOTAL_KEY_COUNT - i as usize,
    {
        proof {
            lemma_white_keys_before_bounded(i as int);
        }
        if !is_black_key(i) {
            if count == n {
                return Some(i);
            }
            count = count + 1;
        }
        proof {
            assert forall|k: int|
                0 <= k < i + 1 && !is_black_spec(k) implies white_keys_before_spec(k) != n by {
                if k < i {
                } else {
                    assert(k == i);
                }
            }
        }
        i = i + 1;
    }
    None
}

/// How a key is highlighted on the keyboard.
#[derive(PartialEq, Eq, Structural, Clone, Copy, Debug)]
pub enum KeyHighlight {
    /// The key the user picked; this wins over a detected note.
    Selected,
    /// The key of the note heard last.
    Detected,
    /// No highlight.
    Plain,
}

/// The state of the on-screen keyboard: the key of the note heard last and the key
/// the user picked, each if any.
#[derive(Clone, Copy, Debug)]
pub struct PianoKeyboard {
    detected_key_index: Option<u8>,
    selected_key_index: Option<u8>,
}

impl PianoKeyboard {
    /// The key of the note heard last, as a value of the model.
    pub closed spec fn detected_spec(self) -> Option<u8> {
        self.detected_key_index
    }

    /// The key the user picked, as a value of the model.
    pub closed spec fn selected_spec(self) -> Option<u8> {
        self.selected_key_index
    }

    pub fn new(detected_key_index: Option<u8>, selected_key_index: Option<u8>) -> (r: Self)
        ensures
            r.detected_spec() == detected_key_index,
            r.selected_spec() == selected_key_index,
    {
        PianoKeyboard { detected_key_index, selected_key_index }
    }

    /// The key of the note heard last, if any.
    pub fn detected_key_index(&self) -> (r: Option<u8>)
        ensures
            r == self.detected_spec(),
    {
        self.detected_key_index
    }

    /// The key the user picked, if any.
    pub fn selected_key_index(&self) -> (r: Option<u8>)
        ensures
            r == self.selected_spec(),
    {
        self.selected_key_index
    }

    /// How key `key_index` is drawn: the selected key first, then the detected one.
    pub fn highlight(&self, key_index: u8) -> (r: KeyHighlight)
        ensures
            r == (if self.selected_spec() == Some(key_index) {
                KeyHighlight::Selected
            } else if self.detected_spec() == Some(key_index) {
                KeyHighlight::Detected
            } else {
                KeyHighlight::Plain
            }),
    {
        if self.selected_key_index == Some(key_index) {
            KeyHighlight::Selected
        } else if self.detected_key_index == Some(key_index) {
            KeyHighlight::Detected
        } else {
            KeyHighlight::Plain
        }
    }
}

} // verus!
