use vstd::prelude::*;
use vstd::string::StringExecFns;

verus! {

/// Number of keys on a full piano keyboard, A0 to C8.
pub const NOTE_COUNT: u8 = 88;

/// Index of A4, the 440 Hz reference, on the keyboard.
pub const A4_INDEX: u8 = 48;

/// Name of pitch class `k` in a twelve-note cycle that starts at A.
pub open spec fn pitch_class_name(k: int) -> Seq<char> {
    if k == 0 {
        seq!['A']
    } else if k == 1 {
        seq!['A', '#']
    } else if k == 2 {
        seq!['B']
    } else if k == 3 {
        seq!['C']
    } else if k == 4 {
        seq!['C', '#']
    } else if k == 5 {
        seq!['D']
    } else if k == 6 {
        seq!['D', '#']
    } else if k == 7 {
        seq!['E']
    } else if k == 8 {
        seq!['F']
    } else if k == 9 {
        seq!['F', '#']
    } else if k == 10 {
        seq!['G']
    } else {
        seq!['G', '#']
    }
}

/// The position in the cycle of a pitch-class name; 12 for a name that is none.
pub open spec fn pitch_class_of(s: Seq<char>) -> int {
    if s.len() == 1 {
        natural_position(s[0])
    } else if s.len() == 2 && s[1] == '#' && (s[0] == 'A' || s[0] == 'C' || s[0] == 'D' || s[0]
        == 'F' || s[0] == 'G') {
        natural_position(s[0]) + 1
    } else {
        12
    }
}

/// The position in the cycle of a natural note letter; 12 for another character.
pub open spec fn natural_position(c: char) -> int {
    if c == 'A' {
        0
    } else if c == 'B' {
        2
    } else if c == 'C' {
        3
    } else if c == 'D' {
        5
    } else if c == 'E' {
        7
    } else if c == 'F' {
        8
    } else if c == 'G' {
        10
    } else {
        12
    }
}

/// The decimal digit for `d` in `0..10`.
pub open spec fn digit_char(d: int) -> char {
    if d == 0 {
        '0'
    } else if d == 1 {
        '1'
    } else if d == 2 {
        '2'
    } else if d == 3 {
        '3'
    } else if d == 4 {
        '4'
    } else if d == 5 {
        '5'
    } else if d == 6 {
        '6'
    } else if d == 7 {
        '7'
    } else if d == 8 {
        '8'
    } else {
        '9'
    }
}

/// Octave number of key `i`: octaves begin at C, and A0 is key 0.
pub open spec fn octave_of(i: int) -> int {
    (i + 9) / 12
}

/// The name of key `i`: its pitch class followed by its octave digit ("A0", "C#4", "C8").
pub open spec fn note_name(i: int) -> Seq<char> {
    pitch_class_name(i % 12).push(digit_char(octave_of(i)))
}

/// The least key index whose name is `s`, if one is.
pub open spec fn is_first_key_named(s: Seq<char>, i: int) -> bool {
    &&& 0 <= i < NOTE_COUNT
    &&& note_name(i) == s
    &&& forall|j: int| 0 <= j < i ==> note_name(j) != s
}

/// The key index that the lookup by name gives for `s`: the least key named `s`, or 0
/// when no key is.
pub open spec fn key_index_for_name(s: Seq<char>) -> int {
    if exists|i: int| is_first_key_named(s, i) {
        choose|i: int| is_first_key_named(s, i)
    } else {
        0
    }
}

proof fn lemma_first_key_named_unique(s: Seq<char>, i: int, j: int)
    requires
        is_first_key_named(s, i),
        is_first_key_named(s, j),
    ensures
        i == j,
{
    if i < j {
        assert(note_name(i) != s);
    } else if j < i {
        assert(note_name(j) != s);
    }
}

proof fn lemma_pitch_class_round_trip(k: int)
    requires
        0 <= k < 12,
    ensures
        pitch_class_of(pitch_class_name(k)) == k,
{
}

proof fn lemma_digit_value(a: int, b: int)
    requires
        0 <= a < 10,
        0 <= b < 10,
        digit_char(a) == digit_char(b),
    ensures
        a == b,
{
}

/// Two keys of the keyboard never share a name.
pub proof fn lemma_note_names_distinct(i: int, j: int)
    requires
        0 <= i < NOTE_COUNT,
        0 <= j < NOTE_COUNT,
        note_name(i) == note_name(j),
    ensures
        i == j,
{
    let a = note_name(i);
    let b = note_name(j);
    assert(a.drop_last() =~= pitch_class_name(i % 12));
    assert(b.drop_last() =~= pitch_class_name(j % 12));
    lemma_pitch_class_round_trip(i % 12);
    lemma_pitch_class_round_trip(j % 12);
    assert(i % 12 == j % 12);
    assert(a.last() == digit_char(octave_of(i)));
    assert(b.last() == digit_char(octave_of(j)));
    assert(0 <= octave_of(i) < 10);
    assert(0 <= octave_of(j) < 10);
    lemma_digit_value(octave_of(i), octave_of(j));
    assert(i == j) by (nonlinear_arith)
        requires
            i % 12 == j % 12,
            (i + 9) / 12 == (j + 9) / 12,
            0 <= i,
            0 <= j,
    {
    }
}

fn pitch_class_str(k: u8) -> (r: &'static str)
    requires
        k < 12,
    ensures
        r@ == pitch_class_name(k as int),
{
    proof {
        reveal_strlit("A");
        reveal_strlit("A#");
        reveal_strlit("B");
        reveal_strlit("C");
        reveal_strlit("C#");
        reveal_strlit("D");
        reveal_strlit("D#");
        reveal_strlit("E");
        reveal_strlit("F");
        reveal_strlit("F#");
        reveal_strlit("G");
        reveal_strlit("G#");
    }
    if k == 0 {
        "A"
    } else if k == 1 {
        "A#"
    } else if k == 2 {
        "B"
    } else if k == 3 {
        "C"
    } else if k == 4 {
        "C#"
    } else if k == 5 {
        "D"
    } else if k == 6 {
        "D#"
    } else if k == 7 {
        "E"
    } else if k == 8 {
        "F"
    } else if k == 9 {
        "F#"
    } else if k == 10 {
        "G"
    } else {
        "G#"
    }
}

fn digit_str(d: u8) -> (r: &'static str)
    requires
        d < 10,
    ensures
        r@ == seq![digit_char(d as int)],
{
    proof {
        reveal_strlit("0");
        reveal_strlit("1");
        reveal_strlit("2");
        reveal_strlit("3");
        reveal_strlit("4");
        reveal_strlit("5");
        reveal_strlit("6");
        reveal_strlit("7");
        reveal_strlit("8");
        reveal_strlit("9");
    }
    if d == 0 {
        "0"
    } else if d == 1 {
        "1"
    } else if d == 2 {
        "2"
    } else if d == 3 {
        "3"
    } else if d == 4 {
        "4"
    } else if d == 5 {
        "5"
    } else if d == 6 {
        "6"
    } else if d == 7 {
        "7"
    } else if d == 8 {
        "8"
    } else {
        "9"
    }
}

/// The name of piano key `key_index` (0 is A0, 48 is A4, 87 is C8).
pub fn note_name_by_index(key_index: u8) -> (r: String)
    requires
        key_index < NOTE_COUNT,
    ensures
        r@ == note_name(key_index as int),
{
    let mut name = pitch_class_str(key_index % 12).to_owned();
    let octave: u8 = (key_index + 9) / 12;
    name.append(digit_str(octave));
    name
}

/// The key index of the note called `name` ("A4" gives 48). A name that is no key's
/// gives 0, the index of A0, so 0 alone does not tell a match from a miss.
pub fn get_key_index_from_name(name: &str) -> (r: u8)
    ensures
        r < NOTE_COUNT,
        (exists|i: int| 0 <= i < NOTE_COUNT && note_name(i) == name@) ==> is_first_key_named(
            name@,
            r as int,
        ),
        (forall|i: int| 0 <= i < NOTE_COUNT ==> note_name(i) != name@) ==> r == 0,
        r as int == key_index_for_name(name@),
{
    let wanted = name.to_owned();
    let mut i: u8 = 0;
    while i < NOTE_COUNT
        invariant
            i <= NOTE_COUNT,
            wanted@ == name@,
            forall|j: int| 0 <= j < i ==> note_name(j) != name@,
        decreases NOTE_COUNT - i,
    {
        let candidate = note_name_by_index(i);
        if candidate == wanted {
            proof {
                assert(is_first_key_named(name@, i as int));
                lemma_first_key_named_unique(
                    name@,
                    i as int,
                    choose|k: int| is_first_key_named(name@, k),
                );
            }
            return i;
        }
        i = i + 1;
    }
    0
}

/// The index of the first smallest entry of `distances`: the nearest note when entry
/// `i` orders the distance from a frequency to key `i`.
pub fn index_of_nearest(distances: &Vec<u32>) -> (r: usize)
    requires
        distances@.len() > 0,
    ensures
        r < distances@.len(),
        forall|i: int| 0 <= i < distances@.len() ==> distances@[r as int] <= distances@[i],
        forall|i: int| 0 <= i < r ==> distances@[i] > distances@[r as int],
{
    let mut best: usize = 0;
    let mut i: usize = 1;
    while i < distances.len()
        invariant
            1 <= i <= distances@.len(),
            best < i,
            forall|j: int| 0 <= j < i ==> distances@[best as int] <= distances@[j],
            forall|j: int| 0 <= j < best ==> distances@[j] > distances@[best as int],
        decreases distances@.len() - i,
    {
        if distances[i] < distances[best] {
            best = i;
        }
        i = i + 1;
    }
    best
}

/// Naming key `i` and looking that name up gives `i` back, for every key.
pub proof fn lemma_name_index_round_trip(i: int)
    requires
        0 <= i < NOTE_COUNT,
    ensures
        key_index_for_name(note_name(i)) == i,
{
    let s = note_name(i);
    assert forall|j: int| 0 <= j < i implies note_name(j) != s by {
        if note_name(j) == s {
            lemma_note_names_distinct(j, i);
        }
    }
    assert(is_first_key_named(s, i));
    let k = choose|k: int| is_first_key_named(s, k);
    lemma_first_key_named_unique(s, k, i);
}

} // verus!
