//! A reading of the tuner and the texts that show it.
//!
//! The nearest note and the deviation from it are computed outside, in
//! floating point. What arrives here is the outcome: a letter, an octave
//! and a whole number of cents, to be turned into the labels of the display
//! and the target of the needle.

use vstd::prelude::*;
use vstd::string::StringExecFns;

verus! {

/// The spellings of the twelve pitch classes, sharps and flats apart, in
/// the order of the scale.
#[derive(Clone, Copy, Debug, PartialEq, Eq, Structural)]
pub enum Letter {
    C,
    Csh,
    Db,
    D,
    Dsh,
    Eb,
    E,
    F,
    Fsh,
    Gb,
    G,
    Gsh,
    Ab,
    A,
    Ash,
    Bb,
    B,
}

/// What the display shows for one estimate.
#[derive(Clone, Copy, Debug, PartialEq, Eq, Structural)]
pub struct NoteReading {
    /// The nearest note's letter.
    pub letter: Letter,
    /// The nearest note's octave.
    pub octave: i32,
    /// The deviation from that note in cents: above zero is sharp, below
    /// zero is flat, zero is in tune.
    pub cents: i32,
    /// When the reading was taken, in milliseconds.
    pub last_update: u64,
}

/// The texts and the needle target for one reading.
#[derive(Clone, Debug)]
pub struct Presentation {
    /// The markup of the note label.
    pub note: String,
    /// The text of the cents label.
    pub cents: String,
    /// The new target of the needle, if the gauge is shown.
    pub gauge_target: Option<i32>,
}

/// The number of spellings.
pub const TOTAL_SPELLINGS: u64 = 17;

/// The position of a spelling in the order of the scale.
pub open spec fn spelling_index(letter: Letter) -> int {
    match letter {
        Letter::C => 0,
        Letter::Csh => 1,
        Letter::Db => 2,
        Letter::D => 3,
        Letter::Dsh => 4,
        Letter::Eb => 5,
        Letter::E => 6,
        Letter::F => 7,
        Letter::Fsh => 8,
        Letter::Gb => 9,
        Letter::G => 10,
        Letter::Gsh => 11,
        Letter::Ab => 12,
        Letter::A => 13,
        Letter::Ash => 14,
        Letter::Bb => 15,
        Letter::B => 16,
    }
}

/// The pitch class of a spelling, from 0 for C to 11 for B. A sharp and
/// the flat above it are the same class.
pub open spec fn pitch_class_of(letter: Letter) -> int {
    match letter {
        Letter::C => 0,
        Letter::Csh | Letter::Db => 1,
        Letter::D => 2,
        Letter::Dsh | Letter::Eb => 3,
        Letter::E => 4,
        Letter::F => 5,
        Letter::Fsh | Letter::Gb => 6,
        Letter::G => 7,
        Letter::Gsh | Letter::Ab => 8,
        Letter::A => 9,
        Letter::Ash | Letter::Bb => 10,
        Letter::B => 11,
    }
}

/// The spelling that a semitone number gets for its pitch class: the
/// natural note, or the sharp of the natural note below.
pub open spec fn sharp_of(class: int) -> Letter {
    if class == 0 {
        Letter::C
    } else if class == 1 {
        Letter::Csh
    } else if class == 2 {
        Letter::D
    } else if class == 3 {
        Letter::Dsh
    } else if class == 4 {
        Letter::E
    } else if class == 5 {
        Letter::F
    } else if class == 6 {
        Letter::Fsh
    } else if class == 7 {
        Letter::G
    } else if class == 8 {
        Letter::Gsh
    } else if class == 9 {
        Letter::A
    } else if class == 10 {
        Letter::Ash
    } else {
        Letter::B
    }
}

/// The letter of a semitone number. Semitones are numbered as in MIDI: 69
/// is the A above middle C, and twelve of them make an octave.
pub open spec fn step_letter(step: int) -> Letter {
    sharp_of(step % 12)
}

/// The octave of a semitone number: middle C, number 60, begins octave 4.
pub open spec fn step_octave(step: int) -> int {
    step / 12 - 1
}

/// The semitone number of a note.
pub open spec fn step_of(letter: Letter, octave: int) -> int {
    (octave + 1) * 12 + pitch_class_of(letter)
}

/// The name shown for the spelling at the given position, and a question
/// mark for a position beyond the last.
pub open spec fn name_at(index: u64) -> Seq<char> {
    match index {
        0 => "C"@,
        1 => "C\u{266f}"@,
        2 => "D\u{266d}"@,
        3 => "D"@,
        4 => "D\u{266f}"@,
        5 => "E\u{266d}"@,
        6 => "E"@,
        7 => "F"@,
        8 => "F\u{266f}"@,
        9 => "G\u{266d}"@,
        10 => "G"@,
        11 => "G\u{266f}"@,
        12 => "A\u{266d}"@,
        13 => "A"@,
        14 => "A\u{266f}"@,
        15 => "B\u{266d}"@,
        16 => "B"@,
        _ => "?"@,
    }
}

/// The character of a decimal digit.
pub open spec fn digit_char(digit: int) -> char {
    if digit == 0 {
        '0'
    } else if digit == 1 {
        '1'
    } else if digit == 2 {
        '2'
    } else if digit == 3 {
        '3'
    } else if digit == 4 {
        '4'
    } else if digit == 5 {
        '5'
    } else if digit == 6 {
        '6'
    } else if digit == 7 {
        '7'
    } else if digit == 8 {
        '8'
    } else {
        '9'
    }
}

/// A natural number in decimal, without leading zeros.
pub open spec fn decimal(n: nat) -> Seq<char>
    decreases n,
{
    if n < 10 {
        seq![digit_char(n as int)]
    } else {
        decimal(n / 10).push(digit_char((n % 10) as int))
    }
}

/// An integer in decimal, with a minus sign if it is below zero.
pub open spec fn signed_decimal(n: int) -> Seq<char> {
    if n < 0 {
        seq!['-'] + decimal((-n) as nat)
    } else {
        decimal(n as nat)
    }
}

/// The text of the cents label: the deviation with its sign spelled out,
/// and nothing for a note in tune.
pub open spec fn cents_text(cents: i32) -> Seq<char> {
    if cents > 0 {
        "+"@ + signed_decimal(cents as int) + " cents"@
    } else if cents < 0 {
        signed_decimal(cents as int) + " cents"@
    } else {
        Seq::<char>::empty()
    }
}

/// The markup of the note label: the letter large, the octave as a
/// subscript.
pub open spec fn note_text(letter: Letter, octave: i32) -> Seq<char> {
    "<span size=\"400%\">"@ + name_at(spelling_index(letter) as u64) + "</span>"@
        + "<span baseline_shift=\"subscript\" size=\"150%\">"@ + signed_decimal(octave as int)
        + "</span>"@
}

impl Letter {
    /// The position of the spelling in the order of the scale.
    pub fn index(self) -> (index: u64)
        ensures
            index == spelling_index(self),
            index < TOTAL_SPELLINGS,
    {
        match self {
            Letter::C => 0,
            Letter::Csh => 1,
            Letter::Db => 2,
            Letter::D => 3,
            Letter::Dsh => 4,
            Letter::Eb => 5,
            Letter::E => 6,
            Letter::F => 7,
            Letter::Fsh => 8,
            Letter::Gb => 9,
            Letter::G => 10,
            Letter::Gsh => 11,
            Letter::Ab => 12,
            Letter::A => 13,
            Letter::Ash => 14,
            Letter::Bb => 15,
            Letter::B => 16,
        }
    }

    /// The spelling at the given position, if there is one.
    pub fn from_index(index: u64) -> (letter: Option<Letter>)
        ensures
            match letter {
                Some(spelling) => spelling_index(spelling) == index,
                None => index >= TOTAL_SPELLINGS,
            },
    {
        match index {
            0 => Some(Letter::C),
            1 => Some(Letter::Csh),
            2 => Some(Letter::Db),
            3 => Some(Letter::D),
            4 => Some(Letter::Dsh),
            5 => Some(Letter::Eb),
            6 => Some(Letter::E),
            7 => Some(Letter::F),
            8 => Some(Letter::Fsh),
            9 => Some(Letter::Gb),
            10 => Some(Letter::G),
            11 => Some(Letter::Gsh),
            12 => Some(Letter::Ab),
            13 => Some(Letter::A),
            14 => Some(Letter::Ash),
            15 => Some(Letter::Bb),
            16 => Some(Letter::B),
            _ => None,
        }
    }

    /// The pitch class of the spelling, from 0 for C to 11 for B.
    pub fn pitch_class(self) -> (class: u8)
        ensures
            class == pitch_class_of(self),
            class < 12,
    {
        match self {
            Letter::C => 0,
            Letter::Csh | Letter::Db => 1,
            Letter::D => 2,
            Letter::Dsh | Letter::Eb => 3,
            Letter::E => 4,
            Letter::F => 5,
            Letter::Fsh | Letter::Gb => 6,
            Letter::G => 7,
            Letter::Gsh | Letter::Ab => 8,
            Letter::A => 9,
            Letter::Ash | Letter::Bb => 10,
            Letter::B => 11,
        }
    }
}

/// The name shown for the spelling at the given position, and a question
/// mark for a position beyond the last.
pub fn letter_name(index: u64) -> (name: &'static str)
    ensures
        name@ == name_at(index),
{
    match index {
        0 => "C",
        1 => "C\u{266f}",
        2 => "D\u{266d}",
        3 => "D",
        4 => "D\u{266f}",
        5 => "E\u{266d}",
        6 => "E",
        7 => "F",
        8 => "F\u{266f}",
        9 => "G\u{266d}",
        10 => "G",
        11 => "G\u{266f}",
        12 => "A\u{266d}",
        13 => "A",
        14 => "A\u{266f}",
        15 => "B\u{266d}",
        16 => "B",
        _ => "?",
    }
}

/// The text of one decimal digit.
fn digit_text(digit: u64) -> (text: &'static str)
    requires
        digit < 10,
    ensures
        text@ == seq![digit_char(digit as int)],
{
    proof {
        reveal_strlit("0");
        reveal_strlit("1");
        reveal_strlit("2");
        reveal_strlit("3");
        reveal_strlit("4");
        reveal_strlit("5");
        reveal_strlit("6");
        reveal_strlit("7");
        reveal_strlit("8");
        reveal_strlit("9");
    }
    let text = match digit {
        0 => "0",
        1 => "1",
        2 => "2",
        3 => "3",
        4 => "4",
        5 => "5",
        6 => "6",
        7 => "7",
        8 => "8",
        _ => "9",
    };
    assert(text@ =~= seq![digit_char(digit as int)]);
    text
}

/// Appends a natural number in decimal.
fn push_decimal(text: &mut String, n: u64)
    ensures
        final(text)@ == old(text)@ + decimal(n as nat),
    decreases n,
{
    if n >= 10 {
        push_decimal(text, n / 10);
    }
    let ghost before = text@;
    text.append(digit_text(n % 10));
    proof {
        if n >= 10 {
            assert(text@ =~= old(text)@ + decimal((n / 10) as nat).push(
                digit_char((n % 10) as int),
            ));
        } else {
            assert(text@ =~= old(text)@ + decimal(n as nat));
        }
    }
}

/// Appends an integer in decimal, with a minus sign if it is below zero.
fn push_signed(text: &mut String, n: i32)
    ensures
        final(text)@ == old(text)@ + signed_decimal(n as int),
{
    let wide: i64 = n as i64;
    if wide < 0 {
        proof {
            reveal_strlit("-");
        }
        text.append("-");
        let ghost signed = text@;
        assert(signed =~= old(text)@ + seq!['-']);
        push_decimal(text, (-wide) as u64);
        assert(text@ =~= old(text)@ + (seq!['-'] + decimal((-n) as nat)));
    } else {
        push_decimal(text, wide as u64);
    }
}

/// The text of the cents label: the deviation with a plus sign if the note
/// is sharp, with a minus sign if it is flat, and nothing if it is in tune.
pub fn cents_label(cents: i32) -> (label: String)
    ensures
        label@ == cents_text(cents),
{
    let mut label = String::new();
    if cents > 0 {
        label.append("+");
        push_signed(&mut label, cents);
        label.append(" cents");
        assert(label@ =~= cents_text(cents));
    } else if cents < 0 {
        push_signed(&mut label, cents);
        label.append(" cents");
        assert(label@ =~= cents_text(cents));
    }
    label
}

/// The markup of the note label: the letter large, the octave as a
/// subscript.
pub fn note_label(letter: Letter, octave: i32) -> (label: String)
    ensures
        label@ == note_text(letter, octave),
{
    let mut label = String::new();
    label.append("<span size=\"400%\">");
    label.append(letter_name(letter.index()));
    label.append("</span>");
    label.append("<span baseline_shift=\"subscript\" size=\"150%\">");
    push_signed(&mut label, octave);
    label.append("</span>");
    assert(label@ =~= note_text(letter, octave));
    label
}

/// The markup of the note label when there is nothing to show.
pub fn blank_note_label() -> (label: &'static str)
    ensures
        label@ == "<span size=\"400%\">--</span>"@,
{
    "<span size=\"400%\">--</span>"
}

/// The text of the frequency label when there is nothing to show.
pub fn blank_frequency_label() -> (label: &'static str)
    ensures
        label@ == "-- Hz"@,
{
    "-- Hz"
}

/// The letter and the octave of a semitone number.
pub fn note_of_step(step: i32) -> (note: (Letter, i32))
    ensures
        note.0 == step_letter(step as int),
        note.1 == step_octave(step as int),
{
    let shifted: i64 = step as i64 + 2147483652;
    let class: i64 = shifted % 12;
    let octave: i64 = shifted / 12 - 178956971 - 1;
    assert(shifted == 12 * 178956971 + step);
    assert(class == step as int % 12 && octave == step as int / 12 - 1) by (nonlinear_arith)
        requires
            shifted == 12 * 178956971 + step,
            class == shifted % 12,
            octave == shifted / 12 - 178956971 - 1,
    ;
    let letter = match class {
        0 => Letter::C,
        1 => Letter::Csh,
        2 => Letter::D,
        3 => Letter::Dsh,
        4 => Letter::E,
        5 => Letter::F,
        6 => Letter::Fsh,
        7 => Letter::G,
        8 => Letter::Gsh,
        9 => Letter::A,
        10 => Letter::Ash,
        _ => Letter::B,
    };
    (letter, octave as i32)
}

/// The semitone number of a note.
pub fn step_of_note(letter: Letter, octave: i32) -> (step: i64)
    ensures
        step == step_of(letter, octave as int),
{
    (octave as i64 + 1) * 12 + letter.pitch_class() as i64
}

impl NoteReading {
    /// Whether the reading is in tune.
    pub open spec fn in_tune(&self) -> bool {
        self.cents == 0
    }

    /// The reading for the nearest semitone and the deviation from it.
    pub fn from_step(step: i32, cents: i32, now: u64) -> (reading: NoteReading)
        ensures
            reading == (NoteReading {
                letter: step_letter(step as int),
                octave: step_octave(step as int) as i32,
                cents,
                last_update: now,
            }),
            step_of(reading.letter, reading.octave as int) == step,
    {
        let (letter, octave) = note_of_step(step);
        proof {
            lemma_step_round_trip(step as int);
        }
        NoteReading { letter, octave, cents, last_update: now }
    }

    /// The texts that show the reading, and the target for the needle,
    /// which gets one only while the gauge is shown.
    pub fn present(&self, show_gauge: bool) -> (shown: Presentation)
        ensures
            shown.note@ == note_text(self.letter, self.octave),
            shown.cents@ == cents_text(self.cents),
            shown.gauge_target == (if show_gauge {
                Some(self.cents)
            } else {
                None
            }),
    {
        Presentation {
            note: note_label(self.letter, self.octave),
            cents: cents_label(self.cents),
            gauge_target: if show_gauge {
                Some(self.cents)
            } else {
                None
            },
        }
    }
}

/// The label of a note that is sharp begins with a plus sign, the label of
/// one that is flat with a minus sign, and the label of one in tune is
/// empty.
pub proof fn lemma_cents_sign(cents: i32)
    ensures
        cents > 0 ==> cents_text(cents).len() > 0 && cents_text(cents)[0] == '+',
        cents < 0 ==> cents_text(cents).len() > 0 && cents_text(cents)[0] == '-',
        cents == 0 <==> cents_text(cents).len() == 0,
{
    reveal_strlit("+");
    reveal_strlit(" cents");
    if cents > 0 {
        assert(("+"@ + signed_decimal(cents as int) + " cents"@)[0] == "+"@[0]);
    } else if cents < 0 {
        assert((signed_decimal(cents as int) + " cents"@)[0] == '-');
    }
}

/// A semitone number is the number of its own letter and octave.
pub proof fn lemma_step_round_trip(step: int)
    ensures
        step_of(step_letter(step), step_octave(step)) == step,
        0 <= pitch_class_of(step_letter(step)) < 12,
        pitch_class_of(step_letter(step)) == step % 12,
{
}

/// The letter and the octave of a note's semitone number are those of the
/// note, the letter spelled as a natural or a sharp.
pub proof fn lemma_note_round_trip(letter: Letter, octave: int)
    ensures
        step_letter(step_of(letter, octave)) == sharp_of(pitch_class_of(letter)),
        step_octave(step_of(letter, octave)) == octave,
        pitch_class_of(step_letter(step_of(letter, octave))) == pitch_class_of(letter),
{
    let class = pitch_class_of(letter);
    let step = step_of(letter, octave);
    assert(step % 12 == class && step / 12 == octave + 1) by (nonlinear_arith)
        requires
            step == (octave + 1) * 12 + class,
            0 <= class < 12,
    ;
}

} // verus!
