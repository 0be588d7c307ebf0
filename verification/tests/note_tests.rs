use chromatic::note::{
    blank_frequency_label, blank_note_label, cents_label, letter_name, note_label, note_of_step,
    step_of_note, Letter, NoteReading, TOTAL_SPELLINGS,
};

const ALL: [Letter; 17] = [
    Letter::C,
    Letter::Csh,
    Letter::Db,
    Letter::D,
    Letter::Dsh,
    Letter::Eb,
    Letter::E,
    Letter::F,
    Letter::Fsh,
    Letter::Gb,
    Letter::G,
    Letter::Gsh,
    Letter::Ab,
    Letter::A,
    Letter::Ash,
    Letter::Bb,
    Letter::B,
];

#[test]
fn spellings_are_numbered_in_order() {
    assert_eq!(TOTAL_SPELLINGS, 17);
    for (position, letter) in ALL.iter().enumerate() {
        assert_eq!(letter.index(), position as u64);
        assert_eq!(Letter::from_index(position as u64), Some(*letter));
    }
    assert_eq!(Letter::from_index(17), None);
    assert_eq!(Letter::from_index(u64::MAX), None);
}

#[test]
fn spellings_match_the_pitch_library() {
    let theirs = [
        pitch_calc::Letter::C,
        pitch_calc::Letter::Csh,
        pitch_calc::Letter::Db,
        pitch_calc::Letter::D,
        pitch_calc::Letter::Dsh,
        pitch_calc::Letter::Eb,
        pitch_calc::Letter::E,
        pitch_calc::Letter::F,
        pitch_calc::Letter::Fsh,
        pitch_calc::Letter::Gb,
        pitch_calc::Letter::G,
        pitch_calc::Letter::Gsh,
        pitch_calc::Letter::Ab,
        pitch_calc::Letter::A,
        pitch_calc::Letter::Ash,
        pitch_calc::Letter::Bb,
        pitch_calc::Letter::B,
    ];
    for (ours, other) in ALL.iter().zip(theirs.iter()) {
        assert_eq!(ours.index(), *other as u64);
        assert_eq!(
            ours.pitch_class() as u64,
            num_to_u64(*other),
            "pitch class of {ours:?}"
        );
    }
}

fn num_to_u64(letter: pitch_calc::Letter) -> u64 {
    (pitch_calc::LetterOctave(letter, -1).step()) as u64
}

#[test]
fn pitch_classes() {
    let classes: Vec<u8> = ALL.iter().map(|l| l.pitch_class()).collect();
    assert_eq!(classes, vec![0, 1, 1, 2, 3, 3, 4, 5, 6, 6, 7, 8, 8, 9, 10, 10, 11]);
}

#[test]
fn letter_names() {
    let expected = [
        "C", "C♯", "D♭", "D", "D♯", "E♭", "E", "F", "F♯", "G♭", "G", "G♯", "A♭", "A", "A♯", "B♭",
        "B",
    ];
    for (index, name) in expected.iter().enumerate() {
        assert_eq!(letter_name(index as u64), *name);
    }
    assert_eq!(letter_name(17), "?");
    assert_eq!(letter_name(u64::MAX), "?");
}

#[test]
fn cents_label_spells_the_sign() {
    assert_eq!(cents_label(0), "");
    assert_eq!(cents_label(1), "+1 cents");
    assert_eq!(cents_label(-1), "-1 cents");
    assert_eq!(cents_label(12), "+12 cents");
    assert_eq!(cents_label(-50), "-50 cents");
    assert_eq!(cents_label(50), "+50 cents");
    assert_eq!(cents_label(100), "+100 cents");
    assert_eq!(cents_label(-1009), "-1009 cents");
    assert_eq!(cents_label(i32::MAX), "+2147483647 cents");
    assert_eq!(cents_label(i32::MIN), "-2147483648 cents");
}

#[test]
fn cents_label_agrees_with_formatting() {
    for cents in -1200..=1200 {
        let expected = if cents > 0 {
            format!("+{} cents", cents)
        } else if cents < 0 {
            format!("{} cents", cents)
        } else {
            String::new()
        };
        assert_eq!(cents_label(cents), expected);
    }
}

#[test]
fn note_label_markup() {
    assert_eq!(
        note_label(Letter::A, 4),
        "<span size=\"400%\">A</span><span baseline_shift=\"subscript\" size=\"150%\">4</span>"
    );
    assert_eq!(
        note_label(Letter::Csh, -1),
        "<span size=\"400%\">C♯</span><span baseline_shift=\"subscript\" size=\"150%\">-1</span>"
    );
    assert_eq!(
        note_label(Letter::Bb, 10),
        "<span size=\"400%\">B♭</span><span baseline_shift=\"subscript\" size=\"150%\">10</span>"
    );
}

#[test]
fn blank_labels() {
    assert_eq!(blank_note_label(), "<span size=\"400%\">--</span>");
    assert_eq!(blank_frequency_label(), "-- Hz");
}

#[test]
fn a4_in_tune_is_presented_without_cents() {
    let reading = NoteReading { letter: Letter::A, octave: 4, cents: 0, last_update: 17 };
    let shown = reading.present(true);
    assert_eq!(
        shown.note,
        "<span size=\"400%\">A</span><span baseline_shift=\"subscript\" size=\"150%\">4</span>"
    );
    assert_eq!(shown.cents, "");
    assert_eq!(shown.gauge_target, Some(0));
}

#[test]
fn the_needle_gets_a_target_only_while_the_gauge_is_shown() {
    let sharp = NoteReading { letter: Letter::E, octave: 2, cents: 23, last_update: 0 };
    assert_eq!(sharp.present(true).gauge_target, Some(23));
    assert_eq!(sharp.present(false).gauge_target, None);
    assert_eq!(sharp.present(false).cents, "+23 cents");
    let flat = NoteReading { letter: Letter::E, octave: 2, cents: -23, last_update: 0 };
    assert_eq!(flat.present(true).gauge_target, Some(-23));
    assert_eq!(flat.present(true).cents, "-23 cents");
}

#[test]
fn a4_is_step_69() {
    assert_eq!(pitch_calc::step_from_hz(440.0).round() as i32, 69);
    assert_eq!(note_of_step(69), (Letter::A, 4));
    assert_eq!(step_of_note(Letter::A, 4), 69);
    let reading = NoteReading::from_step(69, 0, 5);
    assert_eq!(reading, NoteReading { letter: Letter::A, octave: 4, cents: 0, last_update: 5 });
}

#[test]
fn steps_map_to_letters_and_octaves() {
    assert_eq!(note_of_step(60), (Letter::C, 4));
    assert_eq!(note_of_step(61), (Letter::Csh, 4));
    assert_eq!(note_of_step(59), (Letter::B, 3));
    assert_eq!(note_of_step(0), (Letter::C, -1));
    assert_eq!(note_of_step(-1), (Letter::B, -2));
    assert_eq!(note_of_step(-12), (Letter::C, -2));
    assert_eq!(note_of_step(-13), (Letter::B, -3));
    assert_eq!(note_of_step(127), (Letter::G, 9));
    assert_eq!(note_of_step(i32::MAX), (Letter::G, 178956969));
    assert_eq!(note_of_step(i32::MIN), (Letter::E, -178956972));
}

#[test]
fn steps_agree_with_the_pitch_library() {
    for step in -200i32..=300 {
        let (letter, octave) = pitch_calc::letter_octave_from_step(step as f32);
        let (ours, our_octave) = note_of_step(step);
        assert_eq!(ours.index(), letter as u64, "letter of step {step}");
        assert_eq!(our_octave, octave, "octave of step {step}");
    }
}

#[test]
fn notes_and_steps_round_trip() {
    for step in -500i32..=500 {
        let (letter, octave) = note_of_step(step);
        assert_eq!(step_of_note(letter, octave), step as i64);
    }
    assert_eq!(step_of_note(Letter::Db, 4), 61);
    assert_eq!(note_of_step(61), (Letter::Csh, 4));
    assert_eq!(step_of_note(Letter::B, i32::MAX), (i32::MAX as i64 + 1) * 12 + 11);
    assert_eq!(step_of_note(Letter::C, i32::MIN), (i32::MIN as i64 + 1) * 12);
}
