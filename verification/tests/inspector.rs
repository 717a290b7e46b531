use charm::category::{CharType, Color};
use charm::emission::{Emission, TerminalAction};
use charm::inspector::{CharInfo, DecodeOutcome, InputUnit};
use charm::options::{Flags, Options};
use charm::record::InspectionRecord;

fn options(bytes: bool, show_names: bool) -> Options {
    Options {
        flags: Flags { bytes, show_names, show_scripts: false, show_widths: false },
        input_file_name: None,
    }
}

fn character(c: char) -> InputUnit {
    InputUnit { outcome: DecodeOutcome::Character(c), name: None }
}

fn named(c: char, name: &str) -> InputUnit {
    InputUnit { outcome: DecodeOutcome::Character(c), name: Some(name.to_string()) }
}

fn failure(message: &str) -> InputUnit {
    InputUnit { outcome: DecodeOutcome::DecodeError(message.to_string()), name: None }
}

fn text_units(text: &str) -> Vec<InputUnit> {
    text.chars().map(character).collect()
}

fn record(emission: &Emission) -> &InspectionRecord {
    match emission {
        Emission::Record(record) => record,
        Emission::Error(message) => panic!("an error line: {}", message),
    }
}

fn ordinals(output: &[Emission]) -> Vec<u64> {
    let mut found = Vec::new();
    for emission in output {
        if let Emission::Record(record) = emission {
            found.push(record.ordinal);
        }
    }
    found
}

#[test]
fn counter_starts_at_one_for_characters_and_zero_for_bytes() {
    assert_eq!(CharInfo::new(options(false, false)).count, 1);
    assert_eq!(CharInfo::new(options(true, false)).count, 0);
    assert_eq!(CharInfo::new(options(true, true)).options, options(true, true));
}

#[test]
fn single_letter_with_default_options() {
    let output = CharInfo::new(options(false, false)).run(&text_units("A"));
    assert_eq!(output.len(), 1);
    let found = record(&output[0]);
    assert_eq!(found.ordinal, 1);
    assert_eq!(found.glyph, " 'A'");
    assert_eq!(found.byte_hex, "41");
    assert_eq!(found.name, None);
    assert_eq!(found.category, CharType::Normal);
    assert_eq!(output[0].text(), "    1:  'A' = 41");
    assert_eq!(output[0].color(), None);
}

#[test]
fn bell_is_a_control_character_in_green() {
    let output = CharInfo::new(options(false, false)).run(&text_units("\u{7}"));
    assert_eq!(output.len(), 1);
    let found = record(&output[0]);
    assert_eq!(found.glyph, " #7 ");
    assert_eq!(found.glyph.trim_end(), " #7");
    assert_eq!(found.category, CharType::Control);
    assert_eq!(found.byte_hex, "07");
    assert_eq!(found.color(), Some(Color::Green));
    assert_eq!(output[0].color(), Some(Color::Green));
    assert_eq!(output[0].text(), "    1:  #7  = 07");
}

#[test]
fn combining_mark_is_shown_in_magenta() {
    let output = CharInfo::new(options(false, false)).run(&text_units("\u{301}"));
    let found = record(&output[0]);
    assert_eq!(found.category, CharType::Combining);
    assert_eq!(found.glyph, " ' \u{301}'");
    assert_eq!(found.byte_hex, "cc 81");
    assert_eq!(output[0].color(), Some(Color::Magenta));
    assert_eq!(output[0].text(), "    1:  ' \u{301}' = cc 81");
}

#[test]
fn name_is_appended_in_parentheses() {
    let input = vec![named('\u{20AC}', "EURO SIGN")];
    let output = CharInfo::new(options(false, true)).run(&input);
    let found = record(&output[0]);
    assert_eq!(found.byte_hex, "e2 82 ac");
    assert_eq!(found.name, Some("EURO SIGN".to_string()));
    let line = output[0].text();
    assert!(line.ends_with(" (EURO SIGN)"));
    assert_eq!(line, "    1:  '\u{20AC}' = e2 82 ac (EURO SIGN)");
}

#[test]
fn name_is_left_out_where_names_are_not_shown() {
    let input = vec![named('\u{20AC}', "EURO SIGN")];
    let output = CharInfo::new(options(false, false)).run(&input);
    assert_eq!(record(&output[0]).name, None);
    assert_eq!(output[0].text(), "    1:  '\u{20AC}' = e2 82 ac");
}

#[test]
fn missing_name_is_no_error() {
    let output = CharInfo::new(options(false, true)).run(&text_units("\u{7}"));
    assert_eq!(record(&output[0]).name, None);
    assert_eq!(output[0].text(), "    1:  #7  = 07");
}

#[test]
fn names_are_wanted_only_where_the_option_is_set() {
    assert!(CharInfo::new(options(false, true)).wants_names());
    assert!(!CharInfo::new(options(false, false)).wants_names());
    assert!(!CharInfo::new(options(true, false)).wants_names());
}

#[test]
fn byte_mode_counts_encoded_bytes() {
    let output = CharInfo::new(options(true, false)).run(&text_units("\u{e9}x"));
    assert_eq!(ordinals(&output), vec![0, 2]);
    assert_eq!(output[0].text(), "    0:  '\u{e9}' = c3 a9");
    assert_eq!(output[1].text(), "    2:  'x' = 78");
}

#[test]
fn character_mode_counts_by_one() {
    let output = CharInfo::new(options(false, false)).run(&text_units("\u{e9}x\u{1F600}y"));
    assert_eq!(ordinals(&output), vec![1, 2, 3, 4]);
}

#[test]
fn byte_mode_increments_equal_encoding_lengths() {
    let text = "a\u{e9}\u{20AC}\u{1F600}\u{7}z";
    let output = CharInfo::new(options(true, false)).run(&text_units(text));
    let found = ordinals(&output);
    let chars: Vec<char> = text.chars().collect();
    assert_eq!(found, vec![0, 1, 3, 6, 10, 11]);
    for i in 0..chars.len() - 1 {
        assert_eq!(found[i + 1] - found[i], chars[i].len_utf8() as u64);
    }
}

#[test]
fn decode_error_is_reported_and_the_run_goes_on() {
    let input = vec![character('a'), failure("invalid utf-8 sequence"), character('b')];
    let output = CharInfo::new(options(false, false)).run(&input);
    assert_eq!(output.len(), 3);
    assert_eq!(output[1], Emission::Error("invalid utf-8 sequence".to_string()));
    assert_eq!(output[1].text(), "Error: invalid utf-8 sequence");
    assert_eq!(output[1].color(), None);
    assert_eq!(ordinals(&output), vec![1, 2]);
    assert_eq!(output[2].text(), "    2:  'b' = 62");
}

#[test]
fn decode_error_does_not_advance_the_counter() {
    for bytes in [false, true] {
        let mut info = CharInfo::new(options(bytes, false));
        let before = info.count;
        let emission = info.step(&failure("bad"));
        assert_eq!(emission, Emission::Error("bad".to_string()));
        assert_eq!(info.count, before);
    }
}

#[test]
fn step_advances_the_counter_after_the_record() {
    let mut info = CharInfo::new(options(true, false));
    let first = info.step(&character('\u{20AC}'));
    assert_eq!(record(&first).ordinal, 0);
    assert_eq!(info.count, 3);
    let second = info.step(&character('\u{1F600}'));
    assert_eq!(record(&second).ordinal, 3);
    assert_eq!(info.count, 7);
    assert_eq!(info.options, options(true, false));
}

#[test]
fn run_is_a_sequence_of_steps() {
    let input = vec![
        character('x'),
        failure("oops"),
        named('\u{301}', "COMBINING ACUTE ACCENT"),
        character('\u{0}'),
        character('\u{4e16}'),
    ];
    for bytes in [false, true] {
        for names in [false, true] {
            let whole = CharInfo::new(options(bytes, names)).run(&input);
            let mut info = CharInfo::new(options(bytes, names));
            let mut stepped = Vec::new();
            for unit in &input {
                assert!(info.has_room(unit));
                stepped.push(info.step(unit));
            }
            assert_eq!(whole, stepped);
        }
    }
}

#[test]
fn ordinals_increase_strictly() {
    let input = vec![
        character('a'),
        failure("one"),
        failure("two"),
        character('\u{e9}'),
        character('\u{7}'),
        failure("three"),
        character('\u{10FFFF}'),
        character('b'),
    ];
    for bytes in [false, true] {
        let found = ordinals(&CharInfo::new(options(bytes, false)).run(&input));
        assert_eq!(found.len(), 5);
        for i in 0..found.len() - 1 {
            assert!(found[i] < found[i + 1]);
        }
    }
    let found = ordinals(&CharInfo::new(options(true, false)).run(&input));
    assert_eq!(found, vec![0, 1, 3, 4, 8]);
}

#[test]
fn letters_are_written_without_styling() {
    let text = "ABCXYZabcxyzTheQuickBrownFox";
    let output = CharInfo::new(options(false, false)).run(&text_units(text));
    assert_eq!(output.len(), text.len());
    for emission in &output {
        assert_eq!(emission.color(), None);
        assert_eq!(record(emission).category, CharType::Normal);
    }
}

#[test]
fn empty_input_gives_no_output() {
    let output = CharInfo::new(options(false, false)).run(&Vec::new());
    assert!(output.is_empty());
}

#[test]
fn wide_ordinals_keep_all_their_digits() {
    let mut info = CharInfo::new(options(false, false));
    info.count = 123456;
    let emission = info.step(&character('A'));
    assert_eq!(emission.text(), "123456:  'A' = 41");
    assert_eq!(info.count, 123457);
}

#[test]
fn room_ends_where_the_counter_ends() {
    let mut info = CharInfo::new(options(true, false));
    info.count = u64::MAX - 3;
    assert!(info.has_room(&character('\u{20AC}')));
    assert!(!info.has_room(&character('\u{1F600}')));
    assert!(info.has_room(&failure("bad")));
    let mut by_one = CharInfo::new(options(false, false));
    by_one.count = u64::MAX;
    assert!(!by_one.has_room(&character('a')));
    assert!(by_one.has_room(&failure("bad")));
    by_one.count = u64::MAX - 1;
    assert!(by_one.has_room(&character('\u{1F600}')));
}

#[test]
fn record_is_built_from_its_parts() {
    let found = InspectionRecord::new(42, '\u{e9}', Some(1), Some("NAME".to_string()));
    assert_eq!(found.ordinal, 42);
    assert_eq!(found.glyph, " '\u{e9}'");
    assert_eq!(found.byte_hex, "c3 a9");
    assert_eq!(found.name, Some("NAME".to_string()));
    assert_eq!(found.category, CharType::Normal);
    assert_eq!(found.line(), "   42:  '\u{e9}' = c3 a9 (NAME)");
    let wide = InspectionRecord::new(7, '\u{4e16}', Some(2), None);
    assert_eq!(wide.line(), "    7: '\u{4e16}' = e4 b8 96");
}

#[test]
fn styled_record_is_set_written_reset_and_ended() {
    let output = CharInfo::new(options(false, false)).run(&text_units("\u{7}\u{301}"));
    assert_eq!(
        output[0].actions(),
        vec![
            TerminalAction::SetColor(Color::Green),
            TerminalAction::Write("    1:  #7  = 07".to_string()),
            TerminalAction::Reset,
            TerminalAction::EndLine,
        ]
    );
    assert_eq!(
        output[1].actions(),
        vec![
            TerminalAction::SetColor(Color::Magenta),
            TerminalAction::Write("    2:  ' \u{301}' = cc 81".to_string()),
            TerminalAction::Reset,
            TerminalAction::EndLine,
        ]
    );
}

#[test]
fn plain_record_and_error_line_ask_for_no_styling() {
    let input = vec![character('A'), failure("bad byte")];
    let output = CharInfo::new(options(false, false)).run(&input);
    assert_eq!(
        output[0].actions(),
        vec![TerminalAction::Write("    1:  'A' = 41".to_string()), TerminalAction::EndLine]
    );
    assert_eq!(
        output[1].actions(),
        vec![TerminalAction::Write("Error: bad byte".to_string()), TerminalAction::EndLine]
    );
}

#[test]
fn run_of_letters_never_touches_the_styling() {
    let text = "OnlyLettersOfTheAlphabet";
    let output = CharInfo::new(options(true, true)).run(&text_units(text));
    let mut styling = 0;
    for emission in &output {
        for action in emission.actions() {
            if matches!(action, TerminalAction::SetColor(_) | TerminalAction::Reset) {
                styling += 1;
            }
        }
    }
    assert_eq!(styling, 0);
}

#[test]
fn every_color_is_reset_before_the_line_ends() {
    let text = "a\u{7}b\u{301}\u{9f}\u{0}z\u{36f}";
    let output = CharInfo::new(options(false, false)).run(&text_units(text));
    for emission in &output {
        let actions = emission.actions();
        assert_eq!(actions.last(), Some(&TerminalAction::EndLine));
        let mut colored = false;
        for action in &actions {
            match action {
                TerminalAction::SetColor(_) => {
                    assert!(!colored);
                    colored = true;
                }
                TerminalAction::Reset => {
                    assert!(colored);
                    colored = false;
                }
                TerminalAction::Write(_) => {}
                TerminalAction::EndLine => assert!(!colored),
            }
        }
        assert_eq!(emission.color().is_some(), actions.len() == 4);
    }
}
