use vikey::buffer::InputBuffer;
use vikey::methods::TelexMethod;
use vikey::plugin::InputMethodTrait;
use vikey::types::Action;
use vikey::viet_lookup::VietnameseLookup;

#[test]
fn test_telex_info() {
    let method = TelexMethod::new();
    assert_eq!(method.id(), "telex");
    assert_eq!(method.name(), "Telex");
}

#[test]
fn test_mark_aa_to_a_circumflex() {
    let mut method = TelexMethod::new();
    let mut buffer = InputBuffer::new();
    let lookup = VietnameseLookup::new_telex();

    method.process('a', &mut buffer, &lookup);
    let action = method.process('a', &mut buffer, &lookup);

    assert!(matches!(action, Action::Replace { backspace_count: 2, ref text } if text == "â"));
}

#[test]
fn test_mark_aw_to_a_breve() {
    let mut method = TelexMethod::new();
    let mut buffer = InputBuffer::new();
    let lookup = VietnameseLookup::new_telex();

    method.process('a', &mut buffer, &lookup);
    let action = method.process('w', &mut buffer, &lookup);

    assert!(matches!(action, Action::Replace { backspace_count: 2, ref text } if text == "ă"));
}

#[test]
fn test_tone_simple() {
    let mut method = TelexMethod::new();
    let mut buffer = InputBuffer::new();
    let lookup = VietnameseLookup::new_telex();

    method.process('a', &mut buffer, &lookup);
    let action = method.process('s', &mut buffer, &lookup);

    assert!(matches!(action, Action::Replace { ref text, .. } if text == "á"));
}

#[test]
fn direct_tone_goes_to_second_of_oa_and_keeps_buffer() {
    let mut method = TelexMethod::new();
    let mut buffer = InputBuffer::new();
    let lookup = VietnameseLookup::new_telex();
    assert_eq!(method.process('h', &mut buffer, &lookup), Action::Commit("h".to_string()));
    method.process('o', &mut buffer, &lookup);
    method.process('a', &mut buffer, &lookup);
    let action = method.process('s', &mut buffer, &lookup);
    assert_eq!(action, Action::Replace { backspace_count: 3, text: "hoá".to_string() });
    assert_eq!(buffer.to_string(), "hoa");
    assert!(TelexMethod::find_tone_position(&vec!['b', 'c']).is_none());
    assert_eq!(TelexMethod::apply_tone('x', vikey::syllable::Tone::Acute), None);
    assert_eq!(
        method.process_backspace(&mut buffer),
        Action::Replace { backspace_count: 1, text: String::new() }
    );
    assert_eq!(buffer.to_string(), "ho");
}
