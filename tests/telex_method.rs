use vikey::buffer::InputBuffer;
use vikey::telex::TelexMethodV2;
use vikey::types::Action;
use vikey::viet_lookup::VietnameseLookup;

#[test]
fn test_telex_v2_history_basic() {
    let mut method = TelexMethodV2::new();
    let mut buffer = InputBuffer::new();
    let lookup = VietnameseLookup::new_telex();

    let action = method.process('a', &mut buffer, &lookup);
    assert!(matches!(action, Action::Replace { ref text, .. } if text == "a"));

    let action = method.process('a', &mut buffer, &lookup);
    assert!(matches!(action, Action::Replace { ref text, .. } if text == "â"));

    let action = method.process_backspace(&mut buffer);
    assert!(matches!(action, Action::Replace { ref text, .. } if text == "a"));
}

#[test]
fn test_telex_v2_uwo_shortcut() {
    let mut method = TelexMethodV2::new();
    let mut buffer = InputBuffer::new();
    let lookup = VietnameseLookup::new_telex();

    let keys = "duongw";
    for ch in keys.chars() {
        method.process(ch, &mut buffer, &lookup);
    }

    assert_eq!(method.syllable().to_string(), "dương");

    method.reset();
    buffer.clear();

    let keys = "dduongw";
    for ch in keys.chars() {
        method.process(ch, &mut buffer, &lookup);
    }
    assert_eq!(method.syllable().to_string(), "đương");

    method.process('f', &mut buffer, &lookup);
    assert_eq!(method.syllable().to_string(), "đường");
}

#[test]
fn test_telex_v2_complex() {
    let mut method = TelexMethodV2::new();
    let mut buffer = InputBuffer::new();
    let lookup = VietnameseLookup::new_telex();

    let keys = "toanf";
    for ch in keys.chars() {
        method.process(ch, &mut buffer, &lookup);
    }
    assert_eq!(method.syllable().to_string(), "toàn");

    method.process('z', &mut buffer, &lookup);
    assert_eq!(method.syllable().to_string(), "toan");

    method.process('s', &mut buffer, &lookup);
    assert_eq!(method.syllable().to_string(), "toán");

    method.reset();
    buffer.clear();

    let keys = "duong";
    for ch in keys.chars() {
        method.process(ch, &mut buffer, &lookup);
    }
    assert_eq!(method.syllable().to_string(), "duong");

    method.process('w', &mut buffer, &lookup);
    assert_eq!(method.syllable().to_string(), "dương");
}

#[test]
fn buffer_holds_shown_text_with_case_flags() {
    let mut method = TelexMethodV2::new();
    let mut buffer = InputBuffer::new();
    let lookup = VietnameseLookup::new_telex();
    for c in "DDaa".chars() {
        method.process(c, &mut buffer, &lookup);
    }
    assert_eq!(buffer.to_string(), "Đâ");
    assert_eq!(buffer.pop(), Some(('â', true)));
    assert_eq!(buffer.pop(), Some(('Đ', false)));
    assert!(method.can_undo(&buffer));
    let action = method.process(' ', &mut buffer, &lookup);
    assert_eq!(action, Action::Replace { backspace_count: 2, text: "Đâ".to_string() });
    assert!(buffer.is_empty());
    assert!(!method.can_undo(&buffer));
    assert_eq!(method.undo(&mut buffer), Action::DoNothing);
}
