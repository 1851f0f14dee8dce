use vikey::lookup_table::{InputMethod, LookupTable};

#[test]
fn lookup_test_telex_vowels() {
    let table = LookupTable::new(InputMethod::Telex);

    let info_a = table.get_info(b'a');
    assert_eq!(info_a.vowel_index, 1);
    assert!(!info_a.is_breve);
    assert!(!info_a.is_separator);

    let info_e = table.get_info(b'e');
    assert_eq!(info_e.vowel_index, 2);
}

#[test]
fn test_telex_breve() {
    let table = LookupTable::new(InputMethod::Telex);

    let info_w = table.get_info(b'w');
    assert!(info_w.is_breve);
    assert_eq!(info_w.vowel_index, 0);
}

#[test]
fn test_telex_tone_marks() {
    let table = LookupTable::new(InputMethod::Telex);

    let info_s = table.get_info(b's');
    assert_eq!(info_s.tone_index, 1);

    let info_f = table.get_info(b'f');
    assert_eq!(info_f.tone_index, 2);

    let info_j = table.get_info(b'j');
    assert_eq!(info_j.tone_index, 5);
}

#[test]
fn test_separators() {
    let table = LookupTable::new(InputMethod::Telex);

    let info_space = table.get_info(b' ');
    assert!(info_space.is_separator);
    assert!(!info_space.is_soft_separator);

    let info_comma = table.get_info(b',');
    assert!(!info_comma.is_separator);
    assert!(info_comma.is_soft_separator);
}

#[test]
fn lookup_test_vni_numbers() {
    let table = LookupTable::new(InputMethod::VNI);

    let info_1 = table.get_info(b'1');
    assert_eq!(info_1.tone_index, 1);

    let info_6 = table.get_info(b'6');
    assert_eq!(info_6.vni_double_index, 1);

    let info_9 = table.get_info(b'9');
    assert_eq!(info_9.vni_double_index, 4);
}

#[test]
fn test_non_special_chars() {
    let table = LookupTable::new(InputMethod::Telex);

    let info_b = table.get_info(b'b');
    assert_eq!(info_b.vowel_index, 0);
    assert_eq!(info_b.tone_index, 0);
    assert!(!info_b.is_breve);
    assert!(!info_b.is_separator);
}

#[test]
fn packed_fields_decode_exactly() {
    let vni = LookupTable::new(InputMethod::VNI);
    assert_eq!(vni.get_info(b'5').tone_index, 5);
    assert_eq!(vni.get_info(b's').tone_index, 0);
    assert!(!vni.get_info(b'-').is_soft_separator);
    assert!(vni.get_info(b'?').is_soft_separator);
    let viqr = LookupTable::new(InputMethod::VIQR);
    assert_eq!(viqr.get_info(b'a').vowel_index, 0);
    assert!(!viqr.get_info(b' ').is_separator);
    let telex = LookupTable::new(InputMethod::Telex);
    assert_eq!(telex.get_info(b'Y').vowel_index, 6);
    assert_eq!(telex.get_info(200).vowel_index, 0);
}
