use vikey::buffer::InputBuffer;

#[test]
fn test_new_buffer() {
    let buffer = InputBuffer::new();
    assert_eq!(buffer.len(), 0);
    assert!(buffer.is_empty());
}

#[test]
fn test_push_pop() {
    let mut buffer = InputBuffer::new();
    buffer.push('a', true);
    buffer.push('B', false);

    assert_eq!(buffer.len(), 2);
    assert_eq!(buffer.pop(), Some(('B', false)));
    assert_eq!(buffer.pop(), Some(('a', true)));
    assert_eq!(buffer.pop(), None);
}

#[test]
fn test_last() {
    let mut buffer = InputBuffer::new();
    assert_eq!(buffer.last(), None);

    buffer.push('a', true);
    assert_eq!(buffer.last(), Some(&'a'));

    buffer.push('b', true);
    assert_eq!(buffer.last(), Some(&'b'));
}

#[test]
fn test_get_set() {
    let mut buffer = InputBuffer::new();
    buffer.push('a', true);
    buffer.push('b', true);

    assert_eq!(buffer.get(0), Some(&'a'));
    assert_eq!(buffer.get(1), Some(&'b'));
    assert_eq!(buffer.get(2), None);

    buffer.set(0, 'â');
    assert_eq!(buffer.get(0), Some(&'â'));
}

#[test]
fn test_clear() {
    let mut buffer = InputBuffer::new();
    buffer.push('a', true);
    buffer.push('b', true);
    buffer.set_last_w_converted(true);

    buffer.clear();

    assert_eq!(buffer.len(), 0);
    assert!(!buffer.last_w_converted());
}

#[test]
fn test_to_string() {
    let mut buffer = InputBuffer::new();
    buffer.push('h', true);
    buffer.push('e', true);
    buffer.push('l', true);
    buffer.push('l', true);
    buffer.push('o', true);

    assert_eq!(buffer.to_string(), "hello");
}

#[test]
fn test_throw_buffer() {
    let mut buffer = InputBuffer::new();

    for i in 0..50 {
        buffer.push(char::from_digit(i % 10, 10).unwrap(), true);
    }

    assert_eq!(buffer.len(), 30);
}

#[test]
fn test_chars_from() {
    let mut buffer = InputBuffer::new();
    buffer.push('a', true);
    buffer.push('b', true);
    buffer.push('c', true);

    let chars: String = buffer.chars_from(1).into_iter().collect();
    assert_eq!(chars, "bc");
}

#[test]
fn test_buffer() {
    let mut buffer = InputBuffer::new();
    buffer.push('a', true);
    assert_eq!(buffer.len(), 1);
}

#[test]
fn test_buffer_operations() {
    let mut buffer = InputBuffer::new();

    buffer.push('a', true);
    assert_eq!(buffer.len(), 1);
    assert_eq!(buffer.to_string(), "a");

    buffer.push('b', true);
    assert_eq!(buffer.len(), 2);
    assert_eq!(buffer.to_string(), "ab");

    buffer.pop();
    assert_eq!(buffer.len(), 1);
    assert_eq!(buffer.to_string(), "a");

    buffer.clear();
    assert_eq!(buffer.len(), 0);
    assert!(buffer.is_empty());
}

fn stream_char(i: usize) -> char {
    char::from_u32('a' as u32 + (i % 26) as u32).unwrap()
}

#[test]
fn overflow_keeps_the_tail_of_the_stream() {
    for n in [40usize, 41, 59, 60, 61, 100, 101] {
        let mut buffer = InputBuffer::new();
        for i in 0..n {
            buffer.push(stream_char(i), i % 2 == 0);
        }
        let expected_len = if n <= 40 { n } else { 21 + (n - 41) % 20 };
        assert_eq!(buffer.len(), expected_len, "after {} pushes", n);
        let expected: String = (n - expected_len..n).map(stream_char).collect();
        assert_eq!(buffer.to_string(), expected);
    }
}

#[test]
fn set_keeps_case_flag_and_ignores_out_of_range() {
    let mut buffer = InputBuffer::new();
    buffer.push('A', false);
    buffer.set(0, 'Â');
    buffer.set(5, 'x');
    assert_eq!(buffer.pop(), Some(('Â', false)));
    buffer.set_last_is_escape(true);
    assert!(buffer.last_is_escape());
}
