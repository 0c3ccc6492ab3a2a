use packet_dump::hexdump::{hex_dump, render_report, RULE_WIDTH, WIDTH};

/// The dump as it is defined: groups of twenty bytes, each with its
/// columns, blank space, separator and letters.
fn expected_dump(payload: &[u8]) -> String {
    let mut out = String::new();
    for group in payload.chunks(20) {
        for b in group {
            out.push_str(&format!("{:02X} ", b));
        }
        for _ in group.len()..20 {
            out.push_str("   ");
        }
        out.push_str("| ");
        for b in group {
            out.push(if b.is_ascii_alphabetic() { *b as char } else { '.' });
        }
    }
    out
}

/// A payload of `len` bytes that mixes letters with other bytes.
fn sample(len: usize) -> Vec<u8> {
    (0..len).map(|i| (i * 37 + 11) as u8).collect()
}

/// The lines of a dump, cut by their known widths.
fn lines_of(dump: &str, len: usize) -> Vec<String> {
    let mut lines = Vec::new();
    let mut rest = dump;
    let mut left = len;
    while left > 0 {
        let bytes = left.min(20);
        let (line, tail) = rest.split_at(62 + bytes);
        lines.push(line.to_string());
        rest = tail;
        left -= bytes;
    }
    assert_eq!(rest, "");
    lines
}

fn check_shape(len: usize) {
    let payload = sample(len);
    let dump = hex_dump(&payload);
    assert_eq!(dump, expected_dump(&payload));
    let lines = lines_of(&dump, len);
    assert_eq!(lines.len(), (len + 19) / 20);
    for (k, line) in lines.iter().enumerate() {
        let (columns, tail) = line.split_at(60);
        let (separator, letters) = tail.split_at(2);
        assert_eq!(separator, "| ");
        let bytes = &payload[20 * k..(20 * k + 20).min(len)];
        let hex_bytes = bytes.len();
        let blank_columns = 20 - hex_bytes;
        assert_eq!(hex_bytes + blank_columns, 20);
        for (i, b) in bytes.iter().enumerate() {
            assert_eq!(&columns[3 * i..3 * i + 3], format!("{:02X} ", b));
        }
        assert_eq!(&columns[3 * hex_bytes..], " ".repeat(3 * blank_columns));
        assert_eq!(letters.chars().count(), hex_bytes);
    }
}

#[test]
fn widths_are_twenty_bytes_and_sixty_signs() {
    assert_eq!(WIDTH, 20);
    assert_eq!(RULE_WIDTH, 60);
}

#[test]
fn dump_of_empty_payload_is_empty() {
    assert_eq!(hex_dump(&[]), "");
    check_shape(0);
}

#[test]
fn dump_of_one_byte_is_one_padded_line() {
    assert_eq!(hex_dump(&[0x48]), format!("48 {}| H", " ".repeat(57)));
    check_shape(1);
}

#[test]
fn dump_of_nineteen_bytes_has_one_blank_column() {
    let payload = [b'a'; 19];
    assert_eq!(hex_dump(&payload), format!("{}   | {}", "61 ".repeat(19), "a".repeat(19)));
    check_shape(19);
}

#[test]
fn dump_of_twenty_bytes_is_one_full_line_without_padding() {
    let payload = [0x0a; 20];
    assert_eq!(hex_dump(&payload), format!("{}| {}", "0A ".repeat(20), ".".repeat(20)));
    check_shape(20);
}

#[test]
fn dump_of_twenty_one_bytes_flushes_a_second_line() {
    let mut payload = vec![b'Z'; 20];
    payload.push(0xff);
    let first = format!("{}| {}", "5A ".repeat(20), "Z".repeat(20));
    let second = format!("FF {}| .", " ".repeat(57));
    assert_eq!(hex_dump(&payload), format!("{}{}", first, second));
    check_shape(21);
}

#[test]
fn dump_of_forty_bytes_is_two_full_lines() {
    check_shape(40);
    let dump = hex_dump(&sample(40));
    assert_eq!(dump.len(), 2 * 62 + 40);
}

#[test]
fn dump_of_forty_one_bytes_is_three_lines() {
    check_shape(41);
    let dump = hex_dump(&sample(41));
    assert_eq!(dump.len(), 3 * 62 + 41);
}

#[test]
fn dump_has_the_defined_shape_for_every_length_up_to_a_hundred() {
    for len in 0..=100 {
        check_shape(len);
    }
}

#[test]
fn dump_length_is_sixty_two_for_each_line_and_one_for_each_byte() {
    for len in [0usize, 1, 19, 20, 21, 40, 41, 255, 256, 1500] {
        let dump = hex_dump(&sample(len));
        assert_eq!(dump.len(), 62 * ((len + 19) / 20) + len);
    }
}

#[test]
fn dump_writes_two_upper_case_digits_for_each_byte() {
    assert_eq!(&hex_dump(&[0x00])[..3], "00 ");
    assert_eq!(&hex_dump(&[0x0f])[..3], "0F ");
    assert_eq!(&hex_dump(&[0xa0])[..3], "A0 ");
    assert_eq!(&hex_dump(&[0xde, 0xad, 0xbe, 0xef])[..12], "DE AD BE EF ");
}

#[test]
fn report_has_summary_dump_and_rule() {
    let text = render_report("TCP", "10.0.0.1", "5000", "10.0.0.2", "6000", b"HELLOHELLO!!");
    let expected = format!(
        "Captured a TCP packet from 10.0.0.1|5000 to 10.0.0.2|6000\n\n{}{}| HELLOHELLO..{}\n\n",
        "48 45 4C 4C 4F 48 45 4C 4C 4F 21 21 ",
        " ".repeat(24),
        "=".repeat(60),
    );
    assert_eq!(text, expected);
}

#[test]
fn report_of_empty_payload_has_no_dump() {
    let text = render_report("UDP", "::1", "53", "fe80::2", "5353", &[]);
    let expected =
        format!("Captured a UDP packet from ::1|53 to fe80::2|5353\n\n{}\n\n", "=".repeat(60));
    assert_eq!(text, expected);
}

#[test]
fn report_names_the_protocol_it_is_given() {
    let text = render_report("SCTP", "a", "b", "c", "d", &[1]);
    assert!(text.starts_with("Captured a SCTP packet from a|b to c|d\n\n01 "));
    assert!(text.ends_with(&format!("| .{}\n\n", "=".repeat(60))));
}
