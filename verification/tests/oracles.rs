use channel_event_attributes::height::{Height, TimeoutHeight};
use channel_event_attributes::identifiers::{ChannelId, ConnectionId, PortId, Sequence};
use channel_event_attributes::payload::{reconcile, write_payload};
use channel_event_attributes::timestamp::Timestamp;

/// The number that `text` spells: an optional plus sign, then digits only, and a value
/// that fits.
fn number(text: &str) -> Option<u64> {
    let digits = text.strip_prefix('+').unwrap_or(text);
    if digits.is_empty() || !digits.bytes().all(|b| b.is_ascii_digit()) {
        return None;
    }
    let mut value: u128 = 0;
    for b in digits.bytes() {
        value = value * 10 + u128::from(b - b'0');
        if value > u128::from(u64::MAX) {
            return None;
        }
    }
    Some(value as u64)
}

/// The two numbers that `text` spells around its first hyphen.
fn numbers(text: &str) -> Option<(u64, u64)> {
    let cut = text.find('-')?;
    Some((number(&text[..cut])?, number(&text[cut + 1..])?))
}

/// Whether `text` is `name`, a hyphen and a number without a leading zero, and between
/// `min` and 64 characters long.
fn named(name: &str, min: usize, text: &str) -> bool {
    let Some(rest) = text.strip_prefix(name) else {
        return false;
    };
    let Some(digits) = rest.strip_prefix('-') else {
        return false;
    };
    number(digits).is_some()
        && !(digits.starts_with('0') && digits.len() > 1)
        && min <= text.chars().count()
        && text.chars().count() <= 64
}

fn numerals() -> Vec<String> {
    let mut all: Vec<String> = Vec::new();
    for text in ["", "+", "-", "0", "00", "+0", "-0", "7", "07", "+7", "++7", "+-7", "7+", "10",
        "1 0", " 10", "10 ", "1_0", "1e3", "0x1f", "\u{661}\u{662}", "\u{ff11}", "4294967296",
        "18446744073709551614", "18446744073709551615", "18446744073709551616",
        "18446744073709551625", "28446744073709551615", "184467440737095516150",
        "000000000000000000000000018446744073709551615",
        "+000000000000000000000000018446744073709551616", "99999999999999999999999999999999"]
    {
        all.push(text.to_string());
    }
    for n in 0u64..=120 {
        all.push(n.to_string());
    }
    for shift in 0..64 {
        let n = 1u64 << shift;
        all.push(n.to_string());
        all.push((n - 1).to_string());
        all.push(format!("+{}", n));
        all.push(format!("0{}", n));
    }
    all
}

#[test]
fn sequence_reads_what_spells_a_number_and_nothing_else() {
    for text in numerals() {
        assert_eq!(
            Sequence::from_str(&text).ok().map(|sequence| sequence.value()),
            number(&text),
            "text {:?}",
            text
        );
    }
}

#[test]
fn sequence_writes_the_shortest_numeral() {
    for text in numerals() {
        if let Some(n) = number(&text) {
            let written = Sequence::from(n).to_string();
            assert_eq!(written, n.to_string());
            assert_eq!(number(&written), Some(n));
            assert!(written == "0" || !written.starts_with('0'));
            assert!(written.bytes().all(|b| b.is_ascii_digit()));
        }
    }
}

#[test]
fn height_reads_two_numbers_around_the_first_hyphen() {
    let parts = numerals();
    let mut texts: Vec<String> = Vec::new();
    for (i, first) in parts.iter().enumerate() {
        texts.push(first.clone());
        for second in parts.iter().skip(i % 7).step_by(7) {
            texts.push(format!("{}-{}", first, second));
        }
    }
    for text in ["-", "--", "1-2-3", "1--2", "-1-2", "1-2-", "1\u{2013}2", "1 - 2"] {
        texts.push(text.to_string());
    }
    for text in texts {
        let expected = numbers(&text);
        let height = Height::from_str(&text)
            .ok()
            .map(|height| (height.revision_number(), height.revision_height()));
        assert_eq!(height, expected.filter(|pair| pair.1 != 0), "text {:?}", text);
        let timeout = TimeoutHeight::from_str(&text).ok();
        match expected {
            Some((0, 0)) => assert_eq!(timeout, Some(TimeoutHeight::Never), "text {:?}", text),
            Some((_, 0)) | None => assert_eq!(timeout, None, "text {:?}", text),
            Some((a, b)) => {
                assert_eq!(timeout, Some(TimeoutHeight::At(Height::new(a, b).unwrap())))
            }
        }
    }
}

#[test]
fn height_writes_its_two_numerals() {
    for (a, b) in [(0u64, 1u64), (1, 1), (10, 100), (u64::MAX, 1), (0, u64::MAX), (7, 70)] {
        let height = Height::new(a, b).unwrap();
        assert_eq!(height.to_string(), format!("{}-{}", a, b));
        assert_eq!(numbers(&height.to_string()), Some((a, b)));
    }
}

#[test]
fn channel_and_connection_ids_are_named_numbers() {
    let mut texts: Vec<String> = Vec::new();
    for digits in numerals() {
        for head in ["channel-", "connection-", "channel", "connection", "channel_", "Channel-",
            "channel--", "chann-", "client-", "-", ""]
        {
            texts.push(format!("{}{}", head, digits));
        }
    }
    for pad in 40..60 {
        texts.push(format!("channel-+{}7", "0".repeat(pad)));
        texts.push(format!("connection-+{}7", "0".repeat(pad)));
    }
    for text in texts {
        assert_eq!(
            ChannelId::from_str(&text).is_ok(),
            named("channel", 8, &text),
            "text {:?}",
            text
        );
        assert_eq!(
            ConnectionId::from_str(&text).is_ok(),
            named("connection", 10, &text),
            "text {:?}",
            text
        );
    }
}

#[test]
fn port_id_of_ascii_text_goes_by_its_length_and_its_characters() {
    let allowed = |c: char| c.is_ascii_alphanumeric() || "._+-#[]<>".contains(c);
    for code in 0u8..=127 {
        let c = char::from(code);
        for text in [format!("{}", c), format!("a{}", c), format!("{}z", c), format!("p{}9", c)]
        {
            let expected = text.len() >= 2 && text.chars().all(allowed);
            assert_eq!(PortId::from_str(&text).is_ok(), expected, "text {:?}", text);
        }
    }
    for length in [0usize, 1, 2, 3, 127, 128, 129, 200] {
        let text = "x".repeat(length);
        assert_eq!(PortId::from_str(&text).is_ok(), (2..=128).contains(&length));
    }
}

#[test]
fn port_id_is_never_longer_than_its_bytes_allow() {
    // Two bytes each: 64 of them pass, 65 do not, though there are fewer than 128 characters.
    for (count, expected) in [(1usize, true), (64, true), (65, false), (100, false)] {
        let text = "\u{e9}".repeat(count);
        assert_eq!(PortId::from_str(&text).is_ok(), expected, "count {}", count);
    }
}

#[test]
fn timestamp_takes_every_count() {
    let mut counts: Vec<u64> = vec![0, 1, u64::MAX, u64::MAX - 1];
    for shift in 0..64 {
        counts.push(1u64 << shift);
        counts.push((1u64 << shift) - 1);
        counts.push(u64::MAX - (1u64 << shift));
    }
    for seconds in [1u64, 59, 86_399, 86_400, 31_535_999, 31_536_000, 18_446_744_073] {
        counts.push(seconds * 1_000_000_000);
        counts.push(seconds * 1_000_000_000 + 999_999_999);
    }
    for count in counts {
        assert_eq!(Timestamp::from_nanoseconds(count).unwrap().nanoseconds(), count);
    }
}

#[test]
fn hex_spells_every_byte_with_two_lower_case_digits() {
    for byte in 0u8..=255 {
        let pairs = write_payload(vec![b'a', b'z'], "k", "h").unwrap();
        assert_eq!(pairs[1].value, b"617a".to_vec());
        let text = format!("{:02x}", byte).into_bytes();
        assert_eq!(reconcile(None, Some(&text)), Ok(vec![byte]));
        let text = format!("00{:02x}ff", byte).into_bytes();
        assert_eq!(reconcile(None, Some(&text)), Ok(vec![0, byte, 255]));
    }
    for byte in 0u8..=127 {
        let pairs = write_payload(vec![byte], "k", "h").unwrap();
        assert_eq!(pairs[1].value, format!("{:02x}", byte).into_bytes());
    }
    let all: Vec<u8> = (0u8..=127).collect();
    let pairs = write_payload(all.clone(), "k", "h").unwrap();
    let expected: String = all.iter().map(|byte| format!("{:02x}", byte)).collect();
    assert_eq!(pairs[1].value, expected.into_bytes());
}

#[test]
fn hex_takes_the_sixteen_digits_and_no_other_byte() {
    for byte in 0u8..=255 {
        let digit = byte.is_ascii_digit() || (b'a'..=b'f').contains(&byte);
        assert_eq!(reconcile(None, Some(&[byte, b'0'])).is_ok(), digit, "byte {}", byte);
        assert_eq!(reconcile(None, Some(&[b'0', byte])).is_ok(), digit, "byte {}", byte);
        assert_eq!(reconcile(None, Some(&[b'a', b'f', byte, b'9'])).is_ok(), digit);
        assert!(reconcile(None, Some(&[byte])).is_err());
        assert!(reconcile(None, Some(&[b'1', b'2', byte])).is_err());
    }
    assert_eq!(reconcile(None, Some(b"")), Ok(Vec::new()));
}
