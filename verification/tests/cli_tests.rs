use tmtool::cli::{confirms_lock, parse_hex, parse_key_slot, KeySlotError};
use tmtool::{Args, Cmds, ReadCmd};

#[test]
fn key_slot_accepts_the_two_slots() {
    assert_eq!(parse_key_slot("0xe0e8"), Ok(0xe0e8));
    assert_eq!(parse_key_slot("0xE0E9"), Ok(0xe0e9));
    assert_eq!(parse_key_slot("0x00e0e8"), Ok(0xe0e8));
    assert_eq!(parse_key_slot("0x+e0e9"), Ok(0xe0e9));
}

#[test]
fn key_slot_skips_the_first_two_characters_unread() {
    assert_eq!(parse_key_slot("abe0e8"), Ok(0xe0e8));
}

#[test]
fn key_slot_refuses_other_slots() {
    assert_eq!(parse_key_slot("0x1234"), Err(KeySlotError::Unsupported));
    assert_eq!(parse_key_slot("0x0"), Err(KeySlotError::Unsupported));
}

#[test]
fn key_slot_refuses_what_is_not_a_16_bit_number() {
    assert_eq!(parse_key_slot("0x"), Err(KeySlotError::Unparsable));
    assert_eq!(parse_key_slot("0x+"), Err(KeySlotError::Unparsable));
    assert_eq!(parse_key_slot("0xe0g8"), Err(KeySlotError::Unparsable));
    assert_eq!(parse_key_slot("0x-e0e8"), Err(KeySlotError::Unparsable));
    assert_eq!(parse_key_slot("0x1e0e8"), Err(KeySlotError::Unparsable));
    assert_eq!(parse_key_slot("0x e0e8"), Err(KeySlotError::Unparsable));
}

#[test]
fn hex_numbers_read_as_std_reads_them() {
    for text in ["0", "ffff", "FfFf", "+10", "0010000", "10000", "", "+", "-1", "1 ", "g"] {
        assert_eq!(parse_hex(text.as_bytes()), u16::from_str_radix(text, 16).ok(), "{:?}", text);
    }
}

#[test]
fn args_give_their_slot() {
    let args = Args {
        device: "/dev/i2c-1".to_string(),
        key_slot: "0xe0e8".to_string(),
        command: Cmds::Read(ReadCmd { raw: false }),
    };
    assert_eq!(args.slot(), Ok(0xe0e8));
}

#[test]
fn lock_confirmation_wants_yes() {
    assert!(confirms_lock("yes\n"));
    assert!(confirms_lock("  yes \t\r\n"));
    assert!(confirms_lock("\u{3000}yes\u{85}"));
    assert!(!confirms_lock("Yes\n"));
    assert!(!confirms_lock("no\n"));
    assert!(!confirms_lock("yes please\n"));
    assert!(!confirms_lock(""));
    assert!(!confirms_lock("y e s"));
}

#[test]
fn lock_confirmation_trims_as_std_does() {
    for text in ["yes", " yes", "yes\u{2000}", "\u{200b}yes", "\u{feff}yes", "\u{1680}yes\u{205f}"] {
        assert_eq!(confirms_lock(text), text.trim() == "yes", "{:?}", text);
    }
}
