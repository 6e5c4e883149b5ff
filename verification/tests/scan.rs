use veritas::scan::{i32_from_le_bytes, resolve_match, resolve_scan_result, scan_unity_player_section, ScanError};

#[test]
fn relative_call_is_followed() {
    // 0x90 padding, then call +0x10 at index 2: the target is 2 + 5 + 0x10.
    let bytes = [0x90, 0x90, 0xE8, 0x10, 0x00, 0x00, 0x00, 0x90, 0x90];
    assert_eq!(scan_unity_player_section(&bytes, "E8 ? ? ? ?"), Ok(Some(0x17)));
}

#[test]
fn rip_relative_move_is_followed() {
    // mov rcx, [rip + 0x20] at index 1: the operand is 1 + 7 + 0x20.
    let bytes = [0xCC, 0x48, 0x8B, 0x0D, 0x20, 0x00, 0x00, 0x00, 0xCC];
    assert_eq!(scan_unity_player_section(&bytes, "48 8B 0D"), Ok(Some(0x28)));
}

#[test]
fn other_instructions_give_the_match_itself() {
    let bytes = [0x00, 0x11, 0x22, 0x33, 0x44];
    assert_eq!(scan_unity_player_section(&bytes, "22 33"), Ok(Some(2)));
}

#[test]
fn negative_offsets_go_back() {
    // call -8 at index 16: 16 + 5 - 8 = 13.
    let mut bytes = vec![0x90u8; 24];
    bytes[16] = 0xE8;
    bytes[17] = 0xF8;
    bytes[18] = 0xFF;
    bytes[19] = 0xFF;
    bytes[20] = 0xFF;
    assert_eq!(scan_unity_player_section(&bytes, "E8 F8 FF FF FF"), Ok(Some(13)));
}

#[test]
fn no_match_and_bad_patterns() {
    let bytes = [0x01, 0x02, 0x03, 0x04];
    assert_eq!(scan_unity_player_section(&bytes, "05 06"), Ok(None));
    assert_eq!(scan_unity_player_section(&bytes, "zz"), Err(ScanError::InvalidPattern));
}

#[test]
fn truncated_call_is_refused() {
    let bytes = [0x00, 0x00, 0xE8, 0x01];
    assert_eq!(scan_unity_player_section(&bytes, "E8"), Err(ScanError::TruncatedOperand(2)));
}

#[test]
fn little_endian_offsets() {
    assert_eq!(i32_from_le_bytes(0x78, 0x56, 0x34, 0x12), 0x1234_5678);
    assert_eq!(i32_from_le_bytes(0xFF, 0xFF, 0xFF, 0xFF), -1);
    assert_eq!(i32_from_le_bytes(0x00, 0x00, 0x00, 0x80), i32::MIN);
    assert_eq!(resolve_match(&[0xE8, 0x01, 0x00, 0x00, 0x00], 0), 6);
}

#[test]
fn scan_results_are_resolved() {
    let bytes = [0x90, 0x90, 0xE8, 0x10, 0x00, 0x00, 0x00, 0x90];
    assert_eq!(resolve_scan_result(&bytes, None), Err(ScanError::InvalidPattern));
    assert_eq!(resolve_scan_result(&bytes, Some(None)), Ok(None));
    assert_eq!(resolve_scan_result(&bytes, Some(Some(2))), Ok(Some(0x17)));
    assert_eq!(resolve_scan_result(&bytes, Some(Some(1))), Ok(Some(1)));
    assert_eq!(resolve_scan_result(&bytes[..5], Some(Some(2))), Err(ScanError::TruncatedOperand(2)));
}
