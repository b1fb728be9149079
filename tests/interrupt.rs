use gameboy_core::interrupt::{
    InterruptHandler, InterruptId, InterruptState, IE_ADDRESS, IF_ADDRESS,
};
use gameboy_core::save_file::SaveFile;

#[test]
fn new_handler_is_quiet() {
    let h = InterruptHandler::new();
    assert_eq!(h.read(IE_ADDRESS), Some(0xE0));
    assert_eq!(h.read(IF_ADDRESS), Some(0xE0));
    assert_eq!(h.get_state(InterruptId::VBlankInt), InterruptState::Inactive);
}

#[test]
fn read_and_write_only_ie_and_if() {
    let mut h = InterruptHandler::new();
    assert!(h.write(IE_ADDRESS, 0x1F));
    assert!(h.write(IF_ADDRESS, 0x04));
    assert!(!h.write(0xFF00, 0x01));
    assert_eq!(h.read(0xFF00), None);
    assert_eq!(h.read(IE_ADDRESS), Some(0xFF));
    assert_eq!(h.read(IF_ADDRESS), Some(0xE4));
}

#[test]
fn state_of_each_combination() {
    let mut h = InterruptHandler::new();
    h.write(IE_ADDRESS, 0x03);
    h.write(IF_ADDRESS, 0x05);
    assert_eq!(h.state(InterruptId::VBlankInt), InterruptState::Active);
    assert_eq!(h.state(InterruptId::StatInt), InterruptState::Enabled);
    assert_eq!(h.state(InterruptId::TimerInt), InterruptState::Requested);
    assert_eq!(h.state(InterruptId::SerialInt), InterruptState::Inactive);
}

#[test]
fn get_state_reports_own_state() {
    let mut h = InterruptHandler::new();
    h.write(IE_ADDRESS, 0x03);
    h.write(IF_ADDRESS, 0x01);
    assert_eq!(h.get_state(InterruptId::VBlankInt), InterruptState::Active);
    assert_eq!(h.get_state(InterruptId::StatInt), InterruptState::Enabled);
    assert_eq!(h.get_state(InterruptId::JoypadInt), InterruptState::Inactive);
}

#[test]
fn pending_priority_picks_most_urgent() {
    let mut h = InterruptHandler::new();
    assert_eq!(h.pending_priority(InterruptId::SerialInt), InterruptId::SerialInt);
    h.write(IE_ADDRESS, 0x1F);
    h.write(IF_ADDRESS, 0x14);
    assert_eq!(h.pending_priority(InterruptId::JoypadInt), InterruptId::TimerInt);
}

#[test]
fn set_and_clear_requests() {
    let mut h = InterruptHandler::new();
    h.set(vec![InterruptId::TimerInt, InterruptId::JoypadInt], true);
    assert_eq!(h.read(IF_ADDRESS), Some(0xF4));
    h.set(vec![InterruptId::TimerInt], false);
    assert_eq!(h.read(IF_ADDRESS), Some(0xF0));
    h.request(InterruptId::VBlankInt);
    assert_eq!(h.flag, 0x11);
    h.clear(InterruptId::JoypadInt);
    assert_eq!(h.flag, 0x01);
}

#[test]
fn vectors_and_masks() {
    let h = InterruptHandler::new();
    let ids = [
        InterruptId::VBlankInt,
        InterruptId::StatInt,
        InterruptId::TimerInt,
        InterruptId::SerialInt,
        InterruptId::JoypadInt,
    ];
    let vectors = [0x40, 0x48, 0x50, 0x58, 0x60];
    for (i, id) in ids.iter().enumerate() {
        assert_eq!(id.vector(), vectors[i]);
        assert_eq!(h.index(*id).0, 1u8 << i);
    }
}

#[test]
fn save_file_extensions() {
    assert_eq!(SaveFile::Json.extension(), ".sav.json");
    assert_eq!(SaveFile::Bin.extension(), ".sav.bin");
}
