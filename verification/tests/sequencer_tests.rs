use huion_switcher::output::{key_name, OutputKey};
use huion_switcher::sequencer::{
    run_simulated, Action, Event, Phase, Sequencer, SimulatedDevice,
};
use huion_switcher::{
    FIRMWARE_ID_SLOT, MAGIC_LANGUAGE_ID, PAD_MODE_SLOT, PEN_PARAMS_NEW_SLOT, PEN_PARAMS_OLD_SLOT,
};

/// A consistent raw descriptor buffer of the given total length: the length
/// prefix, the string-descriptor type tag, then counting payload bytes.
fn raw_buffer(len: u8) -> Vec<u8> {
    let mut buf = vec![len, 0x03];
    for i in 2..len {
        buf.push(i - 2);
    }
    buf.truncate(len as usize);
    buf
}

fn new_generation_device() -> SimulatedDevice {
    SimulatedDevice {
        languages: vec![0x304, MAGIC_LANGUAGE_ID],
        firmware_slot: Event::Text("HUION_T220_210606\0\0".to_string()),
        pen_params_new_slot: Event::Raw(raw_buffer(18)),
        pen_params_old_slot: Event::Failed,
        pad_mode_slot: Event::Failed,
    }
}

#[test]
fn new_generation_emits_magic_and_firmware_only() {
    let s = run_simulated(new_generation_device());
    assert_eq!(s.phase, Phase::Finished);
    let lines = s.output_lines();
    let expected_hex = "1203000102030405060708090a0b0c0d0e0f";
    assert_eq!(expected_hex.len(), 2 * 18);
    assert_eq!(
        lines,
        vec![
            (OutputKey::MagicBytes, expected_hex.to_string()),
            (OutputKey::FirmwareId, "HUION_T220_210606".to_string()),
        ]
    );
    assert!(lines.iter().all(|(k, _)| *k != OutputKey::PadMode));
}

#[test]
fn old_generation_emits_all_three_firmware_last() {
    let dev = SimulatedDevice {
        languages: vec![MAGIC_LANGUAGE_ID],
        firmware_slot: Event::Text("FW-OLD\0".to_string()),
        pen_params_new_slot: Event::NotSupported,
        pen_params_old_slot: Event::Raw(raw_buffer(12)),
        pad_mode_slot: Event::Text("P".to_string()),
    };
    let s = run_simulated(dev);
    assert_eq!(s.phase, Phase::Finished);
    assert_eq!(
        s.output_lines(),
        vec![
            (OutputKey::MagicBytes, "0c0300010203040506070809".to_string()),
            (OutputKey::PadMode, "P".to_string()),
            (OutputKey::FirmwareId, "FW-OLD".to_string()),
        ]
    );
}

#[test]
fn short_old_buffer_emits_firmware_only() {
    let dev = SimulatedDevice {
        languages: vec![MAGIC_LANGUAGE_ID],
        firmware_slot: Event::Text("FW\0".to_string()),
        pen_params_new_slot: Event::NotSupported,
        pen_params_old_slot: Event::Raw(raw_buffer(11)),
        pad_mode_slot: Event::Failed,
    };
    let s = run_simulated(dev);
    assert_eq!(s.phase, Phase::Finished);
    assert_eq!(s.output_lines(), vec![(OutputKey::FirmwareId, "FW".to_string())]);
}

#[test]
fn short_new_buffer_falls_through_to_old_slot() {
    let dev = SimulatedDevice {
        languages: vec![MAGIC_LANGUAGE_ID],
        firmware_slot: Event::Text("FW".to_string()),
        pen_params_new_slot: Event::Raw(raw_buffer(8)),
        pen_params_old_slot: Event::Raw(raw_buffer(14)),
        pad_mode_slot: Event::Text("PAD".to_string()),
    };
    let s = run_simulated(dev);
    assert_eq!(s.phase, Phase::Finished);
    assert_eq!(
        s.output_lines(),
        vec![
            (OutputKey::MagicBytes, "0e03000102030405060708090a0b".to_string()),
            (OutputKey::PadMode, "PAD".to_string()),
            (OutputKey::FirmwareId, "FW".to_string()),
        ]
    );
}

#[test]
fn both_slots_absent_emits_firmware_only() {
    let dev = SimulatedDevice {
        languages: vec![MAGIC_LANGUAGE_ID],
        firmware_slot: Event::Text("FW9\0\0\0".to_string()),
        pen_params_new_slot: Event::NotSupported,
        pen_params_old_slot: Event::NotSupported,
        pad_mode_slot: Event::Failed,
    };
    let s = run_simulated(dev);
    assert_eq!(s.phase, Phase::Finished);
    assert_eq!(s.output_lines(), vec![(OutputKey::FirmwareId, "FW9".to_string())]);
}

#[test]
fn no_magic_language_finishes_silently() {
    let dev = SimulatedDevice {
        languages: vec![0x407, 0x304],
        firmware_slot: Event::Failed,
        pen_params_new_slot: Event::Failed,
        pen_params_old_slot: Event::Failed,
        pad_mode_slot: Event::Failed,
    };
    let s = run_simulated(dev);
    assert_eq!(s.phase, Phase::Finished);
    assert!(s.output_lines().is_empty());
    assert!(s.firmware_id.is_none());
}

#[test]
fn firmware_failure_is_fatal_with_slot() {
    let dev = SimulatedDevice {
        languages: vec![MAGIC_LANGUAGE_ID],
        firmware_slot: Event::Failed,
        pen_params_new_slot: Event::Failed,
        pen_params_old_slot: Event::Failed,
        pad_mode_slot: Event::Failed,
    };
    let s = run_simulated(dev);
    assert_eq!(s.phase, Phase::Failed);
    assert_eq!(s.failed_slot, Some(FIRMWARE_ID_SLOT));
    assert!(s.output_lines().is_empty());
}

#[test]
fn firmware_stall_is_fatal_too() {
    let dev = SimulatedDevice {
        languages: vec![MAGIC_LANGUAGE_ID],
        firmware_slot: Event::NotSupported,
        pen_params_new_slot: Event::Failed,
        pen_params_old_slot: Event::Failed,
        pad_mode_slot: Event::Failed,
    };
    let s = run_simulated(dev);
    assert_eq!(s.phase, Phase::Failed);
    assert_eq!(s.failed_slot, Some(FIRMWARE_ID_SLOT));
}

#[test]
fn bad_length_prefix_is_fatal() {
    let mut buf = raw_buffer(18);
    buf[0] = 19;
    let dev = SimulatedDevice {
        languages: vec![MAGIC_LANGUAGE_ID],
        firmware_slot: Event::Text("FW".to_string()),
        pen_params_new_slot: Event::Raw(buf),
        pen_params_old_slot: Event::Failed,
        pad_mode_slot: Event::Failed,
    };
    let s = run_simulated(dev);
    assert_eq!(s.phase, Phase::Failed);
    assert_eq!(s.failed_slot, Some(PEN_PARAMS_NEW_SLOT));
    assert!(s.output_lines().is_empty());
}

#[test]
fn transport_failure_on_old_slot_is_fatal() {
    let dev = SimulatedDevice {
        languages: vec![MAGIC_LANGUAGE_ID],
        firmware_slot: Event::Text("FW".to_string()),
        pen_params_new_slot: Event::NotSupported,
        pen_params_old_slot: Event::Failed,
        pad_mode_slot: Event::Failed,
    };
    let s = run_simulated(dev);
    assert_eq!(s.phase, Phase::Failed);
    assert_eq!(s.failed_slot, Some(PEN_PARAMS_OLD_SLOT));
}

#[test]
fn pad_mode_failure_keeps_magic_bytes_withholds_firmware() {
    let dev = SimulatedDevice {
        languages: vec![MAGIC_LANGUAGE_ID],
        firmware_slot: Event::Text("FW".to_string()),
        pen_params_new_slot: Event::NotSupported,
        pen_params_old_slot: Event::Raw(raw_buffer(12)),
        pad_mode_slot: Event::Failed,
    };
    let s = run_simulated(dev);
    assert_eq!(s.phase, Phase::Failed);
    assert_eq!(s.failed_slot, Some(PAD_MODE_SLOT));
    // The slot-100 read already switched the tablet: its line is kept. Only
    // the deferred firmware id is withheld.
    assert_eq!(
        s.output_lines(),
        vec![(OutputKey::MagicBytes, "0c0300010203040506070809".to_string())]
    );
}

#[test]
fn pad_mode_stall_is_fatal_too() {
    let dev = SimulatedDevice {
        languages: vec![MAGIC_LANGUAGE_ID],
        firmware_slot: Event::Text("FW".to_string()),
        pen_params_new_slot: Event::NotSupported,
        pen_params_old_slot: Event::Raw(raw_buffer(12)),
        pad_mode_slot: Event::NotSupported,
    };
    let s = run_simulated(dev);
    assert_eq!(s.phase, Phase::Failed);
    assert_eq!(s.failed_slot, Some(PAD_MODE_SLOT));
    let lines = s.output_lines();
    assert!(lines.iter().all(|(k, _)| *k == OutputKey::MagicBytes));
    assert_eq!(lines.len(), 1);
}

#[test]
fn actions_follow_the_protocol_order() {
    let mut s = Sequencer::new();
    assert_eq!(s.next_action(), Some(Action::ReadLanguages));
    s.step(Event::Languages(vec![MAGIC_LANGUAGE_ID]));
    assert_eq!(s.next_action(), Some(Action::ReadText { slot: FIRMWARE_ID_SLOT }));
    s.step(Event::Text("FW".to_string()));
    assert_eq!(s.next_action(), Some(Action::ReadRaw { slot: PEN_PARAMS_NEW_SLOT }));
    s.step(Event::NotSupported);
    assert_eq!(s.next_action(), Some(Action::ReadRaw { slot: PEN_PARAMS_OLD_SLOT }));
    s.step(Event::Raw(raw_buffer(12)));
    assert_eq!(s.next_action(), Some(Action::ReadText { slot: PAD_MODE_SLOT }));
    s.step(Event::Text("PAD".to_string()));
    assert_eq!(s.next_action(), None);
    assert_eq!(s.phase, Phase::Finished);
}

#[test]
fn key_names_are_the_three_properties() {
    assert_eq!(key_name(OutputKey::FirmwareId), "HUION_FIRMWARE_ID");
    assert_eq!(key_name(OutputKey::MagicBytes), "HUION_MAGIC_BYTES");
    assert_eq!(key_name(OutputKey::PadMode), "HUION_PAD_MODE");
}
