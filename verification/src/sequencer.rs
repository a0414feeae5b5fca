//! The per-device switch sequencer: a state machine that orders the
//! descriptor reads, branches on their outcomes, and collects the discovered
//! identifiers. The surrounding binary performs each requested read and
//! feeds the outcome back as an event; a simulated device drives the same
//! machine in tests and proofs.

use vstd::prelude::*;

use crate::codec::{
    bytestring, check_descriptor_len, descriptor_len_ok, hex_of, trim_nul, trim_trailing_nul,
};
use crate::output::{lemma_lines_match_push, lines_match, OutputKey};
use crate::{
    FIRMWARE_ID_SLOT, MAGIC_LANGUAGE_ID, NEW_GENERATION_MIN_LEN, OLD_GENERATION_MIN_LEN,
    PAD_MODE_SLOT, PEN_PARAMS_NEW_SLOT, PEN_PARAMS_OLD_SLOT,
};

verus! {

/// Where the sequence stands: which read is owed next, or how it ended.
#[derive(Clone, Copy, Debug, PartialEq, Eq, Structural)]
pub enum Phase {
    /// The supported-languages table is owed.
    AwaitLanguages,
    /// The firmware-id text read (slot 201) is owed.
    AwaitFirmware,
    /// The new-generation raw read (slot 200) is owed.
    AwaitSlotNew,
    /// The old-generation raw read (slot 100) is owed.
    AwaitSlotOld,
    /// The pad-mode text read (slot 123) is owed.
    AwaitPadMode,
    /// The sequence ended without a fatal error.
    Finished,
    /// The sequence ended with a fatal transport error.
    Failed,
}

/// The read the machine asks the transport to perform next.
#[derive(Clone, Copy, Debug, PartialEq, Eq, Structural)]
pub enum Action {
    /// Read the device's supported-languages table.
    ReadLanguages,
    /// Read a descriptor slot as a terminated text string.
    ReadText { slot: u8 },
    /// Read a descriptor slot as a raw byte buffer, prefix included.
    ReadRaw { slot: u8 },
}

/// The outcome of one performed read, as the transport reports it.
pub enum Event {
    /// The supported-languages table, as 16-bit language ids.
    Languages(Vec<u16>),
    /// A text descriptor read succeeded.
    Text(String),
    /// A raw descriptor read succeeded; the buffer holds every byte
    /// transferred, length and type prefix included.
    Raw(Vec<u8>),
    /// The device answered with a protocol-level stall: the slot is absent.
    NotSupported,
    /// Any other transport failure, a timeout included.
    Failed,
}

/// The mathematical model of an event.
pub enum EventModel {
    Languages(Seq<u16>),
    Text(Seq<char>),
    Raw(Seq<u8>),
    NotSupported,
    Failed,
}

impl View for Event {
    type V = EventModel;

    open spec fn view(&self) -> EventModel {
        match self {
            Event::Languages(l) => EventModel::Languages(l@),
            Event::Text(s) => EventModel::Text(s@),
            Event::Raw(b) => EventModel::Raw(b@),
            Event::NotSupported => EventModel::NotSupported,
            Event::Failed => EventModel::Failed,
        }
    }
}

/// The mathematical model of a sequencer.
pub struct SequencerModel {
    pub phase: Phase,
    pub firmware_id: Option<Seq<char>>,
    pub magic_bytes: Option<Seq<char>>,
    pub pad_mode: Option<Seq<char>>,
    pub failed_slot: Option<u8>,
}

/// The switch sequencer for one device: the current phase and the
/// identifiers discovered so far. The firmware-id line is deferred to the
/// very end of the sequence, so a failure underway never leaves a property
/// set that already includes it; a magic-bytes line, once earned, is kept
/// even when the following pad-mode read fails.
pub struct Sequencer {
    pub phase: Phase,
    /// Firmware id from slot 201, trailing NULs removed; printed last.
    pub firmware_id: Option<String>,
    /// Hex rendering of the full raw pen-parameters buffer.
    pub magic_bytes: Option<String>,
    /// Pad-mode string from slot 123.
    pub pad_mode: Option<String>,
    /// On a fatal error, the descriptor slot whose read failed.
    pub failed_slot: Option<u8>,
}

impl View for Sequencer {
    type V = SequencerModel;

    open spec fn view(&self) -> SequencerModel {
        SequencerModel {
            phase: self.phase,
            firmware_id: match self.firmware_id {
                Some(s) => Some(s@),
                None => None,
            },
            magic_bytes: match self.magic_bytes {
                Some(s) => Some(s@),
                None => None,
            },
            pad_mode: match self.pad_mode {
                Some(s) => Some(s@),
                None => None,
            },
            failed_slot: self.failed_slot,
        }
    }
}

/// The machine's starting state.
pub open spec fn init_model() -> SequencerModel {
    SequencerModel {
        phase: Phase::AwaitLanguages,
        firmware_id: None,
        magic_bytes: None,
        pad_mode: None,
        failed_slot: None,
    }
}

/// A fatal transport error at the given slot ends the sequence.
pub open spec fn fail_model(m: SequencerModel, slot: Option<u8>) -> SequencerModel {
    SequencerModel { phase: Phase::Failed, failed_slot: slot, ..m }
}

/// The read owed in each phase; none once the sequence has ended.
pub open spec fn action_of(p: Phase) -> Option<Action> {
    match p {
        Phase::AwaitLanguages => Some(Action::ReadLanguages),
        Phase::AwaitFirmware => Some(Action::ReadText { slot: FIRMWARE_ID_SLOT }),
        Phase::AwaitSlotNew => Some(Action::ReadRaw { slot: PEN_PARAMS_NEW_SLOT }),
        Phase::AwaitSlotOld => Some(Action::ReadRaw { slot: PEN_PARAMS_OLD_SLOT }),
        Phase::AwaitPadMode => Some(Action::ReadText { slot: PAD_MODE_SLOT }),
        Phase::Finished => None,
        Phase::Failed => None,
    }
}

/// One transition of the switch protocol: how the machine moves when the
/// read owed in the current phase reports the given outcome.
pub open spec fn step_model(m: SequencerModel, e: EventModel) -> SequencerModel {
    match m.phase {
        Phase::AwaitLanguages => match e {
            EventModel::Languages(ls) => if ls.contains(MAGIC_LANGUAGE_ID) {
                SequencerModel { phase: Phase::AwaitFirmware, ..m }
            } else {
                // The device does not speak this protocol: done, no output.
                SequencerModel { phase: Phase::Finished, ..m }
            },
            _ => fail_model(m, None),
        },
        Phase::AwaitFirmware => match e {
            EventModel::Text(s) => SequencerModel {
                phase: Phase::AwaitSlotNew,
                firmware_id: Some(trim_nul(s)),
                ..m
            },
            // This slot is expected to always exist: a stall is fatal too.
            _ => fail_model(m, Some(FIRMWARE_ID_SLOT)),
        },
        Phase::AwaitSlotNew => match e {
            EventModel::Raw(bs) => if !descriptor_len_ok(bs) {
                fail_model(m, Some(PEN_PARAMS_NEW_SLOT))
            } else if bs.len() >= NEW_GENERATION_MIN_LEN {
                // New-generation device: emit the hex and stop here.
                SequencerModel { phase: Phase::Finished, magic_bytes: Some(hex_of(bs)), ..m }
            } else {
                // Short buffer: old-generation signature, discard it.
                SequencerModel { phase: Phase::AwaitSlotOld, ..m }
            },
            EventModel::NotSupported => SequencerModel { phase: Phase::AwaitSlotOld, ..m },
            _ => fail_model(m, Some(PEN_PARAMS_NEW_SLOT)),
        },
        Phase::AwaitSlotOld => match e {
            EventModel::Raw(bs) => if !descriptor_len_ok(bs) {
                fail_model(m, Some(PEN_PARAMS_OLD_SLOT))
            } else if bs.len() >= OLD_GENERATION_MIN_LEN {
                SequencerModel {
                    phase: Phase::AwaitPadMode,
                    magic_bytes: Some(hex_of(bs)),
                    ..m
                }
            } else {
                // Below the minimum: an unrecognized variant, not an error.
                SequencerModel { phase: Phase::Finished, ..m }
            },
            EventModel::NotSupported => SequencerModel { phase: Phase::Finished, ..m },
            _ => fail_model(m, Some(PEN_PARAMS_OLD_SLOT)),
        },
        Phase::AwaitPadMode => match e {
            EventModel::Text(s) => SequencerModel {
                phase: Phase::Finished,
                pad_mode: Some(s),
                ..m
            },
            // Only attempted on confirmed old-generation devices, where the
            // slot is expected to exist: any failure is fatal.
            _ => fail_model(m, Some(PAD_MODE_SLOT)),
        },
        Phase::Finished => m,
        Phase::Failed => m,
    }
}

/// The lines a run reports, in emission order: magic bytes first, pad mode
/// next, the deferred firmware id last. The magic-bytes line is emitted the
/// moment the pen-parameters read earns it, so a run that then fails at the
/// pad-mode slot keeps that line; the firmware id, deferred to the very end,
/// is withheld on every failure. Any other failed or unfinished run reports
/// nothing.
pub open spec fn output_of(m: SequencerModel) -> Seq<(OutputKey, Seq<char>)> {
    if m.phase == Phase::Finished {
        (match m.magic_bytes {
            Some(v) => seq![(OutputKey::MagicBytes, v)],
            None => Seq::<(OutputKey, Seq<char>)>::empty(),
        }) + (match m.pad_mode {
            Some(v) => seq![(OutputKey::PadMode, v)],
            None => Seq::<(OutputKey, Seq<char>)>::empty(),
        }) + (match m.firmware_id {
            Some(v) => seq![(OutputKey::FirmwareId, v)],
            None => Seq::<(OutputKey, Seq<char>)>::empty(),
        })
    } else if m.phase == Phase::Failed && m.failed_slot == Some(PAD_MODE_SLOT) {
        match m.magic_bytes {
            Some(v) => seq![(OutputKey::MagicBytes, v)],
            None => Seq::<(OutputKey, Seq<char>)>::empty(),
        }
    } else {
        Seq::<(OutputKey, Seq<char>)>::empty()
    }
}

fn languages_contain_magic(ls: &Vec<u16>) -> (r: bool)
    ensures
        r == ls@.contains(MAGIC_LANGUAGE_ID),
{
    let mut i: usize = 0;
    while i < ls.len()
        invariant
            i <= ls@.len(),
            forall|j: int| 0 <= j < i ==> ls@[j] != MAGIC_LANGUAGE_ID,
        decreases ls@.len() - i,
    {
        if ls[i] == MAGIC_LANGUAGE_ID {
            return true;
        }
        i = i + 1;
    }
    false
}

impl Sequencer {
    /// A fresh machine, owing the supported-languages read.
    pub fn new() -> (s: Sequencer)
        ensures
            s@ == init_model(),
    {
        Sequencer {
            phase: Phase::AwaitLanguages,
            firmware_id: None,
            magic_bytes: None,
            pad_mode: None,
            failed_slot: None,
        }
    }

    fn fail(&mut self, slot: Option<u8>)
        ensures
            final(self)@ == fail_model(old(self)@, slot),
    {
        self.phase = Phase::Failed;
        self.failed_slot = slot;
    }

    /// The read owed in the current phase; `None` once the sequence ended.
    pub fn next_action(&self) -> (a: Option<Action>)
        ensures
            a == action_of(self@.phase),
    {
        match self.phase {
            Phase::AwaitLanguages => Some(Action::ReadLanguages),
            Phase::AwaitFirmware => Some(Action::ReadText { slot: FIRMWARE_ID_SLOT }),
            Phase::AwaitSlotNew => Some(Action::ReadRaw { slot: PEN_PARAMS_NEW_SLOT }),
            Phase::AwaitSlotOld => Some(Action::ReadRaw { slot: PEN_PARAMS_OLD_SLOT }),
            Phase::AwaitPadMode => Some(Action::ReadText { slot: PAD_MODE_SLOT }),
            Phase::Finished => None,
            Phase::Failed => None,
        }
    }

    /// Feed the machine the outcome of the read it asked for.
    pub fn step(&mut self, event: Event)
        ensures
            final(self)@ == step_model(old(self)@, event@),
    {
        match self.phase {
            Phase::AwaitLanguages => match event {
                Event::Languages(ls) => {
                    if languages_contain_magic(&ls) {
                        self.phase = Phase::AwaitFirmware;
                    } else {
                        self.phase = Phase::Finished;
                    }
                },
                _ => {
                    self.fail(None);
                },
            },
            Phase::AwaitFirmware => match event {
                Event::Text(s) => {
                    self.firmware_id = Some(trim_trailing_nul(s.as_str()));
                    self.phase = Phase::AwaitSlotNew;
                },
                _ => {
                    self.fail(Some(FIRMWARE_ID_SLOT));
                },
            },
            Phase::AwaitSlotNew => match event {
                Event::Raw(bs) => {
                    if !check_descriptor_len(bs.as_slice()) {
                        self.fail(Some(PEN_PARAMS_NEW_SLOT));
                    } else if bs.len() >= NEW_GENERATION_MIN_LEN {
                        self.magic_bytes = Some(bytestring(bs.as_slice()));
                        self.phase = Phase::Finished;
                    } else {
                        self.phase = Phase::AwaitSlotOld;
                    }
                },
                Event::NotSupported => {
                    self.phase = Phase::AwaitSlotOld;
                },
                _ => {
                    self.fail(Some(PEN_PARAMS_NEW_SLOT));
                },
            },
            Phase::AwaitSlotOld => match event {
                Event::Raw(bs) => {
                    if !check_descriptor_len(bs.as_slice()) {
                        self.fail(Some(PEN_PARAMS_OLD_SLOT));
                    } else if bs.len() >= OLD_GENERATION_MIN_LEN {
                        self.magic_bytes = Some(bytestring(bs.as_slice()));
                        self.phase = Phase::AwaitPadMode;
                    } else {
                        self.phase = Phase::Finished;
                    }
                },
                Event::NotSupported => {
                    self.phase = Phase::Finished;
                },
                _ => {
                    self.fail(Some(PEN_PARAMS_OLD_SLOT));
                },
            },
            Phase::AwaitPadMode => match event {
                Event::Text(s) => {
                    self.pad_mode = Some(s);
                    self.phase = Phase::Finished;
                },
                _ => {
                    self.fail(Some(PAD_MODE_SLOT));
                },
            },
            Phase::Finished => {},
            Phase::Failed => {},
        }
    }

    /// The lines this run reports, in emission order. A run that failed at
    /// the pad-mode slot keeps its already-emitted magic-bytes line; every
    /// other failed or unfinished run reports nothing, and the deferred
    /// firmware id is withheld on every failure.
    pub fn output_lines(&self) -> (r: Vec<(OutputKey, String)>)
        ensures
            lines_match(r@, output_of(self@)),
    {
        let mut out: Vec<(OutputKey, String)> = Vec::new();
        if self.phase == Phase::Finished {
            let ghost t0 = Seq::<(OutputKey, Seq<char>)>::empty();
            let ghost mut t = t0;
            if let Some(v) = &self.magic_bytes {
                out.push((OutputKey::MagicBytes, v.clone()));
                proof {
                    lemma_lines_match_push(Seq::empty(), t, OutputKey::MagicBytes, *v);
                    t = t.push((OutputKey::MagicBytes, v@));
                }
            }
            if let Some(v) = &self.pad_mode {
                let ghost pre = out@;
                out.push((OutputKey::PadMode, v.clone()));
                proof {
                    lemma_lines_match_push(pre, t, OutputKey::PadMode, *v);
                    t = t.push((OutputKey::PadMode, v@));
                }
            }
            if let Some(v) = &self.firmware_id {
                let ghost pre = out@;
                out.push((OutputKey::FirmwareId, v.clone()));
                proof {
                    lemma_lines_match_push(pre, t, OutputKey::FirmwareId, *v);
                    t = t.push((OutputKey::FirmwareId, v@));
                }
            }
            proof {
                assert(t =~= output_of(self@));
            }
        } else if self.phase == Phase::Failed {
            let failed_at_pad_mode = match self.failed_slot {
                Some(slot) => slot == PAD_MODE_SLOT,
                None => false,
            };
            if failed_at_pad_mode {
                if let Some(v) = &self.magic_bytes {
                    out.push((OutputKey::MagicBytes, v.clone()));
                    proof {
                        lemma_lines_match_push(
                            Seq::empty(),
                            Seq::empty(),
                            OutputKey::MagicBytes,
                            *v,
                        );
                    }
                }
            }
        }
        out
    }
}

/// A device stood up in memory: the outcome each read of the sequence would
/// report, were it performed.
pub struct SimulatedDevice {
    pub languages: Vec<u16>,
    /// Outcome of the slot-201 text read.
    pub firmware_slot: Event,
    /// Outcome of the slot-200 raw read.
    pub pen_params_new_slot: Event,
    /// Outcome of the slot-100 raw read.
    pub pen_params_old_slot: Event,
    /// Outcome of the slot-123 text read.
    pub pad_mode_slot: Event,
}

/// The mathematical model of a simulated device.
pub struct SimulatedDeviceModel {
    pub languages: Seq<u16>,
    pub firmware_slot: EventModel,
    pub pen_params_new_slot: EventModel,
    pub pen_params_old_slot: EventModel,
    pub pad_mode_slot: EventModel,
}

impl View for SimulatedDevice {
    type V = SimulatedDeviceModel;

    open spec fn view(&self) -> SimulatedDeviceModel {
        SimulatedDeviceModel {
            languages: self.languages@,
            firmware_slot: self.firmware_slot@,
            pen_params_new_slot: self.pen_params_new_slot@,
            pen_params_old_slot: self.pen_params_old_slot@,
            pad_mode_slot: self.pad_mode_slot@,
        }
    }
}

/// The state the machine ends in when each read it asks for reports the
/// device's outcome for that slot.
pub open spec fn run_model(d: SimulatedDeviceModel) -> SequencerModel {
    let m1 = step_model(init_model(), EventModel::Languages(d.languages));
    let m2 = if m1.phase == Phase::AwaitFirmware {
        step_model(m1, d.firmware_slot)
    } else {
        m1
    };
    let m3 = if m2.phase == Phase::AwaitSlotNew {
        step_model(m2, d.pen_params_new_slot)
    } else {
        m2
    };
    let m4 = if m3.phase == Phase::AwaitSlotOld {
        step_model(m3, d.pen_params_old_slot)
    } else {
        m3
    };
    if m4.phase == Phase::AwaitPadMode {
        step_model(m4, d.pad_mode_slot)
    } else {
        m4
    }
}

/// Drive a fresh sequencer against a simulated device until it ends.
pub fn run_simulated(dev: SimulatedDevice) -> (s: Sequencer)
    ensures
        s@ == run_model(dev@),
{
    let SimulatedDevice {
        languages,
        firmware_slot,
        pen_params_new_slot,
        pen_params_old_slot,
        pad_mode_slot,
    } = dev;
    let mut s = Sequencer::new();
    s.step(Event::Languages(languages));
    if s.phase == Phase::AwaitFirmware {
        s.step(firmware_slot);
    }
    if s.phase == Phase::AwaitSlotNew {
        s.step(pen_params_new_slot);
    }
    if s.phase == Phase::AwaitSlotOld {
        s.step(pen_params_old_slot);
    }
    if s.phase == Phase::AwaitPadMode {
        s.step(pad_mode_slot);
    }
    s
}

/// New-generation device: the magic language is spoken, the firmware read
/// answers text, and the slot-200 raw read answers a consistent buffer of at
/// least the new-generation minimum. The run finishes, reports exactly the
/// magic-bytes line (the hex of the full buffer, twice its length) followed
/// by the firmware-id line, and never a pad-mode line.
pub proof fn lemma_new_generation_run(d: SimulatedDeviceModel, fw: Seq<char>, buf: Seq<u8>)
    requires
        d.languages.contains(MAGIC_LANGUAGE_ID),
        d.firmware_slot == EventModel::Text(fw),
        d.pen_params_new_slot == EventModel::Raw(buf),
        descriptor_len_ok(buf),
        buf.len() >= NEW_GENERATION_MIN_LEN,
    ensures
        run_model(d).phase == Phase::Finished,
        run_model(d).magic_bytes == Some(hex_of(buf)),
        run_model(d).firmware_id == Some(trim_nul(fw)),
        run_model(d).pad_mode is None,
        hex_of(buf).len() == 2 * buf.len(),
        output_of(run_model(d)) =~= seq![
            (OutputKey::MagicBytes, hex_of(buf)),
            (OutputKey::FirmwareId, trim_nul(fw)),
        ],
{
    crate::codec::lemma_hex_of_len(buf);
}

/// Old-generation device: slot 200 stalls, the slot-100 raw read answers a
/// consistent buffer of at least the old-generation minimum, and the
/// pad-mode read answers text. The run finishes and reports the magic-bytes,
/// pad-mode and firmware-id lines, in that order, the firmware id last.
pub proof fn lemma_old_generation_run(
    d: SimulatedDeviceModel,
    fw: Seq<char>,
    buf: Seq<u8>,
    pad: Seq<char>,
)
    requires
        d.languages.contains(MAGIC_LANGUAGE_ID),
        d.firmware_slot == EventModel::Text(fw),
        d.pen_params_new_slot == EventModel::NotSupported,
        d.pen_params_old_slot == EventModel::Raw(buf),
        descriptor_len_ok(buf),
        buf.len() >= OLD_GENERATION_MIN_LEN,
        d.pad_mode_slot == EventModel::Text(pad),
    ensures
        run_model(d).phase == Phase::Finished,
        run_model(d).magic_bytes == Some(hex_of(buf)),
        run_model(d).pad_mode == Some(pad),
        run_model(d).firmware_id == Some(trim_nul(fw)),
        output_of(run_model(d)) =~= seq![
            (OutputKey::MagicBytes, hex_of(buf)),
            (OutputKey::PadMode, pad),
            (OutputKey::FirmwareId, trim_nul(fw)),
        ],
{
}

/// Pad-mode failure on an old-generation device: the magic-bytes line was
/// earned by the slot-100 read — which has already switched the tablet —
/// and is kept; the run is fatal at the pad-mode slot, and the deferred
/// firmware id is withheld.
pub proof fn lemma_pad_mode_failure_run(d: SimulatedDeviceModel, fw: Seq<char>, buf: Seq<u8>)
    requires
        d.languages.contains(MAGIC_LANGUAGE_ID),
        d.firmware_slot == EventModel::Text(fw),
        d.pen_params_new_slot == EventModel::NotSupported,
        d.pen_params_old_slot == EventModel::Raw(buf),
        descriptor_len_ok(buf),
        buf.len() >= OLD_GENERATION_MIN_LEN,
        !(d.pad_mode_slot is Text),
    ensures
        run_model(d).phase == Phase::Failed,
        run_model(d).failed_slot == Some(PAD_MODE_SLOT),
        run_model(d).magic_bytes == Some(hex_of(buf)),
        output_of(run_model(d)) =~= seq![(OutputKey::MagicBytes, hex_of(buf))],
{
}

/// Unrecognized variant: slot 200 stalls and the slot-100 buffer, though
/// consistent, is below the old-generation minimum. The run still finishes,
/// but reports only the firmware-id line — no magic bytes, no pad mode.
pub proof fn lemma_unrecognized_variant_run(d: SimulatedDeviceModel, fw: Seq<char>, buf: Seq<u8>)
    requires
        d.languages.contains(MAGIC_LANGUAGE_ID),
        d.firmware_slot == EventModel::Text(fw),
        d.pen_params_new_slot == EventModel::NotSupported,
        d.pen_params_old_slot == EventModel::Raw(buf),
        descriptor_len_ok(buf),
        buf.len() < OLD_GENERATION_MIN_LEN,
    ensures
        run_model(d).phase == Phase::Finished,
        run_model(d).magic_bytes is None,
        run_model(d).pad_mode is None,
        run_model(d).firmware_id == Some(trim_nul(fw)),
        output_of(run_model(d)) =~= seq![(OutputKey::FirmwareId, trim_nul(fw))],
{
}

} // verus!
