//! The description of a bank, as it stands before compilation: the project,
//! its presets, their instruments and the samples of those.
//!
//! A preset, an instrument or a sample zone exists only with a name that is
//! ASCII and fits the 20 bytes of a record's name field, and a sample zone
//! only with a sample that the rules on sample headers accept.

use crate::soundfont::bytes::NAME_WIDTH;
use crate::soundfont::info::{
    clone_text, optional_string_check, optional_text, string_check, validate_string, InfoList,
    InfoListView, VersionTag, COMMENT_LIMIT, TEXT_LIMIT,
};
use crate::soundfont::pdta::{terminal_sample_name, MIN_SAMPLE_POINTS};
use crate::soundfont::SoundfontError;
use vstd::prelude::*;
use vstd::string::StringExecFns;
use vstd::utf8::{is_ascii_chars, is_ascii_chars_encode_utf8};

verus! {

/// A decoded sample: mono 16-bit points and their rate.
#[derive(Debug)]
pub struct SampleDescriptor {
    /// The points.
    pub data: Vec<i16>,
    /// Points per second.
    pub sample_rate: u32,
}

/// Whether a sample of `points` points may stand in the bank under the name
/// `sample`. The name is ASCII and fits the name field. It is not the name of
/// the terminal sample header, whose fields are zero. The sample has at least
/// 48 points.
pub open spec fn sample_zone_check(sample: Seq<char>, points: nat) -> Result<(), SoundfontError> {
    match string_check(sample, NAME_WIDTH) {
        Err(error) => Err(error),
        Ok(_) => {
            if sample == terminal_sample_name() {
                Err(SoundfontError::SampleTerminalNotNull)
            } else if points < MIN_SAMPLE_POINTS {
                Err(SoundfontError::SampleTooShort)
            } else {
                Ok(())
            }
        },
    }
}

/// A zone of an instrument: a sample and how it is played.
#[derive(Debug)]
pub struct PreInstZone {
    sample: String,
    original_pitch: u8,
    pitch_correction: i8,
    audio: SampleDescriptor,
}

/// What a zone of an instrument holds.
pub ghost struct PreInstZoneView {
    /// Name of the sample.
    pub sample: Seq<char>,
    /// MIDI key of the recorded pitch.
    pub original_pitch: u8,
    /// Correction of the pitch, in cents.
    pub pitch_correction: i8,
    /// The points of the sample.
    pub points: Seq<i16>,
    /// Points per second.
    pub sample_rate: u32,
}

impl PreInstZoneView {
    /// The sample may stand in the bank under its name.
    pub open spec fn valid(self) -> bool {
        sample_zone_check(self.sample, self.points.len()) is Ok
    }
}

impl View for PreInstZone {
    type V = PreInstZoneView;

    closed spec fn view(&self) -> PreInstZoneView {
        PreInstZoneView {
            sample: self.sample@,
            original_pitch: self.original_pitch,
            pitch_correction: self.pitch_correction,
            points: self.audio.data@,
            sample_rate: self.audio.sample_rate,
        }
    }
}

impl PreInstZone {
    #[verifier::type_invariant]
    spec fn well_formed(&self) -> bool {
        self@.valid()
    }

    /// The zone that plays `audio` under the name `sample`, or the rule that
    /// the name or the sample breaks.
    pub fn new(
        sample: String,
        original_pitch: u8,
        pitch_correction: i8,
        audio: SampleDescriptor,
    ) -> (outcome: Result<Self, SoundfontError>)
        ensures
            match outcome {
                Ok(zone) => {
                    &&& sample_zone_check(sample@, audio.data@.len()) is Ok
                    &&& zone@ == (PreInstZoneView {
                        sample: sample@,
                        original_pitch,
                        pitch_correction,
                        points: audio.data@,
                        sample_rate: audio.sample_rate,
                    })
                },
                Err(error) => sample_zone_check(sample@, audio.data@.len()) == Err::<
                    (),
                    SoundfontError,
                >(error),
            },
    {
        match validate_string(sample.as_str(), NAME_WIDTH) {
            Ok(()) => {},
            Err(error) => {
                return Err(error);
            },
        }
        let terminal_name = String::from_str("EOS");
        if sample == terminal_name {
            return Err(SoundfontError::SampleTerminalNotNull);
        }
        if audio.data.len() < MIN_SAMPLE_POINTS as usize {
            return Err(SoundfontError::SampleTooShort);
        }
        Ok(PreInstZone { sample, original_pitch, pitch_correction, audio })
    }

    /// Name of the sample.
    pub fn sample(&self) -> (name: &String)
        ensures
            name@ == self@.sample,
            self@.valid(),
    {
        proof {
            use_type_invariant(self);
        }
        &self.sample
    }

    /// MIDI key of the recorded pitch.
    pub fn original_pitch(&self) -> (key: u8)
        ensures
            key == self@.original_pitch,
    {
        self.original_pitch
    }

    /// Correction of the pitch, in cents.
    pub fn pitch_correction(&self) -> (cents: i8)
        ensures
            cents == self@.pitch_correction,
    {
        self.pitch_correction
    }

    /// The decoded sample.
    pub fn audio(&self) -> (audio: &SampleDescriptor)
        ensures
            audio.data@ == self@.points,
            audio.sample_rate == self@.sample_rate,
            self@.valid(),
    {
        proof {
            use_type_invariant(self);
        }
        &self.audio
    }
}

/// What the zones `zones` hold, in order.
pub open spec fn inst_zone_views(zones: Seq<PreInstZone>) -> Seq<PreInstZoneView> {
    Seq::new(zones.len(), |i: int| zones[i]@)
}

/// An instrument: its name and its zones, in the order in which they are
/// compiled.
#[derive(Debug)]
pub struct PreInstrument {
    name: String,
    zones: Vec<PreInstZone>,
}

/// What an instrument holds.
pub ghost struct PreInstrumentView {
    pub name: Seq<char>,
    pub zones: Seq<PreInstZoneView>,
}

impl PreInstrumentView {
    /// The name is ASCII and fits the name field, and every zone is valid.
    pub open spec fn valid(self) -> bool {
        &&& string_check(self.name, NAME_WIDTH) is Ok
        &&& forall|i: int| 0 <= i < self.zones.len() ==> (#[trigger] self.zones[i]).valid()
    }
}

impl View for PreInstrument {
    type V = PreInstrumentView;

    closed spec fn view(&self) -> PreInstrumentView {
        PreInstrumentView { name: self.name@, zones: inst_zone_views(self.zones@) }
    }
}

impl PreInstrument {
    #[verifier::type_invariant]
    spec fn well_formed(&self) -> bool {
        string_check(self.name@, NAME_WIDTH) is Ok
    }

    /// The instrument `name` of the zones `zones`, or the rule that the name
    /// breaks.
    pub fn new(name: String, zones: Vec<PreInstZone>) -> (outcome: Result<Self, SoundfontError>)
        ensures
            match outcome {
                Ok(instrument) => {
                    &&& string_check(name@, NAME_WIDTH) is Ok
                    &&& instrument@ == (PreInstrumentView {
                        name: name@,
                        zones: inst_zone_views(zones@),
                    })
                },
                Err(error) => string_check(name@, NAME_WIDTH) == Err::<(), SoundfontError>(error),
            },
    {
        match validate_string(name.as_str(), NAME_WIDTH) {
            Ok(()) => {},
            Err(error) => {
                return Err(error);
            },
        }
        Ok(PreInstrument { name, zones })
    }

    /// Name of the instrument.
    pub fn name(&self) -> (name: &String)
        ensures
            name@ == self@.name,
            string_check(self@.name, NAME_WIDTH) is Ok,
    {
        proof {
            use_type_invariant(self);
        }
        &self.name
    }

    /// The zones, in order.
    pub fn zones(&self) -> (zones: &Vec<PreInstZone>)
        ensures
            inst_zone_views(zones@) == self@.zones,
    {
        &self.zones
    }
}

/// A zone of a preset: the instrument that it plays.
#[derive(Debug)]
pub struct PrePresetZone {
    instrument: PreInstrument,
}

impl View for PrePresetZone {
    type V = PreInstrumentView;

    closed spec fn view(&self) -> PreInstrumentView {
        self.instrument@
    }
}

impl PrePresetZone {
    /// The zone that plays `instrument`.
    pub fn new(instrument: PreInstrument) -> (zone: Self)
        ensures
            zone@ == instrument@,
    {
        PrePresetZone { instrument }
    }

    /// The instrument of the zone.
    pub fn instrument(&self) -> (instrument: &PreInstrument)
        ensures
            instrument@ == self@,
    {
        &self.instrument
    }
}

/// The instruments of the zones `zones`, in order.
pub open spec fn preset_zone_views(zones: Seq<PrePresetZone>) -> Seq<PreInstrumentView> {
    Seq::new(zones.len(), |i: int| zones[i]@)
}

/// A preset: its name, its MIDI address and its zones, in the order in which
/// they are compiled.
#[derive(Debug)]
pub struct PrePreset {
    name: String,
    midi_preset: u16,
    midi_bank: u16,
    zones: Vec<PrePresetZone>,
}

/// What a preset holds.
pub ghost struct PrePresetView {
    pub name: Seq<char>,
    /// MIDI preset number, 0 to 127.
    pub midi_preset: u16,
    /// MIDI bank number, 0 to 16383.
    pub midi_bank: u16,
    /// The instrument of each zone.
    pub zones: Seq<PreInstrumentView>,
}

impl PrePresetView {
    /// The name is ASCII and fits the name field, and every instrument is
    /// valid.
    pub open spec fn valid(self) -> bool {
        &&& string_check(self.name, NAME_WIDTH) is Ok
        &&& forall|i: int| 0 <= i < self.zones.len() ==> (#[trigger] self.zones[i]).valid()
    }
}

impl View for PrePreset {
    type V = PrePresetView;

    closed spec fn view(&self) -> PrePresetView {
        PrePresetView {
            name: self.name@,
            midi_preset: self.midi_preset,
            midi_bank: self.midi_bank,
            zones: preset_zone_views(self.zones@),
        }
    }
}

impl PrePreset {
    #[verifier::type_invariant]
    spec fn well_formed(&self) -> bool {
        string_check(self.name@, NAME_WIDTH) is Ok
    }

    /// The preset `name` at the MIDI address `midi_bank`:`midi_preset`, of
    /// the zones `zones`, or the rule that the name breaks.
    pub fn new(
        name: String,
        midi_preset: u16,
        midi_bank: u16,
        zones: Vec<PrePresetZone>,
    ) -> (outcome: Result<Self, SoundfontError>)
        ensures
            match outcome {
                Ok(preset) => {
                    &&& string_check(name@, NAME_WIDTH) is Ok
                    &&& preset@ == (PrePresetView {
                        name: name@,
                        midi_preset,
                        midi_bank,
                        zones: preset_zone_views(zones@),
                    })
                },
                Err(error) => string_check(name@, NAME_WIDTH) == Err::<(), SoundfontError>(error),
            },
    {
        match validate_string(name.as_str(), NAME_WIDTH) {
            Ok(()) => {},
            Err(error) => {
                return Err(error);
            },
        }
        Ok(PrePreset { name, midi_preset, midi_bank, zones })
    }

    /// Name of the preset.
    pub fn name(&self) -> (name: &String)
        ensures
            name@ == self@.name,
            string_check(self@.name, NAME_WIDTH) is Ok,
    {
        proof {
            use_type_invariant(self);
        }
        &self.name
    }

    /// MIDI preset number.
    pub fn midi_preset(&self) -> (number: u16)
        ensures
            number == self@.midi_preset,
    {
        self.midi_preset
    }

    /// MIDI bank number.
    pub fn midi_bank(&self) -> (number: u16)
        ensures
            number == self@.midi_bank,
    {
        self.midi_bank
    }

    /// The zones, in order.
    pub fn zones(&self) -> (zones: &Vec<PrePresetZone>)
        ensures
            preset_zone_views(zones@) == self@.zones,
    {
        &self.zones
    }
}

/// What the presets `presets` hold, in order.
pub open spec fn preset_views(presets: Seq<PrePreset>) -> Seq<PrePresetView> {
    Seq::new(presets.len(), |i: int| presets[i]@)
}

/// `rest`, unless `first` is an error.
pub open spec fn then_check<T>(
    first: Result<(), SoundfontError>,
    rest: Result<T, SoundfontError>,
) -> Result<T, SoundfontError> {
    match first {
        Err(error) => Err(error),
        Ok(_) => rest,
    }
}

/// The sound engine that every bank names.
pub open spec fn sound_engine_name() -> Seq<char> {
    "EMU8000"@
}

/// The software that every bank names as its maker and its last editor.
pub open spec fn software_name() -> Seq<char> {
    "SoundFont Compiler v0.0.0:SoundFont Compiler v0.0.0"@
}

/// The manifest of a project: what is said of the bank as a whole, and the
/// names of its presets.
#[derive(Debug)]
pub struct PreSoundFont {
    /// Target sound engine. The bank names "EMU8000" whatever stands here.
    pub sound_engine: Option<String>,
    /// Name of the bank.
    pub name: String,
    /// Author credits.
    pub authors: Option<String>,
    /// Target product, as in "SBAWE32".
    pub target_product: Option<String>,
    /// Copyright message.
    pub copyright: Option<String>,
    /// Comment or description.
    pub comments: Option<String>,
    /// The presets, each by the name under which it is kept.
    pub presets: Vec<String>,
}

impl PreSoundFont {
    /// The metadata of the bank when it is made at the time `created`, or
    /// the first error among the name, the time, the authors, the product,
    /// the copyright and the comment, in this order.
    pub open spec fn info_created(&self, created: Seq<char>) -> Result<
        InfoListView,
        SoundfontError,
    > {
        then_check(
            string_check(self.name@, TEXT_LIMIT),
            then_check(
                string_check(created, TEXT_LIMIT),
                then_check(
                    optional_string_check(optional_text(self.authors), TEXT_LIMIT),
                    then_check(
                        optional_string_check(optional_text(self.target_product), TEXT_LIMIT),
                        then_check(
                            optional_string_check(optional_text(self.copyright), TEXT_LIMIT),
                            then_check(
                                optional_string_check(optional_text(self.comments), COMMENT_LIMIT),
                                Ok(
                                    InfoListView {
                                        ifil: VersionTag { major: 2, minor: 4 },
                                        isng: sound_engine_name(),
                                        inam: self.name@,
                                        irom: None,
                                        iver: None,
                                        icrd: Some(created),
                                        ieng: optional_text(self.authors),
                                        iprd: optional_text(self.target_product),
                                        icop: optional_text(self.copyright),
                                        icmt: optional_text(self.comments),
                                        isft: Some(software_name()),
                                    },
                                ),
                            ),
                        ),
                    ),
                ),
            ),
        )
    }

    /// The metadata of the bank, made at the time `created`.
    pub fn infolist_created(&self, created: String) -> (outcome: Result<InfoList, SoundfontError>)
        ensures
            match outcome {
                Ok(info) => self.info_created(created@) == Ok::<InfoListView, SoundfontError>(info@),
                Err(error) => self.info_created(created@) == Err::<InfoListView, SoundfontError>(
                    error,
                ),
            },
    {
        let mut info = InfoList::default();
        info.set_ifil(VersionTag::new(2, 4));
        proof {
            lemma_fixed_names_are_valid();
        }
        match info.set_isng(String::from_str("EMU8000")) {
            Ok(()) => {},
            Err(error) => {
                return Err(error);
            },
        }
        match info.set_inam(self.name.clone()) {
            Ok(()) => {},
            Err(error) => {
                return Err(error);
            },
        }
        match info.set_icrd(Some(created)) {
            Ok(()) => {},
            Err(error) => {
                return Err(error);
            },
        }
        match info.set_ieng(clone_text(&self.authors)) {
            Ok(()) => {},
            Err(error) => {
                return Err(error);
            },
        }
        match info.set_iprd(clone_text(&self.target_product)) {
            Ok(()) => {},
            Err(error) => {
                return Err(error);
            },
        }
        match info.set_icop(clone_text(&self.copyright)) {
            Ok(()) => {},
            Err(error) => {
                return Err(error);
            },
        }
        match info.set_icmt(clone_text(&self.comments)) {
            Ok(()) => {},
            Err(error) => {
                return Err(error);
            },
        }
        match info.set_isft(
            Some(String::from_str("SoundFont Compiler v0.0.0:SoundFont Compiler v0.0.0")),
        ) {
            Ok(()) => {},
            Err(error) => {
                return Err(error);
            },
        }
        Ok(info)
    }

    /// The metadata of the bank, made now. The time is read from the clock,
    /// so two calls may differ in it and in nothing else. The time is
    /// written as a string that is fit for the metadata, so the outcome is
    /// an error only where a string of the manifest is not fit, and is then
    /// the error of the first such string.
    pub fn generate_infolist(&self) -> (outcome: Result<InfoList, SoundfontError>)
        ensures
            exists|created: Seq<char>|
                string_check(created, TEXT_LIMIT) is Ok && match outcome {
                    Ok(info) => #[trigger] self.info_created(created) == Ok::<
                        InfoListView,
                        SoundfontError,
                    >(info@),
                    Err(error) => self.info_created(created) == Err::<InfoListView, SoundfontError>(
                        error,
                    ),
                },
    {
        let created = current_time_text();
        proof {
            is_ascii_chars_encode_utf8(created@);
        }
        self.infolist_created(created)
    }
}

/// The names of the sound engine and of the software are ASCII and within
/// the limit of a metadata string.
proof fn lemma_fixed_names_are_valid()
    ensures
        string_check(sound_engine_name(), TEXT_LIMIT) is Ok,
        string_check(software_name(), TEXT_LIMIT) is Ok,
{
    reveal_strlit("EMU8000");
    reveal_strlit("SoundFont Compiler v0.0.0:SoundFont Compiler v0.0.0");
    vstd::utf8::is_ascii_chars_encode_utf8(sound_engine_name());
    vstd::utf8::is_ascii_chars_encode_utf8(software_name());
}

/// Reads the clock with `chrono::Utc::now` and writes the time out with
/// `chrono::DateTime::to_rfc3339`. That writes the year, then month, day,
/// hour, minute and second in two digits each, a fraction of at most nine
/// digits and the offset from UTC: digits and the signs `+ - : . T`, fewer
/// than 64 characters in all. Which time is written is not claimed: it
/// differs from call to call.
#[verifier::external_body]
fn current_time_text() -> (text: String)
    ensures
        is_ascii_chars(text@),
        text@.len() <= 64,
{
    chrono::Utc::now().to_rfc3339()
}

} // verus!
