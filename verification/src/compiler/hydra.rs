//! What the compiler builds, as mathematics: the lists that grow while the
//! description is walked, and the lists of the file that they become.

use super::preprocess_formats::{PreInstZoneView, PreInstrumentView, PrePresetView};
use crate::soundfont::info::InfoListView;
use crate::soundfont::pdta::{
    terminal_sample_name, GenAmountType, InstZone, InstrumentGen, InstrumentMod, InstrumentView,
    PdtaView, PresetGen, PresetHeaderView, PresetMod, PresetZone, SampleHeaderView,
    MIN_LOOP_MARGIN, MIN_SAMPLE_POINTS,
};
use crate::soundfont::record::{all_encodable, Record};
use crate::soundfont::sdta::SdtaView;
use crate::soundfont::SoundFont2View;
use vstd::prelude::*;

verus! {

/// The operator of the generator that names a zone's instrument.
pub const INSTRUMENT_OPERATOR: u16 = 41;

/// The operator of the generator that names a zone's sample.
pub const SAMPLE_OPERATOR: u16 = 53;

/// The type of a mono sample.
pub const MONO_SAMPLE: u16 = 1;

/// Points of silence that follow each sample in the sample buffer.
pub const SAMPLE_PADDING_POINTS: usize = 2;

/// The largest index that a record can hold.
pub const MAX_INDEX: usize = 0xFFFF;

/// The largest offset into the sample buffer that a sample header can hold.
pub const MAX_POINTS: usize = 0xFFFF_FFFF;

/// The name of the terminal preset header and of the terminal instrument.
pub open spec fn terminal_name() -> Seq<char> {
    "EOI"@
}

/// The points of silence that follow a sample.
pub open spec fn silence() -> Seq<i16> {
    Seq::new(SAMPLE_PADDING_POINTS as nat, |i: int| 0i16)
}

/// The sample buffer of the samples `data`: each sample's points, then the
/// silence after it.
pub open spec fn sample_buffer(data: Seq<Seq<i16>>) -> Seq<i16>
    decreases data.len(),
{
    if data.len() == 0 {
        Seq::empty()
    } else {
        sample_buffer(data.drop_last()) + data.last() + silence()
    }
}

/// The number of points in the sample buffer of the samples `data`.
pub open spec fn buffer_len(data: Seq<Seq<i16>>) -> nat
    decreases data.len(),
{
    if data.len() == 0 {
        0
    } else {
        buffer_len(data.drop_last()) + data.last().len() + SAMPLE_PADDING_POINTS as nat
    }
}

/// The header of a zone's sample before the sample has a place in the
/// buffer: it starts at 0 and ends at its length, and its loop leaves out 8
/// points at either end.
pub open spec fn relative_header(zone: PreInstZoneView) -> SampleHeaderView {
    SampleHeaderView {
        name: zone.sample,
        start: 0,
        end: zone.points.len() as u32,
        startloop: MIN_LOOP_MARGIN,
        endloop: (zone.points.len() - MIN_LOOP_MARGIN) as u32,
        sample_rate: zone.sample_rate,
        original_pitch: zone.original_pitch,
        pitch_correction: zone.pitch_correction,
        sample_link: 0,
        sample_type: MONO_SAMPLE,
    }
}

/// `header` is relative to the sample `points`, which has at least 48 points:
/// it starts at 0 and ends at the sample's length, its loop leaves out 8
/// points at either end, and its name is not that of the terminal header.
pub open spec fn is_relative(header: SampleHeaderView, points: Seq<i16>) -> bool {
    &&& points.len() >= MIN_SAMPLE_POINTS
    &&& header.start == 0
    &&& header.end == points.len()
    &&& header.startloop == MIN_LOOP_MARGIN
    &&& header.endloop == header.end - MIN_LOOP_MARGIN
    &&& header.name != terminal_sample_name()
}

/// `header`, moved `base` points up the buffer.
pub open spec fn shifted(header: SampleHeaderView, base: nat) -> SampleHeaderView {
    SampleHeaderView {
        start: (header.start + base) as u32,
        end: (header.end + base) as u32,
        startloop: (header.startloop + base) as u32,
        endloop: (header.endloop + base) as u32,
        ..header
    }
}

/// The headers `headers` of the samples `data`, each moved up to where its
/// sample begins in the sample buffer.
pub open spec fn relocated(headers: Seq<SampleHeaderView>, data: Seq<Seq<i16>>) -> Seq<
    SampleHeaderView,
> {
    Seq::new(headers.len(), |k: int| shifted(headers[k], buffer_len(data.take(k))))
}

/// The lists of a bank while it is assembled: the records of the presets,
/// instruments and samples seen so far, without terminal records. The sample
/// headers are relative to their own sample until the samples are laid out.
pub ghost struct HydraView {
    pub preset_headers: Seq<PresetHeaderView>,
    pub preset_zones: Seq<PresetZone>,
    pub preset_gens: Seq<PresetGen>,
    pub inst_headers: Seq<InstrumentView>,
    pub inst_zones: Seq<InstZone>,
    pub inst_gens: Seq<InstrumentGen>,
    pub sample_headers: Seq<SampleHeaderView>,
    pub sample_data: Seq<Seq<i16>>,
}

impl HydraView {
    /// The lists before anything is seen.
    pub open spec fn empty() -> HydraView {
        HydraView {
            preset_headers: Seq::empty(),
            preset_zones: Seq::empty(),
            preset_gens: Seq::empty(),
            inst_headers: Seq::empty(),
            inst_zones: Seq::empty(),
            inst_gens: Seq::empty(),
            sample_headers: Seq::empty(),
            sample_data: Seq::empty(),
        }
    }

    /// Every list that is referred to by index is short enough for a 16-bit
    /// index to close it, and the sample buffer for a 32-bit offset.
    pub open spec fn fits(self) -> bool {
        &&& self.preset_zones.len() <= MAX_INDEX
        &&& self.preset_gens.len() <= MAX_INDEX
        &&& self.inst_headers.len() <= MAX_INDEX
        &&& self.inst_zones.len() <= MAX_INDEX
        &&& self.inst_gens.len() <= MAX_INDEX
        &&& self.sample_headers.len() <= MAX_INDEX
        &&& buffer_len(self.sample_data) <= MAX_POINTS
    }

    /// Every name fits its field.
    pub open spec fn encodable(self) -> bool {
        &&& all_encodable(self.preset_headers)
        &&& all_encodable(self.inst_headers)
        &&& all_encodable(self.sample_headers)
    }

    /// Every sample header is still relative to its own sample.
    pub open spec fn relative(self) -> bool {
        &&& self.sample_headers.len() == self.sample_data.len()
        &&& forall|k: int|
            0 <= k < self.sample_headers.len() ==> is_relative(
                #[trigger] self.sample_headers[k],
                self.sample_data[k],
            )
    }

    /// The lists can be closed and written: they fit the format, every name
    /// fits its field, and every sample header is still relative.
    pub open spec fn ready(self) -> bool {
        &&& self.fits()
        &&& self.encodable()
        &&& self.relative()
    }

    /// The lists of the file: each list of `self` closed by its terminal
    /// record, the modulator lists holding theirs alone, and every sample
    /// header moved to its sample's place in the sample buffer. The terminal
    /// preset header, instrument and zones point behind the last record of
    /// the list below them.
    pub open spec fn closed(self) -> PdtaView {
        PdtaView {
            phdr: self.preset_headers.push(
                PresetHeaderView {
                    name: terminal_name(),
                    preset: 0,
                    bank: 0,
                    pbag_idx: self.preset_zones.len() as u16,
                    library: 0,
                    genre: 0,
                    morphology: 0,
                },
            ),
            pbag: self.preset_zones.push(
                PresetZone { gen_idx: self.preset_gens.len() as u16, mod_idx: 0 },
            ),
            pmod: seq![PresetMod {}],
            pgen: self.preset_gens.push(
                PresetGen { sf_gen_oper: 0, gen_amount: GenAmountType::Signed(0) },
            ),
            inst: self.inst_headers.push(
                InstrumentView { name: terminal_name(), inst_bag_idx: self.inst_zones.len() as u16 },
            ),
            ibag: self.inst_zones.push(
                InstZone { gen_idx: self.inst_gens.len() as u16, mod_idx: 0 },
            ),
            imod: seq![InstrumentMod {}],
            igen: self.inst_gens.push(
                InstrumentGen { sf_gen_oper: 0, gen_amount: GenAmountType::Signed(0) },
            ),
            shdr: relocated(self.sample_headers, self.sample_data).push(
                SampleHeaderView::terminal(),
            ),
        }
    }

    /// The bank of these lists and the metadata `info`: the metadata, the
    /// samples in one buffer, and the closed lists.
    pub open spec fn bank(self, info: InfoListView) -> SoundFont2View {
        SoundFont2View {
            info,
            sdta: SdtaView { smpl: sample_buffer(self.sample_data), sm24: None },
            pdta: self.closed(),
        }
    }
}

/// The instruments that the zones of the presets `presets` play, in the order
/// of the presets and of their zones. An instrument that several zones play
/// stands once for each.
pub open spec fn instruments_of(presets: Seq<PrePresetView>) -> Seq<PreInstrumentView>
    decreases presets.len(),
{
    if presets.len() == 0 {
        Seq::empty()
    } else {
        instruments_of(presets.drop_last()) + presets.last().zones
    }
}

/// The zones of the instruments `instruments`, in the order of the
/// instruments and of their zones.
pub open spec fn sample_zones_of(instruments: Seq<PreInstrumentView>) -> Seq<PreInstZoneView>
    decreases instruments.len(),
{
    if instruments.len() == 0 {
        Seq::empty()
    } else {
        sample_zones_of(instruments.drop_last()) + instruments.last().zones
    }
}

/// The lists of the bank of the presets `presets`.
///
/// There is a preset header for each preset, a preset zone and a preset
/// generator for each zone of a preset, an instrument for each such zone
/// too, and an instrument zone, an instrument generator and a sample for
/// each zone of those instruments. A zone begins at the generator of its own
/// index, and that generator names the instrument or the sample of that
/// index. The zones of a preset begin after the zones of the presets before
/// it, and the zones of an instrument after those of the instruments before
/// it.
pub open spec fn bank_lists(presets: Seq<PrePresetView>) -> HydraView {
    let instruments = instruments_of(presets);
    let zones = sample_zones_of(instruments);
    HydraView {
        preset_headers: Seq::new(
            presets.len(),
            |i: int|
                PresetHeaderView {
                    name: presets[i].name,
                    preset: presets[i].midi_preset,
                    bank: presets[i].midi_bank,
                    pbag_idx: instruments_of(presets.take(i)).len() as u16,
                    library: 0,
                    genre: 0,
                    morphology: 0,
                },
        ),
        preset_zones: Seq::new(
            instruments.len(),
            |j: int| PresetZone { gen_idx: j as u16, mod_idx: 0 },
        ),
        preset_gens: Seq::new(
            instruments.len(),
            |j: int|
                PresetGen {
                    sf_gen_oper: INSTRUMENT_OPERATOR,
                    gen_amount: GenAmountType::Unsigned(j as u16),
                },
        ),
        inst_headers: Seq::new(
            instruments.len(),
            |j: int|
                InstrumentView {
                    name: instruments[j].name,
                    inst_bag_idx: sample_zones_of(instruments.take(j)).len() as u16,
                },
        ),
        inst_zones: Seq::new(zones.len(), |k: int| InstZone { gen_idx: k as u16, mod_idx: 0 }),
        inst_gens: Seq::new(
            zones.len(),
            |k: int|
                InstrumentGen {
                    sf_gen_oper: SAMPLE_OPERATOR,
                    gen_amount: GenAmountType::Unsigned(k as u16),
                },
        ),
        sample_headers: Seq::new(zones.len(), |k: int| relative_header(zones[k])),
        sample_data: Seq::new(zones.len(), |k: int| zones[k].points),
    }
}

/// The names of the terminal records fit the name field.
pub proof fn lemma_terminal_names_fit()
    ensures
        vstd::utf8::encode_utf8(terminal_name()).len() == 3,
        vstd::utf8::encode_utf8(terminal_sample_name()).len() == 3,
{
    reveal_strlit("EOI");
    reveal_strlit("EOS");
    vstd::utf8::is_ascii_chars_encode_utf8(terminal_name());
    vstd::utf8::is_ascii_chars_encode_utf8(terminal_sample_name());
}

/// The buffer of some of the samples is no longer than that of all.
pub proof fn lemma_buffer_len_grows(data: Seq<Seq<i16>>, k: int)
    requires
        0 <= k <= data.len(),
    ensures
        buffer_len(data.take(k)) <= buffer_len(data),
        k < data.len() ==> buffer_len(data.take(k)) + data[k].len() + SAMPLE_PADDING_POINTS
            <= buffer_len(data),
    decreases data.len(),
{
    if k == data.len() {
        assert(data.take(k) =~= data);
    } else {
        assert(data.drop_last().take(k) =~= data.take(k));
        if k < data.len() - 1 {
            lemma_buffer_len_grows(data.drop_last(), k);
        } else {
            assert(data.drop_last().take(k) =~= data.drop_last());
        }
    }
}

/// The sample buffer has as many points as `buffer_len` counts.
pub proof fn lemma_sample_buffer_len(data: Seq<Seq<i16>>)
    ensures
        sample_buffer(data).len() == buffer_len(data),
    decreases data.len(),
{
    if data.len() > 0 {
        lemma_sample_buffer_len(data.drop_last());
    }
}

} // verus!
