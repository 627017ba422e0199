//! The walk over a description that assembles the lists of its bank, and
//! the proof that it builds the lists of that bank.

use super::hydra::{
    bank_lists, buffer_len, instruments_of, relative_header, sample_zones_of, HydraView,
    INSTRUMENT_OPERATOR, SAMPLE_OPERATOR,
};
use super::preprocess_formats::{PreInstZoneView, PreInstrumentView, PrePresetView};
use crate::soundfont::pdta::{
    GenAmountType, InstZone, InstrumentGen, InstrumentView, PresetGen, PresetHeaderView,
    PresetZone,
};
use vstd::prelude::*;

verus! {

impl HydraView {
    /// No list of `self` is shorter than that of `earlier`, nor is the
    /// sample buffer.
    pub open spec fn at_least(self, earlier: HydraView) -> bool {
        &&& earlier.preset_zones.len() <= self.preset_zones.len()
        &&& earlier.preset_gens.len() <= self.preset_gens.len()
        &&& earlier.inst_headers.len() <= self.inst_headers.len()
        &&& earlier.inst_zones.len() <= self.inst_zones.len()
        &&& earlier.inst_gens.len() <= self.inst_gens.len()
        &&& earlier.sample_headers.len() <= self.sample_headers.len()
        &&& buffer_len(earlier.sample_data) <= buffer_len(self.sample_data)
    }

    /// The lists after one zone of an instrument: its sample and the
    /// sample's header are appended, then a generator that names the sample
    /// by its index, then a zone that begins at that generator.
    pub open spec fn add_sample(self, zone: PreInstZoneView) -> HydraView {
        HydraView {
            sample_headers: self.sample_headers.push(relative_header(zone)),
            sample_data: self.sample_data.push(zone.points),
            inst_gens: self.inst_gens.push(
                InstrumentGen {
                    sf_gen_oper: SAMPLE_OPERATOR,
                    gen_amount: GenAmountType::Unsigned(self.sample_headers.len() as u16),
                },
            ),
            inst_zones: self.inst_zones.push(
                InstZone { gen_idx: self.inst_gens.len() as u16, mod_idx: 0 },
            ),
            ..self
        }
    }

    /// The lists after the zones `zones` of an instrument, in order.
    pub open spec fn add_samples(self, zones: Seq<PreInstZoneView>) -> HydraView
        decreases zones.len(),
    {
        if zones.len() == 0 {
            self
        } else {
            self.add_samples(zones.drop_last()).add_sample(zones.last())
        }
    }

    /// The lists after one zone of a preset: the zones of its instrument are
    /// appended, then the instrument, whose zones begin where the instrument
    /// zones ended before; then a generator that names the instrument by its
    /// index, then a zone that begins at that generator.
    pub open spec fn add_instrument(self, instrument: PreInstrumentView) -> HydraView {
        let inner = self.add_samples(instrument.zones);
        HydraView {
            inst_headers: inner.inst_headers.push(
                InstrumentView {
                    name: instrument.name,
                    inst_bag_idx: self.inst_zones.len() as u16,
                },
            ),
            preset_gens: inner.preset_gens.push(
                PresetGen {
                    sf_gen_oper: INSTRUMENT_OPERATOR,
                    gen_amount: GenAmountType::Unsigned(inner.inst_headers.len() as u16),
                },
            ),
            preset_zones: inner.preset_zones.push(
                PresetZone { gen_idx: inner.preset_gens.len() as u16, mod_idx: 0 },
            ),
            ..inner
        }
    }

    /// The lists after the zones of a preset, given by their instruments
    /// `instruments`, in order.
    pub open spec fn add_instruments(self, instruments: Seq<PreInstrumentView>) -> HydraView
        decreases instruments.len(),
    {
        if instruments.len() == 0 {
            self
        } else {
            self.add_instruments(instruments.drop_last()).add_instrument(instruments.last())
        }
    }

    /// The lists after one preset: its zones are appended, then its header,
    /// whose zones begin where the preset zones ended before.
    pub open spec fn add_preset(self, preset: PrePresetView) -> HydraView {
        let inner = self.add_instruments(preset.zones);
        HydraView {
            preset_headers: inner.preset_headers.push(
                PresetHeaderView {
                    name: preset.name,
                    preset: preset.midi_preset,
                    bank: preset.midi_bank,
                    pbag_idx: self.preset_zones.len() as u16,
                    library: 0,
                    genre: 0,
                    morphology: 0,
                },
            ),
            ..inner
        }
    }

    /// The lists after the presets `presets`, in order.
    pub open spec fn add_presets(self, presets: Seq<PrePresetView>) -> HydraView
        decreases presets.len(),
    {
        if presets.len() == 0 {
            self
        } else {
            self.add_presets(presets.drop_last()).add_preset(presets.last())
        }
    }

}

/// The lists after a walk over the presets `presets`, from empty lists.
pub open spec fn assembled(presets: Seq<PrePresetView>) -> HydraView {
    HydraView::empty().add_presets(presets)
}

/// Lists that fit still fit when some of their records are taken away.
pub proof fn lemma_fits_earlier(later: HydraView, earlier: HydraView)
    requires
        later.at_least(earlier),
        later.fits(),
    ensures
        earlier.fits(),
{
}

/// Adding zones of an instrument shortens no list.
pub proof fn lemma_add_samples_grows(start: HydraView, zones: Seq<PreInstZoneView>, k: int)
    requires
        0 <= k <= zones.len(),
    ensures
        start.add_samples(zones).at_least(start.add_samples(zones.take(k))),
        start.add_samples(zones).at_least(start),
        k < zones.len() ==> start.add_samples(zones.take(k + 1)) == start.add_samples(
            zones.take(k),
        ).add_sample(zones[k]),
    decreases zones.len(),
{
    if k < zones.len() {
        assert(zones.take(k + 1).drop_last() =~= zones.take(k));
    }
    if zones.len() == 0 {
        assert(zones.take(k) =~= zones);
    } else if k == zones.len() {
        assert(zones.take(k) =~= zones);
        lemma_add_samples_grows(start, zones.drop_last(), 0);
        lemma_add_sample_grows(start.add_samples(zones.drop_last()), zones.last());
    } else {
        assert(zones.drop_last().take(k) =~= zones.take(k));
        lemma_add_samples_grows(start, zones.drop_last(), k);
        lemma_add_sample_grows(start.add_samples(zones.drop_last()), zones.last());
    }
}

/// Adding a zone of an instrument shortens no list.
pub proof fn lemma_add_sample_grows(start: HydraView, zone: PreInstZoneView)
    ensures
        start.add_sample(zone).at_least(start),
{
    assert(start.sample_data.push(zone.points).drop_last() =~= start.sample_data);
}

/// Adding a zone of a preset shortens no list.
pub proof fn lemma_add_instrument_grows(start: HydraView, instrument: PreInstrumentView)
    ensures
        start.add_instrument(instrument).at_least(start.add_samples(instrument.zones)),
        start.add_instrument(instrument).at_least(start),
{
    lemma_add_samples_grows(start, instrument.zones, 0);
}

/// Adding zones of a preset shortens no list.
pub proof fn lemma_add_instruments_grows(
    start: HydraView,
    instruments: Seq<PreInstrumentView>,
    k: int,
)
    requires
        0 <= k <= instruments.len(),
    ensures
        start.add_instruments(instruments).at_least(start.add_instruments(instruments.take(k))),
        start.add_instruments(instruments).at_least(start),
        k < instruments.len() ==> start.add_instruments(instruments.take(k + 1))
            == start.add_instruments(instruments.take(k)).add_instrument(instruments[k]),
    decreases instruments.len(),
{
    if k < instruments.len() {
        assert(instruments.take(k + 1).drop_last() =~= instruments.take(k));
    }
    if instruments.len() == 0 {
        assert(instruments.take(k) =~= instruments);
    } else if k == instruments.len() {
        assert(instruments.take(k) =~= instruments);
        lemma_add_instruments_grows(start, instruments.drop_last(), 0);
        lemma_add_instrument_grows(
            start.add_instruments(instruments.drop_last()),
            instruments.last(),
        );
    } else {
        assert(instruments.drop_last().take(k) =~= instruments.take(k));
        lemma_add_instruments_grows(start, instruments.drop_last(), k);
        lemma_add_instrument_grows(
            start.add_instruments(instruments.drop_last()),
            instruments.last(),
        );
    }
}

/// Adding a preset shortens no list.
pub proof fn lemma_add_preset_grows(start: HydraView, preset: PrePresetView)
    ensures
        start.add_preset(preset).at_least(start.add_instruments(preset.zones)),
        start.add_preset(preset).at_least(start),
{
    lemma_add_instruments_grows(start, preset.zones, 0);
}

/// Adding presets shortens no list.
pub proof fn lemma_add_presets_grows(start: HydraView, presets: Seq<PrePresetView>, k: int)
    requires
        0 <= k <= presets.len(),
    ensures
        start.add_presets(presets).at_least(start.add_presets(presets.take(k))),
        start.add_presets(presets).at_least(start),
        k < presets.len() ==> start.add_presets(presets.take(k + 1)) == start.add_presets(
            presets.take(k),
        ).add_preset(presets[k]),
    decreases presets.len(),
{
    if k < presets.len() {
        assert(presets.take(k + 1).drop_last() =~= presets.take(k));
    }
    if presets.len() == 0 {
        assert(presets.take(k) =~= presets);
    } else if k == presets.len() {
        assert(presets.take(k) =~= presets);
        lemma_add_presets_grows(start, presets.drop_last(), 0);
        lemma_add_preset_grows(start.add_presets(presets.drop_last()), presets.last());
    } else {
        assert(presets.drop_last().take(k) =~= presets.take(k));
        lemma_add_presets_grows(start, presets.drop_last(), k);
        lemma_add_preset_grows(start.add_presets(presets.drop_last()), presets.last());
    }
}


/// The lists in the middle of a walk: those of the bank of the presets
/// `done`, of the zones of a further preset that play the instruments
/// `begun`, and of the zones `started` of a further instrument.
pub open spec fn partial_lists(
    done: Seq<PrePresetView>,
    begun: Seq<PreInstrumentView>,
    started: Seq<PreInstZoneView>,
) -> HydraView {
    let instruments = instruments_of(done) + begun;
    let zones = sample_zones_of(instruments) + started;
    HydraView {
        preset_headers: bank_lists(done).preset_headers,
        preset_zones: Seq::new(
            instruments.len(),
            |j: int| PresetZone { gen_idx: j as u16, mod_idx: 0 },
        ),
        preset_gens: Seq::new(
            instruments.len(),
            |j: int|
                PresetGen {
                    sf_gen_oper: INSTRUMENT_OPERATOR,
                    gen_amount: GenAmountType::Unsigned(j as u16),
                },
        ),
        inst_headers: Seq::new(
            instruments.len(),
            |j: int|
                InstrumentView {
                    name: instruments[j].name,
                    inst_bag_idx: sample_zones_of(instruments.take(j)).len() as u16,
                },
        ),
        inst_zones: Seq::new(zones.len(), |k: int| InstZone { gen_idx: k as u16, mod_idx: 0 }),
        inst_gens: Seq::new(
            zones.len(),
            |k: int|
                InstrumentGen {
                    sf_gen_oper: SAMPLE_OPERATOR,
                    gen_amount: GenAmountType::Unsigned(k as u16),
                },
        ),
        sample_headers: Seq::new(zones.len(), |k: int| relative_header(zones[k])),
        sample_data: Seq::new(zones.len(), |k: int| zones[k].points),
    }
}

/// With no further preset begun, the partial lists are the lists of the
/// bank.
pub proof fn lemma_partial_lists_of_whole_presets(done: Seq<PrePresetView>)
    ensures
        partial_lists(done, Seq::empty(), Seq::empty()) == bank_lists(done),
{
    let instruments = instruments_of(done);
    assert(instruments + Seq::<PreInstrumentView>::empty() =~= instruments);
    assert(sample_zones_of(instruments) + Seq::<PreInstZoneView>::empty() =~= sample_zones_of(
        instruments,
    ));
}

/// One zone of an instrument more.
pub proof fn lemma_partial_add_sample(
    done: Seq<PrePresetView>,
    begun: Seq<PreInstrumentView>,
    started: Seq<PreInstZoneView>,
    zone: PreInstZoneView,
)
    ensures
        partial_lists(done, begun, started).add_sample(zone) == partial_lists(
            done,
            begun,
            started.push(zone),
        ),
{
    let instruments = instruments_of(done) + begun;
    let zones = sample_zones_of(instruments) + started;
    let more = sample_zones_of(instruments) + started.push(zone);
    assert(more =~= zones.push(zone));
    let stepped = partial_lists(done, begun, started).add_sample(zone);
    let target = partial_lists(done, begun, started.push(zone));
    assert(stepped.sample_headers =~= target.sample_headers);
    assert(stepped.sample_data =~= target.sample_data);
    assert(stepped.inst_gens =~= target.inst_gens);
    assert(stepped.inst_zones =~= target.inst_zones);
}

/// The zones of an instrument, all of them.
pub proof fn lemma_partial_add_samples(
    done: Seq<PrePresetView>,
    begun: Seq<PreInstrumentView>,
    zones: Seq<PreInstZoneView>,
)
    ensures
        partial_lists(done, begun, Seq::empty()).add_samples(zones) == partial_lists(
            done,
            begun,
            zones,
        ),
    decreases zones.len(),
{
    if zones.len() == 0 {
        assert(zones =~= Seq::<PreInstZoneView>::empty());
    } else {
        lemma_partial_add_samples(done, begun, zones.drop_last());
        lemma_partial_add_sample(done, begun, zones.drop_last(), zones.last());
        assert(zones.drop_last().push(zones.last()) =~= zones);
    }
}

/// One zone of a preset more.
pub proof fn lemma_partial_add_instrument(
    done: Seq<PrePresetView>,
    begun: Seq<PreInstrumentView>,
    instrument: PreInstrumentView,
)
    ensures
        partial_lists(done, begun, Seq::empty()).add_instrument(instrument) == partial_lists(
            done,
            begun.push(instrument),
            Seq::empty(),
        ),
{
    let start = partial_lists(done, begun, Seq::empty());
    lemma_partial_add_samples(done, begun, instrument.zones);
    let inner = partial_lists(done, begun, instrument.zones);
    let instruments = instruments_of(done) + begun;
    let more = instruments_of(done) + begun.push(instrument);
    assert(more =~= instruments.push(instrument));
    assert(more.drop_last() =~= instruments);
    assert(sample_zones_of(more) == sample_zones_of(instruments) + instrument.zones);
    assert(sample_zones_of(more) + Seq::<PreInstZoneView>::empty() =~= sample_zones_of(
        instruments,
    ) + instrument.zones);
    assert(sample_zones_of(instruments) + Seq::<PreInstZoneView>::empty() =~= sample_zones_of(
        instruments,
    ));
    let stepped = start.add_instrument(instrument);
    let target = partial_lists(done, begun.push(instrument), Seq::empty());
    assert(more.take(instruments.len() as int) =~= instruments);
    assert forall|j: int| 0 <= j < instruments.len() implies more.take(j) == instruments.take(
        j,
    ) by {
        assert(more.take(j) =~= instruments.take(j));
    }
    assert(stepped.inst_headers =~= target.inst_headers);
    assert(stepped.preset_gens =~= target.preset_gens);
    assert(stepped.preset_zones =~= target.preset_zones);
    assert(stepped.inst_gens =~= target.inst_gens);
    assert(stepped.inst_zones =~= target.inst_zones);
    assert(stepped.sample_headers =~= target.sample_headers);
    assert(stepped.sample_data =~= target.sample_data);
}

/// The zones of a preset, all of them.
pub proof fn lemma_partial_add_instruments(
    done: Seq<PrePresetView>,
    instruments: Seq<PreInstrumentView>,
)
    ensures
        bank_lists(done).add_instruments(instruments) == partial_lists(
            done,
            instruments,
            Seq::empty(),
        ),
    decreases instruments.len(),
{
    lemma_partial_lists_of_whole_presets(done);
    if instruments.len() == 0 {
        assert(instruments =~= Seq::<PreInstrumentView>::empty());
    } else {
        lemma_partial_add_instruments(done, instruments.drop_last());
        lemma_partial_add_instrument(done, instruments.drop_last(), instruments.last());
        assert(instruments.drop_last().push(instruments.last()) =~= instruments);
    }
}

/// One preset more.
pub proof fn lemma_partial_add_preset(done: Seq<PrePresetView>, preset: PrePresetView)
    ensures
        bank_lists(done).add_preset(preset) == bank_lists(done.push(preset)),
{
    lemma_partial_add_instruments(done, preset.zones);
    let inner = partial_lists(done, preset.zones, Seq::empty());
    let more = done.push(preset);
    assert(more.drop_last() =~= done);
    assert(instruments_of(more) == instruments_of(done) + preset.zones);
    let stepped = bank_lists(done).add_preset(preset);
    let target = bank_lists(more);
    assert(sample_zones_of(instruments_of(more)) + Seq::<PreInstZoneView>::empty()
        =~= sample_zones_of(instruments_of(more)));
    assert(more.take(done.len() as int) =~= done);
    assert forall|i: int| 0 <= i < done.len() implies more.take(i) == done.take(i) by {
        assert(more.take(i) =~= done.take(i));
    }
    assert(stepped.preset_headers =~= target.preset_headers);
    assert(stepped.preset_zones =~= target.preset_zones);
    assert(stepped.preset_gens =~= target.preset_gens);
    assert(stepped.inst_headers =~= target.inst_headers);
    assert(stepped.inst_zones =~= target.inst_zones);
    assert(stepped.inst_gens =~= target.inst_gens);
    assert(stepped.sample_headers =~= target.sample_headers);
    assert(stepped.sample_data =~= target.sample_data);
}

/// The walk over the presets builds the lists of their bank.
pub proof fn lemma_walk_builds_bank_lists(presets: Seq<PrePresetView>)
    ensures
        assembled(presets) == bank_lists(presets),
    decreases presets.len(),
{
    if presets.len() == 0 {
        let none = bank_lists(presets);
        assert(none.preset_headers =~= HydraView::empty().preset_headers);
        assert(none.preset_zones =~= HydraView::empty().preset_zones);
        assert(none.preset_gens =~= HydraView::empty().preset_gens);
        assert(none.inst_headers =~= HydraView::empty().inst_headers);
        assert(none.inst_zones =~= HydraView::empty().inst_zones);
        assert(none.inst_gens =~= HydraView::empty().inst_gens);
        assert(none.sample_headers =~= HydraView::empty().sample_headers);
        assert(none.sample_data =~= HydraView::empty().sample_data);
    } else {
        lemma_walk_builds_bank_lists(presets.drop_last());
        lemma_partial_add_preset(presets.drop_last(), presets.last());
        assert(presets.drop_last().push(presets.last()) =~= presets);
    }
}

} // verus!
