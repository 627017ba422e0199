//! From a description of a bank to the lists of a SoundFont.

mod error;
pub mod hydra;
pub mod laws;
mod preprocess_formats;
pub mod walk;

use crate::soundfont::info::{string_check, InfoList, InfoListView, TEXT_LIMIT};
use crate::soundfont::pdta::{
    GenAmountType, InstBag, InstGenList, InstModList, InstZone, Instrument, InstrumentGen,
    InstrumentMod, Instruments, PdtaList, PresetBag, PresetGen, PresetGenList, PresetHeader,
    PresetHeaders, PresetMod, PresetModList, PresetZone, SampleHeader, SampleHeaderView,
    SampleList,
};
use crate::soundfont::record::Record;
use crate::soundfont::sdta::SdtaList;
use crate::soundfont::{SoundFont2, SoundfontError};
use hydra::{
    bank_lists, buffer_len, is_relative, lemma_buffer_len_grows, lemma_sample_buffer_len,
    relocated, sample_buffer, shifted, HydraView, INSTRUMENT_OPERATOR, MAX_INDEX, MAX_POINTS,
    MONO_SAMPLE, SAMPLE_OPERATOR, SAMPLE_PADDING_POINTS,
};
use laws::{compiled, lemma_closed_lists_are_encodable};
use walk::{
    assembled, lemma_add_instrument_grows, lemma_add_instruments_grows, lemma_add_preset_grows,
    lemma_add_presets_grows, lemma_add_samples_grows, lemma_fits_earlier,
    lemma_walk_builds_bank_lists,
};
use vstd::prelude::*;
use vstd::string::StringExecFns;

pub use error::CompilerError;
pub use preprocess_formats::{
    inst_zone_views, preset_views, preset_zone_views, sample_zone_check, software_name,
    sound_engine_name, then_check, PreInstZone, PreInstZoneView, PreInstrument,
    PreInstrumentView, PrePreset, PrePresetView, PrePresetZone, PreSoundFont, SampleDescriptor,
};

verus! {

/// A sample in the bank: its header and its points.
#[derive(Debug)]
pub struct SampleWrap {
    header: SampleHeader,
    data: Vec<i16>,
}

impl Clone for SampleWrap {
    fn clone(&self) -> (copy: Self)
        ensures
            copy.spec_header() == self.spec_header(),
            copy.spec_data() == self.spec_data(),
    {
        let data = self.data.clone();
        assert(data@ =~= self.data@);
        SampleWrap { header: self.header.clone(), data }
    }
}

impl SampleWrap {
    /// The header of the sample.
    pub fn header(&self) -> (header: &SampleHeader)
        ensures
            header@ == self.spec_header(),
    {
        &self.header
    }

    /// The points of the sample.
    pub fn data(&self) -> (data: &Vec<i16>)
        ensures
            data@ == self.spec_data(),
    {
        &self.data
    }

    /// What the header of the sample holds.
    pub closed spec fn spec_header(&self) -> SampleHeaderView {
        self.header@
    }

    /// The points of the sample.
    pub closed spec fn spec_data(&self) -> Seq<i16> {
        self.data@
    }
}

/// The lists of a bank under assembly, and its metadata if there is any.
#[derive(Debug)]
pub struct FontData {
    info_list: Option<InfoList>,
    preset_headers: Vec<PresetHeader>,
    preset_zones: Vec<PresetZone>,
    preset_gens: Vec<PresetGen>,
    inst_headers: Vec<Instrument>,
    inst_zones: Vec<InstZone>,
    inst_gens: Vec<InstrumentGen>,
    samples: Vec<SampleWrap>,
    buffer_points: usize,
}

/// What the lists of a bank under assembly hold.
pub ghost struct FontDataView {
    pub info: Option<InfoListView>,
    pub hydra: HydraView,
}

/// What metadata holds, if there is any.
pub open spec fn optional_info(info: Option<InfoList>) -> Option<InfoListView> {
    match info {
        Some(list) => Some(list@),
        None => None,
    }
}

impl View for FontData {
    type V = FontDataView;

    closed spec fn view(&self) -> FontDataView {
        FontDataView {
            info: optional_info(self.info_list),
            hydra: HydraView {
                preset_headers: Seq::new(
                    self.preset_headers@.len(),
                    |i: int| self.preset_headers@[i]@,
                ),
                preset_zones: self.preset_zones@,
                preset_gens: self.preset_gens@,
                inst_headers: Seq::new(self.inst_headers@.len(), |i: int| self.inst_headers@[i]@),
                inst_zones: self.inst_zones@,
                inst_gens: self.inst_gens@,
                sample_headers: Seq::new(self.samples@.len(), |i: int| self.samples@[i].header@),
                sample_data: Seq::new(self.samples@.len(), |i: int| self.samples@[i].data@),
            },
        }
    }
}

/// A copy of the preset headers `source`, closed by `terminal`.
fn closed_preset_headers(source: &Vec<PresetHeader>, terminal: PresetHeader) -> (list: PresetHeaders)
    ensures
        list@ == Seq::new(source@.len(), |i: int| source@[i]@).push(terminal@),
{
    let mut contents: Vec<PresetHeader> = Vec::new();
    let mut i: usize = 0;
    while i < source.len()
        invariant
            i <= source@.len(),
            contents@.len() == i,
            forall|j: int| 0 <= j < i ==> contents@[j]@ == source@[j]@,
        decreases source@.len() - i,
    {
        contents.push(source[i].clone());
        i += 1;
    }
    contents.push(terminal);
    let list = PresetHeaders { contents };
    assert(list@ =~= Seq::new(source@.len(), |i: int| source@[i]@).push(terminal@));
    list
}

/// A copy of the instruments `source`, closed by `terminal`.
fn closed_instruments(source: &Vec<Instrument>, terminal: Instrument) -> (list: Instruments)
    ensures
        list@ == Seq::new(source@.len(), |i: int| source@[i]@).push(terminal@),
{
    let mut contents: Vec<Instrument> = Vec::new();
    let mut i: usize = 0;
    while i < source.len()
        invariant
            i <= source@.len(),
            contents@.len() == i,
            forall|j: int| 0 <= j < i ==> contents@[j]@ == source@[j]@,
        decreases source@.len() - i,
    {
        contents.push(source[i].clone());
        i += 1;
    }
    contents.push(terminal);
    let list = Instruments { contents };
    assert(list@ =~= Seq::new(source@.len(), |i: int| source@[i]@).push(terminal@));
    list
}

/// A copy of the headers of the samples `source`, closed by `terminal`.
fn closed_sample_headers(source: &Vec<SampleWrap>, terminal: SampleHeader) -> (list: SampleList)
    ensures
        list@ == Seq::new(source@.len(), |i: int| source@[i].header@).push(terminal@),
{
    let mut contents: Vec<SampleHeader> = Vec::new();
    let mut i: usize = 0;
    while i < source.len()
        invariant
            i <= source@.len(),
            contents@.len() == i,
            forall|j: int| 0 <= j < i ==> contents@[j]@ == source@[j].header@,
        decreases source@.len() - i,
    {
        contents.push(source[i].header.clone());
        i += 1;
    }
    contents.push(terminal);
    let list = SampleList { contents };
    assert(list@ =~= Seq::new(source@.len(), |i: int| source@[i].header@).push(terminal@));
    list
}

/// Compiles the bank of the presets `presets` with the metadata `info`:
/// assembles its lists, lays its samples out and closes the lists.
///
/// A bank whose lists outgrow the indices of the format is refused.
pub fn compile(info: InfoList, presets: &Vec<PrePreset>) -> (outcome: Result<
    SoundFont2,
    CompilerError,
>)
    ensures
        match outcome {
            Ok(font) => {
                &&& bank_lists(preset_views(presets@)).fits()
                &&& font@ == compiled(info@, preset_views(presets@))
                &&& font@.pdta.encodable()
            },
            Err(error) => {
                &&& error == CompilerError::BankTooLarge
                &&& !bank_lists(preset_views(presets@)).fits()
            },
        },
{
    match FontData::assemble(Some(info), presets) {
        Ok(font) => {
            let mut font = font;
            Ok(font.generate_soundfont())
        },
        Err(error) => Err(error),
    }
}

impl FontData {
    /// The count of buffer points is that of the samples held.
    spec fn counted(&self) -> bool {
        self.buffer_points == buffer_len(self@.hydra.sample_data)
    }

    /// Appends one zone of an instrument.
    fn add_sample(&mut self, zone: &PreInstZone) -> (outcome: Result<(), CompilerError>)
        requires
            old(self).counted(),
            old(self)@.hydra.ready(),
        ensures
            match outcome {
                Ok(_) => {
                    &&& final(self).counted()
                    &&& final(self)@.hydra.ready()
                    &&& final(self)@ == (FontDataView {
                        hydra: old(self)@.hydra.add_sample(zone@),
                        ..old(self)@
                    })
                },
                Err(error) => {
                    &&& error == CompilerError::BankTooLarge
                    &&& !old(self)@.hydra.add_sample(zone@).fits()
                },
            },
    {
        let audio = zone.audio();
        let name = zone.sample();
        let points = audio.data.len();
        let ghost before = self@.hydra;
        proof {
            assert(before.sample_data.push(zone@.points).drop_last() =~= before.sample_data);
        }
        if self.samples.len() >= MAX_INDEX || self.inst_gens.len() >= MAX_INDEX
            || self.inst_zones.len() >= MAX_INDEX {
            return Err(CompilerError::BankTooLarge);
        }
        if self.buffer_points > MAX_POINTS - SAMPLE_PADDING_POINTS || points > MAX_POINTS
            - SAMPLE_PADDING_POINTS - self.buffer_points {
            return Err(CompilerError::BankTooLarge);
        }
        let header = SampleHeader {
            name: name.clone(),
            start: 0,
            end: points as u32,
            startloop: 8,
            endloop: points as u32 - 8,
            sample_rate: audio.sample_rate,
            original_pitch: zone.original_pitch(),
            pitch_correction: zone.pitch_correction(),
            sample_link: 0,
            sample_type: MONO_SAMPLE,
        };
        let data = audio.data.clone();
        assert(data@ =~= audio.data@);
        self.samples.push(SampleWrap { header, data });
        self.buffer_points = self.buffer_points + points + SAMPLE_PADDING_POINTS;
        self.inst_gens.push(
            InstrumentGen {
                sf_gen_oper: SAMPLE_OPERATOR,
                gen_amount: GenAmountType::Unsigned((self.samples.len() - 1) as u16),
            },
        );
        self.inst_zones.push(InstZone { gen_idx: (self.inst_gens.len() - 1) as u16, mod_idx: 0 });
        proof {
            let after = before.add_sample(zone@);
            assert(self@.hydra.sample_headers =~= after.sample_headers);
            assert(self@.hydra.sample_data =~= after.sample_data);
            assert(self@.hydra.preset_headers =~= after.preset_headers);
            assert(self@.hydra.inst_headers =~= after.inst_headers);
            assert(self@.hydra == after);
            assert forall|k: int| 0 <= k < after.sample_headers.len() implies is_relative(
                #[trigger] after.sample_headers[k],
                after.sample_data[k],
            ) by {
                if k < before.sample_headers.len() {
                    assert(is_relative(before.sample_headers[k], before.sample_data[k]));
                }
            }
        }
        Ok(())
    }

    /// Appends one zone of a preset.
    fn add_instrument(&mut self, instrument: &PreInstrument) -> (outcome: Result<
        (),
        CompilerError,
    >)
        requires
            old(self).counted(),
            old(self)@.hydra.ready(),
        ensures
            match outcome {
                Ok(_) => {
                    &&& final(self).counted()
                    &&& final(self)@.hydra.ready()
                    &&& final(self)@ == (FontDataView {
                        hydra: old(self)@.hydra.add_instrument(instrument@),
                        ..old(self)@
                    })
                },
                Err(error) => {
                    &&& error == CompilerError::BankTooLarge
                    &&& !old(self)@.hydra.add_instrument(instrument@).fits()
                },
            },
    {
        let ghost before = self@.hydra;
        let ghost target = before.add_instrument(instrument@);
        let name = instrument.name();
        let zones = instrument.zones();
        let inst_bag_idx = self.inst_zones.len() as u16;
        let mut k: usize = 0;
        while k < zones.len()
            invariant
                k <= zones@.len(),
                inst_zone_views(zones@) == instrument@.zones,
                before == old(self)@.hydra,
                target == before.add_instrument(instrument@),
                self.counted(),
                self@.hydra.ready(),
                self@ == (FontDataView {
                    hydra: before.add_samples(instrument@.zones.take(k as int)),
                    ..old(self)@
                }),
            decreases zones@.len() - k,
        {
            proof {
                lemma_add_samples_grows(before, instrument@.zones, k as int);
                lemma_add_samples_grows(before, instrument@.zones, k + 1);
                lemma_add_instrument_grows(before, instrument@);
            }
            match self.add_sample(&zones[k]) {
                Ok(()) => {},
                Err(error) => {
                    proof {
                        let reached = before.add_samples(instrument@.zones.take(k + 1));
                        if target.fits() {
                            lemma_fits_earlier(target, before.add_samples(instrument@.zones));
                            lemma_fits_earlier(before.add_samples(instrument@.zones), reached);
                        }
                    }
                    return Err(error);
                },
            }
            k += 1;
        }
        assert(instrument@.zones.take(k as int) =~= instrument@.zones);
        if self.inst_headers.len() >= MAX_INDEX || self.preset_gens.len() >= MAX_INDEX
            || self.preset_zones.len() >= MAX_INDEX {
            return Err(CompilerError::BankTooLarge);
        }
        self.inst_headers.push(Instrument { name: name.clone(), inst_bag_idx });
        self.preset_gens.push(
            PresetGen {
                sf_gen_oper: INSTRUMENT_OPERATOR,
                gen_amount: GenAmountType::Unsigned((self.inst_headers.len() - 1) as u16),
            },
        );
        self.preset_zones.push(
            PresetZone { gen_idx: (self.preset_gens.len() - 1) as u16, mod_idx: 0 },
        );
        proof {
            assert(self@.hydra.inst_headers =~= target.inst_headers);
            assert(self@.hydra.sample_headers =~= target.sample_headers);
            assert(self@.hydra.sample_data =~= target.sample_data);
            assert(self@.hydra.preset_headers =~= target.preset_headers);
            assert(self@.hydra == target);
        }
        Ok(())
    }

    /// Appends one preset.
    fn add_preset(&mut self, preset: &PrePreset) -> (outcome: Result<(), CompilerError>)
        requires
            old(self).counted(),
            old(self)@.hydra.ready(),
        ensures
            match outcome {
                Ok(_) => {
                    &&& final(self).counted()
                    &&& final(self)@.hydra.ready()
                    &&& final(self)@ == (FontDataView {
                        hydra: old(self)@.hydra.add_preset(preset@),
                        ..old(self)@
                    })
                },
                Err(error) => {
                    &&& error == CompilerError::BankTooLarge
                    &&& !old(self)@.hydra.add_preset(preset@).fits()
                },
            },
    {
        let ghost before = self@.hydra;
        let ghost target = before.add_preset(preset@);
        let name = preset.name();
        let zones = preset.zones();
        let pbag_idx = self.preset_zones.len() as u16;
        let mut k: usize = 0;
        while k < zones.len()
            invariant
                k <= zones@.len(),
                preset_zone_views(zones@) == preset@.zones,
                before == old(self)@.hydra,
                target == before.add_preset(preset@),
                self.counted(),
                self@.hydra.ready(),
                self@ == (FontDataView {
                    hydra: before.add_instruments(preset@.zones.take(k as int)),
                    ..old(self)@
                }),
            decreases zones@.len() - k,
        {
            proof {
                lemma_add_instruments_grows(before, preset@.zones, k as int);
                lemma_add_instruments_grows(before, preset@.zones, k + 1);
                lemma_add_preset_grows(before, preset@);
            }
            match self.add_instrument(zones[k].instrument()) {
                Ok(()) => {},
                Err(error) => {
                    proof {
                        let reached = before.add_instruments(preset@.zones.take(k + 1));
                        if target.fits() {
                            lemma_fits_earlier(target, before.add_instruments(preset@.zones));
                            lemma_fits_earlier(before.add_instruments(preset@.zones), reached);
                        }
                    }
                    return Err(error);
                },
            }
            k += 1;
        }
        assert(preset@.zones.take(k as int) =~= preset@.zones);
        self.preset_headers.push(
            PresetHeader {
                name: name.clone(),
                preset: preset.midi_preset(),
                bank: preset.midi_bank(),
                pbag_idx,
                library: 0,
                genre: 0,
                morphology: 0,
            },
        );
        proof {
            assert(self@.hydra.preset_headers =~= target.preset_headers);
            assert(self@.hydra.inst_headers =~= target.inst_headers);
            assert(self@.hydra.sample_headers =~= target.sample_headers);
            assert(self@.hydra.sample_data =~= target.sample_data);
            assert(self@.hydra == target);
        }
        Ok(())
    }

    /// Assembles the lists of the bank of the presets `presets`, in one walk
    /// over the presets, the zones of each and the zones of their
    /// instruments, and keeps `info_list` as the bank's metadata.
    ///
    /// A bank whose lists outgrow the indices of the format is refused.
    pub fn assemble(info_list: Option<InfoList>, presets: &Vec<PrePreset>) -> (outcome: Result<
        FontData,
        CompilerError,
    >)
        ensures
            match outcome {
                Ok(font) => {
                    &&& font@.info == optional_info(info_list)
                    &&& font@.hydra == bank_lists(preset_views(presets@))
                    &&& font@.hydra.ready()
                },
                Err(error) => {
                    &&& error == CompilerError::BankTooLarge
                    &&& !bank_lists(preset_views(presets@)).fits()
                },
            },
    {
        let mut font = FontData {
            info_list,
            preset_headers: Vec::new(),
            preset_zones: Vec::new(),
            preset_gens: Vec::new(),
            inst_headers: Vec::new(),
            inst_zones: Vec::new(),
            inst_gens: Vec::new(),
            samples: Vec::new(),
            buffer_points: 0,
        };
        let ghost all = preset_views(presets@);
        let ghost target = assembled(all);
        proof {
            lemma_walk_builds_bank_lists(all);
            assert(font@.hydra.preset_headers =~= HydraView::empty().preset_headers);
            assert(font@.hydra.inst_headers =~= HydraView::empty().inst_headers);
            assert(font@.hydra.sample_headers =~= HydraView::empty().sample_headers);
            assert(font@.hydra.sample_data =~= HydraView::empty().sample_data);
            assert(font@.hydra == HydraView::empty());
            assert(all.take(0) =~= Seq::<PrePresetView>::empty());
        }
        let mut k: usize = 0;
        while k < presets.len()
            invariant
                k <= presets@.len(),
                all == preset_views(presets@),
                target == assembled(all),
                target == bank_lists(all),
                font.counted(),
                font@.hydra.ready(),
                font@.info == optional_info(info_list),
                font@.hydra == HydraView::empty().add_presets(all.take(k as int)),
            decreases presets@.len() - k,
        {
            proof {
                lemma_add_presets_grows(HydraView::empty(), all, k as int);
                lemma_add_presets_grows(HydraView::empty(), all, k + 1);
            }
            match font.add_preset(&presets[k]) {
                Ok(()) => {},
                Err(error) => {
                    proof {
                        let reached = HydraView::empty().add_presets(all.take(k + 1));
                        if target.fits() {
                            lemma_fits_earlier(target, reached);
                        }
                    }
                    return Err(error);
                },
            }
            k += 1;
        }
        assert(all.take(k as int) =~= all);
        Ok(font)
    }

    /// Lays the samples out in one buffer, each followed by silence, moves
    /// every sample header to its sample's place in the buffer, and closes
    /// each list with its terminal record.
    ///
    /// The lists are those of a bank that has been assembled and not yet
    /// laid out, and the bank has metadata.
    pub fn generate_soundfont(&mut self) -> (font: SoundFont2)
        requires
            old(self)@.hydra.ready(),
            old(self)@.info is Some,
        ensures
            font@ == old(self)@.hydra.bank(old(self)@.info->0),
            font@.pdta.encodable(),
            final(self)@ == (FontDataView {
                hydra: HydraView {
                    sample_headers: relocated(
                        old(self)@.hydra.sample_headers,
                        old(self)@.hydra.sample_data,
                    ),
                    ..old(self)@.hydra
                },
                ..old(self)@
            }),
    {
        let ghost before = self@.hydra;
        let ghost data = before.sample_data;
        let info = self.info_list.as_ref().unwrap().clone();
        let mut smpl: Vec<i16> = Vec::new();
        let mut k: usize = 0;
        assert(data.take(0) =~= Seq::<Seq<i16>>::empty());
        while k < self.samples.len()
            invariant
                k <= self.samples@.len(),
                before == old(self)@.hydra,
                before.ready(),
                data == before.sample_data,
                self.samples@.len() == data.len(),
                smpl@ == sample_buffer(data.take(k as int)),
                forall|i: int|
                    0 <= i < k ==> (#[trigger] self.samples@[i]).header@ == shifted(
                        before.sample_headers[i],
                        buffer_len(data.take(i)),
                    ),
                forall|i: int|
                    k <= i < data.len() ==> (#[trigger] self.samples@[i]).header@
                        == before.sample_headers[i],
                forall|i: int| 0 <= i < data.len() ==> (#[trigger] self.samples@[i]).data@ == data[i],
                self.info_list == old(self).info_list,
                self.preset_headers == old(self).preset_headers,
                self.preset_zones == old(self).preset_zones,
                self.preset_gens == old(self).preset_gens,
                self.inst_headers == old(self).inst_headers,
                self.inst_zones == old(self).inst_zones,
                self.inst_gens == old(self).inst_gens,
            decreases self.samples@.len() - k,
        {
            proof {
                lemma_sample_buffer_len(data.take(k as int));
                lemma_buffer_len_grows(data, k as int);
                assert(is_relative(before.sample_headers[k as int], data[k as int]));
                assert(data.take(k + 1).drop_last() =~= data.take(k as int));
            }
            let base = smpl.len() as u32;
            self.samples[k].header.start = self.samples[k].header.start + base;
            self.samples[k].header.end = self.samples[k].header.end + base;
            self.samples[k].header.startloop = self.samples[k].header.startloop + base;
            self.samples[k].header.endloop = self.samples[k].header.endloop + base;
            let mut points = self.samples[k].data.clone();
            assert(points@ =~= data[k as int]);
            smpl.append(&mut points);
            let mut padded: usize = 0;
            while padded < SAMPLE_PADDING_POINTS
                invariant
                    padded <= SAMPLE_PADDING_POINTS,
                    smpl@ == sample_buffer(data.take(k as int)) + data[k as int] + Seq::new(
                        padded as nat,
                        |i: int| 0i16,
                    ),
                decreases SAMPLE_PADDING_POINTS - padded,
            {
                smpl.push(0);
                padded += 1;
                assert(Seq::new(padded as nat, |i: int| 0i16) =~= Seq::new(
                    (padded - 1) as nat,
                    |i: int| 0i16,
                ).push(0i16));
            }
            k += 1;
        }
        assert(data.take(k as int) =~= data);
        let sdta = SdtaList::new(smpl, None);

        let phdr = closed_preset_headers(
            &self.preset_headers,
            PresetHeader {
                name: String::from_str("EOI"),
                preset: 0,
                bank: 0,
                pbag_idx: self.preset_zones.len() as u16,
                library: 0,
                genre: 0,
                morphology: 0,
            },
        );
        let mut pbag = PresetBag { contents: self.preset_zones.clone() };
        pbag.contents.push(PresetZone::new(self.preset_gens.len() as u16, 0));
        let mut pmod = PresetModList::new();
        pmod.contents.push(PresetMod::terminal());
        let mut pgen = PresetGenList { contents: self.preset_gens.clone() };
        pgen.contents.push(PresetGen::terminal());
        let inst = closed_instruments(
            &self.inst_headers,
            Instrument { name: String::from_str("EOI"), inst_bag_idx: self.inst_zones.len() as u16 },
        );
        let mut ibag = InstBag { contents: self.inst_zones.clone() };
        ibag.contents.push(InstZone::new(self.inst_gens.len() as u16, 0));
        let mut imod = InstModList::new();
        imod.contents.push(InstrumentMod::terminal());
        let mut igen = InstGenList { contents: self.inst_gens.clone() };
        igen.contents.push(InstrumentGen::terminal());
        let shdr = closed_sample_headers(&self.samples, SampleHeader::terminal());
        let pdta = PdtaList { phdr, pbag, pmod, pgen, inst, ibag, imod, igen, shdr };
        proof {
            let target = before.closed();
            assert(pdta@.phdr =~= target.phdr);
            assert(pdta@.pbag =~= target.pbag);
            assert(pdta@.pmod =~= target.pmod);
            assert(pdta@.pgen =~= target.pgen);
            assert(pdta@.inst =~= target.inst);
            assert(pdta@.ibag =~= target.ibag);
            assert(pdta@.imod =~= target.imod);
            assert(pdta@.igen =~= target.igen);
            assert(pdta@.shdr =~= target.shdr);
            assert(self@.hydra.sample_headers =~= relocated(before.sample_headers, data));
            assert(self@.hydra.sample_data =~= data);
            lemma_closed_lists_are_encodable(before);
        }
        SoundFont2::new(info, sdta, pdta)
    }

    /// What `from_descriptors` returns for `manifest` and `presets` when
    /// the bank is made at the time `created`. Where a string of the
    /// manifest is not fit for the metadata, that is the string's error.
    /// Otherwise it is the bank of the presets with the manifest's metadata,
    /// or the refusal of a bank that does not fit the format.
    pub open spec fn described(
        manifest: PreSoundFont,
        created: Seq<char>,
        presets: Seq<PrePresetView>,
        outcome: Result<FontData, CompilerError>,
    ) -> bool {
        match manifest.info_created(created) {
            Err(source) => outcome matches Err(error) && error == (CompilerError::SoundfontError {
                source,
            }),
            Ok(info) => match outcome {
                Ok(font) => {
                    &&& font@.info == Some(info)
                    &&& font@.hydra == bank_lists(presets)
                    &&& font@.hydra.ready()
                },
                Err(error) => {
                    &&& error == CompilerError::BankTooLarge
                    &&& !bank_lists(presets).fits()
                },
            },
        }
    }

    /// Assembles the lists of the bank of the presets `presets` and gives
    /// it the metadata that `manifest` describes, made now. Where the
    /// manifest holds a string that is not fit for the metadata, no bank is
    /// assembled and the error of that string is returned.
    pub fn from_descriptors(manifest: &PreSoundFont, presets: &Vec<PrePreset>) -> (outcome: Result<
        FontData,
        CompilerError,
    >)
        ensures
            exists|created: Seq<char>|
                string_check(created, TEXT_LIMIT) is Ok && #[trigger] FontData::described(
                    *manifest,
                    created,
                    preset_views(presets@),
                    outcome,
                ),
    {
        match manifest.generate_infolist() {
            Ok(info) => {
                let ghost created = choose|created: Seq<char>|
                    string_check(created, TEXT_LIMIT) is Ok && #[trigger] manifest.info_created(
                        created,
                    ) == Ok::<InfoListView, SoundfontError>(info@);
                let outcome = FontData::assemble(Some(info), presets);
                assert(FontData::described(*manifest, created, preset_views(presets@), outcome));
                outcome
            },
            Err(source) => {
                let ghost created = choose|created: Seq<char>|
                    string_check(created, TEXT_LIMIT) is Ok && #[trigger] manifest.info_created(
                        created,
                    ) == Err::<InfoListView, SoundfontError>(source);
                let outcome = Err(CompilerError::from(source));
                assert(FontData::described(*manifest, created, preset_views(presets@), outcome));
                outcome
            },
        }
    }

    /// Whether the lists can be laid out and closed: they are as they were
    /// assembled, with every sample header still relative to its sample.
    pub fn is_ready(&self) -> (ready: bool)
        ensures
            ready == self@.hydra.ready(),
    {
        if self.preset_zones.len() > MAX_INDEX || self.preset_gens.len() > MAX_INDEX
            || self.inst_headers.len() > MAX_INDEX || self.inst_zones.len() > MAX_INDEX
            || self.inst_gens.len() > MAX_INDEX || self.samples.len() > MAX_INDEX {
            return false;
        }
        let ghost lists = self@.hydra;
        let mut i: usize = 0;
        while i < self.preset_headers.len()
            invariant
                i <= self.preset_headers@.len(),
                lists == self@.hydra,
                forall|j: int| 0 <= j < i ==> (#[trigger] lists.preset_headers[j]).encodable(),
            decreases self.preset_headers@.len() - i,
        {
            assert(lists.preset_headers[i as int] == self.preset_headers@[i as int]@);
            if !self.preset_headers[i].is_encodable() {
                return false;
            }
            i += 1;
        }
        let mut i: usize = 0;
        while i < self.inst_headers.len()
            invariant
                i <= self.inst_headers@.len(),
                lists == self@.hydra,
                forall|j: int| 0 <= j < i ==> (#[trigger] lists.inst_headers[j]).encodable(),
            decreases self.inst_headers@.len() - i,
        {
            assert(lists.inst_headers[i as int] == self.inst_headers@[i as int]@);
            if !self.inst_headers[i].is_encodable() {
                return false;
            }
            i += 1;
        }
        let terminal_name = String::from_str("EOS");
        let mut total: usize = 0;
        let mut k: usize = 0;
        assert(lists.sample_data.take(0) =~= Seq::<Seq<i16>>::empty());
        while k < self.samples.len()
            invariant
                k <= self.samples@.len(),
                lists == self@.hydra,
                terminal_name@ == crate::soundfont::pdta::terminal_sample_name(),
                total == buffer_len(lists.sample_data.take(k as int)),
                total <= MAX_POINTS,
                forall|j: int| 0 <= j < k ==> (#[trigger] lists.sample_headers[j]).encodable(),
                forall|j: int|
                    0 <= j < k ==> is_relative(
                        #[trigger] lists.sample_headers[j],
                        lists.sample_data[j],
                    ),
            decreases self.samples@.len() - k,
        {
            let sample = &self.samples[k];
            proof {
                assert(lists.sample_headers[k as int] == sample.header@);
                assert(lists.sample_data[k as int] == sample.data@);
                lemma_buffer_len_grows(lists.sample_data, k as int);
                lemma_buffer_len_grows(lists.sample_data, k + 1);
                assert(lists.sample_data.take(k + 1).drop_last() =~= lists.sample_data.take(
                    k as int,
                ));
            }
            let points = sample.data.len();
            if total > MAX_POINTS - SAMPLE_PADDING_POINTS || points > MAX_POINTS
                - SAMPLE_PADDING_POINTS - total {
                return false;
            }
            if !sample.header.is_encodable() || points < 48 || sample.header.start != 0
                || sample.header.end as usize != points || sample.header.startloop != 8
                || sample.header.endloop != sample.header.end - 8 || sample.header.name
                == terminal_name {
                return false;
            }
            total = total + points + SAMPLE_PADDING_POINTS;
            k += 1;
        }
        assert(lists.sample_data.take(k as int) =~= lists.sample_data);
        true
    }

    /// The samples of the bank, in the order of their headers.
    pub fn samples(&self) -> (samples: &Vec<SampleWrap>)
        ensures
            samples@.len() == self@.hydra.sample_headers.len(),
            samples@.len() == self@.hydra.sample_data.len(),
            forall|k: int|
                0 <= k < samples@.len() ==> (#[trigger] samples@[k]).spec_header()
                    == self@.hydra.sample_headers[k] && samples@[k].spec_data()
                    == self@.hydra.sample_data[k],
    {
        &self.samples
    }

    /// The metadata of the bank, if it has any.
    pub fn info_list(&self) -> (info: Option<&InfoList>)
        ensures
            match info {
                Some(list) => self@.info == Some(list@),
                None => self@.info is None,
            },
    {
        match &self.info_list {
            Some(list) => Some(list),
            None => None,
        }
    }
}

} // verus!
