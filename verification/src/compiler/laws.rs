//! What holds of every bank that is compiled.

use super::hydra::{
    bank_lists, buffer_len, instruments_of, is_relative, lemma_buffer_len_grows,
    lemma_sample_buffer_len, lemma_terminal_names_fit, relative_header, relocated, sample_buffer,
    sample_zones_of, shifted, terminal_name, HydraView, INSTRUMENT_OPERATOR, MAX_POINTS,
    SAMPLE_OPERATOR,
};
use super::preprocess_formats::{
    preset_views, sample_zone_check, PreInstZoneView, PreInstrumentView, PrePreset, PrePresetView,
};
use crate::soundfont::bytes::NAME_WIDTH;
use crate::soundfont::info::{string_check, InfoList, InfoListView};
use crate::soundfont::pdta::{
    lemma_chunks_hold_whole_records, terminal_sample_name, GenAmountType, InstrumentGen,
    InstrumentMod, PresetGen, PresetMod, SampleHeaderView, IBAG_WIDTH, IGEN_WIDTH, IMOD_WIDTH,
    INST_WIDTH, PBAG_WIDTH, PGEN_WIDTH, PHDR_WIDTH, PMOD_WIDTH, SHDR_WIDTH,
};
use crate::soundfont::record::{body, Record};
use crate::soundfont::{SoundFont2View, SoundfontError};
use vstd::prelude::*;
use vstd::utf8::{encode_utf8, is_ascii_chars};

verus! {

/// The bank that is compiled from the metadata `info` and the presets
/// `presets`: the metadata, the samples in one buffer, and the closed lists.
pub open spec fn compiled(info: InfoListView, presets: Seq<PrePresetView>) -> SoundFont2View {
    bank_lists(presets).bank(info)
}

/// Every preset is valid.
pub open spec fn all_valid(presets: Seq<PrePresetView>) -> bool {
    forall|i: int| 0 <= i < presets.len() ==> (#[trigger] presets[i]).valid()
}

/// The instruments of some of the presets come first among the instruments
/// of all.
pub proof fn lemma_instruments_of_take(presets: Seq<PrePresetView>, n: int)
    requires
        0 <= n <= presets.len(),
    ensures
        instruments_of(presets.take(n)).len() <= instruments_of(presets).len(),
        instruments_of(presets.take(n)) == instruments_of(presets).take(
            instruments_of(presets.take(n)).len() as int,
        ),
        n < presets.len() ==> instruments_of(presets.take(n + 1)) == instruments_of(
            presets.take(n),
        ) + presets[n].zones,
    decreases presets.len(),
{
    if n < presets.len() {
        assert(presets.take(n + 1).drop_last() =~= presets.take(n));
    }
    if n == presets.len() {
        assert(presets.take(n) =~= presets);
        assert(instruments_of(presets).take(instruments_of(presets).len() as int)
            =~= instruments_of(presets));
    } else {
        assert(presets.drop_last().take(n) =~= presets.take(n));
        lemma_instruments_of_take(presets.drop_last(), n);
        let part = instruments_of(presets.take(n));
        let most = instruments_of(presets.drop_last());
        assert(part =~= instruments_of(presets).take(part.len() as int));
    }
}

/// The zones of some of the instruments come first among the zones of all.
pub proof fn lemma_sample_zones_of_take(instruments: Seq<PreInstrumentView>, n: int)
    requires
        0 <= n <= instruments.len(),
    ensures
        sample_zones_of(instruments.take(n)).len() <= sample_zones_of(instruments).len(),
        sample_zones_of(instruments.take(n)) == sample_zones_of(instruments).take(
            sample_zones_of(instruments.take(n)).len() as int,
        ),
        n < instruments.len() ==> sample_zones_of(instruments.take(n + 1)) == sample_zones_of(
            instruments.take(n),
        ) + instruments[n].zones,
    decreases instruments.len(),
{
    if n < instruments.len() {
        assert(instruments.take(n + 1).drop_last() =~= instruments.take(n));
    }
    if n == instruments.len() {
        assert(instruments.take(n) =~= instruments);
        assert(sample_zones_of(instruments).take(sample_zones_of(instruments).len() as int)
            =~= sample_zones_of(instruments));
    } else {
        assert(instruments.drop_last().take(n) =~= instruments.take(n));
        lemma_sample_zones_of_take(instruments.drop_last(), n);
        let part = sample_zones_of(instruments.take(n));
        assert(part =~= sample_zones_of(instruments).take(part.len() as int));
    }
}

/// Every list of the file is the list of the bank and one terminal record
/// after it. The terminal preset header and the terminal instrument point
/// behind the last real zone, and the terminal zones behind the last real
/// generator; the modulator lists hold their terminal alone, so a zone's
/// modulator index 0 points at it.
pub proof fn lemma_lists_end_in_their_terminal(lists: HydraView)
    requires
        lists.fits(),
    ensures
        ({
            let file = lists.closed();
            &&& file.phdr.drop_last() == lists.preset_headers
            &&& file.phdr.last().name == terminal_name()
            &&& file.phdr.last().pbag_idx == file.pbag.len() - 1
            &&& file.pbag.drop_last() == lists.preset_zones
            &&& file.pbag.last().gen_idx == file.pgen.len() - 1
            &&& file.pbag.last().mod_idx == file.pmod.len() - 1
            &&& file.pmod == seq![PresetMod {}]
            &&& file.pgen.drop_last() == lists.preset_gens
            &&& file.pgen.last() == (PresetGen {
                sf_gen_oper: 0,
                gen_amount: GenAmountType::Signed(0),
            })
            &&& file.inst.drop_last() == lists.inst_headers
            &&& file.inst.last().name == terminal_name()
            &&& file.inst.last().inst_bag_idx == file.ibag.len() - 1
            &&& file.ibag.drop_last() == lists.inst_zones
            &&& file.ibag.last().gen_idx == file.igen.len() - 1
            &&& file.ibag.last().mod_idx == file.imod.len() - 1
            &&& file.imod == seq![InstrumentMod {}]
            &&& file.igen.drop_last() == lists.inst_gens
            &&& file.igen.last() == (InstrumentGen {
                sf_gen_oper: 0,
                gen_amount: GenAmountType::Signed(0),
            })
            &&& file.shdr.drop_last() == relocated(lists.sample_headers, lists.sample_data)
            &&& file.shdr.last() == SampleHeaderView::terminal()
        }),
{
    let file = lists.closed();
    assert(file.phdr.drop_last() =~= lists.preset_headers);
    assert(file.pbag.drop_last() =~= lists.preset_zones);
    assert(file.pgen.drop_last() =~= lists.preset_gens);
    assert(file.inst.drop_last() =~= lists.inst_headers);
    assert(file.ibag.drop_last() =~= lists.inst_zones);
    assert(file.igen.drop_last() =~= lists.inst_gens);
    assert(file.shdr.drop_last() =~= relocated(lists.sample_headers, lists.sample_data));
}

/// No record before the last can be taken for the terminal record of a
/// generator list, of a zone list or of the sample headers: a real generator
/// has an operator, a real zone begins before the terminal zone does, and a
/// real sample header has another name and is not null.
pub proof fn lemma_terminal_is_the_only_one(presets: Seq<PrePresetView>)
    requires
        bank_lists(presets).ready(),
    ensures
        ({
            let file = bank_lists(presets).closed();
            &&& forall|i: int|
                0 <= i < file.pgen.len() - 1 ==> (#[trigger] file.pgen[i]) != file.pgen.last()
            &&& forall|i: int|
                0 <= i < file.igen.len() - 1 ==> (#[trigger] file.igen[i]) != file.igen.last()
            &&& forall|i: int|
                0 <= i < file.pbag.len() - 1 ==> (#[trigger] file.pbag[i]) != file.pbag.last()
            &&& forall|i: int|
                0 <= i < file.ibag.len() - 1 ==> (#[trigger] file.ibag[i]) != file.ibag.last()
            &&& forall|i: int|
                0 <= i < file.shdr.len() - 1 ==> (#[trigger] file.shdr[i]).name
                    != terminal_sample_name() && !file.shdr[i].is_null()
        }),
{
    let lists = bank_lists(presets);
    let file = lists.closed();
    assert forall|i: int| 0 <= i < file.shdr.len() - 1 implies (#[trigger] file.shdr[i]).name
        != terminal_sample_name() && !file.shdr[i].is_null() by {
        assert(is_relative(lists.sample_headers[i], lists.sample_data[i]));
        lemma_buffer_len_grows(lists.sample_data, i);
    }
}

/// The zones of a preset are those between where its header points and
/// where the next header points, the terminal header standing for the next
/// after the last preset. There are as many as the preset has zones. Each
/// begins at one generator of its own, which names the instrument of the
/// same index; that instrument exists, and it is the one that the zone
/// plays.
pub proof fn lemma_preset_zone_ranges(presets: Seq<PrePresetView>, i: int)
    requires
        bank_lists(presets).fits(),
        0 <= i < presets.len(),
    ensures
        ({
            let file = bank_lists(presets).closed();
            let first = file.phdr[i].pbag_idx as int;
            let next = file.phdr[i + 1].pbag_idx as int;
            &&& file.phdr[i].name == presets[i].name
            &&& file.phdr[i].preset == presets[i].midi_preset
            &&& file.phdr[i].bank == presets[i].midi_bank
            &&& 0 <= first <= next <= file.pbag.len() - 1
            &&& next - first == presets[i].zones.len()
            &&& file.pgen.len() == file.pbag.len()
            &&& file.inst.len() == file.pbag.len()
            &&& forall|z: int|
                first <= z < next ==> {
                    &&& (#[trigger] file.pbag[z]).gen_idx == z
                    &&& file.pbag[z + 1].gen_idx == z + 1
                    &&& file.pbag[z].mod_idx == 0
                    &&& file.pgen[z] == (PresetGen {
                        sf_gen_oper: INSTRUMENT_OPERATOR,
                        gen_amount: GenAmountType::Unsigned(z as u16),
                    })
                    &&& z < file.inst.len() - 1
                    &&& file.inst[z].name == presets[i].zones[z - first].name
                }
        }),
{
    let lists = bank_lists(presets);
    let file = lists.closed();
    let instruments = instruments_of(presets);
    lemma_instruments_of_take(presets, i);
    lemma_instruments_of_take(presets, i + 1);
    if i + 1 == presets.len() {
        assert(presets.take(i + 1) =~= presets);
    }
    let first = instruments_of(presets.take(i)).len() as int;
    let next = instruments_of(presets.take(i + 1)).len() as int;
    assert(file.phdr[i] == lists.preset_headers[i]);
    assert(file.phdr[i].pbag_idx == first);
    assert(file.phdr[i + 1].pbag_idx == next);
    assert forall|z: int| first <= z < next implies {
        &&& (#[trigger] file.pbag[z]).gen_idx == z
        &&& file.pbag[z + 1].gen_idx == z + 1
        &&& file.pbag[z].mod_idx == 0
        &&& file.pgen[z] == (PresetGen {
            sf_gen_oper: INSTRUMENT_OPERATOR,
            gen_amount: GenAmountType::Unsigned(z as u16),
        })
        &&& z < file.inst.len() - 1
        &&& file.inst[z].name == presets[i].zones[z - first].name
    } by {
        assert(file.pbag[z] == lists.preset_zones[z]);
        assert(file.inst[z] == lists.inst_headers[z]);
        assert(instruments[z] == instruments_of(presets.take(i + 1))[z]);
        assert(instruments_of(presets.take(i + 1))[z] == presets[i].zones[z - first]);
    }
}

/// The zones of an instrument are those between where it points and where
/// the next instrument points, the terminal instrument standing for the next
/// after the last. There are as many as the instrument has zones. Each
/// begins at one generator of its own, which names the sample of the same
/// index; that sample exists, and it is the one that the zone plays.
pub proof fn lemma_instrument_zone_ranges(presets: Seq<PrePresetView>, j: int)
    requires
        bank_lists(presets).fits(),
        0 <= j < instruments_of(presets).len(),
    ensures
        ({
            let file = bank_lists(presets).closed();
            let instrument = instruments_of(presets)[j];
            let first = file.inst[j].inst_bag_idx as int;
            let next = file.inst[j + 1].inst_bag_idx as int;
            &&& file.inst[j].name == instrument.name
            &&& 0 <= first <= next <= file.ibag.len() - 1
            &&& next - first == instrument.zones.len()
            &&& file.igen.len() == file.ibag.len()
            &&& file.shdr.len() == file.ibag.len()
            &&& forall|z: int|
                first <= z < next ==> {
                    &&& (#[trigger] file.ibag[z]).gen_idx == z
                    &&& file.ibag[z + 1].gen_idx == z + 1
                    &&& file.ibag[z].mod_idx == 0
                    &&& file.igen[z] == (InstrumentGen {
                        sf_gen_oper: SAMPLE_OPERATOR,
                        gen_amount: GenAmountType::Unsigned(z as u16),
                    })
                    &&& z < file.shdr.len() - 1
                    &&& file.shdr[z].name == instrument.zones[z - first].sample
                }
        }),
{
    let lists = bank_lists(presets);
    let file = lists.closed();
    let instruments = instruments_of(presets);
    let zones = sample_zones_of(instruments);
    lemma_sample_zones_of_take(instruments, j);
    lemma_sample_zones_of_take(instruments, j + 1);
    if j + 1 == instruments.len() {
        assert(instruments.take(j + 1) =~= instruments);
    }
    let first = sample_zones_of(instruments.take(j)).len() as int;
    let next = sample_zones_of(instruments.take(j + 1)).len() as int;
    assert(file.inst[j] == lists.inst_headers[j]);
    assert(file.inst[j].inst_bag_idx == first);
    assert(file.inst[j + 1].inst_bag_idx == next);
    assert forall|z: int| first <= z < next implies {
        &&& (#[trigger] file.ibag[z]).gen_idx == z
        &&& file.ibag[z + 1].gen_idx == z + 1
        &&& file.ibag[z].mod_idx == 0
        &&& file.igen[z] == (InstrumentGen {
            sf_gen_oper: SAMPLE_OPERATOR,
            gen_amount: GenAmountType::Unsigned(z as u16),
        })
        &&& z < file.shdr.len() - 1
        &&& file.shdr[z].name == instruments[j].zones[z - first].sample
    } by {
        assert(file.ibag[z] == lists.inst_zones[z]);
        assert(file.shdr[z] == shifted(
            lists.sample_headers[z],
            buffer_len(lists.sample_data.take(z)),
        ));
        assert(zones[z] == sample_zones_of(instruments.take(j + 1))[z]);
        assert(sample_zones_of(instruments.take(j + 1))[z] == instruments[j].zones[z - first]);
    }
}

/// The samples lie in the buffer in the order of their headers and do not
/// overlap: a sample ends before the next begins. Every header, the
/// terminal one too, has its loop inside the sample and the sample inside
/// the buffer, and passes the rules on sample headers.
pub proof fn lemma_sample_offsets(lists: HydraView)
    requires
        lists.ready(),
    ensures
        ({
            let file = lists.closed();
            let samples = lists.sample_headers.len() as int;
            &&& file.shdr.len() == samples + 1
            &&& forall|a: int, b: int|
                0 <= a <= b < samples ==> (#[trigger] file.shdr[a]).start <= (
                #[trigger] file.shdr[b]).start
            &&& forall|a: int, b: int|
                0 <= a < b < samples ==> (#[trigger] file.shdr[a]).end <= (
                #[trigger] file.shdr[b]).start
            &&& forall|k: int|
                0 <= k <= samples ==> {
                    let header = #[trigger] file.shdr[k];
                    &&& header.start <= header.startloop <= header.endloop <= header.end
                    &&& header.end <= sample_buffer(lists.sample_data).len()
                    &&& header.check() is Ok
                }
        }),
{
    let file = lists.closed();
    let data = lists.sample_data;
    let samples = lists.sample_headers.len() as int;
    lemma_sample_buffer_len(data);
    assert forall|k: int| 0 <= k < samples implies {
        let header = #[trigger] file.shdr[k];
        &&& header.start == buffer_len(data.take(k))
        &&& header.end == header.start + data[k].len()
        &&& header.startloop == header.start + 8
        &&& header.endloop == header.end - 8
        &&& header.end <= buffer_len(data)
        &&& header.name != terminal_sample_name()
    } by {
        assert(is_relative(lists.sample_headers[k], data[k]));
        lemma_buffer_len_grows(data, k);
    }
    assert forall|a: int, b: int| 0 <= a < b < samples implies (#[trigger] file.shdr[a]).end <= (
    #[trigger] file.shdr[b]).start by {
        lemma_buffer_len_grows(data.take(b), a);
        assert(data.take(b).take(a) =~= data.take(a));
    }
    assert forall|a: int, b: int| 0 <= a <= b < samples implies (#[trigger] file.shdr[a]).start <= (
    #[trigger] file.shdr[b]).start by {
        if a < b {
            assert(file.shdr[a].end <= file.shdr[b].start);
        }
    }
    assert forall|k: int| 0 <= k <= samples implies {
        let header = #[trigger] file.shdr[k];
        &&& header.start <= header.startloop <= header.endloop <= header.end
        &&& header.end <= sample_buffer(lists.sample_data).len()
        &&& header.check() is Ok
    } by {
        if k < samples {
            assert(is_relative(lists.sample_headers[k], data[k]));
        }
    }
}

/// Lists that are ready can be closed and encoded: each closed list holds a
/// record, and every name in it fits its field.
pub proof fn lemma_closed_lists_are_encodable(lists: HydraView)
    requires
        lists.ready(),
    ensures
        lists.closed().encodable(),
{
    let file = lists.closed();
    lemma_terminal_names_fit();
    assert forall|i: int| 0 <= i < file.phdr.len() implies (#[trigger] file.phdr[i]).encodable() by {
        if i < lists.preset_headers.len() {
            assert(lists.preset_headers[i].encodable());
        }
    }
    assert forall|i: int| 0 <= i < file.inst.len() implies (#[trigger] file.inst[i]).encodable() by {
        if i < lists.inst_headers.len() {
            assert(lists.inst_headers[i].encodable());
        }
    }
    assert forall|i: int| 0 <= i < file.shdr.len() implies (#[trigger] file.shdr[i]).encodable() by {
        if i < lists.sample_headers.len() {
            assert(lists.sample_headers[i].encodable());
        }
    }
}

/// The lists of a bank of valid presets are ready to be closed and written
/// as soon as they fit the format.
pub proof fn lemma_valid_presets_make_ready_lists(presets: Seq<PrePresetView>)
    requires
        all_valid(presets),
        bank_lists(presets).fits(),
    ensures
        bank_lists(presets).ready(),
{
    let lists = bank_lists(presets);
    let instruments = instruments_of(presets);
    let zones = sample_zones_of(instruments);
    lemma_instruments_are_valid(presets);
    lemma_sample_zones_are_valid(instruments);
    assert forall|i: int| 0 <= i < lists.preset_headers.len() implies (
    #[trigger] lists.preset_headers[i]).encodable() by {
        assert(presets[i].valid());
    }
    assert forall|i: int| 0 <= i < lists.inst_headers.len() implies (
    #[trigger] lists.inst_headers[i]).encodable() by {
        assert(instruments[i].valid());
    }
    assert forall|k: int| 0 <= k < lists.sample_headers.len() implies (
    #[trigger] lists.sample_headers[k]).encodable() && is_relative(
        lists.sample_headers[k],
        lists.sample_data[k],
    ) by {
        assert(zones[k].valid());
        lemma_buffer_len_grows(lists.sample_data, k);
    }
}

/// Every bank that is compiled from valid presets whose lists fit the format
/// can be encoded, and each chunk of its preset data is a whole number of
/// records of its list's width, at least one.
pub proof fn lemma_compiled_chunks_hold_whole_records(
    info: InfoListView,
    presets: Seq<PrePresetView>,
)
    requires
        all_valid(presets),
        bank_lists(presets).fits(),
    ensures
        ({
            let file = compiled(info, presets).pdta;
            &&& file.encodable()
            &&& body(file.phdr).len() == PHDR_WIDTH * file.phdr.len() > 0
            &&& body(file.pbag).len() == PBAG_WIDTH * file.pbag.len() > 0
            &&& body(file.pmod).len() == PMOD_WIDTH * file.pmod.len() > 0
            &&& body(file.pgen).len() == PGEN_WIDTH * file.pgen.len() > 0
            &&& body(file.inst).len() == INST_WIDTH * file.inst.len() > 0
            &&& body(file.ibag).len() == IBAG_WIDTH * file.ibag.len() > 0
            &&& body(file.imod).len() == IMOD_WIDTH * file.imod.len() > 0
            &&& body(file.igen).len() == IGEN_WIDTH * file.igen.len() > 0
            &&& body(file.shdr).len() == SHDR_WIDTH * file.shdr.len() > 0
        }),
{
    lemma_valid_presets_make_ready_lists(presets);
    lemma_closed_lists_are_encodable(bank_lists(presets));
    lemma_chunks_hold_whole_records(compiled(info, presets).pdta);
}

/// The instruments of valid presets are valid.
pub proof fn lemma_instruments_are_valid(presets: Seq<PrePresetView>)
    requires
        all_valid(presets),
    ensures
        forall|j: int|
            0 <= j < instruments_of(presets).len() ==> (#[trigger] instruments_of(
                presets,
            )[j]).valid(),
    decreases presets.len(),
{
    if presets.len() > 0 {
        let most = presets.drop_last();
        assert forall|i: int| 0 <= i < most.len() implies (#[trigger] most[i]).valid() by {
            assert(presets[i].valid());
        }
        lemma_instruments_are_valid(most);
        assert(presets.last().valid());
        assert forall|j: int| 0 <= j < instruments_of(presets).len() implies (
        #[trigger] instruments_of(presets)[j]).valid() by {
            if j < instruments_of(most).len() {
                assert(instruments_of(presets)[j] == instruments_of(most)[j]);
            } else {
                assert(instruments_of(presets)[j] == presets.last().zones[j - instruments_of(
                    most,
                ).len()]);
            }
        }
    }
}

/// The zones of valid instruments are valid.
pub proof fn lemma_sample_zones_are_valid(instruments: Seq<PreInstrumentView>)
    requires
        forall|j: int| 0 <= j < instruments.len() ==> (#[trigger] instruments[j]).valid(),
    ensures
        forall|k: int|
            0 <= k < sample_zones_of(instruments).len() ==> (#[trigger] sample_zones_of(
                instruments,
            )[k]).valid(),
    decreases instruments.len(),
{
    if instruments.len() > 0 {
        let most = instruments.drop_last();
        assert forall|j: int| 0 <= j < most.len() implies (#[trigger] most[j]).valid() by {
            assert(instruments[j].valid());
        }
        lemma_sample_zones_are_valid(most);
        assert(instruments.last().valid());
        assert forall|k: int| 0 <= k < sample_zones_of(instruments).len() implies (
        #[trigger] sample_zones_of(instruments)[k]).valid() by {
            if k < sample_zones_of(most).len() {
                assert(sample_zones_of(instruments)[k] == sample_zones_of(most)[k]);
            } else {
                assert(sample_zones_of(instruments)[k] == instruments.last().zones[k
                    - sample_zones_of(most).len()]);
            }
        }
    }
}

/// A name longer than the name field is refused for a preset, for an
/// instrument and for a sample alike.
pub proof fn lemma_overlong_name_is_refused(name: Seq<char>, points: nat)
    requires
        encode_utf8(name).len() > NAME_WIDTH,
    ensures
        string_check(name, NAME_WIDTH) is Err,
        sample_zone_check(name, points) == string_check(name, NAME_WIDTH),
        is_ascii_chars(name) ==> string_check(name, NAME_WIDTH) == Err::<(), SoundfontError>(
            SoundfontError::StringLimit { limit: NAME_WIDTH, len: encode_utf8(name).len() as usize },
        ),
{
}

/// A sample is accepted into a zone when its header passes the rules on
/// sample headers, and refused with the rule that the header breaks: for a
/// name that fits the name field, the check of the zone is the check of its
/// header.
pub proof fn lemma_sample_zone_check_is_the_header_check(zone: PreInstZoneView)
    requires
        string_check(zone.sample, NAME_WIDTH) is Ok,
        zone.points.len() <= MAX_POINTS,
    ensures
        sample_zone_check(zone.sample, zone.points.len()) == relative_header(zone).check(),
{
}

/// Compiling is repeatable: what is compiled depends on nothing but what
/// the metadata and the presets hold. Two descriptions that hold the same
/// are compiled to the same bank, and that bank is laid out as the same
/// chunk tree.
pub proof fn lemma_compilation_is_repeatable(
    first_info: InfoList,
    first: Seq<PrePreset>,
    second_info: InfoList,
    second: Seq<PrePreset>,
)
    requires
        first_info@ == second_info@,
        preset_views(first) == preset_views(second),
    ensures
        compiled(first_info@, preset_views(first)) == compiled(
            second_info@,
            preset_views(second),
        ),
        compiled(first_info@, preset_views(first)).riff_model() == compiled(
            second_info@,
            preset_views(second),
        ).riff_model(),
{
}

} // verus!
