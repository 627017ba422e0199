use riff::{ChunkContents, ChunkId};
use soundfont_compiler::compiler::hydra::SAMPLE_PADDING_POINTS;
use soundfont_compiler::compiler::{
    self, CompilerError, FontData, PreInstZone, PreInstrument, PrePreset, PrePresetZone,
    PreSoundFont, SampleDescriptor,
};
use soundfont_compiler::soundfont::info::InfoList;
use soundfont_compiler::soundfont::pdta::{GenAmountType, SampleHeader};
use soundfont_compiler::soundfont::{SoundFont2, SoundfontError};
use std::io::Cursor;

fn ramp(points: usize) -> Vec<i16> {
    (0..points).map(|i| (i as i16) - 50).collect()
}

fn zone(sample: &str, points: usize) -> PreInstZone {
    PreInstZone::new(
        sample.to_string(),
        60,
        0,
        SampleDescriptor { data: ramp(points), sample_rate: 44100 },
    )
    .unwrap()
}

fn instrument(name: &str, zones: Vec<PreInstZone>) -> PrePresetZone {
    PrePresetZone::new(PreInstrument::new(name.to_string(), zones).unwrap())
}

fn preset(name: &str, number: u16, bank: u16, zones: Vec<PrePresetZone>) -> PrePreset {
    PrePreset::new(name.to_string(), number, bank, zones).unwrap()
}

fn compile(presets: Vec<PrePreset>) -> SoundFont2 {
    compiler::compile(InfoList::default(), &presets).unwrap()
}

fn lead() -> Vec<PrePreset> {
    vec![preset("Lead", 0, 0, vec![instrument("Lead-Inst", vec![zone("lead.wav", 100)])])]
}

fn three_presets() -> Vec<PrePreset> {
    vec![
        preset(
            "Piano",
            0,
            0,
            vec![
                instrument("Grand", vec![zone("c3", 48), zone("c4", 60), zone("c5", 72)]),
                instrument("Upright", vec![zone("u3", 50)]),
            ],
        ),
        preset("Silence", 1, 0, vec![]),
        preset(
            "Strings",
            48,
            128,
            vec![
                instrument("Violin", vec![]),
                instrument("Cello", vec![zone("cello-lo", 100), zone("cello-hi", 200)]),
                instrument("Grand", vec![zone("c3", 48), zone("c4", 60), zone("c5", 72)]),
            ],
        ),
    ]
}

fn data_body(chunk: &ChunkContents, id: &[u8; 4]) -> Vec<u8> {
    match chunk {
        ChunkContents::Data(ChunkId { value }, body) if value == id => body.clone(),
        other => panic!("not the data chunk expected: {:?}", other),
    }
}

fn pdta_bodies(font: &SoundFont2) -> Vec<Vec<u8>> {
    let ids: [&[u8; 4]; 9] =
        [b"phdr", b"pbag", b"pmod", b"pgen", b"inst", b"ibag", b"imod", b"igen", b"shdr"];
    match font.pdta.to_riff() {
        ChunkContents::Children(list, form, children) => {
            assert_eq!(list, riff::LIST_ID);
            assert_eq!(form.value, *b"pdta");
            assert_eq!(children.len(), 9);
            children.iter().zip(ids.iter()).map(|(chunk, id)| data_body(chunk, id)).collect()
        }
        other => panic!("not a list: {:?}", other),
    }
}

fn file_bytes(font: &SoundFont2) -> Vec<u8> {
    let mut file = Cursor::new(Vec::new());
    font.to_riff().write(&mut file).unwrap();
    file.into_inner()
}

const WIDTHS: [usize; 9] = [38, 4, 4, 4, 22, 4, 4, 4, 46];

#[test]
fn one_preset_one_instrument_one_sample() {
    let font = compile(lead());
    let bodies = pdta_bodies(&font);
    assert_eq!(bodies[0].len(), 2 * 38);
    assert_eq!(bodies[1].len(), 2 * 4);
    assert_eq!(bodies[3].len(), 2 * 4);
    assert_eq!(bodies[4].len(), 2 * 22);
    assert_eq!(bodies[5].len(), 2 * 4);
    assert_eq!(bodies[7].len(), 2 * 4);
    assert_eq!(bodies[8].len(), 2 * 46);
    assert_eq!(bodies[2].len(), 4);
    assert_eq!(bodies[6].len(), 4);

    assert_eq!(font.sdta.smpl.len(), 100 + SAMPLE_PADDING_POINTS);
    assert_eq!(SAMPLE_PADDING_POINTS, 2);
    let smpl = match font.sdta.to_riff() {
        ChunkContents::Children(_, form, children) => {
            assert_eq!(form.value, *b"sdta");
            assert_eq!(children.len(), 1);
            data_body(&children[0], b"smpl")
        }
        other => panic!("not a list: {:?}", other),
    };
    assert_eq!(smpl.len(), (100 + 2) * 2);

    let phdr = &font.pdta.phdr.contents;
    assert_eq!(phdr[0].name, "Lead");
    assert_eq!((phdr[0].preset, phdr[0].bank, phdr[0].pbag_idx), (0, 0, 0));
    assert_eq!(phdr[1].name, "EOI");
    assert_eq!(phdr[1].pbag_idx, 1);

    let pgen = &font.pdta.pgen.contents;
    assert_eq!(pgen[0].sf_gen_oper, 41);
    assert_eq!(pgen[0].gen_amount, GenAmountType::Unsigned(0));
    assert_eq!(pgen[1].sf_gen_oper, 0);
    assert_eq!(pgen[1].gen_amount, GenAmountType::Signed(0));

    let inst = &font.pdta.inst.contents;
    assert_eq!(inst[0].name, "Lead-Inst");
    assert_eq!(inst[0].inst_bag_idx, 0);
    assert_eq!(inst[1].name, "EOI");
    assert_eq!(inst[1].inst_bag_idx, 1);

    let igen = &font.pdta.igen.contents;
    assert_eq!(igen[0].sf_gen_oper, 53);
    assert_eq!(igen[0].gen_amount, GenAmountType::Unsigned(0));
    assert_eq!(igen[1].sf_gen_oper, 0);

    let shdr = &font.pdta.shdr.contents;
    assert_eq!(shdr[0].name, "lead.wav");
    assert_eq!((shdr[0].start, shdr[0].end), (0, 100));
    assert_eq!((shdr[0].startloop, shdr[0].endloop), (8, 92));
    assert_eq!(shdr[0].sample_rate, 44100);
    assert_eq!((shdr[0].original_pitch, shdr[0].pitch_correction), (60, 0));
    assert_eq!((shdr[0].sample_link, shdr[0].sample_type), (0, 1));
    assert_eq!(shdr[1].name, "EOS");
}

#[test]
fn no_presets_leave_the_terminal_records() {
    let font = compile(vec![]);
    let bodies = pdta_bodies(&font);
    for (body, width) in bodies.iter().zip(WIDTHS.iter()) {
        assert_eq!(body.len(), *width);
    }
    assert_eq!(font.pdta.phdr.contents.len(), 1);
    assert_eq!(font.pdta.phdr.contents[0].name, "EOI");
    assert_eq!(font.pdta.phdr.contents[0].pbag_idx, 0);
    assert_eq!(font.pdta.pbag.contents[0].gen_idx, 0);
    assert_eq!(font.pdta.inst.contents[0].inst_bag_idx, 0);
    assert_eq!(font.pdta.ibag.contents[0].gen_idx, 0);
    assert_eq!(font.pdta.pmod.contents.len(), 1);
    assert_eq!(font.pdta.imod.contents.len(), 1);
    assert_eq!(font.pdta.shdr.contents[0].validate(), Ok(()));
    assert!(font.sdta.smpl.is_empty());
    let mut name = b"EOS".to_vec();
    name.resize(46, 0);
    assert_eq!(bodies[8], name);
    assert_eq!(bodies[2], vec![0, 0, 0, 0]);
    assert_eq!(bodies[3], vec![0, 0, 0, 0]);
}

#[test]
fn every_chunk_holds_whole_records() {
    for presets in [vec![], lead(), three_presets()] {
        let font = compile(presets);
        let bodies = pdta_bodies(&font);
        for (body, width) in bodies.iter().zip(WIDTHS.iter()) {
            assert!(!body.is_empty());
            assert_eq!(body.len() % width, 0);
        }
        assert_eq!(bodies[0].len(), 38 * font.pdta.phdr.contents.len());
        assert_eq!(bodies[8].len(), 46 * font.pdta.shdr.contents.len());
    }
}

#[test]
fn terminal_records_close_every_list() {
    let font = compile(three_presets());
    let pdta = &font.pdta;
    assert_eq!(pdta.phdr.contents.len(), 4);
    assert_eq!(pdta.pbag.contents.len(), 6);
    assert_eq!(pdta.pgen.contents.len(), 6);
    assert_eq!(pdta.inst.contents.len(), 6);
    assert_eq!(pdta.ibag.contents.len(), 10);
    assert_eq!(pdta.igen.contents.len(), 10);
    assert_eq!(pdta.shdr.contents.len(), 10);
    assert_eq!(pdta.pmod.contents.len(), 1);
    assert_eq!(pdta.imod.contents.len(), 1);

    let last = pdta.phdr.contents.last().unwrap();
    assert_eq!(last.name, "EOI");
    assert_eq!(last.pbag_idx as usize, pdta.pbag.contents.len() - 1);
    let last = pdta.pbag.contents.last().unwrap();
    assert_eq!(last.gen_idx as usize, pdta.pgen.contents.len() - 1);
    assert_eq!(last.mod_idx, 0);
    let last = pdta.inst.contents.last().unwrap();
    assert_eq!(last.name, "EOI");
    assert_eq!(last.inst_bag_idx as usize, pdta.ibag.contents.len() - 1);
    let last = pdta.ibag.contents.last().unwrap();
    assert_eq!(last.gen_idx as usize, pdta.igen.contents.len() - 1);
    assert_eq!(pdta.pgen.contents.last().unwrap().sf_gen_oper, 0);
    assert_eq!(pdta.igen.contents.last().unwrap().sf_gen_oper, 0);
    let last = pdta.shdr.contents.last().unwrap();
    assert_eq!(last.name, "EOS");
    assert_eq!((last.start, last.end, last.startloop, last.endloop), (0, 0, 0, 0));
    assert_eq!((last.sample_rate, last.sample_link, last.sample_type), (0, 0, 0));

    for generator in &pdta.pgen.contents[..5] {
        assert_eq!(generator.sf_gen_oper, 41);
    }
    for generator in &pdta.igen.contents[..9] {
        assert_eq!(generator.sf_gen_oper, 53);
    }
    for header in &pdta.shdr.contents[..9] {
        assert_ne!(header.name, "EOS");
    }
}

#[test]
fn zones_of_a_preset_lie_between_two_headers() {
    let presets = three_presets();
    let zone_counts: Vec<usize> = presets.iter().map(|p| p.zones().len()).collect();
    let font = compile(presets);
    let pdta = &font.pdta;
    let starts: Vec<u16> = pdta.phdr.contents.iter().map(|h| h.pbag_idx).collect();
    assert_eq!(starts, vec![0, 2, 2, 5]);
    let instruments = pdta.inst.contents.len() - 1;
    for (i, count) in zone_counts.iter().enumerate() {
        let first = starts[i] as usize;
        let next = starts[i + 1] as usize;
        assert_eq!(next - first, *count);
        for z in first..next {
            assert_eq!(pdta.pbag.contents[z].gen_idx as usize, z);
            assert_eq!(pdta.pbag.contents[z + 1].gen_idx as usize, z + 1);
            assert_eq!(pdta.pbag.contents[z].mod_idx, 0);
            assert_eq!(pdta.pgen.contents[z].sf_gen_oper, 41);
            match pdta.pgen.contents[z].gen_amount {
                GenAmountType::Unsigned(index) => {
                    assert_eq!(index as usize, z);
                    assert!((index as usize) < instruments);
                }
                other => panic!("not an index: {:?}", other),
            }
        }
    }
    let names: Vec<&str> = pdta.inst.contents.iter().map(|i| i.name.as_str()).collect();
    assert_eq!(names, vec!["Grand", "Upright", "Violin", "Cello", "Grand", "EOI"]);
    assert_eq!(pdta.phdr.contents[2].name, "Strings");
    assert_eq!((pdta.phdr.contents[2].preset, pdta.phdr.contents[2].bank), (48, 128));
}

#[test]
fn zones_of_an_instrument_lie_between_two_instruments() {
    let font = compile(three_presets());
    let pdta = &font.pdta;
    let starts: Vec<u16> = pdta.inst.contents.iter().map(|i| i.inst_bag_idx).collect();
    assert_eq!(starts, vec![0, 3, 4, 4, 6, 9]);
    let samples = pdta.shdr.contents.len() - 1;
    for z in 0..9 {
        assert_eq!(pdta.ibag.contents[z].gen_idx as usize, z);
        assert_eq!(pdta.ibag.contents[z].mod_idx, 0);
        assert_eq!(pdta.igen.contents[z].sf_gen_oper, 53);
        assert_eq!(pdta.igen.contents[z].gen_amount, GenAmountType::Unsigned(z as u16));
        assert!(z < samples);
    }
    let names: Vec<&str> = pdta.shdr.contents.iter().map(|h| h.name.as_str()).collect();
    assert_eq!(
        names,
        vec!["c3", "c4", "c5", "u3", "cello-lo", "cello-hi", "c3", "c4", "c5", "EOS"]
    );
}

#[test]
fn an_instrument_played_twice_is_compiled_twice() {
    let font = compile(three_presets());
    let shdr = &font.pdta.shdr.contents;
    assert_eq!(shdr[0].name, shdr[6].name);
    assert_eq!(shdr[0].end - shdr[0].start, shdr[6].end - shdr[6].start);
    assert_ne!(shdr[0].start, shdr[6].start);
    let first = &font.sdta.smpl[shdr[0].start as usize..shdr[0].end as usize];
    let second = &font.sdta.smpl[shdr[6].start as usize..shdr[6].end as usize];
    assert_eq!(first, second);
}

#[test]
fn samples_lie_in_order_in_the_buffer() {
    let font = compile(three_presets());
    let shdr = &font.pdta.shdr.contents;
    let lengths = [48u32, 60, 72, 50, 100, 200, 48, 60, 72];
    let mut base = 0u32;
    for (header, length) in shdr.iter().zip(lengths.iter()) {
        assert_eq!(header.start, base);
        assert_eq!(header.end, base + length);
        assert_eq!(header.startloop, base + 8);
        assert_eq!(header.endloop, base + length - 8);
        assert_eq!(header.validate(), Ok(()));
        let points = &font.sdta.smpl[header.start as usize..header.end as usize];
        assert_eq!(points, &ramp(*length as usize)[..]);
        let silence = &font.sdta.smpl[header.end as usize..header.end as usize + 2];
        assert_eq!(silence, &[0, 0]);
        base += length + 2;
    }
    assert_eq!(font.sdta.smpl.len() as u32, base);
    for pair in shdr[..9].windows(2) {
        assert!(pair[0].start <= pair[1].start);
        assert!(pair[0].end <= pair[1].start);
    }
    for header in shdr {
        assert!(header.endloop <= header.end);
        assert!(header.end as usize <= font.sdta.smpl.len());
    }
}

#[test]
fn compiling_twice_gives_the_same_file() {
    let first = compile(three_presets());
    let second = compile(three_presets());
    assert_eq!(first.to_riff(), second.to_riff());
    assert_eq!(file_bytes(&first), file_bytes(&second));
}

#[test]
fn the_file_is_a_riff_of_three_lists() {
    let font = compile(lead());
    match font.to_riff() {
        ChunkContents::Children(id, form, children) => {
            assert_eq!(id, riff::RIFF_ID);
            assert_eq!(form.value, *b"sfbk");
            assert_eq!(children.len(), 3);
            assert_eq!(children[0], font.info.to_riff());
            assert_eq!(children[1], font.sdta.to_riff());
            assert_eq!(children[2], font.pdta.to_riff());
        }
        other => panic!("not a list: {:?}", other),
    }
    let bytes = file_bytes(&font);
    assert_eq!(&bytes[0..4], b"RIFF");
    assert_eq!(&bytes[8..12], b"sfbk");
    assert_eq!(&bytes[12..16], b"LIST");
    assert_eq!(&bytes[20..24], b"INFO");
    let size = u32::from_le_bytes([bytes[4], bytes[5], bytes[6], bytes[7]]) as usize;
    assert_eq!(size + 8, bytes.len());
}

#[test]
fn a_synthesizer_reads_the_file() {
    let presets = vec![
        preset(
            "Piano",
            0,
            0,
            vec![
                instrument("Grand", vec![zone("c3", 48), zone("c4", 60), zone("c5", 72)]),
                instrument("Upright", vec![zone("u3", 50)]),
            ],
        ),
        preset(
            "Strings",
            48,
            128,
            vec![instrument("Cello", vec![zone("cello-lo", 100), zone("cello-hi", 200)])],
        ),
    ];
    let font = compile(presets);
    let bytes = file_bytes(&font);
    let read = rustysynth::SoundFont::new(&mut Cursor::new(bytes)).unwrap();
    assert_eq!(read.get_wave_data(), &font.sdta.smpl[..]);
    let presets = read.get_presets();
    assert_eq!(presets.len(), 2);
    let piano = presets.iter().find(|p| p.get_name() == "Piano").unwrap();
    assert_eq!(piano.get_regions().len(), 2);
    let strings = presets.iter().find(|p| p.get_name() == "Strings").unwrap();
    assert_eq!(strings.get_regions().len(), 1);
    assert_eq!(strings.get_patch_number(), 48);
    assert_eq!(strings.get_bank_number(), 128);
    let instruments = read.get_instruments();
    assert_eq!(instruments.len(), 3);
    assert_eq!(instruments[0].get_name(), "Grand");
    assert_eq!(instruments[0].get_regions().len(), 3);
    assert_eq!(instruments[2].get_name(), "Cello");
    assert_eq!(instruments[2].get_regions()[1].get_sample_start(), 340);
    assert_eq!(instruments[2].get_regions()[1].get_sample_end(), 540);
    let samples = read.get_sample_headers();
    assert_eq!(samples.len(), 6);
    assert_eq!(samples[5].get_name(), "cello-hi");
    assert_eq!(samples[5].get_start_loop(), 348);
    assert_eq!(samples[5].get_end_loop(), 532);
    assert_eq!(samples[5].get_sample_rate(), 44100);
    assert_eq!(samples[5].get_original_pitch(), 60);
}

#[test]
fn too_many_zones_do_not_fit() {
    let zones: Vec<PreInstZone> = (0..65536).map(|_| zone("s", 48)).collect();
    let presets = vec![preset("Huge", 0, 0, vec![instrument("Huge", zones)])];
    match FontData::assemble(None, &presets) {
        Err(error) => assert_eq!(error, CompilerError::BankTooLarge),
        Ok(_) => panic!("65536 sample zones were taken"),
    }
    let zones: Vec<PrePresetZone> = (0..65536).map(|_| instrument("i", vec![])).collect();
    let presets = vec![preset("Huge", 0, 0, zones)];
    assert!(matches!(FontData::assemble(None, &presets), Err(CompilerError::BankTooLarge)));
    assert_eq!(
        compiler::compile(InfoList::default(), &presets).err().map(|e| e.to_string()),
        Some(CompilerError::BankTooLarge.to_string())
    );
}

#[test]
fn compiling_is_assembling_and_laying_out() {
    let mut assembled = FontData::assemble(Some(InfoList::default()), &three_presets()).unwrap();
    let laid_out = assembled.generate_soundfont();
    let compiled = compile(three_presets());
    assert_eq!(laid_out.to_riff(), compiled.to_riff());
}

#[test]
fn as_many_zones_as_an_index_counts_fit() {
    let zones: Vec<PrePresetZone> = (0..65535).map(|_| instrument("i", vec![])).collect();
    let presets = vec![preset("Full", 0, 0, zones)];
    let font = compile(presets);
    assert_eq!(font.pdta.phdr.contents[1].pbag_idx, 65535);
    assert_eq!(font.pdta.pbag.contents[65535].gen_idx, 65535);
    assert_eq!(font.pdta.pgen.contents[65534].gen_amount, GenAmountType::Unsigned(65534));
}

#[test]
fn names_are_held_to_the_name_field() {
    let long = "x".repeat(21);
    let audio = || SampleDescriptor { data: ramp(48), sample_rate: 8000 };
    assert_eq!(
        PreInstZone::new(long.clone(), 60, 0, audio()).err(),
        Some(SoundfontError::StringLimit { limit: 20, len: 21 })
    );
    assert_eq!(
        PreInstrument::new(long.clone(), vec![]).err(),
        Some(SoundfontError::StringLimit { limit: 20, len: 21 })
    );
    assert_eq!(
        PrePreset::new("y".repeat(300), 0, 0, vec![]).err(),
        Some(SoundfontError::StringLimit { limit: 20, len: 300 })
    );
    assert_eq!(
        PrePreset::new("Flöte".to_string(), 0, 0, vec![]).err(),
        Some(SoundfontError::StringNonAscii)
    );
    assert_eq!(
        PreInstrument::new("Flöte".to_string(), vec![]).err(),
        Some(SoundfontError::StringNonAscii)
    );
    assert_eq!(
        PreInstZone::new("Flöte".to_string(), 60, 0, audio()).err(),
        Some(SoundfontError::StringNonAscii)
    );
    assert!(PrePreset::new("x".repeat(20), 127, 16383, vec![]).is_ok());
    assert!(PreInstrument::new(String::new(), vec![]).is_ok());
}

#[test]
fn samples_are_held_to_the_rules_on_sample_headers() {
    let audio = |points| SampleDescriptor { data: ramp(points), sample_rate: 8000 };
    assert_eq!(
        PreInstZone::new("short".to_string(), 60, 0, audio(47)).err(),
        Some(SoundfontError::SampleTooShort)
    );
    assert_eq!(
        PreInstZone::new("empty".to_string(), 60, 0, audio(0)).err(),
        Some(SoundfontError::SampleTooShort)
    );
    assert_eq!(
        PreInstZone::new("EOS".to_string(), 60, 0, audio(100)).err(),
        Some(SoundfontError::SampleTerminalNotNull)
    );
    let zone = PreInstZone::new("least".to_string(), 61, -7, audio(48)).unwrap();
    assert_eq!(zone.sample(), "least");
    assert_eq!(zone.original_pitch(), 61);
    assert_eq!(zone.pitch_correction(), -7);
    assert_eq!(zone.audio().data.len(), 48);
    assert_eq!(zone.audio().sample_rate, 8000);
}

#[test]
fn the_header_of_an_accepted_sample_is_valid() {
    for points in [48usize, 49, 64, 1000] {
        let presets = vec![preset("p", 0, 0, vec![instrument("i", vec![zone("s", points)])])];
        let font = FontData::assemble(None, &presets).unwrap();
        let header: &SampleHeader = font.samples()[0].header();
        assert_eq!(header.validate(), Ok(()));
        assert_eq!((header.start, header.end), (0, points as u32));
        assert_eq!((header.startloop, header.endloop), (8, points as u32 - 8));
        assert_eq!(font.samples()[0].data(), &ramp(points));
        assert!(font.info_list().is_none());
    }
}

#[test]
fn descriptors_hand_back_what_they_were_given() {
    let presets = three_presets();
    assert_eq!(presets[2].name(), "Strings");
    assert_eq!((presets[2].midi_preset(), presets[2].midi_bank()), (48, 128));
    assert_eq!(presets[2].zones().len(), 3);
    let cello = presets[2].zones()[1].instrument();
    assert_eq!(cello.name(), "Cello");
    assert_eq!(cello.zones().len(), 2);
    assert_eq!(cello.zones()[1].sample(), "cello-hi");
}

#[test]
fn metadata_comes_from_the_manifest() {
    let manifest = PreSoundFont {
        sound_engine: Some("Other".to_string()),
        name: "My Bank".to_string(),
        authors: Some("A. Author".to_string()),
        target_product: None,
        copyright: Some("(c) nobody".to_string()),
        comments: Some("c".repeat(60000)),
        presets: vec!["lead.toml".to_string()],
    };
    let info = manifest.infolist_created("January 1, 2000".to_string()).unwrap();
    assert_eq!((info.ifil().major, info.ifil().minor), (2, 4));
    assert_eq!(info.isng(), "EMU8000");
    assert_eq!(info.inam(), "My Bank");
    assert_eq!(info.irom(), None);
    assert!(info.iver().is_none());
    assert_eq!(info.icrd(), Some("January 1, 2000"));
    assert_eq!(info.ieng(), Some("A. Author"));
    assert_eq!(info.iprd(), None);
    assert_eq!(info.icop(), Some("(c) nobody"));
    assert_eq!(info.icmt().map(|c| c.len()), Some(60000));
    assert_eq!(info.isft(), Some("SoundFont Compiler v0.0.0:SoundFont Compiler v0.0.0"));

    let now = manifest.generate_infolist().unwrap();
    assert_eq!(now.inam(), "My Bank");
    assert_eq!(now.ieng(), Some("A. Author"));
    let created = now.icrd().unwrap();
    assert!(created.is_ascii());
    assert!(created.contains('T'));
    assert!(created.len() >= 20);
}

#[test]
fn metadata_fails_at_the_first_unfit_string() {
    let manifest = |name: &str, authors: Option<&str>, comments: Option<String>| PreSoundFont {
        sound_engine: None,
        name: name.to_string(),
        authors: authors.map(|a| a.to_string()),
        target_product: None,
        copyright: Some("©".to_string()),
        comments,
        presets: vec![],
    };
    let long = "n".repeat(257);
    assert_eq!(
        manifest(&long, Some("é"), None).infolist_created("now".to_string()).err(),
        Some(SoundfontError::StringLimit { limit: 256, len: 257 })
    );
    assert_eq!(
        manifest("ok", Some("é"), None).infolist_created("x".repeat(400)).err(),
        Some(SoundfontError::StringLimit { limit: 256, len: 400 })
    );
    assert_eq!(
        manifest("ok", Some("é"), None).infolist_created("now".to_string()).err(),
        Some(SoundfontError::StringNonAscii)
    );
    assert_eq!(
        manifest("ok", Some(&long), None).infolist_created("now".to_string()).err(),
        Some(SoundfontError::StringLimit { limit: 256, len: 257 })
    );
    assert_eq!(
        manifest("ok", None, Some("c".repeat(65537))).infolist_created("now".to_string()).err(),
        Some(SoundfontError::StringNonAscii)
    );
    assert!(manifest(&long, None, None).generate_infolist().is_err());
}

#[test]
fn a_bank_from_descriptors_has_the_manifests_metadata() {
    let manifest = PreSoundFont {
        sound_engine: None,
        name: "Bank".to_string(),
        authors: None,
        target_product: Some("SBAWE32".to_string()),
        copyright: None,
        comments: None,
        presets: vec!["lead.toml".to_string()],
    };
    let mut font = FontData::from_descriptors(&manifest, &lead()).unwrap();
    assert_eq!(font.info_list().unwrap().inam(), "Bank");
    let bank = font.generate_soundfont();
    assert_eq!(bank.info.inam(), "Bank");
    assert_eq!(bank.info.iprd(), Some("SBAWE32"));
    assert_eq!(bank.pdta.phdr.contents[0].name, "Lead");

    let unfit = PreSoundFont { name: "n".repeat(300), ..manifest };
    assert_eq!(
        FontData::from_descriptors(&unfit, &lead()).err(),
        Some(CompilerError::SoundfontError {
            source: SoundfontError::StringLimit { limit: 256, len: 300 }
        })
    );
}

#[test]
fn an_unfit_manifest_is_reported_before_a_bank_that_does_not_fit() {
    let manifest = |comments: &str| PreSoundFont {
        sound_engine: None,
        name: "Bank".to_string(),
        authors: None,
        target_product: None,
        copyright: None,
        comments: Some(comments.to_string()),
        presets: vec![],
    };
    let zones: Vec<PrePresetZone> = (0..65536).map(|_| instrument("i", vec![])).collect();
    let presets = vec![preset("Huge", 0, 0, zones)];
    assert_eq!(
        FontData::from_descriptors(&manifest("naïve"), &presets).err(),
        Some(CompilerError::SoundfontError { source: SoundfontError::StringNonAscii })
    );
    assert_eq!(
        FontData::from_descriptors(&manifest("plain"), &presets).err(),
        Some(CompilerError::BankTooLarge)
    );
    let font = FontData::from_descriptors(&manifest("plain"), &lead()).unwrap();
    assert_eq!(font.info_list().unwrap().icmt(), Some("plain"));
}

#[test]
fn the_time_of_making_is_fit_for_the_metadata() {
    let manifest = PreSoundFont {
        sound_engine: None,
        name: "n".repeat(256),
        authors: Some("a".repeat(256)),
        target_product: Some("p".repeat(256)),
        copyright: Some("c".repeat(256)),
        comments: Some("c".repeat(65536)),
        presets: vec![],
    };
    let info = manifest.generate_infolist().unwrap();
    let created = info.icrd().unwrap();
    assert!(created.is_ascii());
    assert!(created.len() <= 64);
    assert!(created.len() >= 20);
    assert_eq!(&created[4..5], "-");
    assert_eq!(&created[10..11], "T");
    assert!(created.ends_with("+00:00"));
    let again = manifest.generate_infolist().unwrap();
    assert_eq!(again.inam(), info.inam());
    assert_eq!(again.icmt(), info.icmt());
}

#[test]
fn a_sample_of_the_bank_can_be_copied() {
    let font = FontData::assemble(None, &lead()).unwrap();
    let copy = font.samples()[0].clone();
    assert_eq!(copy.header().name, "lead.wav");
    assert_eq!((copy.header().start, copy.header().end), (0, 100));
    assert_eq!(copy.data(), font.samples()[0].data());
}

#[test]
fn a_bank_is_ready_until_it_is_laid_out() {
    let mut font = FontData::assemble(Some(InfoList::default()), &three_presets()).unwrap();
    assert!(font.is_ready());
    let bank = font.generate_soundfont();
    assert!(bank.pdta.is_encodable());
    assert!(!font.is_ready());
    assert_eq!(font.samples()[1].header().start, 50);

    let mut empty = FontData::assemble(Some(InfoList::default()), &vec![]).unwrap();
    assert!(empty.is_ready());
    let bank = empty.generate_soundfont();
    assert!(bank.pdta.is_encodable());
    assert!(empty.is_ready());
}
