use riff::{ChunkContents, ChunkId};
use soundfont_compiler::soundfont::bytes::{push_i16, push_i8, push_name, push_u16, push_u32};
use soundfont_compiler::soundfont::pdta::{
    GenAmountType, InstBag, InstGenList, InstModList, InstZone, Instrument, InstrumentGen,
    InstrumentMod, Instruments, PdtaList, PresetBag, PresetGen, PresetGenList, PresetHeader,
    PresetHeaders, PresetMod, PresetModList, PresetZone, SampleHeader, SampleList,
};
use soundfont_compiler::soundfont::sdta::SdtaList;
use soundfont_compiler::soundfont::{string_to_bytes, SoundFont2, SoundfontError};

fn data(id: &[u8; 4], body: Vec<u8>) -> ChunkContents {
    ChunkContents::Data(ChunkId { value: *id }, body)
}

fn sample(name: &str, start: u32, end: u32, startloop: u32, endloop: u32) -> SampleHeader {
    SampleHeader {
        name: name.to_string(),
        start,
        end,
        startloop,
        endloop,
        sample_rate: 44100,
        original_pitch: 60,
        pitch_correction: 0,
        sample_link: 0,
        sample_type: 1,
    }
}

#[test]
fn integers_are_written_least_significant_byte_first() {
    let mut out = vec![9u8];
    push_u16(&mut out, 0x1234);
    push_u32(&mut out, 0x89ABCDEF);
    push_i16(&mut out, -2);
    push_i8(&mut out, -1);
    push_i8(&mut out, 5);
    assert_eq!(out, vec![9, 0x34, 0x12, 0xEF, 0xCD, 0xAB, 0x89, 0xFE, 0xFF, 0xFF, 5]);
    for value in [0u16, 1, 255, 256, 0x7FFF, 0x8000, 0xFFFF] {
        let mut out = Vec::new();
        push_u16(&mut out, value);
        assert_eq!(out, value.to_le_bytes());
    }
    for value in [0u32, 1, 0xFF, 0x100, 0xFFFF, 0x10000, 0xFFFFFF, 0x1000000, u32::MAX] {
        let mut out = Vec::new();
        push_u32(&mut out, value);
        assert_eq!(out, value.to_le_bytes());
    }
    for value in [i16::MIN, -32767, -256, -1, 0, 1, 255, 256, i16::MAX] {
        let mut out = Vec::new();
        push_i16(&mut out, value);
        assert_eq!(out, value.to_le_bytes());
    }
    for value in [i8::MIN, -99, -1, 0, 1, 99, i8::MAX] {
        let mut out = Vec::new();
        push_i8(&mut out, value);
        assert_eq!(out, value.to_le_bytes());
    }
}

#[test]
fn names_are_padded_to_twenty_bytes() {
    let mut out = vec![7u8];
    push_name(&mut out, "Lead");
    let mut expected = vec![7u8, b'L', b'e', b'a', b'd'];
    expected.resize(21, 0);
    assert_eq!(out, expected);

    let mut out = Vec::new();
    push_name(&mut out, "");
    assert_eq!(out, vec![0u8; 20]);

    let mut out = Vec::new();
    push_name(&mut out, "exactly twenty bytes");
    assert_eq!(out, b"exactly twenty bytes".to_vec());

    let mut out = Vec::new();
    push_name(&mut out, "Flöte");
    let mut expected = "Flöte".as_bytes().to_vec();
    assert_eq!(expected.len(), 6);
    expected.resize(20, 0);
    assert_eq!(out, expected);
}

#[test]
fn strings_are_padded_to_an_even_length() {
    assert_eq!(string_to_bytes(&"EMU8000".to_string()), b"EMU8000\0".to_vec());
    assert_eq!(string_to_bytes(&"even".to_string()), b"even".to_vec());
    assert_eq!(string_to_bytes(&String::new()), Vec::<u8>::new());
    assert_eq!(string_to_bytes(&"ö".to_string()), "ö".as_bytes().to_vec());
    assert_eq!(string_to_bytes(&"öa".to_string()), vec![0xC3, 0xB6, b'a', 0]);
}

#[test]
fn generator_amounts_fill_two_bytes() {
    assert_eq!(GenAmountType::Range { lo: 3, hi: 120 }.to_bytes(), vec![3, 120]);
    assert_eq!(GenAmountType::Signed(-2).to_bytes(), vec![0xFE, 0xFF]);
    assert_eq!(GenAmountType::Signed(258).to_bytes(), vec![2, 1]);
    assert_eq!(GenAmountType::Unsigned(0xABCD).to_bytes(), vec![0xCD, 0xAB]);
}

#[test]
fn a_preset_header_fills_38_bytes() {
    let header = PresetHeader {
        name: "Lead".to_string(),
        preset: 5,
        bank: 0x0102,
        pbag_idx: 7,
        library: 0x11223344,
        genre: 1,
        morphology: 0x80000000,
    };
    let mut expected = b"Lead".to_vec();
    expected.resize(20, 0);
    expected.extend([5, 0, 2, 1, 7, 0]);
    expected.extend([0x44, 0x33, 0x22, 0x11, 1, 0, 0, 0, 0, 0, 0, 0x80]);
    assert_eq!(expected.len(), 38);
    assert_eq!(header.to_bytes(), expected);
    assert_eq!(header.clone().to_bytes(), expected);
    assert_eq!(PresetHeader::default().to_bytes(), vec![0u8; 38]);
}

#[test]
fn an_instrument_fills_22_bytes() {
    let instrument = Instrument { name: "Lead-Inst".to_string(), inst_bag_idx: 0x0304 };
    let mut expected = b"Lead-Inst".to_vec();
    expected.resize(20, 0);
    expected.extend([4, 3]);
    assert_eq!(instrument.to_bytes(), expected);
    assert_eq!(instrument.clone().to_bytes(), expected);
    assert_eq!(Instrument::default().to_bytes(), vec![0u8; 22]);
}

#[test]
fn zones_and_generators_fill_four_bytes() {
    assert_eq!(PresetZone::new(0x0102, 0x0304).to_bytes(), vec![2, 1, 4, 3]);
    assert_eq!(InstZone::new(0xFFFF, 1).to_bytes(), vec![0xFF, 0xFF, 1, 0]);
    assert_eq!(PresetZone::terminal(), PresetZone { gen_idx: 0, mod_idx: 0 });
    assert_eq!(InstZone::terminal(), InstZone { gen_idx: 0, mod_idx: 0 });
    assert_eq!(PresetZone::terminal().to_bytes(), vec![0; 4]);
    assert_eq!(InstZone::terminal().to_bytes(), vec![0; 4]);

    let generator = PresetGen { sf_gen_oper: 41, gen_amount: GenAmountType::Unsigned(0x0201) };
    assert_eq!(generator.to_bytes(), vec![41, 0, 1, 2]);
    let generator = InstrumentGen { sf_gen_oper: 53, gen_amount: GenAmountType::Unsigned(9) };
    assert_eq!(generator.to_bytes(), vec![53, 0, 9, 0]);
    let generator = InstrumentGen {
        sf_gen_oper: 43,
        gen_amount: GenAmountType::Range { lo: 0, hi: 127 },
    };
    assert_eq!(generator.to_bytes(), vec![43, 0, 0, 127]);
    assert_eq!(PresetGen::terminal().sf_gen_oper, 0);
    assert_eq!(PresetGen::terminal().gen_amount, GenAmountType::Signed(0));
    assert_eq!(PresetGen::terminal().to_bytes(), vec![0; 4]);
    assert_eq!(InstrumentGen::terminal().to_bytes(), vec![0; 4]);

    assert_eq!(PresetMod::terminal().to_bytes(), vec![0; 4]);
    assert_eq!(InstrumentMod::terminal().to_bytes(), vec![0; 4]);
}

#[test]
fn a_sample_header_fills_46_bytes() {
    let header = SampleHeader {
        name: "kick.wav".to_string(),
        start: 0x01020304,
        end: 0x05060708,
        startloop: 0x090A0B0C,
        endloop: 0x0D0E0F10,
        sample_rate: 44100,
        original_pitch: 60,
        pitch_correction: -3,
        sample_link: 0x1122,
        sample_type: 0x8001,
    };
    let mut expected = b"kick.wav".to_vec();
    expected.resize(20, 0);
    expected.extend([4, 3, 2, 1, 8, 7, 6, 5, 0x0C, 0x0B, 0x0A, 9, 0x10, 0x0F, 0x0E, 0x0D]);
    expected.extend(44100u32.to_le_bytes());
    expected.extend([60, 0xFD, 0x22, 0x11, 0x01, 0x80]);
    assert_eq!(expected.len(), 46);
    assert_eq!(header.to_bytes(), expected);
    assert_eq!(header.clone().to_bytes(), expected);

    let mut terminal = b"EOS".to_vec();
    terminal.resize(46, 0);
    assert_eq!(SampleHeader::terminal().to_bytes(), terminal);
}

#[test]
fn a_sample_header_is_held_to_each_rule() {
    assert_eq!(sample("ok", 0, 48, 8, 40).validate(), Ok(()));
    assert_eq!(sample("ok", 1000, 1100, 1008, 1092).validate(), Ok(()));
    assert_eq!(sample("s", 0, 47, 8, 40).validate(), Err(SoundfontError::SampleTooShort));
    assert_eq!(sample("s", 100, 50, 8, 40).validate(), Err(SoundfontError::SampleTooShort));
    assert_eq!(sample("s", 0, 100, 8, 39).validate(), Err(SoundfontError::SampleLoopTooShort));
    assert_eq!(sample("s", 0, 100, 50, 10).validate(), Err(SoundfontError::SampleLoopTooShort));
    assert_eq!(
        sample("s", 0, 100, 7, 60).validate(),
        Err(SoundfontError::SampleLoopNotEnoughLead)
    );
    assert_eq!(
        sample("s", 10, 100, 5, 60).validate(),
        Err(SoundfontError::SampleLoopNotEnoughLead)
    );
    assert_eq!(
        sample("s", 0, 100, 8, 93).validate(),
        Err(SoundfontError::SampleLoopNotEnoughTail)
    );
    assert_eq!(
        sample("s", 0, 100, 8, 120).validate(),
        Err(SoundfontError::SampleLoopNotEnoughTail)
    );
    assert_eq!(sample("s", 0, 100, 8, 92).validate(), Ok(()));
    // The first rule broken is the one reported.
    assert_eq!(sample("s", 0, 10, 9, 10).validate(), Err(SoundfontError::SampleTooShort));
}

#[test]
fn the_terminal_sample_header_must_be_null() {
    assert_eq!(SampleHeader::terminal().validate(), Ok(()));
    assert_eq!(
        sample("EOS", 0, 48, 8, 40).validate(),
        Err(SoundfontError::SampleTerminalNotNull)
    );
    let mut header = SampleHeader::terminal();
    header.pitch_correction = -1;
    assert_eq!(header.validate(), Err(SoundfontError::SampleTerminalNotNull));
    let mut header = SampleHeader::terminal();
    header.sample_type = 1;
    assert_eq!(header.validate(), Err(SoundfontError::SampleTerminalNotNull));
    let mut header = SampleHeader::terminal();
    header.sample_rate = 1;
    assert_eq!(header.validate(), Err(SoundfontError::SampleTerminalNotNull));
    let mut header = SampleHeader::terminal();
    header.name = "eos".to_string();
    assert_eq!(header.validate(), Err(SoundfontError::SampleTooShort));
}

#[test]
fn new_lists_are_empty() {
    assert!(PresetHeaders::new().contents.is_empty());
    assert!(PresetBag::new().contents.is_empty());
    assert!(PresetModList::new().contents.is_empty());
    assert!(PresetGenList::new().contents.is_empty());
    assert!(Instruments::new().contents.is_empty());
    assert!(InstBag::new().contents.is_empty());
    assert!(InstModList::new().contents.is_empty());
    assert!(InstGenList::new().contents.is_empty());
    assert!(SampleList::new().contents.is_empty());
    assert!(PresetHeaders::default().contents.is_empty());
    assert!(SampleList::default().contents.is_empty());
    let lists = PdtaList::default();
    assert!(lists.phdr.contents.is_empty());
    assert!(lists.imod.contents.is_empty());
    assert!(lists.shdr.contents.is_empty());
    let bank = SoundFont2::default();
    assert!(bank.pdta.pgen.contents.is_empty());
    assert!(bank.sdta.smpl.is_empty());
    assert_eq!(bank.info.inam(), "A New Soundfont");
}

#[test]
fn a_list_is_the_chunk_of_its_records() {
    let mut phdr = PresetHeaders::new();
    phdr.contents.push(PresetHeader { name: "A".to_string(), pbag_idx: 0, ..Default::default() });
    phdr.contents.push(PresetHeader { name: "EOI".to_string(), pbag_idx: 1, ..Default::default() });
    let mut body = phdr.contents[0].to_bytes();
    body.extend(phdr.contents[1].to_bytes());
    assert_eq!(body.len(), 76);
    assert_eq!(phdr.to_riff(), data(b"phdr", body));

    let mut pbag = PresetBag::new();
    pbag.contents.push(PresetZone::new(0, 0));
    pbag.contents.push(PresetZone::new(1, 0));
    assert_eq!(pbag.to_riff(), data(b"pbag", vec![0, 0, 0, 0, 1, 0, 0, 0]));

    let mut pmod = PresetModList::new();
    pmod.contents.push(PresetMod::terminal());
    assert_eq!(pmod.to_riff(), data(b"pmod", vec![0, 0, 0, 0]));

    let mut pgen = PresetGenList::new();
    pgen.contents.push(PresetGen { sf_gen_oper: 41, gen_amount: GenAmountType::Unsigned(0) });
    pgen.contents.push(PresetGen::terminal());
    assert_eq!(pgen.to_riff(), data(b"pgen", vec![41, 0, 0, 0, 0, 0, 0, 0]));

    let mut inst = Instruments::new();
    inst.contents.push(Instrument { name: "EOI".to_string(), inst_bag_idx: 2 });
    let mut body = b"EOI".to_vec();
    body.resize(20, 0);
    body.extend([2, 0]);
    assert_eq!(inst.to_riff(), data(b"inst", body));

    let mut ibag = InstBag::new();
    ibag.contents.push(InstZone::new(3, 0));
    assert_eq!(ibag.to_riff(), data(b"ibag", vec![3, 0, 0, 0]));

    let mut imod = InstModList::new();
    imod.contents.push(InstrumentMod::terminal());
    assert_eq!(imod.to_riff(), data(b"imod", vec![0, 0, 0, 0]));

    let mut igen = InstGenList::new();
    igen.contents.push(InstrumentGen { sf_gen_oper: 53, gen_amount: GenAmountType::Unsigned(1) });
    igen.contents.push(InstrumentGen::terminal());
    assert_eq!(igen.to_riff(), data(b"igen", vec![53, 0, 1, 0, 0, 0, 0, 0]));

    let mut shdr = SampleList::new();
    shdr.contents.push(sample("a", 0, 48, 8, 40));
    shdr.contents.push(SampleHeader::terminal());
    let mut body = shdr.contents[0].to_bytes();
    body.extend(shdr.contents[1].to_bytes());
    assert_eq!(body.len(), 92);
    assert_eq!(shdr.to_riff(), data(b"shdr", body));

    let lists = PdtaList { phdr, pbag, pmod, pgen, inst, ibag, imod, igen, shdr };
    let expected = ChunkContents::Children(
        riff::LIST_ID,
        ChunkId { value: *b"pdta" },
        vec![
            lists.phdr.to_riff(),
            lists.pbag.to_riff(),
            lists.pmod.to_riff(),
            lists.pgen.to_riff(),
            lists.inst.to_riff(),
            lists.ibag.to_riff(),
            lists.imod.to_riff(),
            lists.igen.to_riff(),
            lists.shdr.to_riff(),
        ],
    );
    assert_eq!(lists.to_riff(), expected);
    assert_eq!(lists.clone().to_riff(), expected);
}

#[test]
fn the_sample_buffer_is_the_chunk_of_its_points() {
    let buffer = SdtaList::new(vec![1, -1, 0x1234, i16::MIN], None);
    let expected = ChunkContents::Children(
        riff::LIST_ID,
        ChunkId { value: *b"sdta" },
        vec![data(b"smpl", vec![1, 0, 0xFF, 0xFF, 0x34, 0x12, 0, 0x80])],
    );
    assert_eq!(buffer.to_riff(), expected);

    let buffer = SdtaList::new(vec![2], Some(vec![7, 8, 9]));
    let expected = ChunkContents::Children(
        riff::LIST_ID,
        ChunkId { value: *b"sdta" },
        vec![data(b"smpl", vec![2, 0]), data(b"sm24", vec![7, 8, 9])],
    );
    assert_eq!(buffer.to_riff(), expected);

    let empty = SdtaList::default();
    assert!(empty.smpl.is_empty());
    assert!(empty.sm24.is_none());
    let expected = ChunkContents::Children(
        riff::LIST_ID,
        ChunkId { value: *b"sdta" },
        vec![data(b"smpl", vec![])],
    );
    assert_eq!(empty.to_riff(), expected);
}

#[test]
fn lists_say_whether_they_can_be_encoded() {
    let fit = |name: &str| PresetHeader { name: name.to_string(), ..Default::default() };
    assert!(fit("exactly twenty bytes").is_encodable());
    assert!(!fit("twenty-one bytes long").is_encodable());
    assert!(fit("Flöte").is_encodable());
    assert!(!fit("öööööööööö!").is_encodable());
    assert!(Instrument { name: "x".repeat(20), inst_bag_idx: 0 }.is_encodable());
    assert!(!Instrument { name: "x".repeat(21), inst_bag_idx: 0 }.is_encodable());
    assert!(SampleHeader::terminal().is_encodable());
    assert!(!sample(&"s".repeat(40), 0, 48, 8, 40).is_encodable());

    let mut phdr = PresetHeaders::new();
    assert!(!phdr.is_encodable());
    phdr.contents.push(fit("one"));
    assert!(phdr.is_encodable());
    phdr.contents.push(fit("a name of more than twenty bytes"));
    assert!(!phdr.is_encodable());
    let mut inst = Instruments::new();
    assert!(!inst.is_encodable());
    inst.contents.push(Instrument::default());
    assert!(inst.is_encodable());
    let mut shdr = SampleList::new();
    assert!(!shdr.is_encodable());
    shdr.contents.push(SampleHeader::terminal());
    assert!(shdr.is_encodable());

    let mut lists = PdtaList::default();
    assert!(!lists.is_encodable());
    lists.phdr.contents.push(fit("EOI"));
    lists.pbag.contents.push(PresetZone::terminal());
    lists.pmod.contents.push(PresetMod::terminal());
    lists.pgen.contents.push(PresetGen::terminal());
    lists.inst.contents.push(Instrument::default());
    lists.ibag.contents.push(InstZone::terminal());
    lists.imod.contents.push(InstrumentMod::terminal());
    lists.igen.contents.push(InstrumentGen::terminal());
    assert!(!lists.is_encodable());
    lists.shdr.contents.push(SampleHeader::terminal());
    assert!(lists.is_encodable());
    lists.inst.contents.push(Instrument { name: "y".repeat(21), inst_bag_idx: 0 });
    assert!(!lists.is_encodable());
}
