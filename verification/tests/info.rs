use riff::{ChunkContents, ChunkId};
use soundfont_compiler::compiler::CompilerError;
use soundfont_compiler::soundfont::info::{validate_string, InfoList, VersionTag};
use soundfont_compiler::soundfont::text::decimal;
use soundfont_compiler::soundfont::SoundfontError;

fn data(id: &[u8; 4], body: &[u8]) -> ChunkContents {
    ChunkContents::Data(ChunkId { value: *id }, body.to_vec())
}

#[test]
fn a_string_is_held_to_ascii_and_to_its_limit() {
    assert_eq!(validate_string("", 0), Ok(()));
    assert_eq!(validate_string("General MIDI", 256), Ok(()));
    assert_eq!(validate_string("abcd", 4), Ok(()));
    assert_eq!(validate_string("abcde", 4), Err(SoundfontError::StringLimit { limit: 4, len: 5 }));
    assert_eq!(
        validate_string(&"x".repeat(257), 256),
        Err(SoundfontError::StringLimit { limit: 256, len: 257 })
    );
    assert_eq!(validate_string(&"x".repeat(256), 256), Ok(()));
    assert_eq!(validate_string("naïve", 256), Err(SoundfontError::StringNonAscii));
    // A string that is too long and not ASCII is reported as not ASCII.
    assert_eq!(validate_string("ïïïïï", 2), Err(SoundfontError::StringNonAscii));
    assert_eq!(validate_string("tab\tand\0nul", 256), Ok(()));
}

#[test]
fn new_metadata_names_the_format_and_the_engine() {
    let info = InfoList::default();
    assert_eq!(*info.ifil(), VersionTag::new(2, 4));
    assert_eq!(info.isng(), "EMU8000");
    assert_eq!(info.inam(), "A New Soundfont");
    assert_eq!(info.irom(), None);
    assert_eq!(info.iver(), None);
    assert_eq!(info.icrd(), None);
    assert_eq!(info.ieng(), None);
    assert_eq!(info.iprd(), None);
    assert_eq!(info.icop(), None);
    assert_eq!(info.icmt(), None);
    assert_eq!(info.isft(), None);
}

#[test]
fn setters_take_fit_strings() {
    let mut info = InfoList::default();
    info.set_ifil(VersionTag::new(2, 1));
    assert_eq!(info.set_isng("E-mu 10K1".to_string()), Ok(()));
    assert_eq!(info.set_inam("General MIDI".to_string()), Ok(()));
    assert_eq!(info.set_irom(Some("1MGM".to_string())), Ok(()));
    info.set_iver(Some(VersionTag::new(1, 36)));
    assert_eq!(info.set_icrd(Some("December 6, 1917".to_string())), Ok(()));
    assert_eq!(info.set_ieng(Some("Someone".to_string())), Ok(()));
    assert_eq!(info.set_iprd(Some("SBAWE32".to_string())), Ok(()));
    assert_eq!(info.set_icop(Some("Public domain".to_string())), Ok(()));
    assert_eq!(info.set_icmt(Some("c".repeat(65536))), Ok(()));
    assert_eq!(info.set_isft(Some("Editor v1:Editor v2".to_string())), Ok(()));

    assert_eq!(*info.ifil(), VersionTag::new(2, 1));
    assert_eq!(info.isng(), "E-mu 10K1");
    assert_eq!(info.inam(), "General MIDI");
    assert_eq!(info.irom(), Some("1MGM"));
    assert_eq!(info.iver(), Some(&VersionTag::new(1, 36)));
    assert_eq!(info.icrd(), Some("December 6, 1917"));
    assert_eq!(info.ieng(), Some("Someone"));
    assert_eq!(info.iprd(), Some("SBAWE32"));
    assert_eq!(info.icop(), Some("Public domain"));
    assert_eq!(info.icmt().map(|c| c.len()), Some(65536));
    assert_eq!(info.isft(), Some("Editor v1:Editor v2"));

    assert_eq!(info.set_irom(None), Ok(()));
    info.set_iver(None);
    assert_eq!(info.set_icmt(None), Ok(()));
    assert_eq!(info.irom(), None);
    assert_eq!(info.iver(), None);
    assert_eq!(info.icmt(), None);

    let copy = info.clone();
    assert_eq!(copy.inam(), "General MIDI");
    assert_eq!(copy.isft(), Some("Editor v1:Editor v2"));
    assert_eq!(copy.to_riff(), info.to_riff());
}

#[test]
fn setters_refuse_unfit_strings_and_change_nothing() {
    let long = "x".repeat(257);
    let too_long = Err(SoundfontError::StringLimit { limit: 256, len: 257 });
    let not_ascii = Err(SoundfontError::StringNonAscii);
    let mut info = InfoList::default();
    assert_eq!(info.set_ieng(Some("kept".to_string())), Ok(()));

    assert_eq!(info.set_isng(long.clone()), too_long);
    assert_eq!(info.set_inam(long.clone()), too_long);
    assert_eq!(info.set_irom(Some(long.clone())), too_long);
    assert_eq!(info.set_icrd(Some(long.clone())), too_long);
    assert_eq!(info.set_ieng(Some(long.clone())), too_long);
    assert_eq!(info.set_iprd(Some(long.clone())), too_long);
    assert_eq!(info.set_icop(Some(long.clone())), too_long);
    assert_eq!(info.set_isft(Some(long.clone())), too_long);
    assert_eq!(
        info.set_icmt(Some("c".repeat(65537))),
        Err(SoundfontError::StringLimit { limit: 65536, len: 65537 })
    );
    assert_eq!(info.set_icmt(Some(long.clone())), Ok(()));
    assert_eq!(info.set_icmt(None), Ok(()));

    assert_eq!(info.set_isng("é".to_string()), not_ascii);
    assert_eq!(info.set_inam("é".to_string()), not_ascii);
    assert_eq!(info.set_irom(Some("é".to_string())), not_ascii);
    assert_eq!(info.set_icrd(Some("é".to_string())), not_ascii);
    assert_eq!(info.set_ieng(Some("é".to_string())), not_ascii);
    assert_eq!(info.set_iprd(Some("é".to_string())), not_ascii);
    assert_eq!(info.set_icop(Some("é".to_string())), not_ascii);
    assert_eq!(info.set_icmt(Some("é".to_string())), not_ascii);
    assert_eq!(info.set_isft(Some("é".to_string())), not_ascii);

    assert_eq!(info.isng(), "EMU8000");
    assert_eq!(info.inam(), "A New Soundfont");
    assert_eq!(info.ieng(), Some("kept"));
    assert_eq!(info.irom(), None);
    assert_eq!(info.icrd(), None);
    assert_eq!(info.iprd(), None);
    assert_eq!(info.icop(), None);
    assert_eq!(info.icmt(), None);
    assert_eq!(info.isft(), None);
}

#[test]
fn metadata_is_the_list_of_its_chunks() {
    let info = InfoList::default();
    let expected = ChunkContents::Children(
        riff::LIST_ID,
        ChunkId { value: *b"INFO" },
        vec![
            data(b"ifil", &[2, 0, 4, 0]),
            data(b"isng", b"EMU8000\0"),
            data(b"INAM", b"A New Soundfont\0"),
        ],
    );
    assert_eq!(info.to_riff(), expected);

    let mut info = InfoList::default();
    info.set_isng("engine".to_string()).unwrap();
    info.set_inam("name".to_string()).unwrap();
    info.set_irom(Some("rom".to_string())).unwrap();
    info.set_iver(Some(VersionTag::new(1, 0x0203)));
    info.set_icrd(Some("date".to_string())).unwrap();
    info.set_ieng(Some("me".to_string())).unwrap();
    info.set_iprd(Some("product".to_string())).unwrap();
    info.set_icop(Some("copy".to_string())).unwrap();
    info.set_icmt(Some("comment".to_string())).unwrap();
    info.set_isft(Some("a:b".to_string())).unwrap();
    let expected = ChunkContents::Children(
        riff::LIST_ID,
        ChunkId { value: *b"INFO" },
        vec![
            data(b"ifil", &[2, 0, 4, 0]),
            data(b"isng", b"engine"),
            data(b"INAM", b"name"),
            data(b"irom", b"rom\0"),
            data(b"iver", &[1, 0, 3, 2]),
            data(b"ICRD", b"date"),
            data(b"IENG", b"me"),
            data(b"IPRD", b"product\0"),
            data(b"ICOP", b"copy"),
            data(b"ICMT", b"comment\0"),
            data(b"ISFT", b"a:b\0"),
        ],
    );
    assert_eq!(info.to_riff(), expected);

    let mut info = InfoList::default();
    info.set_icop(Some("c".to_string())).unwrap();
    let expected = ChunkContents::Children(
        riff::LIST_ID,
        ChunkId { value: *b"INFO" },
        vec![
            data(b"ifil", &[2, 0, 4, 0]),
            data(b"isng", b"EMU8000\0"),
            data(b"INAM", b"A New Soundfont\0"),
            data(b"ICOP", b"c\0"),
        ],
    );
    assert_eq!(info.to_riff(), expected);
}

#[test]
fn numbers_are_written_in_decimal() {
    assert_eq!(decimal(0), "0");
    assert_eq!(decimal(7), "7");
    assert_eq!(decimal(10), "10");
    assert_eq!(decimal(256), "256");
    assert_eq!(decimal(65536), "65536");
    assert_eq!(decimal(1234567890), "1234567890");
    assert_eq!(decimal(usize::MAX), usize::MAX.to_string());
}

#[test]
fn errors_say_what_went_wrong() {
    assert_eq!(SoundfontError::StringNonAscii.to_string(), "Non-ascii string.");
    assert_eq!(
        SoundfontError::StringLimit { limit: 20, len: 21 }.to_string(),
        "This string is too long. It must fit into 20 bytes, but was 21 bytes long."
    );
    assert_eq!(
        SoundfontError::StringLimit { limit: 65536, len: 100000 }.to_string(),
        "This string is too long. It must fit into 65536 bytes, but was 100000 bytes long."
    );
    assert_eq!(
        SoundfontError::SampleTooShort.to_string(),
        "Sample data must be at least 48 data points long."
    );
    assert_eq!(
        SoundfontError::SampleLoopTooShort.to_string(),
        "The loop must be at least 32 data points long."
    );
    assert_eq!(
        SoundfontError::SampleLoopNotEnoughLead.to_string(),
        "There must be at least 8 data points before startloop"
    );
    assert_eq!(
        SoundfontError::SampleLoopNotEnoughTail.to_string(),
        "There must be at least 8 data points after endloop"
    );
    assert_eq!(SoundfontError::SampleTerminalNotNull.to_string(), "Terminal sample must be null.");

    assert_eq!(
        CompilerError::ProjectManifestCantOpen.to_string(),
        "Can't access project manifest at given path."
    );
    assert_eq!(
        CompilerError::SoundfontError { source: SoundfontError::SampleTooShort }.to_string(),
        "Sample data must be at least 48 data points long."
    );
    assert_eq!(
        CompilerError::BankTooLarge.to_string(),
        "The bank holds more zones or sample points than a SoundFont can address."
    );
    assert_eq!(
        CompilerError::from(SoundfontError::StringNonAscii),
        CompilerError::SoundfontError { source: SoundfontError::StringNonAscii }
    );
    let error: CompilerError = SoundfontError::StringLimit { limit: 1, len: 2 }.into();
    assert_eq!(
        error,
        CompilerError::SoundfontError { source: SoundfontError::StringLimit { limit: 1, len: 2 } }
    );
}
