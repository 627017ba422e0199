//! The metadata of a bank.

mod version_tag;

use super::chunk::{chunk_model, chunk_models, data_chunk, list_chunk, list_id, ChunkModel};
use super::{string_to_bytes, text_encoding, SoundfontError};
use riff::ChunkContents;
use vstd::prelude::*;
use vstd::string::StringExecFns;
use vstd::utf8::{encode_utf8, is_ascii_chars};

pub use version_tag::VersionTag;

verus! {

/// Most bytes of a metadata string other than the comment.
pub const TEXT_LIMIT: usize = 256;

/// Most bytes of the comment.
pub const COMMENT_LIMIT: usize = 65536;

/// The identifier of the metadata list.
pub open spec fn info_id() -> Seq<u8> {
    seq!['I' as u8, 'N' as u8, 'F' as u8, 'O' as u8]
}

/// The identifier of the chunk `ifil`.
pub open spec fn ifil_id() -> Seq<u8> {
    seq!['i' as u8, 'f' as u8, 'i' as u8, 'l' as u8]
}

/// The identifier of the chunk `isng`.
pub open spec fn isng_id() -> Seq<u8> {
    seq!['i' as u8, 's' as u8, 'n' as u8, 'g' as u8]
}

/// The identifier of the chunk `INAM`.
pub open spec fn inam_id() -> Seq<u8> {
    seq!['I' as u8, 'N' as u8, 'A' as u8, 'M' as u8]
}

/// The identifier of the chunk `irom`.
pub open spec fn irom_id() -> Seq<u8> {
    seq!['i' as u8, 'r' as u8, 'o' as u8, 'm' as u8]
}

/// The identifier of the chunk `iver`.
pub open spec fn iver_id() -> Seq<u8> {
    seq!['i' as u8, 'v' as u8, 'e' as u8, 'r' as u8]
}

/// The identifier of the chunk `ICRD`.
pub open spec fn icrd_id() -> Seq<u8> {
    seq!['I' as u8, 'C' as u8, 'R' as u8, 'D' as u8]
}

/// The identifier of the chunk `IENG`.
pub open spec fn ieng_id() -> Seq<u8> {
    seq!['I' as u8, 'E' as u8, 'N' as u8, 'G' as u8]
}

/// The identifier of the chunk `IPRD`.
pub open spec fn iprd_id() -> Seq<u8> {
    seq!['I' as u8, 'P' as u8, 'R' as u8, 'D' as u8]
}

/// The identifier of the chunk `ICOP`.
pub open spec fn icop_id() -> Seq<u8> {
    seq!['I' as u8, 'C' as u8, 'O' as u8, 'P' as u8]
}

/// The identifier of the chunk `ICMT`.
pub open spec fn icmt_id() -> Seq<u8> {
    seq!['I' as u8, 'C' as u8, 'M' as u8, 'T' as u8]
}

/// The identifier of the chunk `ISFT`.
pub open spec fn isft_id() -> Seq<u8> {
    seq!['I' as u8, 'S' as u8, 'F' as u8, 'T' as u8]
}

/// Whether `value` is fit for a field of at most `limit` bytes: it is ASCII
/// and no longer than that. Where it is not, the error says which of the two
/// fails, and for the length gives the limit and the length in bytes.
pub open spec fn string_check(value: Seq<char>, limit: usize) -> Result<(), SoundfontError> {
    if !is_ascii_chars(value) {
        Err(SoundfontError::StringNonAscii)
    } else if encode_utf8(value).len() > limit {
        Err(SoundfontError::StringLimit { limit, len: encode_utf8(value).len() as usize })
    } else {
        Ok(())
    }
}

/// A string longer than its limit is refused. Where it is ASCII, the error
/// is that of the length, and gives the limit and the string's length in
/// bytes; where it is not, the error is that it is not ASCII.
pub proof fn lemma_overlong_string_is_refused(value: Seq<char>, limit: usize)
    requires
        encode_utf8(value).len() > limit,
    ensures
        string_check(value, limit) is Err,
        is_ascii_chars(value) ==> string_check(value, limit) == Err::<(), SoundfontError>(
            SoundfontError::StringLimit { limit, len: encode_utf8(value).len() as usize },
        ),
        !is_ascii_chars(value) ==> string_check(value, limit) == Err::<(), SoundfontError>(
            SoundfontError::StringNonAscii,
        ),
{
}

/// As `string_check`, of a string that may be absent: an absent one is fit.
pub open spec fn optional_string_check(value: Option<Seq<char>>, limit: usize) -> Result<
    (),
    SoundfontError,
> {
    match value {
        Some(text) => string_check(text, limit),
        None => Ok(()),
    }
}

/// What an optional string holds.
pub open spec fn optional_text(value: Option<String>) -> Option<Seq<char>> {
    match value {
        Some(text) => Some(text@),
        None => None,
    }
}

/// The chunk `id` of the string `value`, if there is one.
pub open spec fn optional_text_chunk(id: Seq<u8>, value: Option<Seq<char>>) -> Seq<ChunkModel> {
    match value {
        Some(text) => seq![ChunkModel::Data { id, body: text_encoding(text) }],
        None => Seq::empty(),
    }
}

/// The chunk `id` of the version `value`, if there is one.
pub open spec fn optional_version_chunk(id: Seq<u8>, value: Option<VersionTag>) -> Seq<ChunkModel> {
    match value {
        Some(version) => seq![ChunkModel::Data { id, body: version.encoding() }],
        None => Seq::empty(),
    }
}

/// Makes sure that `value` is ASCII and fits into `limit` bytes.
pub fn validate_string(value: &str, limit: usize) -> (outcome: Result<(), SoundfontError>)
    ensures
        outcome == string_check(value@, limit),
{
    if !value.is_ascii() {
        return Err(SoundfontError::StringNonAscii);
    }
    let len = value.as_bytes().len();
    if len > limit {
        return Err(SoundfontError::StringLimit { limit, len });
    }
    Ok(())
}

pub(crate) fn clone_text(value: &Option<String>) -> (copy: Option<String>)
    ensures
        optional_text(copy) == optional_text(*value),
{
    match value {
        Some(text) => Some(text.clone()),
        None => None,
    }
}

fn borrow_text(value: &Option<String>) -> (text: Option<&str>)
    ensures
        match text {
            Some(slice) => optional_text(*value) == Some(slice@),
            None => optional_text(*value) is None,
        },
{
    match value {
        Some(text) => Some(text.as_str()),
        None => None,
    }
}

/// The metadata of a bank: the chunk `INFO`.
#[derive(Debug)]
pub struct InfoList {
    /// Version of the format.
    ifil: VersionTag,
    /// Target sound engine.
    isng: String,
    /// Name of the bank.
    inam: String,
    /// Wavetable ROM identifier.
    irom: Option<String>,
    /// Wavetable ROM version.
    iver: Option<VersionTag>,
    /// Creation date.
    icrd: Option<String>,
    /// Author credits.
    ieng: Option<String>,
    /// Target product.
    iprd: Option<String>,
    /// Copyright message.
    icop: Option<String>,
    /// Comment or description.
    icmt: Option<String>,
    /// Name of the software that made the bank.
    isft: Option<String>,
}

/// What the metadata holds.
pub ghost struct InfoListView {
    pub ifil: VersionTag,
    pub isng: Seq<char>,
    pub inam: Seq<char>,
    pub irom: Option<Seq<char>>,
    pub iver: Option<VersionTag>,
    pub icrd: Option<Seq<char>>,
    pub ieng: Option<Seq<char>>,
    pub iprd: Option<Seq<char>>,
    pub icop: Option<Seq<char>>,
    pub icmt: Option<Seq<char>>,
    pub isft: Option<Seq<char>>,
}

impl InfoListView {
    /// Every string is ASCII and within its limit.
    pub open spec fn valid(self) -> bool {
        &&& string_check(self.isng, TEXT_LIMIT) is Ok
        &&& string_check(self.inam, TEXT_LIMIT) is Ok
        &&& optional_string_check(self.irom, TEXT_LIMIT) is Ok
        &&& optional_string_check(self.icrd, TEXT_LIMIT) is Ok
        &&& optional_string_check(self.ieng, TEXT_LIMIT) is Ok
        &&& optional_string_check(self.iprd, TEXT_LIMIT) is Ok
        &&& optional_string_check(self.icop, TEXT_LIMIT) is Ok
        &&& optional_string_check(self.icmt, COMMENT_LIMIT) is Ok
        &&& optional_string_check(self.isft, TEXT_LIMIT) is Ok
    }

    /// The metadata that a new list holds.
    pub open spec fn initial() -> InfoListView {
        InfoListView {
            ifil: VersionTag { major: 2, minor: 4 },
            isng: "EMU8000"@,
            inam: "A New Soundfont"@,
            irom: None,
            iver: None,
            icrd: None,
            ieng: None,
            iprd: None,
            icop: None,
            icmt: None,
            isft: None,
        }
    }

    /// The chunks of the metadata, in the order of the file: version, sound
    /// engine and name, then each of the others that is present.
    pub open spec fn sub_chunks(self) -> Seq<ChunkModel> {
        seq![
            ChunkModel::Data { id: ifil_id(), body: self.ifil.encoding() },
            ChunkModel::Data { id: isng_id(), body: text_encoding(self.isng) },
            ChunkModel::Data { id: inam_id(), body: text_encoding(self.inam) },
        ] + optional_text_chunk(irom_id(), self.irom) + optional_version_chunk(iver_id(), self.iver)
            + optional_text_chunk(icrd_id(), self.icrd) + optional_text_chunk(ieng_id(), self.ieng)
            + optional_text_chunk(iprd_id(), self.iprd) + optional_text_chunk(icop_id(), self.icop)
            + optional_text_chunk(icmt_id(), self.icmt) + optional_text_chunk(isft_id(), self.isft)
    }

    /// What `to_riff` builds: the list `INFO` of the chunks of the metadata.
    pub open spec fn riff_model(self) -> ChunkModel {
        ChunkModel::Children { id: list_id(), form: info_id(), children: self.sub_chunks() }
    }
}

impl View for InfoList {
    type V = InfoListView;

    closed spec fn view(&self) -> InfoListView {
        InfoListView {
            ifil: self.ifil,
            isng: self.isng@,
            inam: self.inam@,
            irom: optional_text(self.irom),
            iver: self.iver,
            icrd: optional_text(self.icrd),
            ieng: optional_text(self.ieng),
            iprd: optional_text(self.iprd),
            icop: optional_text(self.icop),
            icmt: optional_text(self.icmt),
            isft: optional_text(self.isft),
        }
    }
}

/// The metadata that a new list holds is valid.
pub proof fn lemma_initial_metadata_is_valid()
    ensures
        InfoListView::initial().valid(),
{
    reveal_strlit("EMU8000");
    reveal_strlit("A New Soundfont");
    vstd::utf8::is_ascii_chars_encode_utf8("EMU8000"@);
    vstd::utf8::is_ascii_chars_encode_utf8("A New Soundfont"@);
}

impl Default for InfoList {
    fn default() -> (list: Self)
        ensures
            list@ == InfoListView::initial(),
    {
        proof {
            lemma_initial_metadata_is_valid();
        }
        Self {
            ifil: VersionTag::new(2, 4),
            isng: String::from_str("EMU8000"),
            inam: String::from_str("A New Soundfont"),
            irom: None,
            iver: None,
            icrd: None,
            ieng: None,
            iprd: None,
            icop: None,
            icmt: None,
            isft: None,
        }
    }
}

impl Clone for InfoList {
    fn clone(&self) -> (copy: Self)
        ensures
            copy@ == self@,
    {
        proof {
            use_type_invariant(self);
        }
        Self {
            ifil: self.ifil,
            isng: self.isng.clone(),
            inam: self.inam.clone(),
            irom: clone_text(&self.irom),
            iver: self.iver,
            icrd: clone_text(&self.icrd),
            ieng: clone_text(&self.ieng),
            iprd: clone_text(&self.iprd),
            icop: clone_text(&self.icop),
            icmt: clone_text(&self.icmt),
            isft: clone_text(&self.isft),
        }
    }
}

fn push_text_chunk(contents: &mut Vec<ChunkContents>, id: [u8; 4], value: &Option<String>)
    ensures
        chunk_models(final(contents)@) == chunk_models(old(contents)@) + optional_text_chunk(
            id@,
            optional_text(*value),
        ),
{
    match value {
        Some(text) => {
            contents.push(data_chunk(id, string_to_bytes(text)));
        },
        None => {},
    }
    assert(chunk_models(contents@) =~= chunk_models(old(contents)@) + optional_text_chunk(
        id@,
        optional_text(*value),
    ));
}

impl InfoList {
    /// Every string of the metadata has passed its check.
    #[verifier::type_invariant]
    spec fn well_formed(&self) -> bool {
        self@.valid()
    }

    /// Wraps the metadata, each item in its chunk, in the list `INFO`.
    /// Every string in it is ASCII and within its limit.
    pub fn to_riff(&self) -> (chunk: ChunkContents)
        ensures
            chunk_model(chunk) == self@.riff_model(),
            self@.valid(),
    {
        proof {
            use_type_invariant(self);
        }
        let mut contents: Vec<ChunkContents> = Vec::new();
        contents.push(
            data_chunk(['i' as u8, 'f' as u8, 'i' as u8, 'l' as u8], self.ifil.to_bytes()),
        );
        contents.push(
            data_chunk(['i' as u8, 's' as u8, 'n' as u8, 'g' as u8], string_to_bytes(&self.isng)),
        );
        contents.push(
            data_chunk(['I' as u8, 'N' as u8, 'A' as u8, 'M' as u8], string_to_bytes(&self.inam)),
        );
        assert(chunk_models(contents@) =~= seq![
            ChunkModel::Data { id: ifil_id(), body: self@.ifil.encoding() },
            ChunkModel::Data { id: isng_id(), body: text_encoding(self@.isng) },
            ChunkModel::Data { id: inam_id(), body: text_encoding(self@.inam) },
        ]);
        push_text_chunk(&mut contents, ['i' as u8, 'r' as u8, 'o' as u8, 'm' as u8], &self.irom);
        match &self.iver {
            Some(version) => {
                contents.push(
                    data_chunk(['i' as u8, 'v' as u8, 'e' as u8, 'r' as u8], version.to_bytes()),
                );
            },
            None => {},
        }
        assert(chunk_models(contents@) =~= seq![
            ChunkModel::Data { id: ifil_id(), body: self@.ifil.encoding() },
            ChunkModel::Data { id: isng_id(), body: text_encoding(self@.isng) },
            ChunkModel::Data { id: inam_id(), body: text_encoding(self@.inam) },
        ] + optional_text_chunk(irom_id(), self@.irom) + optional_version_chunk(
            iver_id(),
            self@.iver,
        ));
        push_text_chunk(&mut contents, ['I' as u8, 'C' as u8, 'R' as u8, 'D' as u8], &self.icrd);
        push_text_chunk(&mut contents, ['I' as u8, 'E' as u8, 'N' as u8, 'G' as u8], &self.ieng);
        push_text_chunk(&mut contents, ['I' as u8, 'P' as u8, 'R' as u8, 'D' as u8], &self.iprd);
        push_text_chunk(&mut contents, ['I' as u8, 'C' as u8, 'O' as u8, 'P' as u8], &self.icop);
        push_text_chunk(&mut contents, ['I' as u8, 'C' as u8, 'M' as u8, 'T' as u8], &self.icmt);
        push_text_chunk(&mut contents, ['I' as u8, 'S' as u8, 'F' as u8, 'T' as u8], &self.isft);
        list_chunk(['I' as u8, 'N' as u8, 'F' as u8, 'O' as u8], contents)
    }

    /// Version of the format.
    pub fn ifil(&self) -> (version: &VersionTag)
        ensures
            *version == self@.ifil,
    {
        &self.ifil
    }

    /// Target sound engine.
    pub fn isng(&self) -> (engine: &String)
        ensures
            engine@ == self@.isng,
    {
        &self.isng
    }

    /// Name of the bank.
    pub fn inam(&self) -> (name: &String)
        ensures
            name@ == self@.inam,
    {
        &self.inam
    }

    /// Wavetable ROM identifier.
    pub fn irom(&self) -> (text: Option<&str>)
        ensures
            match text {
                Some(slice) => self@.irom == Some(slice@),
                None => self@.irom is None,
            },
    {
        borrow_text(&self.irom)
    }

    /// Wavetable ROM version.
    pub fn iver(&self) -> (version: Option<&VersionTag>)
        ensures
            match version {
                Some(tag) => self@.iver == Some(*tag),
                None => self@.iver is None,
            },
    {
        match &self.iver {
            Some(tag) => Some(tag),
            None => None,
        }
    }

    /// Creation date, as in "December 6, 1917".
    pub fn icrd(&self) -> (text: Option<&str>)
        ensures
            match text {
                Some(slice) => self@.icrd == Some(slice@),
                None => self@.icrd is None,
            },
    {
        borrow_text(&self.icrd)
    }

    /// Author credits.
    pub fn ieng(&self) -> (text: Option<&str>)
        ensures
            match text {
                Some(slice) => self@.ieng == Some(slice@),
                None => self@.ieng is None,
            },
    {
        borrow_text(&self.ieng)
    }

    /// Target product, as in "SBAWE32".
    pub fn iprd(&self) -> (text: Option<&str>)
        ensures
            match text {
                Some(slice) => self@.iprd == Some(slice@),
                None => self@.iprd is None,
            },
    {
        borrow_text(&self.iprd)
    }

    /// Copyright message.
    pub fn icop(&self) -> (text: Option<&str>)
        ensures
            match text {
                Some(slice) => self@.icop == Some(slice@),
                None => self@.icop is None,
            },
    {
        borrow_text(&self.icop)
    }

    /// Comment or description.
    pub fn icmt(&self) -> (text: Option<&str>)
        ensures
            match text {
                Some(slice) => self@.icmt == Some(slice@),
                None => self@.icmt is None,
            },
    {
        borrow_text(&self.icmt)
    }

    /// Name of the software that made the bank and of the one that last
    /// edited it, as in "SoundFont Compiler v0.0.0:SoundFont Editor v0.0.0".
    pub fn isft(&self) -> (text: Option<&str>)
        ensures
            match text {
                Some(slice) => self@.isft == Some(slice@),
                None => self@.isft is None,
            },
    {
        borrow_text(&self.isft)
    }

    /// Sets the version of the format. Banks are written as version 2.04.
    pub fn set_ifil(&mut self, version: VersionTag)
        ensures
            final(self)@ == (InfoListView { ifil: version, ..old(self)@ }),
    {
        proof {
            use_type_invariant(&*self);
        }
        self.ifil = version
    }

    /// Sets the target sound engine, if the string is ASCII and fits into 256
    /// bytes; leaves the metadata as it is otherwise.
    pub fn set_isng(&mut self, engine: String) -> (outcome: Result<(), SoundfontError>)
        ensures
            outcome == string_check(engine@, TEXT_LIMIT),
            outcome is Ok ==> final(self)@ == (InfoListView { isng: engine@, ..old(self)@ }),
            outcome is Err ==> final(self)@ == old(self)@,
    {
        match validate_string(engine.as_str(), TEXT_LIMIT) {
            Ok(()) => {},
            Err(error) => {
                return Err(error);
            },
        }
        proof {
            use_type_invariant(&*self);
        }
        self.isng = engine;
        Ok(())
    }

    /// Sets the name of the bank, if the string is ASCII and fits into 256
    /// bytes; leaves the metadata as it is otherwise.
    pub fn set_inam(&mut self, name: String) -> (outcome: Result<(), SoundfontError>)
        ensures
            outcome == string_check(name@, TEXT_LIMIT),
            outcome is Ok ==> final(self)@ == (InfoListView { inam: name@, ..old(self)@ }),
            outcome is Err ==> final(self)@ == old(self)@,
    {
        match validate_string(name.as_str(), TEXT_LIMIT) {
            Ok(()) => {},
            Err(error) => {
                return Err(error);
            },
        }
        proof {
            use_type_invariant(&*self);
        }
        self.inam = name;
        Ok(())
    }

    /// Sets or clears the wavetable ROM identifier. A string is taken if it is ASCII and fits into
    /// 256 bytes; otherwise the metadata stays as it is.
    pub fn set_irom(&mut self, rom_name: Option<String>) -> (outcome: Result<(), SoundfontError>)
        ensures
            outcome == optional_string_check(optional_text(rom_name), TEXT_LIMIT),
            outcome is Ok ==> final(self)@ == (InfoListView {
                irom: optional_text(rom_name),
                ..old(self)@
            }),
            outcome is Err ==> final(self)@ == old(self)@,
    {
        match &rom_name {
            Some(value) => {
                match validate_string(value.as_str(), TEXT_LIMIT) {
                    Ok(()) => {},
                    Err(error) => {
                        return Err(error);
                    },
                }
            },
            None => {},
        }
        proof {
            use_type_invariant(&*self);
        }
        self.irom = rom_name;
        Ok(())
    }

    /// Sets or clears the wavetable ROM version.
    pub fn set_iver(&mut self, rom_version: Option<VersionTag>)
        ensures
            final(self)@ == (InfoListView { iver: rom_version, ..old(self)@ }),
    {
        proof {
            use_type_invariant(&*self);
        }
        self.iver = rom_version;
    }

    /// Sets or clears the creation date. A string is taken if it is ASCII and fits into
    /// 256 bytes; otherwise the metadata stays as it is.
    pub fn set_icrd(&mut self, creation_date: Option<String>) -> (outcome: Result<(), SoundfontError>)
        ensures
            outcome == optional_string_check(optional_text(creation_date), TEXT_LIMIT),
            outcome is Ok ==> final(self)@ == (InfoListView {
                icrd: optional_text(creation_date),
                ..old(self)@
            }),
            outcome is Err ==> final(self)@ == old(self)@,
    {
        match &creation_date {
            Some(value) => {
                match validate_string(value.as_str(), TEXT_LIMIT) {
                    Ok(()) => {},
                    Err(error) => {
                        return Err(error);
                    },
                }
            },
            None => {},
        }
        proof {
            use_type_invariant(&*self);
        }
        self.icrd = creation_date;
        Ok(())
    }

    /// Sets or clears the author credits. A string is taken if it is ASCII and fits into
    /// 256 bytes; otherwise the metadata stays as it is.
    pub fn set_ieng(&mut self, authors: Option<String>) -> (outcome: Result<(), SoundfontError>)
        ensures
            outcome == optional_string_check(optional_text(authors), TEXT_LIMIT),
            outcome is Ok ==> final(self)@ == (InfoListView {
                ieng: optional_text(authors),
                ..old(self)@
            }),
            outcome is Err ==> final(self)@ == old(self)@,
    {
        match &authors {
            Some(value) => {
                match validate_string(value.as_str(), TEXT_LIMIT) {
                    Ok(()) => {},
                    Err(error) => {
                        return Err(error);
                    },
                }
            },
            None => {},
        }
        proof {
            use_type_invariant(&*self);
        }
        self.ieng = authors;
        Ok(())
    }

    /// Sets or clears the target product. A string is taken if it is ASCII and fits into
    /// 256 bytes; otherwise the metadata stays as it is.
    pub fn set_iprd(&mut self, target_product: Option<String>) -> (outcome: Result<(), SoundfontError>)
        ensures
            outcome == optional_string_check(optional_text(target_product), TEXT_LIMIT),
            outcome is Ok ==> final(self)@ == (InfoListView {
                iprd: optional_text(target_product),
                ..old(self)@
            }),
            outcome is Err ==> final(self)@ == old(self)@,
    {
        match &target_product {
            Some(value) => {
                match validate_string(value.as_str(), TEXT_LIMIT) {
                    Ok(()) => {},
                    Err(error) => {
                        return Err(error);
                    },
                }
            },
            None => {},
        }
        proof {
            use_type_invariant(&*self);
        }
        self.iprd = target_product;
        Ok(())
    }

    /// Sets or clears the copyright message. A string is taken if it is ASCII and fits into
    /// 256 bytes; otherwise the metadata stays as it is.
    pub fn set_icop(&mut self, copyright: Option<String>) -> (outcome: Result<(), SoundfontError>)
        ensures
            outcome == optional_string_check(optional_text(copyright), TEXT_LIMIT),
            outcome is Ok ==> final(self)@ == (InfoListView {
                icop: optional_text(copyright),
                ..old(self)@
            }),
            outcome is Err ==> final(self)@ == old(self)@,
    {
        match &copyright {
            Some(value) => {
                match validate_string(value.as_str(), TEXT_LIMIT) {
                    Ok(()) => {},
                    Err(error) => {
                        return Err(error);
                    },
                }
            },
            None => {},
        }
        proof {
            use_type_invariant(&*self);
        }
        self.icop = copyright;
        Ok(())
    }

    /// Sets or clears the comment. A string is taken if it is ASCII and fits into
    /// 65536 bytes; otherwise the metadata stays as it is.
    pub fn set_icmt(&mut self, comments: Option<String>) -> (outcome: Result<(), SoundfontError>)
        ensures
            outcome == optional_string_check(optional_text(comments), COMMENT_LIMIT),
            outcome is Ok ==> final(self)@ == (InfoListView {
                icmt: optional_text(comments),
                ..old(self)@
            }),
            outcome is Err ==> final(self)@ == old(self)@,
    {
        match &comments {
            Some(value) => {
                match validate_string(value.as_str(), COMMENT_LIMIT) {
                    Ok(()) => {},
                    Err(error) => {
                        return Err(error);
                    },
                }
            },
            None => {},
        }
        proof {
            use_type_invariant(&*self);
        }
        self.icmt = comments;
        Ok(())
    }

    /// Sets or clears the name of the software. A string is taken if it is ASCII and fits into
    /// 256 bytes; otherwise the metadata stays as it is.
    pub fn set_isft(&mut self, software_name: Option<String>) -> (outcome: Result<(), SoundfontError>)
        ensures
            outcome == optional_string_check(optional_text(software_name), TEXT_LIMIT),
            outcome is Ok ==> final(self)@ == (InfoListView {
                isft: optional_text(software_name),
                ..old(self)@
            }),
            outcome is Err ==> final(self)@ == old(self)@,
    {
        match &software_name {
            Some(value) => {
                match validate_string(value.as_str(), TEXT_LIMIT) {
                    Ok(()) => {},
                    Err(error) => {
                        return Err(error);
                    },
                }
            },
            None => {},
        }
        proof {
            use_type_invariant(&*self);
        }
        self.isft = software_name;
        Ok(())
    }
}

} // verus!
