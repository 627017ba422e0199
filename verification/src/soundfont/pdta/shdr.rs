//! The sample headers.

use crate::soundfont::bytes::{
    le_u16, le_u32, name_field, push_i8, push_name, push_u16, push_u32, twos_i8, NAME_WIDTH,
};
use crate::soundfont::chunk::{chunk_model, data_chunk, ChunkModel};
use crate::soundfont::record::{body, lemma_body_take, list_encodable, Record};
use crate::soundfont::SoundfontError;
use riff::ChunkContents;
use vstd::prelude::*;
use vstd::string::StringExecFns;
use vstd::utf8::encode_utf8;

verus! {

/// Width in bytes of an encoded sample header.
pub const SHDR_WIDTH: usize = 46;

/// Fewest points of a sample.
pub const MIN_SAMPLE_POINTS: u32 = 48;

/// Fewest points of a sample's loop.
pub const MIN_LOOP_POINTS: u32 = 32;

/// Fewest points between a sample's start and its loop, and between its loop
/// and its end.
pub const MIN_LOOP_MARGIN: u32 = 8;

/// The identifier of the sample header chunk.
pub open spec fn shdr_id() -> Seq<u8> {
    seq!['s' as u8, 'h' as u8, 'd' as u8, 'r' as u8]
}

/// The name of the terminal sample header.
pub open spec fn terminal_sample_name() -> Seq<char> {
    "EOS"@
}

/// The list of sample headers, closed by a terminal header.
#[derive(Debug, Clone)]
pub struct SampleList {
    pub contents: Vec<SampleHeader>,
}

/// A sample: its name, where its points and its loop lie in the sample
/// buffer, and how it is played.
#[derive(Debug)]
pub struct SampleHeader {
    /// At most 20 bytes.
    pub name: String,
    /// Index of the sample's first point.
    pub start: u32,
    /// Index after the sample's last point.
    pub end: u32,
    /// Index of the loop's first point.
    pub startloop: u32,
    /// Index after the loop's last point.
    pub endloop: u32,
    /// Points per second.
    pub sample_rate: u32,
    /// MIDI key of the recorded pitch.
    pub original_pitch: u8,
    /// Correction of the pitch, in cents.
    pub pitch_correction: i8,
    /// Index of the header of the other channel, if there is one.
    pub sample_link: u16,
    /// 1 for a mono sample.
    pub sample_type: u16,
}

/// What a sample header holds.
pub ghost struct SampleHeaderView {
    pub name: Seq<char>,
    pub start: u32,
    pub end: u32,
    pub startloop: u32,
    pub endloop: u32,
    pub sample_rate: u32,
    pub original_pitch: u8,
    pub pitch_correction: i8,
    pub sample_link: u16,
    pub sample_type: u16,
}

impl Record for SampleHeaderView {
    open spec fn width() -> nat {
        SHDR_WIDTH as nat
    }

    /// The name fits its field.
    open spec fn encodable(self) -> bool {
        encode_utf8(self.name).len() <= NAME_WIDTH
    }

    /// The 46 bytes of the header: the name field; start, end, loop start,
    /// loop end and rate in four bytes each; pitch and correction in one
    /// each; link and type in two each.
    open spec fn encoding(self) -> Seq<u8> {
        name_field(encode_utf8(self.name)) + le_u32(self.start) + le_u32(self.end) + le_u32(
            self.startloop,
        ) + le_u32(self.endloop) + le_u32(self.sample_rate) + seq![self.original_pitch] + seq![
            twos_i8(self.pitch_correction),
        ] + le_u16(self.sample_link) + le_u16(self.sample_type)
    }

    proof fn lemma_encoding_fills_width(self) {
    }
}

impl SampleHeaderView {
    /// Every numeric field is zero.
    pub open spec fn is_null(self) -> bool {
        &&& self.start == 0
        &&& self.end == 0
        &&& self.startloop == 0
        &&& self.endloop == 0
        &&& self.sample_rate == 0
        &&& self.original_pitch == 0
        &&& self.pitch_correction == 0
        &&& self.sample_link == 0
        &&& self.sample_type == 0
    }

    /// The first rule that the header breaks, if it breaks one. A header
    /// named as the terminal must be null. Any other has at least 48 points,
    /// a loop of at least 32, and at least 8 before and after the loop.
    pub open spec fn check(self) -> Result<(), SoundfontError> {
        if self.name == terminal_sample_name() {
            if self.is_null() {
                Ok(())
            } else {
                Err(SoundfontError::SampleTerminalNotNull)
            }
        } else if self.end - self.start < MIN_SAMPLE_POINTS {
            Err(SoundfontError::SampleTooShort)
        } else if self.endloop - self.startloop < MIN_LOOP_POINTS {
            Err(SoundfontError::SampleLoopTooShort)
        } else if self.startloop - self.start < MIN_LOOP_MARGIN {
            Err(SoundfontError::SampleLoopNotEnoughLead)
        } else if self.end - self.endloop < MIN_LOOP_MARGIN {
            Err(SoundfontError::SampleLoopNotEnoughTail)
        } else {
            Ok(())
        }
    }

    /// The header that closes the list: named as the terminal, and null.
    pub open spec fn terminal() -> SampleHeaderView {
        SampleHeaderView {
            name: terminal_sample_name(),
            start: 0,
            end: 0,
            startloop: 0,
            endloop: 0,
            sample_rate: 0,
            original_pitch: 0,
            pitch_correction: 0,
            sample_link: 0,
            sample_type: 0,
        }
    }
}

impl View for SampleHeader {
    type V = SampleHeaderView;

    open spec fn view(&self) -> SampleHeaderView {
        SampleHeaderView {
            name: self.name@,
            start: self.start,
            end: self.end,
            startloop: self.startloop,
            endloop: self.endloop,
            sample_rate: self.sample_rate,
            original_pitch: self.original_pitch,
            pitch_correction: self.pitch_correction,
            sample_link: self.sample_link,
            sample_type: self.sample_type,
        }
    }
}

impl Clone for SampleHeader {
    fn clone(&self) -> (copy: Self)
        ensures
            copy@ == self@,
    {
        SampleHeader {
            name: self.name.clone(),
            start: self.start,
            end: self.end,
            startloop: self.startloop,
            endloop: self.endloop,
            sample_rate: self.sample_rate,
            original_pitch: self.original_pitch,
            pitch_correction: self.pitch_correction,
            sample_link: self.sample_link,
            sample_type: self.sample_type,
        }
    }
}

impl SampleHeader {
    /// Whether the name fits its field.
    pub fn is_encodable(&self) -> (fits: bool)
        ensures
            fits == self@.encodable(),
    {
        self.name.as_str().as_bytes().len() <= NAME_WIDTH
    }

    /// Encodes the header in 46 bytes.
    pub fn to_bytes(&self) -> (bytes: Vec<u8>)
        requires
            self@.encodable(),
        ensures
            bytes@ == self@.encoding(),
            bytes@.len() == SHDR_WIDTH,
    {
        let mut bytes: Vec<u8> = Vec::new();
        push_name(&mut bytes, self.name.as_str());
        push_u32(&mut bytes, self.start);
        push_u32(&mut bytes, self.end);
        push_u32(&mut bytes, self.startloop);
        push_u32(&mut bytes, self.endloop);
        push_u32(&mut bytes, self.sample_rate);
        bytes.push(self.original_pitch);
        push_i8(&mut bytes, self.pitch_correction);
        push_u16(&mut bytes, self.sample_link);
        push_u16(&mut bytes, self.sample_type);
        assert(bytes@ =~= self@.encoding());
        bytes
    }

    /// Holds the header to the rules on sample headers, and names the first
    /// that it breaks.
    pub fn validate(&self) -> (outcome: Result<(), SoundfontError>)
        ensures
            outcome == self@.check(),
    {
        let terminal_name = String::from_str("EOS");
        if self.name == terminal_name {
            if self.start != 0 || self.end != 0 || self.startloop != 0 || self.endloop != 0
                || self.sample_rate != 0 || self.original_pitch != 0 || self.pitch_correction != 0
                || self.sample_link != 0 || self.sample_type != 0 {
                return Err(SoundfontError::SampleTerminalNotNull);
            }
            return Ok(());
        }
        if self.end < self.start || self.end - self.start < MIN_SAMPLE_POINTS {
            return Err(SoundfontError::SampleTooShort);
        }
        if self.endloop < self.startloop || self.endloop - self.startloop < MIN_LOOP_POINTS {
            return Err(SoundfontError::SampleLoopTooShort);
        }
        if self.startloop < self.start || self.startloop - self.start < MIN_LOOP_MARGIN {
            return Err(SoundfontError::SampleLoopNotEnoughLead);
        }
        if self.end < self.endloop || self.end - self.endloop < MIN_LOOP_MARGIN {
            return Err(SoundfontError::SampleLoopNotEnoughTail);
        }
        Ok(())
    }

    /// The header that closes the list.
    pub fn terminal() -> (header: Self)
        ensures
            header@ == SampleHeaderView::terminal(),
    {
        SampleHeader {
            name: String::from_str("EOS"),
            start: 0,
            end: 0,
            startloop: 0,
            endloop: 0,
            sample_rate: 0,
            original_pitch: 0,
            pitch_correction: 0,
            sample_link: 0,
            sample_type: 0,
        }
    }
}

impl View for SampleList {
    type V = Seq<SampleHeaderView>;

    open spec fn view(&self) -> Seq<SampleHeaderView> {
        Seq::new(self.contents@.len(), |i: int| self.contents@[i]@)
    }
}

impl Default for SampleList {
    fn default() -> (list: Self)
        ensures
            list@ == Seq::<SampleHeaderView>::empty(),
    {
        Self::new()
    }
}

impl SampleList {
    /// The empty list.
    pub fn new() -> (list: Self)
        ensures
            list@ == Seq::<SampleHeaderView>::empty(),
    {
        let list = Self { contents: Vec::new() };
        assert(list@ =~= Seq::<SampleHeaderView>::empty());
        list
    }

    /// Whether the list can be encoded: it holds a record, and the name of
    /// every record fits its field.
    pub fn is_encodable(&self) -> (fits: bool)
        ensures
            fits == list_encodable(self@),
    {
        if self.contents.len() == 0 {
            return false;
        }
        let mut i: usize = 0;
        while i < self.contents.len()
            invariant
                i <= self@.len(),
                forall|j: int| 0 <= j < i ==> (#[trigger] self@[j]).encodable(),
            decreases self@.len() - i,
        {
            assert(self@[i as int] == self.contents@[i as int]@);
            if !self.contents[i].is_encodable() {
                return false;
            }
            i += 1;
        }
        true
    }

    /// Wraps the encodings of the headers, laid end to end, in the chunk
    /// `shdr`. Its body is a whole number of records, at least one.
    pub fn to_riff(&self) -> (chunk: ChunkContents)
        requires
            list_encodable(self@),
        ensures
            chunk_model(chunk) == (ChunkModel::Data { id: shdr_id(), body: body(self@) }),
            body(self@).len() == SHDR_WIDTH * self@.len(),
            body(self@).len() > 0,
    {
        let mut bytes: Vec<u8> = Vec::new();
        let mut i: usize = 0;
        while i < self.contents.len()
            invariant
                i <= self@.len(),
                list_encodable(self@),
                bytes@ == body(self@.take(i as int)),
                bytes@.len() == SHDR_WIDTH * i,
            decreases self@.len() - i,
        {
            assert(self@[i as int] == self.contents@[i as int]@);
            let mut record = self.contents[i].to_bytes();
            proof {
                lemma_body_take(self@, i as int);
            }
            bytes.append(&mut record);
            i += 1;
        }
        assert(self@.take(i as int) =~= self@);
        data_chunk(['s' as u8, 'h' as u8, 'd' as u8, 'r' as u8], bytes)
    }
}

} // verus!
