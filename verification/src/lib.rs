//! Compiles a description of an instrument bank into a SoundFont 2 bank: its
//! metadata, its sample buffer and the nine lists of its preset data, which
//! refer to each other by index.
//!
//! A bank is described by presets, each with zones that play instruments,
//! each of those with zones that play samples ([`compiler::PrePreset`],
//! [`compiler::PreInstrument`], [`compiler::PreInstZone`]). The zones of a
//! preset and of an instrument are lists: the order in which they stand is
//! the order in which they are compiled. A description is held to the rules
//! of the format when it is made: a name that does not fit a record, or a
//! sample that the rules on sample headers refuse, makes no descriptor.
//!
//! [`compiler::compile`] turns the presets into a [`soundfont::SoundFont2`],
//! or in two steps [`compiler::FontData::assemble`] and
//! [`compiler::FontData::generate_soundfont`]. What they build is
//! [`compiler::hydra::bank_lists`], closed by terminal records, and
//! [`compiler::laws`] states what holds of every such bank.
//! [`soundfont::SoundFont2::to_riff`] lays the bank out as a tree of RIFF
//! chunks, in which every record has its fixed width.

pub mod compiler;
pub mod soundfont;
