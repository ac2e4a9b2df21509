//! Decisions of the playback sink: when the external consumer must be
//! (re)started and which format flag it is started with. The caller spawns
//! the process and writes to it.
use vstd::prelude::*;

use crate::packet::SampleFormat;
use crate::packet_data::Meta;

verus! {

/// Whether the external consumer must be torn down and started again before
/// writing a payload of format `meta`: when none runs, or when it was
/// started for another format.
pub fn must_respawn(running: bool, last_meta: Option<Meta>, meta: Meta) -> (r: bool)
    ensures
        r == (!running || last_meta != Some(meta)),
{
    if !running {
        return true;
    }
    match last_meta {
        Some(m) => !(m.channels == meta.channels && m.sample_rate.0 == meta.sample_rate.0
            && m.sample_format == meta.sample_format),
        None => true,
    }
}

/// The consumer's name for a sample format; f32 for the others.
pub fn consumer_format_name(fmt: SampleFormat) -> (r: &'static str)
    ensures
        fmt == SampleFormat::I16 ==> r == "s16",
        fmt == SampleFormat::U16 ==> r == "u16",
        fmt != SampleFormat::I16 && fmt != SampleFormat::U16 ==> r == "f32",
{
    match fmt {
        SampleFormat::I16 => "s16",
        SampleFormat::U16 => "u16",
        _ => "f32",
    }
}

} // verus!
