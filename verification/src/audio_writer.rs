//! Choosing an audio output configuration.
//!
//! The audio host reports a list of supported output configuration
//! ranges; the rules for picking one are pure and live here.  The
//! driver types themselves stay outside: the caller hands over each
//! range's plain facts.

use vstd::prelude::*;

verus! {

/// What the application asks of the audio output.
#[derive(Clone, Copy, Debug, PartialEq, Eq, Structural)]
pub struct RequestedConfig {
    pub min_sample_rate: u32,
    pub max_sample_rate: u32,
    pub pref_sample_rate: u32,
    pub buffer_size: u32,
    pub num_channels: u16,
}

/// The plain facts of one output configuration range the audio host
/// reports: its sample format, channel count, sample-rate span, and
/// — when the driver reports one — its buffer-size span.
#[derive(Clone, Copy, Debug, PartialEq, Eq, Structural)]
pub struct SupportedConfigRange {
    pub sample_format_i16: bool,
    pub channels: u16,
    pub min_sample_rate: u32,
    pub max_sample_rate: u32,
    pub has_buffer_range: bool,
    pub min_buffer_size: u32,
    pub max_buffer_size: u32,
}

/// A range is usable when it offers signed 16-bit samples, its
/// sample-rate span intersects the requested one, and its reported
/// buffer-size span covers the requested buffer size.
pub open spec fn spec_range_usable(range: SupportedConfigRange, req: RequestedConfig) -> bool {
    &&& range.sample_format_i16
    &&& (if req.min_sample_rate >= range.min_sample_rate {
        req.min_sample_rate
    } else {
        range.min_sample_rate
    }) <= (if req.max_sample_rate <= range.max_sample_rate {
        req.max_sample_rate
    } else {
        range.max_sample_rate
    })
    &&& range.has_buffer_range
    &&& range.min_buffer_size <= req.buffer_size
    &&& range.max_buffer_size >= req.buffer_size
}

/// A preferred range is usable and has exactly the requested channel
/// count.
pub open spec fn spec_range_preferred(range: SupportedConfigRange, req: RequestedConfig) -> bool {
    spec_range_usable(range, req) && range.channels == req.num_channels
}

/// An acceptable range is usable with at most two channels.
pub open spec fn spec_range_acceptable(range: SupportedConfigRange, req: RequestedConfig) -> bool {
    spec_range_usable(range, req) && range.channels <= 2
}

fn range_usable(range: &SupportedConfigRange, req: &RequestedConfig) -> (r: bool)
    ensures
        r == spec_range_usable(*range, *req),
{
    let min_rate = if req.min_sample_rate >= range.min_sample_rate {
        req.min_sample_rate
    } else {
        range.min_sample_rate
    };
    let max_rate = if req.max_sample_rate <= range.max_sample_rate {
        req.max_sample_rate
    } else {
        range.max_sample_rate
    };
    range.sample_format_i16 && min_rate <= max_rate && range.has_buffer_range
        && range.min_buffer_size <= req.buffer_size && range.max_buffer_size >= req.buffer_size
}

/// The first reported range matching the request exactly in channel
/// count, or `None`.
pub fn find_preferred_config(ranges: &Vec<SupportedConfigRange>, req: &RequestedConfig) -> (r:
    Option<usize>)
    ensures
        match r {
            Some(i) => {
                &&& i < ranges@.len()
                &&& spec_range_preferred(ranges@[i as int], *req)
                &&& forall|m: int| 0 <= m < i ==> !spec_range_preferred(#[trigger] ranges@[m], *req)
            },
            None => forall|m: int|
                0 <= m < ranges@.len() ==> !spec_range_preferred(#[trigger] ranges@[m], *req),
        },
{
    let mut i: usize = 0;
    while i < ranges.len()
        invariant
            i <= ranges@.len(),
            forall|m: int| 0 <= m < i ==> !spec_range_preferred(#[trigger] ranges@[m], *req),
        decreases ranges@.len() - i,
    {
        if range_usable(&ranges[i], req) && ranges[i].channels == req.num_channels {
            return Some(i);
        }
        i = i + 1;
    }
    None
}

/// The first reported range usable with at most two channels, or
/// `None`.
pub fn find_acceptable_config(ranges: &Vec<SupportedConfigRange>, req: &RequestedConfig) -> (r:
    Option<usize>)
    ensures
        match r {
            Some(i) => {
                &&& i < ranges@.len()
                &&& spec_range_acceptable(ranges@[i as int], *req)
                &&& forall|m: int|
                    0 <= m < i ==> !spec_range_acceptable(#[trigger] ranges@[m], *req)
            },
            None => forall|m: int|
                0 <= m < ranges@.len() ==> !spec_range_acceptable(#[trigger] ranges@[m], *req),
        },
{
    let mut i: usize = 0;
    while i < ranges.len()
        invariant
            i <= ranges@.len(),
            forall|m: int| 0 <= m < i ==> !spec_range_acceptable(#[trigger] ranges@[m], *req),
        decreases ranges@.len() - i,
    {
        if range_usable(&ranges[i], req) && ranges[i].channels <= 2 {
            return Some(i);
        }
        i = i + 1;
    }
    None
}

/// The sample rate to ask of a chosen range: the preferred rate
/// clamped into the range's span.
pub fn clamp_sample_rate(pref: u32, min: u32, max: u32) -> (r: u32)
    requires
        min <= max,
    ensures
        r == (if pref < min {
            min
        } else if pref > max {
            max
        } else {
            pref
        }),
{
    if pref < min {
        min
    } else if pref > max {
        max
    } else {
        pref
    }
}

} // verus!
