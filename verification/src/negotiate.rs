//! Output device negotiation: scoring the device's advertised
//! configuration ranges against a decoded source and picking the best
//! match.
//!
//! Candidates are filtered to those that can carry the source at all — a
//! nonzero channel count and a sample-rate range covering the source's
//! rate — and the remaining ones are ranked by a channel score plus a
//! format score. No resampling is attempted: when no candidate covers the
//! source rate, negotiation fails.

use vstd::prelude::*;

use crate::playback::AudioMetadata;

verus! {

/// A device's native sample representation.
#[derive(Clone, Copy, Debug, PartialEq, Eq, Structural)]
pub enum SampleFormat {
    U16,
    I16,
    I24,
    I32,
    F32,
}

/// One advertised output capability: a channel count, a supported
/// sample-rate range, and the native sample representation. Queried fresh
/// from the device for each playback request.
#[derive(Clone, Copy, Debug)]
pub struct CandidateOutputConfig {
    pub channels: u16,
    pub min_sample_rate: u32,
    pub max_sample_rate: u32,
    pub sample_format: SampleFormat,
}

/// Channel score: an exact channel-count match is worth 2, more channels
/// than the source needs 1, fewer 0.
pub open spec fn channel_score_spec(input: u16, candidate: u16) -> u16 {
    if input == candidate {
        2
    } else if input < candidate {
        1
    } else {
        0
    }
}

/// Format score: a native representation exactly matching the source bit
/// depth is worth 2; a lossless upcast (16-bit into a wider integer or
/// float, 24-bit into 32-bit) 1; anything else 0.
pub open spec fn format_score_spec(bit_depth: u16, f: SampleFormat) -> u16 {
    if (bit_depth == 16 && f == SampleFormat::I16) || (bit_depth == 24 && f == SampleFormat::I24)
        || (bit_depth == 32 && f == SampleFormat::I32) {
        2
    } else if (bit_depth == 16 && (f == SampleFormat::I24 || f == SampleFormat::I32 || f
        == SampleFormat::F32)) || (bit_depth == 24 && f == SampleFormat::I32) {
        1
    } else {
        0
    }
}

/// Total score of a candidate against a source.
pub open spec fn config_score_spec(meta: AudioMetadata, c: CandidateOutputConfig) -> u16 {
    (channel_score_spec(meta.channels, c.channels) + format_score_spec(
        meta.bit_depth,
        c.sample_format,
    )) as u16
}

/// Scores one candidate configuration against the source's properties.
pub fn get_config_score(input_meta: &AudioMetadata, config: &CandidateOutputConfig) -> (s: u16)
    ensures
        s == config_score_spec(*input_meta, *config),
{
    let channel_score: u16 = if input_meta.channels == config.channels {
        2
    } else if input_meta.channels < config.channels {
        1
    } else {
        0
    };
    let format_score: u16 = if (input_meta.bit_depth == 16 && config.sample_format
        == SampleFormat::I16) || (input_meta.bit_depth == 24 && config.sample_format
        == SampleFormat::I24) || (input_meta.bit_depth == 32 && config.sample_format
        == SampleFormat::I32) {
        2
    } else if (input_meta.bit_depth == 16 && (config.sample_format == SampleFormat::I24
        || config.sample_format == SampleFormat::I32 || config.sample_format
        == SampleFormat::F32)) || (input_meta.bit_depth == 24 && config.sample_format
        == SampleFormat::I32) {
        1
    } else {
        0
    };
    channel_score + format_score
}

/// Whether a candidate can carry the source at all: it offers at least one
/// channel and its sample-rate range covers the source's rate.
pub open spec fn candidate_usable_spec(meta: AudioMetadata, c: CandidateOutputConfig) -> bool {
    c.channels > 0 && c.min_sample_rate <= meta.sample_rate && meta.sample_rate
        <= c.max_sample_rate
}

/// Whether a candidate can carry the source: nonzero channels and a rate
/// range covering the source rate.
pub fn candidate_usable(meta: &AudioMetadata, c: &CandidateOutputConfig) -> (r: bool)
    ensures
        r == candidate_usable_spec(*meta, *c),
{
    c.channels > 0 && c.min_sample_rate <= meta.sample_rate && meta.sample_rate
        <= c.max_sample_rate
}

/// Picks the best output configuration for the source: among the usable
/// candidates, one with the highest score — the last such one in device
/// order, as a stable ascending sort followed by taking the top yields.
/// Returns its index, or nothing when no candidate is usable.
pub fn choose_output_config(meta: &AudioMetadata, configs: &Vec<CandidateOutputConfig>) -> (r:
    Option<usize>)
    ensures
        r is None <==> forall|i: int|
            0 <= i < configs@.len() ==> !candidate_usable_spec(*meta, #[trigger] configs@[i]),
        match r {
            Some(k) => {
                &&& k < configs@.len()
                &&& candidate_usable_spec(*meta, configs@[k as int])
                &&& forall|i: int|
                    0 <= i < configs@.len() && candidate_usable_spec(*meta, #[trigger] configs@[i])
                        ==> config_score_spec(*meta, configs@[i]) <= config_score_spec(
                        *meta,
                        configs@[k as int],
                    )
                &&& forall|i: int|
                    k < i < configs@.len() && candidate_usable_spec(*meta, #[trigger] configs@[i])
                        ==> config_score_spec(*meta, configs@[i]) < config_score_spec(
                        *meta,
                        configs@[k as int],
                    )
            },
            None => true,
        },
{
    let mut best: Option<usize> = None;
    let mut best_score: u16 = 0;
    let mut i: usize = 0;
    while i < configs.len()
        invariant
            i <= configs.len(),
            best is None <==> forall|j: int|
                0 <= j < i ==> !candidate_usable_spec(*meta, #[trigger] configs@[j]),
            match best {
                Some(k) => {
                    &&& k < i
                    &&& candidate_usable_spec(*meta, configs@[k as int])
                    &&& best_score == config_score_spec(*meta, configs@[k as int])
                    &&& forall|j: int|
                        0 <= j < i && candidate_usable_spec(*meta, #[trigger] configs@[j])
                            ==> config_score_spec(*meta, configs@[j]) <= best_score
                    &&& forall|j: int|
                        k < j < i && candidate_usable_spec(*meta, #[trigger] configs@[j])
                            ==> config_score_spec(*meta, configs@[j]) < best_score
                },
                None => true,
            },
        decreases configs.len() - i,
    {
        if candidate_usable(meta, &configs[i]) {
            let score = get_config_score(meta, &configs[i]);
            match best {
                Some(_) => {
                    if score >= best_score {
                        best = Some(i);
                        best_score = score;
                    }
                },
                None => {
                    best = Some(i);
                    best_score = score;
                },
            }
        }
        i = i + 1;
    }
    best
}

/// An exactly matching candidate (same channel count, exactly matching
/// sample format, usable rate range) scores 4, the maximum; a candidate
/// offering more channels than the source with a format that is no exact
/// match scores at most 3; so the exact match is always chosen over the
/// superset, whichever order the device lists them in.
pub proof fn lemma_exact_match_beats_superset(
    meta: AudioMetadata,
    exact: CandidateOutputConfig,
    superset: CandidateOutputConfig,
)
    requires
        exact.channels == meta.channels,
        format_score_spec(meta.bit_depth, exact.sample_format) == 2,
        superset.channels > meta.channels,
        format_score_spec(meta.bit_depth, superset.sample_format) < 2,
    ensures
        config_score_spec(meta, exact) == 4,
        config_score_spec(meta, superset) <= 3,
        config_score_spec(meta, superset) < config_score_spec(meta, exact),
{
}

} // verus!
