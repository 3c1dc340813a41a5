//! The output of a conversion: where it is written and in which layout.

use vstd::prelude::*;
use vstd::string::*;

verus! {

/// The layout of the waveform that a conversion writes.
#[derive(Clone, Copy, Debug, PartialEq, Eq)]
pub struct OutputSpec {
    pub channels: u16,
    pub sample_rate: u32,
    pub bits_per_sample: u16,
    /// True for integer samples, false for floating-point ones.
    pub integer_samples: bool,
}

/// The layout of every output: one channel of signed 16-bit integers at the
/// sample rate of the input.
pub open spec fn mono_spec(sample_rate: u32) -> OutputSpec {
    OutputSpec { channels: 1, sample_rate, bits_per_sample: 16, integer_samples: true }
}

/// Returns the layout of the output for an input of the given sample rate.
pub fn output_spec(sample_rate: u32) -> (spec: OutputSpec)
    ensures
        spec == mono_spec(sample_rate),
{
    OutputSpec { channels: 1, sample_rate, bits_per_sample: 16, integer_samples: true }
}

/// Whether `s` ends with `suffix`.
pub open spec fn ends_with(s: Seq<char>, suffix: Seq<char>) -> bool {
    suffix.len() <= s.len() && s.subrange(s.len() - suffix.len(), s.len() as int) == suffix
}

/// `s` without any of the copies of `pattern` that it ends with.
pub open spec fn trim_end_matches(s: Seq<char>, pattern: Seq<char>) -> Seq<char>
    decreases s.len(),
{
    if pattern.len() > 0 && ends_with(s, pattern) {
        trim_end_matches(s.subrange(0, s.len() - pattern.len()), pattern)
    } else {
        s
    }
}

/// The input path without the extensions that are dropped from its end.
pub open spec fn path_stem(input: Seq<char>) -> Seq<char> {
    trim_end_matches(trim_end_matches(trim_end_matches(input, ".wav"@), ".mp3"@), ".flac"@)
}

/// The path of the output for a given input path.
pub open spec fn output_path_of(input: Seq<char>) -> Seq<char> {
    path_stem(input) + "_mono.wav"@
}

/// What is left of a trimmed sequence is one of its prefixes.
pub proof fn lemma_trim_is_prefix(s: Seq<char>, pattern: Seq<char>)
    ensures
        trim_end_matches(s, pattern).len() <= s.len(),
        trim_end_matches(s, pattern) == s.subrange(0, trim_end_matches(s, pattern).len() as int),
    decreases s.len(),
{
    if pattern.len() > 0 && ends_with(s, pattern) {
        let shorter = s.subrange(0, s.len() - pattern.len());
        lemma_trim_is_prefix(shorter, pattern);
        let kept = trim_end_matches(shorter, pattern).len() as int;
        assert(shorter.subrange(0, kept) == s.subrange(0, kept));
    } else {
        assert(s == s.subrange(0, s.len() as int));
    }
}

/// The output path begins with a prefix of the input path: only extensions
/// at the end are dropped before `_mono.wav` is added.
pub proof fn lemma_stem_is_prefix(input: Seq<char>)
    ensures
        path_stem(input).len() <= input.len(),
        path_stem(input) == input.subrange(0, path_stem(input).len() as int),
        output_path_of(input).len() == path_stem(input).len() + 9,
{
    reveal_strlit("_mono.wav");
    let wav = trim_end_matches(input, ".wav"@);
    let mp3 = trim_end_matches(wav, ".mp3"@);
    let stem = trim_end_matches(mp3, ".flac"@);
    lemma_trim_is_prefix(input, ".wav"@);
    lemma_trim_is_prefix(wav, ".mp3"@);
    lemma_trim_is_prefix(mp3, ".flac"@);
    assert(stem == input.subrange(0, stem.len() as int)) by {
        assert(mp3.subrange(0, stem.len() as int) == wav.subrange(0, stem.len() as int));
        assert(wav.subrange(0, stem.len() as int) == input.subrange(0, stem.len() as int));
    }
}

/// The output path never equals the input path: a conversion cannot
/// overwrite the file that it reads.
pub proof fn lemma_output_differs_from_input(input: Seq<char>)
    ensures
        output_path_of(input) != input,
{
    reveal_strlit(".wav");
    reveal_strlit(".mp3");
    reveal_strlit(".flac");
    reveal_strlit("_mono.wav");
    let stem = path_stem(input);
    let output = stem + "_mono.wav"@;
    if output == input {
        let n = input.len() as int;
        let k = stem.len() as int;
        assert(n == k + 9);
        assert forall|j: int| 0 <= j < 9 implies input[k + j] == "_mono.wav"@[j] by {
            assert(output[k + j] == "_mono.wav"@[j]);
        }
        assert(input.subrange(n - 4, n) =~= ".wav"@);
        let rest = input.subrange(0, n - 4);
        assert(rest.len() == k + 5);
        assert(rest[k + 4] == 'o');
        assert(rest[k] == '_');
        assert(!ends_with(rest, ".wav"@)) by {
            let tail = rest.subrange(rest.len() - 4, rest.len() as int);
            assert(tail[3] == rest[k + 4]);
        }
        assert(!ends_with(rest, ".mp3"@)) by {
            let tail = rest.subrange(rest.len() - 4, rest.len() as int);
            assert(tail[3] == rest[k + 4]);
        }
        assert(!ends_with(rest, ".flac"@)) by {
            let tail = rest.subrange(rest.len() - 5, rest.len() as int);
            assert(tail[0] == rest[k]);
        }
        assert(trim_end_matches(rest, ".wav"@) == rest);
        assert(trim_end_matches(input, ".wav"@) == rest);
        assert(trim_end_matches(rest, ".mp3"@) == rest);
        assert(trim_end_matches(rest, ".flac"@) == rest);
        assert(stem == rest);
        assert(false);
    }
}

/// Tells whether the first `end` characters of `s` end with `pattern`.
fn prefix_ends_with(s: &str, end: usize, pattern: &str, pattern_len: usize) -> (b: bool)
    requires
        end <= s@.len(),
        pattern_len == pattern@.len(),
    ensures
        b == ends_with(s@.subrange(0, end as int), pattern@),
{
    if pattern_len > end {
        return false;
    }
    let start: usize = end - pattern_len;
    let ghost head = s@.subrange(0, end as int);
    let mut k: usize = 0;
    while k < pattern_len
        invariant
            k <= pattern_len,
            pattern_len == pattern@.len(),
            start + pattern_len == end,
            end <= s@.len(),
            head == s@.subrange(0, end as int),
            forall|j: int| 0 <= j < k ==> s@[start + j] == pattern@[j],
        decreases pattern_len - k,
    {
        if s.get_char(start + k) != pattern.get_char(k) {
            proof {
                let tail = head.subrange(head.len() - pattern@.len(), head.len() as int);
                assert(tail[k as int] == s@[start + k]);
            }
            return false;
        }
        k = k + 1;
    }
    proof {
        let tail = head.subrange(head.len() - pattern@.len(), head.len() as int);
        assert forall|j: int| 0 <= j < pattern_len implies tail[j] == pattern@[j] by {
            assert(tail[j] == s@[start + j]);
        }
        assert(tail =~= pattern@);
    }
    true
}

/// The number of characters that remain of the first `end` characters of `s`
/// once the copies of `pattern` at their end are dropped.
fn trimmed_len(s: &str, end: usize, pattern: &str) -> (kept: usize)
    requires
        end <= s@.len(),
    ensures
        kept <= end,
        s@.subrange(0, kept as int) == trim_end_matches(s@.subrange(0, end as int), pattern@),
{
    let pattern_len = pattern.unicode_len();
    let mut kept: usize = end;
    if pattern_len == 0 {
        return kept;
    }
    loop
        invariant
            kept <= end,
            end <= s@.len(),
            pattern_len == pattern@.len(),
            pattern_len > 0,
            trim_end_matches(s@.subrange(0, kept as int), pattern@) == trim_end_matches(
                s@.subrange(0, end as int),
                pattern@,
            ),
        ensures
            kept <= end,
            s@.subrange(0, kept as int) == trim_end_matches(s@.subrange(0, end as int), pattern@),
        decreases kept,
    {
        if !prefix_ends_with(s, kept, pattern, pattern_len) {
            break;
        }
        proof {
            let head = s@.subrange(0, kept as int);
            assert(head.subrange(0, head.len() - pattern@.len()) == s@.subrange(
                0,
                kept - pattern_len,
            ));
        }
        kept = kept - pattern_len;
    }
    kept
}

/// Derives the path of the output from the path of the input: the copies of
/// `.wav` at its end are dropped, then those of `.mp3`, then those of
/// `.flac`, and `_mono.wav` is added.
pub fn output_path(input: &str) -> (path: String)
    ensures
        path@ == output_path_of(input@),
{
    let len = input.unicode_len();
    assert(input@.subrange(0, len as int) == input@);
    let after_wav = trimmed_len(input, len, ".wav");
    let after_mp3 = trimmed_len(input, after_wav, ".mp3");
    let after_flac = trimmed_len(input, after_mp3, ".flac");
    let stem = input.substring_char(0, after_flac);
    String::from_str(stem).concat("_mono.wav")
}

} // verus!
