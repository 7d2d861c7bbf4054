//! Classification of audio files by extension.
use vstd::prelude::*;
use vstd::string::StrSliceExecFns;

verus! {

/// What the pipeline makes of a file, judged by its extension alone.
#[derive(Clone, Copy, Debug, PartialEq, Eq, Structural)]
pub enum AudioFormat {
    /// Already in the target container: re-encoded in place, never removed.
    Wav,
    /// A lossy source: converted to a sibling `.wav`, removed once that succeeded.
    Mp3,
    /// Anything else, or no extension: left alone.
    Unknown,
}

/// A character with ASCII capitals turned into small letters.
pub open spec fn lower_char(c: char) -> char {
    if 'A' <= c && c <= 'Z' {
        ((c as u32) + 32) as char
    } else {
        c
    }
}

/// A text with ASCII capitals turned into small letters.
pub open spec fn ascii_lower(s: Seq<char>) -> Seq<char> {
    s.map_values(|c: char| lower_char(c))
}

/// The format that an extension (as `Path::extension` gives it) stands for.
/// Extensions are compared in lower case: `MP3` is `mp3`.
pub open spec fn format_of(ext: Option<Seq<char>>) -> AudioFormat {
    match ext {
        Some(e) => if ascii_lower(e) == seq!['w', 'a', 'v'] {
            AudioFormat::Wav
        } else if ascii_lower(e) == seq!['m', 'p', '3'] {
            AudioFormat::Mp3
        } else {
            AudioFormat::Unknown
        },
        None => AudioFormat::Unknown,
    }
}

/// Whether `s`, in lower case, is `t`.
fn lower_equals(s: &str, t: &str) -> (r: bool)
    ensures
        r == (ascii_lower(s@) == t@),
{
    let n = s.unicode_len();
    if n != t.unicode_len() {
        assert(ascii_lower(s@).len() != t@.len());
        return false;
    }
    let mut i: usize = 0;
    while i < n
        invariant
            n == s@.len(),
            n == t@.len(),
            i <= n,
            forall|j: int| 0 <= j < i ==> lower_char(#[trigger] s@[j]) == t@[j],
        decreases n - i,
    {
        let c = s.get_char(i);
        let d = t.get_char(i);
        let same = if 'A' <= c && c <= 'Z' {
            (c as u32) + 32 == (d as u32)
        } else {
            c == d
        };
        if !same {
            assert(ascii_lower(s@)[i as int] != t@[i as int]);
            return false;
        }
        i = i + 1;
    }
    assert(ascii_lower(s@) =~= t@);
    true
}

impl AudioFormat {
    /// Whether files of this format are handed to the transcoder.
    pub open spec fn converts(self) -> bool {
        self != AudioFormat::Unknown
    }

    /// Whether the original file goes once its conversion has succeeded.
    pub open spec fn removes_source(self) -> bool {
        self == AudioFormat::Mp3
    }
}

/// Classifies a file by its extension, ignoring ASCII case.
pub fn classify(extension: &Option<String>) -> (r: AudioFormat)
    ensures
        r == format_of(match extension {
            Some(e) => Some(e@),
            None => None,
        }),
{
    proof {
        reveal_strlit("wav");
        reveal_strlit("mp3");
        assert("wav"@ =~= seq!['w', 'a', 'v']);
        assert("mp3"@ =~= seq!['m', 'p', '3']);
    }
    match extension {
        Some(e) => {
            if lower_equals(e.as_str(), "wav") {
                AudioFormat::Wav
            } else if lower_equals(e.as_str(), "mp3") {
                AudioFormat::Mp3
            } else {
                AudioFormat::Unknown
            }
        },
        None => AudioFormat::Unknown,
    }
}

} // verus!
