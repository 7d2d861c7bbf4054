//! What one pass of the worker does to the files of a directory.
use vstd::prelude::*;
use crate::audio::{EntryKind, StepModel, entry_step, file_format, step_after_transcode, wav_ext};
use crate::format::AudioFormat;
use crate::paths::with_extension_of;
use crate::transcode::ConversionError;

verus! {

/// The filesystem changes that handling one entry makes.
pub struct EntryEffect {
    /// The path that the transcoder is asked to write, if it runs.
    pub written: Option<Seq<char>>,
    /// The path that is deleted, if any.
    pub removed: Option<Seq<char>>,
}

/// The effect of handling the entry at `path`, of kind `kind`, when the
/// transcoder, should it run, ends with `outcome`.
pub open spec fn entry_effect(
    path: Seq<char>,
    kind: EntryKind,
    outcome: Result<(), ConversionError>,
) -> EntryEffect {
    match entry_step(path, kind) {
        StepModel::Transcode { input, output, format } => EntryEffect {
            written: Some(output),
            removed: match step_after_transcode(format, input, outcome) {
                StepModel::Remove { path: p } => Some(p),
                _ => None,
            },
        },
        _ => EntryEffect { written: None, removed: None },
    }
}

/// A `.mp3` file whose conversion succeeded is replaced: the `.wav` of the
/// same base name is written and the `.mp3` is deleted.
pub proof fn mp3_replaced_by_wav(path: Seq<char>)
    requires
        file_format(path) == AudioFormat::Mp3,
    ensures
        entry_effect(path, EntryKind::File, Ok(())).written == Some(with_extension_of(path, wav_ext())),
        entry_effect(path, EntryKind::File, Ok(())).removed == Some(path),
{
}

/// A `.wav` file is re-encoded and never deleted, whether or not its
/// conversion succeeded.
pub proof fn wav_kept(path: Seq<char>, outcome: Result<(), ConversionError>)
    requires
        file_format(path) == AudioFormat::Wav,
    ensures
        entry_effect(path, EntryKind::File, outcome).written == Some(with_extension_of(path, wav_ext())),
        entry_effect(path, EntryKind::File, outcome).removed is None,
{
}

/// A file with an unrecognised or missing extension is neither converted nor deleted.
pub proof fn unknown_untouched(path: Seq<char>, outcome: Result<(), ConversionError>)
    requires
        file_format(path) == AudioFormat::Unknown,
    ensures
        entry_effect(path, EntryKind::File, outcome).written is None,
        entry_effect(path, EntryKind::File, outcome).removed is None,
{
}

/// A `.mp3` file whose conversion failed is not deleted.
pub proof fn failed_mp3_kept(path: Seq<char>, err: ConversionError)
    requires
        file_format(path) == AudioFormat::Mp3,
    ensures
        entry_effect(path, EntryKind::File, Err(err)).removed is None,
{
}

/// Whatever the entry, a file is deleted only after its own conversion
/// succeeded: the deleted path is the entry itself, a `.mp3` file.
pub proof fn removal_only_after_success(
    path: Seq<char>,
    kind: EntryKind,
    outcome: Result<(), ConversionError>,
)
    ensures
        entry_effect(path, kind, outcome).removed is Some ==> {
            &&& outcome is Ok
            &&& kind == EntryKind::File
            &&& file_format(path) == AudioFormat::Mp3
            &&& entry_effect(path, kind, outcome).removed == Some(path)
            &&& entry_effect(path, kind, outcome).written is Some
        },
{
}

/// Subdirectories and other entries are not descended into and not changed.
pub proof fn non_files_untouched(path: Seq<char>, kind: EntryKind, outcome: Result<(), ConversionError>)
    requires
        kind != EntryKind::File,
    ensures
        entry_effect(path, kind, outcome).written is None,
        entry_effect(path, kind, outcome).removed is None,
{
}

} // verus!
