//! The directory worker's decisions for each entry of a directory.
use vstd::prelude::*;
use crate::format::{AudioFormat, classify, format_of};
use crate::paths::{extension, extension_of, with_extension, with_extension_of};
use crate::transcode::ConversionError;

verus! {

/// An error in setting up a batch. No input triggers it at present.
#[derive(Clone, Copy, Debug, PartialEq, Eq, Structural)]
pub enum LJSpeechError {
    Construction,
}

/// A batch of directories to normalise, one worker each. Duplicates are kept.
#[derive(Clone, Debug)]
pub struct Audio {
    pub abs_paths: Vec<String>,
}

/// What a directory listing says an entry is (symbolic links are not followed).
#[derive(Clone, Copy, Debug, PartialEq, Eq, Structural)]
pub enum EntryKind {
    File,
    Directory,
    Other,
}

/// The next thing the worker does for one entry.
#[derive(Clone, Debug)]
pub enum Step {
    /// Run the transcoder from `input` to `output`; `format` is the input's.
    Transcode { input: String, output: String, format: AudioFormat },
    /// Delete the original file.
    Remove { path: String },
    /// Report a subdirectory, which is not descended into.
    ReportDirectory { path: String },
    /// Report a file of an unrecognised format, which is left alone.
    ReportUnknown { path: String },
    /// Nothing more to do for this entry.
    Finish,
}

/// The steps of the worker over path texts.
pub enum StepModel {
    Transcode { input: Seq<char>, output: Seq<char>, format: AudioFormat },
    Remove { path: Seq<char> },
    ReportDirectory { path: Seq<char> },
    ReportUnknown { path: Seq<char> },
    Finish,
}

impl View for Step {
    type V = StepModel;

    open spec fn view(&self) -> StepModel {
        match self {
            Step::Transcode { input, output, format } => StepModel::Transcode {
                input: input@,
                output: output@,
                format: *format,
            },
            Step::Remove { path } => StepModel::Remove { path: path@ },
            Step::ReportDirectory { path } => StepModel::ReportDirectory { path: path@ },
            Step::ReportUnknown { path } => StepModel::ReportUnknown { path: path@ },
            Step::Finish => StepModel::Finish,
        }
    }
}

/// The extension of every converted file.
pub open spec fn wav_ext() -> Seq<char> {
    seq!['w', 'a', 'v']
}

/// The first step for a file of the given format: recognised formats are
/// converted to the sibling `.wav`, anything else is only reported.
pub open spec fn format_step(format: AudioFormat, path: Seq<char>) -> StepModel {
    if format.converts() {
        StepModel::Transcode { input: path, output: with_extension_of(path, wav_ext()), format }
    } else {
        StepModel::ReportUnknown { path }
    }
}

/// A conversion step writes a file whose own extension is `wav`.
pub open spec fn writes_wav(step: StepModel) -> bool {
    step matches StepModel::Transcode { output, .. } ==> extension_of(output) == Some(wav_ext())
}

/// The format of a file, judged by its path's extension.
pub open spec fn file_format(path: Seq<char>) -> AudioFormat {
    format_of(extension_of(path))
}

/// The first step for a regular file.
pub open spec fn file_step(path: Seq<char>) -> StepModel {
    format_step(file_format(path), path)
}

/// The first step for a directory entry of the given kind.
pub open spec fn entry_step(path: Seq<char>, kind: EntryKind) -> StepModel {
    match kind {
        EntryKind::File => file_step(path),
        EntryKind::Directory => StepModel::ReportDirectory { path },
        EntryKind::Other => StepModel::Finish,
    }
}

/// The step after a conversion of `path`: the original goes only if it is a
/// lossy source and the conversion succeeded.
pub open spec fn step_after_transcode(
    format: AudioFormat,
    path: Seq<char>,
    outcome: Result<(), ConversionError>,
) -> StepModel {
    if format.removes_source() && outcome is Ok {
        StepModel::Remove { path }
    } else {
        StepModel::Finish
    }
}

impl Audio {
    /// A batch over the given directories, in the given order.
    pub fn new(abs_paths: Vec<String>) -> (r: Result<Self, LJSpeechError>)
        ensures
            r matches Ok(a) && a.abs_paths@ == abs_paths@,
    {
        let audio = Audio { abs_paths };
        Ok(audio)
    }

    /// The first step for a regular file at `file_path`.
    pub fn read_audio_file(&self, file_path: &str) -> (r: Step)
        ensures
            r@ == file_step(file_path@),
            writes_wav(r@),
    {
        let ext = extension(file_path);
        let format = classify(&ext);
        self.handle_audio_format(format, file_path)
    }

    /// The first step for a file whose format is known.
    fn handle_audio_format(&self, format: AudioFormat, file_path: &str) -> (r: Step)
        ensures
            r@ == format_step(format, file_path@),
            extension_of(file_path@) is Some ==> writes_wav(r@),
    {
        match format {
            AudioFormat::Wav | AudioFormat::Mp3 => {
                proof {
                    reveal_strlit("wav");
                    assert("wav"@ =~= wav_ext());
                    assert(!"wav"@.contains('/'));
                    assert(!"wav"@.contains('\\'));
                    assert(!"wav"@.contains('.'));
                }
                let output = with_extension(file_path, "wav");
                Step::Transcode { input: file_path.to_owned(), output, format }
            },
            AudioFormat::Unknown => Step::ReportUnknown { path: file_path.to_owned() },
        }
    }

    /// The first step for an entry of a directory listing.
    pub fn plan_entry(&self, path: &str, kind: EntryKind) -> (r: Step)
        ensures
            r@ == entry_step(path@, kind),
            writes_wav(r@),
    {
        match kind {
            EntryKind::File => self.read_audio_file(path),
            EntryKind::Directory => Step::ReportDirectory { path: path.to_owned() },
            EntryKind::Other => Step::Finish,
        }
    }

    /// The step after the transcoder has converted `file_path`, of `format`,
    /// with the given outcome.
    pub fn after_transcode(
        &self,
        format: AudioFormat,
        file_path: &str,
        outcome: &Result<(), ConversionError>,
    ) -> (r: Step)
        ensures
            r@ == step_after_transcode(format, file_path@, *outcome),
    {
        match (format, outcome) {
            (AudioFormat::Mp3, Ok(())) => Step::Remove { path: file_path.to_owned() },
            _ => Step::Finish,
        }
    }
}

} // verus!
