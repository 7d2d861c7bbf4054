use cv2ljspeech::audio::{Audio, EntryKind, Step};
use cv2ljspeech::format::{classify, AudioFormat};
use cv2ljspeech::transcode::{conversion_outcome, transcode_invocation, ConversionError, TargetParams};

fn batch() -> Audio {
    Audio::new(vec!["/data/clips".to_string()]).unwrap()
}

fn transcode_parts(step: Step) -> (String, String, AudioFormat) {
    match step {
        Step::Transcode { input, output, format } => (input, output, format),
        other => panic!("expected a conversion, got {:?}", other),
    }
}

#[test]
fn new_keeps_paths_in_order_with_duplicates() {
    let paths = vec!["/b".to_string(), "/a".to_string(), "/b".to_string()];
    let audio = Audio::new(paths.clone()).unwrap();
    assert_eq!(audio.abs_paths, paths);
}

#[test]
fn classify_by_lowercased_extension() {
    assert_eq!(classify(&Some("wav".to_string())), AudioFormat::Wav);
    assert_eq!(classify(&Some("mp3".to_string())), AudioFormat::Mp3);
    assert_eq!(classify(&Some("MP3".to_string())), AudioFormat::Mp3);
    assert_eq!(classify(&Some("mP3".to_string())), AudioFormat::Mp3);
    assert_eq!(classify(&Some("WaV".to_string())), AudioFormat::Wav);
    assert_eq!(classify(&Some("wavs".to_string())), AudioFormat::Unknown);
    assert_eq!(classify(&Some("mp".to_string())), AudioFormat::Unknown);
    assert_eq!(classify(&Some("txt".to_string())), AudioFormat::Unknown);
    assert_eq!(classify(&Some(String::new())), AudioFormat::Unknown);
    assert_eq!(classify(&None), AudioFormat::Unknown);
}

#[test]
fn mp3_is_converted_to_sibling_wav_then_removed() {
    let audio = batch();
    let (input, output, format) = transcode_parts(audio.read_audio_file("/data/clips/a.mp3"));
    assert_eq!(input, "/data/clips/a.mp3");
    assert_eq!(output, "/data/clips/a.wav");
    assert_eq!(format, AudioFormat::Mp3);
    match audio.after_transcode(format, &input, &Ok(())) {
        Step::Remove { path } => assert_eq!(path, "/data/clips/a.mp3"),
        other => panic!("expected removal, got {:?}", other),
    }
}

#[test]
fn uppercase_mp3_is_converted_and_removed() {
    let audio = batch();
    let (input, output, format) = transcode_parts(audio.read_audio_file("/data/clips/d.MP3"));
    assert_eq!(input, "/data/clips/d.MP3");
    assert_eq!(output, "/data/clips/d.wav");
    assert_eq!(format, AudioFormat::Mp3);
    match audio.after_transcode(format, &input, &Ok(())) {
        Step::Remove { path } => assert_eq!(path, "/data/clips/d.MP3"),
        other => panic!("expected removal, got {:?}", other),
    }
}

#[test]
fn failed_mp3_conversion_keeps_original() {
    let audio = batch();
    let failures = [ConversionError::LaunchFailed, ConversionError::NonZeroExit];
    for err in failures {
        let step = audio.after_transcode(AudioFormat::Mp3, "/data/clips/a.mp3", &Err(err));
        assert!(matches!(step, Step::Finish));
    }
}

#[test]
fn wav_is_reencoded_in_place_and_kept() {
    let audio = batch();
    let (input, output, format) = transcode_parts(audio.read_audio_file("/data/clips/b.wav"));
    assert_eq!(input, "/data/clips/b.wav");
    assert_eq!(output, "/data/clips/b.wav");
    assert_eq!(format, AudioFormat::Wav);
    assert!(matches!(audio.after_transcode(format, &input, &Ok(())), Step::Finish));
    assert!(matches!(
        audio.after_transcode(format, &input, &Err(ConversionError::NonZeroExit)),
        Step::Finish
    ));
}

#[test]
fn unknown_or_missing_extension_is_only_reported() {
    let audio = batch();
    for name in ["/data/clips/c.txt", "/data/clips/README", "/data/clips/.wav"] {
        match audio.read_audio_file(name) {
            Step::ReportUnknown { path } => assert_eq!(path, name),
            other => panic!("expected a report for {}, got {:?}", name, other),
        }
    }
}

#[test]
fn directory_scenario_mixed_entries() {
    let audio = batch();
    let (_, a_out, a_fmt) = transcode_parts(audio.plan_entry("/data/clips/a.mp3", EntryKind::File));
    assert_eq!(a_out, "/data/clips/a.wav");
    assert!(matches!(
        audio.after_transcode(a_fmt, "/data/clips/a.mp3", &Ok(())),
        Step::Remove { .. }
    ));
    let (_, b_out, b_fmt) = transcode_parts(audio.plan_entry("/data/clips/b.wav", EntryKind::File));
    assert_eq!(b_out, "/data/clips/b.wav");
    assert!(matches!(audio.after_transcode(b_fmt, "/data/clips/b.wav", &Ok(())), Step::Finish));
    assert!(matches!(
        audio.plan_entry("/data/clips/c.txt", EntryKind::File),
        Step::ReportUnknown { .. }
    ));
    match audio.plan_entry("/data/clips/sub", EntryKind::Directory) {
        Step::ReportDirectory { path } => assert_eq!(path, "/data/clips/sub"),
        other => panic!("expected a directory report, got {:?}", other),
    }
    assert!(matches!(audio.plan_entry("/data/clips/link.mp3", EntryKind::Other), Step::Finish));
}

#[test]
fn transcoder_arguments() {
    let params = TargetParams::new(22050, 1);
    let call = transcode_invocation(&params, "/in/a.mp3", "/in/a.wav");
    assert_eq!(call.program, "ffmpeg");
    assert_eq!(
        call.args,
        vec!["-y", "-i", "/in/a.mp3", "-ar", "22050", "-ac", "1", "-sample_fmt", "s16", "/in/a.wav"]
    );
}

#[test]
fn transcoder_arguments_largest_values() {
    let params = TargetParams::new(u32::MAX, 0);
    let call = transcode_invocation(&params, "x", "y");
    assert_eq!(call.args[4], "4294967295");
    assert_eq!(call.args[6], "0");
}

#[test]
fn conversion_outcome_variants() {
    assert_eq!(conversion_outcome(true, true), Ok(()));
    assert_eq!(conversion_outcome(true, false), Err(ConversionError::NonZeroExit));
    assert_eq!(conversion_outcome(false, false), Err(ConversionError::LaunchFailed));
    assert_eq!(conversion_outcome(false, true), Err(ConversionError::LaunchFailed));
}
