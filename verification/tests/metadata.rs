use gstplugins::metadata::{
    audio_ridgeline_metadata, audio_spectrogram_metadata, chafa_sink_metadata,
    loop_file_src_bin_metadata, repeat_file_src_metadata,
};

#[test]
fn element_metadata() {
    let m = audio_ridgeline_metadata();
    assert_eq!(m.long_name, "2.5D Audio ridgeline plotter");
    assert_eq!(m.classification, "Visualization");
    assert_eq!(
        m.description,
        "Renders successive spectrum analysis results as a ridgeline plot"
    );
    assert_eq!(m.author, "Jordan Yelloz <jordan@yelloz.me>");

    let m = audio_spectrogram_metadata();
    assert_eq!(m.long_name, "Audio Spectrogram renderer");
    assert_eq!(
        m.description,
        "Renders a side-scrolling spectrogram of an audio stream"
    );

    let m = repeat_file_src_metadata();
    assert_eq!(m.long_name, "Repeating File Source");
    assert_eq!(m.classification, "Source/File");
    assert_eq!(m.description, "Repeat a file");

    let m = loop_file_src_bin_metadata();
    assert_eq!(m.long_name, "Loop File Source");
    assert_eq!(m.classification, "Generic/Source");
    assert_eq!(m.description, "Repeat a file source infinitely");

    let m = chafa_sink_metadata();
    assert_eq!(m.long_name, "Chafa terminal graphics sink");
    assert_eq!(m.classification, "Sink/Video");
    assert_eq!(
        m.description,
        "Renders incoming video to the terminal using the Chafa library"
    );
}
