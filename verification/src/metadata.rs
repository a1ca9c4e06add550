//! The metadata under which each element is registered.

use vstd::prelude::*;

verus! {

/// The registered description of an element.
#[derive(Debug, Clone, Copy, PartialEq, Eq)]
pub struct ElementMetadata {
    pub long_name: &'static str,
    pub classification: &'static str,
    pub description: &'static str,
    pub author: &'static str,
}

/// The author of all these elements.
pub open spec fn author() -> Seq<char> {
    "Jordan Yelloz <jordan@yelloz.me>"@
}

/// The ridgeline plotter.
pub fn audio_ridgeline_metadata() -> (m: ElementMetadata)
    ensures
        m.long_name@ == "2.5D Audio ridgeline plotter"@,
        m.classification@ == "Visualization"@,
        m.description@ == "Renders successive spectrum analysis results as a ridgeline plot"@,
        m.author@ == author(),
{
    ElementMetadata {
        long_name: "2.5D Audio ridgeline plotter",
        classification: "Visualization",
        description: "Renders successive spectrum analysis results as a ridgeline plot",
        author: "Jordan Yelloz <jordan@yelloz.me>",
    }
}

/// The spectrogram renderer.
pub fn audio_spectrogram_metadata() -> (m: ElementMetadata)
    ensures
        m.long_name@ == "Audio Spectrogram renderer"@,
        m.classification@ == "Visualization"@,
        m.description@ == "Renders a side-scrolling spectrogram of an audio stream"@,
        m.author@ == author(),
{
    ElementMetadata {
        long_name: "Audio Spectrogram renderer",
        classification: "Visualization",
        description: "Renders a side-scrolling spectrogram of an audio stream",
        author: "Jordan Yelloz <jordan@yelloz.me>",
    }
}

/// The repeating file source.
pub fn repeat_file_src_metadata() -> (m: ElementMetadata)
    ensures
        m.long_name@ == "Repeating File Source"@,
        m.classification@ == "Source/File"@,
        m.description@ == "Repeat a file"@,
        m.author@ == author(),
{
    ElementMetadata {
        long_name: "Repeating File Source",
        classification: "Source/File",
        description: "Repeat a file",
        author: "Jordan Yelloz <jordan@yelloz.me>",
    }
}

/// The looping file source bin.
pub fn loop_file_src_bin_metadata() -> (m: ElementMetadata)
    ensures
        m.long_name@ == "Loop File Source"@,
        m.classification@ == "Generic/Source"@,
        m.description@ == "Repeat a file source infinitely"@,
        m.author@ == author(),
{
    ElementMetadata {
        long_name: "Loop File Source",
        classification: "Generic/Source",
        description: "Repeat a file source infinitely",
        author: "Jordan Yelloz <jordan@yelloz.me>",
    }
}

/// The terminal video sink.
pub fn chafa_sink_metadata() -> (m: ElementMetadata)
    ensures
        m.long_name@ == "Chafa terminal graphics sink"@,
        m.classification@ == "Sink/Video"@,
        m.description@ == "Renders incoming video to the terminal using the Chafa library"@,
        m.author@ == author(),
{
    ElementMetadata {
        long_name: "Chafa terminal graphics sink",
        classification: "Sink/Video",
        description: "Renders incoming video to the terminal using the Chafa library",
        author: "Jordan Yelloz <jordan@yelloz.me>",
    }
}

} // verus!
