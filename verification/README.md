# gstplugins

The decision logic of a handful of GStreamer elements, written in Verus and
proved against its contracts:

- `spectrogram`: the side-scrolling spectrogram's scratch picture: which bin
  each row shows, the painting of one column, the rotation of the picture
  into the output frame, and the cycling of the painted column.
- `ridgeline`: the bounded history of spectra of the ridgeline plot, its
  margins and its analysis window.
- `repeatfilesrc`, `loopfilesrcbin`: the state machines of the two looping
  file sources (location property, state changes, fragment requeueing, and
  the query and segment rules of the looped pads).
- `webrtcsink`: the WebRTC sink's error messages, congestion-control enum
  and sink-pad properties.
- `chafasink`, `terminal`: the terminal sink's negotiated format, frame
  outcome and the ANSI sequences it writes (built with `anes`).
- `metadata`, `element`: registration metadata and shared vocabulary.

`app/` holds the GStreamer side: the GObject subclasses, caps and pads, the
floating-point FFT and drawing, and the terminal I/O. It calls the library
for every decision listed above.
