# aicheck

Finds signs of AI generation in media files: C2PA manifests, XMP/IPTC
metadata, EXIF heuristics, MP4 container atoms and, on request, pixel-level
invisible watermarks. File-name patterns are detected by a library function
that the combined report does not run.

## Layout

- `src/` — the verified library (Verus).
  - `text.rs`: substring search, trimming, ASCII case folding, decimal
    rendering, and the few std conversions it relies on.
  - `known_tools.rs`: the table of AI tools and case-insensitive matching.
  - `detector/mod.rs`: signals, reports, and the combination of all detectors.
  - `detector/mp4_metadata.rs`: MP4/MOV box walking, `ilst` atoms (standard
    and keys-based), the AIGC label and H.264 SEI markers.
  - `detector/xmp.rs`: locating the XMP packet and reading its properties.
  - `detector/exif.rs`: the EXIF fields of a file's contents (parsed by
    `kamadak-exif`) and the heuristics over them.
  - `detector/c2pa_detector.rs`: reading a file's C2PA manifests (with the
    `c2pa` crate) and the signals they carry.
  - `detector/filename.rs`: file name patterns.
  - `detector/wav_metadata.rs`: RIFF/WAVE chunk layout.
  - `output.rs`: batch summaries, the assessment wording and the exit code.
- `app/` — the `aic` command: argument handling, file reading, the
  floating-point watermark analysis (and the audio spectral analysis, which
  the combined report does not run), and printing.
- `tests/` — tests of the library.

Each detector's contract states its result exactly over spec functions, given
what was read: the EXIF fields and the MIME type are named results of the
outside parsers, and the C2PA manifests are taken as read (their reading rests
on the reader's validation settings and the time, and only its own decisions,
such as when to fall back to the store beside the file, are stated). The
public proof functions state the properties that hold across calls (the
overall confidence is the maximum, summary tiers partition the AI-generated
files, confidence tiers per detector, watermark analysis is opt-in, a minimum
confidence keeps a verdict exactly when the verdict reaches it).
