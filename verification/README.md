# mediadecode

A verified vocabulary and decision layer for media decoders, written in
Verus.

`src/` is the library. Its functions carry contracts that Verus proves,
except a few small wrappers around outside calls (`String::push`,
`String::from_utf8_lossy`, and `mediatime`'s `Timestamp::new` and
millisecond rescale), whose contracts are believed and which say so in
their doc comments:

- `frame`: the `Rect` used for a frame's visible area.
- `color`: colour metadata enums (matrix, primaries, transfer, range,
  chroma location) and the `ColorInfo` bundle.
- `packet`: the `PacketFlags` set and its set algebra, with laws.
- `extras`: picture type, side data and the per-frame extras.
- `convert`: turning a plain-value reading of an FFmpeg `AVFrame` into a
  video or audio frame whose planes are views into the frame's buffers
  (with the law that every view stays inside its buffer), the FFmpeg code
  tables, and the conversion errors.
- `channel_layout`: FFmpeg channel layouts, the named-layout lookup, custom
  channel maps and labels.
- `subtitle`: the payload of a decoded subtitle and the one-slot frame queue
  behind a subtitle decoder.
- `timing`: labelling tick counts with a `mediatime` time base, and
  rescaling milliseconds into one.

`app/` is the FFmpeg glue: it reads the C structs through `ffmpeg-next`
into the library's readings, calls the library, and runs FFmpeg's subtitle
decoder. `tests/` exercises the library on concrete values.
