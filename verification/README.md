# chuks_ffmpeg

The decisions of a media shim over the libav libraries, verified with Verus:
which encoder is used, how filter graphs are described, in which order packets
and frames move between demuxers, decoders, graphs, encoders and muxers, which
arguments are refused and what each entry point reports.

## How it is laid out

- `src/` is the verified library. It makes no libav call. Each job is a state
  machine: it names a task, the caller performs it and hands the answer back
  with `advance`, until the machine names an end. The `*_laws` modules state
  what holds of every run, whatever the libraries answer.
  - `text`, `session`, `media`: C strings, the last error and encoder of a
    thread, time bases and failures.
  - `encoder`, `graph`: the search for an encoder, and the texts of graphs.
  - `audio`, `reader`, `transcode`, `writer`, `mux`, `probe`, `concat`: the
    entry points and their machines.
- `app/` holds the C entry points. They perform the tasks through
  `ffmpeg-next`, and do what needs floating-point seconds or raw pointers.
- `tests/` runs the library on concrete values.
