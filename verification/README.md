# pixellift

An AI video upscaler driver (ffprobe → ffmpeg frame extraction →
realesrgan-ncnn-vulkan in 48-frame chunks → ffmpeg encode), whose logic is
a Verus-verified library.

- `src/` — the verified library:
  - `cli` — codecs, their default quality and encoder options; the run options.
  - `pipeline` — the job made from the options, the arguments of every
    external command, the source summary, the working-directory rule.
  - `run` — the decisions of a run as a state machine (`Runner::step`), with
    its laws (progress, chunking, resume, cancellation, encode after all frames).
  - `probe` — interpretation of ffprobe's JSON report.
  - `paths` — file stems, default names, selection and ordering of frame files.
  - `child` — the report of a failed command (tail of its error output).
  - `text` — decimal rendering, substring search, white space, line splitting.
  - `cancel` — the user's stop flag.
- `app/` — the program: argument parsing, Ctrl-C handling, processes and files.
- `tests/` — tests of the library on concrete values.
