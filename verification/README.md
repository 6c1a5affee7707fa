# granular

A granular sampler: it loads a WAV sample, plays it as a cloud of short grains,
and is controlled over OSC.

- `src/` is the library, verified with Verus: routing of OSC control messages,
  the grain envelope and grain slot allocation, chunk buffers and the stereo frame
  stream fed to the audio device, the countdown of play-position reports, the loop
  decisions of the worker threads, the first-channel split of WAV data, the
  level-overview message sent to the user interface, and the indexing of the sine
  table.
- `app/` is the program around it: audio device, UDP sockets, threads and
  channels, WAV file reading, and the floating-point signal processing.
- `tests/` exercises the library on concrete values.
