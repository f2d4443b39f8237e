# mirage

The verified core of Mirage, a terminal audio visualizer (spectrum bars,
oscilloscope, polar spectrum, spectrogram, Lissajous plot and VU meters).

- `src/` is the library, checked by Verus: bounded sample buffers (`ring`),
  frame splitting (`frames`), Bresenham lines (`line`) and braille pixel
  grids (`braille`), widget geometry (`widgets`), screen layout through
  ratatui (`layout`), colour themes (`theme`), visualization modes (`mode`),
  settings (`config`), device bookkeeping (`audio`), bar state and peak hold
  (`dsp`), and the application state with its key handling (`app`).
- `app/` is the program around it: terminal, audio capture (cpal), FFT
  (realfft), the configuration file (serde, toml, notify) and the
  floating-point signal processing and drawing.
- `tests/` exercises the library on concrete values.
