# eurorack

Fixed-point DSP cores of a family of Eurorack modules, written in Verus and
verified: every sample an oscillator renders is stated exactly, in the integer
widths and shifts it is computed with.

- `braids`: a macro-oscillator. Band-limited "analog" waveforms, the digital
  models whose lookup tables the crate carries (ring modulator, saw swarm,
  comb, toy, the three phase-modulation models, digital filters, struck bell
  and drum, plucked strings, harmonics, vowel formants, bass drum, snare,
  cymbal, clocked noise, digital modulation), which `DigitalOscillator` and
  `MacroOscillator` render, and the models that read curves, waveforms and
  messages their callers hand them (formant vowels, VOSIM, particle and
  twin-peaks noise, filtered noise, granular cloud, bowed string, flute,
  reed, the four wavetable models, the Morse "question mark"), each a
  function or a type of its own, and the helpers around them (pitch tables,
  quantizer, envelope, excitation, state-variable filter, waveshaper, pitch
  drift). The oscillators do not route to the models of the second group:
  they would need those tables too. Where staying within 32 bits depends on
  a model's state (the drums, the state-variable filter, the filtered
  noise), a checking function tells whether the next sample or block will.
- `branches`: a dual Bernoulli gate and its random source.
- `edges`: a quad chiptune oscillator bank and its timer arithmetic.
- `clouds`: the integer parts of a granular processor (the sign-bit
  correlator, the delay-memory layout, the buffer and grain settings).
- `fixed`, `bits`: fixed-point primitives and the bit-level facts the proofs
  use.

`app/` holds the floating-point code around the library (the timer's software
square wave, the delay-memory sample formats).
