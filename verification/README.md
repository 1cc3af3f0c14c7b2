# oxdz

A multi-format tracker module engine: loaders for Protracker and
compatible MOD files (with tracker fingerprinting), 15-instrument
Soundtracker files, His Master's Noise (FEST), Scream Tracker 2 (STM) and
Scream Tracker 3 (S3M) modules, and replayers after the Protracker 2.1A,
Noisetracker 1.1, His Master's Noise, Ultimate Soundtracker, D.O.C
Soundtracker and Scream Tracker 3 routines. The Scream Tracker 3 replayer
also plays four-channel M.K. modules, imported as S3M; the Scream Tracker
2 replayer keeps its channels but does not play yet. XM files are
recognized but not loaded.

The library under `src/` is written in Verus and verified: each loader
states when it accepts a file and what module it builds; each replayer
states what one tick does to its state and which commands it leaves for
the mixer. The mixer itself (floating point) and the command line player
live in `app/`.

Layout:

- `src/format/`: the loaders, one directory per format family.
- `src/module/`: the loaded module, its samples, events and instruments.
- `src/player/`: the player registry, options and the replayers.
- `src/mixer/`: the sample interpolators and the 16-bit downmix.
- `app/`: the mixer, the WAV writer and the command line player.
- `tests/`: tests run against the compiled library.
