# adele_voice

The voice of the Adele desktop assistant: a daemon that listens for a wake word,
takes down what is said, asks the assistant, and speaks the reply while it
streams in.

- `src/` is the library, verified by Verus: the pipeline and its states, the
  streaming of a turn, sentence and speech text, endpointing, wake word tuning
  and calibration, capture and playback bookkeeping, configuration and its live
  reload, voices, dictation, and the laws that hold of them.
- `app/` is the daemon around it: audio devices, speech engines, the session
  bus, files and clocks. It hands what happened to the library and does what the
  library asks for.
- `tests/` runs the library on concrete values.

Speech probabilities, thresholds and loudness are single-precision numbers. The
library holds each as an integer that is ordered as the number is: the bits of a
number that is not negative, with the sign of any other taken apart. Wake word
scores, which are calculated with, are whole numbers of units of two to the minus
sixty, and every operation on them rounds as single precision does.

The library opens no device and waits for nothing: a state machine takes in an
event and the time, and answers with actions.
