# miata_dash

The verified core of a full-screen car dashboard: a home screen of app tiles, a
music player for a folder of audio files and a settings screen.

- `src/` is the library, checked by Verus: colors and themes (`theme`), the clock
  format (`clock`), text formatting (`text`), the settings record and its file
  form (`settings`), the music library's files and tracks (`library`), the play
  queue and playback decisions (`music`), screen navigation (`controller`) and
  the library browser's pages (`browser`).
- `app/` is the program around it: the egui window, drawing, reading and writing
  the settings file, walking the music folder and driving the audio device.
