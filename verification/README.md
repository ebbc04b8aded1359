# copycatch

A command-line tool that backs up photo libraries, recognises duplicate images by the
SHA-256 hash of their pixel data, and rates how similar images are by the Hamming distance
of their perceptual hashes.

- `src/` is the verified library: hex text of hashes, the Hamming distance between
  perceptual hashes, names for backup copies, the records of the image database, the
  counters of a run and the state machine that decides each step of a backup walk.
- `app/` is the program around it: the command line, the SQLite database, the file system
  walk and the copying of files, each step of which it hands to the library's walk.
- `tests/` runs the library on concrete images, hashes and names.
