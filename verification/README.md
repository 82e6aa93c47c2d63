# progetto

Static feature extraction from ELF binaries, for building malware
classification datasets.

- `src/` is the verified library. It parses an ELF file (through `goblin`),
  disassembles its executable sections (through `capstone`), hashes it
  (through `sha2`) and searches its strings (through `regex`), and turns the
  result into integer statistics with exact contracts: byte histogram,
  header metadata, section and segment layout, instruction families, imported
  API families, strings and network or path indicators, packing signals,
  relocation types, and texture statistics of the byte image (block
  histograms, edges, co-occurrence counts, local binary patterns). It also
  builds the CSV header and performs the stratified split of a dataset.
- `app/` is the command-line program: it walks the sample directories, reads
  files, derives the floating-point features (entropies, ratios, normalised
  histograms) from the library's counts, saves the byte images as PNG files
  and writes the train, validation and test CSV files.
