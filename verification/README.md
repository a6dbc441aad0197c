# fashion_mnist

A FashionMNIST classifier program whose data handling and decisions are a
verified Verus library.

- `src/` is the library, verified by Verus:
  - `data`: decoding of IDX3 image and IDX1 label files, the dataset and its
    batches;
  - `fetch`: the mirror's addresses and the unpacking of the gzip files
    (through `flate2`);
  - `predict`: ASCII-art rendering of an image, class names, and the lines
    and errors of a prediction report;
  - `menu`: the decisions of the interactive menu;
  - `model`: the layer sizes of the classifier;
  - `text`: decimal numbers, padding, white-space trimming, integer parsing.
- `app/` is the program: file and network I/O, the menu loop, and the burn
  model, training and inference.
- `tests/` exercises the library.
