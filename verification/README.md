# image-depth-server

An HTTP service that turns a Kugou cover hash into a grayscale depth map
(`GET /depth/{hash}`), computed with a Depth Anything ONNX model and cached in
sled, plus a health endpoint (`GET /health`).

## Layout

- `src/` — the library, verified with Verus:
  - `config.rs` — settings and their validation;
  - `error.rs` — error kinds, messages and HTTP status codes;
  - `text.rs` — decimal and hexadecimal formatting with their specifications;
  - `cache.rs` — cache entries and cache keys (with the proof that keys identify
    their inputs);
  - `inference.rs` — model fingerprints (FNV-1a), model input/output checks and
    reading the depth output shape;
  - `download.rs` — the cover size, CDN addresses and the download size limit;
  - `imaging.rs` — the calls into the `image` crate (decoding, resizing, PNG);
  - `preprocess.rs` — decoding, resizing to the chosen sizes, padding;
  - `postprocess.rs` — the PNG data URL (base64) of the depth image;
  - `routes.rs` — hash validation and the request flow as a state machine.
- `app/` — the executable: settings from the command line (clap), the sled
  cache and JSON (serde), downloads (reqwest), ONNX Runtime (ort), the
  floating-point parts (image sizes, crop size, normalisation of pixels and
  depth values), and the axum server that drives the
  request flow.
- `tests/` — tests of the library on concrete values.
