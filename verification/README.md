# ezlogin

Automatic login to the BESTI campus network portal, with captcha
recognition, retries, an optional connectivity check before login, and
locally encrypted credentials.

The library (`src/`) holds the decisions and data handling, proved with
Verus:

- `login` — the login run as a state machine (`LoginFlow`): the required
  connectivity check before the first attempt, retries, classification of
  transport failures, and the response that ends a run.
- `portal` — the portal's addresses, request plans and headers, login form,
  the reading of its replies (JSON through `serde_json`), the XSRF token,
  and the connectivity probe (`ProbeRun`).
- `storage` — key derivation, password encryption and the saved
  configuration (`ConfigStore`); loading what was saved gives it back.
- `ocr` — the character dictionary, the model-file patch, the layout of the
  model's output, CTC collapsing and captcha sanitising.
- `cli` — which credentials and options a login uses, and what `set`
  changes.
- `text` — string search and rewriting with specifications.
- `crypto` — the calls into `aes-gcm`, `base64`, `sha2` and std's UTF-8
  decoding, with the contracts they are trusted to meet, and the memory
  bounds under which they do not panic.

`app/` is the command-line program around it: HTTP with `reqwest`, the ONNX
recogniser with `tract-onnx` and `image`, files and environment, and
argument parsing with `clap`.
