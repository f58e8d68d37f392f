# ytdlp_extractor

Site extractors for media pages, written in Verus and verified.

Each extractor is a step function: given the page address and the answers to the
requests made so far, it returns the next request to make (`Step::Fetch`) or the
finished result (`Step::Done`). The contracts state, for every answer, which request
comes next or which metadata, playlist or error results.

Layout:

- `src/framework.rs`: descriptors, matchers, requests, answers and results.
- `src/json.rs`, `src/info.rs`: the JSON model and the metadata dictionary.
- `src/text.rs`, `src/number.rs`, `src/float.rs`, `src/html.rs`, `src/page.rs`,
  `src/media_types.rs`, `src/timestamp.rs`, `src/extract.rs`: text, number and page helpers.
- `src/pattern.rs`, `src/weburl.rs`, `src/jsontext.rs`, `src/xml.rs`: the calls into
  `fancy-regex`, `regex`, `url`, `serde_json` and `quick-xml`, behind trusted contracts.
- `src/sites/`: the extractors.
- `src/laws.rs`: properties that relate several functions.
- `app/lib.rs`: the HTTP loop that performs the requests and converts JSON for output.
- `tests/`: tests on concrete values.
