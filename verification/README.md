# vmod_cloudbucket

A [Varnish](http://varnish-cache.org/) backend that fetches objects from a cloud bucket, with
the authorization that the bucket asks for. For now, the bucket is one of AWS S3.

- `src/` decides: which URL is signed, what the worker is asked, in what order its messages
  come, what of them goes into the response, and how the body gets into Varnish's buffer. All
  of it is verified with [Verus](https://github.com/verus-lang/verus). `src/external.rs` holds
  what is believed of other crates, `src/laws.rs` and the functions named `law_..` what has
  been proved of the parts together.
- `app/` acts: it talks to Varnish, to the signer and to the bucket, and reports back.
- `tests/` runs the library.
