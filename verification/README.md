# decay

A Turborepo remote cache server that keeps artifacts in S3, written as a
library verified with Verus and a thin server around it.

- `src/` is the verified library: settings (`app_settings`), the
  `TURBO_TOKEN` check (`auth`), artifacts and their metadata (`domain`),
  request decisions (`routes`, `http_span`), the S3 client policy and the
  upload protocol (`storage`), the cache use-cases (`usecases`) and the
  GitHub Actions helper's commands (`gha`). `decimal` and `text` hold the
  number and string helpers they share.
- `app/` is the server: environment, HTTP (actix-web), S3 requests
  (aws-sdk-s3), telemetry, and the GitHub Actions helper's process handling;
  the binary runs that helper when it is invoked as `decay_gha`.
- `tests/` runs the library on concrete values.
