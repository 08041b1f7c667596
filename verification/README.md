# image_resizing_lambda

An AWS Lambda function that shrinks images uploaded to S3 until their JPEG
encoding is below a size limit (5 MB by default), stores the result under a
resized prefix and, when a table is configured, records metadata in DynamoDB.

The decisions are a library verified with Verus (`src/`):

- `services/image_processor.rs`: the dimension arithmetic (aspect ratio kept,
  never enlarged), the schedule of encoding attempts and the processor that
  drives the `image` codec through it (`services/codec.rs`).
- `handler.rs`: the handling of an S3 notification as a state machine that
  says what to fetch, store and record next.
- `models/`: the settings and the metadata record; `keys.rs`: destination keys;
  `decimal.rs`: decimal rendering and parsing; `error.rs`: errors and messages.

`app/` is the Lambda program around it: the runtime, the environment, and the
S3 and DynamoDB clients.
