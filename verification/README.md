# armazem

The logic of the armázem S3 gateway and of its bundle publisher, verified
with Verus.

- `src/` is the verified library:
  - `config`: resolving the gateway configuration from its environment
    values (defaults, address texts, backend selection, error order);
  - `publish`: the publisher's settings, URLs and PUT requests, how the
    CreateBucket and PutObject answers are judged, the retry state of a PUT
    and the run that sends the two PUTs in turn (`Publisher`), and the
    texts of its errors;
  - `bundle`: gzip compression of the bundle's tar archive through flate2;
  - `health`: the health and metrics endpoints and their answers;
  - `serving`: the decisions of the accept loop and of process shutdown;
  - `text`: decimal numbers and quoted strings for error messages, through
    std's formatting.
- `app/` is the program around it: reading the environment, parsing socket
  addresses, the s3s/axum servers, the tar walk of a directory and the HTTP
  uploads. Run under the name `armazem-publish` it publishes a bundle;
  under any other name it is the gateway.
- `tests/` exercises the library on concrete values.
