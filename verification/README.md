# cognito_auth

An AWS Lambda HTTP handler that admits a request only with a valid Amazon Cognito ID
token, and greets the caller.

- `src/` is the verified library (Verus):
  - `jwks.rs`: the key set model, lookup of a key by its id, the order in which the
    sources of keys are consulted (memory, then the `jwks` bucket, then the user pool),
    and the cache of the last key set used, with the properties proved of them;
  - `cognito.rs`: the issuer and key-set address of a user pool, the bearer token of an
    `Authorization` header, and the checks a token goes through, and the authentication of a request as a step function (token, key id, key lookup, check), with what an accepted request is proved to be;
  - `jwt.rs`: the calls into `jsonwebtoken` and what is assumed of each;
  - `handler.rs`: the greeting response.
- `app/` is the Lambda program: request and response handling, S3 and HTTPS I/O, serde
  forms of the library's types, and the loop that performs the reads and writes the authentication asks for.
- `tests/` exercises the library, including signature checks on RSA-signed tokens.
