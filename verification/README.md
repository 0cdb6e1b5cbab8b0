# velox

The verified core of Velox, a small file-storage service with passwordless
(magic link) sign-in.

- `src/` is the library, verified with Verus. Every service operation
  (login, authorize, refresh, logout, uploads, and the requests on a user's
  files, folders and record) is a state machine: it answers each event with
  the next command to run against the database, the object store, the mailer
  or the token signer, or with its result. Around them sit the text and
  token building blocks (hashing, hexadecimal, identifiers, object keys and
  URLs), the multipart part assembler, request validation, the magic link
  e-mail, session cookies and the error-to-response mapping. A model of
  the token tables states what committed flows leave behind: a magic link
  or a refresh token works once, and a logout revokes its token.
- `app/` is the server: configuration, routing, the SQL, the object store
  and mail calls, and the loops that run the library's state machines.
- `tests/` drive the state machines and the functions with concrete values.
