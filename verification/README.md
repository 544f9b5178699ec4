# ftnet

The verified core of the FTNet tools (FTNet, ftn, malai, skynet), written
in Verus.

- `src/` is the library. Every function in it has a contract; Verus proves
  them all except those of five trusted wrappers in `keys`, whose contracts
  state what the outside crates do and are believed, not proved:
  `base32_dnssec_encode` and `base32_dnssec_decode` (data-encoding's
  `BASE32_DNSSEC`), `checked_public_key_bytes`, `public_key_of_secret` and
  `public_key_display` (iroh-base's `PublicKey` and `SecretKey`). The modules:
  - `keys`: ed25519 public and secret keys, the 52-character base32 id of a
    key (`public_key_to_id52`, `id52_to_public_key`), secrets read back from
    the keyring;
  - `http`: responses as status and body;
  - `control`: how the control server routes a request by its `Host` header
    and acts on the identity service's answer;
  - `dotftn`: which data directory is used and what is created in it;
  - `expose`: the sharing information, the serving loop's reactions, the
    addresses and lines sent;
  - `cli`: which `skynet` sub-commands run;
  - `text`: decimal rendering.
- `app/` holds the input and output around it: hyper serving and proxying,
  the keyring, the file system, the terminal and the command line parser.
- `tests/` exercises the library on concrete values.
