# usg-est-issuer (verified core)

A namespaced, fail-closed RFC 7030 external issuer for cert-manager. The
library in `src/` holds every decision the issuer makes, each proved by Verus
against its contract:

- `policy`: the CSR checks (base64, PEM, PKCS#10, P-384 key, ECDSA-SHA-384
  signature, DNS SAN allowlist, SAN count, common name, usages, duration).
- `gates`: issuer targeting, the approval gate, the namespace gate, and the
  Secret gate (immutable, labeled Secrets only).
- `reconcile`: one reconciliation as a state machine from phase and event to
  next phase and action, with laws such as "no enrollment without every gate".
- `est`: the EST client's configuration with a model of what it holds
  (server URL, CA label, explicit trust anchors, CSR signature checking,
  credentials).
- `duration_text`: duration texts split into terms, so that the duration
  parser is only handed texts it cannot overflow on.
- `status`, `enrollment`, `audit`, `error`, `duration`: status conditions,
  outcome reports and bounded requeue delays, the issued chain encoding, audit
  records, reason codes and retry delays.
- `trusted`: the calls into `base64`, `x509-parser`, `humantime`, `der`,
  `usg-est-client`'s configuration builder and `String::from_utf8`, with the
  contracts that the rest relies on.

`app/` is the controller process: Kubernetes watches, reads and status
patches, the EST client's network exchange, logging, and the CRD types with their derives.
