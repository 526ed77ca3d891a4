# opengrok_core

The decisions that an agent session makes around three services, verified with Verus.

- `endpoint`: the base URL of the Meta API, and which key may be sent to it. A stored key
  goes to the provider's own host only.
- `meta_models`, `model_entry`, `entry_map`, `fingerprint`: the request for the models, and
  the catalog that an answer gives. A catalog remembers the fingerprint of the credential
  that it was asked for with.
- `redaction`: excerpts of error bodies from which the credential is taken out.
- `mailbox`, `agent_collaboration`: messages between the agents of a team, and the tools
  that send and read them.
- `image_generation_provider`: the names of the image generation services.
- `text`: specifications of the string operations that the other modules use.

Functions whose names start with `law_` are proofs of what holds across the functions of a
module.

`app/` reads the environment, sends the requests, reads and writes JSON, and runs the tools
against the mailboxes of a host. `tests/` runs the library.
