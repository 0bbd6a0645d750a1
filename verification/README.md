# playit-operator

A Kubernetes operator that turns `PlayitTunnel` custom resources into
[playit.gg](https://playit.gg) tunnels. The decisions of the operator are a
Verus library whose contracts are proved; the program around it makes the
Kubernetes and HTTP calls.

- `src/` — the verified library
  - `crd.rs`: the resource's spec and status
  - `error.rs`: the operator's errors and their messages
  - `controller.rs`: reconcile decisions — target resolution, the desired
    tunnel, the status to write (and whether to write it), requeue policy,
    cleanup
  - `provider/`: the desired/provisioned tunnel, the dry-run provider, and the
    playit.gg provider's decisions (request bodies, answer envelopes, find /
    create / reconfigure / delete plans)
  - `claim.rs`: the claim flow's code, progress and call outcomes
  - `startup.rs`: which provider the operator runs with
  - `text.rs`: string helpers stated over `Seq<char>`
- `app/` — the program: the controller runtime, HTTP calls, serde/Kubernetes
  derives on copies of the library's types, and the `claim` and `crdgen`
  subcommands
- `tests/` — tests of the library on concrete values
