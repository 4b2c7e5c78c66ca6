# network-operator

A cluster network operator: it installs Cilium from one `Network` custom resource
and keeps it running, and its logic is verified with Verus.

- `src/` is the library: resolving and validating the resource, refusing changes
  that a running dataplane cannot take, rendering the objects of the install,
  deciding what to ask the apiserver, rolling up health, and the course of one
  reconcile pass. Every function has a contract over the mathematical views of its
  arguments and result. The `law_*` proof functions state what holds across
  functions.
- `tests/` runs the library on concrete values.
- `app/` is the program around it: the command line, the Kubernetes client, the
  watch loop, and the wire shape of the resource.

What Verus takes on trust are the calls into other crates: reading networks and
addresses (`src/address.rs`), quoting text (`src/text.rs`), the words of an
apiserver error (`src/kube_error.rs`), and where each kind of object is served
(`src/render/api.rs`). The comment above each says what is claimed of it.

Beside the agent, `cilium-operator` and their RBAC, a config may render Envoy as a
DaemonSet of its own. The bootstrap that Envoy starts from is in
`src/render/envoy/bootstrap.rs`.

## Modes

`spec.mode` supplies the default of every field under `spec.cilium`; a field that
is set wins. All modes start from cluster-pool IPAM with a /24 per node, kube-proxy
replacement, bpf host routing and a detected MTU.

| Mode | Routing | Encryption | LB-IPAM | Announce |
|---|---|---|---|---|
| overlay (default) | tunnel | none | off | none |
| native | native | none | off | none |
| bgp | native | none | on | bgp |
| encrypted | tunnel | wireguard | off | none |
| bare-metal | tunnel | none | on | l2 |

The routing family, the IPAM mode and both networks are fixed once installed.
