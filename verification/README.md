# tinyedge

A kubelet provider for edge nodes whose decisions carry machine-checked proofs.

- `src/` is the verified library: the image policy for containers
  (`image_ref`, `myprovider`), the node's architecture and taints, the pod
  and container lifecycles (`states::pod`, `states::container`), the error
  threshold and backoff bookkeeping of a pod, and the run context of its
  modules.
- `app/` is the program around it: it talks to the Kubernetes API through the
  kubelet crate, implements the kubelet traits, and hands each decision to the
  library.
- `tests/` runs the library on concrete values.
