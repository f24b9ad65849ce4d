//! Decision logic of the tinyedge kubelet provider: the image policy for
//! containers, the node's taints, the pod and container lifecycles, the error
//! threshold and backoff bookkeeping of a pod, and the run context of its
//! modules.

pub mod image_ref;
pub mod myprovider;
pub mod states;
