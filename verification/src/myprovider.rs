//! The provider: the node it announces, the pods and containers it accepts.

use crate::image_ref::{has_prefix, parse_reference, reference_parse, ImageReference, IMAGE_REPO};
use crate::states::provider::ProviderState;
use vstd::prelude::*;

pub use vstd::hash_map::StringHashMap;

verus! {

/// The architecture name under which this provider registers its node.
pub const ARCH: &'static str = "tinyedge";

/// The directory that a new provider keeps its volumes in.
pub const VOLUME_PATH: &'static str = "/tmp";

/// The architecture that the node reports.
pub const NODE_ARCHITECTURE: &'static str = "amd64";

/// A taint put on the node: an effect on pods that do not tolerate `key=value`.
pub struct Taint {
    pub effect: String,
    pub key: String,
    pub value: String,
}

/// The mathematical value of a [`Taint`].
pub struct TaintView {
    pub effect: Seq<char>,
    pub key: Seq<char>,
    pub value: Seq<char>,
}

impl View for Taint {
    type V = TaintView;

    open spec fn view(&self) -> TaintView {
        TaintView { effect: self.effect@, key: self.key@, value: self.value@ }
    }
}

/// What the provider writes into the node it registers.
pub struct NodeSettings {
    pub architecture: String,
    pub taints: Vec<Taint>,
}

/// The taint with the given effect that keeps pods of other architectures off the node.
pub open spec fn arch_taint(effect: Seq<char>) -> TaintView {
    TaintView { effect, key: "kubernetes.io/arch"@, value: ARCH@ }
}

/// Why a pod or a container is refused.
#[derive(Debug, PartialEq, Eq)]
pub enum ValidationError {
    /// The image string is no valid reference; the text is the parser's.
    InvalidImage(String),
    /// The image does not come from [`IMAGE_REPO`].
    WrongRepository,
}

/// The message of the refusal of an image from another repository.
pub open spec fn wrong_repository_message() -> Seq<char> {
    "Repository must be 'docker.io/library'."@
}

impl ValidationError {
    /// The message that reports this error.
    pub fn message(&self) -> (m: String)
        ensures
            m@ == match self {
                ValidationError::InvalidImage(t) => t@,
                ValidationError::WrongRepository => wrong_repository_message(),
            },
    {
        match self {
            ValidationError::InvalidImage(t) => t.clone(),
            ValidationError::WrongRepository => String::from_str("Repository must be 'docker.io/library'."),
        }
    }
}

/// The outcome of the repository check on a parsed reference whose whole form is `whole`.
pub open spec fn repository_allowed(whole: Seq<char>) -> bool {
    IMAGE_REPO@.is_prefix_of(whole)
}

/// The outcome of validating a container whose image field is `image`.
pub open spec fn container_validation(image: Option<Seq<char>>) -> Result<(), Option<Seq<char>>> {
    match image {
        None => Ok(()),
        Some(s) => match reference_parse(s) {
            Err(m) => Err(Some(m)),
            Ok(r) => if repository_allowed(r.whole()) {
                Ok(())
            } else {
                Err(None)
            },
        },
    }
}

/// An error seen as in [`container_validation`]: the parser's text, or `None` for the repository.
pub open spec fn validation_error_view(e: ValidationError) -> Option<Seq<char>> {
    match e {
        ValidationError::InvalidImage(t) => Some(t@),
        ValidationError::WrongRepository => None,
    }
}

/// A validation result seen as in [`container_validation`].
pub open spec fn validation_view(r: Result<(), ValidationError>) -> Result<(), Option<Seq<char>>> {
    match r {
        Ok(()) => Ok(()),
        Err(e) => Err(validation_error_view(e)),
    }
}

pub open spec fn opt_str_view(o: Option<&str>) -> Option<Seq<char>> {
    match o {
        Some(s) => Some(s@),
        None => None,
    }
}

/// The provider; what it reads of its shared state is the volume path.
pub struct MyProvider {
    pub shared: ProviderState,
}

impl MyProvider {
    /// A provider that keeps its volumes under [`VOLUME_PATH`].
    pub fn new() -> (p: MyProvider)
        ensures
            p.shared.volume_path@ == VOLUME_PATH@,
    {
        MyProvider { shared: ProviderState { volume_path: String::from_str(VOLUME_PATH) } }
    }

    /// A copy of the shared state, handed to each pod's state handlers.
    pub fn provider_state(&self) -> (s: ProviderState)
        ensures
            s.volume_path@ == self.shared.volume_path@,
    {
        ProviderState { volume_path: self.shared.volume_path.clone() }
    }

    /// The node information: architecture `amd64`, and two taints on the
    /// architecture key, `NoSchedule` then `NoExecute`, whose value is [`ARCH`].
    pub fn node(&self) -> (n: NodeSettings)
        ensures
            n.architecture@ == NODE_ARCHITECTURE@,
            n.taints@.map_values(|t: Taint| t@) == seq![arch_taint("NoSchedule"@), arch_taint("NoExecute"@)],
    {
        let mut taints: Vec<Taint> = Vec::new();
        taints.push(Taint {
            effect: String::from_str("NoSchedule"),
            key: String::from_str("kubernetes.io/arch"),
            value: String::from_str(ARCH),
        });
        taints.push(Taint {
            effect: String::from_str("NoExecute"),
            key: String::from_str("kubernetes.io/arch"),
            value: String::from_str(ARCH),
        });
        let n = NodeSettings { architecture: String::from_str(NODE_ARCHITECTURE), taints };
        assert(n.taints@.map_values(|t: Taint| t@) =~= seq![arch_taint("NoSchedule"@), arch_taint("NoExecute"@)]);
        n
    }

    /// Every pod may run on this provider.
    pub fn validate_pod_runnable() -> (r: Result<(), ValidationError>)
        ensures
            r is Ok,
    {
        Ok(())
    }

    /// The repository check on a parsed image reference: its whole form must
    /// begin with [`IMAGE_REPO`].
    pub fn check_image_repository(reference: &ImageReference) -> (r: Result<(), ValidationError>)
        ensures
            r is Ok <==> repository_allowed(reference@.whole()),
            r is Ok <==> "docker.io/library"@.is_prefix_of(reference@.whole()),
            r is Err ==> r->Err_0 == ValidationError::WrongRepository,
    {
        let whole = reference.whole();
        if !has_prefix(whole.as_str(), IMAGE_REPO) {
            return Err(ValidationError::WrongRepository);
        }
        Ok(())
    }

    /// Whether a container may run: a container without an image may; one
    /// with an image must name a valid reference from [`IMAGE_REPO`].
    pub fn validate_container_runnable(image: Option<&str>) -> (r: Result<(), ValidationError>)
        ensures
            validation_view(r) == container_validation(opt_str_view(image)),
            image is Some ==> (r is Ok <==> (image->0@.len() > 0 && reference_parse(image->0@) is Ok
                && "docker.io/library"@.is_prefix_of(image->0@))),
            image is Some && reference_parse(image->0@) is Ok ==> (r is Ok
                <==> "docker.io/library"@.is_prefix_of(image->0@)),
            image is Some && !"docker.io/library"@.is_prefix_of(image->0@) ==> r is Err,
            image is Some && reference_parse(image->0@) is Ok
                && !"docker.io/library"@.is_prefix_of(image->0@)
                ==> r == Err::<(), ValidationError>(ValidationError::WrongRepository),
    {
        match image {
            None => Ok(()),
            Some(s) => match parse_reference(s) {
                Err(m) => Err(ValidationError::InvalidImage(m)),
                Ok(reference) => MyProvider::check_image_repository(&reference),
            },
        }
    }
}

/// What the modules of a pod run with: their code by name, the volumes by
/// name, and the environment variables of each container.
#[verifier::reject_recursive_types(V)]
pub struct ModuleRunContext<V> {
    pub modules: StringHashMap<Vec<u8>>,
    pub volumes: StringHashMap<V>,
    pub env_vars: StringHashMap<StringHashMap<String>>,
}

impl<V> ModuleRunContext<V> {
    /// A context with no modules, no volumes and no environment variables.
    pub fn new() -> (c: ModuleRunContext<V>)
        ensures
            c.modules@ == Map::<Seq<char>, Vec<u8>>::empty(),
            c.volumes@ == Map::<Seq<char>, V>::empty(),
            c.env_vars@ == Map::<Seq<char>, StringHashMap<String>>::empty(),
    {
        ModuleRunContext {
            modules: StringHashMap::new(),
            volumes: StringHashMap::new(),
            env_vars: StringHashMap::new(),
        }
    }
}

/// An image passes the repository check exactly when its whole reference
/// begins with `docker.io/library`: every such image is accepted, whatever its
/// tag or digest, and no other image is, whatever its registry.
pub proof fn lemma_repository_allowed_is_library_prefix(whole: Seq<char>)
    ensures
        repository_allowed(whole) <==> "docker.io/library"@.is_prefix_of(whole),
        "docker.io/library"@.is_prefix_of(whole) ==> repository_allowed(whole),
        repository_allowed(whole) ==> whole.len() >= 17 && whole.subrange(0, 17)
            == "docker.io/library"@,
{
    reveal_strlit("docker.io/library");
}

/// A container with an image that parses is accepted exactly when the whole
/// reference begins with `docker.io/library`; one whose image does not parse
/// is refused with the parser's text; one without an image is accepted.
pub proof fn lemma_container_validation_is_library_prefix(image: Option<Seq<char>>)
    ensures
        image is None ==> container_validation(image) == Ok::<(), Option<Seq<char>>>(()),
        image is Some && reference_parse(image->0) is Err ==> container_validation(image)
            == Err::<(), Option<Seq<char>>>(Some(reference_parse(image->0)->Err_0)),
        image is Some && reference_parse(image->0) is Ok ==> (container_validation(image) is Ok
            <==> "docker.io/library"@.is_prefix_of(reference_parse(image->0)->Ok_0.whole())),
        image is Some && reference_parse(image->0) is Ok ==> (container_validation(image) is Err
            <==> container_validation(image) == Err::<(), Option<Seq<char>>>(None)),
{
    reveal_strlit("docker.io/library");
}

} // verus!
