use tinyedge::image_ref::{has_prefix, ImageReference, IMAGE_REPO};
use tinyedge::myprovider::{
    ModuleRunContext, MyProvider, StringHashMap, ValidationError, ARCH, NODE_ARCHITECTURE,
    VOLUME_PATH,
};
use tinyedge::states::container::running::Running as ContainerRunning;
use tinyedge::states::container::terminated::Terminated;
use tinyedge::states::container::waiting::Waiting;
use tinyedge::states::container::{ContainerStateName, ContainerStatus, ContainerTransition};
use tinyedge::states::pod::completed::Completed;
use tinyedge::states::pod::initializing::Initializing;
use tinyedge::states::pod::running::Running as PodRunning;
use tinyedge::states::pod::starting::Starting;
use tinyedge::states::pod::{
    BackoffSequence, Phase, PodState, PodStateName, PodTransition, ThresholdTrigger,
    ERROR_THRESHOLD,
};
use tinyedge::states::provider::ProviderState;

fn reference(registry: &str, repository: &str, tag: Option<&str>, digest: Option<&str>) -> ImageReference {
    ImageReference {
        registry: registry.to_string(),
        repository: repository.to_string(),
        tag: tag.map(|t| t.to_string()),
        digest: digest.map(|d| d.to_string()),
    }
}

#[test]
fn container_without_image_is_runnable() {
    assert_eq!(MyProvider::validate_container_runnable(None), Ok(()));
}

#[test]
fn library_image_is_runnable() {
    assert_eq!(MyProvider::validate_container_runnable(Some("docker.io/library/nginx:latest")), Ok(()));
    assert_eq!(MyProvider::validate_container_runnable(Some("docker.io/library/hello-world")), Ok(()));
    let digest = "docker.io/library/redis@sha256:ffffffffffffffffffffffffffffffffffffffffffffffffffffffffffffffff";
    assert_eq!(MyProvider::validate_container_runnable(Some(digest)), Ok(()));
}

#[test]
fn image_from_other_repository_is_refused() {
    assert_eq!(MyProvider::validate_container_runnable(Some("nginx:latest")), Err(ValidationError::WrongRepository));
    assert_eq!(MyProvider::validate_container_runnable(Some("quay.io/library/nginx")), Err(ValidationError::WrongRepository));
    assert_eq!(MyProvider::validate_container_runnable(Some("docker.io/bitnami/nginx")), Err(ValidationError::WrongRepository));
}

#[test]
fn invalid_image_reference_is_refused() {
    assert_eq!(
        MyProvider::validate_container_runnable(Some("")),
        Err(ValidationError::InvalidImage("repository name must have at least one component".to_string()))
    );
    assert_eq!(
        MyProvider::validate_container_runnable(Some("Uppercase:tag")),
        Err(ValidationError::InvalidImage("invalid reference format".to_string()))
    );
    assert_eq!(
        MyProvider::validate_container_runnable(Some("docker.io/library/repo@sha256:ffff")),
        Err(ValidationError::InvalidImage("invalid reference format".to_string()))
    );
}

#[test]
fn validation_messages() {
    assert_eq!(ValidationError::WrongRepository.message(), "Repository must be 'docker.io/library'.");
    assert_eq!(ValidationError::InvalidImage("bad".to_string()).message(), "bad");
}

#[test]
fn whole_reference_forms() {
    assert_eq!(reference("", "nginx", None, None).whole(), "nginx");
    assert_eq!(reference("docker.io", "library/nginx", Some("1.19"), None).whole(), "docker.io/library/nginx:1.19");
    assert_eq!(reference("test:5000", "repo", None, Some("sha256:ab")).whole(), "test:5000/repo@sha256:ab");
    assert_eq!(reference("r.io", "a/b", Some("t"), Some("sha256:cd")).whole(), "r.io/a/b:t@sha256:cd");
    assert_eq!(reference("", "", Some("t"), None).whole(), "t");
    assert_eq!(reference("", "", None, Some("d")).whole(), "d");
}

#[test]
fn repository_check_on_parsed_reference() {
    assert_eq!(MyProvider::check_image_repository(&reference("docker.io", "library/nginx", Some("latest"), None)), Ok(()));
    assert_eq!(
        MyProvider::check_image_repository(&reference("", "nginx", Some("latest"), None)),
        Err(ValidationError::WrongRepository)
    );
    assert_eq!(
        MyProvider::check_image_repository(&reference("docker.io", "bitnami/nginx", None, None)),
        Err(ValidationError::WrongRepository)
    );
}

#[test]
fn prefix_test() {
    assert!(has_prefix("docker.io/library/x", IMAGE_REPO));
    assert!(has_prefix("abc", ""));
    assert!(has_prefix("abc", "abc"));
    assert!(!has_prefix("ab", "abc"));
    assert!(!has_prefix("abd", "abc"));
}

#[test]
fn every_pod_is_runnable() {
    assert_eq!(MyProvider::validate_pod_runnable(), Ok(()));
}

#[test]
fn node_architecture_and_taints() {
    let provider = MyProvider::new();
    let node = provider.node();
    assert_eq!(node.architecture, NODE_ARCHITECTURE);
    assert_eq!(node.architecture, "amd64");
    assert_eq!(node.taints.len(), 2);
    assert_eq!(node.taints[0].effect, "NoSchedule");
    assert_eq!(node.taints[0].key, "kubernetes.io/arch");
    assert_eq!(node.taints[0].value, ARCH);
    assert_eq!(node.taints[1].effect, "NoExecute");
    assert_eq!(node.taints[1].key, "kubernetes.io/arch");
    assert_eq!(node.taints[1].value, "tinyedge");
}

#[test]
fn provider_keeps_volumes_in_tmp() {
    let provider = MyProvider::new();
    assert_eq!(provider.shared.volume_path, VOLUME_PATH);
    let shared = provider.provider_state();
    assert_eq!(shared.volume_path, "/tmp");
    assert_eq!(shared.volume_path().map(|p| p.as_str()), Some("/tmp"));
    assert_eq!(shared.stop(), Ok(()));
    let other = ProviderState { volume_path: "/var/lib/tinyedge".to_string() };
    assert_eq!(other.volume_path().map(|p| p.as_str()), Some("/var/lib/tinyedge"));
}

#[test]
fn pod_lifecycle() {
    assert_eq!(Initializing.next(), PodTransition::Next(PodStateName::Starting));
    assert_eq!(Starting.next(), PodTransition::Next(PodStateName::Running));
    assert_eq!(PodRunning.next(), PodTransition::Next(PodStateName::Completed));
    assert_eq!(Completed.next(), PodTransition::Complete(Ok(())));
}

#[test]
fn pod_statuses() {
    let s = Initializing.status();
    assert_eq!((s.phase, s.reason.as_str()), (Phase::Succeeded, "Initializing"));
    let s = Starting.status();
    assert_eq!((s.phase, s.reason.as_str()), (Phase::Succeeded, "Starting"));
    let s = PodRunning.status();
    assert_eq!((s.phase, s.reason.as_str()), (Phase::Succeeded, "Running"));
    let s = Completed.status();
    assert_eq!((s.phase, s.reason.as_str()), (Phase::Succeeded, "Completed"));
}

#[test]
fn container_lifecycle() {
    assert_eq!(Waiting.next(), ContainerTransition::Next(ContainerStateName::Running));
    assert_eq!(ContainerRunning::new().next(), ContainerTransition::Next(ContainerStateName::Terminated));
    assert_eq!(Terminated::new().next(), ContainerTransition::Complete(Ok(())));
}

#[test]
fn container_statuses() {
    assert_eq!(Waiting.status(), ContainerStatus::Waiting { message: "Waiting".to_string() });
    assert_eq!(ContainerRunning::new().status(), ContainerStatus::Waiting { message: "Running".to_string() });
    assert_eq!(Terminated::new().status(), ContainerStatus::Waiting { message: "Terminated".to_string() });
}

#[test]
fn new_pod_state_is_empty() {
    let state: PodState<&str, u32, u64> = PodState::new("default/web", 10, 20);
    assert_eq!(*state.pod_key(), "default/web");
    assert_eq!(state.errors(), 0);
    assert!(state.run_context().modules.is_empty());
    assert!(state.run_context().volumes.is_empty());
    assert!(state.run_context().env_vars.is_empty());
}

#[test]
fn error_threshold_trips_on_every_fourth_error() {
    let mut state: PodState<u8, u32, u64> = PodState::new(0, 10, 20);
    let mut trips = Vec::new();
    for _ in 0..12 {
        trips.push(state.record_error() == ThresholdTrigger::Triggered);
        assert!(state.errors() <= ERROR_THRESHOLD);
    }
    assert_eq!(
        trips,
        vec![false, false, false, true, false, false, false, true, false, false, false, true]
    );
    assert_eq!(state.record_error(), ThresholdTrigger::Untriggered);
    assert_eq!(state.errors(), 1);
}

#[test]
fn backoff_changes_only_its_own_strategy() {
    let mut state: PodState<u8, u32, u64> = PodState::new(0, 10, 20);
    assert_eq!(*state.backoff_strategy(BackoffSequence::ImagePull), 10);
    assert_eq!(*state.backoff_strategy(BackoffSequence::CrashLoop), 20);
    *state.backoff_strategy(BackoffSequence::CrashLoop) = 40;
    assert_eq!(*state.backoff_strategy(BackoffSequence::CrashLoop), 40);
    assert_eq!(*state.backoff_strategy(BackoffSequence::ImagePull), 10);
    *state.backoff_strategy(BackoffSequence::ImagePull) = 0;
    assert_eq!(*state.backoff_strategy(BackoffSequence::ImagePull), 0);
    assert_eq!(*state.backoff_strategy(BackoffSequence::CrashLoop), 40);
}

#[test]
fn set_volumes_extends() {
    let mut state: PodState<u8, u32, u64> = PodState::new(0, 10, 20);
    let mut first = StringHashMap::new();
    first.insert("data".to_string(), 1);
    first.insert("cache".to_string(), 2);
    state.set_volumes(first);
    let mut second = StringHashMap::new();
    second.insert("cache".to_string(), 3);
    second.insert("logs".to_string(), 4);
    state.set_volumes(second);
    let volumes = &state.run_context().volumes;
    assert_eq!(volumes.len(), 3);
    assert_eq!(volumes.get("data"), Some(&1));
    assert_eq!(volumes.get("cache"), Some(&3));
    assert_eq!(volumes.get("logs"), Some(&4));
}

#[test]
fn set_modules_and_env_vars_replace() {
    let mut state: PodState<u8, u32, u64> = PodState::new(0, 10, 20);
    let mut modules = StringHashMap::new();
    modules.insert("a".to_string(), vec![1u8, 2]);
    state.set_modules(modules);
    let mut modules = StringHashMap::new();
    modules.insert("b".to_string(), vec![3u8]);
    state.set_modules(modules);
    assert_eq!(state.run_context().modules.len(), 1);
    assert_eq!(state.run_context().modules.get("a"), None);
    assert_eq!(state.run_context().modules.get("b"), Some(&vec![3u8]));

    let mut vars = StringHashMap::new();
    vars.insert("RUST_LOG".to_string(), "info".to_string());
    let mut env = StringHashMap::new();
    env.insert("main".to_string(), vars);
    state.set_env_vars(env);
    state.set_env_vars(StringHashMap::new());
    assert!(state.run_context().env_vars.is_empty());
    assert_eq!(state.errors(), 0);
    assert_eq!(*state.backoff_strategy(BackoffSequence::ImagePull), 10);
}

#[test]
fn fresh_run_context_is_empty() {
    let context: ModuleRunContext<u32> = ModuleRunContext::new();
    assert_eq!(context.modules.len(), 0);
    assert_eq!(context.volumes.len(), 0);
    assert_eq!(context.env_vars.len(), 0);
}

#[test]
fn error_threshold_from_a_partial_count() {
    let mut state: PodState<u8, u32, u64> = PodState::new(0, 10, 20);
    assert_eq!(state.record_error(), ThresholdTrigger::Untriggered);
    assert_eq!(state.record_error(), ThresholdTrigger::Untriggered);
    assert_eq!(state.errors(), 2);
    let trips: Vec<bool> = (0..8).map(|_| state.record_error() == ThresholdTrigger::Triggered).collect();
    assert_eq!(trips, vec![false, true, false, false, false, true, false, false]);
    assert_eq!(state.errors(), 2);
}
