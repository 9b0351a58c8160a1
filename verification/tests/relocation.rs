use pod_relocator::engine::{ApiOutcome, PodModel, RelocationAction, RelocationEngine};
use pod_relocator::names::new_pod_name;
use pod_relocator::planner::{plan_relocation, RelocationPlan};
use pod_relocator::records::{
    describe_containers, node_field_selector, pods_on_node, ContainerInfo, PodListing, PodRecord,
};

fn listing(name: &str, id: &str, node: &str) -> PodListing {
    PodListing { name: name.to_string(), id: id.to_string(), node: node.to_string() }
}

fn leading_marker_count(name: &str) -> usize {
    let mut count = 0;
    let mut rest = name;
    while let Some(stripped) = rest.strip_prefix("movido-") {
        count += 1;
        rest = stripped;
    }
    count
}

/// A cluster namespace simulated as a list of pods, with the uniqueness of
/// names that a real namespace enforces.
struct FakeCluster {
    pods: Vec<PodModel>,
}

impl FakeCluster {
    fn new(names: &[&str]) -> FakeCluster {
        let pods = names
            .iter()
            .map(|n| pod_relocator::engine::build_pod_with_node_affinity(n, "node-a"))
            .collect();
        FakeCluster { pods }
    }

    fn has(&self, name: &str) -> bool {
        self.pods.iter().any(|p| p.name == name)
    }

    fn affinity_values_of(&self, name: &str) -> Vec<String> {
        let pod = self.pods.iter().find(|p| p.name == name).unwrap();
        pod.affinity.values.clone()
    }

    /// Performs one engine action; `fail` makes the call report failure and
    /// leave the cluster untouched.
    fn perform(&mut self, action: &RelocationAction, fail: bool) -> ApiOutcome {
        if fail {
            return ApiOutcome::Failed;
        }
        match action {
            RelocationAction::DeletePod { name } => {
                self.pods.retain(|p| &p.name != name);
                ApiOutcome::Succeeded
            }
            RelocationAction::CreatePod { pod } => {
                self.pods.push(PodModel {
                    name: pod.name.clone(),
                    container_name: pod.container_name.clone(),
                    image: pod.image.clone(),
                    affinity: pod_relocator::engine::AffinityTerm {
                        key: pod.affinity.key.clone(),
                        operator: pod.affinity.operator.clone(),
                        values: pod.affinity.values.clone(),
                    },
                });
                ApiOutcome::Succeeded
            }
            RelocationAction::Finished => ApiOutcome::Succeeded,
        }
    }
}

#[test]
fn derives_name_for_first_relocation() {
    assert_eq!(new_pod_name("nginx-1", "node-b"), "movido-node-b-nginx-1");
}

#[test]
fn rederiving_keeps_a_single_marker() {
    let first = new_pod_name("nginx-1", "node-b");
    let second = new_pod_name(&first, "node-c");
    assert_eq!(second, "movido-node-c-node-b-nginx-1");
    assert_eq!(leading_marker_count(&second), 1);
    let third = new_pod_name(&second, "node-d");
    assert_eq!(leading_marker_count(&third), 1);
}

#[test]
fn derivation_edge_cases() {
    assert_eq!(new_pod_name("", "n"), "movido-n-");
    assert_eq!(new_pod_name("movido-", "x"), "movido-x-");
    assert_eq!(new_pod_name("movido", "x"), "movido-x-movido");
    assert_eq!(new_pod_name("a", ""), "movido--a");
}

#[test]
fn node_filter_keeps_only_the_named_node() {
    let listings = vec![
        listing("pod-a", "1", "dell7580"),
        listing("pod-b", "2", "other"),
        listing("pod-c", "3", "dell7580"),
    ];
    let pods = pods_on_node(&listings, "dell7580");
    assert_eq!(pods.len(), 2);
    assert_eq!(pods[0].name, "pod-a");
    assert_eq!(pods[0].id, "1");
    assert_eq!(pods[1].name, "pod-c");
    assert_eq!(pods[1].id, "3");
}

#[test]
fn node_filter_of_foreign_nodes_is_empty() {
    let listings = vec![listing("pod-a", "1", "node-x")];
    let pods = pods_on_node(&listings, "node-y");
    assert!(pods.is_empty());
}

#[test]
fn field_selector_names_the_node() {
    assert_eq!(node_field_selector("dell7580"), "spec.nodeName=dell7580");
}

#[test]
fn describe_containers_reads_missing_spec_as_empty() {
    assert!(describe_containers(None).is_empty());
    let cs = vec![ContainerInfo {
        name: "c".to_string(),
        image: Some("img".to_string()),
        command: None,
        args: None,
    }];
    let out = describe_containers(Some(cs));
    assert_eq!(out.len(), 1);
    assert_eq!(out[0].name, "c");
    assert_eq!(out[0].image.as_deref(), Some("img"));
}

#[test]
fn plan_picks_the_first_pod() {
    let pods = vec![
        PodRecord { name: "nginx-1".to_string(), id: "1".to_string() },
        PodRecord { name: "nginx-2".to_string(), id: "2".to_string() },
    ];
    let plan = plan_relocation(&pods, "node-b");
    assert_eq!(plan.pod_to_delete.as_deref(), Some("nginx-1"));
    assert_eq!(plan.new_pod_name, "movido-node-b-nginx-1");
    assert_eq!(plan.target_node, "node-b");
}

#[test]
fn empty_inventory_falls_back_to_the_fixed_name() {
    let pods: Vec<PodRecord> = Vec::new();
    let plan = plan_relocation(&pods, "node-b");
    assert!(plan.pod_to_delete.is_none());
    assert_eq!(plan.new_pod_name, "pod-teste");
    assert_eq!(plan.target_node, "node-b");
}

#[test]
fn built_pod_pins_exactly_one_node() {
    let pod = pod_relocator::engine::build_pod_with_node_affinity("p", "node-b");
    assert_eq!(pod.name, "p");
    assert_eq!(pod.container_name, "generated-container");
    assert_eq!(pod.image, "bashofmann/rancher-demo:1.0.0");
    assert_eq!(pod.affinity.key, "kubernetes.io/hostname");
    assert_eq!(pod.affinity.operator, "In");
    assert_eq!(pod.affinity.values, vec!["node-b".to_string()]);
}

fn run_relocation(cluster: &mut FakeCluster, plan: RelocationPlan, fail_create: bool) {
    let mut engine = RelocationEngine::new(plan);
    loop {
        let action = engine.next_action();
        if matches!(action, RelocationAction::Finished) {
            break;
        }
        let fail = fail_create && matches!(action, RelocationAction::CreatePod { .. });
        let outcome = cluster.perform(&action, fail);
        engine.record_outcome(outcome);
    }
}

#[test]
fn successful_relocation_moves_the_pod() {
    let mut cluster = FakeCluster::new(&["nginx-1", "nginx-2"]);
    let pods = vec![PodRecord { name: "nginx-1".to_string(), id: "1".to_string() }];
    let plan = plan_relocation(&pods, "node-b");
    run_relocation(&mut cluster, plan, false);
    assert!(!cluster.has("nginx-1"));
    assert!(cluster.has("movido-node-b-nginx-1"));
    assert_eq!(
        cluster.affinity_values_of("movido-node-b-nginx-1"),
        vec!["node-b".to_string()]
    );
    assert!(cluster.has("nginx-2"));
}

#[test]
fn failed_create_leaves_neither_pod() {
    let mut cluster = FakeCluster::new(&["nginx-1"]);
    let pods = vec![PodRecord { name: "nginx-1".to_string(), id: "1".to_string() }];
    let plan = plan_relocation(&pods, "node-b");
    run_relocation(&mut cluster, plan, true);
    assert!(!cluster.has("nginx-1"));
    assert!(!cluster.has("movido-node-b-nginx-1"));
    assert!(cluster.pods.is_empty());
}

#[test]
fn failed_delete_still_reaches_create() {
    let mut cluster = FakeCluster::new(&["nginx-1"]);
    let pods = vec![PodRecord { name: "nginx-1".to_string(), id: "1".to_string() }];
    let plan = plan_relocation(&pods, "node-b");
    let mut engine = RelocationEngine::new(plan);
    let first = engine.next_action();
    assert!(matches!(&first, RelocationAction::DeletePod { name } if name == "nginx-1"));
    engine.record_outcome(ApiOutcome::Failed);
    let second = engine.next_action();
    match &second {
        RelocationAction::CreatePod { pod } => {
            assert_eq!(pod.name, "movido-node-b-nginx-1");
        }
        _ => panic!("expected a create action after a failed delete"),
    }
    cluster.perform(&second, false);
    engine.record_outcome(ApiOutcome::Succeeded);
    assert!(matches!(engine.next_action(), RelocationAction::Finished));
    assert!(cluster.has("nginx-1"));
    assert!(cluster.has("movido-node-b-nginx-1"));
}

#[test]
fn fallback_run_creates_the_synthetic_pod_only() {
    let mut cluster = FakeCluster::new(&[]);
    let pods: Vec<PodRecord> = Vec::new();
    let plan = plan_relocation(&pods, "node-b");
    let mut engine = RelocationEngine::new(plan);
    let first = engine.next_action();
    match &first {
        RelocationAction::CreatePod { pod } => {
            assert_eq!(pod.name, "pod-teste");
            assert_eq!(pod.container_name, "generated-container");
            assert_eq!(pod.image, "bashofmann/rancher-demo:1.0.0");
            assert_eq!(pod.affinity.values, vec!["node-b".to_string()]);
        }
        _ => panic!("an empty inventory must go straight to a create"),
    }
    cluster.perform(&first, false);
    engine.record_outcome(ApiOutcome::Succeeded);
    assert!(matches!(engine.next_action(), RelocationAction::Finished));
    assert_eq!(cluster.pods.len(), 1);
    assert!(cluster.has("pod-teste"));
}

#[test]
fn relocating_from_dell7580_scenario() {
    let listings = vec![listing("nginx-1", "1", "dell7580")];
    let pods = pods_on_node(&listings, "dell7580");
    let mut cluster = FakeCluster::new(&["nginx-1"]);
    let plan = plan_relocation(&pods, "node-b");
    run_relocation(&mut cluster, plan, false);
    assert!(cluster.has("movido-node-b-nginx-1"));
    assert_eq!(
        cluster.affinity_values_of("movido-node-b-nginx-1"),
        vec!["node-b".to_string()]
    );

    let listings = vec![listing("movido-node-b-nginx-1", "2", "node-b")];
    let pods = pods_on_node(&listings, "node-b");
    let plan = plan_relocation(&pods, "node-c");
    run_relocation(&mut cluster, plan, false);
    assert!(!cluster.has("movido-node-b-nginx-1"));
    let moved: Vec<&PodModel> =
        cluster.pods.iter().filter(|p| p.name.starts_with("movido-node-c-")).collect();
    assert_eq!(moved.len(), 1);
    assert_eq!(leading_marker_count(&moved[0].name), 1);
    assert_eq!(moved[0].affinity.values, vec!["node-c".to_string()]);
}
