//! The two-phase relocation protocol: delete the old pod, then create its
//! replacement pinned to the target node. The engine decides which cluster
//! action comes next; the surrounding program performs the action and hands
//! back its outcome. Failures are masked: whatever an action's outcome, the
//! run advances, so a successful delete followed by a failed create leaves
//! the cluster with neither pod — the failure window this protocol accepts.

use vstd::prelude::*;
use vstd::string::StringExecFns;
use crate::names::derive_name;
use crate::names::lemma_derive_name_longer;
use crate::names::marker;
use crate::planner::RelocationPlan;
use crate::planner::RelocationPlanView;
use crate::planner::fallback_name;
use crate::planner::plan_for;
use crate::records::PodRecordView;

verus! {

/// The required node-affinity term a replacement pod carries: label `key`
/// compared by `operator` against `values`.
pub struct AffinityTerm {
    pub key: String,
    pub operator: String,
    pub values: Vec<String>,
}

/// The desired state of a replacement pod: its name, one container with a
/// fixed name and version-pinned image, and a required node-affinity term.
pub struct PodModel {
    pub name: String,
    pub container_name: String,
    pub image: String,
    pub affinity: AffinityTerm,
}

/// Mathematical image of an [`AffinityTerm`].
#[verifier::ext_equal]
pub struct AffinityTermView {
    pub key: Seq<char>,
    pub operator: Seq<char>,
    pub values: Seq<Seq<char>>,
}

/// Mathematical image of a [`PodModel`].
#[verifier::ext_equal]
pub struct PodModelView {
    pub name: Seq<char>,
    pub container_name: Seq<char>,
    pub image: Seq<char>,
    pub affinity: AffinityTermView,
}

impl View for AffinityTerm {
    type V = AffinityTermView;

    open spec fn view(&self) -> AffinityTermView {
        AffinityTermView {
            key: self.key@,
            operator: self.operator@,
            values: self.values.deep_view(),
        }
    }
}

impl View for PodModel {
    type V = PodModelView;

    open spec fn view(&self) -> PodModelView {
        PodModelView {
            name: self.name@,
            container_name: self.container_name@,
            image: self.image@,
            affinity: self.affinity@,
        }
    }
}

/// The hostname label every affinity term selects on.
pub open spec fn hostname_key() -> Seq<char> {
    "kubernetes.io/hostname"@
}

/// The set-membership operator of the affinity term.
pub open spec fn in_operator() -> Seq<char> {
    "In"@
}

/// The fixed name of the replacement pod's single container.
pub open spec fn container_name() -> Seq<char> {
    "generated-container"@
}

/// The fixed, version-pinned image the replacement pod runs.
pub open spec fn container_image() -> Seq<char> {
    "bashofmann/rancher-demo:1.0.0"@
}

/// The required affinity term that pins a pod to `node`: the hostname label
/// must be in the one-element list holding `node`.
pub open spec fn required_affinity(node: Seq<char>) -> AffinityTermView {
    AffinityTermView { key: hostname_key(), operator: in_operator(), values: seq![node] }
}

/// A replacement pod named `name`, with the default template and a required
/// affinity term pinning it to `node`.
pub open spec fn pod_pinned_to(name: Seq<char>, node: Seq<char>) -> PodModelView {
    PodModelView {
        name,
        container_name: container_name(),
        image: container_image(),
        affinity: required_affinity(node),
    }
}

/// An affinity term is well formed when it references exactly one node name.
pub open spec fn affinity_wf(a: AffinityTermView) -> bool {
    a.values.len() == 1
}

/// Builds the replacement pod: the default template under `pod_name`, pinned
/// to `node_name` by a required node-affinity term naming exactly that node.
pub fn build_pod_with_node_affinity(pod_name: &str, node_name: &str) -> (p: PodModel)
    ensures
        p@ == pod_pinned_to(pod_name@, node_name@),
        affinity_wf(p@.affinity),
{
    let mut values: Vec<String> = Vec::new();
    values.push(String::from_str(node_name));
    let affinity = AffinityTerm {
        key: String::from_str("kubernetes.io/hostname"),
        operator: String::from_str("In"),
        values,
    };
    let p = PodModel {
        name: String::from_str(pod_name),
        container_name: String::from_str("generated-container"),
        image: String::from_str("bashofmann/rancher-demo:1.0.0"),
        affinity,
    };
    proof {
        assert(p.affinity.values.deep_view() =~= seq![node_name@]);
        assert(p@ =~= pod_pinned_to(pod_name@, node_name@));
    }
    p
}

/// The three states of a relocation run. `Deleted` is internal: reaching
/// `Created` is not blocked by a failed delete.
pub enum Phase {
    Planned,
    Deleted,
    Created,
}

/// What the engine asks the cluster to do next.
pub enum RelocationAction {
    DeletePod { name: String },
    CreatePod { pod: PodModel },
    Finished,
}

/// Mathematical image of a [`RelocationAction`].
pub enum ActionView {
    DeletePod { name: Seq<char> },
    CreatePod { pod: PodModelView },
    Finished,
}

impl View for RelocationAction {
    type V = ActionView;

    open spec fn view(&self) -> ActionView {
        match self {
            RelocationAction::DeletePod { name } => ActionView::DeletePod { name: name@ },
            RelocationAction::CreatePod { pod } => ActionView::CreatePod { pod: pod@ },
            RelocationAction::Finished => ActionView::Finished,
        }
    }
}

/// How a cluster call ended. A failed call is logged by the caller and does
/// not stop the run.
pub enum ApiOutcome {
    Succeeded,
    Failed,
}

/// The action a plan asks for in each phase: delete first when there is a
/// pod to delete, then create the replacement; a plan with nothing to delete
/// creates at once.
pub open spec fn action_for(plan: RelocationPlanView, phase: Phase) -> ActionView {
    match phase {
        Phase::Planned => match plan.pod_to_delete {
            Some(name) => ActionView::DeletePod { name },
            None => ActionView::CreatePod {
                pod: pod_pinned_to(plan.new_pod_name, plan.target_node),
            },
        },
        Phase::Deleted => ActionView::CreatePod {
            pod: pod_pinned_to(plan.new_pod_name, plan.target_node),
        },
        Phase::Created => ActionView::Finished,
    }
}

/// The phase that follows a phase, whatever the outcome of its action: the
/// run never rolls back and never retries.
pub open spec fn phase_after(plan: RelocationPlanView, phase: Phase) -> Phase {
    match phase {
        Phase::Planned => match plan.pod_to_delete {
            Some(_) => Phase::Deleted,
            None => Phase::Created,
        },
        Phase::Deleted => Phase::Created,
        Phase::Created => Phase::Created,
    }
}

/// Walks one relocation plan through its phases, handing out the next
/// cluster action and advancing on every reported outcome.
pub struct RelocationEngine {
    pub plan: RelocationPlan,
    pub phase: Phase,
}

impl RelocationEngine {
    /// A fresh run of `plan`, still in its first phase.
    pub fn new(plan: RelocationPlan) -> (e: Self)
        ensures
            e.plan == plan,
            e.phase == Phase::Planned,
    {
        RelocationEngine { plan, phase: Phase::Planned }
    }

    /// The action the run asks for next.
    pub fn next_action(&self) -> (a: RelocationAction)
        ensures
            a@ == action_for(self.plan@, self.phase),
    {
        match self.phase {
            Phase::Planned => match &self.plan.pod_to_delete {
                Some(name) => RelocationAction::DeletePod { name: name.clone() },
                None => RelocationAction::CreatePod {
                    pod: build_pod_with_node_affinity(
                        self.plan.new_pod_name.as_str(),
                        self.plan.target_node.as_str(),
                    ),
                },
            },
            Phase::Deleted => RelocationAction::CreatePod {
                pod: build_pod_with_node_affinity(
                    self.plan.new_pod_name.as_str(),
                    self.plan.target_node.as_str(),
                ),
            },
            Phase::Created => RelocationAction::Finished,
        }
    }

    /// Advances the run past its current action. The outcome is recorded by
    /// the caller's logs alone: success and failure advance alike.
    pub fn record_outcome(&mut self, outcome: ApiOutcome)
        ensures
            final (self).plan == old(self).plan,
            final (self).phase == phase_after(old(self).plan@, old(self).phase),
    {
        let next = match self.phase {
            Phase::Planned => match &self.plan.pod_to_delete {
                Some(_) => Phase::Deleted,
                None => Phase::Created,
            },
            Phase::Deleted => Phase::Created,
            Phase::Created => Phase::Created,
        };
        self.phase = next;
    }
}

/// A cluster namespace as the protocol sees it: the pods that exist, by
/// name. Names are unique in a namespace, so a map.
pub open spec fn apply_action(
    cluster: Map<Seq<char>, PodModelView>,
    action: ActionView,
    outcome: ApiOutcome,
) -> Map<Seq<char>, PodModelView> {
    match action {
        ActionView::DeletePod { name } => match outcome {
            ApiOutcome::Succeeded => cluster.remove(name),
            ApiOutcome::Failed => cluster,
        },
        ActionView::CreatePod { pod } => match outcome {
            ApiOutcome::Succeeded => cluster.insert(pod.name, pod),
            ApiOutcome::Failed => cluster,
        },
        ActionView::Finished => cluster,
    }
}

/// After a relocation of pod `pod` to node `target` in which both phases
/// succeed, no pod under the old name remains, and a pod under the derived
/// name exists whose required affinity term pins it to exactly `target`.
pub proof fn lemma_relocation_success(
    cluster: Map<Seq<char>, PodModelView>,
    pod: Seq<char>,
    target: Seq<char>,
)
    ensures
        ({
            let new_name = derive_name(pod, target);
            let after_delete = apply_action(
                cluster,
                ActionView::DeletePod { name: pod },
                ApiOutcome::Succeeded,
            );
            let after_create = apply_action(
                after_delete,
                ActionView::CreatePod { pod: pod_pinned_to(new_name, target) },
                ApiOutcome::Succeeded,
            );
            &&& !after_create.contains_key(pod)
            &&& after_create.contains_key(new_name)
            &&& after_create[new_name] == pod_pinned_to(new_name, target)
            &&& after_create[new_name].affinity == required_affinity(target)
            &&& affinity_wf(after_create[new_name].affinity)
        }),
{
    lemma_derive_name_longer(pod, target);
}

/// A whole run with no API errors, from the plan for a non-empty inventory:
/// the engine asks for the delete of the first listed pod, then for the
/// create of its replacement, then is finished; and the cluster afterwards
/// holds no pod under the old name but one under the derived name, pinned to
/// the target by its required affinity term.
pub proof fn lemma_run_with_no_errors(
    cluster: Map<Seq<char>, PodModelView>,
    pods: Seq<PodRecordView>,
    target: Seq<char>,
)
    requires
        pods.len() > 0,
    ensures
        ({
            let plan = plan_for(pods, target);
            let old_name = pods[0].name;
            let new_name = derive_name(old_name, target);
            let first = action_for(plan, Phase::Planned);
            let second = action_for(plan, phase_after(plan, Phase::Planned));
            let after_delete = apply_action(cluster, first, ApiOutcome::Succeeded);
            let after_create = apply_action(after_delete, second, ApiOutcome::Succeeded);
            let done = phase_after(plan, phase_after(plan, Phase::Planned));
            &&& first == ActionView::DeletePod { name: old_name }
            &&& second == ActionView::CreatePod { pod: pod_pinned_to(new_name, target) }
            &&& done == Phase::Created
            &&& action_for(plan, done) == ActionView::Finished
            &&& !after_create.contains_key(old_name)
            &&& after_create.contains_key(new_name)
            &&& after_create[new_name].affinity == required_affinity(target)
            &&& affinity_wf(after_create[new_name].affinity)
        }),
{
    lemma_relocation_success(cluster, pods[0].name, target);
}

/// The failure window of the non-atomic protocol: when the delete succeeds
/// and the create fails, the run ends with neither the old pod nor the new
/// one present, and nothing rolls back.
pub proof fn lemma_failure_window(
    cluster: Map<Seq<char>, PodModelView>,
    pod: Seq<char>,
    target: Seq<char>,
)
    requires
        !cluster.contains_key(derive_name(pod, target)),
    ensures
        ({
            let new_name = derive_name(pod, target);
            let after_delete = apply_action(
                cluster,
                ActionView::DeletePod { name: pod },
                ApiOutcome::Succeeded,
            );
            let after_create = apply_action(
                after_delete,
                ActionView::CreatePod { pod: pod_pinned_to(new_name, target) },
                ApiOutcome::Failed,
            );
            &&& !after_create.contains_key(pod)
            &&& !after_create.contains_key(new_name)
        }),
{
}

/// The fallback invariant: when the inventory of the source node is empty,
/// the run's one action creates the pod under the fixed fallback name with
/// the default template — a name no derivation can produce.
pub proof fn lemma_empty_inventory_fallback(pods: Seq<PodRecordView>, target: Seq<char>)
    requires
        pods.len() == 0,
    ensures
        plan_for(pods, target).pod_to_delete is None,
        action_for(plan_for(pods, target), Phase::Planned) == (ActionView::CreatePod {
            pod: pod_pinned_to(fallback_name(), target),
        }),
        forall|name: Seq<char>, node: Seq<char>|
            plan_for(pods, target).new_pod_name != #[trigger] derive_name(name, node),
{
    reveal_strlit("pod-teste");
    assert forall|name: Seq<char>, node: Seq<char>|
        plan_for(pods, target).new_pod_name != #[trigger] derive_name(name, node) by {
        assert(derive_name(name, node)[0] == marker()[0]);
        assert(fallback_name()[0] == 'p');
    }
}

} // verus!
