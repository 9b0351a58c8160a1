//! Selection of the relocation candidate and computation of the plan: which
//! pod to delete, what to call its replacement, and where to pin it.

use vstd::prelude::*;
use vstd::string::StringExecFns;
use crate::names::derive_name;
use crate::names::new_pod_name;
use crate::records::PodRecord;
use crate::records::PodRecordView;
use crate::records::record_views;

verus! {

/// A caller-supplied relocation request: move a pod found on `source_node`
/// to `target_node`. Nothing requires the two to differ.
pub struct RelocationRequest {
    pub source_node: String,
    pub target_node: String,
}

/// The plan a run executes: the pod to delete (none when the inventory was
/// empty), the name of the pod to create, and the node to pin it to.
pub struct RelocationPlan {
    pub pod_to_delete: Option<String>,
    pub new_pod_name: String,
    pub target_node: String,
}

/// Mathematical image of a [`RelocationPlan`].
#[verifier::ext_equal]
pub struct RelocationPlanView {
    pub pod_to_delete: Option<Seq<char>>,
    pub new_pod_name: Seq<char>,
    pub target_node: Seq<char>,
}

impl View for RelocationPlan {
    type V = RelocationPlanView;

    open spec fn view(&self) -> RelocationPlanView {
        RelocationPlanView {
            pod_to_delete: match self.pod_to_delete {
                Some(n) => Some(n@),
                None => None,
            },
            new_pod_name: self.new_pod_name@,
            target_node: self.target_node@,
        }
    }
}

/// The synthetic pod name used when no pod was found on the source node.
pub open spec fn fallback_name() -> Seq<char> {
    "pod-teste"@
}

/// The plan for a given inventory: the first listed pod is the candidate and
/// its replacement's name is derived; an empty inventory falls back to the
/// fixed synthetic name, with nothing to delete and no derivation.
pub open spec fn plan_for(pods: Seq<PodRecordView>, target: Seq<char>) -> RelocationPlanView {
    if pods.len() > 0 {
        RelocationPlanView {
            pod_to_delete: Some(pods[0].name),
            new_pod_name: derive_name(pods[0].name, target),
            target_node: target,
        }
    } else {
        RelocationPlanView {
            pod_to_delete: None,
            new_pod_name: fallback_name(),
            target_node: target,
        }
    }
}

/// Plans the relocation of the first pod in `pods` to `target_node`, or the
/// creation of the fallback pod when `pods` is empty.
pub fn plan_relocation(pods: &Vec<PodRecord>, target_node: &str) -> (plan: RelocationPlan)
    ensures
        plan@ == plan_for(record_views(pods@), target_node@),
{
    if pods.len() > 0 {
        let candidate = &pods[0];
        let plan = RelocationPlan {
            pod_to_delete: Some(candidate.name.clone()),
            new_pod_name: new_pod_name(candidate.name.as_str(), target_node),
            target_node: String::from_str(target_node),
        };
        proof {
            assert(record_views(pods@)[0] == pods@[0]@);
            assert(plan@ =~= plan_for(record_views(pods@), target_node@));
        }
        plan
    } else {
        let plan = RelocationPlan {
            pod_to_delete: None,
            new_pod_name: String::from_str("pod-teste"),
            target_node: String::from_str(target_node),
        };
        proof {
            assert(plan@ =~= plan_for(record_views(pods@), target_node@));
        }
        plan
    }
}

} // verus!
