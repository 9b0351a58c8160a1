//! Snapshots that the cluster inventory hands to the planner: nodes, pods,
//! and the containers reported for a pod, together with the node filter that
//! keeps only the pods scheduled on one node.

use vstd::prelude::*;
use vstd::string::StringExecFns;

verus! {

/// Read-only snapshot of a cluster node at inventory time.
pub struct NodeRecord {
    pub name: String,
    pub id: String,
}

/// Snapshot of a pod scheduled on some node.
pub struct PodRecord {
    pub name: String,
    pub id: String,
}

/// One pod as a cluster listing reports it: its identifiers and the node it
/// is scheduled on.
pub struct PodListing {
    pub name: String,
    pub id: String,
    pub node: String,
}

/// A container of a pod, as introspection reports it.
pub struct ContainerInfo {
    pub name: String,
    pub image: Option<String>,
    pub command: Option<Vec<String>>,
    pub args: Option<Vec<String>>,
}

/// Mathematical image of a [`PodRecord`].
#[verifier::ext_equal]
pub struct PodRecordView {
    pub name: Seq<char>,
    pub id: Seq<char>,
}

/// Mathematical image of a [`PodListing`].
#[verifier::ext_equal]
pub struct PodListingView {
    pub name: Seq<char>,
    pub id: Seq<char>,
    pub node: Seq<char>,
}

impl View for PodRecord {
    type V = PodRecordView;

    open spec fn view(&self) -> PodRecordView {
        PodRecordView { name: self.name@, id: self.id@ }
    }
}

impl View for PodListing {
    type V = PodListingView;

    open spec fn view(&self) -> PodListingView {
        PodListingView { name: self.name@, id: self.id@, node: self.node@ }
    }
}

/// The record that a listing collapses to once its node is known.
pub open spec fn record_of(l: PodListingView) -> PodRecordView {
    PodRecordView { name: l.name, id: l.id }
}

/// The pods among `listings` that are scheduled on `node`, in listing order.
pub open spec fn pods_on_node_spec(listings: Seq<PodListingView>, node: Seq<char>) -> Seq<
    PodRecordView,
>
    decreases listings.len(),
{
    if listings.len() == 0 {
        Seq::empty()
    } else {
        let rest = pods_on_node_spec(listings.drop_last(), node);
        if listings.last().node == node {
            rest.push(record_of(listings.last()))
        } else {
            rest
        }
    }
}

/// The views of a vector of listings, element by element.
pub open spec fn listing_views(listings: Seq<PodListing>) -> Seq<PodListingView> {
    listings.map_values(|l: PodListing| l@)
}

/// The views of a vector of records, element by element.
pub open spec fn record_views(records: Seq<PodRecord>) -> Seq<PodRecordView> {
    records.map_values(|r: PodRecord| r@)
}

/// Keeps the pods scheduled on `node` and forgets the node column: the
/// client-side half of the inventory's node filter.
pub fn pods_on_node(listings: &Vec<PodListing>, node: &str) -> (r: Vec<PodRecord>)
    ensures
        record_views(r@) == pods_on_node_spec(listing_views(listings@), node@),
{
    let ghost all = listing_views(listings@);
    let mut r: Vec<PodRecord> = Vec::new();
    let mut i: usize = 0;
    while i < listings.len()
        invariant
            i <= listings.len(),
            all == listing_views(listings@),
            record_views(r@) == pods_on_node_spec(all.take(i as int), node@),
        decreases listings.len() - i,
    {
        proof {
            assert(all.take(i + 1).drop_last() =~= all.take(i as int));
            assert(all.take(i + 1).last() == listings@[i as int]@);
        }
        let l = &listings[i];
        if string_equals(&l.node, node) {
            let rec = PodRecord { name: l.name.clone(), id: l.id.clone() };
            r.push(rec);
            proof {
                assert(record_views(r@) =~= pods_on_node_spec(all.take(i + 1), node@));
            }
        } else {
            proof {
                assert(record_views(r@) =~= pods_on_node_spec(all.take(i + 1), node@));
            }
        }
        i += 1;
    }
    proof {
        assert(all.take(listings@.len() as int) =~= all);
    }
    r
}

/// Whether a string equals a string slice, character for character.
fn string_equals(s: &String, t: &str) -> (r: bool)
    ensures
        r == (s@ == t@),
{
    let u: String = String::from_str(t);
    s.eq(&u)
}

/// Whether entry `i` of the node filter's result for (`listings`, `node`)
/// is the record of some listing that is scheduled on `node`.
pub open spec fn comes_from_listing(
    listings: Seq<PodListingView>,
    node: Seq<char>,
    i: int,
) -> bool {
    exists|j: int|
        #![trigger listings[j]]
        0 <= j < listings.len() && listings[j].node == node && pods_on_node_spec(listings, node)[i]
            == record_of(listings[j])
}

/// Soundness and completeness of the node filter: every record it keeps
/// comes from a listing scheduled on `node`, and every listing scheduled on
/// `node` is kept. No pod scheduled elsewhere appears.
pub proof fn lemma_pods_on_node_correct(listings: Seq<PodListingView>, node: Seq<char>)
    ensures
        forall|i: int|
            0 <= i < pods_on_node_spec(listings, node).len() ==> #[trigger] comes_from_listing(
                listings,
                node,
                i,
            ),
        forall|j: int|
            #![trigger listings[j]]
            0 <= j < listings.len() && listings[j].node == node ==> pods_on_node_spec(
                listings,
                node,
            ).contains(record_of(listings[j])),
    decreases listings.len(),
{
    if listings.len() > 0 {
        let front = listings.drop_last();
        lemma_pods_on_node_correct(front, node);
        let whole = pods_on_node_spec(listings, node);
        let rest = pods_on_node_spec(front, node);
        assert forall|i: int| 0 <= i < pods_on_node_spec(listings, node).len() implies
            #[trigger] comes_from_listing(listings, node, i) by {
            assert(whole[i] == pods_on_node_spec(listings, node)[i]);
            if i < rest.len() {
                assert(0 <= i < pods_on_node_spec(front, node).len());
                assert(comes_from_listing(front, node, i));
                let j = choose|j: int|
                    #![trigger front[j]]
                    0 <= j < front.len() && front[j].node == node && pods_on_node_spec(
                        front,
                        node,
                    )[i] == record_of(front[j]);
                assert(listings[j] == front[j]);
                assert(whole[i] == record_of(listings[j]));
            } else {
                let j = listings.len() - 1;
                assert(listings[j].node == node && whole[i] == record_of(listings[j]));
            }
        }
        assert forall|j: int|
            0 <= j < listings.len() && listings[j].node == node implies pods_on_node_spec(
            listings,
            node,
        ).contains(record_of(listings[j])) by {
            if j < listings.len() - 1 {
                assert(front[j] == listings[j]);
                assert(rest.contains(record_of(listings[j])));
                let i = choose|i: int| 0 <= i < rest.len() && rest[i] == record_of(listings[j]);
                assert(pods_on_node_spec(listings, node)[i] == record_of(listings[j]));
            } else {
                let i = pods_on_node_spec(listings, node).len() - 1;
                assert(pods_on_node_spec(listings, node)[i] == record_of(listings[j]));
            }
        }
    }
}

/// The containers of a pod whose specification may be missing: a missing
/// specification reads as no containers at all, never as an error.
pub fn describe_containers(containers: Option<Vec<ContainerInfo>>) -> (r: Vec<ContainerInfo>)
    ensures
        match containers {
            Some(cs) => r == cs,
            None => r@.len() == 0,
        },
{
    match containers {
        Some(cs) => cs,
        None => Vec::new(),
    }
}

/// The field selector that asks the cluster for the pods scheduled on
/// `node_name`.
pub fn node_field_selector(node_name: &str) -> (r: String)
    ensures
        r@ == "spec.nodeName="@ + node_name@,
{
    let mut r = String::from_str("spec.nodeName=");
    r.append(node_name);
    r
}

} // verus!
