use vstd::prelude::*;

verus! {

/// Identity of an object whose name is a fixed field of its metadata.
pub struct Metadata {
    pub name: String,
    pub namespace: Option<String>,
}

/// A pod as the selection model reads it: its metadata and the names of the
/// containers declared in its spec.
pub struct PodItem {
    pub metadata: Metadata,
    pub containers: Vec<String>,
}

/// Identity of an object read by a structured lookup, where the name may be absent.
pub struct RawItem {
    pub name: Option<String>,
    pub namespace: Option<String>,
}

/// The object that follow-up commands act on.
pub enum KObj {
    Empty,
    Pod { name: String, containers: Vec<String> },
    Node(String),
    Deployment(String),
    Service(String),
    ReplicaSet(String),
    StatefulSet(String),
    ConfigMap(String),
    Secret(String),
    Job(String),
}

/// The mathematical value of a `KObj`.
pub enum KObjView {
    Empty,
    Pod { name: Seq<char>, containers: Seq<Seq<char>> },
    Node(Seq<char>),
    Deployment(Seq<char>),
    Service(Seq<char>),
    ReplicaSet(Seq<char>),
    StatefulSet(Seq<char>),
    ConfigMap(Seq<char>),
    Secret(Seq<char>),
    Job(Seq<char>),
}

pub open spec fn strings_view(v: Seq<String>) -> Seq<Seq<char>> {
    v.map_values(|s: String| s@)
}

pub open spec fn opt_view(o: Option<String>) -> Option<Seq<char>> {
    match o {
        Some(s) => Some(s@),
        None => None,
    }
}

impl View for KObj {
    type V = KObjView;

    open spec fn view(&self) -> KObjView {
        match self {
            KObj::Empty => KObjView::Empty,
            KObj::Pod { name, containers } => KObjView::Pod {
                name: name@,
                containers: strings_view(containers@),
            },
            KObj::Node(n) => KObjView::Node(n@),
            KObj::Deployment(n) => KObjView::Deployment(n@),
            KObj::Service(n) => KObjView::Service(n@),
            KObj::ReplicaSet(n) => KObjView::ReplicaSet(n@),
            KObj::StatefulSet(n) => KObjView::StatefulSet(n@),
            KObj::ConfigMap(n) => KObjView::ConfigMap(n@),
            KObj::Secret(n) => KObjView::Secret(n@),
            KObj::Job(n) => KObjView::Job(n@),
        }
    }
}

/// The most recently fetched list of objects, of one kind.
pub enum LastList {
    Empty,
    PodList(Vec<PodItem>),
    NodeList(Vec<Metadata>),
    DeploymentList(Vec<Metadata>),
    ServiceList(Vec<Metadata>),
    ReplicaSetList(Vec<RawItem>),
    StatefulSetList(Vec<RawItem>),
    ConfigMapList(Vec<RawItem>),
    SecretList(Vec<RawItem>),
    JobList(Vec<RawItem>),
}

/// What a selection by index came to.
#[derive(Clone, Copy, Debug, PartialEq, Eq, Structural)]
pub enum SelectOutcome {
    /// No list has been recorded; the selection is unchanged.
    NoList,
    /// The object at the index is now selected.
    Selected,
    /// The index is past the end of the list; the selection is cleared.
    OutOfRange,
    /// The object at the index has no name; the selection is cleared.
    MissingName,
}

/// The selection that index `i` of a named-by-field list gives, built by `mk`.
pub open spec fn pick_meta(
    v: Seq<Metadata>,
    i: int,
    mk: spec_fn(Seq<char>) -> KObjView,
    namespaced: bool,
) -> (SelectOutcome, KObjView, Option<Seq<char>>) {
    if i < v.len() {
        (
            SelectOutcome::Selected,
            mk(v[i].name@),
            if namespaced { opt_view(v[i].namespace) } else { None },
        )
    } else {
        (SelectOutcome::OutOfRange, KObjView::Empty, None)
    }
}

/// The selection that index `i` of a list read by structured lookup gives.
pub open spec fn pick_raw(v: Seq<RawItem>, i: int, mk: spec_fn(Seq<char>) -> KObjView) -> (
    SelectOutcome,
    KObjView,
    Option<Seq<char>>,
) {
    if i < v.len() {
        match v[i].name {
            Some(n) => (SelectOutcome::Selected, mk(n@), opt_view(v[i].namespace)),
            None => (SelectOutcome::MissingName, KObjView::Empty, None),
        }
    } else {
        (SelectOutcome::OutOfRange, KObjView::Empty, None)
    }
}

/// Outcome, selected object and its namespace after selecting index `i` of
/// `l`; with no recorded list the outcome is `NoList`.
pub open spec fn select_spec(l: LastList, i: int) -> (SelectOutcome, KObjView, Option<Seq<char>>) {
    match l {
        LastList::Empty => (SelectOutcome::NoList, KObjView::Empty, None),
        LastList::PodList(v) => if i < v@.len() {
            (
                SelectOutcome::Selected,
                KObjView::Pod {
                    name: v@[i].metadata.name@,
                    containers: strings_view(v@[i].containers@),
                },
                opt_view(v@[i].metadata.namespace),
            )
        } else {
            (SelectOutcome::OutOfRange, KObjView::Empty, None)
        },
        LastList::NodeList(v) => pick_meta(v@, i, |n| KObjView::Node(n), false),
        LastList::DeploymentList(v) => pick_meta(v@, i, |n| KObjView::Deployment(n), true),
        LastList::ServiceList(v) => pick_meta(v@, i, |n| KObjView::Service(n), true),
        LastList::ReplicaSetList(v) => pick_raw(v@, i, |n| KObjView::ReplicaSet(n)),
        LastList::StatefulSetList(v) => pick_raw(v@, i, |n| KObjView::StatefulSet(n)),
        LastList::ConfigMapList(v) => pick_raw(v@, i, |n| KObjView::ConfigMap(n)),
        LastList::SecretList(v) => pick_raw(v@, i, |n| KObjView::Secret(n)),
        LastList::JobList(v) => pick_raw(v@, i, |n| KObjView::Job(n)),
    }
}

pub(crate) fn clone_opt(o: &Option<String>) -> (r: Option<String>)
    ensures
        opt_view(r) == opt_view(*o),
{
    match o {
        Some(s) => Some(s.clone()),
        None => None,
    }
}

pub(crate) fn clone_strings(v: &Vec<String>) -> (r: Vec<String>)
    ensures
        strings_view(r@) == strings_view(v@),
{
    let mut r: Vec<String> = Vec::new();
    let mut i: usize = 0;
    while i < v.len()
        invariant
            i <= v@.len(),
            r@.len() == i,
            forall|j: int| 0 <= j < i ==> #[trigger] r@[j]@ == v@[j]@,
        decreases v@.len() - i,
    {
        r.push(v[i].clone());
        i = i + 1;
    }
    assert(strings_view(r@) =~= strings_view(v@));
    r
}

/// Reads index `i` of a named-by-field list: outcome, name and namespace.
fn pick_meta_exec(v: &Vec<Metadata>, i: usize) -> (r: (SelectOutcome, String, Option<String>))
    ensures
        i < v@.len() ==> r.0 == SelectOutcome::Selected && r.1@ == v@[i as int].name@ && opt_view(
            r.2,
        ) == opt_view(v@[i as int].namespace),
        i >= v@.len() ==> r.0 == SelectOutcome::OutOfRange,
{
    if i < v.len() {
        (SelectOutcome::Selected, v[i].name.clone(), clone_opt(&v[i].namespace))
    } else {
        (SelectOutcome::OutOfRange, String::new(), None)
    }
}

/// Reads index `i` of a list read by structured lookup: outcome, name and namespace.
fn pick_raw_exec(v: &Vec<RawItem>, i: usize) -> (r: (SelectOutcome, String, Option<String>))
    ensures
        i < v@.len() && v@[i as int].name is Some ==> r.0 == SelectOutcome::Selected && r.1@
            == v@[i as int].name->0@ && opt_view(r.2) == opt_view(v@[i as int].namespace),
        i < v@.len() && v@[i as int].name is None ==> r.0 == SelectOutcome::MissingName,
        i >= v@.len() ==> r.0 == SelectOutcome::OutOfRange,
{
    if i < v.len() {
        match &v[i].name {
            Some(n) => (SelectOutcome::Selected, n.clone(), clone_opt(&v[i].namespace)),
            None => (SelectOutcome::MissingName, String::new(), None),
        }
    } else {
        (SelectOutcome::OutOfRange, String::new(), None)
    }
}

/// The selection that index `num` of a recorded list gives: outcome, object
/// and the object's namespace.
pub(crate) fn select_from(list: &LastList, num: usize) -> (r: (SelectOutcome, KObj, Option<String>))
    requires
        !(list is Empty),
    ensures
        (r.0, r.1@, opt_view(r.2)) == select_spec(*list, num as int),
{
    match list {
        LastList::Empty => (SelectOutcome::NoList, KObj::Empty, None),
        LastList::PodList(v) => {
            if num < v.len() {
                let containers = clone_strings(&v[num].containers);
                (
                    SelectOutcome::Selected,
                    KObj::Pod { name: v[num].metadata.name.clone(), containers },
                    clone_opt(&v[num].metadata.namespace),
                )
            } else {
                (SelectOutcome::OutOfRange, KObj::Empty, None)
            }
        },
        LastList::NodeList(v) => {
            let (o, n, _ns) = pick_meta_exec(v, num);
            if o == SelectOutcome::Selected {
                (o, KObj::Node(n), None)
            } else {
                (o, KObj::Empty, None)
            }
        },
        LastList::DeploymentList(v) => {
            let (o, n, ns) = pick_meta_exec(v, num);
            if o == SelectOutcome::Selected {
                (o, KObj::Deployment(n), ns)
            } else {
                (o, KObj::Empty, None)
            }
        },
        LastList::ServiceList(v) => {
            let (o, n, ns) = pick_meta_exec(v, num);
            if o == SelectOutcome::Selected {
                (o, KObj::Service(n), ns)
            } else {
                (o, KObj::Empty, None)
            }
        },
        LastList::ReplicaSetList(v) => {
            let (o, n, ns) = pick_raw_exec(v, num);
            if o == SelectOutcome::Selected {
                (o, KObj::ReplicaSet(n), ns)
            } else {
                (o, KObj::Empty, None)
            }
        },
        LastList::StatefulSetList(v) => {
            let (o, n, ns) = pick_raw_exec(v, num);
            if o == SelectOutcome::Selected {
                (o, KObj::StatefulSet(n), ns)
            } else {
                (o, KObj::Empty, None)
            }
        },
        LastList::ConfigMapList(v) => {
            let (o, n, ns) = pick_raw_exec(v, num);
            if o == SelectOutcome::Selected {
                (o, KObj::ConfigMap(n), ns)
            } else {
                (o, KObj::Empty, None)
            }
        },
        LastList::SecretList(v) => {
            let (o, n, ns) = pick_raw_exec(v, num);
            if o == SelectOutcome::Selected {
                (o, KObj::Secret(n), ns)
            } else {
                (o, KObj::Empty, None)
            }
        },
        LastList::JobList(v) => {
            let (o, n, ns) = pick_raw_exec(v, num);
            if o == SelectOutcome::Selected {
                (o, KObj::Job(n), ns)
            } else {
                (o, KObj::Empty, None)
            }
        },
    }
}

/// Number of items in a recorded list.
pub open spec fn list_len(l: LastList) -> int {
    match l {
        LastList::Empty => 0,
        LastList::PodList(v) => v@.len() as int,
        LastList::NodeList(v) => v@.len() as int,
        LastList::DeploymentList(v) => v@.len() as int,
        LastList::ServiceList(v) => v@.len() as int,
        LastList::ReplicaSetList(v) => v@.len() as int,
        LastList::StatefulSetList(v) => v@.len() as int,
        LastList::ConfigMapList(v) => v@.len() as int,
        LastList::SecretList(v) => v@.len() as int,
        LastList::JobList(v) => v@.len() as int,
    }
}

/// Name of item `i` of a recorded list, where it has one.
pub open spec fn item_name(l: LastList, i: int) -> Option<Seq<char>> {
    match l {
        LastList::Empty => None,
        LastList::PodList(v) => Some(v@[i].metadata.name@),
        LastList::NodeList(v) => Some(v@[i].name@),
        LastList::DeploymentList(v) => Some(v@[i].name@),
        LastList::ServiceList(v) => Some(v@[i].name@),
        LastList::ReplicaSetList(v) => opt_view(v@[i].name),
        LastList::StatefulSetList(v) => opt_view(v@[i].name),
        LastList::ConfigMapList(v) => opt_view(v@[i].name),
        LastList::SecretList(v) => opt_view(v@[i].name),
        LastList::JobList(v) => opt_view(v@[i].name),
    }
}

/// Namespace that selecting item `i` of a recorded list records: none for a node.
pub open spec fn item_namespace(l: LastList, i: int) -> Option<Seq<char>> {
    match l {
        LastList::Empty => None,
        LastList::PodList(v) => opt_view(v@[i].metadata.namespace),
        LastList::NodeList(v) => None,
        LastList::DeploymentList(v) => opt_view(v@[i].namespace),
        LastList::ServiceList(v) => opt_view(v@[i].namespace),
        LastList::ReplicaSetList(v) => opt_view(v@[i].namespace),
        LastList::StatefulSetList(v) => opt_view(v@[i].namespace),
        LastList::ConfigMapList(v) => opt_view(v@[i].namespace),
        LastList::SecretList(v) => opt_view(v@[i].namespace),
        LastList::JobList(v) => opt_view(v@[i].namespace),
    }
}

/// Name of a selected object.
pub open spec fn object_name(o: KObjView) -> Option<Seq<char>> {
    match o {
        KObjView::Empty => None,
        KObjView::Pod { name, .. } => Some(name),
        KObjView::Node(n) => Some(n),
        KObjView::Deployment(n) => Some(n),
        KObjView::Service(n) => Some(n),
        KObjView::ReplicaSet(n) => Some(n),
        KObjView::StatefulSet(n) => Some(n),
        KObjView::ConfigMap(n) => Some(n),
        KObjView::Secret(n) => Some(n),
        KObjView::Job(n) => Some(n),
    }
}

/// Whether a selected object is of the kind that list `l` holds.
pub open spec fn same_kind(l: LastList, o: KObjView) -> bool {
    match l {
        LastList::Empty => false,
        LastList::PodList(_) => o is Pod,
        LastList::NodeList(_) => o is Node,
        LastList::DeploymentList(_) => o is Deployment,
        LastList::ServiceList(_) => o is Service,
        LastList::ReplicaSetList(_) => o is ReplicaSet,
        LastList::StatefulSetList(_) => o is StatefulSet,
        LastList::ConfigMapList(_) => o is ConfigMap,
        LastList::SecretList(_) => o is Secret,
        LastList::JobList(_) => o is Job,
    }
}

/// Selecting index `i` of a recorded list `l` gives, for an index in range
/// and an item with a name, an object of the list's kind whose name and
/// namespace are the item's (a pod also keeps its container names); for an
/// index past the end, the empty selection, as an outcome and not a failure.
pub proof fn lemma_select_after_record(l: LastList, i: int)
    requires
        !(l is Empty),
        0 <= i,
    ensures
        ({
            let (outcome, obj, ns) = select_spec(l, i);
            &&& i < list_len(l) && item_name(l, i) is Some ==> {
                &&& outcome == SelectOutcome::Selected
                &&& same_kind(l, obj)
                &&& object_name(obj) == item_name(l, i)
                &&& ns == item_namespace(l, i)
            }
            &&& i < list_len(l) && item_name(l, i) is None ==> outcome == SelectOutcome::MissingName
                && obj == KObjView::Empty && ns is None
            &&& i >= list_len(l) ==> outcome == SelectOutcome::OutOfRange && obj == KObjView::Empty
                && ns is None
            &&& l is PodList && i < list_len(l) ==> obj == (KObjView::Pod {
                name: l->PodList_0@[i].metadata.name@,
                containers: strings_view(l->PodList_0@[i].containers@),
            })
        }),
{
}

} // verus!
