use vstd::prelude::*;

verus! {

/// The label query `key=value` that lists the pods carrying one label.
pub open spec fn label_query_spec(key: Seq<char>, value: Seq<char>) -> Seq<char> {
    key + "="@ + value
}

/// The label query for one selector entry.
pub fn label_query(key: &str, value: &str) -> (r: String)
    ensures
        r@ == label_query_spec(key@, value@),
{
    let mut r = String::from_str(key);
    r.append("=");
    r.append(value);
    r
}

/// The list calls that resolve a deployment's pods: one label query per
/// entry of its selector, issued independently.
pub fn selector_queries(match_labels: &Vec<(String, String)>) -> (r: Vec<String>)
    ensures
        r@.len() == match_labels@.len(),
        forall|i: int|
            0 <= i < r@.len() ==> (#[trigger] r@[i])@ == label_query_spec(match_labels@[i].0@, match_labels@[i].1@),
{
    let mut r: Vec<String> = Vec::new();
    let mut i: usize = 0;
    while i < match_labels.len()
        invariant
            i <= match_labels@.len(),
            r@.len() == i,
            forall|j: int|
                0 <= j < i ==> (#[trigger] r@[j])@ == label_query_spec(match_labels@[j].0@, match_labels@[j].1@),
        decreases match_labels@.len() - i,
    {
        let q = label_query(match_labels[i].0.as_str(), match_labels[i].1.as_str());
        r.push(q);
        i = i + 1;
    }
    r
}

/// The lists joined in order.
pub open spec fn concat_all<T>(s: Seq<Seq<T>>) -> Seq<T>
    decreases s.len(),
{
    if s.len() == 0 {
        seq![]
    } else {
        concat_all(s.drop_last()) + s.last()
    }
}

/// The views of a list of lists.
pub open spec fn lists_view<T>(s: Seq<Vec<T>>) -> Seq<Seq<T>> {
    s.map_values(|v: Vec<T>| v@)
}

/// The first label query that failed, if any.
pub open spec fn first_label_error<T>(outcomes: Seq<Result<Vec<T>, String>>) -> Option<int> {
    if exists|i: int| 0 <= i < outcomes.len() && outcomes[i] is Err {
        Some(choose|i: int| 0 <= i < outcomes.len() && outcomes[i] is Err && forall|j: int| 0 <= j < i ==> outcomes[j] is Ok)
    } else {
        None
    }
}

/// The pod lists that the label queries returned.
pub open spec fn ok_lists<T>(outcomes: Seq<Result<Vec<T>, String>>) -> Seq<Seq<T>> {
    outcomes.map_values(|o: Result<Vec<T>, String>| o->Ok_0@)
}

/// The pods of a deployment from the outcomes of its label queries: the
/// first failure, or every list joined in query order.
pub open spec fn pods_post<T>(outcomes: Seq<Result<Vec<T>, String>>, r: Result<Vec<T>, String>) -> bool {
    match first_label_error(outcomes) {
        Some(k) => r matches Err(m) && m@ == outcomes[k]->Err_0@,
        None => r matches Ok(v) && v@ == concat_all(ok_lists(outcomes)),
    }
}

/// Joins the pods that each label query returned, in query order, or
/// reports the first query that failed. A pod that carries several of the
/// labels appears once per matching query: the result is the union of the
/// label matches, not their intersection.
pub fn get_pods_for_deployment<T>(per_label: Vec<Result<Vec<T>, String>>) -> (r: Result<Vec<T>, String>)
    ensures
        pods_post(per_label@, r),
{
    let mut i: usize = 0;
    while i < per_label.len()
        invariant
            i <= per_label@.len(),
            forall|j: int| 0 <= j < i ==> per_label@[j] is Ok,
        decreases per_label@.len() - i,
    {
        match &per_label[i] {
            Err(m) => {
                proof {
                    let w = choose|w: int|
                        0 <= w < per_label@.len() && per_label@[w] is Err && forall|j: int| 0 <= j < w ==> per_label@[j] is Ok;
                    assert(w == i as int) by {
                        if w < i { assert(per_label@[w] is Ok); }
                        if w > i { assert(per_label@[i as int] is Ok); }
                    }
                }
                return Err(m.clone());
            },
            Ok(_) => {},
        }
        i = i + 1;
    }
    let ghost all = ok_lists(per_label@);
    let mut rest = per_label;
    let mut parts: Vec<Vec<T>> = Vec::new();
    // take the lists off the end, then join them from the front
    while rest.len() > 0
        invariant
            forall|j: int| 0 <= j < rest@.len() ==> rest@[j] is Ok,
            ok_lists(rest@) + lists_view(parts@).reverse() == all,
        decreases rest@.len(),
    {
        let ghost before_rest = rest@;
        let ghost before_parts = parts@;
        let last = rest.pop().unwrap();
        proof {
            assert(before_rest[before_rest.len() - 1] is Ok);
        }
        if let Ok(v) = last {
            parts.push(v);
            proof {
                assert(ok_lists(rest@) =~= ok_lists(before_rest).drop_last());
                assert(lists_view(parts@).reverse() =~= seq![v@] + lists_view(before_parts).reverse());
                assert(ok_lists(rest@) + lists_view(parts@).reverse() =~= ok_lists(before_rest)
                    + lists_view(before_parts).reverse());
            }
        }
    }
    assert(ok_lists(rest@) =~= Seq::<Seq<T>>::empty());
    assert(lists_view(parts@).reverse() =~= all);
    let mut r: Vec<T> = Vec::new();
    let ghost n = parts@.len();
    assert(all.subrange(n - parts@.len(), n as int) =~= all);
    while parts.len() > 0
        invariant
            n == all.len(),
            parts@.len() <= n,
            lists_view(parts@).reverse() == all.subrange(n - parts@.len(), n as int),
            r@ == concat_all(all.subrange(0, n - parts@.len())),
        decreases parts@.len(),
    {
        let ghost before = parts@;
        let mut v = parts.pop().unwrap();
        let ghost k = n - before.len();
        proof {
            assert(lists_view(before).reverse()[0] == v@);
            assert(all[k] == v@);
            assert(lists_view(parts@).reverse() =~= lists_view(before).reverse().skip(1));
            assert(all.subrange(0, k + 1).drop_last() =~= all.subrange(0, k));
        }
        r.append(&mut v);
    }
    assert(all.subrange(0, n as int) =~= all);
    Ok(r)
}

/// An item is in the joined lists exactly when it is in one of them.
pub proof fn lemma_concat_all_contains<T>(s: Seq<Seq<T>>, x: T)
    ensures
        concat_all(s).contains(x) <==> exists|i: int| 0 <= i < s.len() && #[trigger] s[i].contains(x),
    decreases s.len(),
{
    if s.len() > 0 {
        lemma_concat_all_contains(s.drop_last(), x);
        let a = concat_all(s.drop_last());
        let b = s.last();
        if (a + b).contains(x) {
            let k = choose|k: int| 0 <= k < (a + b).len() && (a + b)[k] == x;
            if k < a.len() {
                assert(a[k] == x);
                let i = choose|i: int| 0 <= i < s.drop_last().len() && #[trigger] s.drop_last()[i].contains(x);
                assert(s[i] == s.drop_last()[i]);
            } else {
                assert(b[k - a.len()] == x);
                assert(s[s.len() - 1].contains(x));
            }
        }
        if exists|i: int| 0 <= i < s.len() && #[trigger] s[i].contains(x) {
            let i = choose|i: int| 0 <= i < s.len() && #[trigger] s[i].contains(x);
            let k = choose|k: int| 0 <= k < s[i].len() && s[i][k] == x;
            if i < s.len() - 1 {
                assert(s.drop_last()[i] == s[i]);
                assert(a.contains(x));
                let m = choose|m: int| 0 <= m < a.len() && a[m] == x;
                assert((a + b)[m] == x);
            } else {
                assert((a + b)[a.len() + k] == x);
            }
        }
    }
}

/// Resolving a deployment's pods gives the union of its label matches: when
/// every label query succeeds and returns exactly the pods of the cluster
/// that carry its label, the result is `Ok`, and a pod is in it exactly when
/// it carries at least one of the selector's labels (for `{app: foo, tier:
/// web}`: `app=foo` OR `tier=web`).
pub proof fn law_selector_matches_any_label<P>(
    cluster: Seq<P>,
    selector: Seq<(Seq<char>, Seq<char>)>,
    carries: spec_fn(P, Seq<char>, Seq<char>) -> bool,
    per_label: Seq<Result<Vec<P>, String>>,
    r: Result<Vec<P>, String>,
    p: P,
)
    requires
        per_label.len() == selector.len(),
        forall|i: int| 0 <= i < selector.len() ==> (#[trigger] per_label[i]) is Ok,
        forall|i: int|
            0 <= i < selector.len() ==> (#[trigger] per_label[i]->Ok_0@.contains(p) <==> cluster.contains(p)
                && carries(p, selector[i].0, selector[i].1)),
        pods_post(per_label, r),
    ensures
        r is Ok,
        r->Ok_0@.contains(p) <==> cluster.contains(p) && exists|i: int|
            0 <= i < selector.len() && #[trigger] carries(p, selector[i].0, selector[i].1),
{
    let lists = ok_lists(per_label);
    if exists|i: int| 0 <= i < per_label.len() && per_label[i] is Err {
        let i = choose|i: int| 0 <= i < per_label.len() && per_label[i] is Err;
        assert(per_label[i] is Ok);
    }
    lemma_concat_all_contains(lists, p);
    if concat_all(lists).contains(p) {
        let i = choose|i: int| 0 <= i < lists.len() && #[trigger] lists[i].contains(p);
        assert(lists[i] == per_label[i]->Ok_0@);
        assert(carries(p, selector[i].0, selector[i].1));
    }
    if cluster.contains(p) && exists|i: int|
        0 <= i < selector.len() && #[trigger] carries(p, selector[i].0, selector[i].1) {
        let i = choose|i: int| 0 <= i < selector.len() && #[trigger] carries(p, selector[i].0, selector[i].1);
        assert(per_label[i]->Ok_0@.contains(p));
        assert(lists[i] == per_label[i]->Ok_0@);
    }
}

} // verus!
