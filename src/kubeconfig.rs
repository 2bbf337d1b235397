use vstd::prelude::*;
use crate::envelope::{CommandResult, Emission};
use crate::text::{decimal, decimal_string, joined, json_quote, json_quoted, has_prefix, lower_of, str_eq, to_lower, trim_of, trimmed};

verus! {

/// A namespace as listed to the UI.
#[derive(Clone, Debug)]
pub struct KNamespace {
    pub name: String,
    pub creation_ts: i64,
}

impl KNamespace {
    /// A namespace with an empty name and no creation time.
    pub fn new() -> (r: KNamespace)
        ensures
            r.name@.len() == 0,
            r.creation_ts == 0,
    {
        KNamespace { name: String::new(), creation_ts: 0 }
    }
}

/// A cluster context, and whether it is the current one.
#[derive(Clone, Debug)]
pub struct KCluster {
    pub name: String,
    pub current: bool,
}

/// `s` with every non-overlapping occurrence of `from`, scanning left to
/// right, replaced by `to`.
pub open spec fn replace_all(s: Seq<char>, from: Seq<char>, to: Seq<char>) -> Seq<char>
    decreases s.len(),
{
    if from.len() == 0 || s.len() < from.len() {
        s
    } else if s.subrange(0, from.len() as int) == from {
        to + replace_all(s.skip(from.len() as int), from, to)
    } else {
        seq![s[0]] + replace_all(s.skip(1), from, to)
    }
}

/// Relies on `str::replace`: each non-overlapping match of a non-empty
/// pattern, found left to right, is replaced.
#[verifier::external_body]
fn replace_text(s: &str, from: &str, to: &str) -> (r: String)
    requires
        from@.len() > 0,
    ensures
        r@ == replace_all(s@, from@, to@),
{
    s.replace(from, to)
}

/// The line of a kubeconfig file that names the current context.
pub open spec fn context_prefix() -> Seq<char> {
    "current-context: "@
}

/// Whether a line names the current context.
pub open spec fn is_context_line(l: Seq<char>) -> bool {
    context_prefix().len() <= l.len() && l.subrange(0, context_prefix().len() as int) == context_prefix()
}

/// The current context that kubeconfig lines name: from the first line that
/// starts with `current-context: `, with that text removed wherever it
/// occurs; an empty name, not current, when no line names one.
pub open spec fn current_cluster_post(lines: Seq<String>, r: KCluster) -> bool {
    if exists|i: int| 0 <= i < lines.len() && is_context_line(#[trigger] lines[i]@) {
        let i = choose|i: int|
            0 <= i < lines.len() && is_context_line(#[trigger] lines[i]@) && forall|j: int|
                0 <= j < i ==> !is_context_line(#[trigger] lines[j]@);
        r.current && r.name@ == replace_all(lines[i]@, context_prefix(), seq![])
    } else {
        !r.current && r.name@.len() == 0
    }
}

/// Finds the current context in the lines of a kubeconfig file.
pub fn get_current_cluster(lines: &Vec<String>) -> (r: KCluster)
    ensures
        current_cluster_post(lines@, r),
{
    let prefix = "current-context: ";
    proof {
        reveal_strlit("current-context: ");
    }
    let mut i: usize = 0;
    while i < lines.len()
        invariant
            prefix@ == context_prefix(),
            prefix@.len() > 0,
            i <= lines@.len(),
            forall|j: int| 0 <= j < i ==> !is_context_line(#[trigger] lines@[j]@),
        decreases lines@.len() - i,
    {
        if has_prefix(lines[i].as_str(), prefix) {
            let name = replace_text(lines[i].as_str(), prefix, "");
            proof {
                reveal_strlit("");
                assert(""@ =~= Seq::<char>::empty());
                let w = choose|w: int|
                    0 <= w < lines@.len() && is_context_line(#[trigger] lines@[w]@) && forall|j: int|
                        0 <= j < w ==> !is_context_line(#[trigger] lines@[j]@);
                assert(is_context_line(lines@[i as int]@));
                assert(w == i) by {
                    if w > i { assert(!is_context_line(lines@[i as int]@)); }
                    if w < i { assert(!is_context_line(lines@[w]@)); }
                }
            }
            return KCluster { name, current: true };
        }
        i = i + 1;
    }
    KCluster { name: String::new(), current: false }
}

/// The lines of a text split at each newline, as `str::split('\n')` gives
/// them: `n` newlines make `n + 1` pieces.
pub open spec fn split_lines(s: Seq<char>) -> Seq<Seq<char>>
    decreases s.len(),
{
    if s.len() == 0 {
        seq![seq![]]
    } else {
        let rest = split_lines(s.drop_last());
        if s.last() == '\n' {
            rest.push(seq![])
        } else {
            rest.update(rest.len() - 1, rest.last().push(s.last()))
        }
    }
}

/// The pieces that hold more than white space.
pub open spec fn non_blank(pieces: Seq<Seq<char>>) -> Seq<Seq<char>>
    decreases pieces.len(),
{
    if pieces.len() == 0 {
        seq![]
    } else if trim_of(pieces.last()).len() > 0 {
        non_blank(pieces.drop_last()).push(pieces.last())
    } else {
        non_blank(pieces.drop_last())
    }
}

proof fn lemma_split_lines_len(s: Seq<char>)
    ensures
        split_lines(s).len() >= 1,
    decreases s.len(),
{
    if s.len() > 0 {
        lemma_split_lines_len(s.drop_last());
    }
}

/// The namespaces that a user listed, one per line: blank lines are
/// skipped, and a kept line is taken as it stands. No list gives none.
pub fn get_custom_ns_list(ns_list: Option<String>) -> (r: Vec<KNamespace>)
    ensures
        match ns_list {
            None => r@.len() == 0,
            Some(text) => {
                &&& r@.len() == non_blank(split_lines(text@)).len()
                &&& forall|k: int| 0 <= k < r@.len() ==> (#[trigger] r@[k]).name@ == non_blank(split_lines(text@))[k]
                    && r@[k].creation_ts == 0
            },
        },
{
    let mut r: Vec<KNamespace> = Vec::new();
    match ns_list {
        None => r,
        Some(text) => {
            let s = text.as_str();
            let n = s.unicode_len();
            let mut start: usize = 0;
            let mut i: usize = 0;
            let ghost mut done: Seq<Seq<char>> = seq![];
            proof {
                assert(s@.subrange(0, 0) =~= Seq::<char>::empty());
                assert(done.push(s@.subrange(0, 0)) =~= seq![Seq::<char>::empty()]);
            }
            while i < n
                invariant
                    n == s@.len(),
                    s@ == text@,
                    start <= i <= n,
                    split_lines(s@.subrange(0, i as int)) == done.push(s@.subrange(start as int, i as int)),
                    r@.len() == non_blank(done).len(),
                    forall|k: int| 0 <= k < r@.len() ==> (#[trigger] r@[k]).name@ == non_blank(done)[k]
                        && r@[k].creation_ts == 0,
                decreases n - i,
            {
                let pre = Ghost(s@.subrange(0, i + 1));
                proof {
                    assert(pre@.drop_last() =~= s@.subrange(0, i as int));
                    lemma_split_lines_len(s@.subrange(0, i as int));
                }
                if s.get_char(i) == '\n' {
                    let piece = s.substring_char(start, i);
                    let t = trimmed(piece);
                    let ghost old_done = done;
                    proof {
                        done = done.push(piece@);
                        assert(done.drop_last() == old_done);
                    }
                    if t.as_str().unicode_len() > 0 {
                        r.push(KNamespace { name: String::from_str(piece), creation_ts: 0 });
                    }
                    proof {
                        assert(pre@.last() == '\n');
                        assert(s@.subrange(i + 1, i + 1) =~= Seq::<char>::empty());
                        assert(split_lines(pre@) =~= done.push(s@.subrange(i + 1, i + 1)));
                    }
                    start = i + 1;
                } else {
                    proof {
                        assert(s@.subrange(start as int, i + 1) =~= s@.subrange(start as int, i as int).push(s@[i as int]));
                        assert(split_lines(pre@) =~= done.push(s@.subrange(start as int, i + 1)));
                    }
                }
                i = i + 1;
            }
            let piece = s.substring_char(start, n);
            let t = trimmed(piece);
            let ghost old_done = done;
            proof {
                assert(s@.subrange(0, n as int) =~= s@);
                done = done.push(piece@);
                assert(done.drop_last() == old_done);
            }
            if t.as_str().unicode_len() > 0 {
                r.push(KNamespace { name: String::from_str(piece), creation_ts: 0 });
            }
            r
        },
    }
}

/// Whether a pattern compiles under `regex::Regex::new`.
pub uninterp spec fn regex_compiles(pattern: Seq<char>) -> bool;

/// Whether the regex `pattern` matches somewhere in `text`.
pub uninterp spec fn regex_finds(pattern: Seq<char>, text: Seq<char>) -> bool;

/// `text` with the leftmost match of the regex `pattern` replaced by `rep`,
/// in which `$name` and `${name}` stand for capture groups and `$$` for `$`.
pub uninterp spec fn regex_replaced(pattern: Seq<char>, text: Seq<char>, rep: Seq<char>) -> Seq<char>;

/// Relies on `regex::Regex::new` (fails exactly on a pattern that does not
/// compile) and `Regex::is_match`.
#[verifier::external_body]
fn regex_is_match(pattern: &str, text: &str) -> (r: Option<bool>)
    ensures
        r is Some <==> regex_compiles(pattern@),
        r matches Some(b) ==> b == regex_finds(pattern@, text@),
{
    match regex::Regex::new(pattern) {
        Ok(re) => Some(re.is_match(text)),
        Err(_) => None,
    }
}

/// Relies on `regex::Regex::new` and `Regex::replace`, which replaces the
/// leftmost match only.
#[verifier::external_body]
fn regex_replace(pattern: &str, text: &str, rep: &str) -> (r: Option<String>)
    ensures
        r is Some <==> regex_compiles(pattern@),
        r matches Some(t) ==> t@ == regex_replaced(pattern@, text@, rep@),
{
    match regex::Regex::new(pattern) {
        Ok(re) => Some(re.replace(text, rep).into_owned()),
        Err(_) => None,
    }
}

/// The pattern of a kubeconfig line that names a cluster.
pub open spec fn cluster_pattern() -> Seq<char> {
    "^\\s*cluster:"@
}

/// The clusters that kubeconfig lines name: each line that the cluster
/// pattern matches gives one, named by what is left once the match is
/// removed, and marked current when that name is `current`.
pub open spec fn clusters_spec(lines: Seq<Seq<char>>, current: Seq<char>) -> Seq<(Seq<char>, bool)>
    decreases lines.len(),
{
    if lines.len() == 0 {
        seq![]
    } else {
        let rest = clusters_spec(lines.drop_last(), current);
        let l = lines.last();
        if regex_finds(cluster_pattern(), l) {
            let name = regex_replaced(cluster_pattern(), l, seq![]);
            rest.push((name, name == current))
        } else {
            rest
        }
    }
}

/// The views of a list of strings.
pub open spec fn strings_view(s: Seq<String>) -> Seq<Seq<char>> {
    s.map_values(|x: String| x@)
}

/// The view of a list of clusters.
pub open spec fn clusters_view(s: Seq<KCluster>) -> Seq<(Seq<char>, bool)> {
    s.map_values(|c: KCluster| (c.name@, c.current))
}

/// Lists the clusters that the lines of a kubeconfig file name. `None`
/// only if the cluster pattern does not compile.
pub fn get_clusters(lines: &Vec<String>, current: &KCluster) -> (r: Option<Vec<KCluster>>)
    ensures
        r is Some <==> regex_compiles(cluster_pattern()),
        r matches Some(cs) ==> clusters_view(cs@) == clusters_spec(strings_view(lines@), current.name@),
{
    let pattern = "^\\s*cluster:";
    // compile up front, so that a bad pattern is reported even for no lines
    match regex_is_match(pattern, "") {
        None => return None,
        Some(_) => {},
    }
    let mut r: Vec<KCluster> = Vec::new();
    let mut i: usize = 0;
    while i < lines.len()
        invariant
            pattern@ == cluster_pattern(),
            i <= lines@.len(),
            regex_compiles(cluster_pattern()),
            clusters_view(r@) == clusters_spec(strings_view(lines@.subrange(0, i as int)), current.name@),
        decreases lines@.len() - i,
    {
        let line = lines[i].as_str();
        let ghost pre = strings_view(lines@.subrange(0, i + 1));
        proof {
            assert(pre.drop_last() =~= strings_view(lines@.subrange(0, i as int)));
            assert(pre.last() == lines@[i as int]@);
        }
        match regex_is_match(pattern, line) {
            None => return None,
            Some(false) => {},
            Some(true) => match regex_replace(pattern, line, "") {
                None => return None,
                Some(name) => {
                    proof {
                        reveal_strlit("");
                        assert(""@ =~= Seq::<char>::empty());
                    }
                    let is_current = str_eq(name.as_str(), current.name.as_str());
                    let ghost before = r@;
                    r.push(KCluster { name, current: is_current });
                    proof {
                        assert(clusters_view(r@) =~= clusters_view(before).push((r@.last().name@, is_current)));
                    }
                },
            },
        }
        i = i + 1;
    }
    proof {
        assert(lines@.subrange(0, lines@.len() as int) =~= lines@);
    }
    Some(r)
}

/// The example document for a resource kind, matched without regard to
/// case; empty for a kind that has none.
pub open spec fn template_spec(kind: Seq<char>) -> Seq<char> {
    if kind == "namespace"@ {
        "apiVersion: v1\nkind: Namespace\nmetadata:\n  name: example\n"@
    } else if kind == "configmap"@ {
        "apiVersion: v1\nkind: ConfigMap\nmetadata:\n  name: example\ndata:\n  key: value\n"@
    } else if kind == "deployment"@ {
        "apiVersion: apps/v1\nkind: Deployment\nmetadata:\n  name: example\nspec:\n  replicas: 1\n  selector:\n    matchLabels:\n      app: example\n  template:\n    metadata:\n      labels:\n        app: example\n    spec:\n      containers:\n        - name: example\n          image: nginx\n"@
    } else if kind == "service"@ {
        "apiVersion: v1\nkind: Service\nmetadata:\n  name: example\nspec:\n  selector:\n    app: example\n  ports:\n    - port: 80\n      targetPort: 80\n"@
    } else if kind == "pod"@ {
        "apiVersion: v1\nkind: Pod\nmetadata:\n  name: example\nspec:\n  containers:\n    - name: example\n      image: nginx\n"@
    } else if kind == "replicaset"@ {
        "apiVersion: apps/v1\nkind: ReplicaSet\nmetadata:\n  name: example\nspec:\n  replicas: 1\n  selector:\n    matchLabels:\n      app: example\n  template:\n    metadata:\n      labels:\n        app: example\n    spec:\n      containers:\n        - name: example\n          image: nginx\n"@
    } else {
        seq![]
    }
}

/// The example document for a lower-case kind name.
pub fn template_for(kind: &str) -> (r: &'static str)
    ensures
        r@ == template_spec(kind@),
{
    if str_eq(kind, "namespace") {
        "apiVersion: v1\nkind: Namespace\nmetadata:\n  name: example\n"
    } else if str_eq(kind, "configmap") {
        "apiVersion: v1\nkind: ConfigMap\nmetadata:\n  name: example\ndata:\n  key: value\n"
    } else if str_eq(kind, "deployment") {
        "apiVersion: apps/v1\nkind: Deployment\nmetadata:\n  name: example\nspec:\n  replicas: 1\n  selector:\n    matchLabels:\n      app: example\n  template:\n    metadata:\n      labels:\n        app: example\n    spec:\n      containers:\n        - name: example\n          image: nginx\n"
    } else if str_eq(kind, "service") {
        "apiVersion: v1\nkind: Service\nmetadata:\n  name: example\nspec:\n  selector:\n    app: example\n  ports:\n    - port: 80\n      targetPort: 80\n"
    } else if str_eq(kind, "pod") {
        "apiVersion: v1\nkind: Pod\nmetadata:\n  name: example\nspec:\n  containers:\n    - name: example\n      image: nginx\n"
    } else if str_eq(kind, "replicaset") {
        "apiVersion: apps/v1\nkind: ReplicaSet\nmetadata:\n  name: example\nspec:\n  replicas: 1\n  selector:\n    matchLabels:\n      app: example\n  template:\n    metadata:\n      labels:\n        app: example\n    spec:\n      containers:\n        - name: example\n          image: nginx\n"
    } else {
        proof {
            reveal_strlit("");
        }
        ""
    }
}

/// The example document for a resource kind, in any case.
pub fn resource_template(kind: &str) -> (r: &'static str)
    ensures
        r@ == template_spec(lower_of(kind@)),
{
    let lower = to_lower(kind);
    template_for(lower.as_str())
}

/// The decimal notation of a signed number.
pub open spec fn signed_decimal(n: int) -> Seq<char> {
    if n < 0 { "-"@ + decimal((-n) as nat) } else { decimal(n as nat) }
}

/// The JSON object of a namespace.
pub open spec fn namespace_json_spec(name: Seq<char>, creation_ts: int) -> Seq<char> {
    "{\"name\":"@ + json_quoted(name) + ",\"creation_ts\":"@ + signed_decimal(creation_ts) + "}"@
}

impl KNamespace {
    /// The namespace as a JSON object.
    pub fn to_json(&self) -> (r: String)
        ensures
            r@ == namespace_json_spec(self.name@, self.creation_ts as int),
    {
        let mut s = String::from_str("{\"name\":");
        let name = json_quote(self.name.as_str());
        s.append(name.as_str());
        s.append(",\"creation_ts\":");
        if self.creation_ts < 0 {
            s.append("-");
            let magnitude: u128 = (0i128 - self.creation_ts as i128) as u128;
            let digits = decimal_string(magnitude);
            s.append(digits.as_str());
        } else {
            let digits = decimal_string(self.creation_ts as u128);
            s.append(digits.as_str());
        }
        s.append("}");
        s
    }
}

/// The JSON array of namespaces with these names, none with a creation time.
pub open spec fn namespaces_json_spec(names: Seq<Seq<char>>) -> Seq<char> {
    "["@ + joined(names.map_values(|n: Seq<char>| namespace_json_spec(n, 0))) + "]"@
}

/// The reply to a list of every namespace: the namespaces by name, as a JSON
/// array, or the failure text on `error`.
pub fn get_all_ns(command: &str, listed: Result<Vec<String>, String>) -> (r: Emission)
    ensures
        match listed {
            Ok(names) => r matches Emission::CommandResult(c) && c.command@ == command@
                && c.data@ == namespaces_json_spec(strings_view(names@)),
            Err(m) => r matches Emission::Error(c) && c.command@ == command@ && c.data@ == m@,
        },
{
    match listed {
        Err(m) => Emission::Error(CommandResult { command: String::from_str(command), data: m }),
        Ok(names) => {
            let ghost items = strings_view(names@).map_values(|n: Seq<char>| namespace_json_spec(n, 0));
            let mut body = String::new();
            let mut i: usize = 0;
            while i < names.len()
                invariant
                    i <= names@.len(),
                    items == strings_view(names@).map_values(|n: Seq<char>| namespace_json_spec(n, 0)),
                    body@ == joined(items.subrange(0, i as int)),
                decreases names@.len() - i,
            {
                let ns = KNamespace { name: names[i].clone(), creation_ts: 0 };
                let item = ns.to_json();
                proof {
                    assert(items.subrange(0, i + 1).drop_last() =~= items.subrange(0, i as int));
                    assert(items[i as int] == item@);
                }
                if i > 0 {
                    body.append(",");
                }
                body.append(item.as_str());
                i = i + 1;
            }
            proof {
                assert(items.subrange(0, names@.len() as int) =~= items);
            }
            let mut data = String::from_str("[");
            data.append(body.as_str());
            data.append("]");
            Emission::CommandResult(CommandResult { command: String::from_str(command), data })
        },
    }
}

/// Where the kubeconfig file lies under a home directory: `.kube/config`,
/// with `\` as separator on Windows; a separator is put between the two
/// unless the home path already ends with one.
pub open spec fn kubeconfig_path_spec(home: Seq<char>, windows: bool) -> Seq<char> {
    let sep = if windows { '\\' } else { '/' };
    let tail = if windows { ".kube\\config"@ } else { ".kube/config"@ };
    if home.len() > 0 && home.last() == sep { home + tail } else { home + seq![sep] + tail }
}

/// The default kubeconfig path under a home directory.
pub fn kubeconfig_path(home: &str, windows: bool) -> (r: String)
    ensures
        r@ == kubeconfig_path_spec(home@, windows),
{
    let sep = if windows { "\\" } else { "/" };
    let tail = if windows { ".kube\\config" } else { ".kube/config" };
    proof {
        reveal_strlit("\\");
        reveal_strlit("/");
    }
    let n = home.unicode_len();
    let mut r = String::from_str(home);
    let ends_with_sep = n > 0 && home.get_char(n - 1) == sep.get_char(0);
    if !ends_with_sep {
        r.append(sep);
    }
    r.append(tail);
    proof {
        if !ends_with_sep {
            assert(sep@ =~= seq![if windows { '\\' } else { '/' }]);
        }
    }
    r
}

/// How a cluster client is configured: from the environment's default
/// configuration, or from the named kubeconfig context.
#[derive(Clone, Debug)]
pub enum ClientSource {
    Inferred,
    Context(String),
}

/// The client configuration for a selected cluster name; no name selects
/// the default configuration.
pub fn client_source(cluster: &str) -> (r: ClientSource)
    ensures
        cluster@.len() == 0 ==> r is Inferred,
        cluster@.len() > 0 ==> (r matches ClientSource::Context(c) && c@ == cluster@),
{
    if cluster.unicode_len() == 0 {
        ClientSource::Inferred
    } else {
        ClientSource::Context(String::from_str(cluster))
    }
}

} // verus!
