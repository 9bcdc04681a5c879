//! The folder tree of the file sidebar: one folder's entries, hidden ones
//! left out, folders before files, each group in name order.

use vstd::prelude::*;
use vstd::multiset::Multiset;
use vstd::string::*;
use crate::paths::{file_name_of, path_file_name};
use crate::text::{chars_le, has_prefix, lemma_chars_le_total, lemma_chars_le_transitive, starts_with, text_le};

verus! {

/// Milliseconds since the Unix epoch of a file time given as the seconds and
/// nanoseconds of its distance from the epoch (as `Duration::as_millis`
/// counts them); 0 for a time that is unknown or before the epoch.
pub open spec fn spec_file_time_millis(elapsed: Option<(u64, u32)>) -> int {
    match elapsed {
        Some((secs, nanos)) => secs * 1000 + nanos / 1_000_000,
        None => 0,
    }
}

/// The milliseconds of a file time hold its whole seconds and the
/// milliseconds of its nanoseconds: the seconds are the milliseconds divided
/// by 1000, and the remainder counts the whole milliseconds within the
/// second.
pub proof fn lemma_file_time_millis(secs: u64, nanos: u32)
    requires
        nanos < 1_000_000_000,
    ensures
        spec_file_time_millis(Some((secs, nanos))) / 1000 == secs,
        spec_file_time_millis(Some((secs, nanos))) % 1000 == nanos / 1_000_000,
        spec_file_time_millis(None) == 0,
{
    let ms = nanos / 1_000_000;
    assert(0 <= ms < 1000);
    assert((secs * 1000 + ms) / 1000 == secs && (secs * 1000 + ms) % 1000 == ms) by (nonlinear_arith)
        requires 0 <= ms < 1000, secs >= 0;
}

/// Nanoseconds below one second, as `Duration` keeps them.
pub open spec fn elapsed_ok(elapsed: Option<(u64, u32)>) -> bool {
    elapsed matches Some((secs, nanos)) ==> nanos < 1_000_000_000
}

/// A file time in milliseconds since the Unix epoch, 0 when unknown.
pub fn file_time_millis(elapsed: Option<(u64, u32)>) -> (ms: u128)
    requires
        elapsed_ok(elapsed),
    ensures
        ms == spec_file_time_millis(elapsed),
{
    match elapsed {
        Some((secs, nanos)) => {
            let whole: u128 = secs as u128;
            assert(whole * 1000 <= u64::MAX as u128 * 1000) by (nonlinear_arith)
                requires whole <= u64::MAX as u128;
            whole * 1000 + (nanos / 1_000_000) as u128
        },
        None => 0,
    }
}

/// What the file system says of one path.
#[derive(Debug)]
pub struct EntryInfo {
    pub path: String,
    pub is_dir: bool,
    pub is_file: bool,
    /// Modification time as (seconds, nanoseconds) since the epoch.
    pub modified: Option<(u64, u32)>,
    /// Creation time as (seconds, nanoseconds) since the epoch.
    pub created: Option<(u64, u32)>,
    /// For a folder: it holds a folder.
    pub has_subdir: bool,
    /// For a folder: it holds a file.
    pub has_content: bool,
}

impl EntryInfo {
    pub open spec fn times_ok(&self) -> bool {
        elapsed_ok(self.modified) && elapsed_ok(self.created)
    }
}

/// One node of the sidebar tree. A folder that is not listed carries the
/// paths of placeholder children that tell the sidebar it is not empty.
#[derive(Debug)]
pub struct FileNode {
    pub name: String,
    pub path: String,
    pub is_directory: bool,
    pub is_file: bool,
    pub last_modified: u128,
    pub create_date: u128,
    pub folder_placeholder: Option<String>,
    pub file_placeholder: Option<String>,
}

/// A `FileNode` taken by its characters and numbers.
pub struct NodeView {
    pub name: Seq<char>,
    pub path: Seq<char>,
    pub is_directory: bool,
    pub is_file: bool,
    pub last_modified: int,
    pub create_date: int,
    pub folder_placeholder: Option<Seq<char>>,
    pub file_placeholder: Option<Seq<char>>,
}

impl View for FileNode {
    type V = NodeView;

    open spec fn view(&self) -> NodeView {
        NodeView {
            name: self.name@,
            path: self.path@,
            is_directory: self.is_directory,
            is_file: self.is_file,
            last_modified: self.last_modified as int,
            create_date: self.create_date as int,
            folder_placeholder: crate::paths::opt_view(self.folder_placeholder),
            file_placeholder: crate::paths::opt_view(self.file_placeholder),
        }
    }
}

/// The nodes of a list taken by their views.
pub open spec fn node_views(v: Seq<FileNode>) -> Seq<NodeView> {
    v.map_values(|n: FileNode| n@)
}

/// The name of the node for a path: its file name, else the whole path.
pub open spec fn spec_node_name(path: Seq<char>) -> Seq<char> {
    match path_file_name(path) {
        Some(n) => n,
        None => path,
    }
}

/// The node for an entry whose own entries are not listed.
pub open spec fn spec_shallow_node(e: EntryInfo) -> NodeView {
    NodeView {
        name: spec_node_name(e.path@),
        path: e.path@,
        is_directory: e.is_dir,
        is_file: e.is_file,
        last_modified: spec_file_time_millis(e.modified),
        create_date: spec_file_time_millis(e.created),
        folder_placeholder: if e.is_dir && e.has_subdir { Some(e.path@ + "/"@) } else { None },
        file_placeholder: if e.is_dir && e.has_content { Some(e.path@ + "/.notypo-placeholder"@) } else { None },
    }
}

/// The node for an entry whose own entries are not listed.
pub fn shallow_node(e: &EntryInfo) -> (n: FileNode)
    requires
        e.times_ok(),
    ensures
        n@ == spec_shallow_node(*e),
{
    let name = match file_name_of(e.path.as_str()) {
        Some(n) => n,
        None => e.path.clone(),
    };
    let folder_placeholder = if e.is_dir && e.has_subdir {
        let mut p = e.path.clone();
        p.append("/");
        Some(p)
    } else {
        None
    };
    let file_placeholder = if e.is_dir && e.has_content {
        let mut p = e.path.clone();
        p.append("/.notypo-placeholder");
        Some(p)
    } else {
        None
    };
    FileNode {
        name,
        path: e.path.clone(),
        is_directory: e.is_dir,
        is_file: e.is_file,
        last_modified: file_time_millis(e.modified),
        create_date: file_time_millis(e.created),
        folder_placeholder,
        file_placeholder,
    }
}


/// Sidebar order: folders before files, then by name.
pub open spec fn node_before(a: NodeView, b: NodeView) -> bool {
    (a.is_directory && !b.is_directory) || (a.is_directory == b.is_directory && chars_le(a.name, b.name))
}

/// `x` put into the ordered list `s` after every node that is not after it
/// (so that nodes in the same place keep the order they came in).
pub open spec fn insert_ordered(s: Seq<NodeView>, x: NodeView) -> Seq<NodeView>
    decreases s.len(),
{
    if s.len() == 0 {
        seq![x]
    } else if node_before(s.last(), x) {
        s.push(x)
    } else {
        insert_ordered(s.drop_last(), x).push(s.last())
    }
}

/// The nodes in sidebar order; nodes in the same place keep their order.
pub open spec fn sort_nodes(s: Seq<NodeView>) -> Seq<NodeView>
    decreases s.len(),
{
    if s.len() == 0 {
        s
    } else {
        insert_ordered(sort_nodes(s.drop_last()), s.last())
    }
}

/// Where `insert_ordered` puts `x`: at `j`, when the nodes from `j` on are
/// after `x` and the one before `j` is not.
proof fn lemma_insert_ordered_at(s: Seq<NodeView>, x: NodeView, j: int)
    requires
        0 <= j <= s.len(),
        forall|k: int| j <= k < s.len() ==> !node_before(#[trigger] s[k], x),
        j > 0 ==> node_before(s[j - 1], x),
    ensures
        insert_ordered(s, x) == s.take(j) + seq![x] + s.skip(j),
    decreases s.len(),
{
    if s.len() == 0 {
        assert(s.take(j) + seq![x] + s.skip(j) =~= seq![x]);
    } else if node_before(s.last(), x) {
        assert(j == s.len());
        assert(s.take(j) + seq![x] + s.skip(j) =~= s.push(x));
    } else {
        let d = s.drop_last();
        assert(j < s.len());
        assert forall|k: int| j <= k < d.len() implies !node_before(#[trigger] d[k], x) by {
            assert(d[k] == s[k]);
        }
        lemma_insert_ordered_at(d, x, j);
        assert((d.take(j) + seq![x] + d.skip(j)).push(s.last()) =~= s.take(j) + seq![x] + s.skip(j));
    }
}

/// Whether `a` comes no later than `b` in sidebar order.
fn node_before_exec(a: &FileNode, b: &FileNode) -> (r: bool)
    ensures
        r == node_before(a@, b@),
{
    if a.is_directory && !b.is_directory {
        true
    } else if a.is_directory == b.is_directory {
        text_le(a.name.as_str(), b.name.as_str())
    } else {
        false
    }
}

/// Inserts `x` into the ordered list `v` as `insert_ordered` says.
fn insert_node(v: &mut Vec<FileNode>, x: FileNode)
    ensures
        node_views(final(v)@) == insert_ordered(node_views(old(v)@), x@),
{
    let ghost s = node_views(v@);
    let mut j: usize = v.len();
    while j > 0 && !node_before_exec(&v[j - 1], &x)
        invariant
            j <= v.len(),
            s == node_views(v@),
            forall|k: int| j <= k < s.len() ==> !node_before(#[trigger] s[k], x@),
        decreases j,
    {
        j = j - 1;
    }
    proof {
        lemma_insert_ordered_at(s, x@, j as int);
    }
    v.insert(j, x);
    assert(node_views(v@) =~= s.take(j as int) + seq![x@] + s.skip(j as int));
}


/// An entry is listed when it has a file name that does not start with '.'.
pub open spec fn is_listed(e: EntryInfo) -> bool {
    match path_file_name(e.path@) {
        Some(n) => !has_prefix(n, "."@),
        None => false,
    }
}

/// The nodes of the listed entries, in the order the entries came.
pub open spec fn listed_nodes(s: Seq<EntryInfo>) -> Seq<NodeView>
    decreases s.len(),
{
    if s.len() == 0 {
        Seq::empty()
    } else if is_listed(s.last()) {
        listed_nodes(s.drop_last()).push(spec_shallow_node(s.last()))
    } else {
        listed_nodes(s.drop_last())
    }
}

/// The folders (`dir`) or the other nodes (`!dir`) of `s`, in order.
pub open spec fn nodes_of_kind(s: Seq<NodeView>, dir: bool) -> Seq<NodeView>
    decreases s.len(),
{
    if s.len() == 0 {
        Seq::empty()
    } else if s.last().is_directory == dir {
        nodes_of_kind(s.drop_last(), dir).push(s.last())
    } else {
        nodes_of_kind(s.drop_last(), dir)
    }
}

/// The sidebar listing of a folder's entries: (folders, other nodes).
pub open spec fn spec_listing(entries: Seq<EntryInfo>) -> (Seq<NodeView>, Seq<NodeView>) {
    let sorted = sort_nodes(listed_nodes(entries));
    (nodes_of_kind(sorted, true), nodes_of_kind(sorted, false))
}

/// Whether the entry is shown in the sidebar.
fn is_listed_exec(e: &EntryInfo) -> (r: bool)
    ensures
        r == is_listed(*e),
{
    match file_name_of(e.path.as_str()) {
        Some(n) => !starts_with(n.as_str(), "."),
        None => false,
    }
}

/// The listed entries of a folder as nodes, folders first, each group in
/// name order.
pub fn list_folder(entries: &Vec<EntryInfo>) -> (r: (Vec<FileNode>, Vec<FileNode>))
    requires
        forall|i: int| 0 <= i < entries.len() ==> (#[trigger] entries@[i]).times_ok(),
    ensures
        node_views(r.0@) == spec_listing(entries@).0,
        node_views(r.1@) == spec_listing(entries@).1,
{
    let mut sorted: Vec<FileNode> = Vec::new();
    let mut i: usize = 0;
    while i < entries.len()
        invariant
            i <= entries.len(),
            forall|k: int| 0 <= k < entries.len() ==> (#[trigger] entries@[k]).times_ok(),
            node_views(sorted@) == sort_nodes(listed_nodes(entries@.take(i as int))),
        decreases entries.len() - i,
    {
        let ghost prefix = entries@.take(i as int);
        assert(entries@.take(i + 1).drop_last() =~= prefix);
        assert(entries@.take(i + 1).last() == entries@[i as int]);
        if is_listed_exec(&entries[i]) {
            let node = shallow_node(&entries[i]);
            insert_node(&mut sorted, node);
            assert(listed_nodes(entries@.take(i + 1)) == listed_nodes(prefix).push(spec_shallow_node(entries@[i as int])));
            assert(listed_nodes(prefix).push(spec_shallow_node(entries@[i as int])).drop_last() =~= listed_nodes(prefix));
        }
        i = i + 1;
    }
    assert(entries@.take(entries.len() as int) =~= entries@);
    let ghost all = node_views(sorted@);
    let mut folders: Vec<FileNode> = Vec::new();
    let mut files: Vec<FileNode> = Vec::new();
    while sorted.len() > 0
        invariant
            sorted.len() <= all.len(),
            node_views(sorted@) == all.skip(all.len() - sorted.len()),
            node_views(folders@) == nodes_of_kind(all.take(all.len() - sorted.len()), true),
            node_views(files@) == nodes_of_kind(all.take(all.len() - sorted.len()), false),
        decreases sorted.len(),
    {
        let ghost done: int = all.len() - sorted.len();
        let ghost before = sorted@;
        assert(node_views(before)[0] == all[done]);
        let node = sorted.remove(0);
        assert(node == before[0]);
        assert(node@ == all[done]);
        assert(sorted@ =~= before.subrange(1, before.len() as int));
        assert(all.take(done + 1).drop_last() =~= all.take(done));
        assert forall|k: int| 0 <= k < sorted.len() implies node_views(sorted@)[k] == all.skip(all.len() - sorted.len())[k] by {
            assert(sorted@[k] == before[k + 1]);
            assert(node_views(before)[k + 1] == all.skip(done)[k + 1]);
        }
        assert(node_views(sorted@) =~= all.skip(all.len() - sorted.len()));
        if node.is_directory {
            folders.push(node);
            assert(node_views(folders@) =~= nodes_of_kind(all.take(done), true).push(all[done]));
        } else {
            files.push(node);
            assert(node_views(files@) =~= nodes_of_kind(all.take(done), false).push(all[done]));
        }
    }
    assert(all.take(all.len() as int) =~= all);
    (folders, files)
}


/// Sidebar order is total.
pub proof fn lemma_node_before_total(a: NodeView, b: NodeView)
    ensures
        node_before(a, b) || node_before(b, a),
{
    lemma_chars_le_total(a.name, b.name);
}

/// Sidebar order is transitive.
pub proof fn lemma_node_before_transitive(a: NodeView, b: NodeView, c: NodeView)
    requires
        node_before(a, b),
        node_before(b, c),
    ensures
        node_before(a, c),
{
    if a.is_directory == b.is_directory && b.is_directory == c.is_directory {
        lemma_chars_le_transitive(a.name, b.name, c.name);
    }
}

/// Every node comes no later than every node after it.
pub open spec fn in_sidebar_order(s: Seq<NodeView>) -> bool {
    forall|i: int, j: int| 0 <= i < j < s.len() ==> node_before(s[i], s[j])
}

/// `insert_ordered` adds exactly `x` and keeps a list in sidebar order.
proof fn lemma_insert_ordered(s: Seq<NodeView>, x: NodeView)
    ensures
        insert_ordered(s, x).len() == s.len() + 1,
        insert_ordered(s, x).to_multiset() == s.to_multiset().insert(x),
        forall|y: NodeView| #[trigger] insert_ordered(s, x).contains(y) <==> (s.contains(y) || y == x),
        in_sidebar_order(s) ==> in_sidebar_order(insert_ordered(s, x)),
    decreases s.len(),
{
    broadcast use vstd::seq_lib::group_to_multiset_ensures;

    let r = insert_ordered(s, x);
    if s.len() == 0 {
        assert(r =~= seq![x]);
        assert(s.to_multiset() =~= Multiset::empty());
        assert(seq![x] =~= Seq::<NodeView>::empty().push(x));
        assert forall|y: NodeView| r.contains(y) <==> (s.contains(y) || y == x) by {
            if r.contains(y) {
                assert(r[0] == y);
            }
            if y == x {
                assert(r[0] == y);
            }
        }
    } else if node_before(s.last(), x) {
        assert(r == s.push(x));
        assert forall|y: NodeView| r.contains(y) <==> (s.contains(y) || y == x) by {
            if r.contains(y) {
                let k: int = choose|k: int| 0 <= k < r.len() && r[k] == y;
                if k < s.len() {
                    assert(s[k] == y);
                }
            }
            if s.contains(y) {
                let k: int = choose|k: int| 0 <= k < s.len() && s[k] == y;
                assert(r[k] == y);
            }
            if y == x {
                assert(r[s.len() as int] == y);
            }
        }
        if in_sidebar_order(s) {
            assert forall|i: int, j: int| 0 <= i < j < r.len() implies node_before(r[i], r[j]) by {
                if j == s.len() {
                    if i < s.len() - 1 {
                        lemma_node_before_transitive(s[i], s.last(), x);
                    }
                }
            }
        }
    } else {
        let d = s.drop_last();
        let last = s.last();
        let r0 = insert_ordered(d, x);
        lemma_insert_ordered(d, x);
        assert(s =~= d.push(last));
        assert(r == r0.push(last));
        assert(r.to_multiset() =~= r0.to_multiset().insert(last));
        assert(s.to_multiset() =~= d.to_multiset().insert(last));
        assert(r.to_multiset() =~= s.to_multiset().insert(x));
        assert forall|y: NodeView| r.contains(y) <==> (s.contains(y) || y == x) by {
            if r.contains(y) {
                let k: int = choose|k: int| 0 <= k < r.len() && r[k] == y;
                if k < r0.len() {
                    assert(r0.contains(y));
                    if d.contains(y) {
                        let m: int = choose|m: int| 0 <= m < d.len() && d[m] == y;
                        assert(s[m] == y);
                    }
                } else {
                    assert(s[s.len() - 1] == y);
                }
            }
            if s.contains(y) {
                let k: int = choose|k: int| 0 <= k < s.len() && s[k] == y;
                if k < d.len() {
                    assert(d[k] == y);
                    assert(d.contains(y));
                    assert(r0.contains(y));
                    let m: int = choose|m: int| 0 <= m < r0.len() && r0[m] == y;
                    assert(r[m] == y);
                } else {
                    assert(r[r0.len() as int] == y);
                }
            }
            if y == x {
                assert(r0.contains(y));
                let m: int = choose|m: int| 0 <= m < r0.len() && r0[m] == y;
                assert(r[m] == y);
            }
        }
        if in_sidebar_order(s) {
            assert(in_sidebar_order(d));
            lemma_node_before_total(last, x);
            assert forall|i: int, j: int| 0 <= i < j < r.len() implies node_before(r[i], r[j]) by {
                if j == r0.len() {
                    let y = r0[i];
                    assert(r0.contains(y));
                    if y != x {
                        assert(d.contains(y));
                        let m: int = choose|m: int| 0 <= m < d.len() && d[m] == y;
                        assert(s[m] == y);
                    }
                } else {
                    assert(r[i] == r0[i]);
                    assert(r[j] == r0[j]);
                }
            }
        }
    }
}

/// The sidebar sort puts nodes in sidebar order and keeps every node,
/// each as often as it came.
pub proof fn lemma_sort_nodes(s: Seq<NodeView>)
    ensures
        in_sidebar_order(sort_nodes(s)),
        sort_nodes(s).to_multiset() == s.to_multiset(),
        sort_nodes(s).len() == s.len(),
    decreases s.len(),
{
    broadcast use vstd::seq_lib::group_to_multiset_ensures;

    if s.len() > 0 {
        let d = s.drop_last();
        lemma_sort_nodes(d);
        lemma_insert_ordered(sort_nodes(d), s.last());
        assert(s =~= d.push(s.last()));
    }
}


/// `nodes_of_kind` keeps only nodes of the kind asked for, only nodes of the
/// list, and their order.
proof fn lemma_nodes_of_kind(s: Seq<NodeView>, dir: bool)
    ensures
        forall|i: int| 0 <= i < nodes_of_kind(s, dir).len() ==> (#[trigger] nodes_of_kind(s, dir)[i]).is_directory == dir,
        forall|y: NodeView| #[trigger] nodes_of_kind(s, dir).contains(y) ==> s.contains(y),
        in_sidebar_order(s) ==> in_sidebar_order(nodes_of_kind(s, dir)),
    decreases s.len(),
{
    if s.len() > 0 {
        let d = s.drop_last();
        let x = s.last();
        let r0 = nodes_of_kind(d, dir);
        let r = nodes_of_kind(s, dir);
        lemma_nodes_of_kind(d, dir);
        assert(s =~= d.push(x));
        assert forall|y: NodeView| #[trigger] r.contains(y) implies s.contains(y) by {
            let k: int = choose|k: int| 0 <= k < r.len() && r[k] == y;
            if k < r0.len() {
                assert(r0[k] == y);
                assert(r0.contains(y));
                let m: int = choose|m: int| 0 <= m < d.len() && d[m] == y;
                assert(s[m] == y);
            } else {
                assert(s[s.len() - 1] == y);
            }
        }
        if in_sidebar_order(s) {
            assert(in_sidebar_order(d));
            if x.is_directory == dir {
                assert forall|i: int, j: int| 0 <= i < j < r.len() implies node_before(r[i], r[j]) by {
                    if j == r0.len() {
                        assert(r0.contains(r0[i]));
                        let m: int = choose|m: int| 0 <= m < d.len() && d[m] == r0[i];
                        assert(s[m] == r[i]);
                        assert(s[s.len() - 1] == r[j]);
                    } else {
                        assert(r[i] == r0[i]);
                        assert(r[j] == r0[j]);
                    }
                }
            }
        }
    }
}

/// Splitting a list into folders and other nodes keeps every node, each as
/// often as it came.
proof fn lemma_split_keeps_all(s: Seq<NodeView>)
    ensures
        nodes_of_kind(s, true).to_multiset().add(nodes_of_kind(s, false).to_multiset()) == s.to_multiset(),
    decreases s.len(),
{
    broadcast use vstd::seq_lib::group_to_multiset_ensures;

    if s.len() == 0 {
        assert(nodes_of_kind(s, true).to_multiset() =~= Multiset::empty());
        assert(nodes_of_kind(s, false).to_multiset() =~= Multiset::empty());
        assert(s.to_multiset() =~= Multiset::empty());
    } else {
        let d = s.drop_last();
        lemma_split_keeps_all(d);
        assert(s =~= d.push(s.last()));
        assert(nodes_of_kind(s, true).to_multiset().add(nodes_of_kind(s, false).to_multiset()) =~= s.to_multiset());
    }
}

/// No listed node has a name that starts with '.'.
proof fn lemma_listed_names(s: Seq<EntryInfo>)
    ensures
        forall|i: int| 0 <= i < listed_nodes(s).len() ==> !has_prefix(#[trigger] listed_nodes(s)[i].name, "."@),
    decreases s.len(),
{
    if s.len() > 0 {
        lemma_listed_names(s.drop_last());
        let r0 = listed_nodes(s.drop_last());
        if is_listed(s.last()) {
            assert forall|i: int| 0 <= i < listed_nodes(s).len() implies !has_prefix(#[trigger] listed_nodes(s)[i].name, "."@) by {
                if i < r0.len() {
                    assert(listed_nodes(s)[i] == r0[i]);
                }
            }
        }
    }
}

/// The sidebar listing of a folder: the first list holds only folders, the
/// second only other entries, each in name order; together they hold every
/// listed entry once, and no entry whose name starts with '.'.
pub proof fn lemma_listing(entries: Seq<EntryInfo>)
    ensures
        forall|i: int| 0 <= i < spec_listing(entries).0.len() ==> (#[trigger] spec_listing(entries).0[i]).is_directory,
        forall|i: int| 0 <= i < spec_listing(entries).1.len() ==> !(#[trigger] spec_listing(entries).1[i]).is_directory,
        forall|i: int, j: int| 0 <= i < j < spec_listing(entries).0.len()
            ==> chars_le(spec_listing(entries).0[i].name, spec_listing(entries).0[j].name),
        forall|i: int, j: int| 0 <= i < j < spec_listing(entries).1.len()
            ==> chars_le(spec_listing(entries).1[i].name, spec_listing(entries).1[j].name),
        spec_listing(entries).0.to_multiset().add(spec_listing(entries).1.to_multiset())
            == listed_nodes(entries).to_multiset(),
        forall|i: int| 0 <= i < spec_listing(entries).0.len() ==> !has_prefix((#[trigger] spec_listing(entries).0[i]).name, "."@),
        forall|i: int| 0 <= i < spec_listing(entries).1.len() ==> !has_prefix((#[trigger] spec_listing(entries).1[i]).name, "."@),
{
    broadcast use vstd::seq_lib::group_to_multiset_ensures;

    let listed = listed_nodes(entries);
    let sorted = sort_nodes(listed);
    lemma_sort_nodes(listed);
    lemma_nodes_of_kind(sorted, true);
    lemma_nodes_of_kind(sorted, false);
    lemma_split_keeps_all(sorted);
    lemma_listed_names(entries);
    let folders = nodes_of_kind(sorted, true);
    let files = nodes_of_kind(sorted, false);
    assert forall|i: int| 0 <= i < folders.len() implies !has_prefix((#[trigger] folders[i]).name, "."@) by {
        assert(folders.contains(folders[i]));
        assert(sorted.contains(folders[i]));
        assert(sorted.to_multiset().count(folders[i]) > 0);
        assert(listed.contains(folders[i]));
        let m: int = choose|m: int| 0 <= m < listed.len() && listed[m] == folders[i];
        assert(!has_prefix(listed[m].name, "."@));
    }
    assert forall|i: int| 0 <= i < files.len() implies !has_prefix((#[trigger] files[i]).name, "."@) by {
        assert(files.contains(files[i]));
        assert(sorted.contains(files[i]));
        assert(sorted.to_multiset().count(files[i]) > 0);
        assert(listed.contains(files[i]));
        let m: int = choose|m: int| 0 <= m < listed.len() && listed[m] == files[i];
        assert(!has_prefix(listed[m].name, "."@));
    }
    assert forall|i: int, j: int| 0 <= i < j < folders.len() implies chars_le(folders[i].name, folders[j].name) by {
        assert(node_before(folders[i], folders[j]));
    }
    assert forall|i: int, j: int| 0 <= i < j < files.len() implies chars_le(files[i].name, files[j].name) by {
        assert(node_before(files[i], files[j]));
    }
}


/// A node with the nodes under it, as the sidebar asks for one folder.
#[derive(Debug)]
pub struct FolderListing {
    pub node: FileNode,
    pub subdir: Vec<FileNode>,
    pub content: Vec<FileNode>,
}

/// The node for a path whose entries are listed under it.
pub open spec fn spec_listed_root(e: EntryInfo) -> NodeView {
    NodeView {
        name: spec_node_name(e.path@),
        path: e.path@,
        is_directory: e.is_dir,
        is_file: e.is_file,
        last_modified: spec_file_time_millis(e.modified),
        create_date: spec_file_time_millis(e.created),
        folder_placeholder: None,
        file_placeholder: None,
    }
}

/// The tree for `root` with its entries: `entries` is what reading the
/// folder gave (`None` when it could not be read). A folder whose entries
/// could not be read has no tree; a file has no nodes under it.
pub fn file_tree_node(root: &EntryInfo, entries: Option<Vec<EntryInfo>>) -> (r: Option<FolderListing>)
    requires
        root.times_ok(),
        entries matches Some(es) ==> forall|i: int| 0 <= i < es.len() ==> (#[trigger] es@[i]).times_ok(),
    ensures
        r is None <==> (root.is_dir && entries is None),
        r matches Some(t) ==> {
            &&& t.node@ == spec_listed_root(*root)
            &&& root.is_dir ==> node_views(t.subdir@) == spec_listing(entries->0@).0
            &&& root.is_dir ==> node_views(t.content@) == spec_listing(entries->0@).1
            &&& !root.is_dir ==> t.subdir@.len() == 0 && t.content@.len() == 0
        },
{
    let mut node = shallow_node(root);
    node.folder_placeholder = None;
    node.file_placeholder = None;
    if root.is_dir {
        match entries {
            Some(es) => {
                let (subdir, content) = list_folder(&es);
                Some(FolderListing { node, subdir, content })
            },
            None => None,
        }
    } else {
        Some(FolderListing { node, subdir: Vec::new(), content: Vec::new() })
    }
}

/// Whether an entry gets a place in the sidebar depends on its file name
/// alone: an entry whose path has a file name that does not start with '.'
/// is added to the listing, whatever its kind or extension, and any other
/// entry is left out.
pub proof fn lemma_listed_nodes_push(s: Seq<EntryInfo>, e: EntryInfo)
    ensures
        (path_file_name(e.path@) matches Some(n) && !has_prefix(n, "."@))
            ==> listed_nodes(s.push(e)) == listed_nodes(s).push(spec_shallow_node(e)),
        !(path_file_name(e.path@) matches Some(n) && !has_prefix(n, "."@))
            ==> listed_nodes(s.push(e)) == listed_nodes(s),
{
    assert(s.push(e).drop_last() =~= s);
}

/// Every entry whose file name does not start with '.' has its node in the
/// listing.
proof fn lemma_listed_contains(s: Seq<EntryInfo>, i: int)
    requires
        0 <= i < s.len(),
        path_file_name(s[i].path@) matches Some(n) && !has_prefix(n, "."@),
    ensures
        listed_nodes(s).contains(spec_shallow_node(s[i])),
    decreases s.len(),
{
    let d = s.drop_last();
    assert(s =~= d.push(s.last()));
    lemma_listed_nodes_push(d, s.last());
    if i == s.len() - 1 {
        let r = listed_nodes(s);
        assert(r[r.len() - 1] == spec_shallow_node(s[i]));
    } else {
        assert(d[i] == s[i]);
        lemma_listed_contains(d, i);
        let r0 = listed_nodes(d);
        let k: int = choose|k: int| 0 <= k < r0.len() && r0[k] == spec_shallow_node(s[i]);
        if is_listed(s.last()) {
            assert(listed_nodes(s)[k] == r0[k]);
        }
    }
}

/// Every entry of a folder whose file name does not start with '.' is shown:
/// among the folders when it is one, else among the files.
pub proof fn lemma_listing_shows_every_visible_entry(entries: Seq<EntryInfo>, i: int)
    requires
        0 <= i < entries.len(),
        path_file_name(entries[i].path@) matches Some(n) && !has_prefix(n, "."@),
    ensures
        entries[i].is_dir ==> spec_listing(entries).0.contains(spec_shallow_node(entries[i])),
        !entries[i].is_dir ==> spec_listing(entries).1.contains(spec_shallow_node(entries[i])),
{
    broadcast use vstd::seq_lib::group_to_multiset_ensures;

    let x = spec_shallow_node(entries[i]);
    let listed = listed_nodes(entries);
    lemma_listed_contains(entries, i);
    lemma_listing(entries);
    let folders = spec_listing(entries).0;
    let files = spec_listing(entries).1;
    assert(listed.to_multiset().count(x) > 0);
    assert(folders.to_multiset().add(files.to_multiset()).count(x) > 0);
    if entries[i].is_dir {
        if !folders.contains(x) {
            assert(files.to_multiset().count(x) > 0);
            assert(files.contains(x));
            let k: int = choose|k: int| 0 <= k < files.len() && files[k] == x;
            assert(!files[k].is_directory);
        }
    } else {
        if !files.contains(x) {
            assert(folders.to_multiset().count(x) > 0);
            assert(folders.contains(x));
            let k: int = choose|k: int| 0 <= k < folders.len() && folders[k] == x;
            assert(folders[k].is_directory);
        }
    }
}

/// A node not listed is named by the file name of its path (the whole path
/// when it has none); a folder carries a folder placeholder exactly when it
/// holds a folder, and a file placeholder exactly when it holds a file, both
/// inside it; a file carries no placeholder.
pub proof fn lemma_shallow_node(e: EntryInfo)
    ensures
        path_file_name(e.path@) matches Some(n) ==> spec_shallow_node(e).name == n,
        path_file_name(e.path@) is None ==> spec_shallow_node(e).name == e.path@,
        spec_shallow_node(e).path == e.path@,
        spec_shallow_node(e).folder_placeholder is Some <==> (e.is_dir && e.has_subdir),
        spec_shallow_node(e).file_placeholder is Some <==> (e.is_dir && e.has_content),
        spec_shallow_node(e).folder_placeholder matches Some(p) ==> has_prefix(p, e.path@) && p.len() > e.path@.len(),
        spec_shallow_node(e).file_placeholder matches Some(p) ==> has_prefix(p, e.path@) && p.len() > e.path@.len(),
{
    reveal_strlit("/");
    reveal_strlit("/.notypo-placeholder");
    assert((e.path@ + "/"@).subrange(0, e.path@.len() as int) =~= e.path@);
    assert((e.path@ + "/.notypo-placeholder"@).subrange(0, e.path@.len() as int) =~= e.path@);
}

} // verus!
