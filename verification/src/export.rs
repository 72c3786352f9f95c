//! Export bookkeeping.
//!
//! Clients marshal named arguments with the help of an argument-name
//! manifest: a generic key-value document mapping each method name to its
//! ordered argument names, per namespace. This module serializes that
//! document and resolves where generated bindings are written. Writing
//! the files themselves is I/O and stays with the embedding application.

use vstd::prelude::*;
use crate::registry::{DispatchTable, MethodModel};
use crate::router::Router;
use crate::worker::TauRpcHandler;

verus! {

/// The JSON text serde_json produces for an argument-name manifest: a
/// function of the key-value document alone (keys are emitted in sorted
/// order).
pub uninterp spec fn json_of_args(m: Map<Seq<char>, Seq<Seq<char>>>) -> Seq<char>;

/// The key-value document of a built table: each entry's command name
/// mapped to its ordered argument names.
pub open spec fn manifest_map_of(entries: Seq<MethodModel>) -> Map<Seq<char>, Seq<Seq<char>>>
    decreases entries.len(),
{
    if entries.len() == 0 {
        Map::empty()
    } else {
        manifest_map_of(entries.drop_last()).insert(entries.last().name, entries.last().args)
    }
}

/// The key-value document held by a list of (method name, argument
/// names) pairs.
pub open spec fn pairs_map_of(entries: Seq<(String, Vec<String>)>) -> Map<
    Seq<char>,
    Seq<Seq<char>>,
>
    decreases entries.len(),
{
    if entries.len() == 0 {
        Map::empty()
    } else {
        pairs_map_of(entries.drop_last()).insert(
            entries.last().0@,
            entries.last().1.deep_view(),
        )
    }
}

/// Relies on serde_json::to_string on a BTreeMap<String, Vec<String>>:
/// it emits the map as one JSON object, a function of the keys and
/// values alone (BTreeMap iterates its keys in sorted order), and it
/// cannot fail for this type — string keys, and strings serialize
/// infallibly.
#[verifier::external_body]
fn args_json(entries: &Vec<(String, Vec<String>)>) -> (r: String)
    requires
        forall|i: int, j: int|
            0 <= i < j < entries@.len() ==> entries@[i].0@ != entries@[j].0@,
    ensures
        r@ == json_of_args(pairs_map_of(entries@)),
{
    let map: std::collections::BTreeMap<String, Vec<String>> = entries.iter().cloned().collect();
    serde_json::to_string(&map).unwrap()
}

/// A fresh copy of a list of strings, element for element.
fn clone_strings(v: &Vec<String>) -> (r: Vec<String>)
    ensures
        r.deep_view() == v.deep_view(),
{
    broadcast use vstd::std_specs::vec::vec_clone_deep_view_proof;

    v.clone()
}

/// The argument-name manifest document of one namespace's dispatch
/// table, as the JSON text clients consume.
pub fn args_map(table: &DispatchTable) -> (r: String)
    requires
        table.wf(),
    ensures
        r@ == json_of_args(manifest_map_of(table.models())),
{
    let mut entries: Vec<(String, Vec<String>)> = Vec::new();
    let mut i: usize = 0;
    while i < table.len()
        invariant
            table.wf(),
            i <= table.spec_methods().len(),
            entries@.len() == i,
            forall|k: int| 0 <= k < i ==> (#[trigger] entries@[k]).0@ == table.models()[k].name,
            pairs_map_of(entries@) == manifest_map_of(table.models().take(i as int)),
        decreases table.spec_methods().len() - i,
    {
        let e = table.entry(i);
        let pair = (e.name.clone(), clone_strings(&e.arg_names));
        proof {
            assert(table.models()[i as int] == table.spec_methods()[i as int].model());
            assert(pair.0@ == table.models()[i as int].name);
            assert(pair.1.deep_view() == table.models()[i as int].args);
        }
        let ghost prev = entries@;
        entries.push(pair);
        proof {
            assert(entries@.drop_last() =~= prev);
            assert(entries@.last() == pair);
            assert(table.models().take(i as int + 1).drop_last() =~= table.models().take(
                i as int,
            ));
            assert(table.models().take(i as int + 1).last() == table.models()[i as int]);
            assert(pairs_map_of(entries@) == manifest_map_of(table.models().take(i as int + 1)));
        }
        i = i + 1;
    }
    proof {
        assert(table.models().take(table.models().len() as int) =~= table.models());
        assert forall|i: int, j: int|
            0 <= i < j < entries@.len() implies entries@[i].0@ != entries@[j].0@ by {
            assert(table.models()[i].name != table.models()[j].name);
        }
    }
    args_json(&entries)
}

/// The argument-name manifests of every namespace of a router, keyed by
/// path prefix, in merge order — the document set the bindings export
/// consumes.
pub fn router_args_maps<H: TauRpcHandler>(router: &Router<H>) -> (r: Vec<(String, String)>)
    requires
        router.wf(),
    ensures
        r@.len() == router.spec_namespaces().len(),
        forall|i: int|
            0 <= i < r@.len() ==> (#[trigger] r@[i]).0@ == router.prefixes()[i] && r@[i].1@
                == json_of_args(
                manifest_map_of(router.spec_namespaces()[i].worker.spec_table().models()),
            ),
{
    let mut out: Vec<(String, String)> = Vec::new();
    let mut i: usize = 0;
    while i < router.len()
        invariant
            router.wf(),
            i <= router.spec_namespaces().len(),
            out@.len() == i,
            forall|k: int|
                0 <= k < i ==> (#[trigger] out@[k]).0@ == router.prefixes()[k] && out@[k].1@
                    == json_of_args(
                    manifest_map_of(router.spec_namespaces()[k].worker.spec_table().models()),
                ),
        decreases router.spec_namespaces().len() - i,
    {
        let e = router.entry(i);
        let json = args_map(e.worker.table());
        out.push((e.path_prefix.clone(), json));
        i = i + 1;
    }
    out
}

/// Whether `s` ends with `suffix`.
pub open spec fn ends_with(s: Seq<char>, suffix: Seq<char>) -> bool {
    s.len() >= suffix.len() && s.skip(s.len() - suffix.len()) == suffix
}

/// Whether the string `s` ends with `suffix` — used to validate that an
/// export path names a TypeScript file, and to recognize the default
/// package location.
pub fn str_ends_with(s: &str, suffix: &str) -> (r: bool)
    ensures
        r == ends_with(s@, suffix@),
{
    let n = s.unicode_len();
    let m = suffix.unicode_len();
    if n < m {
        return false;
    }
    let mut k: usize = 0;
    while k < m
        invariant
            k <= m,
            m <= n,
            n == s@.len(),
            m == suffix@.len(),
            forall|j: int| 0 <= j < k ==> s@[n - m + j] == suffix@[j],
        decreases m - k,
    {
        if s.get_char(n - m + k) != suffix.get_char(k) {
            proof {
                if s@.skip(n as int - m as int) == suffix@ {
                    assert(s@.skip(n as int - m as int)[k as int] == suffix@[k as int]);
                }
            }
            return false;
        }
        k = k + 1;
    }
    proof {
        assert(s@.skip(n as int - m as int) =~= suffix@);
    }
    true
}

/// The bindings export path: the path a namespace specified when there
/// is one, otherwise the caller's default (conventionally derived from
/// the working directory, which is the embedding application's concern).
pub fn get_export_path(export_path: Option<&str>, default_path: &str) -> (r: String)
    ensures
        r@ == match export_path {
            Some(p) => p@,
            None => default_path@,
        },
{
    match export_path {
        Some(p) => p.to_owned(),
        None => default_path.to_owned(),
    }
}

} // verus!
