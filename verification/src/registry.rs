//! Per-namespace dispatch tables.
//!
//! A [`DispatchTable`] is the immutable, per-namespace mapping from command
//! name to handler method, together with each method's ordered argument-name
//! manifest (used by clients to marshal named arguments). Tables are built
//! once, from explicit [`IpcMethod`] registrations, before a namespace is
//! merged into a router; command names within one table are unique by
//! construction, so dispatch never has to re-check them.

use vstd::prelude::*;
use crate::command::str_eq;

verus! {

/// Registration flags for one method: `skip` leaves it out of the table
/// entirely, `alias` dispatches it under a different command name, and
/// `is_event` marks an outbound event stub that has no handler and can
/// never be invoked as a command.
#[derive(Debug)]
pub struct MethodAttrs {
    pub skip: bool,
    pub alias: Option<String>,
    pub is_event: bool,
}

impl Default for MethodAttrs {
    /// No flags: dispatched under its own name, as an ordinary command.
    fn default() -> (r: Self)
        ensures
            !r.skip,
            r.alias is None,
            !r.is_event,
    {
        MethodAttrs { skip: false, alias: None, is_event: false }
    }
}

/// Argument names that the transport binds itself (to the window, the
/// shared state, or the application handle); they are never marshalled by
/// the client and so are skipped in the argument-name manifest.
pub open spec fn is_reserved_arg(n: Seq<char>) -> bool {
    n == "window"@ || n == "state"@ || n == "app_handle"@ || n == "webview_window"@
}

/// One declared argument of a method: its name, and whether it is skipped
/// in the exported argument-name manifest.
#[derive(Debug)]
pub struct Arg {
    pub name: String,
    pub skip_type: bool,
}

impl Arg {
    /// Classifies an argument by its name: reserved names are excluded from
    /// the manifest, every other name is kept.
    pub fn from_name(name: String) -> (r: Arg)
        ensures
            r.name == name,
            r.skip_type == is_reserved_arg(name@),
    {
        let skip_type = str_eq(name.as_str(), "window") || str_eq(name.as_str(), "state")
            || str_eq(name.as_str(), "app_handle") || str_eq(name.as_str(), "webview_window");
        Arg { name, skip_type }
    }
}

/// One method registration: the method's own name, its ordered arguments,
/// and its flags.
#[derive(Debug)]
pub struct IpcMethod {
    pub name: String,
    pub args: Vec<Arg>,
    pub attrs: MethodAttrs,
}

impl IpcMethod {
    /// The command name the method is dispatched under: its alias when one
    /// was given, otherwise its own name.
    pub open spec fn spec_used_name(self) -> Seq<char> {
        match self.attrs.alias {
            Some(a) => a@,
            None => self.name@,
        }
    }
}

/// The ordered argument-name manifest of a method: the names of its
/// arguments, in declaration order, with reserved arguments left out.
pub open spec fn manifest_of(args: Seq<Arg>) -> Seq<Seq<char>>
    decreases args.len(),
{
    if args.len() == 0 {
        Seq::empty()
    } else {
        let init = manifest_of(args.drop_last());
        if args.last().skip_type {
            init
        } else {
            init.push(args.last().name@)
        }
    }
}

/// Method names that collide with the functions every namespace facade
/// already provides; registering one is a programming error.
pub open spec fn is_reserved_method(n: Seq<char>) -> bool {
    n == "into_handler"@ || n == "setup"@ || n == "send_to"@
}

/// The mathematical content of one dispatch-table entry.
pub struct MethodModel {
    pub name: Seq<char>,
    pub args: Seq<Seq<char>>,
    pub is_event: bool,
}

/// The model of the entry a registration produces.
pub open spec fn entry_model(m: IpcMethod) -> MethodModel {
    MethodModel {
        name: m.spec_used_name(),
        args: manifest_of(m.args@),
        is_event: m.attrs.is_event,
    }
}

/// The table a sequence of registrations builds, in order, with skipped
/// methods left out.
pub open spec fn table_model(ms: Seq<IpcMethod>) -> Seq<MethodModel>
    decreases ms.len(),
{
    if ms.len() == 0 {
        Seq::empty()
    } else {
        let init = table_model(ms.drop_last());
        let m = ms.last();
        if m.attrs.skip {
            init
        } else {
            init.push(entry_model(m))
        }
    }
}

/// The command names a sequence of registrations occupies.
pub open spec fn used_names(ms: Seq<IpcMethod>) -> Seq<Seq<char>> {
    table_model(ms).map_values(|e: MethodModel| e.name)
}

/// The first registration fault in a sequence of registrations, if any: a
/// reserved method name, or a command name already taken by an earlier
/// registration.
pub enum TableFault {
    Reserved(Seq<char>),
    Duplicate(Seq<char>),
}

/// Scans registrations in order and reports the first fault.
pub open spec fn build_fault(ms: Seq<IpcMethod>) -> Option<TableFault>
    decreases ms.len(),
{
    if ms.len() == 0 {
        None
    } else {
        match build_fault(ms.drop_last()) {
            Some(f) => Some(f),
            None => {
                let m = ms.last();
                if m.attrs.skip {
                    None
                } else if is_reserved_method(m.name@) {
                    Some(TableFault::Reserved(m.name@))
                } else if used_names(ms.drop_last()).contains(m.spec_used_name()) {
                    Some(TableFault::Duplicate(m.spec_used_name()))
                } else {
                    None
                }
            },
        }
    }
}

/// A fault found while building a dispatch table. Both variants are
/// programming errors: they surface at build time, before any dispatch.
#[derive(Debug, PartialEq)]
pub enum RegistryError {
    /// The named method collides with a generated facade function.
    ReservedMethodName(String),
    /// A second method claimed the named command name.
    DuplicateMethodName(String),
}

/// One entry of a built dispatch table: the command name, the ordered
/// argument-name manifest, and whether the entry is an event stub.
#[derive(Debug)]
pub struct MethodEntry {
    pub name: String,
    pub arg_names: Vec<String>,
    pub is_event: bool,
}

impl MethodEntry {
    /// The mathematical content of this entry.
    pub open spec fn model(self) -> MethodModel {
        MethodModel { name: self.name@, args: self.arg_names.deep_view(), is_event: self.is_event }
    }
}

/// A per-namespace, immutable mapping from command name to handler method,
/// with each method's argument-name manifest. Command names are unique.
#[derive(Debug)]
pub struct DispatchTable {
    methods: Vec<MethodEntry>,
}

impl DispatchTable {
    /// The entries of the table, in registration order.
    pub closed spec fn spec_methods(self) -> Seq<MethodEntry> {
        self.methods@
    }

    /// The mathematical content of the table.
    pub open spec fn models(self) -> Seq<MethodModel> {
        self.spec_methods().map_values(|e: MethodEntry| e.model())
    }

    /// Well-formedness: no two entries share a command name.
    pub open spec fn wf(self) -> bool {
        forall|i: int, j: int|
            0 <= i < j < self.models().len() ==> self.models()[i].name != self.models()[j].name
    }

    /// Whether `n` names an invokable command of this table: a non-event
    /// entry with that command name.
    pub open spec fn has_command(self, n: Seq<char>) -> bool {
        exists|i: int|
            0 <= i < self.models().len() && self.models()[i].name == n
                && !self.models()[i].is_event
    }

    /// The number of entries in the table.
    pub fn len(&self) -> (r: usize)
        ensures
            r == self.spec_methods().len(),
    {
        self.methods.len()
    }

    /// The entry at position `i`, in registration order.
    pub fn entry(&self, i: usize) -> (r: &MethodEntry)
        requires
            i < self.spec_methods().len(),
        ensures
            r == self.spec_methods()[i as int],
    {
        &self.methods[i]
    }

    /// Finds the invokable (non-event) entry dispatched under `method`.
    pub fn lookup(&self, method: &str) -> (r: Option<usize>)
        ensures
            match r {
                Some(i) => i < self.models().len() && self.models()[i as int].name == method@
                    && !self.models()[i as int].is_event && self.has_command(method@),
                None => !self.has_command(method@),
            },
    {
        let mut i: usize = 0;
        while i < self.methods.len()
            invariant
                i <= self.methods.len(),
                forall|j: int|
                    0 <= j < i ==> !(self.models()[j].name == method@ && !self.models()[j].is_event),
            decreases self.methods.len() - i,
        {
            if !self.methods[i].is_event && str_eq(self.methods[i].name.as_str(), method) {
                return Some(i);
            }
            i = i + 1;
        }
        None
    }
}

/// Attributes of one handler group's registration: the name under which
/// its event-trigger facade is generated, the file its bindings are
/// exported to, and its routing path prefix (empty for the root
/// namespace).
#[derive(Debug)]
pub struct ProceduresAttrs {
    pub event_trigger_ident: Option<String>,
    pub export_to: Option<String>,
    pub path: String,
}

impl Default for ProceduresAttrs {
    /// No trigger name, no export override, and the root (empty) prefix.
    fn default() -> (r: Self)
        ensures
            r.event_trigger_ident is None,
            r.export_to is None,
            r.path@ == Seq::<char>::empty(),
    {
        ProceduresAttrs { event_trigger_ident: None, export_to: None, path: String::new() }
    }
}

/// One handler group's declared interface: its display name and its
/// ordered method registrations.
#[derive(Debug)]
pub struct Procedures {
    pub ident: String,
    pub methods: Vec<IpcMethod>,
}

/// If a prefix of the registrations already contains a fault, every
/// extension reports that same first fault.
proof fn lemma_fault_persists(ms: Seq<IpcMethod>, n: int)
    requires
        0 <= n <= ms.len(),
        build_fault(ms.take(n)) is Some,
    ensures
        build_fault(ms) == build_fault(ms.take(n)),
    decreases ms.len() - n,
{
    if n == ms.len() {
        assert(ms.take(n) =~= ms);
    } else {
        assert(ms.take(n + 1).drop_last() =~= ms.take(n));
        assert(build_fault(ms.take(n + 1)) == build_fault(ms.take(n)));
        lemma_fault_persists(ms, n + 1);
    }
}

/// Builds the dispatch table for one namespace from its registrations,
/// in order. Fails, before any dispatch can occur, on the first method
/// whose name is reserved or whose command name is already taken.
#[verifier::loop_isolation(false)]
pub fn build_dispatch_table(methods: Vec<IpcMethod>) -> (r: Result<DispatchTable, RegistryError>)
    ensures
        match r {
            Ok(t) => build_fault(methods@) is None && t.wf() && t.models() == table_model(
                methods@,
            ),
            Err(e) => match e {
                RegistryError::ReservedMethodName(n) => build_fault(methods@) == Some(
                    TableFault::Reserved(n@),
                ),
                RegistryError::DuplicateMethodName(n) => build_fault(methods@) == Some(
                    TableFault::Duplicate(n@),
                ),
            },
        },
{
    let ghost ms = methods@;
    let mut out: Vec<MethodEntry> = Vec::new();
    let mut idx: usize = 0;
    while idx < methods.len()
        invariant
            idx <= methods.len(),
            ms == methods@,
            build_fault(ms.take(idx as int)) is None,
            out@.map_values(|e: MethodEntry| e.model()) == table_model(ms.take(idx as int)),
            forall|i: int, j: int|
                0 <= i < j < out@.len() ==> out@[i].model().name != out@[j].model().name,
        decreases methods.len() - idx,
    {
        proof {
            assert(ms.take(idx as int + 1).drop_last() =~= ms.take(idx as int));
            assert(ms.take(idx as int + 1).last() == ms[idx as int]);
        }
        let m = &methods[idx];
        if m.attrs.skip {
            proof {
                assert(table_model(ms.take(idx as int + 1)) == table_model(ms.take(idx as int)));
            }
            idx = idx + 1;
            continue;
        }
        if str_eq(m.name.as_str(), "into_handler") || str_eq(m.name.as_str(), "setup") || str_eq(
            m.name.as_str(),
            "send_to",
        ) {
            proof {
                assert(build_fault(ms.take(idx as int + 1)) == Some(
                    TableFault::Reserved(m.name@),
                ));
                lemma_fault_persists(ms, idx as int + 1);
            }
            return Err(RegistryError::ReservedMethodName(m.name.clone()));
        }
        let used: String = match &m.attrs.alias {
            Some(a) => a.clone(),
            None => m.name.clone(),
        };
        let ghost models_so_far = table_model(ms.take(idx as int));
        let mut k: usize = 0;
        while k < out.len()
            invariant
                k <= out.len(),
                used@ == ms[idx as int].spec_used_name(),
                out@.map_values(|e: MethodEntry| e.model()) == models_so_far,
                forall|j: int| 0 <= j < k ==> out@[j].model().name != used@,
            decreases out.len() - k,
        {
            if str_eq(out[k].name.as_str(), used.as_str()) {
                proof {
                    let names = used_names(ms.take(idx as int));
                    assert(out@.map_values(|e: MethodEntry| e.model())[k as int] == out@[
                        k as int
                    ].model());
                    assert(table_model(ms.take(idx as int))[k as int].name == used@);
                    assert(names[k as int] == used@);
                    assert(names.contains(used@));
                    assert(build_fault(ms.take(idx as int + 1)) == Some(
                        TableFault::Duplicate(used@),
                    ));
                    lemma_fault_persists(ms, idx as int + 1);
                }
                return Err(RegistryError::DuplicateMethodName(used));
            }
            k = k + 1;
        }
        proof {
            let names = used_names(ms.take(idx as int));
            assert forall|j: int| 0 <= j < names.len() implies names[j] != used@ by {
                assert(names[j] == out@[j].model().name);
            }
            assert(!names.contains(used@));
        }
        let mut arg_names: Vec<String> = Vec::new();
        let mut a: usize = 0;
        while a < m.args.len()
            invariant
                a <= m.args.len(),
                m == &methods@[idx as int],
                idx < methods@.len(),
                ms == methods@,
                arg_names@.map_values(|s: String| s@) == manifest_of(m.args@.take(a as int)),
            decreases m.args.len() - a,
        {
            proof {
                assert(m.args@.take(a as int + 1).drop_last() =~= m.args@.take(a as int));
                assert(m.args@.take(a as int + 1).last() == m.args@[a as int]);
            }
            if !m.args[a].skip_type {
                arg_names.push(m.args[a].name.clone());
                proof {
                    assert(arg_names@.map_values(|s: String| s@) =~= manifest_of(
                        m.args@.take(a as int + 1),
                    ));
                }
            } else {
                proof {
                    assert(arg_names@.map_values(|s: String| s@) == manifest_of(
                        m.args@.take(a as int + 1),
                    ));
                }
            }
            a = a + 1;
        }
        proof {
            assert(m.args@.take(m.args@.len() as int) =~= m.args@);
        }
        let entry = MethodEntry { name: used, arg_names, is_event: m.attrs.is_event };
        proof {
            assert(entry.model().args =~= manifest_of(m.args@));
            assert(entry.model() == entry_model(ms[idx as int]));
        }
        out.push(entry);
        proof {
            assert(out@.map_values(|e: MethodEntry| e.model()) =~= table_model(
                ms.take(idx as int + 1),
            ));
            assert(build_fault(ms.take(idx as int + 1)) is None);
        }
        idx = idx + 1;
    }
    proof {
        assert(ms.take(methods@.len() as int) =~= ms);
    }
    Ok(DispatchTable { methods: out })
}

} // verus!
