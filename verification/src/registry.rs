//! A name-keyed registry of tools. Registering under an existing name
//! replaces the previous binding; names are unique within one registry.

use vstd::prelude::*;
use crate::json::str_eq;
use crate::tool::Tool;
use crate::tool::ToolDefinition;

verus! {

/// A registry of tools, keyed by tool name.
pub struct ToolRegistry<T: Tool> {
    tools: Vec<(String, T)>,
}

impl<T: Tool> ToolRegistry<T> {
    /// The bindings held, in insertion order.
    pub closed spec fn entries(self) -> Seq<(String, T)> {
        self.tools@
    }

    /// Well-formedness: every binding is keyed by its tool's own name, and
    /// no name appears twice.
    pub open spec fn wf(self) -> bool {
        &&& forall|i: int|
            0 <= i < self.entries().len() ==> (#[trigger] self.entries()[i]).0@
                == self.entries()[i].1.spec_name()
        &&& forall|i: int, j: int|
            0 <= i < j < self.entries().len() ==> (#[trigger] self.entries()[i]).0@ != (
            #[trigger] self.entries()[j]).0@
    }

    /// Whether some tool is registered under `name`.
    pub open spec fn contains_name(self, name: Seq<char>) -> bool {
        exists|i: int| 0 <= i < self.entries().len() && (#[trigger] self.entries()[i]).0@ == name
    }

    /// Whether `tool` is registered under `name`.
    pub open spec fn has_binding(self, name: Seq<char>, tool: T) -> bool {
        exists|i: int|
            0 <= i < self.entries().len() && (#[trigger] self.entries()[i]).0@ == name
                && self.entries()[i].1 == tool
    }

    /// A fresh, empty registry.
    pub fn new() -> (r: ToolRegistry<T>)
        ensures
            r.wf(),
            r.entries().len() == 0,
    {
        ToolRegistry { tools: Vec::new() }
    }

    /// The index of the binding named `name`, if any.
    #[verifier::loop_isolation(false)]
    fn find_index(&self, name: &str) -> (r: Option<usize>)
        ensures
            match r {
                Some(i) => i < self.entries().len() && self.entries()[i as int].0@ == name@,
                None => forall|j: int|
                    0 <= j < self.entries().len() ==> (#[trigger] self.entries()[j]).0@ != name@,
            },
    {
        let mut i: usize = 0;
        while i < self.tools.len()
            invariant
                i <= self.entries().len(),
                forall|j: int| 0 <= j < i ==> (#[trigger] self.entries()[j]).0@ != name@,
            decreases self.entries().len() - i,
        {
            if str_eq(self.tools[i].0.as_str(), name) {
                return Some(i);
            }
            i += 1;
        }
        None
    }

    /// Registers `tool` under its own name; an existing binding of that name
    /// is replaced, every other binding is kept in place.
    pub fn register(&mut self, tool: T)
        requires
            old(self).wf(),
        ensures
            final(self).wf(),
            final(self).has_binding(tool.spec_name(), tool),
            forall|n: Seq<char>| #![auto]
                final(self).contains_name(n) <==> old(self).contains_name(n) || n
                    == tool.spec_name(),
            forall|j: int|
                0 <= j < old(self).entries().len() && (#[trigger] old(self).entries()[j]).0@
                    != tool.spec_name() ==> final(self).entries()[j] == old(self).entries()[j],
            final(self).entries().len() == old(self).entries().len() + (if old(
                self,
            ).contains_name(tool.spec_name()) {
                0int
            } else {
                1int
            }),
    {
        let name = tool.name();
        let found = self.find_index(name.as_str());
        match found {
            Some(i) => {
                self.tools[i] = (name, tool);
                proof {
                    assert(self.entries() =~= old(self).entries().update(
                        i as int,
                        self.entries()[i as int],
                    ));
                    assert forall|n: Seq<char>| #![auto]
                        self.contains_name(n) implies old(self).contains_name(n) || n
                        == tool.spec_name() by {
                        let k = choose|k: int|
                            0 <= k < self.entries().len() && (#[trigger] self.entries()[k]).0@ == n;
                        if k != i {
                            assert(old(self).entries()[k].0@ == n);
                        }
                    }
                    assert forall|n: Seq<char>| #![auto]
                        old(self).contains_name(n) || n == tool.spec_name() implies self.contains_name(n) by {
                        if n == tool.spec_name() {
                            assert(self.entries()[i as int].0@ == n);
                        } else {
                            let k = choose|k: int|
                                0 <= k < old(self).entries().len() && (#[trigger] old(self).entries()[k]).0@ == n;
                            assert(old(self).entries()[i as int].0@ == tool.spec_name());
                            assert(k != i);
                            assert(self.entries()[k].0@ == n);
                        }
                    }
                    assert(old(self).contains_name(tool.spec_name()));
                }
            }
            None => {
                self.tools.push((name, tool));
                proof {
                    let len = old(self).entries().len() as int;
                    assert(self.entries() =~= old(self).entries().push(
                        self.entries()[len],
                    ));
                    assert(self.entries()[len].0@ == tool.spec_name());
                    assert forall|n: Seq<char>| #![auto]
                        self.contains_name(n) implies old(self).contains_name(n) || n
                        == tool.spec_name() by {
                        let k = choose|k: int|
                            0 <= k < self.entries().len() && (#[trigger] self.entries()[k]).0@ == n;
                        if k != len {
                            assert(old(self).entries()[k].0@ == n);
                        }
                    }
                    assert forall|n: Seq<char>| #![auto]
                        old(self).contains_name(n) || n == tool.spec_name() implies self.contains_name(n) by {
                        if n == tool.spec_name() {
                            assert(self.entries()[len].0@ == n);
                        } else {
                            let k = choose|k: int|
                                0 <= k < old(self).entries().len() && (#[trigger] old(self).entries()[k]).0@ == n;
                            assert(self.entries()[k].0@ == n);
                        }
                    }
                    assert(!old(self).contains_name(tool.spec_name()));
                }
            }
        }
    }

    /// Removes the binding named `name`; bindings of every other name are
    /// untouched.
    pub fn unregister(&mut self, name: &str) -> (r: Option<T>)
        requires
            old(self).wf(),
        ensures
            final(self).wf(),
            !final(self).contains_name(name@),
            r is Some <==> old(self).contains_name(name@),
            r matches Some(t) ==> old(self).has_binding(name@, t),
            forall|n: Seq<char>, t: T| #![auto]
                n != name@ ==> (final(self).has_binding(n, t) <==> old(self).has_binding(n, t)),
            final(self).entries().len() == old(self).entries().len() - (if old(
                self,
            ).contains_name(name@) {
                1int
            } else {
                0int
            }),
    {
        let found = self.find_index(name);
        match found {
            Some(i) => {
                let (_key, tool) = self.tools.remove(i);
                proof {
                    let olde = old(self).entries();
                    let newe = self.entries();
                    assert(newe =~= olde.subrange(0, i as int) + olde.subrange(
                        i + 1 as int,
                        olde.len() as int,
                    ));
                    assert forall|k: int| 0 <= k < newe.len() implies (#[trigger] newe[k])
                        == (if k < i { olde[k] } else { olde[k + 1] }) by {}
                    assert forall|n: Seq<char>|
                        #![auto]
                        self.contains_name(n) implies n != name@ && old(self).contains_name(n) by {
                        let k = choose|k: int|
                            0 <= k < newe.len() && (#[trigger] newe[k]).0@ == n;
                        if k < i {
                            assert(olde[k].0@ == n);
                            assert(k != i);
                        } else {
                            assert(olde[k + 1].0@ == n);
                        }
                    }
                    assert forall|n: Seq<char>, t: T| #![auto]
                        n != name@ && old(self).has_binding(n, t) implies self.has_binding(n, t) by {
                        let k = choose|k: int|
                            0 <= k < olde.len() && (#[trigger] olde[k]).0@ == n && olde[k].1 == t;
                        assert(k != i);
                        if k < i {
                            assert(newe[k].0@ == n && newe[k].1 == t);
                        } else {
                            assert(newe[k - 1].0@ == n && newe[k - 1].1 == t);
                        }
                    }
                    assert forall|n: Seq<char>, t: T| #![auto]
                        n != name@ && self.has_binding(n, t) implies old(self).has_binding(n, t) by {
                        let k = choose|k: int|
                            0 <= k < newe.len() && (#[trigger] newe[k]).0@ == n && newe[k].1 == t;
                        if k < i {
                            assert(olde[k].0@ == n && olde[k].1 == t);
                        } else {
                            assert(olde[k + 1].0@ == n && olde[k + 1].1 == t);
                        }
                    }
                    assert(old(self).entries()[i as int].0@ == name@);
                }
                Some(tool)
            }
            None => {
                None
            }
        }
    }

    /// The tool registered under `name`, if any.
    pub fn get<'a>(&'a self, name: &str) -> (r: Option<&'a T>)
        ensures
            r matches Some(t) ==> self.has_binding(name@, *t),
            r is None ==> !self.contains_name(name@),
    {
        let found = self.find_index(name);
        match found {
            Some(i) => Some(&self.tools[i].1),
            None => None,
        }
    }

    /// All registered tools, in insertion order.
    #[verifier::loop_isolation(false)]
    pub fn list<'a>(&'a self) -> (r: Vec<&'a T>)
        ensures
            r@.len() == self.entries().len(),
            forall|i: int| 0 <= i < r@.len() ==> *(#[trigger] r@[i]) == self.entries()[i].1,
    {
        let mut out: Vec<&T> = Vec::new();
        let mut i: usize = 0;
        while i < self.tools.len()
            invariant
                i <= self.entries().len(),
                out@.len() == i,
                forall|j: int| 0 <= j < i ==> *(#[trigger] out@[j]) == self.entries()[j].1,
            decreases self.entries().len() - i,
        {
            out.push(&self.tools[i].1);
            i += 1;
        }
        out
    }

    /// The number of registered tools.
    pub fn len(&self) -> (n: usize)
        ensures
            n == self.entries().len(),
    {
        self.tools.len()
    }

    /// Whether the registry holds no tools.
    pub fn is_empty(&self) -> (r: bool)
        ensures
            r == (self.entries().len() == 0),
    {
        self.tools.len() == 0
    }

    /// The definition of every registered tool, one per binding, in
    /// insertion order.
    #[verifier::loop_isolation(false)]
    pub fn to_tool_definitions(&self) -> (r: Vec<ToolDefinition>)
        ensures
            r@.len() == self.entries().len(),
            forall|i: int|
                0 <= i < r@.len() ==> (#[trigger] r@[i]).name@ == self.entries()[i].1.spec_name()
                    && r@[i].description@ == self.entries()[i].1.spec_description()
                    && r@[i].input_schema@ == self.entries()[i].1.spec_schema(),
    {
        let mut out: Vec<ToolDefinition> = Vec::new();
        let mut i: usize = 0;
        while i < self.tools.len()
            invariant
                i <= self.entries().len(),
                out@.len() == i,
                forall|j: int|
                    0 <= j < i ==> (#[trigger] out@[j]).name@ == self.entries()[j].1.spec_name()
                        && out@[j].description@ == self.entries()[j].1.spec_description()
                        && out@[j].input_schema@ == self.entries()[j].1.spec_schema(),
            decreases self.entries().len() - i,
        {
            let def = self.tools[i].1.to_definition();
            out.push(def);
            i += 1;
        }
        out
    }
}

/// In a well-formed registry a name binds at most one tool, so a lookup's
/// answer is determined: two lookups of one name on one registry state see
/// the same handle.
pub proof fn lemma_get_deterministic<T: Tool>(
    reg: ToolRegistry<T>,
    name: Seq<char>,
    t1: T,
    t2: T,
)
    requires
        reg.wf(),
        reg.has_binding(name, t1),
        reg.has_binding(name, t2),
    ensures
        t1 == t2,
{
    let i = choose|i: int|
        0 <= i < reg.entries().len() && (#[trigger] reg.entries()[i]).0@ == name
            && reg.entries()[i].1 == t1;
    let j = choose|j: int|
        0 <= j < reg.entries().len() && (#[trigger] reg.entries()[j]).0@ == name
            && reg.entries()[j].1 == t2;
    if i < j {
        assert(reg.entries()[i].0@ != reg.entries()[j].0@);
    } else if j < i {
        assert(reg.entries()[j].0@ != reg.entries()[i].0@);
    }
}

/// Every binding of a well-formed registry surfaces in the definition list,
/// unmodified: the definition at its position carries exactly the tool's
/// name, description and schema.
pub proof fn lemma_registered_tool_surfaced<T: Tool>(
    reg: ToolRegistry<T>,
    defs: Seq<ToolDefinition>,
    name: Seq<char>,
    t: T,
)
    requires
        reg.has_binding(name, t),
        defs.len() == reg.entries().len(),
        forall|i: int|
            0 <= i < defs.len() ==> (#[trigger] defs[i]).name@ == reg.entries()[i].1.spec_name()
                && defs[i].description@ == reg.entries()[i].1.spec_description()
                && defs[i].input_schema@ == reg.entries()[i].1.spec_schema(),
    ensures
        exists|i: int|
            0 <= i < defs.len() && (#[trigger] defs[i]).name@ == t.spec_name()
                && defs[i].description@ == t.spec_description() && defs[i].input_schema@
                == t.spec_schema(),
{
    let k = choose|k: int|
        0 <= k < reg.entries().len() && (#[trigger] reg.entries()[k]).0@ == name
            && reg.entries()[k].1 == t;
    assert(defs[k].name@ == t.spec_name() && defs[k].description@ == t.spec_description()
        && defs[k].input_schema@ == t.spec_schema());
}

} // verus!
