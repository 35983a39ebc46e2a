//! The tool registry: a mapping from tool name to declaration, with
//! last-writer-wins registration and backend-neutral declarations.

use vstd::prelude::*;
use vstd::string::StringExecFns;
use crate::provider::{Tool, ToolModel};
use crate::text::str_eq;

verus! {

/// True when some declaration in `reg` bears `name`.
pub open spec fn reg_contains(reg: Seq<ToolModel>, name: Seq<char>) -> bool {
    exists|i: int| 0 <= i < reg.len() && reg[i].name == name
}

/// An index of a declaration bearing `name`; with unique names, the index.
pub open spec fn reg_index_of(reg: Seq<ToolModel>, name: Seq<char>) -> int {
    choose|i: int| 0 <= i < reg.len() && reg[i].name == name
}

/// The declaration bearing `name`.
pub open spec fn reg_lookup(reg: Seq<ToolModel>, name: Seq<char>) -> ToolModel {
    reg[reg_index_of(reg, name)]
}

/// Registered names are unique.
pub open spec fn reg_wf(reg: Seq<ToolModel>) -> bool {
    forall|i: int, j: int| 0 <= i < j < reg.len() ==> reg[i].name != reg[j].name
}

/// The registry of tools the model may call, in registration order.
pub struct ToolRegistry {
    tools: Vec<Tool>,
}

impl Default for ToolRegistry {
    /// An empty registry.
    fn default() -> (r: ToolRegistry)
        ensures
            r@ == Seq::<ToolModel>::empty(),
            r.wf(),
    {
        ToolRegistry::new()
    }
}

impl View for ToolRegistry {
    type V = Seq<ToolModel>;

    closed spec fn view(&self) -> Seq<ToolModel> {
        self.tools@.map_values(|t: Tool| t@)
    }
}

impl ToolRegistry {
    /// Names are unique; `new` establishes this and `register` preserves it.
    pub open spec fn wf(&self) -> bool {
        reg_wf(self@)
    }

    /// An empty registry.
    pub fn new() -> (r: ToolRegistry)
        ensures
            r@ == Seq::<ToolModel>::empty(),
            r.wf(),
    {
        let r = ToolRegistry { tools: Vec::new() };
        proof {
            assert(r@ =~= Seq::<ToolModel>::empty());
        }
        r
    }

    fn find_index(&self, name: &str) -> (r: Option<usize>)
        ensures
            match r {
                Some(i) => i < self@.len() && self@[i as int].name == name@ && (forall|j: int|
                    0 <= j < i ==> self@[j].name != name@),
                None => !reg_contains(self@, name@),
            },
    {
        let mut i: usize = 0;
        while i < self.tools.len()
            invariant
                i <= self.tools@.len(),
                self@.len() == self.tools@.len(),
                forall|j: int| 0 <= j < i ==> self@[j].name != name@,
            decreases self.tools@.len() - i,
        {
            if str_eq(self.tools[i].name.as_str(), name) {
                return Some(i);
            }
            i = i + 1;
        }
        None
    }

    /// Inserts a declaration under its name; a duplicate name silently
    /// overwrites the earlier declaration (last writer wins).
    pub fn register(&mut self, tool: Tool)
        requires
            old(self).wf(),
        ensures
            final(self).wf(),
            reg_contains(old(self)@, tool@.name) ==> final(self)@ == old(self)@.update(
                reg_index_of(old(self)@, tool@.name),
                tool@,
            ),
            !reg_contains(old(self)@, tool@.name) ==> final(self)@ == old(self)@.push(tool@),
            reg_contains(final(self)@, tool@.name),
            reg_lookup(final(self)@, tool@.name) == tool@,
    {
        let found = self.find_index(tool.name.as_str());
        match found {
            Some(i) => {
                self.tools.remove(i);
                self.tools.insert(i, tool);
                proof {
                    let k = reg_index_of(old(self)@, self.tools@[i as int]@.name);
                    assert(old(self)@[i as int].name == self@[i as int].name);
                    assert(k == i);
                    assert(self@ =~= old(self)@.update(i as int, self@[i as int]));
                    let m = reg_index_of(self@, self@[i as int].name);
                    assert(self@[i as int].name == self@[m].name);
                    assert(m == i);
                }
            },
            None => {
                self.tools.push(tool);
                proof {
                    let n = self.tools@.len() - 1;
                    assert(self@ =~= old(self)@.push(self@[n as int]));
                    let m = reg_index_of(self@, self@[n as int].name);
                    assert(self@[n as int].name == self@[m].name);
                    assert(m == n);
                }
            },
        }
    }

    /// Looks up a declaration by name.
    pub fn get(&self, name: &str) -> (r: Option<&Tool>)
        ensures
            match r {
                Some(t) => reg_contains(self@, name@) && t@.name == name@ && (exists|i: int|
                    0 <= i < self@.len() && self@[i] == t@) && (self.wf() ==> t@ == reg_lookup(
                    self@,
                    name@,
                )),
                None => !reg_contains(self@, name@),
            },
    {
        let found = self.find_index(name);
        match found {
            Some(i) => {
                let t = &self.tools[i];
                proof {
                    assert(reg_contains(self@, name@));
                    if self.wf() {
                        let m = reg_index_of(self@, name@);
                        assert(self@[m].name == name@);
                        assert(m == i);
                    }
                }
                Some(t)
            },
            None => None,
        }
    }

    /// The declarations handed to a backend, in registration order.
    pub fn get_all_for_llm(&self) -> (r: Vec<Tool>)
        ensures
            r@.map_values(|t: Tool| t@) == self@,
    {
        let mut out: Vec<Tool> = Vec::new();
        let mut i: usize = 0;
        while i < self.tools.len()
            invariant
                i <= self.tools@.len(),
                self@.len() == self.tools@.len(),
                out@.len() == i,
                forall|j: int| 0 <= j < i ==> out@[j]@ == self@[j],
            decreases self.tools@.len() - i,
        {
            let t = &self.tools[i];
            out.push(
                Tool {
                    name: t.name.clone(),
                    description: t.description.clone(),
                    input_schema: t.input_schema.clone(),
                },
            );
            i = i + 1;
        }
        proof {
            assert(out@.map_values(|t: Tool| t@) =~= self@);
        }
        out
    }

    /// The registered names, in registration order.
    pub fn list_tools(&self) -> (r: Vec<String>)
        ensures
            r@.len() == self@.len(),
            forall|i: int| 0 <= i < r@.len() ==> r@[i]@ == self@[i].name,
    {
        let mut out: Vec<String> = Vec::new();
        let mut i: usize = 0;
        while i < self.tools.len()
            invariant
                i <= self.tools@.len(),
                self@.len() == self.tools@.len(),
                out@.len() == i,
                forall|j: int| 0 <= j < i ==> out@[j]@ == self@[j].name,
            decreases self.tools@.len() - i,
        {
            out.push(self.tools[i].name.clone());
            i = i + 1;
        }
        out
    }
}

} // verus!
