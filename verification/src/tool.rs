use crate::prompt::ProviderOptions;
use serde_json::Value;
use std::collections::HashMap;
use vstd::prelude::*;

verus! {

/// The kind of a tool.
#[derive(Debug, Clone, PartialEq)]
pub enum ToolType {
    /// A tool with a known input schema, run by the application.
    Function,
    /// A tool whose input is not typed ahead of time.
    Dynamic,
    /// A tool that the provider defines and runs.
    ProviderDefined { id: String, name: String, args: HashMap<String, Value> },
}

/// Whether a call of the tool needs the user's approval before it runs.
#[derive(Debug, Clone, Copy, PartialEq, Eq)]
pub enum NeedsApproval {
    No,
    Yes,
    /// The tool's approval function decides, call by call.
    Function,
}

/// A tool that the model may call: what the model and the SDK need to know
/// of it. The functions that run it are held beside it by the application.
#[derive(Debug, Clone, PartialEq)]
pub struct Tool {
    pub description: Option<String>,
    pub provider_options: Option<ProviderOptions>,
    pub input_schema: Value,
    pub output_schema: Option<Value>,
    pub needs_approval: NeedsApproval,
    pub tool_type: ToolType,
}

impl Tool {
    /// A function tool with the given input schema.
    pub fn function(input_schema: Value) -> (t: Tool)
        ensures
            t == (Tool {
                description: None,
                provider_options: None,
                input_schema,
                output_schema: None,
                needs_approval: NeedsApproval::No,
                tool_type: ToolType::Function,
            }),
    {
        Tool {
            description: None,
            provider_options: None,
            input_schema,
            output_schema: None,
            needs_approval: NeedsApproval::No,
            tool_type: ToolType::Function,
        }
    }

    /// A dynamic tool with the given input schema.
    pub fn dynamic(input_schema: Value) -> (t: Tool)
        ensures
            t == (Tool {
                description: None,
                provider_options: None,
                input_schema,
                output_schema: None,
                needs_approval: NeedsApproval::No,
                tool_type: ToolType::Dynamic,
            }),
    {
        Tool {
            description: None,
            provider_options: None,
            input_schema,
            output_schema: None,
            needs_approval: NeedsApproval::No,
            tool_type: ToolType::Dynamic,
        }
    }

    /// A provider-defined tool.
    pub fn provider_defined(id: &str, name: &str, args: HashMap<String, Value>, input_schema: Value) -> (t: Tool)
        ensures
            t.description is None,
            t.provider_options is None,
            t.input_schema == input_schema,
            t.output_schema is None,
            t.needs_approval == NeedsApproval::No,
            t.tool_type matches ToolType::ProviderDefined { id: i, name: n, args: a }
                && i@ == id@ && n@ == name@ && a == args,
    {
        Tool {
            description: None,
            provider_options: None,
            input_schema,
            output_schema: None,
            needs_approval: NeedsApproval::No,
            tool_type: ToolType::ProviderDefined { id: id.to_owned(), name: name.to_owned(), args },
        }
    }

    pub fn with_description(self, description: &str) -> (t: Tool)
        ensures
            t.description matches Some(d) && d@ == description@,
            t.provider_options == self.provider_options,
            t.input_schema == self.input_schema,
            t.output_schema == self.output_schema,
            t.needs_approval == self.needs_approval,
            t.tool_type == self.tool_type,
    {
        Tool { description: Some(description.to_owned()), ..self }
    }

    pub fn with_provider_options(self, options: ProviderOptions) -> (t: Tool)
        ensures
            t == (Tool { provider_options: Some(options), ..self }),
    {
        Tool { provider_options: Some(options), ..self }
    }

    pub fn with_output_schema(self, schema: Value) -> (t: Tool)
        ensures
            t == (Tool { output_schema: Some(schema), ..self }),
    {
        Tool { output_schema: Some(schema), ..self }
    }

    /// Every call needs approval, or none does.
    pub fn with_needs_approval(self, needs_approval: bool) -> (t: Tool)
        ensures
            t == (Tool {
                needs_approval: if needs_approval { NeedsApproval::Yes } else { NeedsApproval::No },
                ..self
            }),
    {
        let needs = if needs_approval {
            NeedsApproval::Yes
        } else {
            NeedsApproval::No
        };
        Tool { needs_approval: needs, ..self }
    }

    /// The tool's approval function decides, call by call.
    pub fn with_needs_approval_function(self) -> (t: Tool)
        ensures
            t == (Tool { needs_approval: NeedsApproval::Function, ..self }),
    {
        Tool { needs_approval: NeedsApproval::Function, ..self }
    }

    pub fn is_function(&self) -> (b: bool)
        ensures
            b == (self.tool_type is Function),
    {
        match self.tool_type {
            ToolType::Function => true,
            _ => false,
        }
    }

    pub fn is_dynamic(&self) -> (b: bool)
        ensures
            b == (self.tool_type is Dynamic),
    {
        match self.tool_type {
            ToolType::Dynamic => true,
            _ => false,
        }
    }

    pub fn is_provider_defined(&self) -> (b: bool)
        ensures
            b == (self.tool_type is ProviderDefined),
    {
        match self.tool_type {
            ToolType::ProviderDefined { .. } => true,
            _ => false,
        }
    }
}

/// Whether approval is needed for a call: `Some(answer)` when the tool
/// settles it, `None` when the tool's approval function must be asked.
pub open spec fn approval_settled(n: NeedsApproval) -> Option<bool> {
    match n {
        NeedsApproval::No => Some(false),
        NeedsApproval::Yes => Some(true),
        NeedsApproval::Function => None,
    }
}

/// Decides whether a call of `tool` needs approval, when the tool settles it
/// without its approval function.
pub fn is_approval_needed(tool: &Tool) -> (r: Option<bool>)
    ensures
        r == approval_settled(tool.needs_approval),
{
    match tool.needs_approval {
        NeedsApproval::No => Some(false),
        NeedsApproval::Yes => Some(true),
        NeedsApproval::Function => None,
    }
}

pub(crate) use crate::text::str_eq;

/// The position of the entry named `name`.
pub open spec fn entry_index(entries: Seq<(String, Tool)>, name: Seq<char>) -> Option<int> {
    if exists|i: int| 0 <= i < entries.len() && (#[trigger] entries[i]).0@ == name {
        Some(choose|i: int| 0 <= i < entries.len() && (#[trigger] entries[i]).0@ == name)
    } else {
        None
    }
}

/// No two entries have the same name.
pub open spec fn names_distinct(entries: Seq<(String, Tool)>) -> bool {
    forall|i: int, j: int|
        0 <= i < entries.len() && 0 <= j < entries.len() && i != j ==> (#[trigger] entries[i]).0@
            != (#[trigger] entries[j]).0@
}

/// The tools that the model may call, by name. Names are distinct; the
/// tools are kept in the order in which they were first added.
#[derive(Debug, PartialEq)]
pub struct ToolSet {
    entries: Vec<(String, Tool)>,
}

impl ToolSet {
    #[verifier::type_invariant]
    spec fn distinct(&self) -> bool {
        names_distinct(self.entries@)
    }

    /// The named tools, in order.
    pub closed spec fn spec_entries(&self) -> Seq<(String, Tool)> {
        self.entries@
    }

    /// The tool named `name`, if there is one.
    pub open spec fn spec_get(&self, name: Seq<char>) -> Option<Tool> {
        match entry_index(self.spec_entries(), name) {
            Some(i) => Some(self.spec_entries()[i].1),
            None => None,
        }
    }

    pub fn new() -> (s: ToolSet)
        ensures
            s.spec_entries().len() == 0,
    {
        ToolSet { entries: Vec::new() }
    }

    pub fn len(&self) -> (n: usize)
        ensures
            n == self.spec_entries().len(),
    {
        self.entries.len()
    }

    pub fn is_empty(&self) -> (b: bool)
        ensures
            b == (self.spec_entries().len() == 0),
    {
        self.entries.len() == 0
    }

    fn position(&self, name: &str) -> (r: Option<usize>)
        ensures
            match r {
                Some(i) => i < self.spec_entries().len() && self.spec_entries()[i as int].0@ == name@,
                None => forall|i: int| 0 <= i < self.spec_entries().len() ==> (#[trigger] self.spec_entries()[i]).0@ != name@,
            },
    {
        let n = self.entries.len();
        let mut i: usize = 0;
        while i < n
            invariant
                n == self.entries@.len(),
                i <= n,
                forall|k: int| 0 <= k < i ==> (#[trigger] self.entries@[k]).0@ != name@,
            decreases n - i,
        {
            if str_eq(self.entries[i].0.as_str(), name) {
                return Some(i);
            }
            i = i + 1;
        }
        None
    }

    /// The tool named `name`.
    pub fn get(&self, name: &str) -> (r: Option<&Tool>)
        ensures
            match r {
                Some(t) => self.spec_get(name@) == Some(*t),
                None => self.spec_get(name@) is None,
            },
    {
        proof {
            use_type_invariant(self);
        }
        match self.position(name) {
            Some(i) => {
                let ghost es = self.spec_entries();
                assert(es[i as int].0@ == name@);
                let ghost j = entry_index(es, name@)->0;
                assert(j == i) by {
                    if j != i {
                        assert(es[j].0@ == name@);
                    }
                };
                Some(&self.entries[i].1)
            },
            None => None,
        }
    }

    /// Adds a tool under a name; a tool already under that name is replaced
    /// in its place.
    pub fn insert(&mut self, name: String, tool: Tool)
        ensures
            final(self).spec_get(name@) == Some(tool),
            forall|other: Seq<char>| other != name@ ==> final(self).spec_get(other) == old(self).spec_get(other),
    {
        proof {
            use_type_invariant(&*self);
        }
        let ghost old_es = self.entries@;
        let pos = self.position(name.as_str());
        let mut es: Vec<(String, Tool)> = Vec::new();
        std::mem::swap(&mut es, &mut self.entries);
        match pos {
            Some(i) => {
                es.set(i, (name, tool));
                assert(names_distinct(es@)) by {
                    assert forall|a: int, b: int|
                        0 <= a < es@.len() && 0 <= b < es@.len() && a != b implies (
                        #[trigger] es@[a]).0@ != (#[trigger] es@[b]).0@ by {
                        assert(old_es[a].0@ != old_es[b].0@);
                    }
                }
            },
            None => {
                es.push((name, tool));
            },
        }
        self.entries = es;
        proof {
            let es = self.entries@;
            let k = entry_index(es, name@)->0;
            assert forall|other: Seq<char>| other != name@ implies self.spec_get(other) == old(self).spec_get(other) by {
                if exists|i: int| 0 <= i < old_es.len() && (#[trigger] old_es[i]).0@ == other {
                    let j = choose|i: int| 0 <= i < old_es.len() && (#[trigger] old_es[i]).0@ == other;
                    assert(es[j].0@ == other);
                    let jj = entry_index(es, other)->0;
                    assert(jj == j) by {
                        if jj != j {
                            assert(es[jj].0@ == other);
                        }
                    }
                    let jo = entry_index(old_es, other)->0;
                    assert(jo == j) by {
                        if jo != j {
                            assert(old_es[jo].0@ == other);
                        }
                    }
                } else {
                    assert forall|i: int| 0 <= i < es.len() implies (#[trigger] es[i]).0@ != other by {
                        if i < old_es.len() {
                            assert(old_es[i].0@ != other);
                        }
                    }
                }
            }
            let p = if pos is Some { pos->0 as int } else { es.len() - 1 };
            assert(es[p].0@ == name@ && es[p].1 == tool);
            assert(k == p) by {
                if k != p {
                    assert(es[k].0@ == name@);
                }
            }
        }
    }

    /// The names of the tools, in order.
    pub fn names(&self) -> (r: Vec<String>)
        ensures
            r@.len() == self.spec_entries().len(),
            forall|i: int| 0 <= i < r@.len() ==> (#[trigger] r@[i]) == self.spec_entries()[i].0,
    {
        let mut r: Vec<String> = Vec::new();
        let n = self.entries.len();
        let mut i: usize = 0;
        while i < n
            invariant
                n == self.entries@.len(),
                i <= n,
                r@.len() == i,
                forall|k: int| 0 <= k < i ==> (#[trigger] r@[k]) == self.entries@[k].0,
            decreases n - i,
        {
            r.push(self.entries[i].0.clone());
            i = i + 1;
        }
        r
    }

    /// The `i`-th named tool.
    pub fn entry(&self, i: usize) -> (r: (&String, &Tool))
        requires
            i < self.spec_entries().len(),
        ensures
            *r.0 == self.spec_entries()[i as int].0,
            *r.1 == self.spec_entries()[i as int].1,
    {
        (&self.entries[i].0, &self.entries[i].1)
    }
}

} // verus!
