//! The programs the user's tools were pointed at, kept for panels that are
//! created later.

use vstd::prelude::*;
use vstd::string::*;

use crate::effect::{Effect, EffectModel, PairTask};
use crate::text;

verus! {

/// A tool, and the program that stands for it.
#[derive(Debug, Clone, PartialEq, Eq)]
pub struct ToolPath<T = String> {
    pub tool: T,
    pub program: T,
}

impl ToolPath<String> {
    pub open spec fn model(self) -> ToolPath<Seq<char>> {
        ToolPath { tool: self.tool@, program: self.program@ }
    }
}

/// The list with its texts as sequences of characters.
pub open spec fn tools_model(list: Seq<ToolPath>) -> Seq<ToolPath<Seq<char>>> {
    list.map_values(|t: ToolPath| t.model())
}

/// The first entry for `tool`.
pub open spec fn tool_place(list: Seq<ToolPath<Seq<char>>>, tool: Seq<char>) -> Option<int>
    decreases list.len(),
{
    if list.len() == 0 {
        None
    } else if list[0].tool == tool {
        Some(0)
    } else {
        match tool_place(list.drop_first(), tool) {
            Some(i) => Some(i + 1),
            None => None,
        }
    }
}

/// `tool` pointed at `program`: its entry is replaced, or a new one goes to
/// the end.
pub open spec fn tool_set(
    list: Seq<ToolPath<Seq<char>>>,
    tool: Seq<char>,
    program: Seq<char>,
) -> Seq<ToolPath<Seq<char>>> {
    match tool_place(list, tool) {
        Some(i) => list.update(i, ToolPath { tool, program }),
        None => list.push(ToolPath { tool, program }),
    }
}

/// What applies the list to an installer, in its order.
pub open spec fn tool_effects(list: Seq<ToolPath<Seq<char>>>) -> Seq<EffectModel> {
    list.map_values(
        |t: ToolPath<Seq<char>>|
            Effect::<Seq<char>, Seq<u8>>::Pair(PairTask::SetInstallerTool, t.tool, t.program),
    )
}

proof fn tool_found(list: Seq<ToolPath<Seq<char>>>, tool: Seq<char>, i: int)
    requires
        0 <= i < list.len(),
        list[i].tool == tool,
        forall|k: int| 0 <= k < i ==> (#[trigger] list[k]).tool != tool,
    ensures
        tool_place(list, tool) == Some(i),
    decreases i,
{
    if i > 0 {
        assert(list[0].tool != tool);
        let rest = list.drop_first();
        assert forall|k: int| 0 <= k < i - 1 implies (#[trigger] rest[k]).tool != tool by {
            assert(rest[k] == list[k + 1]);
        }
        tool_found(rest, tool, i - 1);
    }
}

proof fn tool_absent(list: Seq<ToolPath<Seq<char>>>, tool: Seq<char>)
    requires
        forall|k: int| 0 <= k < list.len() ==> (#[trigger] list[k]).tool != tool,
    ensures
        tool_place(list, tool) is None,
    decreases list.len(),
{
    if list.len() > 0 {
        let rest = list.drop_first();
        assert forall|k: int| 0 <= k < rest.len() implies (#[trigger] rest[k]).tool != tool by {
            assert(rest[k] == list[k + 1]);
        }
        tool_absent(rest, tool);
    }
}

proof fn tool_placed(list: Seq<ToolPath<Seq<char>>>, tool: Seq<char>)
    ensures
        match tool_place(list, tool) {
            Some(i) => 0 <= i < list.len() && list[i].tool == tool && forall|k: int|
                0 <= k < i ==> (#[trigger] list[k]).tool != tool,
            None => forall|k: int| 0 <= k < list.len() ==> (#[trigger] list[k]).tool != tool,
        },
    decreases list.len(),
{
    if list.len() > 0 && list[0].tool != tool {
        let rest = list.drop_first();
        tool_placed(rest, tool);
        assert forall|k: int| 1 <= k < list.len() implies #[trigger] list[k] == rest[k - 1] by {}
    }
}

/// Points `tool` at `program` in the list.
pub fn set_tool(list: &mut Vec<ToolPath>, tool: String, program: String)
    ensures
        tools_model(final(list)@) == tool_set(tools_model(old(list)@), tool@, program@),
{
    let ghost before = tools_model(list@);
    let mut i: usize = 0;
    while i < list.len()
        invariant
            i <= list.len(),
            list@ == old(list)@,
            before == tools_model(list@),
            forall|k: int| 0 <= k < i ==> (#[trigger] before[k]).tool != tool@,
        decreases list.len() - i,
    {
        assert(before[i as int].tool == list@[i as int].tool@);
        if text::same(list[i].tool.as_str(), tool.as_str()) {
            proof {
                tool_found(before, tool@, i as int);
            }
            let entry = ToolPath { tool, program };
            let ghost model = entry.model();
            list.set(i, entry);
            assert(tools_model(list@) =~= before.update(i as int, model));
            return;
        }
        i = i + 1;
    }
    proof {
        tool_absent(before, tool@);
    }
    let entry = ToolPath { tool, program };
    let ghost model = entry.model();
    list.push(entry);
    assert(tools_model(list@) =~= before.push(model));
}

/// The program set last is the one kept for its tool, and no other tool's
/// changes.
pub proof fn the_program_set_last_is_kept(
    list: Seq<ToolPath<Seq<char>>>,
    tool: Seq<char>,
    program: Seq<char>,
)
    ensures
        ({
            let after = tool_set(list, tool, program);
            &&& tool_place(after, tool) matches Some(i) && after[i].program == program
            &&& forall|k: int|
                0 <= k < list.len() && (#[trigger] list[k]).tool != tool ==> after[k] == list[k]
        }),
{
    tool_placed(list, tool);
    let after = tool_set(list, tool, program);
    match tool_place(list, tool) {
        Some(i) => {
            assert forall|k: int| 0 <= k < i implies (#[trigger] after[k]).tool != tool by {
                assert(after[k] == list[k]);
            }
            tool_found(after, tool, i);
        },
        None => {
            assert forall|k: int| 0 <= k < list.len() implies (#[trigger] after[k]).tool
                != tool by {
                assert(after[k] == list[k]);
            }
            tool_found(after, tool, list.len() as int);
        },
    }
}

/// No tool is ever listed twice.
pub proof fn no_tool_is_listed_twice(
    list: Seq<ToolPath<Seq<char>>>,
    tool: Seq<char>,
    program: Seq<char>,
)
    requires
        forall|i: int, j: int|
            0 <= i < j < list.len() ==> (#[trigger] list[i]).tool != (#[trigger] list[j]).tool,
    ensures
        ({
            let after = tool_set(list, tool, program);
            forall|i: int, j: int|
                0 <= i < j < after.len() ==> (#[trigger] after[i]).tool != (
                #[trigger] after[j]).tool
        }),
{
    tool_placed(list, tool);
    let after = tool_set(list, tool, program);
    assert forall|i: int, j: int| 0 <= i < j < after.len() implies (#[trigger] after[i]).tool != (
    #[trigger] after[j]).tool by {
        assert(list[i].tool == after[i].tool);
        if j < list.len() {
            assert(list[j].tool == after[j].tool);
        }
    }
}

} // verus!
