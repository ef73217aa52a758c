use vstd::prelude::*;
use core::marker::PhantomData;

verus! {

/// A tool that can be placed in one of the status bar's groups.
#[derive(PartialEq, Eq, Structural)]
pub enum Tool {
    ProjectPanel,
    CollaborationPanel,
    Terminal,
    Assistant,
    Feedback,
    Diagnostics,
}

impl Default for Tool {
    fn default() -> (r: Tool)
        ensures
            r == Tool::ProjectPanel,
    {
        Tool::ProjectPanel
    }
}

/// An ordered group of tools, one of which may be marked active.
pub struct ToolGroup {
    pub active_index: Option<usize>,
    pub tools: Vec<Tool>,
}

impl Default for ToolGroup {
    fn default() -> (r: ToolGroup)
        ensures
            r.active_index is None,
            r.tools@.len() == 0,
    {
        ToolGroup { active_index: None, tools: Vec::new() }
    }
}

/// The tools of an optional group: none when the group is absent.
pub open spec fn group_tools(g: Option<ToolGroup>) -> Seq<Tool> {
    match g {
        Some(g) => g.tools@,
        None => Seq::empty(),
    }
}

/// The status bar at the bottom of a window, with up to three tool groups.
pub struct StatusBar<V> {
    pub view_type: PhantomData<V>,
    pub left_tools: Option<ToolGroup>,
    pub right_tools: Option<ToolGroup>,
    pub bottom_tools: Option<ToolGroup>,
}

/// A status bar with no tool groups.
pub fn status_bar<V>() -> (r: StatusBar<V>)
    ensures
        r.left_tools is None,
        r.right_tools is None,
        r.bottom_tools is None,
{
    StatusBar { view_type: PhantomData, left_tools: None, right_tools: None, bottom_tools: None }
}

/// Takes the group out of `slot`, leaving `None`, and returns a new group that
/// starts with `tool` followed by the taken group's tools.
fn prepend_to_taken(slot: &mut Option<ToolGroup>, tool: Tool, active_index: Option<usize>) -> (r:
    ToolGroup)
    ensures
        *final(slot) is None,
        r.active_index == active_index,
        r.tools@ == seq![tool].add(group_tools(*old(slot))),
{
    let taken = slot.take();
    let mut old_tools = match taken {
        Some(g) => g.tools,
        None => ToolGroup::default().tools,
    };
    let mut tools = vec![tool];
    tools.append(&mut old_tools);
    ToolGroup { active_index, tools }
}

impl<V> StatusBar<V> {
    /// Puts `tool` in front of the left group, which takes `active_index`.
    pub fn left_tool(self, tool: Tool, active_index: Option<usize>) -> (r: Self)
        ensures
            r.left_tools matches Some(g) && g.active_index == active_index && g.tools@ == seq![
                tool,
            ].add(group_tools(self.left_tools)),
            r.right_tools == self.right_tools,
            r.bottom_tools == self.bottom_tools,
    {
        let mut s = self;
        let g = prepend_to_taken(&mut s.left_tools, tool, active_index);
        s.left_tools = Some(g);
        s
    }

    /// Makes the right group `tool` followed by the tools moved out of the
    /// left group, which is left empty; the new group takes `active_index`.
    pub fn right_tool(self, tool: Tool, active_index: Option<usize>) -> (r: Self)
        ensures
            r.right_tools matches Some(g) && g.active_index == active_index && g.tools@ == seq![
                tool,
            ].add(group_tools(self.left_tools)),
            r.left_tools is None,
            r.bottom_tools == self.bottom_tools,
    {
        let mut s = self;
        let g = prepend_to_taken(&mut s.left_tools, tool, active_index);
        s.right_tools = Some(g);
        s
    }

    /// Makes the bottom group `tool` followed by the tools moved out of the
    /// left group, which is left empty; the new group takes `active_index`.
    pub fn bottom_tool(self, tool: Tool, active_index: Option<usize>) -> (r: Self)
        ensures
            r.bottom_tools matches Some(g) && g.active_index == active_index && g.tools@ == seq![
                tool,
            ].add(group_tools(self.left_tools)),
            r.left_tools is None,
            r.right_tools == self.right_tools,
    {
        let mut s = self;
        let g = prepend_to_taken(&mut s.left_tools, tool, active_index);
        s.bottom_tools = Some(g);
        s
    }
}

} // verus!
