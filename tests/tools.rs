use remote_server::status_bar::{status_bar, StatusBar, Tool};

struct View;

fn tools(group: &Option<remote_server::status_bar::ToolGroup>) -> Vec<&Tool> {
    group.as_ref().map(|g| g.tools.iter().collect()).unwrap_or_default()
}

#[test]
fn new_status_bar_is_empty() {
    let bar: StatusBar<View> = status_bar();
    assert!(bar.left_tools.is_none());
    assert!(bar.right_tools.is_none());
    assert!(bar.bottom_tools.is_none());
}

#[test]
fn left_tool_prepends() {
    let bar: StatusBar<View> =
        status_bar().left_tool(Tool::Terminal, None).left_tool(Tool::Assistant, Some(1));
    let group = bar.left_tools.as_ref().unwrap();
    assert_eq!(group.active_index, Some(1));
    assert!(tools(&bar.left_tools) == vec![&Tool::Assistant, &Tool::Terminal]);
}

#[test]
fn right_tool_takes_left_group() {
    let bar: StatusBar<View> =
        status_bar().left_tool(Tool::Feedback, None).right_tool(Tool::Diagnostics, Some(0));
    assert!(bar.left_tools.is_none());
    assert_eq!(bar.right_tools.as_ref().unwrap().active_index, Some(0));
    assert!(tools(&bar.right_tools) == vec![&Tool::Diagnostics, &Tool::Feedback]);
}

#[test]
fn bottom_tool_takes_left_group() {
    let bar: StatusBar<View> = status_bar()
        .right_tool(Tool::Terminal, None)
        .left_tool(Tool::ProjectPanel, None)
        .bottom_tool(Tool::CollaborationPanel, None);
    assert!(bar.left_tools.is_none());
    assert!(tools(&bar.right_tools) == vec![&Tool::Terminal]);
    assert!(tools(&bar.bottom_tools) == vec![&Tool::CollaborationPanel, &Tool::ProjectPanel]);
}

#[test]
fn default_tool_is_project_panel() {
    assert!(Tool::default() == Tool::ProjectPanel);
}
