use wayshot_helper::geometry::{format_geometry, Rect};
use wayshot_helper::tree::{
    node_geometry, visible_windows, visible_workspaces, NodeKind, TreeError, WindowNode, Workspace,
};

fn rect(x: i64, y: i64, width: i64, height: i64) -> Rect {
    Rect { x, y, width, height }
}

fn node(
    kind: NodeKind,
    name: Option<&str>,
    pid: Option<i32>,
    rect: Rect,
    nodes: Vec<WindowNode>,
    floating_nodes: Vec<WindowNode>,
) -> WindowNode {
    WindowNode { kind, name: name.map(|n| n.to_string()), pid, rect, nodes, floating_nodes }
}

fn window(pid: i32, r: Rect) -> WindowNode {
    node(NodeKind::Container, Some("window"), Some(pid), r, vec![], vec![])
}

fn container(nodes: Vec<WindowNode>) -> WindowNode {
    node(NodeKind::Container, None, None, rect(0, 0, 1, 1), nodes, vec![])
}

fn workspace_node(name: &str, nodes: Vec<WindowNode>, floating: Vec<WindowNode>) -> WindowNode {
    node(NodeKind::Workspace, Some(name), None, rect(0, 0, 1920, 1080), nodes, floating)
}

fn output_node(name: &str, workspaces: Vec<WindowNode>) -> WindowNode {
    node(NodeKind::Output, Some(name), None, rect(0, 0, 1920, 1080), workspaces, vec![])
}

fn root_node(outputs: Vec<WindowNode>) -> WindowNode {
    node(NodeKind::Root, Some("root"), None, rect(0, 0, 3840, 1080), outputs, vec![])
}

fn listed(name: &str, visible: bool) -> Workspace {
    Workspace { name: name.to_string(), visible }
}

#[test]
fn formats_a_rectangle() {
    assert_eq!(format_geometry(&rect(0, 0, 100, 100)), "0,0 100x100");
    assert_eq!(format_geometry(&rect(100, 0, 50, 50)), "100,0 50x50");
    assert_eq!(format_geometry(&rect(1920, 1080, 2560, 1440)), "1920,1080 2560x1440");
    assert_eq!(format_geometry(&rect(9, 10, 11, 99)), "9,10 11x99");
}

#[test]
fn formats_signed_and_extreme_numbers() {
    assert_eq!(format_geometry(&rect(-5, -120, 7, 0)), "-5,-120 7x0");
    assert_eq!(
        format_geometry(&rect(i64::MIN, i64::MAX, 1, 1)),
        "-9223372036854775808,9223372036854775807 1x1"
    );
}

#[test]
fn formatting_agrees_with_the_standard_formatter() {
    for v in [0i64, 1, 9, 10, 11, 99, 100, 101, 909, 1000, 65535, -1, -10, -99, -100, 123456789] {
        let r = rect(v, -v, v / 3, v * 7);
        let expected = format!("{},{} {}x{}", r.x, r.y, r.width, r.height);
        assert_eq!(format_geometry(&r), expected);
    }
}

#[test]
fn formatting_twice_gives_the_same_text() {
    let r = rect(12, 34, 56, 78);
    assert_eq!(format_geometry(&r), format_geometry(&r));
    assert_eq!(format_geometry(&r), format_geometry(&rect(12, 34, 56, 78)));
}

fn read_back(text: &str) -> Option<Rect> {
    let (offset, size) = text.split_once(' ')?;
    let (x, y) = offset.split_once(',')?;
    let (width, height) = size.split_once('x')?;
    Some(rect(x.parse().ok()?, y.parse().ok()?, width.parse().ok()?, height.parse().ok()?))
}

#[test]
fn a_formatted_rectangle_reads_back() {
    for r in [rect(0, 0, 0, 0), rect(0, 0, 100, 100), rect(1920, 0, 2560, 1440), rect(7, 70, 700, 7000)] {
        let text = format_geometry(&r);
        assert_eq!(read_back(&text), Some(r));
        assert!(text.chars().all(|c| c.is_ascii_digit() || c == ',' || c == ' ' || c == 'x'));
        assert_eq!(text.matches(' ').count(), 1);
        assert_eq!(text.trim(), text);
    }
    assert_ne!(format_geometry(&rect(1, 23, 4, 5)), format_geometry(&rect(12, 3, 4, 5)));
    assert_ne!(format_geometry(&rect(1, 2, 34, 5)), format_geometry(&rect(1, 2, 3, 45)));
}

#[test]
fn node_geometry_is_the_geometry_of_its_rect() {
    let n = window(7, rect(3, 4, 5, 6));
    assert_eq!(node_geometry(&n), "3,4 5x6");
}

#[test]
fn two_outputs_one_visible_workspace() {
    let root = root_node(vec![
        output_node(
            "A",
            vec![workspace_node(
                "1",
                vec![window(10, rect(0, 0, 100, 100)), window(11, rect(100, 0, 50, 50))],
                vec![],
            )],
        ),
        output_node("B", vec![workspace_node("2", vec![window(12, rect(5, 5, 5, 5))], vec![])]),
    ]);
    let workspaces = vec![listed("1", true), listed("2", false)];
    let mut found = visible_windows(&root, &workspaces).unwrap();
    assert_eq!(found.len(), 2);
    assert!(!found.contains(&"5,5 5x5".to_string()));
    found.sort();
    assert_eq!(found, vec!["0,0 100x100".to_string(), "100,0 50x50".to_string()]);
}

#[test]
fn windows_come_newest_worklist_entry_first() {
    let root = root_node(vec![output_node(
        "A",
        vec![
            workspace_node(
                "1",
                vec![window(1, rect(1, 0, 1, 1)), window(2, rect(2, 0, 1, 1))],
                vec![window(3, rect(3, 0, 1, 1)), window(4, rect(4, 0, 1, 1))],
            ),
            workspace_node("2", vec![window(5, rect(5, 0, 1, 1))], vec![]),
        ],
    )]);
    let workspaces = vec![listed("1", true), listed("2", true)];
    let found = visible_windows(&root, &workspaces).unwrap();
    assert_eq!(found, vec!["5,0 1x1", "4,0 1x1", "3,0 1x1", "2,0 1x1", "1,0 1x1"]);
}

#[test]
fn nested_and_floating_windows_are_listed_and_containers_are_not() {
    let deep = container(vec![container(vec![window(1, rect(10, 10, 10, 10))])]);
    let parent = node(
        NodeKind::Container,
        Some("parent"),
        Some(2),
        rect(20, 20, 20, 20),
        vec![window(3, rect(30, 30, 30, 30))],
        vec![],
    );
    let floating =
        node(NodeKind::FloatingContainer, Some("f"), Some(4), rect(40, 40, 40, 40), vec![], vec![]);
    let root =
        root_node(vec![output_node("A", vec![workspace_node("w", vec![deep, parent], vec![floating])])]);
    let mut found = visible_windows(&root, &vec![listed("w", true)]).unwrap();
    found.sort();
    assert_eq!(found, vec!["10,10 10x10", "20,20 20x20", "30,30 30x30", "40,40 40x40"]);
}

#[test]
fn an_empty_workspace_adds_nothing() {
    let root = root_node(vec![output_node("A", vec![workspace_node("w", vec![], vec![])])]);
    assert_eq!(visible_windows(&root, &vec![listed("w", true)]), Ok(vec![]));
    assert_eq!(visible_windows(&root_node(vec![]), &vec![listed("w", true)]), Ok(vec![]));
}

#[test]
fn windows_with_equal_rectangles_are_each_listed() {
    let root = root_node(vec![output_node(
        "A",
        vec![workspace_node(
            "w",
            vec![window(1, rect(0, 0, 8, 8)), window(2, rect(0, 0, 8, 8))],
            vec![],
        )],
    )]);
    let found = visible_windows(&root, &vec![listed("w", true)]).unwrap();
    assert_eq!(found, vec!["0,0 8x8", "0,0 8x8"]);
}

#[test]
fn only_workspaces_directly_under_outputs_count() {
    let stray = workspace_node("w", vec![window(1, rect(1, 1, 1, 1))], vec![]);
    let under_container = container(vec![workspace_node("w", vec![window(2, rect(2, 2, 2, 2))], vec![])]);
    let not_a_workspace =
        node(NodeKind::Container, Some("w"), None, rect(0, 0, 1, 1), vec![window(3, rect(3, 3, 3, 3))], vec![]);
    let root = root_node(vec![stray, output_node("A", vec![under_container, not_a_workspace])]);
    assert_eq!(visible_windows(&root, &vec![listed("w", true)]), Ok(vec![]));
}

#[test]
fn visible_workspaces_keeps_tree_order_and_drops_hidden_ones() {
    let root = root_node(vec![
        output_node(
            "A",
            vec![workspace_node("1", vec![], vec![]), workspace_node("2", vec![], vec![])],
        ),
        output_node("B", vec![workspace_node("3", vec![], vec![])]),
    ]);
    let workspaces = vec![listed("3", true), listed("2", false), listed("1", true)];
    let found = visible_workspaces(&root, &workspaces).unwrap();
    let names: Vec<&str> = found.iter().map(|n| n.name.as_deref().unwrap()).collect();
    assert_eq!(names, vec!["1", "3"]);
}

#[test]
fn a_workspace_without_a_name_is_an_error() {
    let unnamed = node(NodeKind::Workspace, None, None, rect(0, 0, 1, 1), vec![], vec![]);
    let root =
        root_node(vec![output_node("A", vec![workspace_node("1", vec![], vec![]), unnamed])]);
    let workspaces = vec![listed("1", true)];
    assert_eq!(visible_windows(&root, &workspaces), Err(TreeError::UnnamedWorkspace));
    assert_eq!(visible_workspaces(&root, &workspaces).err(), Some(TreeError::UnnamedWorkspace));
    assert_eq!(visible_windows(&root, &vec![]), Err(TreeError::UnnamedWorkspace));
}

#[test]
fn an_unnamed_node_elsewhere_is_no_error() {
    let root = root_node(vec![
        node(NodeKind::Container, None, None, rect(0, 0, 1, 1), vec![], vec![]),
        node(
            NodeKind::Output,
            None,
            None,
            rect(0, 0, 1, 1),
            vec![workspace_node("1", vec![container(vec![window(1, rect(1, 2, 3, 4))])], vec![])],
            vec![],
        ),
    ]);
    assert_eq!(visible_windows(&root, &vec![listed("1", true)]), Ok(vec!["1,2 3x4".to_string()]));
}
