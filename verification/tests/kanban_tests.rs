use uavred::kanban::{card_color, Color, KanbanBoard};

fn titles(board: &KanbanBoard, column: usize) -> Vec<String> {
    board.columns()[column].cards.iter().map(|c| c.title.clone()).collect()
}

fn card_ids(board: &KanbanBoard, column: usize) -> Vec<usize> {
    board.columns()[column].cards.iter().map(|c| c.id).collect()
}

#[test]
fn test_placeholder() {
    assert_eq!(2 + 2, 4);
}

#[test]
fn new_board_holds_the_sample() {
    let board = KanbanBoard::new();
    let columns = board.columns();
    assert_eq!(columns.len(), 3);
    assert_eq!((columns[0].id, columns[0].title.as_str()), (0, "待办"));
    assert_eq!((columns[1].id, columns[1].title.as_str()), (1, "进行中"));
    assert_eq!((columns[2].id, columns[2].title.as_str()), (2, "已完成"));
    assert_eq!(columns[0].color, Color { hue: 600, saturation: 500, lightness: 700, alpha: 1000 });
    assert_eq!(columns[1].color, Color { hue: 150, saturation: 700, lightness: 700, alpha: 1000 });
    assert_eq!(columns[2].color, Color { hue: 350, saturation: 600, lightness: 700, alpha: 1000 });
    assert_eq!(titles(&board, 0), vec!["设计 UI 界面", "实现拖拽功能"]);
    assert_eq!(titles(&board, 1), vec!["编写核心逻辑"]);
    assert_eq!(titles(&board, 2), vec!["项目初始化"]);
    assert_eq!(card_ids(&board, 0), vec![0, 1]);
    assert_eq!(card_ids(&board, 1), vec![2]);
    assert_eq!(card_ids(&board, 2), vec![3]);
    assert_eq!(columns[0].cards[0].description, "使用 GPUI 创建看板界面");
    assert_eq!(columns[0].cards[1].description, "添加卡片拖拽交互");
    assert_eq!(columns[1].cards[0].description, "实现看板数据模型");
    assert_eq!(columns[2].cards[0].description, "创建 Cargo 项目并配置依赖");
    assert_eq!(columns[2].cards[0].color, card_color());
    assert_eq!(card_color(), Color { hue: 550, saturation: 300, lightness: 950, alpha: 1000 });
    assert_eq!(board.dragging_card(), None);
}

#[test]
fn test_add_column() {
    let mut board = KanbanBoard::new();
    let color = Color { hue: 1, saturation: 2, lightness: 3, alpha: 4 };
    board.add_column("Later".to_string(), color);
    assert_eq!(board.columns().len(), 4);
    let added = &board.columns()[3];
    assert_eq!(added.id, 3);
    assert_eq!(added.title, "Later");
    assert_eq!(added.color, color);
    assert!(added.cards.is_empty());
    board.add_column("Never".to_string(), color);
    assert_eq!(board.columns()[4].id, 4);
    assert_eq!(titles(&board, 0), vec!["设计 UI 界面", "实现拖拽功能"]);
}

#[test]
fn test_add_card() {
    let mut board = KanbanBoard::new();
    board.add_card(1, "Write tests".to_string(), "For the board".to_string());
    assert_eq!(titles(&board, 1), vec!["编写核心逻辑", "Write tests"]);
    assert_eq!(card_ids(&board, 1), vec![2, 4]);
    assert_eq!(board.columns()[1].cards[1].description, "For the board");
    assert_eq!(board.columns()[1].cards[1].color, card_color());
    board.add_card(0, "Next".to_string(), String::new());
    assert_eq!(card_ids(&board, 0), vec![0, 1, 5]);
    assert_eq!(card_ids(&board, 2), vec![3]);
}

#[test]
fn add_card_to_a_missing_column_changes_nothing() {
    let mut board = KanbanBoard::new();
    board.add_card(3, "Lost".to_string(), String::new());
    board.add_card(usize::MAX, "Lost".to_string(), String::new());
    assert_eq!(board.columns().len(), 3);
    assert_eq!(card_ids(&board, 0), vec![0, 1]);
    assert_eq!(card_ids(&board, 1), vec![2]);
    assert_eq!(card_ids(&board, 2), vec![3]);
    // No identity was used up.
    board.add_card(2, "Found".to_string(), String::new());
    assert_eq!(card_ids(&board, 2), vec![3, 4]);
}
