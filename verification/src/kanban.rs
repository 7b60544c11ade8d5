//! A board of columns that hold cards.

use vstd::prelude::*;

verus! {

/// A colour by hue, saturation, lightness and opacity, each in thousandths
/// of its full range.
#[derive(Debug, Clone, Copy, PartialEq, Eq, Structural)]
pub struct Color {
    pub hue: u16,
    pub saturation: u16,
    pub lightness: u16,
    pub alpha: u16,
}

/// The colour of every card.
pub open spec fn spec_card_color() -> Color {
    Color { hue: 550, saturation: 300, lightness: 950, alpha: 1000 }
}

/// The colour of every card.
#[verifier::when_used_as_spec(spec_card_color)]
pub fn card_color() -> (color: Color)
    ensures
        color == spec_card_color(),
{
    Color { hue: 550, saturation: 300, lightness: 950, alpha: 1000 }
}

#[derive(Debug, Clone)]
pub struct Card {
    pub id: usize,
    pub title: String,
    pub description: String,
    pub color: Color,
}

#[derive(Debug, Clone)]
pub struct Column {
    pub id: usize,
    pub title: String,
    pub cards: Vec<Card>,
    pub color: Color,
}

pub struct KanbanBoard {
    columns: Vec<Column>,
    next_card_id: usize,
    next_column_id: usize,
    dragging_card: Option<(usize, usize)>,
}

/// What a board is, as a mathematical value.
pub struct KanbanBoardView {
    /// The columns, from left to right.
    pub columns: Seq<Column>,
    /// The identity that the next card gets.
    pub next_card_id: usize,
    /// The identity that the next column gets.
    pub next_column_id: usize,
    /// The column and the card that is being dragged.
    pub dragging_card: Option<(usize, usize)>,
}

impl View for KanbanBoard {
    type V = KanbanBoardView;

    closed spec fn view(&self) -> KanbanBoardView {
        KanbanBoardView {
            columns: self.columns@,
            next_card_id: self.next_card_id,
            next_column_id: self.next_column_id,
            dragging_card: self.dragging_card,
        }
    }
}

/// Whether `column` is the column with these texts and so many cards.
pub open spec fn column_reads(
    column: Column,
    id: usize,
    title: Seq<char>,
    color: Color,
    cards: nat,
) -> bool {
    &&& column.id == id
    &&& column.title@ == title
    &&& column.color == color
    &&& column.cards@.len() == cards
}

/// Whether `card` is the card with these texts.
pub open spec fn card_reads(
    card: Card,
    id: usize,
    title: Seq<char>,
    description: Seq<char>,
) -> bool {
    &&& card.id == id
    &&& card.title@ == title
    &&& card.description@ == description
    &&& card.color == card_color()
}

/// Whether `board` is the board that every board starts as: three columns
/// for what waits, what is under way and what is done, with four sample
/// cards.
pub open spec fn is_sample_board(board: KanbanBoardView) -> bool {
    &&& board.columns.len() == 3
    &&& board.next_column_id == 3
    &&& board.next_card_id == 4
    &&& board.dragging_card is None
    &&& column_reads(
        board.columns[0],
        0,
        "待办"@,
        Color { hue: 600, saturation: 500, lightness: 700, alpha: 1000 },
        2,
    )
    &&& column_reads(
        board.columns[1],
        1,
        "进行中"@,
        Color { hue: 150, saturation: 700, lightness: 700, alpha: 1000 },
        1,
    )
    &&& column_reads(
        board.columns[2],
        2,
        "已完成"@,
        Color { hue: 350, saturation: 600, lightness: 700, alpha: 1000 },
        1,
    )
    &&& card_reads(board.columns[0].cards@[0], 0, "设计 UI 界面"@, "使用 GPUI 创建看板界面"@)
    &&& card_reads(board.columns[0].cards@[1], 1, "实现拖拽功能"@, "添加卡片拖拽交互"@)
    &&& card_reads(board.columns[1].cards@[0], 2, "编写核心逻辑"@, "实现看板数据模型"@)
    &&& card_reads(board.columns[2].cards@[0], 3, "项目初始化"@, "创建 Cargo 项目并配置依赖"@)
}

impl KanbanBoard {
    /// The board that every board starts as.
    pub fn new() -> (board: Self)
        ensures
            is_sample_board(board@),
    {
        let mut board = Self {
            columns: Vec::new(),
            next_card_id: 0,
            next_column_id: 0,
            dragging_card: None,
        };
        board.add_column(
            "待办".to_string(),
            Color { hue: 600, saturation: 500, lightness: 700, alpha: 1000 },
        );
        board.add_column(
            "进行中".to_string(),
            Color { hue: 150, saturation: 700, lightness: 700, alpha: 1000 },
        );
        board.add_column(
            "已完成".to_string(),
            Color { hue: 350, saturation: 600, lightness: 700, alpha: 1000 },
        );
        board.add_card(0, "设计 UI 界面".to_string(), "使用 GPUI 创建看板界面".to_string());
        board.add_card(0, "实现拖拽功能".to_string(), "添加卡片拖拽交互".to_string());
        board.add_card(1, "编写核心逻辑".to_string(), "实现看板数据模型".to_string());
        board.add_card(2, "项目初始化".to_string(), "创建 Cargo 项目并配置依赖".to_string());
        board
    }

    /// Puts an empty column with the next identity behind the others.
    pub fn add_column(&mut self, title: String, color: Color)
        requires
            old(self)@.next_column_id < usize::MAX,
        ensures
            final(self)@.columns.len() == old(self)@.columns.len() + 1,
            final(self)@.columns.drop_last() == old(self)@.columns,
            column_reads(final(self)@.columns.last(), old(self)@.next_column_id, title@, color, 0),
            final(self)@.next_column_id == old(self)@.next_column_id + 1,
            final(self)@.next_card_id == old(self)@.next_card_id,
            final(self)@.dragging_card == old(self)@.dragging_card,
    {
        let column = Column { id: self.next_column_id, title, cards: Vec::new(), color };
        self.columns.push(column);
        self.next_column_id += 1;
        assert(self.columns@.drop_last() =~= old(self).columns@);
    }

    /// Puts a card with the next identity at the end of the column at
    /// `column_index`. Without such a column nothing changes.
    pub fn add_card(&mut self, column_index: usize, title: String, description: String)
        requires
            old(self)@.next_card_id < usize::MAX,
        ensures
            final(self)@.next_column_id == old(self)@.next_column_id,
            final(self)@.dragging_card == old(self)@.dragging_card,
            final(self)@.columns.len() == old(self)@.columns.len(),
            column_index >= old(self)@.columns.len() ==> final(self)@ == old(self)@,
            column_index < old(self)@.columns.len() ==> {
                let before = old(self)@.columns[column_index as int];
                let after = final(self)@.columns[column_index as int];
                &&& final(self)@.next_card_id == old(self)@.next_card_id + 1
                &&& after.id == before.id
                &&& after.title == before.title
                &&& after.color == before.color
                &&& after.cards@.len() == before.cards@.len() + 1
                &&& after.cards@.drop_last() == before.cards@
                &&& card_reads(after.cards@.last(), old(self)@.next_card_id, title@, description@)
                &&& forall|k: int|
                    0 <= k < old(self)@.columns.len() && k != column_index ==> final(self)@.columns[k]
                        == old(self)@.columns[k]
            },
    {
        if column_index < self.columns.len() {
            let card = Card { id: self.next_card_id, title, description, color: card_color() };
            let ghost cards_before = self.columns@[column_index as int].cards@;
            self.columns[column_index].cards.push(card);
            self.next_card_id += 1;
            assert(self.columns@[column_index as int].cards@.drop_last() =~= cards_before);
        }
    }

    /// The columns, from left to right.
    pub fn columns(&self) -> (columns: &Vec<Column>)
        ensures
            columns@ == self@.columns,
    {
        &self.columns
    }

    /// The column and the card that is being dragged.
    pub fn dragging_card(&self) -> (dragging: Option<(usize, usize)>)
        ensures
            dragging == self@.dragging_card,
    {
        self.dragging_card
    }
}

} // verus!
