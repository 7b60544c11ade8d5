use uavred::item::ItemHandle;
use uavred::pane::{Pane, PaneId};

/// An item of a kind that the library does not know.
struct Note {
    text: String,
}

impl ItemHandle for Note {
    fn title(&self) -> String {
        self.text.clone()
    }

    fn icon(&self) -> String {
        "note".to_string()
    }
}

#[test]
fn a_pane_holds_items_of_any_kind() {
    let mut pane: Pane<Note> = Pane::new(PaneId(1));
    pane.add_item(Note { text: "first".to_string() });
    pane.add_item(Note { text: "second".to_string() });
    pane.activate_item(1);
    let active = pane.active_item().unwrap();
    assert_eq!(active.title(), "second");
    assert_eq!(active.icon(), "note");
    assert_eq!(ItemHandle::type_id(active), std::any::TypeId::of::<Note>());
}

#[test]
fn a_pane_holds_boxed_items() {
    struct Boxed(Box<dyn ItemHandle>);
    impl ItemHandle for Boxed {
        fn title(&self) -> String {
            self.0.title()
        }
        fn icon(&self) -> String {
            self.0.icon()
        }
    }
    let mut pane: Pane<Boxed> = Pane::new(PaneId(1));
    pane.add_item(Boxed(Box::new(Note { text: "a note".to_string() })));
    pane.add_item(Boxed(Box::new(uavred::item::AssetItem {
        asset_id: "a".to_string(),
        name: "Mavic".to_string(),
        asset_type: "drone".to_string(),
    })));
    assert_eq!(pane.active_item().unwrap().title(), "a note");
    pane.activate_item(1);
    assert_eq!(pane.active_item().unwrap().title(), "Mavic");
    assert_eq!(pane.active_item().unwrap().icon(), "plane");
}
