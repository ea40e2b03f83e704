use conrod_example_shared::{Info, Namer};

#[test]
fn title_joins_prefix_and_name() {
    let namer = Namer::new("Piston Backend");
    assert_eq!(
        namer.title("All Widgets"),
        "Piston Backend - All Widgets, [Tab] Changes Example"
    );
}

#[test]
fn info_keeps_name_and_size() {
    let info = Info::new("All Widgets", (600, 420));
    assert_eq!(info.name, "All Widgets");
    assert_eq!(info.size, (600, 420));
}
