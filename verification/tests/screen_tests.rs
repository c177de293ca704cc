use primer::screen::{Button, Draw, Screen, TextField};

struct Divider;

impl Draw for Divider {
    fn draw(&self) -> String {
        String::from("Drawing divider")
    }
}

#[test]
fn screen_accepts_components_defined_elsewhere() {
    let screen = Screen {
        components: vec![
            Box::new(Divider),
            Box::new(TextField { placeholder: String::new() }),
            Box::new(Divider),
        ],
    };
    assert_eq!(screen.run(), vec!["Drawing divider", "Drawing text field: ", "Drawing divider"]);
}

#[test]
fn screen_renders_button_before_text_field() {
    let screen = Screen {
        components: vec![
            Box::new(Button { width: 50, height: 10 }),
            Box::new(TextField { placeholder: String::from("Enter text") }),
        ],
    };
    let lines = screen.run();
    assert_eq!(lines.len(), 2);
    assert_eq!(lines[0], "Drawing button: 50x10");
    assert_eq!(lines[1], "Drawing text field: Enter text");
    assert!(lines[0].contains("50") && lines[0].contains("10"));
    assert!(lines[1].contains("Enter text"));
}

#[test]
fn screen_renders_in_insertion_order() {
    let mut screen = Screen { components: Vec::new() };
    screen.components.push(Box::new(TextField { placeholder: String::from("first") }));
    screen.components.push(Box::new(Button { width: 1, height: 2 }));
    screen.components.push(Box::new(TextField { placeholder: String::from("third") }));
    screen.components.push(Box::new(Button { width: 1, height: 2 }));
    assert_eq!(
        screen.run(),
        vec![
            "Drawing text field: first",
            "Drawing button: 1x2",
            "Drawing text field: third",
            "Drawing button: 1x2",
        ]
    );
}

#[test]
fn screen_renders_each_component_once_per_run() {
    let screen = Screen {
        components: vec![
            Box::new(Button { width: 3, height: 4 }),
            Box::new(TextField { placeholder: String::from("name") }),
        ],
    };
    let first = screen.run();
    let second = screen.run();
    assert_eq!(first, vec!["Drawing button: 3x4", "Drawing text field: name"]);
    assert_eq!(first, second);
}

#[test]
fn empty_screen_renders_nothing() {
    let screen = Screen { components: Vec::new() };
    assert!(screen.run().is_empty());
}

#[test]
fn button_draws_its_dimensions() {
    assert_eq!(Button { width: 0, height: 4294967295 }.draw(), "Drawing button: 0x4294967295");
    assert_eq!(Button { width: 120, height: 7 }.draw(), "Drawing button: 120x7");
}

#[test]
fn text_field_draws_its_placeholder() {
    assert_eq!(
        TextField { placeholder: String::from("名前") }.draw(),
        "Drawing text field: 名前"
    );
}
