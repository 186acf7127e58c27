use rust_basics::gui::{Button, Label, Widget, Window};

#[test]
fn label_width_is_its_longest_line() {
    assert_eq!(Label::new("This is a small text GUI demo.").width(), 30);
    assert_eq!(Label::new("ab\nabcd\nabc").width(), 4);
    assert_eq!(Label::new("").width(), 0);
    assert_eq!(Label::new("abc\r\n").width(), 3);
}

#[test]
fn label_draws_centred_in_its_width() {
    let mut buffer = String::new();
    Label::new("hello").draw_into(&mut buffer);
    assert_eq!(buffer, "hello\n");
}

#[test]
fn button_draws_a_frame() {
    let button = Button::new("Click me!", || {});
    assert_eq!(button.width(), 9);
    let mut buffer = String::from(">");
    button.draw_into(&mut buffer);
    assert_eq!(buffer, ">+---------+\n|Click me!|\n+---------+\n");
}

#[test]
fn window_draws_title_and_widgets() {
    let mut window = Window::new("Rust GUI Demo 1.23");
    window.add_widget(Box::new(Label::new("This is a small text GUI demo.")));
    window.add_widget(Box::new(Button::new("Click me!", || {})));
    assert_eq!(window.inner_width(), 30);
    assert_eq!(window.width(), 34);
    let mut buffer = String::new();
    window.draw_into(&mut buffer);
    let expected = [
        "+--------------------------------+",
        "|       Rust GUI Demo 1.23       |",
        "+================================+",
        "| This is a small text GUI demo. |",
        "| +---------+                    |",
        "| |Click me!|                    |",
        "| +---------+                    |",
        "+--------------------------------+",
    ]
    .iter()
    .map(|l| format!("{l}\n"))
    .collect::<String>();
    assert_eq!(buffer, expected);
}

#[test]
fn empty_window_is_as_wide_as_its_title() {
    let window = Window::new("ab");
    assert_eq!(window.width(), 6);
    let mut buffer = String::new();
    window.draw_into(&mut buffer);
    assert_eq!(buffer, "+----+\n| ab |\n+====+\n+----+\n");
}
