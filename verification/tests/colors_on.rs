use colored::control::set_override;
use task_store::command::{execute, Command};
use task_store::report::{listing, notice, notice_about, row};
use task_store::store::TaskList;
use task_store::style::{Line, Span, Style, Tint};
use task_store::task::Task;

fn span(text: &str, style: Style) -> Span {
    Span { text: text.to_string(), style }
}

#[test]
fn plain_span_stays_as_it_is_with_colours_on() {
    set_override(true);
    assert_eq!(span("buy milk", Style::Plain).render(), "buy milk");
}

#[test]
fn tinted_span_is_wrapped_in_its_colour() {
    set_override(true);
    assert_eq!(span("x", Style::Tinted(Tint::Red)).render(), "\u{1b}[31mx\u{1b}[0m");
    assert_eq!(span("x", Style::Tinted(Tint::Green)).render(), "\u{1b}[32mx\u{1b}[0m");
    assert_eq!(span("x", Style::Tinted(Tint::Yellow)).render(), "\u{1b}[33mx\u{1b}[0m");
    assert_eq!(span("x", Style::Tinted(Tint::Blue)).render(), "\u{1b}[34mx\u{1b}[0m");
    assert_eq!(span("x", Style::Tinted(Tint::Cyan)).render(), "\u{1b}[36mx\u{1b}[0m");
}

#[test]
fn bold_span_is_wrapped_in_bold_and_its_colour() {
    set_override(true);
    assert_eq!(span("x", Style::Bold(Tint::Red)).render(), "\u{1b}[1;31mx\u{1b}[0m");
    assert_eq!(span("x", Style::Bold(Tint::Green)).render(), "\u{1b}[1;32mx\u{1b}[0m");
    assert_eq!(span("x", Style::Bold(Tint::Yellow)).render(), "\u{1b}[1;33mx\u{1b}[0m");
    assert_eq!(span("x", Style::Bold(Tint::Blue)).render(), "\u{1b}[1;34mx\u{1b}[0m");
    assert_eq!(span("x", Style::Bold(Tint::Cyan)).render(), "\u{1b}[1;36mx\u{1b}[0m");
}

#[test]
fn empty_tinted_span_is_still_wrapped() {
    set_override(true);
    assert_eq!(span("", Style::Tinted(Tint::Cyan)).render(), "\u{1b}[36m\u{1b}[0m");
}

#[test]
fn empty_line_renders_empty_with_colours_on() {
    set_override(true);
    assert_eq!(Line { spans: Vec::new() }.render(), "");
}

#[test]
fn coloured_notice() {
    set_override(true);
    assert_eq!(
        notice("\u{1f389} No tasks yet!", Tint::Yellow).render(),
        "\u{1b}[1;33m\u{1f389} No tasks yet!\u{1b}[0m"
    );
}

#[test]
fn coloured_notice_about_a_task() {
    set_override(true);
    assert_eq!(
        notice_about("\u{2714}\u{fe0f} Added task:", Tint::Green, "buy milk").render(),
        "\u{1b}[1;32m\u{2714}\u{fe0f} Added task:\u{1b}[0m buy milk"
    );
}

#[test]
fn coloured_rows() {
    set_override(true);
    let pending = Task { description: "buy milk".to_string(), done: false };
    let done = Task { description: "walk dog".to_string(), done: true };
    assert_eq!(row(0, &pending).render(), "\u{1b}[36m0\u{1b}[0m \u{1b}[31m[ ]\u{1b}[0m buy milk");
    assert_eq!(row(10, &done).render(), "\u{1b}[36m10\u{1b}[0m \u{1b}[32m[x]\u{1b}[0m walk dog");
}

#[test]
fn coloured_listing() {
    set_override(true);
    let store = TaskList {
        tasks: vec![
            Task { description: "buy milk".to_string(), done: true },
            Task { description: "".to_string(), done: false },
        ],
    };
    let lines: Vec<String> = listing(&store).iter().map(|line| line.render()).collect();
    assert_eq!(
        lines,
        vec![
            "\u{1b}[1;34m\u{1f4cb} Your tasks:\u{1b}[0m".to_string(),
            "\u{1b}[36m0\u{1b}[0m \u{1b}[32m[x]\u{1b}[0m buy milk".to_string(),
            "\u{1b}[36m1\u{1b}[0m \u{1b}[31m[ ]\u{1b}[0m ".to_string(),
        ]
    );
}

#[test]
fn coloured_error() {
    set_override(true);
    let mut store = TaskList::new();
    let outcome = execute(&mut store, &Command::Remove { index: 3 });
    let lines: Vec<String> = outcome.err.iter().map(|line| line.render()).collect();
    assert_eq!(lines, vec!["\u{1b}[1;31m\u{274c} Invalid index\u{1b}[0m".to_string()]);
}

#[test]
fn description_with_colour_codes_is_not_touched() {
    set_override(true);
    let line = notice_about("note", Tint::Green, "\u{1b}[31mred\u{1b}[0m");
    assert_eq!(line.render(), "\u{1b}[1;32mnote\u{1b}[0m \u{1b}[31mred\u{1b}[0m");
}
