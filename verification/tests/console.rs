use variables::console::{run, show_constants, show_mutability, show_shadowing};
use variables::constants::constants;
use variables::mutability::{mutability, Mutability};
use variables::shadowing::{shadowing, Shadowing};

#[test]
fn run_writes_the_eight_lines_in_order() {
    let lines = run();
    assert_eq!(
        lines,
        vec![
            "Rust book chapter 3.",
            "y is 10",
            "x is 5",
            "x is updated to 6",
            "Three hours in seconds: 10800",
            "The value of y in the inner scope is: 12",
            "The value of y is 6",
            "There are 5 spaces.",
        ]
    );
}

#[test]
fn run_is_the_heading_and_the_three_reports() {
    let mut lines = vec![String::from("Rust book chapter 3.")];
    show_mutability(&mut lines, &mutability());
    show_constants(&mut lines, constants());
    show_shadowing(&mut lines, &shadowing());
    assert_eq!(lines, run());
}

#[test]
fn mutability_report_shows_initial_before_updated() {
    let mut lines = Vec::new();
    show_mutability(&mut lines, &mutability());
    assert_eq!(lines, vec!["y is 10", "x is 5", "x is updated to 6"]);
    let initial = lines.iter().position(|line| line == "x is 5");
    let updated = lines.iter().position(|line| line == "x is updated to 6");
    assert_eq!(initial, Some(1));
    assert_eq!(updated, Some(2));
}

#[test]
fn mutability_report_of_other_values() {
    let seen = Mutability {
        y: -1,
        x_initial: i32::MIN,
        x_updated: i32::MAX,
    };
    let mut lines = Vec::new();
    show_mutability(&mut lines, &seen);
    assert_eq!(
        lines,
        vec!["y is -1", "x is -2147483648", "x is updated to 2147483647"]
    );
}

#[test]
fn constants_report_shows_the_product() {
    let mut lines = Vec::new();
    show_constants(&mut lines, constants());
    assert_eq!(lines, vec!["Three hours in seconds: 10800"]);
}

#[test]
fn constants_report_of_other_values() {
    let mut lines = Vec::new();
    show_constants(&mut lines, 0);
    show_constants(&mut lines, u32::MAX);
    assert_eq!(
        lines,
        vec![
            "Three hours in seconds: 0",
            "Three hours in seconds: 4294967295"
        ]
    );
}

#[test]
fn shadowing_report_shows_inner_then_outer_then_spaces() {
    let mut lines = Vec::new();
    show_shadowing(&mut lines, &shadowing());
    assert_eq!(
        lines,
        vec![
            "The value of y in the inner scope is: 12",
            "The value of y is 6",
            "There are 5 spaces.",
        ]
    );
}

#[test]
fn shadowing_report_of_other_values() {
    let seen = Shadowing {
        inner: -12,
        outer: 0,
        spaces: usize::MAX,
    };
    let mut lines = Vec::new();
    show_shadowing(&mut lines, &seen);
    assert_eq!(
        lines,
        vec![
            String::from("The value of y in the inner scope is: -12"),
            String::from("The value of y is 0"),
            format!("There are {} spaces.", usize::MAX),
        ]
    );
}

#[test]
fn reports_keep_what_was_written_before() {
    let mut lines = vec![String::from("first")];
    show_constants(&mut lines, 7);
    assert_eq!(lines, vec!["first", "Three hours in seconds: 7"]);
}
