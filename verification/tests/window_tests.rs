//! Window and error-report construction.

use arduino_link::data_window::{DataWindow, DisplayType};
use arduino_link::error_message::{ErrorInfo, ErrorSeverity};

#[test]
fn display_modes_are_offered_in_a_fixed_order() {
    let modes = DisplayType::iterator();
    assert_eq!(modes, vec![DisplayType::Graph, DisplayType::Text, DisplayType::NoDisplay]);
}

#[test]
fn a_new_window_starts_undisplayed_and_capped_at_one_hundred() {
    let w = DataWindow::new("speed".to_owned(), 2);
    assert_eq!(w.window_name, "speed");
    assert_eq!(w.selected_data, 2);
    assert_eq!(w.data_cap, 100);
    assert_eq!(w.display_type, DisplayType::NoDisplay);
}

#[test]
fn the_default_window_is_a_placeholder() {
    let w = DataWindow::default();
    assert_eq!(w.window_name, "Name Not Set!");
    assert_eq!(w.selected_data, 1337420);
    assert_eq!(w.data_cap, 100);
    assert_eq!(w.display_type, DisplayType::NoDisplay);
}

#[test]
fn an_error_report_keeps_what_it_is_given() {
    let e = ErrorInfo::new(
        "Receiver Disconnected!".to_owned(),
        "Receiver has disconnected, the reader thread has likely panicked!".to_owned(),
        ErrorSeverity::Critical,
    );
    assert_eq!(e.error_title, "Receiver Disconnected!");
    assert_eq!(e.error_message, "Receiver has disconnected, the reader thread has likely panicked!");
    assert!(matches!(e.severity, ErrorSeverity::Critical));
}

#[test]
fn the_default_error_report_is_the_unknown_error() {
    let e = ErrorInfo::default();
    assert_eq!(e.error_title, "Unknown Error!");
    assert_eq!(e.error_message, "Error determining the error message!\nSeverity: None");
    assert!(matches!(e.severity, ErrorSeverity::Unknown));
}
