//! The customer-facing display: a second window of the application shell.
//!
//! Creating the window is the shell's work. This module fixes what is created
//! and how a failure to create it is reported.

use vstd::prelude::*;
use crate::decoder::result_view;
use crate::text::joined;

verus! {

/// A window for the shell to create.
#[derive(Debug, Clone, PartialEq, Eq)]
pub struct WindowSpec {
    /// The name by which the shell addresses the window.
    pub label: String,
    /// The page to load, as a path among the application's own resources.
    pub url: String,
    pub title: String,
    /// The width of the window's content, in logical pixels.
    pub width: u32,
    /// The height of the window's content, in logical pixels.
    pub height: u32,
}

/// The mathematical content of a [`WindowSpec`].
pub struct WindowSpecView {
    pub label: Seq<char>,
    pub url: Seq<char>,
    pub title: Seq<char>,
    pub width: u32,
    pub height: u32,
}

impl View for WindowSpec {
    type V = WindowSpecView;

    open spec fn view(&self) -> WindowSpecView {
        WindowSpecView {
            label: self.label@,
            url: self.url@,
            title: self.title@,
            width: self.width,
            height: self.height,
        }
    }
}

/// The customer-facing display: always the same page, title and size.
pub open spec fn customer_display() -> WindowSpecView {
    WindowSpecView {
        label: "customer_display"@,
        url: "customer-display.html"@,
        title: "Экран покупателя"@,
        width: 800,
        height: 600,
    }
}

/// The message for a window that the shell could not create.
pub open spec fn window_error(reason: Seq<char>) -> Seq<char> {
    "Failed to open window: "@ + reason
}

/// What opening the customer display returns when the shell reports `built`.
pub open spec fn open_customer_display_outcome(built: Result<(), Seq<char>>) -> Result<
    (),
    Seq<char>,
> {
    match built {
        Ok(()) => Ok(()),
        Err(reason) => Err(window_error(reason)),
    }
}

/// Describes the window that shows the customer display.
pub fn open_customer_display_request() -> (window: WindowSpec)
    ensures
        window@ == customer_display(),
{
    WindowSpec {
        label: "customer_display".to_owned(),
        url: "customer-display.html".to_owned(),
        title: "Экран покупателя".to_owned(),
        width: 800,
        height: 600,
    }
}

/// Ends the command once the shell has tried to create the window. A failure
/// comes with the shell's description of what went wrong.
pub fn open_customer_display_response(built: Result<(), String>) -> (result: Result<(), String>)
    ensures
        result_view(result) == open_customer_display_outcome(result_view(built)),
{
    match built {
        Ok(()) => Ok(()),
        Err(reason) => Err(joined("Failed to open window: ", reason.as_str())),
    }
}

} // verus!
