//! Dialog types.
use vstd::prelude::*;

verus! {

/// Action to execute when a Confirm dialog is accepted.
#[derive(Debug, Clone)]
pub enum ConfirmAction {
    Delete { paths: Vec<String> },
    OverwriteCopy { sources: Vec<String>, target: String },
    OverwriteMove { sources: Vec<String>, target: String },
    OverwriteRename { source: String, new_name: String },
}

/// Dialog types the app can show.
#[derive(Debug, Clone)]
pub enum Dialog {
    Confirm { title: String, message: String, action: ConfirmAction },
    Error { message: String },
    Info { title: String, message: String },
}

} // verus!
