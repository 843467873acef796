//! What the native dialogs are opened with.

use vstd::prelude::*;

verus! {

/// A named group of file extensions that a file dialog offers.
#[derive(Clone, Debug)]
pub struct DialogFilter {
    pub name: String,
    pub extensions: Vec<String>,
}

/// What a file dialog is opened with.
#[derive(Clone, Debug)]
pub struct NativeFileDialogOptions {
    pub title: Option<String>,
    pub filters: Vec<DialogFilter>,
    pub multiple: bool,
    pub directory: bool,
    pub default_path: Option<String>,
    pub recursive: bool,
}

impl Default for NativeFileDialogOptions {
    fn default() -> (options: Self)
        ensures
            options.title is None,
            options.filters@.len() == 0,
            !options.multiple,
            !options.directory,
            options.default_path is None,
            !options.recursive,
    {
        NativeFileDialogOptions {
            title: None,
            filters: Vec::new(),
            multiple: false,
            directory: false,
            default_path: None,
            recursive: false,
        }
    }
}

/// What a question to the user is asked with.
#[derive(Clone, Debug)]
pub struct NativeAskDialogOptions {
    pub title: Option<String>,
    pub message: String,
    /// `info`, `warning`, `error` or `question`.
    pub kind: Option<String>,
    pub ok_label: Option<String>,
    pub cancel_label: Option<String>,
}

} // verus!
