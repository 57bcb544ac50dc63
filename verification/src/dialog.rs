//! File dialogs: what is asked of the dialog, and what its answer means.
//!
//! The dialog itself belongs to the windowing system. This module says how a
//! dialog is set up and turns what the user did into a path or into the
//! message that tells why there is none.

use vstd::prelude::*;

verus! {

/// The kinds of input/output failure that the operating system reports.
#[verifier::external_type_specification]
#[verifier::external_body]
pub struct ExIoErrorKind(std::io::ErrorKind);

/// `Clone::clone` of `std::io::ErrorKind`, a `Copy` type: the result
/// equals the value it was made from.
pub assume_specification[ <std::io::ErrorKind as Clone>::clone ](
    kind: &std::io::ErrorKind,
) -> (copy: std::io::ErrorKind)
    ensures
        copy == *kind,
;

/// Why choosing a file failed.
#[derive(Debug, Clone)]
pub enum Error {
    DialogClosed,
    IoError(std::io::ErrorKind),
}

/// Whether the dialog picks a file that exists or names one to write.
#[derive(Clone, Copy, Debug, PartialEq, Eq, Structural)]
pub enum DialogKind {
    Open,
    Save,
}

/// A named group of file extensions that the dialog offers.
#[derive(Clone, Debug, PartialEq, Eq)]
pub struct Filter {
    pub name: String,
    pub extensions: Vec<String>,
}

/// How a dialog is set up.
#[derive(Clone, Debug, PartialEq, Eq)]
pub struct DialogRequest {
    pub kind: DialogKind,
    pub title: String,
    pub filters: Vec<Filter>,
}

/// What the user did with the dialog.
#[derive(Clone, Debug, PartialEq, Eq)]
pub enum Picked {
    /// The dialog was closed without a choice.
    Nothing,
    /// A file was chosen whose path is no valid UTF-8.
    Unreadable,
    /// A file was chosen; this is its path.
    Path(String),
}

/// The mathematical value of a `Filter`.
pub struct FilterView {
    pub name: Seq<char>,
    pub extensions: Seq<Seq<char>>,
}

/// The mathematical value of a `DialogRequest`.
pub struct DialogRequestView {
    pub kind: DialogKind,
    pub title: Seq<char>,
    pub filters: Seq<FilterView>,
}

/// The mathematical value of a `Picked`.
pub enum PickedView {
    Nothing,
    Unreadable,
    Path(Seq<char>),
}

/// The mathematical values of a list of strings.
pub open spec fn strings_view(strings: Seq<String>) -> Seq<Seq<char>> {
    strings.map_values(|s: String| s@)
}

impl View for Filter {
    type V = FilterView;

    open spec fn view(&self) -> FilterView {
        FilterView { name: self.name@, extensions: strings_view(self.extensions@) }
    }
}

impl View for DialogRequest {
    type V = DialogRequestView;

    open spec fn view(&self) -> DialogRequestView {
        DialogRequestView {
            kind: self.kind,
            title: self.title@,
            filters: self.filters@.map_values(|f: Filter| f@),
        }
    }
}

impl View for Picked {
    type V = PickedView;

    open spec fn view(&self) -> PickedView {
        match self {
            Picked::Nothing => PickedView::Nothing,
            Picked::Unreadable => PickedView::Unreadable,
            Picked::Path(path) => PickedView::Path(path@),
        }
    }
}

/// The title of a dialog of the given kind.
pub open spec fn dialog_title(kind: DialogKind) -> Seq<char> {
    match kind {
        DialogKind::Open => "Open file..."@,
        DialogKind::Save => "Save file..."@,
    }
}

/// The set-up of a dialog: its title, then the supported extensions, then a
/// filter that lets every file through.
pub open spec fn dialog_request(kind: DialogKind, extensions: Seq<Seq<char>>) -> DialogRequestView {
    DialogRequestView {
        kind,
        title: dialog_title(kind),
        filters: seq![
            FilterView { name: "Supported"@, extensions },
            FilterView { name: "All files"@, extensions: seq!["*"@] },
        ],
    }
}

/// What a dialog's answer means: the path, or the message that tells why
/// there is none.
pub open spec fn chosen(picked: PickedView) -> Result<Seq<char>, Seq<char>> {
    match picked {
        PickedView::Nothing => Err("No file was selected."@),
        PickedView::Unreadable => Err("File path is not valid UTF-8."@),
        PickedView::Path(path) => Ok(path),
    }
}

/// The mathematical value of a path or message.
pub open spec fn choice_view(r: Result<String, String>) -> Result<Seq<char>, Seq<char>> {
    match r {
        Ok(path) => Ok(path@),
        Err(why) => Err(why@),
    }
}

/// Copies a list of strings.
pub fn clone_strings(strings: &Vec<String>) -> (copy: Vec<String>)
    ensures
        strings_view(copy@) == strings_view(strings@),
{
    let mut copy: Vec<String> = Vec::new();
    let mut i: usize = 0;
    while i < strings.len()
        invariant
            i <= strings.len(),
            copy.len() == i,
            forall|j: int| 0 <= j < i ==> copy[j]@ == strings[j]@,
        decreases strings.len() - i,
    {
        copy.push(strings[i].clone());
        i = i + 1;
    }
    assert(strings_view(copy@) =~= strings_view(strings@));
    copy
}

/// Sets up a dialog of the given kind for files with these extensions.
pub fn request(kind: DialogKind, support_ext: &Vec<String>) -> (req: DialogRequest)
    ensures
        req@ == dialog_request(kind, strings_view(support_ext@)),
{
    let title = match kind {
        DialogKind::Open => "Open file...".to_owned(),
        DialogKind::Save => "Save file...".to_owned(),
    };
    let mut every: Vec<String> = Vec::new();
    every.push("*".to_owned());
    let mut filters: Vec<Filter> = Vec::new();
    filters.push(Filter { name: "Supported".to_owned(), extensions: clone_strings(support_ext) });
    filters.push(Filter { name: "All files".to_owned(), extensions: every });
    let req = DialogRequest { kind, title, filters };
    proof {
        let want = dialog_request(kind, strings_view(support_ext@));
        assert(req@.filters[1].extensions =~= want.filters[1].extensions);
        assert(req@.filters[0] == want.filters[0]);
        assert(req@.filters[1] == want.filters[1]);
        assert(req@.filters =~= want.filters);
    }
    req
}

/// Sets up the dialog that picks an existing file.
pub fn open_file(support_ext: &Vec<String>) -> (req: DialogRequest)
    ensures
        req@ == dialog_request(DialogKind::Open, strings_view(support_ext@)),
{
    request(DialogKind::Open, support_ext)
}

/// Sets up the dialog that names a file to write.
pub fn save_file(support_ext: &Vec<String>) -> (req: DialogRequest)
    ensures
        req@ == dialog_request(DialogKind::Save, strings_view(support_ext@)),
{
    request(DialogKind::Save, support_ext)
}

/// Turns a dialog's answer into the chosen path, or into the message that
/// tells why there is none.
pub fn chosen_path(picked: Picked) -> (r: Result<String, String>)
    ensures
        choice_view(r) == chosen(picked@),
{
    match picked {
        Picked::Nothing => Err("No file was selected.".to_owned()),
        Picked::Unreadable => Err("File path is not valid UTF-8.".to_owned()),
        Picked::Path(path) => Ok(path),
    }
}

} // verus!
