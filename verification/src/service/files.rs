//! Static files server sub-service.
//!
//! A file is served only if it lies inside the root directory given by the
//! configuration, is a regular file and can be read; otherwise the answer is
//! `404 Not Found`. Whether a file lies inside the root is decided on the
//! canonical forms of both paths, so that neither `..` nor symbolic links
//! lead out of the root.
//!
//! Looking at the file system is left to the caller. A [`Transfer`] says
//! what to look up next ([`Step`]) and is told what was found ([`Found`]).

use crate::http::response::{bare, LocalResponse, LocalResponseView};
use vstd::prelude::*;
use vstd::string::StringExecFns;

verus! {

/// The `Content-Type` for a file with the given extension.
pub open spec fn content_type_of(extension: Option<Seq<char>>) -> Seq<char> {
    match extension {
        Some(extension) => if extension == "html"@ {
            "text/html"@
        } else if extension == "css"@ {
            "text/css"@
        } else if extension == "js"@ {
            "application/javascript"@
        } else if extension == "png"@ {
            "image/png"@
        } else if extension == "jpeg"@ {
            "image/jpeg"@
        } else {
            "text/plain"@
        },
        None => "text/plain"@,
    }
}

/// Chooses the `Content-Type` of a file by its extension. Files without an
/// extension and files with an unknown one are sent as plain text.
pub fn content_type(extension: &Option<String>) -> (mime: &'static str)
    ensures
        mime@ == content_type_of(crate::config::optional_text(*extension)),
{
    match extension {
        Some(extension) => {
            if *extension == String::from_str("html") {
                "text/html"
            } else if *extension == String::from_str("css") {
                "text/css"
            } else if *extension == String::from_str("js") {
                "application/javascript"
            } else if *extension == String::from_str("png") {
                "image/png"
            } else if *extension == String::from_str("jpeg") {
                "image/jpeg"
            } else {
                "text/plain"
            }
        },
        None => "text/plain",
    }
}

/// A canonical path: absolute, free of `.` and `..` and of symbolic links.
#[derive(Debug, PartialEq, Eq)]
pub struct CanonicalPath {
    /// The components of the path, from the root of the file system down to
    /// the file or directory itself.
    pub components: Vec<Vec<u8>>,
    /// The extension of the last component, if it has one that is text.
    pub extension: Option<String>,
}

/// What a [`CanonicalPath`] says.
pub struct CanonicalPathView {
    pub components: Seq<Seq<u8>>,
    pub extension: Option<Seq<char>>,
}

/// The components of a path as sequences.
pub open spec fn components_of(components: Seq<Vec<u8>>) -> Seq<Seq<u8>> {
    Seq::new(components.len(), |i: int| components[i]@)
}

impl View for CanonicalPath {
    type V = CanonicalPathView;

    open spec fn view(&self) -> CanonicalPathView {
        CanonicalPathView {
            components: components_of(self.components@),
            extension: crate::config::optional_text(self.extension),
        }
    }
}

/// Tells whether two path components are the same.
fn same_component(left: &Vec<u8>, right: &Vec<u8>) -> (yes: bool)
    ensures
        yes == (left@ == right@),
{
    if left.len() != right.len() {
        return false;
    }
    let mut i: usize = 0;
    while i < left.len()
        invariant
            left@.len() == right@.len(),
            i <= left@.len(),
            forall|j: int| 0 <= j < i ==> left@[j] == right@[j],
        decreases left@.len() - i,
    {
        if left[i] != right[i] {
            return false;
        }
        i += 1;
    }
    assert(left@ =~= right@);
    true
}

impl CanonicalPath {
    /// Tells whether this path is `root` or lies below it: whether the
    /// components of `root` are the first components of this path.
    pub fn is_within(&self, root: &CanonicalPath) -> (yes: bool)
        ensures
            yes == self@.is_within(root@),
    {
        if root.components.len() > self.components.len() {
            return false;
        }
        let mut i: usize = 0;
        while i < root.components.len()
            invariant
                root.components@.len() <= self.components@.len(),
                i <= root.components@.len(),
                forall|j: int| 0 <= j < i ==> root@.components[j] == self@.components[j],
            decreases root.components@.len() - i,
        {
            if !same_component(&root.components[i], &self.components[i]) {
                assert(root@.components[i as int] != self@.components[i as int]);
                return false;
            }
            i += 1;
        }
        assert(root@.components =~= self@.components.subrange(0, root@.components.len() as int));
        true
    }
}

/// What was found in the file system.
#[derive(Debug)]
pub enum Found {
    /// The canonical form of the root directory, if it has one.
    Root(Option<CanonicalPath>),
    /// The canonical form of the requested path joined to the canonical
    /// root, if it has one.
    File(Option<CanonicalPath>),
    /// Whether the requested file is a regular file.
    Regular(bool),
    /// The content of the requested file, if it could be read.
    Content(Option<Vec<u8>>),
}

/// What a [`Found`] says.
pub enum FoundView {
    Root(Option<CanonicalPathView>),
    File(Option<CanonicalPathView>),
    Regular(bool),
    Content(Option<Seq<u8>>),
}

impl View for Found {
    type V = FoundView;

    open spec fn view(&self) -> FoundView {
        match *self {
            Found::Root(Some(root)) => FoundView::Root(Some(root@)),
            Found::Root(None) => FoundView::Root(None),
            Found::File(Some(file)) => FoundView::File(Some(file@)),
            Found::File(None) => FoundView::File(None),
            Found::Regular(regular) => FoundView::Regular(regular),
            Found::Content(Some(content)) => FoundView::Content(Some(content@)),
            Found::Content(None) => FoundView::Content(None),
        }
    }
}

/// What to do next in order to serve a file.
#[derive(Debug, PartialEq, Eq)]
pub enum Step {
    /// Join the requested path to the canonical root and find the canonical
    /// form of the result.
    ResolveFile,
    /// Find out whether the requested file is a regular file.
    Inspect,
    /// Read the requested file.
    Read,
    /// Send this response; the transfer is over.
    Respond(LocalResponse),
}

/// What a [`Step`] says.
pub enum StepView {
    ResolveFile,
    Inspect,
    Read,
    Respond(LocalResponseView),
}

impl View for Step {
    type V = StepView;

    open spec fn view(&self) -> StepView {
        match *self {
            Step::ResolveFile => StepView::ResolveFile,
            Step::Inspect => StepView::Inspect,
            Step::Read => StepView::Read,
            Step::Respond(response) => StepView::Respond(response@),
        }
    }
}

/// The transfer of one file. It begins by asking for the canonical form of
/// the root directory.
#[derive(Debug, PartialEq, Eq)]
pub enum Transfer {
    /// Waiting for the canonical form of the root directory.
    ResolvingRoot,
    /// Waiting for the canonical form of the requested file.
    ResolvingFile { root: CanonicalPath },
    /// Waiting to learn whether the file is a regular file.
    Inspecting { root: CanonicalPath, file: CanonicalPath },
    /// Waiting for the content of the file.
    Reading { root: CanonicalPath, file: CanonicalPath },
    /// The response is out.
    Done,
}

/// What a [`Transfer`] says.
pub enum TransferView {
    ResolvingRoot,
    ResolvingFile { root: CanonicalPathView },
    Inspecting { root: CanonicalPathView, file: CanonicalPathView },
    Reading { root: CanonicalPathView, file: CanonicalPathView },
    Done,
}

impl View for Transfer {
    type V = TransferView;

    open spec fn view(&self) -> TransferView {
        match *self {
            Transfer::ResolvingRoot => TransferView::ResolvingRoot,
            Transfer::ResolvingFile { root } => TransferView::ResolvingFile { root: root@ },
            Transfer::Inspecting { root, file } => TransferView::Inspecting {
                root: root@,
                file: file@,
            },
            Transfer::Reading { root, file } => TransferView::Reading { root: root@, file: file@ },
            Transfer::Done => TransferView::Done,
        }
    }
}

impl CanonicalPathView {
    /// This path is `root` or lies below it: the components of `root` are
    /// the first components of this path.
    pub open spec fn is_within(self, root: CanonicalPathView) -> bool {
        root.components.is_prefix_of(self.components)
    }
}

impl TransferView {
    /// A transfer looks at a file, let alone reads it, only if the file lies
    /// within the root.
    pub open spec fn well_formed(self) -> bool {
        match self {
            TransferView::Inspecting { root, file } => file.is_within(root),
            TransferView::Reading { root, file } => file.is_within(root),
            _ => true,
        }
    }

    /// The transfer after `found`, and what to do next.
    ///
    /// 1. If the root has no canonical form, the answer is `404`.
    /// 2. If the requested path, joined to the root, has no canonical form,
    ///    the answer is `404`.
    /// 3. If the canonical file does not lie within the canonical root, or is
    ///    not a regular file, the answer is `404`.
    /// 4. If the file cannot be read, the answer is `404`; otherwise it is
    ///    `200` with the content of the file and the `Content-Type` that
    ///    goes with its extension.
    ///
    /// Anything that was not asked for ends the transfer with `404`.
    pub open spec fn next(self, found: FoundView) -> (TransferView, StepView) {
        match (self, found) {
            (TransferView::ResolvingRoot, FoundView::Root(Some(root))) => (
                TransferView::ResolvingFile { root },
                StepView::ResolveFile,
            ),
            (TransferView::ResolvingFile { root }, FoundView::File(Some(file))) => {
                if file.is_within(root) {
                    (TransferView::Inspecting { root, file }, StepView::Inspect)
                } else {
                    (TransferView::Done, StepView::Respond(bare(404)))
                }
            },
            (TransferView::Inspecting { root, file }, FoundView::Regular(true)) => (
                TransferView::Reading { root, file },
                StepView::Read,
            ),
            (TransferView::Reading { root, file }, FoundView::Content(Some(content))) => (
                TransferView::Done,
                StepView::Respond(
                    LocalResponseView {
                        status: 200,
                        server: "rxh/0.1.0"@,
                        content_type: Some(content_type_of(file.extension)),
                        body: content,
                    },
                ),
            ),
            _ => (TransferView::Done, StepView::Respond(bare(404))),
        }
    }

    /// The transfer after everything in `findings` was found, in this order.
    pub open spec fn after(self, findings: Seq<FoundView>) -> TransferView
        decreases findings.len(),
    {
        if findings.len() == 0 {
            self
        } else {
            self.after(findings.drop_last()).next(findings.last()).0
        }
    }
}

/// No file from outside the root. A transfer asks to inspect or to read a
/// file, and answers with its content, only if the canonical path of the
/// file begins with the canonical path of the root. Unless the file is the
/// root itself, it then lies strictly below the root.
pub proof fn lemma_no_file_from_outside_root(transfer: TransferView, found: FoundView)
    requires
        transfer.well_formed(),
    ensures
        transfer.next(found).0.well_formed(),
        transfer.next(found).1 is Inspect ==> {
            &&& transfer matches TransferView::ResolvingFile { root }
            &&& found matches FoundView::File(Some(file))
            &&& file.is_within(root)
        },
        transfer.next(found).1 is Read ==> {
            &&& transfer matches TransferView::Inspecting { root, file }
            &&& found == FoundView::Regular(true)
            &&& file.is_within(root)
        },
        transfer.next(found).1 is Respond && transfer.next(found).1->Respond_0.status != 404 ==> {
            &&& transfer matches TransferView::Reading { root, file }
            &&& found matches FoundView::Content(Some(content))
            &&& transfer.next(found).1->Respond_0.status == 200
            &&& transfer.next(found).1->Respond_0.body == content
            &&& file.is_within(root)
            &&& file.components != root.components ==> root.components.len()
                < file.components.len()
        },
{
    if let TransferView::Reading { root, file } = transfer {
        if file.components.len() == root.components.len() {
            assert(file.components =~= root.components);
        }
    }
}

/// However a transfer goes, it never gets to look at a file outside the root.
pub proof fn lemma_transfer_stays_within_root(findings: Seq<FoundView>)
    ensures
        TransferView::ResolvingRoot.after(findings).well_formed(),
    decreases findings.len(),
{
    if findings.len() > 0 {
        lemma_transfer_stays_within_root(findings.drop_last());
        lemma_no_file_from_outside_root(
            TransferView::ResolvingRoot.after(findings.drop_last()),
            findings.last(),
        );
    }
}

impl Transfer {
    /// Begins the transfer of a file. The first thing to find is the
    /// canonical form of the root directory.
    pub fn begin() -> (transfer: Self)
        ensures
            transfer@ == TransferView::ResolvingRoot,
    {
        Transfer::ResolvingRoot
    }

    /// Takes in what was found and says what to do next.
    pub fn advance(self, found: Found) -> (next: (Self, Step))
        ensures
            (next.0@, next.1@) == self@.next(found@),
    {
        match (self, found) {
            (Transfer::ResolvingRoot, Found::Root(Some(root))) => (
                Transfer::ResolvingFile { root },
                Step::ResolveFile,
            ),
            (Transfer::ResolvingFile { root }, Found::File(Some(file))) => {
                if file.is_within(&root) {
                    (Transfer::Inspecting { root, file }, Step::Inspect)
                } else {
                    (Transfer::Done, Step::Respond(LocalResponse::not_found()))
                }
            },
            (Transfer::Inspecting { root, file }, Found::Regular(true)) => (
                Transfer::Reading { root, file },
                Step::Read,
            ),
            (Transfer::Reading { root, file }, Found::Content(Some(content))) => {
                let mime = content_type(&file.extension);
                (Transfer::Done, Step::Respond(LocalResponse::ok(mime, content)))
            },
            _ => (Transfer::Done, Step::Respond(LocalResponse::not_found())),
        }
    }
}

} // verus!
