//! The resource data model: an issue row, the mutable payload a caller may
//! send, and the claim a verified credential yields. Each exec type has a
//! ghost view over sequences of characters, which every contract speaks of.

use vstd::prelude::*;

verus! {

/// Ghost view of one issue row.
pub ghost struct IssueView {
    pub id: u64,
    pub title: Seq<char>,
    pub description: Seq<char>,
    pub status: Seq<char>,
    pub label: Seq<char>,
    pub author: Seq<char>,
}

/// One row of the issues table: an id assigned by the store, four free-form
/// text fields, and the subject that authored it. `id` and `author` are set
/// at creation and never altered by an update.
#[derive(Debug)]
pub struct Issue {
    pub id: u64,
    pub title: String,
    pub description: String,
    pub status: String,
    pub label: String,
    pub author: String,
}

impl View for Issue {
    type V = IssueView;

    open spec fn view(&self) -> IssueView {
        IssueView {
            id: self.id,
            title: self.title@,
            description: self.description@,
            status: self.status@,
            label: self.label@,
            author: self.author@,
        }
    }
}

impl Issue {
    /// A field-for-field copy; `String` clones are known to preserve the view.
    pub fn duplicate(&self) -> (copy: Issue)
        ensures
            copy@ == self@,
    {
        Issue {
            id: self.id,
            title: self.title.clone(),
            description: self.description.clone(),
            status: self.status.clone(),
            label: self.label.clone(),
            author: self.author.clone(),
        }
    }
}

/// Ghost view of a payload.
pub ghost struct PayloadView {
    pub title: Seq<char>,
    pub description: Seq<char>,
    pub status: Seq<char>,
    pub label: Seq<char>,
}

/// The mutable fields a caller supplies on create and update. The author is
/// never taken from the payload: it comes from the verified claim.
#[derive(Debug)]
pub struct IssuePayload {
    pub title: String,
    pub description: String,
    pub status: String,
    pub label: String,
}

impl View for IssuePayload {
    type V = PayloadView;

    open spec fn view(&self) -> PayloadView {
        PayloadView {
            title: self.title@,
            description: self.description@,
            status: self.status@,
            label: self.label@,
        }
    }
}

/// The verified result of checking a bearer credential: at minimum a stable
/// subject identifier. Lives for one request and is never persisted.
#[derive(Debug)]
pub struct Claim {
    pub subject: String,
}

impl View for Claim {
    type V = Seq<char>;

    open spec fn view(&self) -> Seq<char> {
        self.subject@
    }
}

/// The row that `create` writes for a payload: the store-assigned id, the
/// payload's four text fields, and the creator's subject as author.
pub open spec fn new_row(id: u64, payload: PayloadView, author: Seq<char>) -> IssueView {
    IssueView {
        id: id,
        title: payload.title,
        description: payload.description,
        status: payload.status,
        label: payload.label,
        author: author,
    }
}

/// The row that `update` leaves behind: the payload's text fields over the
/// old row, with `id` and `author` untouched.
pub open spec fn updated_row(row: IssueView, payload: PayloadView) -> IssueView {
    IssueView {
        id: row.id,
        title: payload.title,
        description: payload.description,
        status: payload.status,
        label: payload.label,
        author: row.author,
    }
}

} // verus!
