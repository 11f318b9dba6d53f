use vstd::prelude::*;

verus! {

/// What a client sends to have a stored book rewritten. Every field is needed,
/// as for a new book; one that the client left out arrives as `None`.
#[derive(Debug, Clone, PartialEq, Eq)]
pub struct UpdateBook {
    pub title: Option<String>,
    pub author: Option<String>,
    pub pages: Option<i64>,
}

/// The mathematical content of an [`UpdateBook`].
pub ghost struct UpdateBookView {
    pub title: Option<Seq<char>>,
    pub author: Option<Seq<char>>,
    pub pages: Option<i64>,
}

impl View for UpdateBook {
    type V = UpdateBookView;

    open spec fn view(&self) -> UpdateBookView {
        UpdateBookView {
            title: match self.title {
                Some(title) => Some(title@),
                None => None,
            },
            author: match self.author {
                Some(author) => Some(author@),
                None => None,
            },
            pages: self.pages,
        }
    }
}

impl UpdateBookView {
    /// Whether the client gave every field.
    pub open spec fn is_complete(self) -> bool {
        self.title is Some && self.author is Some && self.pages is Some
    }
}

} // verus!
