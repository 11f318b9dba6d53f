use vstd::prelude::*;

verus! {

/// What a client sends to have a book stored. Every field is needed; one that
/// the client left out arrives as `None`.
#[derive(Debug, Clone, PartialEq, Eq)]
pub struct CreateBook {
    pub title: Option<String>,
    pub author: Option<String>,
    pub pages: Option<i64>,
}

/// The mathematical content of a [`CreateBook`].
pub ghost struct CreateBookView {
    pub title: Option<Seq<char>>,
    pub author: Option<Seq<char>>,
    pub pages: Option<i64>,
}

impl View for CreateBook {
    type V = CreateBookView;

    open spec fn view(&self) -> CreateBookView {
        CreateBookView {
            title: match self.title {
                Some(title) => Some(title@),
                None => None,
            },
            author: match self.author {
                Some(author) => Some(author@),
                None => None,
            },
            pages: self.pages,
        }
    }
}

impl CreateBookView {
    /// Whether the client gave every field.
    pub open spec fn is_complete(self) -> bool {
        self.title is Some && self.author is Some && self.pages is Some
    }
}

} // verus!
