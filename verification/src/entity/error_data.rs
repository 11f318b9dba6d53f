use vstd::prelude::*;

verus! {

/// Why a request was turned down: a message for the reader and a nominal status code.
///
/// The status is carried in the body only; it does not decide the status of the
/// response that delivers it.
#[derive(Debug, Clone, PartialEq, Eq)]
pub struct ErrorData {
    pub message: String,
    pub status: u16,
}

/// The mathematical content of an [`ErrorData`].
pub ghost struct ErrorDataView {
    pub message: Seq<char>,
    pub status: u16,
}

impl View for ErrorData {
    type V = ErrorDataView;

    open spec fn view(&self) -> ErrorDataView {
        ErrorDataView { message: self.message@, status: self.status }
    }
}

/// A payload lacks one of the fields that every book needs.
pub open spec fn invalid_parameters() -> ErrorDataView {
    ErrorDataView { message: "Parametros inválidos"@, status: 400 }
}

/// The text given as a key is not the written form of one.
pub open spec fn invalid_identifier() -> ErrorDataView {
    ErrorDataView { message: "ID Inválido"@, status: 400 }
}

/// The store holds no book under the key given.
pub open spec fn not_found() -> ErrorDataView {
    ErrorDataView { message: "Livro nao encontrado pelo id informado"@, status: 400 }
}

/// The store did not do what was asked of it; `message` says what it reported.
pub open spec fn upstream_failure(message: Seq<char>) -> ErrorDataView {
    ErrorDataView { message, status: 502 }
}

/// The store removed no book.
pub open spec fn delete_failed() -> ErrorDataView {
    ErrorDataView { message: "Ocorreu um erro ao remover o livro"@, status: 502 }
}

impl ErrorData {
    pub fn new(message: String, status: u16) -> (error: Self)
        ensures
            error.message == message,
            error.status == status,
    {
        Self { message, status }
    }

    pub fn invalid_parameters() -> (error: Self)
        ensures
            error@ == invalid_parameters(),
    {
        Self::new("Parametros inválidos".to_owned(), 400)
    }

    pub fn invalid_identifier() -> (error: Self)
        ensures
            error@ == invalid_identifier(),
    {
        Self::new("ID Inválido".to_owned(), 400)
    }

    pub fn not_found() -> (error: Self)
        ensures
            error@ == not_found(),
    {
        Self::new("Livro nao encontrado pelo id informado".to_owned(), 400)
    }

    pub fn upstream_failure(message: String) -> (error: Self)
        ensures
            error@ == upstream_failure(message@),
    {
        Self::new(message, 502)
    }

    pub fn delete_failed() -> (error: Self)
        ensures
            error@ == delete_failed(),
    {
        Self::new("Ocorreu um erro ao remover o livro".to_owned(), 502)
    }
}

} // verus!
