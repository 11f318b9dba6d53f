use book_api::entity::error_data::ErrorData;

#[test]
fn new_keeps_message_and_status() {
    let error = ErrorData::new("falhou".to_string(), 502);
    assert_eq!(error.message, "falhou");
    assert_eq!(error.status, 502);
}

#[test]
fn new_accepts_an_empty_message_and_any_status() {
    let error = ErrorData::new(String::new(), 0);
    assert_eq!(error, ErrorData { message: String::new(), status: 0 });
    let error = ErrorData::new("x".to_string(), u16::MAX);
    assert_eq!(error.status, 65535);
}

#[test]
fn invalid_parameters_is_a_400() {
    let error = ErrorData::invalid_parameters();
    assert_eq!(error.message, "Parametros inválidos");
    assert_eq!(error.status, 400);
}

#[test]
fn invalid_identifier_is_a_400() {
    let error = ErrorData::invalid_identifier();
    assert_eq!(error.message, "ID Inválido");
    assert_eq!(error.status, 400);
}

#[test]
fn not_found_is_a_400() {
    let error = ErrorData::not_found();
    assert_eq!(error.message, "Livro nao encontrado pelo id informado");
    assert_eq!(error.status, 400);
}

#[test]
fn upstream_failure_is_a_502_with_the_report() {
    let error = ErrorData::upstream_failure("connection reset".to_string());
    assert_eq!(error.message, "connection reset");
    assert_eq!(error.status, 502);
}

#[test]
fn delete_failed_is_a_502() {
    let error = ErrorData::delete_failed();
    assert_eq!(error.message, "Ocorreu um erro ao remover o livro");
    assert_eq!(error.status, 502);
}
